//! The failures that end the daemon, and the exit code of a run.

use vstd::prelude::*;
use vstd::string::*;

verus! {

/// Why the host bus subsystem refused a request.
#[derive(Clone, Copy, Debug, PartialEq, Eq, Structural)]
pub enum BusError {
    /// The process may not use the bus.
    PermissionDenied,
    /// The driver or the subsystem failed.
    Driver,
}

/// A failure that ends the daemon. All but the last two come before the
/// event loop is entered; the last two end the loop.
#[derive(Clone, Copy, Debug, PartialEq, Eq, Structural)]
pub enum FatalError {
    /// The home directory, under which the configuration lives, is unknown.
    HomeUnknown,
    /// The configuration file is there and cannot be read as a configuration.
    ConfigMalformed,
    /// No configuration file is there and the defaults cannot be written.
    ConfigUnwritable,
    /// The log sink cannot be created.
    LogSinkUnavailable,
    /// The display tool cannot be found.
    ToolNotFound,
    /// The subscription to hotplug events cannot be established.
    SubscriptionFailed(BusError),
    /// The attached devices cannot be listed.
    BusUnavailable(BusError),
    /// The event source has ended.
    EventStreamEnded,
    /// The event source has failed.
    EventStreamFailed(BusError),
}

/// How a run of the program ended.
#[derive(Clone, Copy, Debug, PartialEq, Eq, Structural)]
pub enum RunOutcome {
    /// The program only informed the operator or installed itself.
    Informational,
    /// The daemon shut down in good order.
    Shutdown,
    /// The daemon met a fatal failure.
    Fatal(FatalError),
}

impl FatalError {
    /// The words for the operator.
    pub open spec fn diagnostic(self) -> Seq<char> {
        match self {
            FatalError::HomeUnknown => "Failed to get home directory"@,
            FatalError::ConfigMalformed => "Failed to load config"@,
            FatalError::ConfigUnwritable => "Failed to write default config"@,
            FatalError::LogSinkUnavailable => "Failed to set up logging"@,
            FatalError::ToolNotFound => "Failed to find betterdisplaycli"@,
            FatalError::SubscriptionFailed(_) => "Failed to start USB device monitoring"@,
            FatalError::BusUnavailable(_) => "Failed to list USB devices"@,
            FatalError::EventStreamEnded => "USB device monitoring ended"@,
            FatalError::EventStreamFailed(_) => "Error in USB device monitoring"@,
        }
    }

    /// The words for the operator.
    pub fn describe(&self) -> (words: &'static str)
        ensures
            words@ == self.diagnostic(),
    {
        match self {
            FatalError::HomeUnknown => "Failed to get home directory",
            FatalError::ConfigMalformed => "Failed to load config",
            FatalError::ConfigUnwritable => "Failed to write default config",
            FatalError::LogSinkUnavailable => "Failed to set up logging",
            FatalError::ToolNotFound => "Failed to find betterdisplaycli",
            FatalError::SubscriptionFailed(_) => "Failed to start USB device monitoring",
            FatalError::BusUnavailable(_) => "Failed to list USB devices",
            FatalError::EventStreamEnded => "USB device monitoring ended",
            FatalError::EventStreamFailed(_) => "Error in USB device monitoring",
        }
    }

    /// Whether the failure comes before the event loop is entered.
    pub open spec fn at_startup(self) -> bool {
        !(self is EventStreamEnded || self is EventStreamFailed)
    }

    /// Whether the failure comes before the event loop is entered.
    pub fn is_startup(&self) -> (startup: bool)
        ensures
            startup == self.at_startup(),
    {
        match self {
            FatalError::EventStreamEnded => false,
            FatalError::EventStreamFailed(_) => false,
            _ => true,
        }
    }
}

impl RunOutcome {
    /// The exit code: zero unless the run met a fatal failure.
    pub open spec fn code(self) -> u8 {
        if self is Fatal {
            1
        } else {
            0
        }
    }

    /// The exit code of the process: zero for an informational run and for a
    /// shutdown in good order, one for any fatal failure.
    pub fn exit_code(&self) -> (code: u8)
        ensures
            code == self.code(),
    {
        match self {
            RunOutcome::Fatal(_) => 1,
            _ => 0,
        }
    }
}

} // verus!

//! The application: how it is started and what it runs with.

use crate::config::ResolvedConfig;
use crate::fatal::FatalError;
use vstd::prelude::*;

verus! {

/// The application once its configuration is resolved.
pub struct App {
    config: ResolvedConfig,
}

/// What an invocation of the program is to do.
#[derive(Clone, Copy, Debug, PartialEq, Eq, Structural)]
pub enum StartupMode {
    /// Install the entry that starts the daemon with the session, and leave.
    Install,
    /// Tell the operator how to start the daemon, and leave.
    Help,
    /// Run as the long-lived daemon.
    Launch,
}

/// A step of the startup of the daemon. Each step is outside work that may
/// fail; the steps are taken in the order in which they stand here.
#[derive(Clone, Copy, Debug, PartialEq, Eq, Structural)]
pub enum StartupStep {
    /// Find the home directory, under which the configuration lives.
    FindHome,
    /// Read the configuration file, if there is one.
    LoadConfig,
    /// Write the defaults to disk where no configuration file was found.
    SaveDefaults,
    /// Create the log sink with the configured level.
    OpenLog,
    /// Find the display tool.
    FindTool,
    /// Everything is in place: the event loop may be entered.
    Ready,
}

/// What follows a step: the next step when it succeeded, and the fatal
/// failure that belongs to it when it did not. Nothing follows `Ready`.
pub open spec fn step_after(step: StartupStep, succeeded: bool) -> Result<
    StartupStep,
    FatalError,
> {
    match step {
        StartupStep::FindHome => if succeeded {
            Ok(StartupStep::LoadConfig)
        } else {
            Err(FatalError::HomeUnknown)
        },
        StartupStep::LoadConfig => if succeeded {
            Ok(StartupStep::SaveDefaults)
        } else {
            Err(FatalError::ConfigMalformed)
        },
        StartupStep::SaveDefaults => if succeeded {
            Ok(StartupStep::OpenLog)
        } else {
            Err(FatalError::ConfigUnwritable)
        },
        StartupStep::OpenLog => if succeeded {
            Ok(StartupStep::FindTool)
        } else {
            Err(FatalError::LogSinkUnavailable)
        },
        StartupStep::FindTool => if succeeded {
            Ok(StartupStep::Ready)
        } else {
            Err(FatalError::ToolNotFound)
        },
        StartupStep::Ready => Ok(StartupStep::Ready),
    }
}

/// The mode for the two flags of the command line. Installing goes before
/// everything else; without the launch flag the program only prints its help.
pub open spec fn mode_for(install: bool, launch: bool) -> StartupMode {
    if install {
        StartupMode::Install
    } else if launch {
        StartupMode::Launch
    } else {
        StartupMode::Help
    }
}

/// Picks the mode for the two flags of the command line.
pub fn startup_mode(install: bool, launch: bool) -> (mode: StartupMode)
    ensures
        mode == mode_for(install, launch),
{
    if install {
        StartupMode::Install
    } else if launch {
        StartupMode::Launch
    } else {
        StartupMode::Help
    }
}

impl StartupStep {
    /// The step that startup begins with.
    pub fn first() -> (step: StartupStep)
        ensures
            step == StartupStep::FindHome,
    {
        StartupStep::FindHome
    }

    /// Says what follows this step. A step that failed ends the startup with
    /// its fatal failure, so the daemon never runs half set up.
    pub fn after(self, succeeded: bool) -> (next: Result<StartupStep, FatalError>)
        ensures
            next == step_after(self, succeeded),
            next matches Err(failure) ==> failure.at_startup(),
    {
        match self {
            StartupStep::FindHome => if succeeded {
                Ok(StartupStep::LoadConfig)
            } else {
                Err(FatalError::HomeUnknown)
            },
            StartupStep::LoadConfig => if succeeded {
                Ok(StartupStep::SaveDefaults)
            } else {
                Err(FatalError::ConfigMalformed)
            },
            StartupStep::SaveDefaults => if succeeded {
                Ok(StartupStep::OpenLog)
            } else {
                Err(FatalError::ConfigUnwritable)
            },
            StartupStep::OpenLog => if succeeded {
                Ok(StartupStep::FindTool)
            } else {
                Err(FatalError::LogSinkUnavailable)
            },
            StartupStep::FindTool => if succeeded {
                Ok(StartupStep::Ready)
            } else {
                Err(FatalError::ToolNotFound)
            },
            StartupStep::Ready => Ok(StartupStep::Ready),
        }
    }
}

impl App {
    /// The configuration the application runs with.
    pub closed spec fn settings(&self) -> ResolvedConfig {
        self.config
    }

    /// Makes the application for a resolved configuration.
    pub fn new(config: ResolvedConfig) -> (app: App)
        ensures
            app.settings() == config,
    {
        App { config }
    }

    /// The resolved configuration.
    pub fn config(&self) -> (config: &ResolvedConfig)
        ensures
            *config == self.settings(),
    {
        &self.config
    }
}

} // verus!

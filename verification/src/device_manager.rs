//! The device manager: the one context object of the event loop.
//!
//! The loop itself, which waits for the host, is the caller's: it subscribes
//! to hotplug events, lists the attached devices, and then hands everything
//! that the event source yields, in the order received, to the manager. The
//! manager moves through four phases that hold the caller to this order: the
//! subscription comes first, so that no event between the listing and the
//! subscription is lost; the listing fills the cache before any event is
//! looked at; and nothing is handled once the event source has ended.
//!
//! The manager keeps, as ghost state, the run of events that it has taken in
//! so far, the listing counted as one connect for each device. The cache is
//! at every moment what that run has left: it holds a device exactly when the
//! last event about its handle was a connect. `consistent` says so, `new`
//! establishes it and every method keeps it.

use crate::cache::{DeviceCache, DeviceHandle};
use crate::config::ResolvedConfig;
use crate::fatal::{BusError, FatalError};
use crate::identity::{DeviceIdentity, TargetIdentity};
use crate::presence::{
    cache_after, connects_of, law_each_event_adds_its_reaction, reaction_to, reactions_to, replay,
    target_present, AttachedDevice, HotplugEvent, Reaction, StreamSignal,
};
use vstd::prelude::*;

verus! {

/// Where the manager stands in the life of the daemon.
#[derive(Clone, Copy, Debug, PartialEq, Eq, Structural)]
pub enum Phase {
    /// Nothing has happened yet.
    Idle,
    /// The subscription to hotplug events is established.
    Subscribed,
    /// The attached devices are recorded and events are being handled.
    Watching,
    /// A fatal failure has ended the daemon.
    Stopped,
}

/// The cache, the configuration and the target of the event loop.
pub struct DeviceManager {
    devices: DeviceCache,
    history: Ghost<Seq<HotplugEvent>>,
    config: ResolvedConfig,
    target: TargetIdentity,
    phase: Phase,
}

impl DeviceManager {
    /// The cache as a map from handle to identity.
    pub closed spec fn cache(&self) -> Map<DeviceHandle, DeviceIdentity> {
        self.devices@
    }

    /// The events taken in so far, in order; the listing of the attached
    /// devices counts as one connect for each device.
    pub closed spec fn history(&self) -> Seq<HotplugEvent> {
        self.history@
    }

    /// The reactions that the manager has given so far, in order: those to
    /// the listing first, then one for each event.
    pub open spec fn reactions(&self) -> Seq<Reaction> {
        reactions_to(Map::empty(), self.watched(), self.history())
    }

    /// The configuration the manager was made with.
    pub closed spec fn settings(&self) -> ResolvedConfig {
        self.config
    }

    /// The target that the manager watches for.
    pub closed spec fn watched(&self) -> TargetIdentity {
        self.target
    }

    /// The phase the manager is in.
    pub closed spec fn stage(&self) -> Phase {
        self.phase
    }

    /// What holds of every manager that `new` has made, whatever was done
    /// with it since: the cache is what the events so far have left, starting
    /// from an empty cache; no event was taken in before the listing; and the
    /// target is the identity that the configured text names.
    pub open spec fn consistent(&self) -> bool {
        &&& self.cache() == replay(Map::empty(), self.history())
        &&& (self.stage() is Idle || self.stage() is Subscribed) ==> self.history().len() == 0
        &&& forall|identity: DeviceIdentity| #[trigger]
            self.watched().accepts(identity) <==> identity.named_by(
                self.settings().usb_device_id@,
            )
    }

    /// Whether a call left the configuration, the target and the phase as
    /// they were.
    pub open spec fn same_setup_as(&self, before: &DeviceManager) -> bool {
        &&& self.settings() == before.settings()
        &&& self.watched() == before.watched()
        &&& self.stage() == before.stage()
    }

    /// Makes the manager for a configuration. The cache is empty, and the
    /// target is the identity that the configured text names.
    pub fn new(config: ResolvedConfig) -> (manager: DeviceManager)
        ensures
            manager.cache() == Map::<DeviceHandle, DeviceIdentity>::empty(),
            manager.history() == Seq::<HotplugEvent>::empty(),
            manager.settings() == config,
            manager.stage() == Phase::Idle,
            manager.consistent(),
    {
        let target = TargetIdentity::parse(config.usb_device_id.as_str());
        DeviceManager {
            devices: DeviceCache::new(),
            history: Ghost(Seq::empty()),
            config,
            target,
            phase: Phase::Idle,
        }
    }

    /// The configuration the manager was made with.
    pub fn config(&self) -> (config: &ResolvedConfig)
        ensures
            *config == self.settings(),
    {
        &self.config
    }

    /// The target that the manager watches for.
    pub fn target(&self) -> (target: TargetIdentity)
        ensures
            target == self.watched(),
    {
        self.target
    }

    /// The phase the manager is in.
    pub fn phase(&self) -> (phase: Phase)
        ensures
            phase == self.stage(),
    {
        self.phase
    }

    /// The device cache, to look devices up in.
    pub fn devices(&self) -> (devices: &DeviceCache)
        ensures
            devices@ == self.cache(),
    {
        &self.devices
    }

    /// Whether the target counts as present: whether some recorded device
    /// has its identity.
    pub fn is_target_present(&self) -> (present: bool)
        ensures
            present == target_present(self.cache(), self.watched()),
    {
        match self.target.wanted {
            Some(identity) => {
                let held = self.devices.holds(identity);
                proof {
                    let cache = self.cache();
                    if held {
                        let handle = choose|handle: DeviceHandle|
                            cache.dom().contains(handle) && cache[handle] == identity;
                        assert(cache.contains_key(handle) && self.target.accepts(cache[handle]));
                    }
                }
                held
            },
            None => false,
        }
    }

    /// Records a device and says which reaction its arrival calls for.
    fn track(&mut self, device: AttachedDevice) -> (reaction: Reaction)
        requires
            old(self).consistent(),
            old(self).stage() == Phase::Watching,
        ensures
            final(self).cache() == cache_after(old(self).cache(), HotplugEvent::Connected(device)),
            final(self).history() == old(self).history().push(HotplugEvent::Connected(device)),
            final(self).reactions() == old(self).reactions().push(reaction),
            reaction == reaction_to(
                old(self).cache(),
                old(self).watched(),
                HotplugEvent::Connected(device),
            ),
            final(self).same_setup_as(old(self)),
            final(self).consistent(),
    {
        self.devices.record(device.handle, device.identity);
        proof {
            law_each_event_adds_its_reaction(
                Map::empty(),
                self.target,
                self.history@,
                HotplugEvent::Connected(device),
            );
            self.history@ = self.history@.push(HotplugEvent::Connected(device));
        }
        if crate::identity::matches(device.identity, &self.target) {
            Reaction::TargetPresent
        } else {
            Reaction::Recorded
        }
    }

    /// Handles the connect of a device: the device is recorded, and the
    /// present hook is asked for exactly when its identity is the target's.
    pub fn handle_device_connected(&mut self, device: AttachedDevice) -> (reaction: Reaction)
        requires
            old(self).consistent(),
            old(self).stage() == Phase::Watching,
        ensures
            final(self).cache() == old(self).cache().insert(device.handle, device.identity),
            final(self).history() == old(self).history().push(HotplugEvent::Connected(device)),
            final(self).reactions() == old(self).reactions().push(reaction),
            reaction == (if old(self).watched().accepts(device.identity) {
                Reaction::TargetPresent
            } else {
                Reaction::Recorded
            }),
            final(self).same_setup_as(old(self)),
            final(self).consistent(),
    {
        self.track(device)
    }

    /// Handles the disconnect of a handle: the handle is forgotten, and the
    /// absent hook is asked for exactly when the identity that was recorded
    /// under it is the target's. A handle that was never recorded changes
    /// nothing in the cache and asks for nothing.
    pub fn handle_device_disconnected(&mut self, handle: DeviceHandle) -> (reaction: Reaction)
        requires
            old(self).consistent(),
            old(self).stage() == Phase::Watching,
        ensures
            final(self).cache() == old(self).cache().remove(handle),
            final(self).history() == old(self).history().push(HotplugEvent::Disconnected(handle)),
            final(self).reactions() == old(self).reactions().push(reaction),
            reaction == (match old(self).cache().get(handle) {
                Some(identity) => if old(self).watched().accepts(identity) {
                    Reaction::TargetAbsent
                } else {
                    Reaction::Released(identity)
                },
                None => Reaction::UnknownHandle,
            }),
            !old(self).cache().contains_key(handle) ==> final(self).cache() == old(self).cache(),
            final(self).same_setup_as(old(self)),
            final(self).consistent(),
    {
        let prior = self.devices.forget(handle);
        proof {
            law_each_event_adds_its_reaction(
                Map::empty(),
                self.target,
                self.history@,
                HotplugEvent::Disconnected(handle),
            );
            self.history@ = self.history@.push(HotplugEvent::Disconnected(handle));
        }
        match prior {
            Some(identity) => {
                if crate::identity::matches(identity, &self.target) {
                    Reaction::TargetAbsent
                } else {
                    Reaction::Released(identity)
                }
            },
            None => {
                assert(self.cache() =~= old(self).cache());
                Reaction::UnknownHandle
            },
        }
    }

    /// Handles one hotplug event.
    pub fn handle_event(&mut self, event: HotplugEvent) -> (reaction: Reaction)
        requires
            old(self).consistent(),
            old(self).stage() == Phase::Watching,
        ensures
            final(self).cache() == cache_after(old(self).cache(), event),
            final(self).history() == old(self).history().push(event),
            final(self).reactions() == old(self).reactions().push(reaction),
            reaction == reaction_to(old(self).cache(), old(self).watched(), event),
            final(self).same_setup_as(old(self)),
            final(self).consistent(),
    {
        match event {
            HotplugEvent::Connected(device) => self.handle_device_connected(device),
            HotplugEvent::Disconnected(handle) => self.handle_device_disconnected(handle),
        }
    }

    /// Takes note of how the subscription to hotplug events went. This comes
    /// first, before the attached devices are listed. A subscription that
    /// cannot be established is fatal.
    pub fn subscribe(&mut self, subscription: Result<(), BusError>) -> (outcome: Result<
        (),
        FatalError,
    >)
        requires
            old(self).consistent(),
            old(self).stage() == Phase::Idle,
        ensures
            final(self).cache() == old(self).cache(),
            final(self).history() == old(self).history(),
            final(self).settings() == old(self).settings(),
            final(self).watched() == old(self).watched(),
            final(self).consistent(),
            match subscription {
                Ok(_) => outcome is Ok && final(self).stage() == Phase::Subscribed,
                Err(error) => outcome == Err::<(), FatalError>(
                    FatalError::SubscriptionFailed(error),
                ) && final(self).stage() == Phase::Stopped,
            },
    {
        match subscription {
            Ok(_) => {
                self.phase = Phase::Subscribed;
                Ok(())
            },
            Err(error) => {
                self.phase = Phase::Stopped;
                Err(FatalError::SubscriptionFailed(error))
            },
        }
    }

    /// Takes in the listing of the devices that are attached at startup.
    /// Every device of the listing is recorded, in the order of the listing,
    /// and there is one reaction for each: the present hook is asked for
    /// exactly for the devices whose identity is the target's. No event has
    /// been handled before, and after this the manager handles events. A
    /// listing that could not be had is fatal, and then nothing is recorded.
    pub fn enumerate_devices(&mut self, listing: Result<Vec<AttachedDevice>, BusError>) -> (outcome:
        Result<Vec<Reaction>, FatalError>)
        requires
            old(self).consistent(),
            old(self).stage() == Phase::Subscribed,
        ensures
            old(self).history() == Seq::<HotplugEvent>::empty(),
            old(self).cache() == Map::<DeviceHandle, DeviceIdentity>::empty(),
            final(self).settings() == old(self).settings(),
            final(self).watched() == old(self).watched(),
            final(self).consistent(),
            match listing {
                Ok(devices) => {
                    &&& outcome matches Ok(reactions)
                    &&& reactions@.len() == devices@.len()
                    &&& forall|i: int|
                        0 <= i < devices@.len() ==> #[trigger] reactions@[i] == (if old(
                            self,
                        ).watched().accepts(devices@[i].identity) {
                            Reaction::TargetPresent
                        } else {
                            Reaction::Recorded
                        })
                    &&& reactions@ == reactions_to(
                        Map::empty(),
                        old(self).watched(),
                        connects_of(devices@),
                    )
                    &&& final(self).history() == connects_of(devices@)
                    &&& final(self).reactions() == reactions@
                    &&& final(self).cache() == replay(Map::empty(), connects_of(devices@))
                    &&& final(self).stage() == Phase::Watching
                },
                Err(error) => {
                    &&& outcome == Err::<Vec<Reaction>, FatalError>(
                        FatalError::BusUnavailable(error),
                    )
                    &&& final(self).history() == old(self).history()
                    &&& final(self).cache() == old(self).cache()
                    &&& final(self).stage() == Phase::Stopped
                },
            },
    {
        proof {
            assert(self.history() =~= Seq::<HotplugEvent>::empty());
        }
        match listing {
            Ok(devices) => {
                let ghost events = connects_of(devices@);
                let mut reactions: Vec<Reaction> = Vec::new();
                self.phase = Phase::Watching;
                let mut i: usize = 0;
                while i < devices.len()
                    invariant
                        i <= devices.len(),
                        events == connects_of(devices@),
                        reactions@.len() == i,
                        self.history() == events.take(i as int),
                        self.consistent(),
                        self.stage() == Phase::Watching,
                        self.settings() == old(self).settings(),
                        self.watched() == old(self).watched(),
                        forall|j: int|
                            0 <= j < i ==> #[trigger] reactions@[j] == reaction_to(
                                replay(Map::empty(), events.take(j)),
                                old(self).watched(),
                                events[j],
                            ),
                    decreases devices.len() - i,
                {
                    let reaction = self.track(devices[i]);
                    proof {
                        assert(events.take(i as int).push(events[i as int]) =~= events.take(
                            i + 1,
                        ));
                    }
                    reactions.push(reaction);
                    i = i + 1;
                }
                proof {
                    assert(events.take(i as int) =~= events);
                    assert(reactions@ =~= reactions_to(Map::empty(), old(self).watched(), events));
                }
                Ok(reactions)
            },
            Err(error) => {
                self.phase = Phase::Stopped;
                Err(FatalError::BusUnavailable(error))
            },
        }
    }

    /// Takes what the event source yields next. An event is handled. The end
    /// of the source and its failure are both fatal: the cache stays as it
    /// is and the manager handles nothing more.
    pub fn monitor_devices(&mut self, signal: StreamSignal) -> (outcome: Result<
        Reaction,
        FatalError,
    >)
        requires
            old(self).consistent(),
            old(self).stage() == Phase::Watching,
        ensures
            final(self).settings() == old(self).settings(),
            final(self).watched() == old(self).watched(),
            final(self).consistent(),
            match signal {
                StreamSignal::Event(event) => {
                    &&& outcome == Ok::<Reaction, FatalError>(
                        reaction_to(old(self).cache(), old(self).watched(), event),
                    )
                    &&& final(self).cache() == cache_after(old(self).cache(), event)
                    &&& final(self).history() == old(self).history().push(event)
                    &&& final(self).reactions() == old(self).reactions().push(
                        reaction_to(old(self).cache(), old(self).watched(), event),
                    )
                    &&& final(self).stage() == Phase::Watching
                },
                StreamSignal::Ended => {
                    &&& outcome == Err::<Reaction, FatalError>(FatalError::EventStreamEnded)
                    &&& final(self).cache() == old(self).cache()
                    &&& final(self).history() == old(self).history()
                    &&& final(self).stage() == Phase::Stopped
                },
                StreamSignal::Failed(error) => {
                    &&& outcome == Err::<Reaction, FatalError>(
                        FatalError::EventStreamFailed(error),
                    )
                    &&& final(self).cache() == old(self).cache()
                    &&& final(self).history() == old(self).history()
                    &&& final(self).stage() == Phase::Stopped
                },
            },
    {
        match signal {
            StreamSignal::Event(event) => Ok(self.handle_event(event)),
            StreamSignal::Ended => {
                self.phase = Phase::Stopped;
                Err(FatalError::EventStreamEnded)
            },
            StreamSignal::Failed(error) => {
                self.phase = Phase::Stopped;
                Err(FatalError::EventStreamFailed(error))
            },
        }
    }
}

} // verus!

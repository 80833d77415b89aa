//! The presence state machine as mathematics: events, reactions, and what a
//! run of events does to the device cache.
//!
//! There is no stored "present" flag. The cache is all the state there is,
//! and the reaction to an event is read off the event and the cache: a
//! connect records the device and asks for the present hook when the device
//! has the target identity; a disconnect forgets the handle and asks for the
//! absent hook when the identity recorded under it was the target's.
//!
//! Hooks are therefore fired per event, not per change of the overall
//! presence: each connect of a device with the target identity asks for the
//! present hook, also when another such device is attached already, and each
//! disconnect of a recorded device with the target identity asks for the
//! absent hook, also when another such device stays attached. The hooks are
//! idempotent, so a connect that is seen both in the listing of attached
//! devices and as an event does no harm.

use crate::cache::DeviceHandle;
use crate::fatal::BusError;
use crate::identity::{DeviceIdentity, TargetIdentity};
use vstd::prelude::*;

verus! {

/// A device as the host reports it: its handle and its identity.
#[derive(Clone, Copy, Debug, PartialEq, Eq, Structural)]
pub struct AttachedDevice {
    pub handle: DeviceHandle,
    pub identity: DeviceIdentity,
}

/// A presence change that the host reports. A disconnect carries only the
/// handle.
#[derive(Clone, Copy, Debug, PartialEq, Eq, Structural)]
pub enum HotplugEvent {
    Connected(AttachedDevice),
    Disconnected(DeviceHandle),
}

/// What the event source yields: an event, its end, or its failure.
#[derive(Clone, Copy, Debug, PartialEq, Eq, Structural)]
pub enum StreamSignal {
    Event(HotplugEvent),
    Ended,
    Failed(BusError),
}

/// One of the two external actions.
#[derive(Clone, Copy, Debug, PartialEq, Eq, Structural)]
pub enum Hook {
    TargetPresent,
    TargetAbsent,
}

/// What the state machine did with one event.
#[derive(Clone, Copy, Debug, PartialEq, Eq, Structural)]
pub enum Reaction {
    /// A device with the target identity was recorded: the present hook is
    /// to be fired.
    TargetPresent,
    /// Another device was recorded: nothing is to be fired.
    Recorded,
    /// A recorded device with the target identity was forgotten: the absent
    /// hook is to be fired.
    TargetAbsent,
    /// Another recorded device, of this identity, was forgotten: nothing is
    /// to be fired.
    Released(DeviceIdentity),
    /// The handle was not in the cache: nothing is changed or fired.
    UnknownHandle,
}

impl Reaction {
    /// The hook that the reaction asks for, if any.
    pub open spec fn hook(self) -> Option<Hook> {
        match self {
            Reaction::TargetPresent => Some(Hook::TargetPresent),
            Reaction::TargetAbsent => Some(Hook::TargetAbsent),
            _ => None,
        }
    }

    /// The hook to fire for this reaction, if any.
    pub fn hook_to_fire(&self) -> (hook: Option<Hook>)
        ensures
            hook == self.hook(),
    {
        match self {
            Reaction::TargetPresent => Some(Hook::TargetPresent),
            Reaction::TargetAbsent => Some(Hook::TargetAbsent),
            _ => None,
        }
    }
}

/// The cache after one event: a connect records the device, a disconnect
/// forgets the handle.
pub open spec fn cache_after(
    cache: Map<DeviceHandle, DeviceIdentity>,
    event: HotplugEvent,
) -> Map<DeviceHandle, DeviceIdentity> {
    match event {
        HotplugEvent::Connected(device) => cache.insert(device.handle, device.identity),
        HotplugEvent::Disconnected(handle) => cache.remove(handle),
    }
}

/// The reaction to one event, given the cache before it.
pub open spec fn reaction_to(
    cache: Map<DeviceHandle, DeviceIdentity>,
    target: TargetIdentity,
    event: HotplugEvent,
) -> Reaction {
    match event {
        HotplugEvent::Connected(device) => if target.accepts(device.identity) {
            Reaction::TargetPresent
        } else {
            Reaction::Recorded
        },
        HotplugEvent::Disconnected(handle) => match cache.get(handle) {
            Some(identity) => if target.accepts(identity) {
                Reaction::TargetAbsent
            } else {
                Reaction::Released(identity)
            },
            None => Reaction::UnknownHandle,
        },
    }
}

/// The cache after a run of events, handled in order.
pub open spec fn replay(
    cache: Map<DeviceHandle, DeviceIdentity>,
    events: Seq<HotplugEvent>,
) -> Map<DeviceHandle, DeviceIdentity>
    decreases events.len(),
{
    if events.len() == 0 {
        cache
    } else {
        cache_after(replay(cache, events.drop_last()), events.last())
    }
}

/// The reactions to a run of events, handled in order: each event meets the
/// cache that the events before it have left.
pub open spec fn reactions_to(
    cache: Map<DeviceHandle, DeviceIdentity>,
    target: TargetIdentity,
    events: Seq<HotplugEvent>,
) -> Seq<Reaction> {
    Seq::new(
        events.len(),
        |i: int| reaction_to(replay(cache, events.take(i)), target, events[i]),
    )
}

/// The listing of the attached devices, read as one connect for each.
pub open spec fn connects_of(devices: Seq<AttachedDevice>) -> Seq<HotplugEvent> {
    Seq::new(devices.len(), |i: int| HotplugEvent::Connected(devices[i]))
}

/// Whether an event is about a given handle.
pub open spec fn concerns(event: HotplugEvent, handle: DeviceHandle) -> bool {
    match event {
        HotplugEvent::Connected(device) => device.handle == handle,
        HotplugEvent::Disconnected(gone) => gone == handle,
    }
}

/// Whether an event is the connect of a device under a given handle.
pub open spec fn brings(event: HotplugEvent, handle: DeviceHandle) -> bool {
    match event {
        HotplugEvent::Connected(device) => device.handle == handle,
        HotplugEvent::Disconnected(_) => false,
    }
}

/// Whether the target counts as present: some recorded device has its
/// identity.
pub open spec fn target_present(
    cache: Map<DeviceHandle, DeviceIdentity>,
    target: TargetIdentity,
) -> bool {
    exists|handle: DeviceHandle| #[trigger]
        cache.contains_key(handle) && target.accepts(cache[handle])
}

/// Every device of the listing gets one reaction, and the present hook is
/// asked for exactly for the devices whose identity is the target's: once
/// for each of them, in the order of the listing.
pub proof fn law_listing_fires_once_per_target_device(
    cache: Map<DeviceHandle, DeviceIdentity>,
    target: TargetIdentity,
    devices: Seq<AttachedDevice>,
)
    ensures
        reactions_to(cache, target, connects_of(devices)).len() == devices.len(),
        forall|i: int|
            0 <= i < devices.len() ==> (#[trigger] reactions_to(
                cache,
                target,
                connects_of(devices),
            )[i]).hook() == (if target.accepts(devices[i].identity) {
                Some(Hook::TargetPresent)
            } else {
                None
            }),
{
}

/// After any run of events, a handle holds the identity of its last connect,
/// provided no later event was about that handle. A disconnect of the handle
/// that comes next therefore gets back exactly that identity, and asks for
/// the absent hook exactly when that identity is the target's.
pub proof fn law_forget_returns_last_record(
    cache: Map<DeviceHandle, DeviceIdentity>,
    target: TargetIdentity,
    events: Seq<HotplugEvent>,
    k: int,
    device: AttachedDevice,
)
    requires
        0 <= k < events.len(),
        events[k] == HotplugEvent::Connected(device),
        forall|j: int| k < j < events.len() ==> !concerns(#[trigger] events[j], device.handle),
    ensures
        replay(cache, events).get(device.handle) == Some(device.identity),
        reaction_to(replay(cache, events), target, HotplugEvent::Disconnected(device.handle))
            == (if target.accepts(device.identity) {
            Reaction::TargetAbsent
        } else {
            Reaction::Released(device.identity)
        }),
    decreases events.len(),
{
    if k < events.len() - 1 {
        let earlier = events.drop_last();
        assert(!concerns(events[events.len() - 1], device.handle));
        assert forall|j: int| k < j < earlier.len() implies !concerns(
            #[trigger] earlier[j],
            device.handle,
        ) by {
            assert(earlier[j] == events[j]);
        }
        law_forget_returns_last_record(cache, target, earlier, k, device);
    }
}

/// The disconnect of a handle that no connect, listed or reported, has ever
/// brought asks for no hook and leaves the cache as it is.
pub proof fn law_unseen_disconnect_is_ignored(
    cache: Map<DeviceHandle, DeviceIdentity>,
    target: TargetIdentity,
    events: Seq<HotplugEvent>,
    handle: DeviceHandle,
)
    requires
        !cache.contains_key(handle),
        forall|j: int| 0 <= j < events.len() ==> !brings(#[trigger] events[j], handle),
    ensures
        !replay(cache, events).contains_key(handle),
        reaction_to(replay(cache, events), target, HotplugEvent::Disconnected(handle))
            == Reaction::UnknownHandle,
        Reaction::UnknownHandle.hook() is None,
        cache_after(replay(cache, events), HotplugEvent::Disconnected(handle)) == replay(
            cache,
            events,
        ),
    decreases events.len(),
{
    if events.len() > 0 {
        let earlier = events.drop_last();
        assert forall|j: int| 0 <= j < earlier.len() implies !brings(
            #[trigger] earlier[j],
            handle,
        ) by {
            assert(earlier[j] == events[j]);
        }
        law_unseen_disconnect_is_ignored(cache, target, earlier, handle);
        assert(!brings(events[events.len() - 1], handle));
    }
    assert(replay(cache, events).remove(handle) =~= replay(cache, events));
}

/// The connect of a device whose identity is not the target's asks for no
/// hook, whatever the cache holds.
pub proof fn law_foreign_connect_fires_nothing(
    cache: Map<DeviceHandle, DeviceIdentity>,
    target: TargetIdentity,
    device: AttachedDevice,
)
    requires
        !target.accepts(device.identity),
    ensures
        reaction_to(cache, target, HotplugEvent::Connected(device)).hook() is None,
{
}

/// A connect that is seen twice leaves the cache as a single one does.
pub proof fn law_repeated_connect_changes_nothing(
    cache: Map<DeviceHandle, DeviceIdentity>,
    device: AttachedDevice,
)
    ensures
        cache_after(
            cache_after(cache, HotplugEvent::Connected(device)),
            HotplugEvent::Connected(device),
        ) == cache_after(cache, HotplugEvent::Connected(device)),
{
    let once = cache.insert(device.handle, device.identity);
    assert(once.insert(device.handle, device.identity) =~= once);
}

/// The hooks follow the presence of the target: when the present hook is
/// asked for, the target is present afterwards, and the absent hook is only
/// asked for when the target was present before.
pub proof fn law_hooks_follow_presence(
    cache: Map<DeviceHandle, DeviceIdentity>,
    target: TargetIdentity,
    event: HotplugEvent,
)
    ensures
        reaction_to(cache, target, event) == Reaction::TargetPresent ==> target_present(
            cache_after(cache, event),
            target,
        ),
        reaction_to(cache, target, event) == Reaction::TargetAbsent ==> target_present(
            cache,
            target,
        ),
{
    match event {
        HotplugEvent::Connected(device) => {
            let after = cache_after(cache, event);
            if target.accepts(device.identity) {
                assert(after.contains_key(device.handle) && target.accepts(after[device.handle]));
            }
        },
        HotplugEvent::Disconnected(handle) => {
            if reaction_to(cache, target, event) == Reaction::TargetAbsent {
                assert(cache.contains_key(handle) && target.accepts(cache[handle]));
            }
        },
    }
}

/// Whether a handle counts as attached after a run of events: some connect
/// brought it, and no later event was about it.
pub open spec fn attached_after(events: Seq<HotplugEvent>, handle: DeviceHandle) -> bool {
    exists|k: int|
        0 <= k < events.len() && brings(#[trigger] events[k], handle) && forall|j: int|
            k < j < events.len() ==> !concerns(#[trigger] events[j], handle)
}

/// Starting from an empty cache, the cache holds a handle after a run of
/// events exactly when the handle counts as attached: every device that was
/// seen to connect and not yet seen to disconnect has its entry, and no other
/// handle has one.
pub proof fn law_cache_holds_exactly_the_attached(events: Seq<HotplugEvent>, handle: DeviceHandle)
    ensures
        replay(Map::empty(), events).contains_key(handle) <==> attached_after(events, handle),
    decreases events.len(),
{
    if events.len() > 0 {
        let earlier = events.drop_last();
        let last = events.last();
        law_cache_holds_exactly_the_attached(earlier, handle);
        if concerns(last, handle) {
            if brings(last, handle) {
                assert(brings(events[events.len() - 1], handle));
            } else {
                assert forall|k: int| 0 <= k < events.len() && brings(#[trigger] events[k], handle)
                    implies !(forall|j: int|
                    k < j < events.len() ==> !concerns(#[trigger] events[j], handle)) by {
                    assert(concerns(events[events.len() - 1], handle));
                }
            }
        } else {
            if attached_after(earlier, handle) {
                let k = choose|k: int|
                    0 <= k < earlier.len() && brings(#[trigger] earlier[k], handle) && forall|j: int|
                        k < j < earlier.len() ==> !concerns(#[trigger] earlier[j], handle);
                assert(brings(events[k], handle));
                assert forall|j: int| k < j < events.len() implies !concerns(
                    #[trigger] events[j],
                    handle,
                ) by {
                    if j < earlier.len() {
                        assert(earlier[j] == events[j]);
                    }
                }
            }
            if attached_after(events, handle) {
                let k = choose|k: int|
                    0 <= k < events.len() && brings(#[trigger] events[k], handle) && forall|j: int|
                        k < j < events.len() ==> !concerns(#[trigger] events[j], handle);
                assert(k < earlier.len());
                assert(brings(earlier[k], handle));
                assert forall|j: int| k < j < earlier.len() implies !concerns(
                    #[trigger] earlier[j],
                    handle,
                ) by {
                    assert(earlier[j] == events[j]);
                }
            }
        }
    }
}

/// Taking in one more event changes the cache as that event says and adds
/// the reaction to that event, and nothing else, to the reactions so far.
pub proof fn law_each_event_adds_its_reaction(
    cache: Map<DeviceHandle, DeviceIdentity>,
    target: TargetIdentity,
    events: Seq<HotplugEvent>,
    event: HotplugEvent,
)
    ensures
        replay(cache, events.push(event)) == cache_after(replay(cache, events), event),
        reactions_to(cache, target, events.push(event)) == reactions_to(
            cache,
            target,
            events,
        ).push(reaction_to(replay(cache, events), target, event)),
{
    let longer = events.push(event);
    assert(longer.drop_last() =~= events);
    assert forall|i: int| 0 <= i < longer.len() implies reactions_to(cache, target, longer)[i]
        == reactions_to(cache, target, events).push(
        reaction_to(replay(cache, events), target, event),
    )[i] by {
        if i < events.len() {
            assert(longer.take(i) =~= events.take(i));
        } else {
            assert(longer.take(i) =~= events);
        }
    }
    assert(reactions_to(cache, target, longer) =~= reactions_to(cache, target, events).push(
        reaction_to(replay(cache, events), target, event),
    ));
}

/// The reactions to a run of events do not depend on what comes after it:
/// the reactions to the first events of a longer run are the reactions to
/// those events alone. The reactions to the listing of the attached devices
/// therefore stand before the reaction to any event that follows it.
pub proof fn law_earlier_reactions_stand(
    cache: Map<DeviceHandle, DeviceIdentity>,
    target: TargetIdentity,
    first: Seq<HotplugEvent>,
    rest: Seq<HotplugEvent>,
)
    ensures
        reactions_to(cache, target, first + rest).take(first.len() as int) == reactions_to(
            cache,
            target,
            first,
        ),
{
    let all = first + rest;
    assert forall|i: int| 0 <= i < first.len() implies reactions_to(cache, target, all)[i]
        == reactions_to(cache, target, first)[i] by {
        assert(all.take(i) =~= first.take(i));
    }
    assert(reactions_to(cache, target, all).take(first.len() as int) =~= reactions_to(
        cache,
        target,
        first,
    ));
}

} // verus!

//! The capture loop's logic: translating dequeued native events into
//! abstract [`Event`]s, offering each to the session's filter callback, and
//! deciding which keys to grab.
//!
//! The blocking parts of a session — opening the native handle, waiting on
//! the native event queue, and the operating-system grab and ungrab calls —
//! are performed by the embedding application, which drives the state
//! machine below and hands every dequeued native event to these functions
//! as plain values.

use vstd::prelude::*;
use crate::events::{Event, EventType, GrabError, Key};
use crate::keycodes::{key_to_native, key_to_native_spec, native_to_key, native_to_key_spec};
use crate::registry::GrabRegistry;

verus! {

/// The abstract event a session builds for a key.  The press or release
/// tag comes from the native event's own type flag, never from history;
/// the timestamp is taken at translation time; the native codes are the
/// best-effort reverse mapping of the key.
pub open spec fn converted_event_spec(key: Key, is_press: bool, time: u64) -> Event {
    Event {
        event_type: if is_press {
            EventType::KeyPress(key)
        } else {
            EventType::KeyRelease(key)
        },
        time: time,
        name: None,
        code: key_to_native_spec(key).0,
        scan_code: key_to_native_spec(key).1,
    }
}

/// The abstract event for a dequeued native event: translation of the
/// native code, tagged by the native press flag.
pub open spec fn captured_event_spec(native_code: u32, is_press: bool, time: u64) -> Event {
    converted_event_spec(native_to_key_spec(native_code), is_press, time)
}

/// Builds the abstract event for a key.
pub fn convert_event(key: Key, is_press: bool, time: u64) -> (r: Event)
    ensures
        r == converted_event_spec(key, is_press, time),
{
    let (code, scan) = key_to_native(key);
    Event {
        event_type: if is_press {
            EventType::KeyPress(key)
        } else {
            EventType::KeyRelease(key)
        },
        time: time,
        name: None,
        code: code,
        scan_code: scan,
    }
}

/// One grabbing pass: offers a hypothetical press of every key in `keys`
/// to the callback; when the callback swallows the event (returns `None`)
/// and the key is not yet grabbed, asks the operating system for the grab
/// through `grab_port` and then records the key in the registry.
///
/// A key ends up grabbed only if it was already grabbed, or it is one of
/// `keys` and returning `None` for its press event is among the callback's
/// admitted behaviours; keys the pass never saw are untouched.  And the
/// pass misses nothing: a key of `keys` whose press the callback can only
/// answer with `None` is a member afterwards.
pub fn grabbing_pass<F: Fn(Event) -> Option<Event>, G: Fn(u32) -> ()>(
    callback: F,
    grab_port: G,
    registry: &mut GrabRegistry,
    keys: &Vec<Key>,
    time: u64,
)
    requires
        old(registry).wf(),
        forall|e: Event| #[trigger] call_requires(callback, (e,)),
        forall|c: u32| #[trigger] call_requires(grab_port, (c,)),
    ensures
        final(registry).wf(),
        forall|k: Key| old(registry)@.contains(k) ==> final(registry)@.contains(k),
        forall|k: Key| #[trigger] final(registry)@.contains(k) ==> old(registry)@.contains(k) || (
        keys@.contains(k) && call_ensures(
            callback,
            (converted_event_spec(k, true, time),),
            Option::<Event>::None,
        )),
        forall|k: Key|
            #[trigger] keys@.contains(k) && (forall|r: Option<Event>|
                call_ensures(callback, (converted_event_spec(k, true, time),), r) ==> r is None)
                ==> final(registry)@.contains(k),
{
    let n = keys.len();
    let mut i: usize = 0;
    while i < n
        invariant
            n == keys@.len(),
            0 <= i <= n,
            registry.wf(),
            forall|e: Event| #[trigger] call_requires(callback, (e,)),
            forall|c: u32| #[trigger] call_requires(grab_port, (c,)),
            forall|k: Key| old(registry)@.contains(k) ==> registry@.contains(k),
            forall|k: Key| #[trigger] registry@.contains(k) ==> old(registry)@.contains(k) || (
            keys@.contains(k) && call_ensures(
                callback,
                (converted_event_spec(k, true, time),),
                Option::<Event>::None,
            )),
            forall|j: int|
                0 <= j < i && (forall|r: Option<Event>|
                    call_ensures(callback, (converted_event_spec(#[trigger] keys@[j], true, time),), r)
                        ==> r is None) ==> registry@.contains(keys@[j]),
        decreases n - i,
    {
        let key = keys[i];
        let event = convert_event(key, true, time);
        let decision = callback(event);
        if decision.is_none() {
            if !registry.is_grabbed(key) {
                let (code, _scan) = key_to_native(key);
                grab_port(code);
                registry.mark_grabbed(key);
                proof {
                    assert(keys@[i as int] == key);
                    assert(keys@.contains(key));
                }
            }
        }
        i += 1;
    }
    proof {
        assert forall|k: Key|
            keys@.contains(k) && (forall|r: Option<Event>|
                call_ensures(callback, (converted_event_spec(k, true, time),), r) ==> r
                    is None) implies registry@.contains(k) by {
            let j = choose|j: int| 0 <= j < keys@.len() && keys@[j] == k;
            assert(registry@.contains(keys@[j]));
        }
    }
}

/// Translates one dequeued native event and offers it to the callback.
/// Whatever the callback answers satisfies its own contract applied to
/// exactly the translated event; at this stage the answer is not acted on
/// further, because filtering already happened during the grabbing pass.
pub fn deliver_event<F: Fn(Event) -> Option<Event>>(
    callback: F,
    native_code: u32,
    is_press: bool,
    time: u64,
) -> (r: Option<Event>)
    requires
        forall|e: Event| #[trigger] call_requires(callback, (e,)),
    ensures
        call_ensures(callback, (captured_event_spec(native_code, is_press, time),), r),
{
    let key = native_to_key(native_code);
    let event = convert_event(key, is_press, time);
    callback(event)
}

/// Processes a batch of already-dequeued native events, strictly in the
/// order the operating system delivered them: each is translated, offered
/// to the callback (the callback for one event always runs before the next
/// event is taken up), and returned.  The returned sequence is exactly the
/// translation of the batch, each entry tagged by its own native press
/// flag.
pub fn listening_burst<F: Fn(Event) -> Option<Event>>(
    callback: F,
    natives: &Vec<(u32, bool, u64)>,
) -> (delivered: Vec<Event>)
    requires
        forall|e: Event| #[trigger] call_requires(callback, (e,)),
    ensures
        delivered@.len() == natives@.len(),
        forall|j: int|
            0 <= j < natives@.len() ==> delivered@[j] == captured_event_spec(
                natives@[j].0,
                natives@[j].1,
                natives@[j].2,
            ),
{
    let n = natives.len();
    let mut delivered: Vec<Event> = Vec::new();
    let mut i: usize = 0;
    while i < n
        invariant
            n == natives@.len(),
            0 <= i <= n,
            forall|e: Event| #[trigger] call_requires(callback, (e,)),
            delivered@.len() == i,
            forall|j: int|
                0 <= j < i ==> delivered@[j] == captured_event_spec(
                    natives@[j].0,
                    natives@[j].1,
                    natives@[j].2,
                ),
        decreases n - i,
    {
        let (code, is_press, time) = natives[i];
        let _decision = deliver_event(&callback, code, is_press, time);
        let key = native_to_key(code);
        let record = convert_event(key, is_press, time);
        delivered.push(record);
        i += 1;
    }
    delivered
}

/// One full enabled period of a capture session over a recorded native
/// stream: a grabbing pass over `keys`, then delivery of every event of
/// `natives` in order, then — the capture-enabled flag having gone false —
/// release of every grab through `ungrab_port`.  Whatever was grabbed, the
/// session leaves nothing intercepted behind, and what it delivered is
/// exactly the translation of the stream.
pub fn run_enabled_cycle<
    F: Fn(Event) -> Option<Event>,
    G: Fn(u32) -> (),
    U: Fn(u32) -> (),
>(
    callback: F,
    grab_port: G,
    ungrab_port: U,
    registry: &mut GrabRegistry,
    keys: &Vec<Key>,
    natives: &Vec<(u32, bool, u64)>,
    time: u64,
) -> (delivered: Vec<Event>)
    requires
        old(registry).wf(),
        forall|e: Event| #[trigger] call_requires(callback, (e,)),
        forall|c: u32| #[trigger] call_requires(grab_port, (c,)),
        forall|c: u32| #[trigger] call_requires(ungrab_port, (c,)),
    ensures
        final(registry).wf(),
        final(registry)@ == Set::<Key>::empty(),
        delivered@.len() == natives@.len(),
        forall|j: int|
            0 <= j < natives@.len() ==> delivered@[j] == captured_event_spec(
                natives@[j].0,
                natives@[j].1,
                natives@[j].2,
            ),
{
    grabbing_pass(&callback, &grab_port, registry, keys, time);
    let delivered = listening_burst(&callback, natives);
    registry.release_all(&ungrab_port);
    delivered
}

/// The states of a capture session, as the driver walks them: no handle
/// open while idle; a fresh grabbing pass on every re-enable, so the grab
/// set always reflects the current callback's decisions.
#[derive(Clone, Copy, Debug, PartialEq, Eq, Structural)]
pub enum CaptureState {
    Idle,
    Starting,
    Grabbing,
    Listening,
}

/// Where the session goes next.  `enabled` is the capture-enabled flag as
/// last read; `handle_open` reports whether the native input handle could
/// be opened.  A session that cannot open its handle fails to start rather
/// than looping; a disabled session returns to idle at the very next
/// check.
pub open spec fn next_state_spec(state: CaptureState, enabled: bool, handle_open: bool) -> Result<
    CaptureState,
    GrabError,
> {
    match state {
        CaptureState::Idle => Ok(
            if enabled {
                CaptureState::Starting
            } else {
                CaptureState::Idle
            },
        ),
        CaptureState::Starting => if !handle_open {
            Err(GrabError)
        } else {
            Ok(CaptureState::Grabbing)
        },
        CaptureState::Grabbing => Ok(
            if enabled {
                CaptureState::Listening
            } else {
                CaptureState::Idle
            },
        ),
        CaptureState::Listening => Ok(
            if enabled {
                CaptureState::Listening
            } else {
                CaptureState::Idle
            },
        ),
    }
}

/// Decides the session's next state; the driver performs the matching
/// action (open the handle, run a grabbing pass, fetch one event, or
/// release every grab and join).
pub fn next_state(state: CaptureState, enabled: bool, handle_open: bool) -> (r: Result<
    CaptureState,
    GrabError,
>)
    ensures
        r == next_state_spec(state, enabled, handle_open),
{
    match state {
        CaptureState::Idle => Ok(
            if enabled {
                CaptureState::Starting
            } else {
                CaptureState::Idle
            },
        ),
        CaptureState::Starting => if !handle_open {
            Err(GrabError)
        } else {
            Ok(CaptureState::Grabbing)
        },
        CaptureState::Grabbing => Ok(
            if enabled {
                CaptureState::Listening
            } else {
                CaptureState::Idle
            },
        ),
        CaptureState::Listening => Ok(
            if enabled {
                CaptureState::Listening
            } else {
                CaptureState::Idle
            },
        ),
    }
}

/// Cancellation is bounded: with the capture-enabled flag false, the
/// listening state leaves for idle at the very next per-event check —
/// the driver handles at most the one native event it had already
/// dequeued — and the idle transition is where `release_all` drops every
/// grab.  A disabled session also never re-enters a grabbing pass.
pub proof fn lemma_cancellation_is_observed(handle_open: bool)
    ensures
        next_state_spec(CaptureState::Listening, false, handle_open) == Ok::<
            CaptureState,
            GrabError,
        >(CaptureState::Idle),
        next_state_spec(CaptureState::Idle, false, handle_open) == Ok::<
            CaptureState,
            GrabError,
        >(CaptureState::Idle),
        next_state_spec(CaptureState::Grabbing, false, handle_open) == Ok::<
            CaptureState,
            GrabError,
        >(CaptureState::Idle),
{
}

} // verus!

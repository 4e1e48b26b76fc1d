//! The key states that the display shows, and how hook events update them.

use std::collections::HashMap;
use vstd::prelude::*;

use crate::hook::{lemma_hook_event_fields, spec_hook_key_event, HookKeyEvent};
use crate::layout::{key_id, make_key_id, KeyState};

verus! {

broadcast use vstd::std_specs::hash::group_hash_axioms;

/// The identifier of the key an event belongs to.
pub open spec fn event_key_id(event: HookKeyEvent) -> int {
    key_id(event.scan_code, event.vk_code, event.is_extended)
}

/// The identifier of the event's key fits in a `u32`.
pub open spec fn event_id_fits(event: HookKeyEvent) -> bool {
    event_key_id(event) <= u32::MAX
}

/// Every event of the batch has an identifier that fits in a `u32`.
pub open spec fn all_ids_fit(events: Seq<HookKeyEvent>) -> bool {
    forall|i: int| 0 <= i < events.len() ==> event_id_fits(#[trigger] events[i])
}

/// The state an event leaves its key in.
pub open spec fn event_state(event: HookKeyEvent) -> KeyState {
    if event.is_pressed {
        KeyState::Pressed
    } else {
        KeyState::Released
    }
}

/// The key states after one event.
pub open spec fn apply_event(states: Map<u32, KeyState>, event: HookKeyEvent) -> Map<u32, KeyState> {
    states.insert(event_key_id(event) as u32, event_state(event))
}

/// The key states after a batch of events, taken in order.
pub open spec fn apply_events(states: Map<u32, KeyState>, events: Seq<HookKeyEvent>) -> Map<
    u32,
    KeyState,
>
    decreases events.len(),
{
    if events.len() == 0 {
        states
    } else {
        apply_event(apply_events(states, events.drop_last()), events.last())
    }
}

/// The state shown for a key: the recorded one, or `Idle` for a key with no record.
pub open spec fn displayed_state(states: Map<u32, KeyState>, id: u32) -> KeyState {
    if states.contains_key(id) {
        states[id]
    } else {
        KeyState::Idle
    }
}

/// The last event of the batch that belongs to the key `id`, if there is one.
pub open spec fn last_event_for(events: Seq<HookKeyEvent>, id: u32) -> Option<HookKeyEvent>
    decreases events.len(),
{
    if events.len() == 0 {
        None
    } else if event_key_id(events.last()) == id {
        Some(events.last())
    } else {
        last_event_for(events.drop_last(), id)
    }
}

/// No key is recorded as `Idle`: `Idle` only stands for a key without a record.
pub open spec fn no_idle_records(states: Map<u32, KeyState>) -> bool {
    forall|id: u32| #[trigger] states.contains_key(id) ==> states[id] != KeyState::Idle
}

/// Taking in two batches one after the other leaves the same key states as
/// taking them in as one batch, the first followed by the second.
pub proof fn lemma_batches_compose(
    states: Map<u32, KeyState>,
    first: Seq<HookKeyEvent>,
    second: Seq<HookKeyEvent>,
)
    ensures
        apply_events(apply_events(states, first), second) == apply_events(states, first + second),
    decreases second.len(),
{
    if second.len() == 0 {
        assert(first + second =~= first);
    } else {
        lemma_batches_compose(states, first, second.drop_last());
        assert((first + second).drop_last() =~= first + second.drop_last());
        assert((first + second).last() == second.last());
    }
}

/// A batch in which no event belongs to the key `id` has no last event for it.
pub proof fn lemma_no_event_for_key(events: Seq<HookKeyEvent>, id: u32)
    ensures
        last_event_for(events, id) is None <==> forall|i: int|
            0 <= i < events.len() ==> event_key_id(#[trigger] events[i]) != id,
    decreases events.len(),
{
    if events.len() > 0 {
        let rest = events.drop_last();
        lemma_no_event_for_key(rest, id);
        if last_event_for(events, id) is None {
            assert forall|i: int| 0 <= i < events.len() implies event_key_id(
                #[trigger] events[i],
            ) != id by {
                if i < events.len() - 1 {
                    assert(events[i] == rest[i]);
                }
            }
        } else if event_key_id(events.last()) != id {
            let j = choose|j: int| 0 <= j < rest.len() && event_key_id(#[trigger] rest[j]) == id;
            assert(events[j] == rest[j]);
        }
    }
}

/// After a batch, a key shows the state its last event in the batch left it
/// in; a key with no event in the batch keeps the state it showed before.
pub proof fn lemma_latest_event_wins(
    states: Map<u32, KeyState>,
    events: Seq<HookKeyEvent>,
    id: u32,
)
    requires
        all_ids_fit(events),
    ensures
        displayed_state(apply_events(states, events), id) == match last_event_for(events, id) {
            Some(event) => event_state(event),
            None => displayed_state(states, id),
        },
    decreases events.len(),
{
    if events.len() > 0 {
        let rest = events.drop_last();
        assert(all_ids_fit(rest)) by {
            assert forall|i: int| 0 <= i < rest.len() implies event_id_fits(#[trigger] rest[i]) by {
                assert(rest[i] == events[i]);
            }
        }
        assert(event_id_fits(events[events.len() - 1]));
        lemma_latest_event_wins(states, rest, id);
    }
}

/// Events only ever record `Pressed` or `Released`, so a key never goes back to `Idle`.
pub proof fn lemma_no_idle_records_kept(states: Map<u32, KeyState>, events: Seq<HookKeyEvent>)
    requires
        no_idle_records(states),
    ensures
        no_idle_records(apply_events(states, events)),
    decreases events.len(),
{
    if events.len() > 0 {
        lemma_no_idle_records_kept(states, events.drop_last());
    }
}

/// Starting from a fresh display, a key shows `Idle` exactly when no event
/// of the batch belongs to it; otherwise it shows `Pressed` or `Released`.
pub proof fn lemma_idle_until_first_event(events: Seq<HookKeyEvent>, id: u32)
    requires
        all_ids_fit(events),
    ensures
        displayed_state(apply_events(Map::empty(), events), id) == KeyState::Idle <==> forall|i: int|
            0 <= i < events.len() ==> event_key_id(#[trigger] events[i]) != id,
{
    lemma_latest_event_wins(Map::empty(), events, id);
    lemma_no_event_for_key(events, id);
}

/// A key-down message lights its key as `Pressed`, and a key-up message shows
/// it as `Released`, once the event the hook reports for it is taken in.
pub proof fn lemma_hook_message_sets_key_state(
    states: Map<u32, KeyState>,
    n_code: i32,
    msg: u32,
    scan_code: u32,
    vk_code: u32,
    flags: u32,
)
    requires
        n_code >= 0,
        msg == 0x0100 || msg == 0x0101 || msg == 0x0104 || msg == 0x0105,
        key_id(scan_code, vk_code, flags & 0x01 != 0) <= u32::MAX,
    ensures
        ({
            let event = spec_hook_key_event(n_code, msg, scan_code, vk_code, flags)->0;
            let id = key_id(scan_code, vk_code, flags & 0x01 != 0) as u32;
            &&& displayed_state(apply_events(states, seq![event]), id) == (if msg == 0x0100 || msg
                == 0x0104 {
                KeyState::Pressed
            } else {
                KeyState::Released
            })
            &&& forall|other: u32|
                other != id ==> #[trigger] displayed_state(apply_events(states, seq![event]), other)
                    == displayed_state(states, other)
        }),
{
    let event = spec_hook_key_event(n_code, msg, scan_code, vk_code, flags)->0;
    lemma_hook_event_fields(n_code, msg, scan_code, vk_code, flags);
    assert(seq![event].drop_last() =~= Seq::<HookKeyEvent>::empty());
    assert(event_key_id(event) == key_id(scan_code, vk_code, flags & 0x01 != 0));
    assert(apply_events(states, Seq::<HookKeyEvent>::empty()) == states);
    assert(seq![event].last() == event);
    let after = apply_events(states, seq![event]);
    assert(after == states.insert(event_key_id(event) as u32, event_state(event)));
    assert(event.is_pressed == (msg == 0x0100 || msg == 0x0104));
}

/// The state of every key the display has seen an event for.
pub struct KeyboardView {
    key_states: HashMap<u32, KeyState>,
}

impl View for KeyboardView {
    type V = Map<u32, KeyState>;

    closed spec fn view(&self) -> Map<u32, KeyState> {
        self.key_states@
    }
}

impl KeyboardView {
    /// A display that has seen no event: every key is `Idle`.
    pub fn new() -> (view: KeyboardView)
        ensures
            view@ == Map::<u32, KeyState>::empty(),
    {
        KeyboardView { key_states: HashMap::new() }
    }

    /// Takes in a batch of pending hook events, in the order they arrived:
    /// each one records its key as `Pressed` or `Released`.
    pub fn poll_events(&mut self, events: &Vec<HookKeyEvent>)
        requires
            all_ids_fit(events@),
        ensures
            final(self)@ == apply_events(old(self)@, events@),
    {
        let n = events.len();
        let mut i: usize = 0;
        while i < n
            invariant
                n == events@.len(),
                i <= n,
                all_ids_fit(events@),
                self@ == apply_events(old(self)@, events@.take(i as int)),
            decreases n - i,
        {
            let event = events[i];
            assert(event_id_fits(events@[i as int]));
            let id = make_key_id(event.scan_code, event.vk_code, event.is_extended);
            let state = if event.is_pressed {
                KeyState::Pressed
            } else {
                KeyState::Released
            };
            self.key_states.insert(id, state);
            proof {
                assert(events@.take(i + 1).drop_last() =~= events@.take(i as int));
                assert(events@.take(i + 1).last() == events@[i as int]);
            }
            i = i + 1;
        }
        assert(events@.take(n as int) =~= events@);
    }

    /// The state shown for the key `id`.
    pub fn state_of(&self, id: u32) -> (state: KeyState)
        ensures
            state == displayed_state(self@, id),
    {
        match self.key_states.get(&id) {
            Some(state) => *state,
            None => KeyState::Idle,
        }
    }
}

} // verus!

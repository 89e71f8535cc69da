use vstd::prelude::*;
use std::collections::HashSet;
use crate::rime::{Rime, RimeCall, RimeSessionId};

verus! {

broadcast use vstd::std_specs::hash::group_hash_axioms;

/// The events of an input-method object, by what the logic reads of them.
#[derive(PartialEq, Eq, Structural, Debug, Clone, Copy)]
pub enum ImEvent {
    Activate,
    Deactivate,
    Done,
    Unavailable,
    /// Content type, surrounding text, text-change cause and the like.
    Other,
}

/// The state of a key event, as the keyboard grab reports it.
#[derive(PartialEq, Eq, Structural, Debug, Clone, Copy)]
pub enum KeyState {
    Released,
    Pressed,
    /// A state that the logic does not handle (a repeat, or an unknown value).
    Other,
}

/// How the keyboard state moves for a key.
#[derive(PartialEq, Eq, Structural, Debug, Clone, Copy)]
pub enum KeyDirection {
    Up,
    Down,
}

/// What to do first with a key event.
#[derive(PartialEq, Eq, Structural, Debug, Clone, Copy)]
pub enum KeyAction {
    /// Leave the keyboard state alone; the key is not handled.
    Forward,
    /// Move the keyboard state; the key is not handled (the input method is off).
    UpdateAndForward { direction: KeyDirection },
    /// Move the keyboard state, then hand the key symbol to the engine.
    UpdateAndProcess { direction: KeyDirection },
}

/// What to do, in order, after the engine's verdict on a key.
#[derive(PartialEq, Eq, Structural, Debug, Clone, Copy)]
pub enum KeyFollowUp {
    /// Perform `call` (a context request) and show the rendered preedit.
    ShowPreedit { call: RimeCall },
    /// Perform `call` (a commit request) and send the committed text, if any.
    SendCommit { call: RimeCall },
    /// Commit the pending input-method state with this serial.
    Commit { serial: u32 },
}

/// The follow-up of a key: when the engine took it, show the preedit, send the
/// commit text if there is one, and commit with the current serial, in that
/// order; when the engine let it go, nothing.
pub open spec fn key_follow_up_of(m: ImModel, processed: bool) -> Seq<KeyFollowUp> {
    if processed {
        seq![
            KeyFollowUp::ShowPreedit { call: RimeCall::GetContext { session: m.session } },
            KeyFollowUp::SendCommit { call: RimeCall::GetCommit { session: m.session } },
            KeyFollowUp::Commit { serial: m.serial },
        ]
    } else {
        Seq::empty()
    }
}

/// The bit that marks a key release in the modifier mask handed to the engine.
pub const RIME_RELEASE_MASK: u32 = 1 << 30;

/// What the logic knows of one seat's input method.
pub struct ImModel {
    pub activated: bool,
    pub pending: Seq<ImEvent>,
    pub key_handled: Set<u32>,
    pub session: usize,
    pub serial: u32,
}

/// One seat's input-method state: whether it is active, the events waiting for
/// the next `Done`, the keys whose press the engine took, the engine session and
/// the number of `Done` events seen.
pub struct InputMethodState {
    activated: bool,
    event_pending: Vec<ImEvent>,
    key_handled: HashSet<u32>,
    session: RimeSessionId,
    serial: u32,
}

impl View for InputMethodState {
    type V = ImModel;

    closed spec fn view(&self) -> ImModel {
        ImModel {
            activated: self.activated,
            pending: self.event_pending@,
            key_handled: self.key_handled@,
            session: self.session@,
            serial: self.serial,
        }
    }
}

/// Whether an event switches the input method on or off.
pub open spec fn is_toggle(e: ImEvent) -> bool {
    e is Activate || e is Deactivate
}

/// How many events of `s` switch the input method on or off.
pub open spec fn count_toggles(s: Seq<ImEvent>) -> nat
    decreases s.len(),
{
    if s.len() == 0 {
        0
    } else {
        count_toggles(s.drop_last()) + if is_toggle(s.last()) {
            1nat
        } else {
            0nat
        }
    }
}

/// Whether the input method is on after the events of `s`, from `activated`:
/// the last `Activate` or `Deactivate` decides, and without one nothing changes.
pub open spec fn activation_after(s: Seq<ImEvent>, activated: bool) -> bool
    decreases s.len(),
{
    if s.len() == 0 {
        activated
    } else if s.last() is Activate {
        true
    } else if s.last() is Deactivate {
        false
    } else {
        activation_after(s.drop_last(), activated)
    }
}

/// The state after one event: `Done` applies the waiting events (each switch
/// forgets the handled keys), empties the queue and counts one more `Done`;
/// any other event waits in the queue.
pub open spec fn event_step(m: ImModel, e: ImEvent) -> ImModel {
    if e is Done {
        ImModel {
            activated: activation_after(m.pending, m.activated),
            pending: Seq::empty(),
            key_handled: if count_toggles(m.pending) > 0 {
                Set::empty()
            } else {
                m.key_handled
            },
            session: m.session,
            serial: (m.serial + 1) as u32,
        }
    } else {
        ImModel { pending: m.pending.push(e), ..m }
    }
}

/// The engine calls that one event makes: on `Done`, one clearing of the
/// composition per waiting switch; none otherwise.
pub open spec fn event_calls(m: ImModel, e: ImEvent) -> Seq<RimeCall> {
    if e is Done {
        Seq::new(count_toggles(m.pending), |i: int| RimeCall::ClearComposition { session: m.session })
    } else {
        Seq::empty()
    }
}

/// The first step for a key: nothing for a state that is neither press nor
/// release; otherwise move the keyboard state (down on press, up on release),
/// and hand the key to the engine only while the input method is on.
pub open spec fn key_action_of(activated: bool, key_state: KeyState) -> KeyAction {
    if key_state is Other {
        KeyAction::Forward
    } else {
        let direction = if key_state is Pressed {
            KeyDirection::Down
        } else {
            KeyDirection::Up
        };
        if activated {
            KeyAction::UpdateAndProcess { direction }
        } else {
            KeyAction::UpdateAndForward { direction }
        }
    }
}

/// The state after the engine's verdict on a key, and whether the key is
/// handled: a key the engine took is recorded and handled; otherwise it is
/// forgotten, and handled exactly when it had been recorded (so the release of
/// a key whose press the engine took is swallowed too).
pub open spec fn key_step(m: ImModel, key_raw: u32, processed: bool) -> (ImModel, bool) {
    if processed {
        (ImModel { key_handled: m.key_handled.insert(key_raw), ..m }, true)
    } else {
        (ImModel { key_handled: m.key_handled.remove(key_raw), ..m }, m.key_handled.contains(key_raw))
    }
}

impl InputMethodState {
    /// A seat's input method with its engine session: off, nothing waiting, no
    /// handled keys, no `Done` seen.
    pub fn new(session: RimeSessionId) -> (im: InputMethodState)
        ensures
            im@ == (ImModel {
                activated: false,
                pending: Seq::empty(),
                key_handled: Set::empty(),
                session: session@,
                serial: 0,
            }),
    {
        InputMethodState {
            activated: false,
            event_pending: Vec::new(),
            key_handled: HashSet::new(),
            session,
            serial: 0,
        }
    }

    /// Whether the input method is on.
    pub fn is_activated(&self) -> (r: bool)
        ensures
            r == self@.activated,
    {
        self.activated
    }

    /// The number of `Done` events seen, which serves as the commit serial.
    pub fn serial(&self) -> (r: u32)
        ensures
            r == self@.serial,
    {
        self.serial
    }

    /// Whether an `Activate` or `Deactivate` waits for the next `Done`.
    pub fn has_pending_switch(&self) -> (r: bool)
        ensures
            r == (count_toggles(self@.pending) > 0),
    {
        let mut i: usize = 0;
        while i < self.event_pending.len()
            invariant
                i <= self.event_pending@.len(),
                count_toggles(self.event_pending@.take(i as int)) == 0,
            decreases self.event_pending@.len() - i,
        {
            let e = self.event_pending[i];
            proof {
                lemma_count_toggles_prefix(self.event_pending@, i as int, false);
            }
            if e == ImEvent::Activate || e == ImEvent::Deactivate {
                proof {
                    lemma_count_toggles_monotone(self.event_pending@, i + 1);
                }
                return true;
            }
            i += 1;
        }
        assert(self.event_pending@.take(i as int) =~= self.event_pending@);
        false
    }

    /// The engine session of this seat.
    pub fn session(&self) -> (r: &RimeSessionId)
        ensures
            r@ == self@.session,
    {
        &self.session
    }

    /// Handles an input-method event and returns the engine calls to make, in
    /// order. An `Unavailable` event is not handled here: another input method
    /// holds the seat.
    pub fn on_event(&mut self, rime: &Rime, event: ImEvent) -> (calls: Vec<RimeCall>)
        requires
            event != ImEvent::Unavailable,
            event is Done ==> old(self)@.serial < u32::MAX,
            event is Done && count_toggles(old(self)@.pending) > 0 ==> rime@.initialized,
        ensures
            final(self)@ == event_step(old(self)@, event),
            calls@ == event_calls(old(self)@, event),
    {
        let mut calls: Vec<RimeCall> = Vec::new();
        if event != ImEvent::Done {
            self.event_pending.push(event);
            return calls;
        }
        let ghost m = self@;
        let mut i: usize = 0;
        while i < self.event_pending.len()
            invariant
                self.event_pending@ == m.pending,
                self.session@ == m.session,
                self.serial == m.serial,
                i <= m.pending.len(),
                count_toggles(m.pending) > 0 ==> rime@.initialized,
                self.activated == activation_after(m.pending.take(i as int), m.activated),
                self.key_handled@ == if count_toggles(m.pending.take(i as int)) > 0 {
                    Set::<u32>::empty()
                } else {
                    m.key_handled
                },
                calls@ =~= Seq::new(
                    count_toggles(m.pending.take(i as int)),
                    |j: int| RimeCall::ClearComposition { session: m.session },
                ),
            decreases m.pending.len() - i,
        {
            let e = self.event_pending[i];
            proof {
                assert(m.pending.take(i + 1).drop_last() =~= m.pending.take(i as int));
                lemma_count_toggles_prefix(m.pending, i as int, m.activated);
                lemma_count_toggles_monotone(m.pending, i + 1);
            }
            if e == ImEvent::Activate || e == ImEvent::Deactivate {
                calls.push(rime.clear_composition(&self.session));
                self.key_handled.clear();
                self.activated = e == ImEvent::Activate;
            }
            i += 1;
        }
        assert(m.pending.take(m.pending.len() as int) =~= m.pending);
        self.event_pending.clear();
        self.serial = self.serial + 1;
        calls
    }

    /// The keyboard-state keycode of a key event's raw code.
    pub fn keycode(key_raw: u32) -> (code: u32)
        requires
            key_raw <= u32::MAX - 8,
        ensures
            code == key_raw + 8,
    {
        key_raw + 8
    }

    /// The first step for a key event; see `key_action_of`.
    pub fn key_action(&self, key_state: KeyState) -> (action: KeyAction)
        ensures
            action == key_action_of(self@.activated, key_state),
    {
        let direction = match key_state {
            KeyState::Pressed => KeyDirection::Down,
            KeyState::Released => KeyDirection::Up,
            KeyState::Other => {
                return KeyAction::Forward;
            },
        };
        if !self.activated {
            return KeyAction::UpdateAndForward { direction };
        }
        KeyAction::UpdateAndProcess { direction }
    }

    /// The modifier mask handed to the engine: the keyboard's effective
    /// modifiers, with the release bit added on a release.
    pub fn rime_modifiers(mods: u32, key_state: KeyState) -> (mask: u32)
        ensures
            mask == if key_state is Released {
                mods | RIME_RELEASE_MASK
            } else {
                mods
            },
    {
        if key_state == KeyState::Released {
            mods | RIME_RELEASE_MASK
        } else {
            mods
        }
    }

    /// What to send after the engine's verdict on a key; see `key_follow_up_of`.
    pub fn key_follow_up(&self, rime: &Rime, processed: bool) -> (steps: Vec<KeyFollowUp>)
        requires
            processed ==> rime@.initialized,
        ensures
            steps@ == key_follow_up_of(self@, processed),
    {
        let mut steps: Vec<KeyFollowUp> = Vec::new();
        if processed {
            steps.push(KeyFollowUp::ShowPreedit { call: rime.get_context(&self.session) });
            steps.push(KeyFollowUp::SendCommit { call: rime.get_commit(&self.session) });
            steps.push(KeyFollowUp::Commit { serial: self.serial });
        }
        assert(steps@ =~= key_follow_up_of(self@, processed));
        steps
    }

    /// Records the engine's verdict on a key and says whether the key is handled
    /// (and so not passed on); see `key_step`. What is sent next is
    /// `key_follow_up`.
    pub fn key_processed(&mut self, key_raw: u32, processed: bool) -> (handled: bool)
        ensures
            (final(self)@, handled) == key_step(old(self)@, key_raw, processed),
    {
        if processed {
            self.key_handled.insert(key_raw);
            true
        } else {
            self.key_handled.remove(&key_raw)
        }
    }
}

proof fn lemma_count_toggles_monotone(s: Seq<ImEvent>, i: int)
    requires
        0 <= i <= s.len(),
    ensures
        count_toggles(s.take(i)) <= count_toggles(s),
    decreases s.len(),
{
    if i < s.len() {
        assert(s.drop_last().take(i) =~= s.take(i));
        lemma_count_toggles_monotone(s.drop_last(), i);
    } else {
        assert(s.take(i) =~= s);
    }
}

proof fn lemma_count_toggles_prefix(s: Seq<ImEvent>, i: int, activated: bool)
    requires
        0 <= i < s.len(),
    ensures
        count_toggles(s.take(i + 1)) == count_toggles(s.take(i)) + if is_toggle(s[i]) {
            1nat
        } else {
            0nat
        },
        activation_after(s.take(i + 1), activated) == (if s[i] is Activate {
            true
        } else if s[i] is Deactivate {
            false
        } else {
            activation_after(s.take(i), activated)
        }),
{
    assert(s.take(i + 1).drop_last() =~= s.take(i));
}

/// The state after the events of `es`, one after the other.
pub open spec fn events_step(m: ImModel, es: Seq<ImEvent>) -> ImModel
    decreases es.len(),
{
    if es.len() == 0 {
        m
    } else {
        event_step(events_step(m, es.drop_last()), es.last())
    }
}

/// Events before a `Done` only wait: they leave the activation, the handled
/// keys, the session and the serial as they were, and join the queue in order.
pub proof fn lemma_events_wait_for_done(m: ImModel, es: Seq<ImEvent>)
    requires
        forall|i: int| 0 <= i < es.len() ==> !(#[trigger] es[i] is Done),
    ensures
        events_step(m, es) == (ImModel { pending: m.pending + es, ..m }),
    decreases es.len(),
{
    if es.len() == 0 {
        assert(m.pending + es =~= m.pending);
    } else {
        let init = es.drop_last();
        assert forall|i: int| 0 <= i < init.len() implies !(#[trigger] init[i] is Done) by {
            assert(init[i] == es[i]);
        }
        lemma_events_wait_for_done(m, init);
        assert(!(es[es.len() - 1] is Done));
        assert((m.pending + init).push(es.last()) =~= m.pending + es);
    }
}

/// After `Activate` (or `Deactivate`) and then `Done`, the input method is on
/// (or off), whatever was queued before, the handled keys are forgotten, the
/// queue is empty and one more `Done` is counted.
pub proof fn lemma_switch_then_done(m: ImModel, e: ImEvent)
    requires
        is_toggle(e),
        m.serial < u32::MAX,
    ensures
        event_step(event_step(m, e), ImEvent::Done) == (ImModel {
            activated: e is Activate,
            pending: Seq::empty(),
            key_handled: Set::empty(),
            session: m.session,
            serial: (m.serial + 1) as u32,
        }),
        event_calls(event_step(m, e), ImEvent::Done).len() == count_toggles(m.pending) + 1,
{
    assert(m.pending.push(e).drop_last() =~= m.pending);
}

/// While the input method is off, no key reaches the engine.
pub proof fn lemma_no_key_to_engine_while_off(key_state: KeyState)
    ensures
        !(key_action_of(false, key_state) is UpdateAndProcess),
{
}

/// A key the engine let go sends nothing and leaves everything but the record
/// of that key as it was; a key it took sends the preedit, then the commit, then
/// commits with the unchanged serial.
pub proof fn lemma_key_verdict_follow_up(m: ImModel, key_raw: u32, processed: bool)
    ensures
        !processed ==> key_follow_up_of(key_step(m, key_raw, processed).0, processed).len() == 0,
        processed ==> key_follow_up_of(key_step(m, key_raw, processed).0, processed)[2] == (
        KeyFollowUp::Commit { serial: m.serial }),
        key_step(m, key_raw, processed).0.activated == m.activated,
        key_step(m, key_raw, processed).0.serial == m.serial,
        key_step(m, key_raw, processed).0.pending == m.pending,
{
}

/// When the engine took a key's press, the key's release is swallowed as well,
/// even if the engine lets the release go, and the key is then forgotten.
pub proof fn lemma_taken_press_swallows_release(m: ImModel, key_raw: u32)
    ensures
        key_step(key_step(m, key_raw, true).0, key_raw, false) == (
            ImModel { key_handled: m.key_handled.remove(key_raw), ..m },
            true,
        ),
{
    assert(m.key_handled.insert(key_raw).remove(key_raw) =~= m.key_handled.remove(key_raw));
}

proof fn lemma_no_switch_keeps_activation(s: Seq<ImEvent>, activated: bool)
    requires
        forall|i: int|
            0 <= i < s.len() ==> !(#[trigger] s[i] is Activate) && !(s[i] is Deactivate),
    ensures
        activation_after(s, activated) == activated,
        count_toggles(s) == 0,
    decreases s.len(),
{
    if s.len() > 0 {
        let init = s.drop_last();
        assert forall|i: int| 0 <= i < init.len() implies !(#[trigger] init[i] is Activate)
            && !(init[i] is Deactivate) by {
            assert(init[i] == s[i]);
        }
        lemma_no_switch_keeps_activation(init, activated);
        assert(!(s[s.len() - 1] is Activate) && !(s[s.len() - 1] is Deactivate));
    }
}

/// A `Done` after events none of which is `Activate` or `Deactivate` (queued
/// before or since) leaves the input method on or off as it was, keeps the
/// handled keys, makes no engine call, empties the queue and counts one more
/// `Done`.
pub proof fn lemma_done_without_switch_keeps_state(m: ImModel, es: Seq<ImEvent>)
    requires
        forall|i: int|
            0 <= i < m.pending.len() ==> !(#[trigger] m.pending[i] is Activate)
                && !(m.pending[i] is Deactivate),
        forall|i: int|
            0 <= i < es.len() ==> !(#[trigger] es[i] is Activate) && !(es[i] is Deactivate)
                && !(es[i] is Done),
        m.serial < u32::MAX,
    ensures
        event_step(events_step(m, es), ImEvent::Done).activated == m.activated,
        event_step(events_step(m, es), ImEvent::Done).key_handled == m.key_handled,
        event_step(events_step(m, es), ImEvent::Done).pending.len() == 0,
        event_step(events_step(m, es), ImEvent::Done).serial == m.serial + 1,
        event_calls(events_step(m, es), ImEvent::Done).len() == 0,
{
    lemma_events_wait_for_done(m, es);
    let q = m.pending + es;
    assert forall|i: int| 0 <= i < q.len() implies !(#[trigger] q[i] is Activate)
        && !(q[i] is Deactivate) by {
        if i < m.pending.len() {
            assert(q[i] == m.pending[i]);
        } else {
            assert(q[i] == es[i - m.pending.len()]);
        }
    }
    lemma_no_switch_keeps_activation(q, m.activated);
}

/// A key that the engine took is always handled and recorded, whether or not it
/// was recorded before; the other keys' records are kept.
pub proof fn lemma_taken_key_is_handled(m: ImModel, key_raw: u32, other: u32)
    ensures
        key_step(m, key_raw, true).1,
        key_step(m, key_raw, true).0.key_handled.contains(key_raw),
        other != key_raw ==> (key_step(m, key_raw, true).0.key_handled.contains(other)
            <==> m.key_handled.contains(other)),
{
}

/// After a key that the engine took, whatever the state, exactly three steps
/// follow: the preedit is fetched and shown, then the committed text is fetched
/// and sent, then the state is committed with the current serial.
pub proof fn lemma_taken_key_follow_up(m: ImModel)
    ensures
        key_follow_up_of(m, true).len() == 3,
        key_follow_up_of(m, true)[0] == (KeyFollowUp::ShowPreedit {
            call: RimeCall::GetContext { session: m.session },
        }),
        key_follow_up_of(m, true)[1] == (KeyFollowUp::SendCommit {
            call: RimeCall::GetCommit { session: m.session },
        }),
        key_follow_up_of(m, true)[2] == (KeyFollowUp::Commit { serial: m.serial }),
{
}

} // verus!

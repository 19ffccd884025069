//! The protocol-facing state machine: focus and modifier gating, the
//! one-shot keymap forward, commit-serial bookkeeping, and the key-repeat
//! timer. Handlers decide; they return the outward actions (sink writes and
//! timer arms) for the caller to perform, in order.

use vstd::prelude::*;
use crate::AnkraEngine;
use crate::AnkraResponse;
use crate::RespView;
use crate::table::reset_view;
use crate::table::spec_step;
use crate::table::MatchView;

verus! {

/// Whether this session currently has the input focus.
#[derive(PartialEq, Eq, Structural)]
pub enum InputMethodState {
    Active,
    Inactive,
}

/// The negotiated auto-repeat parameters: presses per second and the delay
/// in milliseconds before repeating starts.
#[derive(Clone, Copy)]
pub struct RepeatInfo {
    pub rate: i32,
    pub delay: i32,
}

/// Whether a key is currently held, and if so which one, since when (a
/// monotonic millisecond timestamp), at what protocol time it was pressed,
/// and whether the periodic repeat phase has begun.
#[derive(Clone, Copy)]
pub enum PressState {
    NotPressing,
    Pressing { pressed_at: u64, is_repeating: bool, key: u32, wayland_time: u32 },
}

impl PressState {
    /// Whether exactly this key is the one being held.
    pub open spec fn spec_is_pressing(self, query_key: u32) -> bool {
        match self {
            PressState::Pressing { key, .. } => key == query_key,
            PressState::NotPressing => false,
        }
    }

    /// Whether exactly this key is the one being held.
    pub fn is_pressing(&self, query_key: u32) -> (b: bool)
        ensures
            b == self.spec_is_pressing(query_key),
    {
        match self {
            PressState::Pressing { key, .. } => *key == query_key,
            PressState::NotPressing => false,
        }
    }
}

/// Whether a forwarded key goes down or up.
#[derive(Clone, Copy, PartialEq, Eq, Structural)]
pub enum KeyState {
    Pressed,
    Released,
}

/// An inbound input-method protocol event.
pub enum ImEvent {
    Activate,
    Deactivate,
    Done,
    Unavailable,
}

/// An inbound keyboard-grab protocol event.
pub enum KeyEvent {
    Keymap { format: u32, fd: i32, size: u32 },
    Key { state: KeyState, key: u32, time: u32 },
    Modifiers { depressed: u32, latched: u32, locked: u32, group: u32 },
    RepeatInfo { rate: i32, delay: i32 },
}

/// An outward effect a handler asks its caller to perform. Actions must be
/// performed in the order they are returned.
pub enum Action {
    /// Forward the keymap descriptor to the virtual-keyboard sink.
    SendKeymap { format: u32, fd: i32, size: u32 },
    /// Release the keymap descriptor.
    CloseFd { fd: i32 },
    /// Forward a raw key to the virtual-keyboard sink.
    ForwardKey { time: u32, key: u32, state: KeyState },
    /// Forward the raw modifier state to the virtual-keyboard sink.
    ForwardModifiers { depressed: u32, latched: u32, locked: u32, group: u32 },
    /// Show a non-final preview of the current candidate.
    ShowPreedit { text: String },
    /// Clear the preview.
    ClearPreedit,
    /// Deliver finalized text.
    CommitText { text: String },
    /// Flush a commit batch under this serial.
    CommitBatch { serial: u32 },
    /// Arm the repeat timer once, firing after `ms` milliseconds.
    ArmDelay { ms: u64 },
    /// Arm the repeat timer periodically, firing every `ms` milliseconds.
    ArmInterval { ms: u64 },
    /// Disarm the repeat timer.
    Disarm,
    /// The input-method capability is unavailable; the session cannot run.
    AbortUnavailable,
}

/// Spec-level image of an [`Action`], with text as a character sequence.
pub enum ActionView {
    SendKeymap { format: u32, fd: i32, size: u32 },
    CloseFd { fd: i32 },
    ForwardKey { time: u32, key: u32, state: KeyState },
    ForwardModifiers { depressed: u32, latched: u32, locked: u32, group: u32 },
    ShowPreedit { text: Seq<char> },
    ClearPreedit,
    CommitText { text: Seq<char> },
    CommitBatch { serial: u32 },
    ArmDelay { ms: u64 },
    ArmInterval { ms: u64 },
    Disarm,
    AbortUnavailable,
}

impl View for Action {
    type V = ActionView;

    open spec fn view(&self) -> ActionView {
        match self {
            Action::SendKeymap { format, fd, size } => ActionView::SendKeymap {
                format: *format,
                fd: *fd,
                size: *size,
            },
            Action::CloseFd { fd } => ActionView::CloseFd { fd: *fd },
            Action::ForwardKey { time, key, state } => ActionView::ForwardKey {
                time: *time,
                key: *key,
                state: *state,
            },
            Action::ForwardModifiers { depressed, latched, locked, group } => {
                ActionView::ForwardModifiers {
                    depressed: *depressed,
                    latched: *latched,
                    locked: *locked,
                    group: *group,
                }
            },
            Action::ShowPreedit { text } => ActionView::ShowPreedit { text: text@ },
            Action::ClearPreedit => ActionView::ClearPreedit,
            Action::CommitText { text } => ActionView::CommitText { text: text@ },
            Action::CommitBatch { serial } => ActionView::CommitBatch { serial: *serial },
            Action::ArmDelay { ms } => ActionView::ArmDelay { ms: *ms },
            Action::ArmInterval { ms } => ActionView::ArmInterval { ms: *ms },
            Action::Disarm => ActionView::Disarm,
            Action::AbortUnavailable => ActionView::AbortUnavailable,
        }
    }
}

/// The views of a returned action list, in order.
pub open spec fn views_of(acts: Seq<Action>) -> Seq<ActionView> {
    acts.map_values(|a: Action| a@)
}

/// The commit serial after one batch: the next value, wrapping at the
/// protocol's 32-bit width.
pub open spec fn next_serial(s: u32) -> u32 {
    vstd::wrapping::u32_specs::wrapping_add(s, 1)
}

/// A raw keycode translated into the numbering the dictionary uses.
pub open spec fn translate_key(key: u32) -> u16 {
    vstd::wrapping::u16_specs::wrapping_add(key as u16, 8)
}

/// The repeat delay as milliseconds for the timer; a negative negotiated
/// value is treated as no delay.
pub open spec fn delay_millis(d: i32) -> u64 {
    if d >= 0 {
        d as u64
    } else {
        0
    }
}

/// Milliseconds elapsed between two monotonic timestamps; zero if the clock
/// reads earlier than the recorded press.
pub open spec fn elapsed_since(now: u64, pressed_at: u64) -> u64 {
    if now >= pressed_at {
        (now - pressed_at) as u64
    } else {
        0
    }
}

/// The periodic repeat interval in milliseconds, `1000 / rate`, and never
/// less than one millisecond even for rates above one thousand per second.
pub open spec fn interval_millis(rate: i32) -> u64
    recommends
        rate > 0,
{
    let ms = 1000 as u64 / rate as u64;
    if ms == 0 {
        1
    } else {
        ms
    }
}

/// The protocol timestamp of a synthesized repeat press: always measured
/// from the original press, wrapping at the protocol's 32-bit width.
pub open spec fn repeat_time(wayland_time: u32, elapsed: u64) -> u32 {
    vstd::wrapping::u32_specs::wrapping_add(wayland_time, elapsed as u32)
}

/// Per-session orchestrator: the matching engine plus focus, modifier,
/// keymap, serial and repeat state.
pub struct AnkraContext {
    pub engine: AnkraEngine,
    pub current_state: InputMethodState,
    pub keymap_init: bool,
    pub mod_state: bool,
    pub serial: u32,
    pub repeat_state: Option<(RepeatInfo, PressState)>,
}

impl AnkraContext {
    /// The engine is at rest or mid-composition as its own invariant says,
    /// and a stored repeat negotiation always has a positive rate.
    pub open spec fn wf(self) -> bool {
        &&& self.engine.table.wf()
        &&& match self.repeat_state {
            Some(pair) => pair.0.rate > 0,
            None => true,
        }
    }
}

/// Composition keys are consumed only while focused and no modifier is held.
pub open spec fn gate_open(c: AnkraContext) -> bool {
    c.current_state is Active && c.mod_state
}

/// What one engine step on the translated key yields for this context.
pub open spec fn engine_step(c: AnkraContext, key: u16) -> (MatchView, RespView) {
    spec_step(c.engine.table.table.entries@, c.engine.table.config, c.engine.table@, key)
}

/// The sink writes owed for an engine response to a consumed press.
pub open spec fn resp_actions(r: RespView, time: u32, key: u32) -> Seq<ActionView> {
    match r {
        RespView::Empty => seq![ActionView::ClearPreedit],
        RespView::Undefined => seq![
            ActionView::ForwardKey { time, key, state: KeyState::Pressed },
            ActionView::ClearPreedit,
        ],
        RespView::Commit(t) => seq![
            ActionView::CommitText { text: t },
            ActionView::ClearPreedit,
        ],
        RespView::Suggest(t) => seq![ActionView::ShowPreedit { text: t }],
    }
}

/// The repeat state after a consumed press: a key not already tracked
/// becomes the tracked one, freshly pressed and not yet repeating.
pub open spec fn press_arm_state(
    rs: Option<(RepeatInfo, PressState)>,
    key: u32,
    now: u64,
    time: u32,
) -> Option<(RepeatInfo, PressState)> {
    match rs {
        Some(pair) => if !pair.1.spec_is_pressing(key) {
            Some(
                (
                    pair.0,
                    PressState::Pressing {
                        pressed_at: now,
                        is_repeating: false,
                        key,
                        wayland_time: time,
                    },
                ),
            )
        } else {
            rs
        },
        None => None,
    }
}

/// The timer arm owed for a consumed press: a one-shot delay, only when
/// repeat is negotiated and the key is not already the tracked one.
pub open spec fn press_arm_actions(rs: Option<(RepeatInfo, PressState)>, key: u32) -> Seq<
    ActionView,
> {
    match rs {
        Some(pair) => if !pair.1.spec_is_pressing(key) {
            seq![ActionView::ArmDelay { ms: delay_millis(pair.0.delay) }]
        } else {
            seq![]
        },
        None => seq![],
    }
}

/// The repeat state after a release: releasing the tracked key stops the
/// press; releasing any other key changes nothing.
pub open spec fn release_state(rs: Option<(RepeatInfo, PressState)>, key: u32) -> Option<
    (RepeatInfo, PressState),
> {
    match rs {
        Some(pair) => if pair.1.spec_is_pressing(key) {
            Some((pair.0, PressState::NotPressing))
        } else {
            rs
        },
        None => None,
    }
}

/// The timer action owed for a release: disarm when the tracked key goes up.
pub open spec fn release_actions(rs: Option<(RepeatInfo, PressState)>, key: u32) -> Seq<
    ActionView,
> {
    match rs {
        Some(pair) => if pair.1.spec_is_pressing(key) {
            seq![ActionView::Disarm]
        } else {
            seq![]
        },
        None => seq![],
    }
}

/// The repeat state after renegotiation: rate zero (or less) disables
/// repeat; a positive rate stores the new parameters and keeps any in-flight
/// press.
pub open spec fn renegotiated(
    rs: Option<(RepeatInfo, PressState)>,
    rate: i32,
    delay: i32,
) -> Option<(RepeatInfo, PressState)> {
    if rate <= 0 {
        None
    } else {
        Some(
            (
                RepeatInfo { rate, delay },
                match rs {
                    Some(pair) => pair.1,
                    None => PressState::NotPressing,
                },
            ),
        )
    }
}

/// The timer action owed by renegotiation: disabling repeat while a key is
/// live must disarm the timer, so it stays armed exactly while a press is
/// tracked; any other renegotiation leaves the timer alone.
pub open spec fn renegotiate_actions(rs: Option<(RepeatInfo, PressState)>, rate: i32) -> Seq<
    ActionView,
> {
    if rate <= 0 {
        match rs {
            Some(pair) => if pair.1 is Pressing {
                seq![ActionView::Disarm]
            } else {
                seq![]
            },
            None => seq![],
        }
    } else {
        seq![]
    }
}

/// The repeat state after losing focus: any in-flight press is forced off.
pub open spec fn deactivated(rs: Option<(RepeatInfo, PressState)>) -> Option<
    (RepeatInfo, PressState),
> {
    match rs {
        Some(pair) => Some((pair.0, PressState::NotPressing)),
        None => None,
    }
}

/// The actions a keyboard event produces.
pub open spec fn key_ev_actions(pre: AnkraContext, ev: KeyEvent, now: u64) -> Seq<ActionView> {
    match ev {
        KeyEvent::Keymap { format, fd, size } => if !pre.keymap_init {
            seq![ActionView::SendKeymap { format, fd, size }, ActionView::CloseFd { fd }]
        } else {
            seq![ActionView::CloseFd { fd }]
        },
        KeyEvent::Key { state, key, time } => if !gate_open(pre) {
            seq![ActionView::ForwardKey { time, key, state }]
        } else {
            match state {
                KeyState::Pressed => resp_actions(
                    engine_step(pre, translate_key(key)).1,
                    time,
                    key,
                ) + seq![ActionView::CommitBatch { serial: pre.serial }] + press_arm_actions(
                    pre.repeat_state,
                    key,
                ),
                KeyState::Released => release_actions(pre.repeat_state, key) + seq![
                    ActionView::ForwardKey { time, key, state: KeyState::Released },
                ],
            }
        },
        KeyEvent::Modifiers { depressed, latched, locked, group } => seq![
            ActionView::ForwardModifiers { depressed, latched, locked, group },
        ],
        KeyEvent::RepeatInfo { rate, .. } => renegotiate_actions(pre.repeat_state, rate),
    }
}

/// How a keyboard event moves the context state.
pub open spec fn key_ev_post(
    pre: AnkraContext,
    ev: KeyEvent,
    now: u64,
    post: AnkraContext,
) -> bool {
    match ev {
        KeyEvent::Keymap { .. } => post == AnkraContext { keymap_init: true, ..pre },
        KeyEvent::Key { state, key, time } => if !gate_open(pre) {
            post == pre
        } else {
            match state {
                KeyState::Pressed => {
                    &&& post.engine.table@ == engine_step(pre, translate_key(key)).0
                    &&& post.engine.table.table == pre.engine.table.table
                    &&& post.engine.table.config == pre.engine.table.config
                    &&& post.current_state == pre.current_state
                    &&& post.keymap_init == pre.keymap_init
                    &&& post.mod_state == pre.mod_state
                    &&& post.serial == next_serial(pre.serial)
                    &&& post.repeat_state == press_arm_state(pre.repeat_state, key, now, time)
                },
                KeyState::Released => post == AnkraContext {
                    repeat_state: release_state(pre.repeat_state, key),
                    ..pre
                },
            }
        },
        KeyEvent::Modifiers { depressed, latched, locked, group } => post == AnkraContext {
            mod_state: depressed == 0 && latched == 0 && locked == 0,
            ..pre
        },
        KeyEvent::RepeatInfo { rate, delay } => post == AnkraContext {
            repeat_state: renegotiated(pre.repeat_state, rate, delay),
            ..pre
        },
    }
}

/// The actions an input-method event produces.
pub open spec fn im_ev_actions(pre: AnkraContext, ev: ImEvent) -> Seq<ActionView> {
    match ev {
        ImEvent::Activate => seq![],
        ImEvent::Deactivate => seq![],
        ImEvent::Unavailable => seq![ActionView::AbortUnavailable],
        ImEvent::Done => if pre.current_state is Inactive {
            seq![ActionView::Disarm]
        } else {
            seq![]
        },
    }
}

/// How an input-method event moves the context state. A `Done` batch end
/// while unfocused abandons the composition and the in-flight press as one
/// transition.
pub open spec fn im_ev_post(pre: AnkraContext, ev: ImEvent, post: AnkraContext) -> bool {
    match ev {
        ImEvent::Activate => post == AnkraContext {
            current_state: InputMethodState::Active,
            ..pre
        },
        ImEvent::Deactivate => post == AnkraContext {
            current_state: InputMethodState::Inactive,
            ..pre
        },
        ImEvent::Unavailable => post == pre,
        ImEvent::Done => if pre.current_state is Inactive {
            &&& post.engine.table@ == reset_view()
            &&& post.engine.table.table == pre.engine.table.table
            &&& post.engine.table.config == pre.engine.table.config
            &&& post.current_state == pre.current_state
            &&& post.keymap_init == pre.keymap_init
            &&& post.mod_state == pre.mod_state
            &&& post.serial == pre.serial
            &&& post.repeat_state == deactivated(pre.repeat_state)
        } else {
            post == pre
        },
    }
}

/// The context with the repeat phase marked as begun, which is where a
/// timer fire leaves the repeat state before re-dispatching the press.
pub open spec fn timer_mid(pre: AnkraContext) -> AnkraContext {
    match pre.repeat_state {
        Some(pair) => match pair.1 {
            PressState::Pressing { pressed_at, is_repeating, key, wayland_time } => AnkraContext {
                repeat_state: Some(
                    (
                        pair.0,
                        PressState::Pressing {
                            pressed_at,
                            is_repeating: true,
                            key,
                            wayland_time,
                        },
                    ),
                ),
                ..pre
            },
            PressState::NotPressing => pre,
        },
        None => pre,
    }
}

/// The press a timer fire synthesizes for the tracked key, timed from the
/// original press.
pub open spec fn synth_event(pre: AnkraContext, now: u64) -> KeyEvent {
    match pre.repeat_state {
        Some(pair) => match pair.1 {
            PressState::Pressing { pressed_at, is_repeating, key, wayland_time } => {
                KeyEvent::Key {
                    state: KeyState::Pressed,
                    key,
                    time: repeat_time(wayland_time, elapsed_since(now, pressed_at)),
                }
            },
            PressState::NotPressing => KeyEvent::Key {
                state: KeyState::Pressed,
                key: 0,
                time: 0,
            },
        },
        None => KeyEvent::Key { state: KeyState::Pressed, key: 0, time: 0 },
    }
}

/// The actions a timer fire produces: on the first fire the timer switches
/// to the periodic interval of `1000 / rate` milliseconds, and the
/// synthesized press is re-dispatched through the ordinary key path.
pub open spec fn timer_ev_actions(pre: AnkraContext, now: u64) -> Seq<ActionView> {
    match pre.repeat_state {
        Some(pair) => match pair.1 {
            PressState::Pressing { pressed_at, is_repeating, key, wayland_time } => {
                let head = if !is_repeating {
                    seq![ActionView::ArmInterval { ms: interval_millis(pair.0.rate) }]
                } else {
                    seq![]
                };
                head + key_ev_actions(timer_mid(pre), synth_event(pre, now), now)
            },
            PressState::NotPressing => seq![],
        },
        None => seq![],
    }
}

/// How a timer fire moves the context state.
pub open spec fn timer_ev_post(pre: AnkraContext, now: u64, post: AnkraContext) -> bool {
    match pre.repeat_state {
        Some(pair) => match pair.1 {
            PressState::Pressing { .. } => key_ev_post(
                timer_mid(pre),
                synth_event(pre, now),
                now,
                post,
            ),
            PressState::NotPressing => post == pre,
        },
        None => post == pre,
    }
}

} // verus!

verus! {

impl AnkraContext {
    /// A fresh session around an engine: unfocused, ungated, keymap not yet
    /// forwarded, serial at zero, repeat not negotiated.
    pub fn new(engine: AnkraEngine) -> (c: Self)
        requires
            engine.table.wf(),
        ensures
            c.engine == engine,
            c.current_state is Inactive,
            c.keymap_init == false,
            c.mod_state == true,
            c.serial == 0,
            c.repeat_state is None,
            c.wf(),
    {
        AnkraContext {
            engine,
            current_state: InputMethodState::Inactive,
            keymap_init: false,
            mod_state: true,
            serial: 0,
            repeat_state: None,
        }
    }

    /// Handle an input-method protocol event. A batch end while unfocused
    /// abandons the composition, disarms the timer and forces the press
    /// state off, atomically as one transition.
    pub fn handle_im_ev(&mut self, ev: ImEvent) -> (acts: Vec<Action>)
        requires
            old(self).wf(),
        ensures
            final(self).wf(),
            views_of(acts@) == im_ev_actions(*old(self), ev),
            im_ev_post(*old(self), ev, *final(self)),
    {
        let ghost pre = *old(self);
        let mut acts: Vec<Action> = Vec::new();
        match ev {
            ImEvent::Activate => {
                self.current_state = InputMethodState::Active;
            },
            ImEvent::Deactivate => {
                self.current_state = InputMethodState::Inactive;
            },
            ImEvent::Unavailable => {
                acts.push(Action::AbortUnavailable);
            },
            ImEvent::Done => {
                if self.current_state == InputMethodState::Inactive {
                    self.engine.reset();
                    acts.push(Action::Disarm);
                    let rs = self.repeat_state;
                    match rs {
                        Some((info, _press)) => {
                            self.repeat_state = Some((info, PressState::NotPressing));
                        },
                        None => {},
                    }
                }
            },
        }
        proof {
            assert(views_of(acts@) =~= im_ev_actions(pre, ev));
        }
        acts
    }

    /// Handle a keyboard event. While unfocused or gated by a held
    /// modifier, keys are forwarded verbatim; otherwise a press runs through
    /// the engine, a commit batch is flushed under the current serial, and
    /// the repeat press transition runs; a release runs the repeat release
    /// transition and is then forwarded unconditionally. Renegotiating
    /// repeat off while a key is live disarms the timer, keeping it armed
    /// exactly while a press is tracked.
    pub fn handle_key_ev(&mut self, ev: KeyEvent, now: u64) -> (acts: Vec<Action>)
        requires
            old(self).wf(),
        ensures
            final(self).wf(),
            views_of(acts@) == key_ev_actions(*old(self), ev, now),
            key_ev_post(*old(self), ev, now, *final(self)),
    {
        let ghost pre = *old(self);
        let mut acts: Vec<Action> = Vec::new();
        match ev {
            KeyEvent::Keymap { format, fd, size } => {
                if !self.keymap_init {
                    acts.push(Action::SendKeymap { format, fd, size });
                    self.keymap_init = true;
                }
                acts.push(Action::CloseFd { fd });
            },
            KeyEvent::Key { state, key, time } => {
                let gate = self.current_state == InputMethodState::Active && self.mod_state;
                if !gate {
                    acts.push(Action::ForwardKey { time, key, state });
                } else {
                    match state {
                        KeyState::Pressed => {
                            let translated = (key as u16).wrapping_add(8);
                            let resp = self.engine.on_key_press(translated);
                            match resp {
                                AnkraResponse::Empty => {
                                    acts.push(Action::ClearPreedit);
                                },
                                AnkraResponse::Undefined => {
                                    acts.push(
                                        Action::ForwardKey {
                                            time,
                                            key,
                                            state: KeyState::Pressed,
                                        },
                                    );
                                    acts.push(Action::ClearPreedit);
                                },
                                AnkraResponse::Commit(s) => {
                                    acts.push(Action::CommitText { text: s });
                                    acts.push(Action::ClearPreedit);
                                },
                                AnkraResponse::Suggest(s) => {
                                    acts.push(Action::ShowPreedit { text: s });
                                },
                            }
                            acts.push(Action::CommitBatch { serial: self.serial });
                            self.serial = self.serial.wrapping_add(1);
                            let rs = self.repeat_state;
                            match rs {
                                Some((info, press_state)) => {
                                    if !press_state.is_pressing(key) {
                                        let ms: u64 = if info.delay >= 0 {
                                            info.delay as u64
                                        } else {
                                            0
                                        };
                                        acts.push(Action::ArmDelay { ms });
                                        self.repeat_state = Some(
                                            (
                                                info,
                                                PressState::Pressing {
                                                    pressed_at: now,
                                                    is_repeating: false,
                                                    key,
                                                    wayland_time: time,
                                                },
                                            ),
                                        );
                                    }
                                },
                                None => {},
                            }
                        },
                        KeyState::Released => {
                            let rs = self.repeat_state;
                            match rs {
                                Some((info, press_state)) => {
                                    if press_state.is_pressing(key) {
                                        acts.push(Action::Disarm);
                                        self.repeat_state = Some((info, PressState::NotPressing));
                                    }
                                },
                                None => {},
                            }
                            acts.push(Action::ForwardKey { time, key, state: KeyState::Released });
                        },
                    }
                }
            },
            KeyEvent::Modifiers { depressed, latched, locked, group } => {
                self.mod_state = depressed == 0 && latched == 0 && locked == 0;
                acts.push(Action::ForwardModifiers { depressed, latched, locked, group });
            },
            KeyEvent::RepeatInfo { rate, delay } => {
                if rate <= 0 {
                    let rs = self.repeat_state;
                    match rs {
                        Some((_info, PressState::Pressing { .. })) => {
                            acts.push(Action::Disarm);
                        },
                        _ => {},
                    }
                    self.repeat_state = None;
                } else {
                    let press = match self.repeat_state {
                        Some((_info, p)) => p,
                        None => PressState::NotPressing,
                    };
                    self.repeat_state = Some((RepeatInfo { rate, delay }, press));
                }
            },
        }
        proof {
            assert(views_of(acts@) =~= key_ev_actions(pre, ev, now));
        }
        acts
    }

    /// Handle a repeat-timer fire: on the first fire switch the timer to
    /// the periodic interval, then synthesize a press of the tracked key at
    /// the original protocol time plus the elapsed milliseconds and
    /// re-dispatch it through the ordinary key path.
    pub fn handle_timer_ev(&mut self, now: u64) -> (acts: Vec<Action>)
        requires
            old(self).wf(),
        ensures
            final(self).wf(),
            views_of(acts@) == timer_ev_actions(*old(self), now),
            timer_ev_post(*old(self), now, *final(self)),
    {
        let ghost pre = *old(self);
        let rs = self.repeat_state;
        match rs {
            Some((info, PressState::Pressing { pressed_at, is_repeating, key, wayland_time })) => {
                let mut acts: Vec<Action> = Vec::new();
                if !is_repeating {
                    let raw: u64 = 1000 / (info.rate as u64);
                    let ms: u64 = if raw == 0 {
                        1
                    } else {
                        raw
                    };
                    acts.push(Action::ArmInterval { ms });
                    self.repeat_state = Some(
                        (
                            info,
                            PressState::Pressing {
                                pressed_at,
                                is_repeating: true,
                                key,
                                wayland_time,
                            },
                        ),
                    );
                }
                proof {
                    assert(*self == timer_mid(pre));
                }
                let elapsed: u64 = if now >= pressed_at {
                    now - pressed_at
                } else {
                    0
                };
                let time = wayland_time.wrapping_add(elapsed as u32);
                let ev = KeyEvent::Key { state: KeyState::Pressed, key, time };
                proof {
                    assert(ev == synth_event(pre, now));
                }
                let mut more = self.handle_key_ev(ev, now);
                acts.append(&mut more);
                proof {
                    assert(views_of(acts@) =~= timer_ev_actions(pre, now));
                }
                acts
            },
            _ => {
                Vec::new()
            },
        }
    }
}

} // verus!

verus! {

/// A synthesized repeat press never arms a fresh one-shot delay: a timer
/// fire may switch to the periodic interval, but only a real press of a key
/// that is not already tracked starts a new delay.
pub proof fn lemma_repeat_never_arms_one_shot(pre: AnkraContext, now: u64)
    requires
        pre.wf(),
    ensures
        forall|i: int|
            0 <= i < timer_ev_actions(pre, now).len() ==> !((#[trigger] timer_ev_actions(
                pre,
                now,
            )[i]) is ArmDelay),
{
    match pre.repeat_state {
        Some(pair) => match pair.1 {
            PressState::Pressing { pressed_at, is_repeating, key, wayland_time } => {
                assert(pair.0.rate > 0);
                let mid = timer_mid(pre);
                let ev = synth_event(pre, now);
                let tail = key_ev_actions(mid, ev, now);
                assert forall|j: int| 0 <= j < tail.len() implies !(tail[j] is ArmDelay) by {
                    if gate_open(mid) {
                        assert(match mid.repeat_state {
                            Some(p) => p.1.spec_is_pressing(key),
                            None => false,
                        });
                        assert(press_arm_actions(mid.repeat_state, key) =~= Seq::<
                            ActionView,
                        >::empty());
                        let r = engine_step(mid, translate_key(key)).1;
                        match r {
                            RespView::Empty => {},
                            RespView::Undefined => {},
                            RespView::Commit(t) => {},
                            RespView::Suggest(t) => {},
                        }
                    }
                }
                if !is_repeating {
                    let iv = ActionView::ArmInterval { ms: interval_millis(pair.0.rate) };
                    assert(timer_ev_actions(pre, now) == seq![iv] + tail);
                    assert forall|i: int|
                        0 <= i < timer_ev_actions(pre, now).len() implies !(timer_ev_actions(
                        pre,
                        now,
                    )[i] is ArmDelay) by {
                        if i == 0 {
                            assert(timer_ev_actions(pre, now)[i] == iv);
                        } else {
                            assert(timer_ev_actions(pre, now)[i] == tail[i - 1]);
                        }
                    }
                } else {
                    assert(timer_ev_actions(pre, now) == tail);
                }
            },
            PressState::NotPressing => {},
        },
        None => {},
    }
}

/// Releasing the tracked key always stops the repeat: the press state goes
/// off, the only timer action is a disarm (followed by the unconditional
/// raw forward of the release), and a timer fire in the resulting state
/// synthesizes nothing.
pub proof fn lemma_release_stops_repeat(
    pre: AnkraContext,
    key: u32,
    time: u32,
    now: u64,
    post: AnkraContext,
)
    requires
        gate_open(pre),
        match pre.repeat_state {
            Some(pair) => pair.1.spec_is_pressing(key),
            None => false,
        },
        key_ev_post(pre, (KeyEvent::Key { state: KeyState::Released, key, time }), now, post),
    ensures
        match post.repeat_state {
            Some(pair) => pair.1 is NotPressing,
            None => false,
        },
        key_ev_actions(pre, (KeyEvent::Key { state: KeyState::Released, key, time }), now) == seq![
            ActionView::Disarm,
            ActionView::ForwardKey { time, key, state: KeyState::Released },
        ],
        timer_ev_actions(post, now) == Seq::<ActionView>::empty(),
{
    assert(key_ev_actions(pre, KeyEvent::Key { state: KeyState::Released, key, time }, now)
        =~= seq![
        ActionView::Disarm,
        ActionView::ForwardKey { time, key, state: KeyState::Released },
    ]);
}

/// Renegotiating repeat off while a key is live always stops the repeat:
/// the stored state is discarded, the one action is a disarm, and a timer
/// fire in the resulting state synthesizes nothing. The timer is thus armed
/// only while a press is tracked.
pub proof fn lemma_disable_stops_repeat(
    pre: AnkraContext,
    rate: i32,
    delay: i32,
    now: u64,
    post: AnkraContext,
)
    requires
        rate <= 0,
        match pre.repeat_state {
            Some(pair) => pair.1 is Pressing,
            None => false,
        },
        key_ev_post(pre, (KeyEvent::RepeatInfo { rate, delay }), now, post),
    ensures
        post.repeat_state is None,
        key_ev_actions(pre, (KeyEvent::RepeatInfo { rate, delay }), now) == seq![
            ActionView::Disarm,
        ],
        timer_ev_actions(post, now) == Seq::<ActionView>::empty(),
{
    assert(key_ev_actions(pre, (KeyEvent::RepeatInfo { rate, delay }), now) =~= seq![
        ActionView::Disarm,
    ]);
}

/// Deactivation while mid-composition is one atomic transition: the engine
/// is reset, the press state is forced off, the timer is disarmed, and a
/// timer fire in the resulting state synthesizes nothing.
pub proof fn lemma_deactivation_abandons_composition(
    pre: AnkraContext,
    post: AnkraContext,
    now: u64,
)
    requires
        pre.current_state is Inactive,
        im_ev_post(pre, ImEvent::Done, post),
    ensures
        post.engine.table@ == reset_view(),
        match post.repeat_state {
            Some(pair) => pair.1 is NotPressing,
            None => true,
        },
        im_ev_actions(pre, ImEvent::Done) == seq![ActionView::Disarm],
        timer_ev_actions(post, now) == Seq::<ActionView>::empty(),
{
    assert(im_ev_actions(pre, ImEvent::Done) =~= seq![ActionView::Disarm]);
}

} // verus!



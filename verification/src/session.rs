//! The control session: three gauges, the selected modality and the focus,
//! and what each key does to them.
//!
//! The session does no input or output of its own. The caller polls the
//! keyboard and the clock, hands each key and the current time to
//! [`ControlSession::handle_key`], carries out the action that comes back,
//! and calls [`ControlSession::refresh`] or [`ControlSession::try_refresh`]
//! before it draws a frame. Time is a count of milliseconds on a clock of
//! the caller's choice.
//!
//! Whether a command is in flight is not stored: it is read off the
//! countdown, which is above zero exactly while a command runs.

use crate::clock::{refresh_countdown, refreshed, ticks_left, TICK_MS};
use crate::command::{Command, CommandKind, CommandView, Modality};
use crate::gauge::{DisplayFormat, GaugeModel, GaugeView};
use crate::render::{render_gauge, shows, GaugeVisual};
use vstd::prelude::*;
use vstd::string::*;

verus! {

/// The limits of the intensity gauge, in percent.
pub const INTENSITY_MIN: u16 = 0;

pub const INTENSITY_MAX: u16 = 100;

/// The limits of the duration gauge, in ticks.
pub const DURATION_MIN: u16 = 3;

pub const DURATION_MAX: u16 = 300;

/// The duration of a stop command, in ticks.
pub const STOP_TICKS: u16 = 5;

/// How long the caller waits for a key before it goes on to the next
/// frame, in milliseconds: short enough for the countdown to move while no
/// key is pressed.
pub const POLL_INTERVAL_MS: u64 = 50;

/// The field that left and right act on.
#[derive(Clone, Copy, Debug, PartialEq, Eq, Structural)]
pub enum FocusTarget {
    Modality,
    Intensity,
    Duration,
    /// The countdown can hold the focus but cannot be adjusted, and up and
    /// down never lead to it.
    Countdown,
}

/// A key press, as far as the session tells keys apart.
#[derive(Clone, Copy, Debug, PartialEq, Eq, Structural)]
pub enum Key {
    Up,
    Down,
    Left,
    Right,
    Enter,
    Backspace,
    Escape,
    /// Any other key.
    Other,
}

/// What the caller is to do after a key.
#[derive(Clone, Debug, PartialEq, Eq)]
pub enum SessionAction {
    /// Nothing: go on with the next frame.
    Continue,
    /// Send the command to the device, then go on.
    Dispatch(Command),
    /// End the session.
    Exit,
}

/// An action as mathematical values.
pub enum ActionView {
    Continue,
    Dispatch(CommandView),
    Exit,
}

impl View for SessionAction {
    type V = ActionView;

    open spec fn view(&self) -> ActionView {
        match self {
            SessionAction::Continue => ActionView::Continue,
            SessionAction::Dispatch(command) => ActionView::Dispatch(command@),
            SessionAction::Exit => ActionView::Exit,
        }
    }
}

impl FocusTarget {
    /// The place of the field on the screen, counted from the top.
    pub open spec fn index(self) -> int {
        match self {
            FocusTarget::Modality => 0,
            FocusTarget::Intensity => 1,
            FocusTarget::Duration => 2,
            FocusTarget::Countdown => 3,
        }
    }

    /// The field at place `i`.
    pub open spec fn at(i: int) -> FocusTarget {
        if i == 0 {
            FocusTarget::Modality
        } else if i == 1 {
            FocusTarget::Intensity
        } else if i == 2 {
            FocusTarget::Duration
        } else {
            FocusTarget::Countdown
        }
    }

    /// The field above; the topmost field stays.
    pub open spec fn moved_up(self) -> FocusTarget {
        if self.index() > 0 {
            FocusTarget::at(self.index() - 1)
        } else {
            self
        }
    }

    /// The field below, down to the duration; from there on the field
    /// stays.
    pub open spec fn moved_down(self) -> FocusTarget {
        if self.index() < 2 {
            FocusTarget::at(self.index() + 1)
        } else {
            self
        }
    }

    /// The field above; the topmost field stays.
    pub fn move_up(self) -> (target: FocusTarget)
        ensures
            target == self.moved_up(),
    {
        match self {
            FocusTarget::Modality => FocusTarget::Modality,
            FocusTarget::Intensity => FocusTarget::Modality,
            FocusTarget::Duration => FocusTarget::Intensity,
            FocusTarget::Countdown => FocusTarget::Duration,
        }
    }

    /// The field below, down to the duration; from there on the field
    /// stays.
    pub fn move_down(self) -> (target: FocusTarget)
        ensures
            target == self.moved_down(),
    {
        match self {
            FocusTarget::Modality => FocusTarget::Intensity,
            FocusTarget::Intensity => FocusTarget::Duration,
            FocusTarget::Duration => FocusTarget::Duration,
            FocusTarget::Countdown => FocusTarget::Countdown,
        }
    }
}

/// The state of a session as mathematical values.
pub struct SessionView {
    /// The device that the session controls.
    pub device_id: Seq<char>,
    pub modality: Modality,
    pub focus: FocusTarget,
    pub intensity: GaugeView,
    pub duration: GaugeView,
    pub countdown: GaugeView,
    /// When the running command was sent; `None` while none is running.
    pub command_start: Option<int>,
}

impl SessionView {
    /// The state in which a session on the device `device_id` begins: the
    /// first modality selected and in focus, the lowest duration, an
    /// intensity of one percent, and no command running.
    pub open spec fn initial(device_id: Seq<char>) -> SessionView {
        SessionView {
            device_id,
            modality: Modality::Shock,
            focus: FocusTarget::Modality,
            intensity: GaugeView {
                label: "Strength"@,
                minimum: 0,
                maximum: 100,
                value: 1,
                display_format: DisplayFormat::Percentage,
            },
            duration: GaugeView {
                label: "Duration"@,
                minimum: 3,
                maximum: 300,
                value: 3,
                display_format: DisplayFormat::Duration,
            },
            countdown: GaugeView {
                label: CommandKind::Shock.action_text(),
                minimum: 0,
                maximum: 300,
                value: 0,
                display_format: DisplayFormat::Countdown,
            },
            command_start: None,
        }
    }

    /// The three gauges are within their limits, the intensity runs from 0
    /// to 100 and the duration from 3 to 300, the countdown starts at 0 and
    /// is no longer than the longest duration, and a start time is recorded
    /// exactly while the countdown is running.
    pub open spec fn well_formed(self) -> bool {
        &&& self.intensity.well_formed()
        &&& self.intensity.minimum == 0
        &&& self.intensity.maximum == 100
        &&& self.intensity.display_format == DisplayFormat::Percentage
        &&& self.duration.well_formed()
        &&& self.duration.minimum == 3
        &&& self.duration.maximum == 300
        &&& self.duration.display_format == DisplayFormat::Duration
        &&& self.countdown.well_formed()
        &&& self.countdown.minimum == 0
        &&& self.countdown.maximum <= 300
        &&& self.countdown.display_format == DisplayFormat::Countdown
        &&& self.is_idle() <==> self.command_start is None
        &&& self.command_start matches Some(start) ==> 0 <= start <= u64::MAX
    }

    /// No command is counting down.
    pub open spec fn is_idle(self) -> bool {
        self.countdown.value == 0
    }

    /// The state after the field in focus was adjusted upwards: the next
    /// modality, or one step up on the intensity or the duration. The
    /// countdown is not adjustable.
    pub open spec fn adjusted_up(self) -> SessionView {
        match self.focus {
            FocusTarget::Modality => SessionView { modality: self.modality.advanced(), ..self },
            FocusTarget::Intensity => SessionView {
                intensity: self.intensity.incremented(),
                ..self
            },
            FocusTarget::Duration => SessionView { duration: self.duration.incremented(), ..self },
            FocusTarget::Countdown => self,
        }
    }

    /// The state after the field in focus was adjusted downwards.
    pub open spec fn adjusted_down(self) -> SessionView {
        match self.focus {
            FocusTarget::Modality => SessionView { modality: self.modality.retreated(), ..self },
            FocusTarget::Intensity => SessionView {
                intensity: self.intensity.decremented(),
                ..self
            },
            FocusTarget::Duration => SessionView { duration: self.duration.decremented(), ..self },
            FocusTarget::Countdown => self,
        }
    }

    /// The state after a command of `kind` and of `ticks` ticks was sent at
    /// time `now`: the countdown carries the kind's action label and is
    /// full at `ticks`, and `now` is recorded as the start.
    pub open spec fn armed(self, kind: CommandKind, ticks: int, now: int) -> SessionView {
        SessionView {
            countdown: self.countdown.with_label(kind.action_text()).filled_to(ticks),
            command_start: Some(now),
            ..self
        }
    }

    /// The state after `key` was pressed at time `now`.
    pub open spec fn after_key(self, key: Key, now: int) -> SessionView {
        match key {
            Key::Up => SessionView { focus: self.focus.moved_up(), ..self },
            Key::Down => SessionView { focus: self.focus.moved_down(), ..self },
            Key::Right => self.adjusted_up(),
            Key::Left => self.adjusted_down(),
            Key::Enter => if self.is_idle() {
                self.armed(self.modality.kind(), self.duration.value, now)
            } else {
                self
            },
            Key::Backspace => self.armed(CommandKind::Stop, STOP_TICKS as int, now),
            Key::Escape | Key::Other => self,
        }
    }

    /// What the caller is to do after `key` was pressed in this state.
    /// Enter sends the selected modality to the session's device with the
    /// current intensity and duration, but only while no command is
    /// counting down. Backspace always sends a stop of fixed length. A
    /// duration goes out in milliseconds.
    pub open spec fn action_for(self, key: Key) -> ActionView {
        match key {
            Key::Enter => if self.is_idle() {
                ActionView::Dispatch(
                    CommandView {
                        device_id: self.device_id,
                        kind: self.modality.kind(),
                        intensity: self.intensity.value,
                        duration_ms: self.duration.value * 100,
                    },
                )
            } else {
                ActionView::Continue
            },
            Key::Backspace => ActionView::Dispatch(
                CommandView {
                    device_id: self.device_id,
                    kind: CommandKind::Stop,
                    intensity: self.intensity.value,
                    duration_ms: STOP_TICKS * 100,
                },
            ),
            Key::Escape => ActionView::Exit,
            _ => ActionView::Continue,
        }
    }

    /// The clock has not been set back behind the start of the running
    /// command: `now` is no earlier than the recorded start, if there is
    /// one.
    pub open spec fn clock_agrees(self, now: int) -> bool {
        self.command_start matches Some(start) ==> start <= now
    }

    /// The state brought up to date at time `now`: a running countdown
    /// shows what is left of its length since the recorded start, and the
    /// start is forgotten once nothing is left.
    pub open spec fn refreshed(self, now: int) -> SessionView {
        match self.command_start {
            Some(start) => {
                let countdown = refreshed(self.countdown, now - start);
                SessionView {
                    countdown,
                    command_start: if countdown.value == 0 {
                        None
                    } else {
                        Some(start)
                    },
                    ..self
                }
            },
            None => self,
        }
    }
}

/// One frame of the session, ready to be drawn from top to bottom.
#[derive(Clone, Debug, PartialEq, Eq)]
pub struct SessionFrame {
    /// The selected modality.
    pub modality_text: String,
    /// Whether the modality is drawn bold.
    pub modality_emphasized: bool,
    pub intensity: Option<GaugeVisual>,
    pub duration: Option<GaugeVisual>,
    /// `None` while no command is counting down.
    pub countdown: Option<GaugeVisual>,
}

/// An interactive control session.
#[derive(Debug)]
pub struct ControlSession {
    device_id: String,
    modality: Modality,
    focus: FocusTarget,
    intensity: GaugeModel,
    duration: GaugeModel,
    countdown: GaugeModel,
    /// When the last command was sent. It counts only while the countdown
    /// is running: whether a command is in flight is read off the
    /// countdown alone.
    last_start: u64,
}

impl View for ControlSession {
    type V = SessionView;

    closed spec fn view(&self) -> SessionView {
        SessionView {
            device_id: self.device_id@,
            modality: self.modality,
            focus: self.focus,
            intensity: self.intensity@,
            duration: self.duration@,
            countdown: self.countdown@,
            command_start: if self.countdown@.value == 0 {
                None
            } else {
                Some(self.last_start as int)
            },
        }
    }
}

impl ControlSession {
    /// Holds of every session at all times.
    #[verifier::type_invariant]
    spec fn gauges_are_sound(&self) -> bool {
        self@.well_formed()
    }

    /// A session on the device `device_id`, in its initial state.
    pub fn new(device_id: String) -> (session: ControlSession)
        ensures
            session@ == SessionView::initial(device_id@),
            session@.well_formed(),
    {
        ControlSession {
            device_id,
            modality: Modality::Shock,
            focus: FocusTarget::Modality,
            intensity: GaugeModel::new(
                String::from_str("Strength"),
                INTENSITY_MIN,
                INTENSITY_MAX,
                1,
                DisplayFormat::Percentage,
            ),
            duration: GaugeModel::new(
                String::from_str("Duration"),
                DURATION_MIN,
                DURATION_MAX,
                DURATION_MIN,
                DisplayFormat::Duration,
            ),
            countdown: GaugeModel::new(
                String::from_str(CommandKind::Shock.action_label()),
                0,
                DURATION_MAX,
                0,
                DisplayFormat::Countdown,
            ),
            last_start: 0,
        }
    }

    /// The device that the session controls.
    pub fn device_id(&self) -> (device_id: &String)
        ensures
            device_id@ == self@.device_id,
    {
        &self.device_id
    }

    /// The selected modality.
    pub fn modality(&self) -> (modality: Modality)
        ensures
            modality == self@.modality,
    {
        self.modality
    }

    /// The field in focus.
    pub fn focus(&self) -> (focus: FocusTarget)
        ensures
            focus == self@.focus,
    {
        self.focus
    }

    /// The intensity gauge.
    pub fn intensity(&self) -> (gauge: &GaugeModel)
        ensures
            gauge@ == self@.intensity,
    {
        &self.intensity
    }

    /// The duration gauge.
    pub fn duration(&self) -> (gauge: &GaugeModel)
        ensures
            gauge@ == self@.duration,
    {
        &self.duration
    }

    /// The countdown gauge.
    pub fn countdown(&self) -> (gauge: &GaugeModel)
        ensures
            gauge@ == self@.countdown,
    {
        &self.countdown
    }

    /// The label of the action that was armed last, which the countdown
    /// gauge carries.
    pub fn armed_action_label(&self) -> (label: &String)
        ensures
            label@ == self@.countdown.label,
    {
        self.countdown.label()
    }

    /// When the running command was sent, or `None` while none is running.
    pub fn command_start(&self) -> (start: Option<u64>)
        ensures
            start matches Some(t) ==> self@.command_start == Some(t as int),
            start is None ==> self@.command_start is None,
            self@.well_formed(),
    {
        proof {
            use_type_invariant(self);
        }
        if self.countdown.value() == 0 {
            None
        } else {
            Some(self.last_start)
        }
    }

    /// Whether no command is counting down.
    pub fn is_idle(&self) -> (idle: bool)
        ensures
            idle == self@.is_idle(),
            self@.well_formed(),
    {
        proof {
            use_type_invariant(self);
        }
        self.countdown.value() == 0
    }

    /// Moves the focus to `target`.
    pub fn set_focus(&mut self, target: FocusTarget)
        ensures
            final(self)@ == (SessionView { focus: target, ..old(self)@ }),
            final(self)@.well_formed(),
    {
        proof {
            use_type_invariant(&*self);
        }
        self.focus = target;
    }

    /// Brings the countdown up to date at time `now_ms`. To be called
    /// before every frame, so that the countdown follows the clock and not
    /// the keyboard. The clock must not have been set back behind the start
    /// of the running command.
    pub fn refresh(&mut self, now_ms: u64)
        requires
            old(self)@.clock_agrees(now_ms as int),
        ensures
            final(self)@ == old(self)@.refreshed(now_ms as int),
            final(self)@.well_formed(),
    {
        proof {
            use_type_invariant(&*self);
        }
        if self.countdown.value() != 0 {
            refresh_countdown(&mut self.countdown, now_ms - self.last_start);
        }
    }

    /// Brings the countdown up to date as [`ControlSession::refresh`] does,
    /// unless the clock has been set back behind the start of the running
    /// command: then nothing changes and the result is `false`.
    pub fn try_refresh(&mut self, now_ms: u64) -> (updated: bool)
        ensures
            updated == old(self)@.clock_agrees(now_ms as int),
            updated ==> final(self)@ == old(self)@.refreshed(now_ms as int),
            !updated ==> final(self)@ == old(self)@,
            final(self)@.well_formed(),
    {
        let agrees = match self.command_start() {
            Some(start) => start <= now_ms,
            None => true,
        };
        if agrees {
            self.refresh(now_ms);
        }
        agrees
    }

    /// Reacts to `key`, pressed at time `now_ms`, and says what the caller
    /// is to do.
    pub fn handle_key(&mut self, key: Key, now_ms: u64) -> (action: SessionAction)
        ensures
            final(self)@ == old(self)@.after_key(key, now_ms as int),
            action@ == old(self)@.action_for(key),
            final(self)@.well_formed(),
    {
        proof {
            use_type_invariant(&*self);
        }
        match key {
            Key::Up => {
                self.focus = self.focus.move_up();
                SessionAction::Continue
            },
            Key::Down => {
                self.focus = self.focus.move_down();
                SessionAction::Continue
            },
            Key::Right => {
                match self.focus {
                    FocusTarget::Modality => {
                        self.modality = self.modality.advance();
                    },
                    FocusTarget::Intensity => {
                        self.intensity.clamp_increment();
                    },
                    FocusTarget::Duration => {
                        self.duration.clamp_increment();
                    },
                    FocusTarget::Countdown => {},
                }
                SessionAction::Continue
            },
            Key::Left => {
                match self.focus {
                    FocusTarget::Modality => {
                        self.modality = self.modality.retreat();
                    },
                    FocusTarget::Intensity => {
                        self.intensity.clamp_decrement();
                    },
                    FocusTarget::Duration => {
                        self.duration.clamp_decrement();
                    },
                    FocusTarget::Countdown => {},
                }
                SessionAction::Continue
            },
            Key::Enter => {
                if self.countdown.value() == 0 {
                    let kind = self.modality.command_kind();
                    let ticks: u16 = self.duration.value();
                    self.arm(kind, ticks, now_ms)
                } else {
                    SessionAction::Continue
                }
            },
            Key::Backspace => self.arm(CommandKind::Stop, STOP_TICKS, now_ms),
            Key::Escape => SessionAction::Exit,
            Key::Other => SessionAction::Continue,
        }
    }

    /// Starts the countdown for a command of `kind` and of `ticks` ticks,
    /// and returns the order to send it.
    fn arm(&mut self, kind: CommandKind, ticks: u16, now_ms: u64) -> (action: SessionAction)
        requires
            0 < ticks <= DURATION_MAX,
        ensures
            final(self)@ == old(self)@.armed(kind, ticks as int, now_ms as int),
            action@ == ActionView::Dispatch(
                CommandView {
                    device_id: old(self)@.device_id,
                    kind,
                    intensity: old(self)@.intensity.value,
                    duration_ms: ticks * 100,
                },
            ),
            final(self)@.well_formed(),
    {
        proof {
            use_type_invariant(&*self);
        }
        self.countdown.set_label(String::from_str(kind.action_label()));
        self.countdown.fill_to(ticks);
        self.last_start = now_ms;
        SessionAction::Dispatch(
            Command {
                device_id: self.device_id.clone(),
                kind,
                intensity: self.intensity.value() as u8,
                duration_ms: ticks * TICK_MS,
            },
        )
    }

    /// Describes the frame to draw: the modality, bold when in focus, and
    /// the three gauges, each bold when in focus.
    pub fn frame(&self) -> (frame: SessionFrame)
        ensures
            self@.well_formed(),
            frame.modality_text@ == self@.modality.display_text(),
            frame.modality_emphasized == (self@.focus == FocusTarget::Modality),
            shows(frame.intensity, self@.intensity, self@.focus == FocusTarget::Intensity),
            shows(frame.duration, self@.duration, self@.focus == FocusTarget::Duration),
            shows(frame.countdown, self@.countdown, self@.focus == FocusTarget::Countdown),
    {
        proof {
            use_type_invariant(self);
        }
        SessionFrame {
            modality_text: String::from_str(self.modality.display_name()),
            modality_emphasized: self.focus == FocusTarget::Modality,
            intensity: render_gauge(&self.intensity, self.focus == FocusTarget::Intensity),
            duration: render_gauge(&self.duration, self.focus == FocusTarget::Duration),
            countdown: render_gauge(&self.countdown, self.focus == FocusTarget::Countdown),
        }
    }
}

impl Clone for ControlSession {
    /// A second session in the same state.
    fn clone(&self) -> (copy: ControlSession)
        ensures
            copy@ == self@,
    {
        proof {
            use_type_invariant(self);
        }
        ControlSession {
            device_id: self.device_id.clone(),
            modality: self.modality,
            focus: self.focus,
            intensity: self.intensity.clone(),
            duration: self.duration.clone(),
            countdown: self.countdown.clone(),
            last_start: self.last_start,
        }
    }
}

/// Whatever key is pressed and whenever, a well-formed session stays
/// well-formed.
pub proof fn keys_keep_the_session_well_formed(session: SessionView, key: Key, now: int)
    requires
        session.well_formed(),
        0 <= now <= u64::MAX,
    ensures
        session.after_key(key, now).well_formed(),
{
}

/// Bringing a well-formed session up to date leaves it well-formed.
pub proof fn refresh_keeps_the_session_well_formed(session: SessionView, now: int)
    requires
        session.well_formed(),
        session.clock_agrees(now),
    ensures
        session.refreshed(now).well_formed(),
{
}

/// While a command is counting down, Enter sends nothing and changes
/// nothing.
pub proof fn enter_waits_for_the_countdown(session: SessionView, now: int)
    requires
        !session.is_idle(),
    ensures
        session.action_for(Key::Enter) == ActionView::Continue,
        session.after_key(Key::Enter, now) == session,
{
}

/// While no command is counting down, Enter sends the selected modality
/// to the session's device, with the current intensity and with the
/// current duration in milliseconds. The countdown is then full at the duration and carries
/// the modality's action label, the start is the time of the key, and the
/// rest of the session is as before.
pub proof fn enter_sends_the_selected_modality(session: SessionView, now: int)
    requires
        session.well_formed(),
        session.is_idle(),
    ensures
        session.action_for(Key::Enter) == ActionView::Dispatch(
            CommandView {
                device_id: session.device_id,
                kind: session.modality.kind(),
                intensity: session.intensity.value,
                duration_ms: 100 * session.duration.value,
            },
        ),
        session.after_key(Key::Enter, now) == (SessionView {
            countdown: GaugeView {
                label: session.modality.kind().action_text(),
                maximum: session.duration.value,
                value: session.duration.value,
                ..session.countdown
            },
            command_start: Some(now),
            ..session
        }),
{
}

/// Backspace always sends the session's device a stop of five ticks with
/// the current intensity, whether a command is counting down or not. The countdown is then at
/// five of five under the stop label, the start is the time of the key,
/// and the rest of the session is as before.
pub proof fn backspace_always_stops(session: SessionView, now: int)
    requires
        session.well_formed(),
    ensures
        session.action_for(Key::Backspace) == ActionView::Dispatch(
            CommandView {
                device_id: session.device_id,
                kind: CommandKind::Stop,
                intensity: session.intensity.value,
                duration_ms: 500,
            },
        ),
        session.after_key(Key::Backspace, now) == (SessionView {
            countdown: GaugeView {
                label: CommandKind::Stop.action_text(),
                maximum: 5,
                value: 5,
                ..session.countdown
            },
            command_start: Some(now),
            ..session
        }),
{
}

/// A command other than a stop is sent only by Enter and only while no
/// command is counting down, so at most one is ever in flight.
pub proof fn one_command_at_a_time(session: SessionView, key: Key)
    ensures
        session.action_for(key) matches ActionView::Dispatch(command) ==> {
            ||| command.kind == CommandKind::Stop && key == Key::Backspace
            ||| command.kind == session.modality.kind() && key == Key::Enter && session.is_idle()
        },
{
}

/// A command sent by Enter at time `started` counts down from the duration
/// that was set, one tick for every hundred milliseconds, and is at zero
/// from the moment that duration has passed and not before.
pub proof fn countdown_runs_for_the_set_duration(session: SessionView, started: int, now: int)
    requires
        session.well_formed(),
        session.is_idle(),
        started <= now,
    ensures
        session.after_key(Key::Enter, started).refreshed(now).countdown.value == ticks_left(
            session.duration.value,
            now - started,
        ),
        session.after_key(Key::Enter, started).refreshed(now).is_idle() <==> now - started >= 100
            * session.duration.value,
{
}

/// The countdown follows the clock alone: bringing the session up to date
/// at an earlier time in between does not change what it shows later.
pub proof fn refresh_follows_the_clock_alone(session: SessionView, earlier: int, later: int)
    requires
        session.well_formed(),
        session.clock_agrees(earlier),
        earlier <= later,
    ensures
        session.refreshed(earlier).refreshed(later) == session.refreshed(later),
{
}

/// Up and down move the focus among the modality, the intensity and the
/// duration and stop at either end; they never lead to the countdown.
pub proof fn navigation_stops_at_the_ends(focus: FocusTarget)
    ensures
        focus.moved_up() != FocusTarget::Countdown,
        focus != FocusTarget::Countdown ==> focus.moved_down() != FocusTarget::Countdown,
        FocusTarget::Modality.moved_up() == FocusTarget::Modality,
        FocusTarget::Duration.moved_down() == FocusTarget::Duration,
        focus.moved_up().index() <= focus.index(),
        focus.moved_down().index() >= focus.index(),
{
}

/// Left and right change nothing while the countdown has the focus, and
/// never change the countdown whatever has the focus.
pub proof fn countdown_is_not_adjustable(session: SessionView, now: int)
    ensures
        session.focus == FocusTarget::Countdown ==> session.after_key(Key::Left, now) == session
            && session.after_key(Key::Right, now) == session,
        session.after_key(Key::Left, now).countdown == session.countdown,
        session.after_key(Key::Right, now).countdown == session.countdown,
{
}

} // verus!

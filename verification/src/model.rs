//! The session as a mathematical state machine: the states, and for each
//! event the next state and the commands that go with the step.

use vstd::prelude::*;
use crate::dim::opacity_at;
use crate::dim::Opacity;
use crate::effect::Effect;
use crate::fade::fade_volume_spec;
use crate::player::PlayerCommand;
use crate::player::FULL_VOLUME;
use crate::status::Status;
use crate::status::VideoHint;
use crate::video::is_id;
use crate::video::resolution;
use crate::video::RejectionReason;

verus! {

/// The shortest session, in minutes.
pub const MIN_MINUTES: u32 = 1;

/// The longest session, in minutes.
pub const MAX_MINUTES: u32 = 480;

/// The duration that is selected before the user picks one.
pub const DEFAULT_MINUTES: u32 = 60;

/// The longest session, in seconds.
pub const MAX_SECONDS: u32 = 28800;

/// Where a session stands. `Completed` and `Cancelled` record how the
/// last countdown ended; like `Idle` they are at rest, with no time on
/// the clock, and a new countdown can start from any of the three.
#[derive(Clone, Copy, Debug, PartialEq, Eq, Structural)]
pub enum Phase {
    Idle,
    Running,
    Completed,
    Cancelled,
}

/// Whether a session of `minutes` minutes may be started.
pub open spec fn valid_duration(minutes: nat) -> bool {
    MIN_MINUTES <= minutes <= MAX_MINUTES
}

/// The message for a running countdown with `left` seconds to go, where
/// `current` is the message so far: the last minute and the last ten
/// seconds each bring a message of their own, and before that the
/// message stays as it is.
pub open spec fn status_after_tick(current: Status, left: nat) -> Status {
    if left <= 10 {
        Status::AlmostThere
    } else if left <= 60 {
        Status::GettingSleepy
    } else {
        current
    }
}

/// The share of the session that has gone by, in whole percent; nought
/// where no time is on the clock.
pub open spec fn percent_done(total: nat, remaining: nat) -> nat {
    if total > 0 && remaining <= total {
        (((total - remaining) * 100) / (total as int)) as nat
    } else {
        0
    }
}

/// The state of a session.
pub struct SessionState {
    /// The duration that the user has picked, in minutes.
    pub selected_minutes: nat,
    /// The length of the countdown, in seconds.
    pub total_seconds: nat,
    /// What is left of the countdown, in seconds.
    pub remaining_seconds: nat,
    pub phase: Phase,
    pub status: Status,
    /// The handle of the tick registration, once the shell has reported it.
    pub tick_handle: Option<i32>,
    /// The video of the attached player, if one is attached.
    pub media: Option<Seq<char>>,
    /// Whether the page is shown in its dimmed style.
    pub dim_mode: bool,
}

/// The hint for the reading of a video reference: each way of failing
/// has a hint of its own.
pub open spec fn hint_for(reading: Result<Seq<char>, RejectionReason>) -> VideoHint {
    match reading {
        Ok(_) => VideoHint::Loaded,
        Err(RejectionReason::Empty) => VideoHint::EnterUrl,
        Err(RejectionReason::Unparseable) => VideoHint::Unparseable,
    }
}

/// The commands that go with the reading of a video reference.
pub open spec fn effects_for(reading: Result<Seq<char>, RejectionReason>) -> Seq<Effect> {
    match reading {
        Ok(_) => seq![Effect::VideoActive(true)],
        Err(_) => Seq::empty(),
    }
}

/// The commands that go with closing the video.
pub open spec fn close_effects() -> Seq<Effect> {
    seq![Effect::VideoActive(false), Effect::DimMode(false)]
}

impl SessionState {
    /// The state in which every session begins.
    pub open spec fn initial() -> SessionState {
        SessionState {
            selected_minutes: DEFAULT_MINUTES as nat,
            total_seconds: 0,
            remaining_seconds: 0,
            phase: Phase::Idle,
            status: Status::Ready,
            tick_handle: None,
            media: None,
            dim_mode: false,
        }
    }

    pub open spec fn running(self) -> bool {
        self.phase == Phase::Running
    }

    pub open spec fn attached(self) -> bool {
        self.media is Some
    }

    /// What holds of every state that a session can reach. While the
    /// countdown runs, time is left and it is no more than the whole,
    /// which is between one minute and the longest session; at rest the
    /// clock is at nought and no tick source is registered. The two
    /// urgent messages are shown only within their windows, and what
    /// names the attached video is an identifier.
    pub open spec fn wf(self) -> bool {
        &&& self.media matches Some(id) ==> is_id(id)
        &&& self.running() ==> 0 < self.remaining_seconds <= self.total_seconds <= MAX_SECONDS
        &&& self.running() ==> 60 <= self.total_seconds
        &&& !self.running() ==> self.remaining_seconds == 0 && self.total_seconds == 0
            && self.tick_handle is None
        &&& self.running() && self.status == Status::AlmostThere ==> self.remaining_seconds <= 10
        &&& self.running() && self.status == Status::GettingSleepy ==> self.remaining_seconds
            <= 60
    }

    /// The command that tears down the tick registration, where there is one.
    pub open spec fn stop_ticking(self) -> Seq<Effect> {
        match self.tick_handle {
            Some(handle) => seq![Effect::StopTicking(handle)],
            None => Seq::empty(),
        }
    }

    /// `command` as a list, where a player is attached to take it.
    pub open spec fn to_player(self, command: PlayerCommand) -> Seq<Effect> {
        if self.attached() {
            seq![Effect::Player(command)]
        } else {
            Seq::empty()
        }
    }

    /// The user picks a duration. While a countdown runs the pick is
    /// ignored.
    pub open spec fn select(self, minutes: nat) -> SessionState {
        if self.running() {
            self
        } else {
            SessionState { selected_minutes: minutes, ..self }
        }
    }

    /// The user asks for a countdown of `minutes` minutes. A duration out
    /// of bounds changes the message and nothing else.
    pub open spec fn start(self, minutes: nat) -> SessionState {
        if valid_duration(minutes) {
            SessionState {
                total_seconds: minutes * 60,
                remaining_seconds: minutes * 60,
                phase: Phase::Running,
                status: Status::TimerRunning,
                tick_handle: None,
                dim_mode: self.dim_mode || self.attached(),
                ..self
            }
        } else {
            SessionState { status: Status::InvalidTime, ..self }
        }
    }

    /// The commands that go with `start`: any earlier tick registration
    /// is torn down first, the page is dimmed where a video is loaded,
    /// and a new tick source is asked for.
    pub open spec fn start_effects(self, minutes: nat) -> Seq<Effect> {
        if valid_duration(minutes) {
            self.stop_ticking() + (if self.attached() {
                seq![Effect::DimMode(true)]
            } else {
                Seq::empty()
            }) + seq![Effect::StartTicking]
        } else {
            Seq::empty()
        }
    }

    /// The shell reports the handle of the tick source that it registered.
    pub open spec fn registered(self, handle: i32) -> SessionState {
        if self.running() {
            SessionState { tick_handle: Some(handle), ..self }
        } else {
            self
        }
    }

    /// The commands that go with `registered`: a registration that comes
    /// when no countdown runs is torn down at once, and so is one that
    /// the new one replaces.
    pub open spec fn registered_effects(self, handle: i32) -> Seq<Effect> {
        if self.running() {
            self.stop_ticking()
        } else {
            seq![Effect::StopTicking(handle)]
        }
    }

    /// Whether the next tick ends the countdown.
    pub open spec fn on_last_second(self) -> bool {
        self.running() && self.remaining_seconds <= 1
    }

    /// A second has gone by.
    pub open spec fn tick(self) -> SessionState {
        if !self.running() {
            self
        } else if self.on_last_second() {
            SessionState {
                total_seconds: 0,
                remaining_seconds: 0,
                phase: Phase::Completed,
                status: Status::SweetDreams,
                tick_handle: None,
                ..self
            }
        } else {
            let left = (self.remaining_seconds - 1) as nat;
            SessionState {
                remaining_seconds: left,
                status: status_after_tick(self.status, left),
                ..self
            }
        }
    }

    /// The volume command of a tick that leaves `left` seconds, where a
    /// player is attached and the fade has begun.
    pub open spec fn fade(self, left: nat) -> Seq<Effect> {
        match fade_volume_spec(self.total_seconds, left) {
            Some(percent) => self.to_player(PlayerCommand::SetVolume(percent as u32)),
            None => Seq::empty(),
        }
    }

    /// The darkness of the overlay after the next tick of a running
    /// countdown.
    pub open spec fn tick_opacity(self) -> Opacity {
        opacity_at(self.total_seconds, (self.remaining_seconds - 1) as nat)
    }

    /// The commands that go with `tick`. The tick that ends the countdown
    /// stops the ticking, pauses the player and suspends the host; every
    /// other tick of a running countdown darkens the overlay and, in the
    /// last tenth of the session, turns the volume down.
    pub open spec fn tick_effects(self) -> Seq<Effect> {
        if !self.running() {
            Seq::empty()
        } else if self.on_last_second() {
            self.stop_ticking() + self.to_player(PlayerCommand::Pause) + seq![Effect::Suspend]
        } else {
            let left = (self.remaining_seconds - 1) as nat;
            seq![Effect::Dim(self.tick_opacity())] + self.fade(left)
        }
    }

    /// The state after `count` ticks in a row.
    pub open spec fn after_ticks(self, count: nat) -> SessionState
        decreases count,
    {
        if count == 0 {
            self
        } else {
            self.after_ticks((count - 1) as nat).tick()
        }
    }

    /// The commands of `count` ticks in a row, in the order given.
    pub open spec fn effects_of_ticks(self, count: nat) -> Seq<Effect>
        decreases count,
    {
        if count == 0 {
            Seq::empty()
        } else {
            self.effects_of_ticks((count - 1) as nat) + self.after_ticks(
                (count - 1) as nat,
            ).tick_effects()
        }
    }

    /// The user cancels. At rest this changes nothing.
    pub open spec fn cancel(self) -> SessionState {
        if self.running() {
            SessionState {
                total_seconds: 0,
                remaining_seconds: 0,
                phase: Phase::Cancelled,
                status: Status::Cancelled,
                tick_handle: None,
                ..self
            }
        } else {
            self
        }
    }

    /// The commands that go with `cancel`: the ticking stops, the overlay
    /// clears and the player gets its full volume back.
    pub open spec fn cancel_effects(self) -> Seq<Effect> {
        if self.running() {
            self.stop_ticking() + seq![Effect::Dim(Opacity::clear_spec())] + self.to_player(
                PlayerCommand::SetVolume(FULL_VOLUME),
            )
        } else {
            Seq::empty()
        }
    }

    /// A player for the video `id` is attached. The countdown is not
    /// touched.
    pub open spec fn attach(self, id: Seq<char>) -> SessionState {
        SessionState { media: Some(id), ..self }
    }

    /// A video reference has been read: a video is attached, a
    /// rejection changes nothing.
    pub open spec fn resolved(self, reading: Result<Seq<char>, RejectionReason>) -> SessionState {
        match reading {
            Ok(id) => self.attach(id),
            Err(_) => self,
        }
    }

    /// The user asks for the video that `url` refers to.
    pub open spec fn load(self, url: Seq<char>) -> SessionState {
        self.resolved(resolution(url))
    }

    /// The player is let go and the page leaves its dimmed style. The
    /// countdown is not touched.
    pub open spec fn close(self) -> SessionState {
        SessionState { media: None, dim_mode: false, ..self }
    }
}

} // verus!

//! The session: the one timer of the application, and every decision
//! that is taken when the user or the clock does something.

use vstd::prelude::*;
use crate::dim::overlay_opacity;
use crate::dim::Opacity;
use crate::effect::Effect;
use crate::fade::fade_volume;
use crate::model::close_effects;
use crate::model::effects_for;
use crate::model::hint_for;
use crate::model::percent_done;
use crate::model::Phase;
use crate::model::SessionState;
use crate::model::DEFAULT_MINUTES;
use crate::model::MAX_MINUTES;
use crate::model::MIN_MINUTES;
use crate::player::embed_address;
use crate::player::embed_url;
use crate::player::MediaController;
use crate::player::PlayerCommand;
use crate::player::FULL_VOLUME;
use crate::status::Status;
use crate::status::VideoHint;
use crate::text::clock_face;
use crate::text::format_time;
use crate::video::as_reading;
use crate::video::is_id;
use crate::video::resolution;
use crate::video::resolve;
use crate::video::MediaId;
use crate::video::RejectionReason;

verus! {

/// The part of a session that changes in one piece at every step.
#[derive(Clone, Copy, Debug)]
struct Countdown {
    total_seconds: u32,
    remaining_seconds: u32,
    phase: Phase,
    status: Status,
    tick_handle: Option<i32>,
}

/// The timer of the application. It is made once, at rest, and then
/// goes from countdown to countdown.
#[derive(Debug)]
pub struct Session {
    selected_minutes: u32,
    clock: Countdown,
    media: MediaController,
    dim_mode: bool,
}

impl View for Session {
    type V = SessionState;

    closed spec fn view(&self) -> SessionState {
        SessionState {
            selected_minutes: self.selected_minutes as nat,
            total_seconds: self.clock.total_seconds as nat,
            remaining_seconds: self.clock.remaining_seconds as nat,
            phase: self.clock.phase,
            status: self.clock.status,
            tick_handle: self.clock.tick_handle,
            media: self.media@,
            dim_mode: self.dim_mode,
        }
    }
}

impl Default for Session {
    /// A session at rest, as `Session::new` makes it.
    fn default() -> (session: Session)
        ensures
            session@ == SessionState::initial(),
    {
        Session::new()
    }
}

impl Session {
    #[verifier::type_invariant]
    closed spec fn inv(&self) -> bool {
        self@.wf()
    }

    /// A session at rest, with the default duration selected.
    pub fn new() -> (session: Session)
        ensures
            session@ == SessionState::initial(),
            session@.wf(),
    {
        Session {
            selected_minutes: DEFAULT_MINUTES,
            clock: Countdown {
                total_seconds: 0,
                remaining_seconds: 0,
                phase: Phase::Idle,
                status: Status::Ready,
                tick_handle: None,
            },
            media: MediaController::new(),
            dim_mode: false,
        }
    }

    /// The duration that the user has picked, in minutes.
    pub fn selected_minutes(&self) -> (minutes: u32)
        ensures
            minutes == self@.selected_minutes,
    {
        self.selected_minutes
    }

    /// The length of the countdown, in seconds; nought at rest.
    pub fn total_seconds(&self) -> (seconds: u32)
        ensures
            seconds == self@.total_seconds,
            self@.wf(),
    {
        proof {
            use_type_invariant(self);
        }
        self.clock.total_seconds
    }

    /// What is left of the countdown, in seconds; nought at rest.
    pub fn remaining_seconds(&self) -> (seconds: u32)
        ensures
            seconds == self@.remaining_seconds,
            self@.wf(),
    {
        proof {
            use_type_invariant(self);
        }
        self.clock.remaining_seconds
    }

    /// Where the session stands.
    pub fn phase(&self) -> (phase: Phase)
        ensures
            phase == self@.phase,
            self@.wf(),
    {
        proof {
            use_type_invariant(self);
        }
        self.clock.phase
    }

    /// Whether a countdown runs.
    pub fn is_running(&self) -> (yes: bool)
        ensures
            yes == self@.running(),
            self@.wf(),
    {
        proof {
            use_type_invariant(self);
        }
        matches!(self.clock.phase, Phase::Running)
    }

    /// The message on the status line.
    pub fn status(&self) -> (status: Status)
        ensures
            status == self@.status,
    {
        self.clock.status
    }

    /// The handle of the tick registration, once it has been reported.
    pub fn tick_handle(&self) -> (handle: Option<i32>)
        ensures
            handle == self@.tick_handle,
            handle is Some ==> self@.running(),
    {
        proof {
            use_type_invariant(self);
        }
        self.clock.tick_handle
    }

    /// The video of the attached player.
    pub fn media(&self) -> (id: Option<&MediaId>)
        ensures
            id is Some == self@.attached(),
            id matches Some(video) ==> self@.media == Some(video@) && is_id(video@),
    {
        self.media.media()
    }

    /// Whether a video is loaded.
    pub fn is_video_loaded(&self) -> (yes: bool)
        ensures
            yes == self@.attached(),
    {
        self.media.is_attached()
    }

    /// Whether the page is shown in its dimmed style.
    pub fn dim_mode(&self) -> (yes: bool)
        ensures
            yes == self@.dim_mode,
    {
        self.dim_mode
    }

    /// Whether the choice of `minutes` is to be shown as the selected
    /// one: it is the pick, and no countdown runs.
    pub fn is_selected(&self, minutes: u32) -> (yes: bool)
        ensures
            yes == (self@.selected_minutes == minutes && !self@.running()),
    {
        self.selected_minutes == minutes && !matches!(self.clock.phase, Phase::Running)
    }

    /// The address of the embedded player, where a video is loaded.
    pub fn embed_url(&self) -> (address: Option<String>)
        ensures
            address is Some == self@.attached(),
            address matches Some(text) ==> text@ == embed_address(self@.media->0),
    {
        match self.media.media() {
            Some(id) => Some(embed_url(id)),
            None => None,
        }
    }

    /// The share of the countdown that has gone by, in whole percent.
    pub fn progress_percent(&self) -> (percent: u32)
        ensures
            percent == percent_done(self@.total_seconds, self@.remaining_seconds),
            percent <= 100,
    {
        proof {
            use_type_invariant(self);
        }
        let total: u64 = self.clock.total_seconds as u64;
        let remaining: u64 = self.clock.remaining_seconds as u64;
        if total > 0 {
            let gone: u64 = (total - remaining) * 100;
            assert(gone / total <= 100) by (nonlinear_arith)
                requires
                    0 <= gone <= 100 * total,
                    0 < total,
            ;
            (gone / total) as u32
        } else {
            0
        }
    }

    /// The time that is left, as `HH:MM:SS`.
    pub fn timer_display(&self) -> (face: String)
        ensures
            face@ == clock_face(self@.remaining_seconds),
    {
        format_time(self.clock.remaining_seconds)
    }

    fn stop_ticking(&self) -> (effects: Vec<Effect>)
        ensures
            effects@ == self@.stop_ticking(),
    {
        let mut effects: Vec<Effect> = Vec::new();
        match self.clock.tick_handle {
            Some(handle) => {
                effects.push(Effect::StopTicking(handle));
            },
            None => {},
        }
        assert(effects@ =~= self@.stop_ticking());
        effects
    }

    fn push_to_player(&self, effects: &mut Vec<Effect>, command: PlayerCommand)
        ensures
            final(effects)@ == old(effects)@ + self@.to_player(command),
    {
        if self.media.is_attached() {
            effects.push(Effect::Player(command));
        }
        assert(effects@ =~= old(effects)@ + self@.to_player(command));
    }

    /// Takes the user's pick of a duration; ignored while a countdown runs.
    pub fn select_duration(&mut self, minutes: u32)
        ensures
            final(self)@ == old(self)@.select(minutes as nat),
            final(self)@.wf(),
    {
        proof {
            use_type_invariant(&*self);
        }
        if !matches!(self.clock.phase, Phase::Running) {
            self.selected_minutes = minutes;
        }
    }

    /// Starts a countdown of `minutes` minutes, where that is between
    /// `MIN_MINUTES` and `MAX_MINUTES`; else only the message changes.
    pub fn start(&mut self, minutes: u32) -> (effects: Vec<Effect>)
        ensures
            final(self)@ == old(self)@.start(minutes as nat),
            effects@ == old(self)@.start_effects(minutes as nat),
            final(self)@.wf(),
    {
        proof {
            use_type_invariant(&*self);
        }
        if minutes < MIN_MINUTES || minutes > MAX_MINUTES {
            self.clock = Countdown { status: Status::InvalidTime, ..self.clock };
            return Vec::new();
        }
        let mut effects = self.stop_ticking();
        let total: u32 = minutes * 60;
        if self.media.is_attached() {
            effects.push(Effect::DimMode(true));
            self.dim_mode = true;
        }
        effects.push(Effect::StartTicking);
        self.clock = Countdown {
            total_seconds: total,
            remaining_seconds: total,
            phase: Phase::Running,
            status: Status::TimerRunning,
            tick_handle: None,
        };
        assert(effects@ =~= old(self)@.start_effects(minutes as nat));
        effects
    }

    /// Takes the handle of the tick source that the shell registered.
    /// The commands tear down what is not wanted: the new registration
    /// where no countdown runs, an earlier one where it is replaced.
    pub fn tick_registered(&mut self, handle: i32) -> (effects: Vec<Effect>)
        ensures
            final(self)@ == old(self)@.registered(handle),
            effects@ == old(self)@.registered_effects(handle),
            final(self)@.wf(),
    {
        proof {
            use_type_invariant(&*self);
        }
        if !matches!(self.clock.phase, Phase::Running) {
            let mut effects: Vec<Effect> = Vec::new();
            effects.push(Effect::StopTicking(handle));
            assert(effects@ =~= old(self)@.registered_effects(handle));
            return effects;
        }
        let effects = self.stop_ticking();
        self.clock = Countdown { tick_handle: Some(handle), ..self.clock };
        effects
    }

    /// Lets a second go by. The tick that takes the clock to nought ends
    /// the countdown: ticking stops, the player is paused and the host is
    /// asked to suspend, once. At rest a tick does nothing.
    pub fn tick(&mut self) -> (effects: Vec<Effect>)
        ensures
            final(self)@ == old(self)@.tick(),
            effects@ == old(self)@.tick_effects(),
            final(self)@.wf(),
    {
        proof {
            use_type_invariant(&*self);
        }
        if !matches!(self.clock.phase, Phase::Running) {
            return Vec::new();
        }
        if self.clock.remaining_seconds <= 1 {
            let mut effects = self.stop_ticking();
            self.push_to_player(&mut effects, PlayerCommand::Pause);
            effects.push(Effect::Suspend);
            self.clock = Countdown {
                total_seconds: 0,
                remaining_seconds: 0,
                phase: Phase::Completed,
                status: Status::SweetDreams,
                tick_handle: None,
            };
            assert(effects@ =~= old(self)@.tick_effects());
            return effects;
        }
        let total: u32 = self.clock.total_seconds;
        let left: u32 = self.clock.remaining_seconds - 1;
        let status = if left <= 10 {
            Status::AlmostThere
        } else if left <= 60 {
            Status::GettingSleepy
        } else {
            self.clock.status
        };
        let mut effects: Vec<Effect> = Vec::new();
        effects.push(Effect::Dim(overlay_opacity(total, left)));
        if self.media.is_attached() {
            match fade_volume(total, left) {
                Some(percent) => {
                    effects.push(Effect::Player(PlayerCommand::SetVolume(percent)));
                },
                None => {},
            }
        }
        self.clock = Countdown { remaining_seconds: left, status: status, ..self.clock };
        assert(effects@ =~= old(self)@.tick_effects());
        effects
    }

    /// Cancels the countdown: ticking stops, the clock goes to nought,
    /// the overlay clears and an attached player gets its full volume
    /// back. At rest nothing changes and nothing is asked for.
    pub fn cancel(&mut self) -> (effects: Vec<Effect>)
        ensures
            final(self)@ == old(self)@.cancel(),
            effects@ == old(self)@.cancel_effects(),
            final(self)@.wf(),
    {
        proof {
            use_type_invariant(&*self);
        }
        if !matches!(self.clock.phase, Phase::Running) {
            return Vec::new();
        }
        let mut effects = self.stop_ticking();
        effects.push(Effect::Dim(Opacity::clear()));
        self.push_to_player(&mut effects, PlayerCommand::SetVolume(FULL_VOLUME));
        self.clock = Countdown {
            total_seconds: 0,
            remaining_seconds: 0,
            phase: Phase::Cancelled,
            status: Status::Cancelled,
            tick_handle: None,
        };
        assert(effects@ =~= old(self)@.cancel_effects());
        effects
    }

    /// Takes the reading of a video reference: a video that was found is
    /// attached, a rejection only gives its hint. The countdown goes on
    /// untouched either way.
    pub fn video_resolved(&mut self, outcome: Result<MediaId, RejectionReason>) -> (answer: (
        VideoHint,
        Vec<Effect>,
    ))
        ensures
            final(self)@ == old(self)@.resolved(as_reading(outcome)),
            answer.0 == hint_for(as_reading(outcome)),
            answer.1@ == effects_for(as_reading(outcome)),
            final(self)@.wf(),
    {
        proof {
            use_type_invariant(&*self);
        }
        let mut effects: Vec<Effect> = Vec::new();
        match outcome {
            Ok(id) => {
                let _ = id.as_str();
                self.media.attach(id);
                effects.push(Effect::VideoActive(true));
                assert(effects@ =~= effects_for(as_reading(outcome)));
                (VideoHint::Loaded, effects)
            },
            Err(RejectionReason::Empty) => (VideoHint::EnterUrl, effects),
            Err(RejectionReason::Unparseable) => (VideoHint::Unparseable, effects),
        }
    }

    /// Loads the video that `url` refers to, as the user typed it.
    pub fn load_video(&mut self, url: &str) -> (answer: (VideoHint, Vec<Effect>))
        ensures
            final(self)@ == old(self)@.load(url@),
            answer.0 == hint_for(resolution(url@)),
            answer.1@ == effects_for(resolution(url@)),
            final(self)@.wf(),
    {
        let outcome = resolve(url);
        self.video_resolved(outcome)
    }

    /// Closes the video: the player is let go and the page leaves its
    /// video and dimmed styles. The countdown goes on untouched.
    pub fn close_video(&mut self) -> (answer: (VideoHint, Vec<Effect>))
        ensures
            final(self)@ == old(self)@.close(),
            answer.0 == VideoHint::Cleared,
            answer.1@ == close_effects(),
            final(self)@.wf(),
    {
        proof {
            use_type_invariant(&*self);
        }
        self.media.detach();
        self.dim_mode = false;
        let mut effects: Vec<Effect> = Vec::new();
        effects.push(Effect::VideoActive(false));
        effects.push(Effect::DimMode(false));
        assert(effects@ =~= close_effects());
        (VideoHint::Cleared, effects)
    }
}

} // verus!

//! What holds of the session whatever happens to it.

use vstd::prelude::*;
use crate::dim::lemma_opacity_grows;
use crate::dim::Opacity;
use crate::effect::lemma_occurrences_concat;
use crate::effect::occurrences;
use crate::effect::touches_player;
use crate::effect::Effect;
use crate::fade::fade_span;
use crate::fade::fade_volume_spec;
use crate::fade::law_fade_range;
use crate::model::valid_duration;
use crate::model::Phase;
use crate::model::SessionState;
use crate::player::PlayerCommand;
use crate::player::FULL_VOLUME;
use crate::status::Status;
use crate::video::is_id;

verus! {

/// Every step keeps a session well formed, and the first state is.
pub proof fn law_steps_keep_wf(s: SessionState, minutes: nat, handle: i32, id: Seq<char>)
    requires
        s.wf(),
    ensures
        SessionState::initial().wf(),
        s.select(minutes).wf(),
        s.start(minutes).wf(),
        s.registered(handle).wf(),
        s.tick().wf(),
        s.cancel().wf(),
        is_id(id) ==> s.attach(id).wf(),
        s.close().wf(),
{
}

/// A start with a duration from one to 480 minutes puts that many
/// minutes on the clock, in seconds, and sets the countdown running. A
/// start with any other duration leaves the phase and the clock as they
/// were, asks for nothing, and says that the time is invalid.
pub proof fn law_start(s: SessionState, minutes: nat)
    requires
        s.wf(),
    ensures
        valid_duration(minutes) ==> {
            &&& s.start(minutes).total_seconds == minutes * 60
            &&& s.start(minutes).remaining_seconds == minutes * 60
            &&& s.start(minutes).phase == Phase::Running
            &&& s.start(minutes).status == Status::TimerRunning
            &&& occurrences(s.start_effects(minutes), Effect::StartTicking) == 1
        },
        !valid_duration(minutes) ==> {
            &&& s.start(minutes) == SessionState { status: Status::InvalidTime, ..s }
            &&& s.start(minutes).phase == s.phase
            &&& s.start(minutes).status == Status::InvalidTime
            &&& s.start_effects(minutes) == Seq::<Effect>::empty()
        },
{
    if valid_duration(minutes) {
        let dimming = if s.attached() {
            seq![Effect::DimMode(true)]
        } else {
            Seq::empty()
        };
        lemma_occurrences_concat(
            s.stop_ticking() + dimming,
            seq![Effect::StartTicking],
            Effect::StartTicking,
        );
        lemma_occurrences_concat(s.stop_ticking(), dimming, Effect::StartTicking);
        lemma_stop_ticking_counts(s, Effect::StartTicking);
        lemma_single(Effect::DimMode(true), Effect::StartTicking);
        lemma_single(Effect::StartTicking, Effect::StartTicking);
    }
}

/// A list of one command holds that command once and no other.
proof fn lemma_single(held: Effect, wanted: Effect)
    ensures
        occurrences(seq![held], wanted) == if held == wanted {
            1nat
        } else {
            0nat
        },
        occurrences(Seq::<Effect>::empty(), wanted) == 0,
{
    let one = seq![held];
    assert(one.drop_last() =~= Seq::<Effect>::empty());
    assert(one.last() == held);
    reveal_with_fuel(occurrences, 2);
}

/// The commands that stop the ticking hold nothing but that.
proof fn lemma_stop_ticking_counts(s: SessionState, wanted: Effect)
    requires
        !(wanted is StopTicking),
    ensures
        occurrences(s.stop_ticking(), wanted) == 0,
{
    match s.tick_handle {
        Some(handle) => {
            lemma_single(Effect::StopTicking(handle), wanted);
        },
        None => {},
    }
}

/// The list that hands `command` to the player holds it once where a
/// player is attached, and is empty where none is.
proof fn lemma_to_player_counts(s: SessionState, command: PlayerCommand, wanted: Effect)
    ensures
        occurrences(s.to_player(command), wanted) == if s.attached() && wanted == Effect::Player(
            command,
        ) {
            1nat
        } else {
            0nat
        },
{
    lemma_single(Effect::Player(command), wanted);
}

/// Cancelling at rest is no step at all: the state stays as it is, time
/// and message included, and nothing is asked for. So a second cancel
/// after a first changes nothing more.
pub proof fn law_cancel_idempotent(s: SessionState)
    ensures
        !s.running() ==> s.cancel() == s && s.cancel_effects() == Seq::<Effect>::empty(),
        s.cancel().cancel() == s.cancel(),
        s.cancel().cancel_effects() == Seq::<Effect>::empty(),
{
}

/// Cancelling a running countdown takes the clock to nought and stops
/// the ticking; the host is not asked to suspend, whatever the state.
pub proof fn law_cancel(s: SessionState)
    requires
        s.wf(),
    ensures
        s.running() ==> {
            &&& s.cancel().phase == Phase::Cancelled
            &&& s.cancel().status == Status::Cancelled
            &&& s.cancel().total_seconds == 0
            &&& s.cancel().remaining_seconds == 0
            &&& s.cancel().tick_handle is None
        },
        occurrences(s.cancel_effects(), Effect::Suspend) == 0,
        occurrences(s.cancel_effects(), Effect::Player(PlayerCommand::Pause)) == 0,
        s.cancel().tick() == s.cancel(),
        s.cancel().tick_effects() == Seq::<Effect>::empty(),
{
    lemma_cancel_counts(s, Effect::Suspend);
    lemma_cancel_counts(s, Effect::Player(PlayerCommand::Pause));
}

proof fn lemma_cancel_counts(s: SessionState, wanted: Effect)
    requires
        wanted == Effect::Suspend || wanted == Effect::Player(PlayerCommand::Pause),
    ensures
        occurrences(s.cancel_effects(), wanted) == 0,
{
    if s.running() {
        let clear = seq![Effect::Dim(Opacity::clear_spec())];
        let volume = s.to_player(PlayerCommand::SetVolume(FULL_VOLUME));
        lemma_occurrences_concat(s.stop_ticking() + clear, volume, wanted);
        lemma_occurrences_concat(s.stop_ticking(), clear, wanted);
        lemma_stop_ticking_counts(s, wanted);
        lemma_single(Effect::Dim(Opacity::clear_spec()), wanted);
        lemma_to_player_counts(s, PlayerCommand::SetVolume(FULL_VOLUME), wanted);
    }
}

/// Each tick of a running countdown takes exactly one second off the
/// clock, the last one included; at rest the clock stays at nought.
pub proof fn law_tick_takes_a_second(s: SessionState)
    requires
        s.wf(),
    ensures
        s.running() ==> s.tick().remaining_seconds == s.remaining_seconds - 1,
        !s.running() ==> s.tick() == s,
        s.tick().running() <==> s.running() && s.remaining_seconds > 1,
        s.running() && !s.tick().running() ==> s.tick().phase == Phase::Completed,
{
}

/// Over a run of ticks the clock goes down by one a tick until it is at
/// nought, where the countdown is over and the clock stays.
pub proof fn law_ticks_count_down(s: SessionState, count: nat)
    requires
        s.wf(),
        s.running(),
    ensures
        s.after_ticks(count).wf(),
        count < s.remaining_seconds ==> {
            &&& s.after_ticks(count).running()
            &&& s.after_ticks(count).remaining_seconds == s.remaining_seconds - count
            &&& s.after_ticks(count).total_seconds == s.total_seconds
        },
        count >= s.remaining_seconds ==> {
            &&& s.after_ticks(count).phase == Phase::Completed
            &&& s.after_ticks(count).remaining_seconds == 0
            &&& s.after_ticks(count).total_seconds == 0
        },
        s.after_ticks(count).media == s.media,
        s.after_ticks(count).tick_handle is Some ==> s.after_ticks(count).tick_handle
            == s.tick_handle,
    decreases count,
{
    if count > 0 {
        law_ticks_count_down(s, (count - 1) as nat);
    }
}

proof fn lemma_tick_counts(s: SessionState, wanted: Effect)
    requires
        s.wf(),
        wanted == Effect::Suspend || wanted == Effect::Player(PlayerCommand::Pause),
    ensures
        occurrences(s.tick_effects(), wanted) == if s.on_last_second() && (wanted
            == Effect::Suspend || s.attached()) {
            1nat
        } else {
            0nat
        },
{
    if !s.running() {
    } else if s.on_last_second() {
        let pause = s.to_player(PlayerCommand::Pause);
        lemma_occurrences_concat(s.stop_ticking() + pause, seq![Effect::Suspend], wanted);
        lemma_occurrences_concat(s.stop_ticking(), pause, wanted);
        lemma_stop_ticking_counts(s, wanted);
        lemma_to_player_counts(s, PlayerCommand::Pause, wanted);
        lemma_single(Effect::Suspend, wanted);
    } else {
        let left = (s.remaining_seconds - 1) as nat;
        lemma_occurrences_concat(seq![Effect::Dim(s.tick_opacity())], s.fade(left), wanted);
        lemma_single(Effect::Dim(s.tick_opacity()), wanted);
        match fade_volume_spec(s.total_seconds, left) {
            Some(percent) => {
                lemma_to_player_counts(s, PlayerCommand::SetVolume(percent as u32), wanted);
            },
            None => {},
        }
    }
}

/// The tick that ends the countdown asks the host to suspend exactly
/// once and pauses an attached player exactly once; no other tick does
/// either.
pub proof fn law_completion_effects(s: SessionState)
    requires
        s.wf(),
    ensures
        s.on_last_second() ==> {
            &&& s.tick().phase == Phase::Completed
            &&& s.tick().status == Status::SweetDreams
            &&& s.tick().tick_handle is None
            &&& occurrences(s.tick_effects(), Effect::Suspend) == 1
            &&& occurrences(s.tick_effects(), Effect::Player(PlayerCommand::Pause)) == if s.attached() {
                1nat
            } else {
                0nat
            }
        },
        !s.on_last_second() ==> {
            &&& occurrences(s.tick_effects(), Effect::Suspend) == 0
            &&& occurrences(s.tick_effects(), Effect::Player(PlayerCommand::Pause)) == 0
        },
{
    lemma_tick_counts(s, Effect::Suspend);
    lemma_tick_counts(s, Effect::Player(PlayerCommand::Pause));
}

proof fn lemma_run_counts(s: SessionState, count: nat, wanted: Effect)
    requires
        s.wf(),
        s.running(),
        wanted == Effect::Suspend || wanted == Effect::Player(PlayerCommand::Pause),
    ensures
        occurrences(s.effects_of_ticks(count), wanted) == if count >= s.remaining_seconds && (
        wanted == Effect::Suspend || s.attached()) {
            1nat
        } else {
            0nat
        },
    decreases count,
{
    if count > 0 {
        let before = (count - 1) as nat;
        lemma_run_counts(s, before, wanted);
        law_ticks_count_down(s, before);
        lemma_tick_counts(s.after_ticks(before), wanted);
        lemma_occurrences_concat(
            s.effects_of_ticks(before),
            s.after_ticks(before).tick_effects(),
            wanted,
        );
    }
}

/// However many ticks come, one countdown asks the host to suspend once
/// at most: not at all before the clock is at nought, and exactly once
/// from then on. The same holds of pausing an attached player.
pub proof fn law_one_suspend_per_session(s: SessionState, count: nat)
    requires
        s.wf(),
        s.running(),
    ensures
        occurrences(s.effects_of_ticks(count), Effect::Suspend) == if count
            >= s.remaining_seconds {
            1nat
        } else {
            0nat
        },
        occurrences(s.effects_of_ticks(count), Effect::Player(PlayerCommand::Pause)) == if count
            >= s.remaining_seconds && s.attached() {
            1nat
        } else {
            0nat
        },
{
    lemma_run_counts(s, count, Effect::Suspend);
    lemma_run_counts(s, count, Effect::Player(PlayerCommand::Pause));
}

/// Within one countdown the overlay never lightens from tick to tick,
/// however many ticks lie between, and it is never darker than nine
/// tenths.
pub proof fn law_dim_grows(s: SessionState, count: nat)
    requires
        s.wf(),
        s.running(),
        count < s.remaining_seconds,
    ensures
        s.tick_opacity().wf(),
        s.after_ticks(count).tick_opacity().wf(),
        s.tick_opacity().no_darker_than(s.after_ticks(count).tick_opacity()),
{
    law_ticks_count_down(s, count);
    lemma_opacity_grows(
        s.total_seconds,
        (s.remaining_seconds - 1) as nat,
        (s.remaining_seconds - count - 1) as nat,
    );
}

/// A tick never makes the message of a running countdown less urgent.
/// Once the last minute has brought its message, a tick that leaves
/// more than ten seconds keeps it, and no tick brings back the message
/// that the countdown began with.
pub proof fn law_status_sticks(s: SessionState)
    requires
        s.wf(),
        s.running(),
        !s.on_last_second(),
    ensures
        s.tick().status.urgency() >= s.status.urgency(),
        s.tick().status == Status::TimerRunning ==> s.status == Status::TimerRunning,
        s.status == Status::GettingSleepy && s.remaining_seconds - 1 > 10 ==> s.tick().status
            == Status::GettingSleepy,
        s.remaining_seconds - 1 <= 10 ==> s.tick().status == Status::AlmostThere,
        10 < s.remaining_seconds - 1 <= 60 ==> s.tick().status == Status::GettingSleepy,
        60 < s.remaining_seconds - 1 ==> s.tick().status == s.status,
{
}

/// Whether a player is attached makes no difference to the countdown:
/// loading or closing a video leaves phase, clock, message and tick
/// registration as they are, and a tick, a start or a cancel takes the
/// countdown to the same place with a player as without.
pub proof fn law_media_apart(s: SessionState, id: Seq<char>, minutes: nat)
    ensures
        s.attach(id).phase == s.phase && s.close().phase == s.phase,
        s.attach(id).total_seconds == s.total_seconds && s.close().total_seconds
            == s.total_seconds,
        s.attach(id).remaining_seconds == s.remaining_seconds && s.close().remaining_seconds
            == s.remaining_seconds,
        s.attach(id).status == s.status && s.close().status == s.status,
        s.attach(id).tick_handle == s.tick_handle && s.close().tick_handle == s.tick_handle,
        s.attach(id).tick() == s.tick().attach(id),
        s.close().tick().media == s.tick().close().media,
        s.close().tick().remaining_seconds == s.tick().remaining_seconds,
        s.close().tick().phase == s.tick().phase,
        s.close().tick().status == s.tick().status,
        s.attach(id).cancel() == s.cancel().attach(id),
        s.close().start(minutes).remaining_seconds == s.start(minutes).remaining_seconds,
        s.close().start(minutes).phase == s.start(minutes).phase,
{
}

/// With no player attached no step asks anything of a player.
pub proof fn law_no_player_no_commands(s: SessionState, minutes: nat)
    requires
        !s.attached(),
    ensures
        !touches_player(s.start_effects(minutes)),
        !touches_player(s.tick_effects()),
        !touches_player(s.cancel_effects()),
{
}

/// Every running countdown is long enough to have a fade: its last
/// tenth is six seconds at the least.
pub proof fn law_fade_always_there(s: SessionState)
    requires
        s.wf(),
        s.running(),
    ensures
        fade_span(s.total_seconds) >= 6,
        fade_volume_spec(s.total_seconds, 0) is Some,
{
}

/// Every volume that a tick sets lies between nought and a hundred.
pub proof fn law_volume_in_range(s: SessionState, i: int)
    requires
        s.wf(),
        0 <= i < s.tick_effects().len(),
    ensures
        s.tick_effects()[i] matches Effect::Player(PlayerCommand::SetVolume(percent)) ==> percent
            <= 100,
{
    if s.running() && !s.on_last_second() {
        law_fade_range(s.total_seconds, (s.remaining_seconds - 1) as nat);
    }
}

/// No tick registration is ever lost sight of: whenever a step takes a
/// handle out of the state, the commands of that step tear that
/// registration down, exactly once. So at most one registration is
/// ever outstanding.
pub proof fn law_no_handle_is_lost(s: SessionState, old_handle: i32, minutes: nat, handle: i32)
    requires
        s.wf(),
        s.tick_handle == Some(old_handle),
    ensures
        s.start(minutes).tick_handle == Some(old_handle) || occurrences(
            s.start_effects(minutes),
            Effect::StopTicking(old_handle),
        ) == 1,
        s.tick().tick_handle == Some(old_handle) || occurrences(
            s.tick_effects(),
            Effect::StopTicking(old_handle),
        ) == 1,
        s.cancel().tick_handle == Some(old_handle) || occurrences(
            s.cancel_effects(),
            Effect::StopTicking(old_handle),
        ) == 1,
        occurrences(s.registered_effects(handle), Effect::StopTicking(old_handle)) == 1,
{
    let stop = Effect::StopTicking(old_handle);
    lemma_single(stop, stop);
    assert(s.stop_ticking() == seq![stop]);
    assert(s.running());
    if valid_duration(minutes) {
        let dimming = if s.attached() {
            seq![Effect::DimMode(true)]
        } else {
            Seq::empty()
        };
        lemma_occurrences_concat(s.stop_ticking() + dimming, seq![Effect::StartTicking], stop);
        lemma_occurrences_concat(s.stop_ticking(), dimming, stop);
        lemma_single(Effect::DimMode(true), stop);
        lemma_single(Effect::StartTicking, stop);
    }
    if s.on_last_second() {
        let pause = s.to_player(PlayerCommand::Pause);
        lemma_occurrences_concat(s.stop_ticking() + pause, seq![Effect::Suspend], stop);
        lemma_occurrences_concat(s.stop_ticking(), pause, stop);
        lemma_to_player_counts(s, PlayerCommand::Pause, stop);
        lemma_single(Effect::Suspend, stop);
    }
    let clear = seq![Effect::Dim(Opacity::clear_spec())];
    let volume = s.to_player(PlayerCommand::SetVolume(FULL_VOLUME));
    lemma_occurrences_concat(s.stop_ticking() + clear, volume, stop);
    lemma_occurrences_concat(s.stop_ticking(), clear, stop);
    lemma_single(Effect::Dim(Opacity::clear_spec()), stop);
    lemma_to_player_counts(s, PlayerCommand::SetVolume(FULL_VOLUME), stop);
}

} // verus!

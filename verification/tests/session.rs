use sleepy_whale::dim::Opacity;
use sleepy_whale::effect::Effect;
use sleepy_whale::effect::TICK_MILLISECONDS;
use sleepy_whale::model::Phase;
use sleepy_whale::model::DEFAULT_MINUTES;
use sleepy_whale::model::MAX_MINUTES;
use sleepy_whale::model::MAX_SECONDS;
use sleepy_whale::model::MIN_MINUTES;
use sleepy_whale::player::PlayerCommand;
use sleepy_whale::session::Session;
use sleepy_whale::status::Severity;
use sleepy_whale::status::Status;
use sleepy_whale::status::VideoHint;
use sleepy_whale::video::resolve;
use sleepy_whale::video::RejectionReason;

fn value(opacity: Opacity) -> f64 {
    opacity.elapsed as f64 / opacity.total as f64 * 0.9
}

fn running(minutes: u32, handle: i32) -> Session {
    let mut session = Session::new();
    session.start(minutes);
    session.tick_registered(handle);
    session
}

fn count(effects: &[Effect], wanted: Effect) -> usize {
    effects.iter().filter(|e| **e == wanted).count()
}

#[test]
fn a_new_session_is_at_rest() {
    let session = Session::new();
    assert_eq!(session.phase(), Phase::Idle);
    assert!(!session.is_running());
    assert_eq!(session.selected_minutes(), 60);
    assert_eq!(session.selected_minutes(), DEFAULT_MINUTES);
    assert_eq!(session.total_seconds(), 0);
    assert_eq!(session.remaining_seconds(), 0);
    assert_eq!(session.status(), Status::Ready);
    assert_eq!(session.status().text(), "READY TO POD");
    assert_eq!(session.status().severity(), Severity::Neutral);
    assert_eq!(session.tick_handle(), None);
    assert!(!session.is_video_loaded());
    assert!(session.media().is_none());
    assert!(session.embed_url().is_none());
    assert!(!session.dim_mode());
    assert_eq!(session.progress_percent(), 0);
    assert_eq!(session.timer_display(), "00:00:00");
}

#[test]
fn the_bounds_and_the_tick() {
    assert_eq!(MIN_MINUTES, 1);
    assert_eq!(MAX_MINUTES, 480);
    assert_eq!(MAX_SECONDS, 480 * 60);
    assert_eq!(TICK_MILLISECONDS, 1000);
}

#[test]
fn start_puts_the_minutes_on_the_clock() {
    for minutes in [1u32, 15, 60, 90, 240, 480] {
        let mut session = Session::new();
        let effects = session.start(minutes);
        assert_eq!(effects, vec![Effect::StartTicking]);
        assert_eq!(session.phase(), Phase::Running);
        assert!(session.is_running());
        assert_eq!(session.total_seconds(), minutes * 60);
        assert_eq!(session.remaining_seconds(), minutes * 60);
        assert_eq!(session.status(), Status::TimerRunning);
        assert_eq!(session.status().text(), "TIMER RUNNING");
        assert_eq!(session.status().severity(), Severity::Running);
        assert_eq!(session.progress_percent(), 0);
    }
}

#[test]
fn start_out_of_bounds_is_refused() {
    for minutes in [0u32, 481, 1000, u32::MAX] {
        let mut session = Session::new();
        let effects = session.start(minutes);
        assert_eq!(effects, vec![]);
        assert_eq!(session.phase(), Phase::Idle);
        assert_eq!(session.total_seconds(), 0);
        assert_eq!(session.remaining_seconds(), 0);
        assert_eq!(session.tick_handle(), None);
        assert_eq!(session.status(), Status::InvalidTime);
        assert_eq!(session.status().text(), "INVALID TIME (1-480 MIN)");
        assert_eq!(session.status().severity(), Severity::Warning);
    }
}

#[test]
fn a_refused_start_leaves_a_running_countdown_alone() {
    let mut session = running(2, 7);
    session.tick();
    let effects = session.start(0);
    assert_eq!(effects, vec![]);
    assert!(session.is_running());
    assert_eq!(session.remaining_seconds(), 119);
    assert_eq!(session.total_seconds(), 120);
    assert_eq!(session.tick_handle(), Some(7));
    assert_eq!(session.status(), Status::InvalidTime);
}

#[test]
fn a_new_start_tears_the_old_ticking_down_first() {
    let mut session = running(5, 7);
    let effects = session.start(10);
    assert_eq!(effects, vec![Effect::StopTicking(7), Effect::StartTicking]);
    assert_eq!(session.tick_handle(), None);
    assert_eq!(session.remaining_seconds(), 600);
    assert_eq!(session.total_seconds(), 600);
    assert_eq!(session.status(), Status::TimerRunning);
}

#[test]
fn the_handle_is_kept_while_running() {
    let mut session = Session::new();
    session.start(1);
    assert_eq!(session.tick_handle(), None);
    assert_eq!(session.tick_registered(42), vec![]);
    assert_eq!(session.tick_handle(), Some(42));
}

#[test]
fn a_second_registration_replaces_the_first() {
    let mut session = running(1, 42);
    assert_eq!(session.tick_registered(43), vec![Effect::StopTicking(42)]);
    assert_eq!(session.tick_handle(), Some(43));
}

#[test]
fn a_registration_at_rest_is_torn_down_at_once() {
    let mut session = Session::new();
    assert_eq!(session.tick_registered(5), vec![Effect::StopTicking(5)]);
    assert_eq!(session.tick_handle(), None);
    assert_eq!(session.phase(), Phase::Idle);
}

#[test]
fn selecting_a_duration() {
    let mut session = Session::new();
    session.select_duration(90);
    assert_eq!(session.selected_minutes(), 90);
    assert!(session.is_selected(90));
    assert!(!session.is_selected(60));
    session.select_duration(0);
    assert_eq!(session.selected_minutes(), 0);
}

#[test]
fn no_selecting_while_running() {
    let mut session = Session::new();
    session.select_duration(15);
    session.start(15);
    session.select_duration(30);
    assert_eq!(session.selected_minutes(), 15);
    assert!(!session.is_selected(15));
    session.cancel();
    assert!(session.is_selected(15));
    session.select_duration(30);
    assert_eq!(session.selected_minutes(), 30);
}

#[test]
fn each_tick_takes_a_second() {
    let mut session = running(2, 1);
    let mut expected = 120;
    while session.is_running() {
        assert_eq!(session.remaining_seconds(), expected);
        assert_eq!(session.total_seconds(), 120);
        session.tick();
        expected -= 1;
    }
    assert_eq!(expected, 0);
    assert_eq!(session.remaining_seconds(), 0);
    assert_eq!(session.total_seconds(), 0);
    assert_eq!(session.phase(), Phase::Completed);
}

#[test]
fn a_tick_at_rest_does_nothing() {
    let mut session = Session::new();
    assert_eq!(session.tick(), vec![]);
    assert_eq!(session.phase(), Phase::Idle);
    assert_eq!(session.remaining_seconds(), 0);
    assert_eq!(session.status(), Status::Ready);

    let mut session = running(1, 1);
    for _ in 0..60 {
        session.tick();
    }
    assert_eq!(session.phase(), Phase::Completed);
    assert_eq!(session.tick(), vec![]);
    assert_eq!(session.phase(), Phase::Completed);
    assert_eq!(session.remaining_seconds(), 0);
    assert_eq!(session.status(), Status::SweetDreams);
}

#[test]
fn completion_suspends_once() {
    let mut session = running(1, 9);
    session.load_video("dQw4w9WgXcQ");
    let mut all: Vec<Effect> = Vec::new();
    for _ in 0..59 {
        all.extend(session.tick());
    }
    assert!(session.is_running());
    assert_eq!(session.remaining_seconds(), 1);
    assert_eq!(count(&all, Effect::Suspend), 0);
    assert_eq!(count(&all, Effect::Player(PlayerCommand::Pause)), 0);

    let last = session.tick();
    assert_eq!(
        last,
        vec![Effect::StopTicking(9), Effect::Player(PlayerCommand::Pause), Effect::Suspend]
    );
    assert_eq!(session.phase(), Phase::Completed);
    assert_eq!(session.status(), Status::SweetDreams);
    assert_eq!(session.status().text(), "SWEET DREAMS WHALE!");
    assert_eq!(session.status().severity(), Severity::Quiet);
    assert_eq!(session.tick_handle(), None);
    assert_eq!(session.progress_percent(), 0);

    all.extend(last);
    for _ in 0..5 {
        all.extend(session.tick());
    }
    assert_eq!(count(&all, Effect::Suspend), 1);
    assert_eq!(count(&all, Effect::Player(PlayerCommand::Pause)), 1);
}

#[test]
fn completion_without_a_player_pauses_nothing() {
    let mut session = running(1, 9);
    for _ in 0..59 {
        session.tick();
    }
    assert_eq!(session.tick(), vec![Effect::StopTicking(9), Effect::Suspend]);
}

#[test]
fn completion_before_the_handle_came() {
    let mut session = Session::new();
    session.start(1);
    for _ in 0..59 {
        session.tick();
    }
    assert_eq!(session.tick(), vec![Effect::Suspend]);
    assert_eq!(session.tick_registered(3), vec![Effect::StopTicking(3)]);
}

#[test]
fn cancel_resets_and_never_suspends() {
    let mut session = running(30, 4);
    session.load_video("dQw4w9WgXcQ");
    session.tick();
    let effects = session.cancel();
    assert_eq!(
        effects,
        vec![
            Effect::StopTicking(4),
            Effect::Dim(Opacity::clear()),
            Effect::Player(PlayerCommand::SetVolume(100)),
        ]
    );
    assert_eq!(count(&effects, Effect::Suspend), 0);
    assert_eq!(session.phase(), Phase::Cancelled);
    assert!(!session.is_running());
    assert_eq!(session.total_seconds(), 0);
    assert_eq!(session.remaining_seconds(), 0);
    assert_eq!(session.tick_handle(), None);
    assert_eq!(session.status(), Status::Cancelled);
    assert_eq!(session.status().text(), "TIMER CANCELLED");
    assert_eq!(session.status().severity(), Severity::Quiet);
    assert_eq!(session.timer_display(), "00:00:00");
    assert_eq!(session.tick(), vec![]);
}

#[test]
fn cancel_without_a_player_leaves_the_volume() {
    let mut session = running(30, 4);
    assert_eq!(
        session.cancel(),
        vec![Effect::StopTicking(4), Effect::Dim(Opacity::clear())]
    );
}

#[test]
fn cancel_at_rest_is_no_step() {
    let mut session = Session::new();
    assert_eq!(session.cancel(), vec![]);
    assert_eq!(session.phase(), Phase::Idle);
    assert_eq!(session.status(), Status::Ready);
    assert_eq!(session.remaining_seconds(), 0);

    session.start(0);
    assert_eq!(session.cancel(), vec![]);
    assert_eq!(session.status(), Status::InvalidTime);
}

#[test]
fn cancel_twice_is_cancel_once() {
    let mut session = running(10, 4);
    session.cancel();
    assert_eq!(session.cancel(), vec![]);
    assert_eq!(session.phase(), Phase::Cancelled);
    assert_eq!(session.status(), Status::Cancelled);
    assert_eq!(session.total_seconds(), 0);
    assert_eq!(session.remaining_seconds(), 0);
}

#[test]
fn cancel_after_completion_keeps_the_farewell() {
    let mut session = running(1, 4);
    for _ in 0..60 {
        session.tick();
    }
    assert_eq!(session.cancel(), vec![]);
    assert_eq!(session.phase(), Phase::Completed);
    assert_eq!(session.status(), Status::SweetDreams);
}

#[test]
fn a_new_countdown_after_the_old_one() {
    let mut session = running(1, 4);
    for _ in 0..60 {
        session.tick();
    }
    assert_eq!(session.start(2), vec![Effect::StartTicking]);
    assert_eq!(session.phase(), Phase::Running);
    assert_eq!(session.remaining_seconds(), 120);
    assert_eq!(session.status(), Status::TimerRunning);
    session.cancel();
    assert_eq!(session.start(3), vec![Effect::StartTicking]);
    assert_eq!(session.remaining_seconds(), 180);
}

#[test]
fn the_messages_of_the_last_minute() {
    let mut session = running(2, 1);
    for _ in 0..59 {
        session.tick();
        assert_eq!(session.status(), Status::TimerRunning);
    }
    assert_eq!(session.remaining_seconds(), 61);
    session.tick();
    assert_eq!(session.remaining_seconds(), 60);
    assert_eq!(session.status(), Status::GettingSleepy);
    assert_eq!(session.status().text(), "GETTING SLEEPY...");
    assert_eq!(session.status().severity(), Severity::Warning);
    for _ in 0..49 {
        session.tick();
        assert_eq!(session.status(), Status::GettingSleepy);
    }
    assert_eq!(session.remaining_seconds(), 11);
    session.tick();
    assert_eq!(session.remaining_seconds(), 10);
    assert_eq!(session.status(), Status::AlmostThere);
    assert_eq!(session.status().text(), "ALMOST THERE...");
    assert_eq!(session.status().severity(), Severity::Warning);
    for _ in 0..9 {
        session.tick();
        assert_eq!(session.status(), Status::AlmostThere);
    }
    session.tick();
    assert_eq!(session.status(), Status::SweetDreams);
}

#[test]
fn a_one_minute_countdown_starts_as_running() {
    let mut session = running(1, 1);
    assert_eq!(session.remaining_seconds(), 60);
    assert_eq!(session.status(), Status::TimerRunning);
    session.tick();
    assert_eq!(session.status(), Status::GettingSleepy);
}

#[test]
fn the_overlay_darkens_tick_by_tick() {
    let mut session = running(1, 1);
    let mut last = 0.0;
    let mut seen = 0;
    while session.remaining_seconds() > 1 {
        let effects = session.tick();
        match effects[0] {
            Effect::Dim(opacity) => {
                let now = value(opacity);
                assert!(now >= last);
                assert!(now >= 0.0 && now <= 0.9);
                last = now;
                seen += 1;
            }
            _ => panic!("a tick begins with the overlay"),
        }
    }
    assert_eq!(seen, 59);
    assert_eq!(last, 59.0 / 60.0 * 0.9);
}

#[test]
fn the_overlay_of_a_tick() {
    let mut session = running(1, 1);
    assert_eq!(
        session.tick(),
        vec![Effect::Dim(Opacity { elapsed: 1, total: 60 })]
    );
    assert_eq!(
        session.tick(),
        vec![Effect::Dim(Opacity { elapsed: 2, total: 60 })]
    );
    assert_eq!(session.progress_percent(), 3);
}

#[test]
fn the_volume_fades_over_the_last_tenth() {
    let mut session = running(1, 1);
    session.load_video("https://youtu.be/dQw4w9WgXcQ");
    for _ in 0..53 {
        let effects = session.tick();
        assert_eq!(effects.len(), 1);
    }
    assert_eq!(session.remaining_seconds(), 7);
    let mut volumes = Vec::new();
    while session.remaining_seconds() > 1 {
        let effects = session.tick();
        assert_eq!(effects.len(), 2);
        match effects[1] {
            Effect::Player(PlayerCommand::SetVolume(percent)) => volumes.push(percent),
            _ => panic!("the fade follows the overlay"),
        }
    }
    assert_eq!(volumes, vec![100, 83, 67, 50, 33, 17]);
}

#[test]
fn no_fade_without_a_player() {
    let mut session = running(1, 1);
    while session.remaining_seconds() > 1 {
        assert_eq!(session.tick().len(), 1);
    }
}

#[test]
fn progress_in_percent() {
    let mut session = running(1, 1);
    for _ in 0..30 {
        session.tick();
    }
    assert_eq!(session.progress_percent(), 50);
    assert_eq!(session.timer_display(), "00:00:30");
    for _ in 0..29 {
        session.tick();
    }
    assert_eq!(session.progress_percent(), 98);
    assert_eq!(session.timer_display(), "00:00:01");
}

#[test]
fn the_clock_face_of_a_long_countdown() {
    let mut session = running(480, 1);
    assert_eq!(session.timer_display(), "08:00:00");
    session.tick();
    assert_eq!(session.timer_display(), "07:59:59");
}

#[test]
fn loading_a_video() {
    let mut session = Session::new();
    let (hint, effects) = session.load_video("https://youtu.be/dQw4w9WgXcQ");
    assert_eq!(hint, VideoHint::Loaded);
    assert_eq!(hint.text(), "Video loaded! Set your timer \u{1f319}");
    assert_eq!(hint.class(), "success");
    assert_eq!(effects, vec![Effect::VideoActive(true)]);
    assert!(session.is_video_loaded());
    assert_eq!(session.media().unwrap().as_str(), "dQw4w9WgXcQ");
    assert_eq!(
        session.embed_url().unwrap(),
        "https://www.youtube.com/embed/dQw4w9WgXcQ?autoplay=1&enablejsapi=1"
    );
    assert!(!session.dim_mode());
}

#[test]
fn loading_nothing() {
    let mut session = Session::new();
    for url in ["", "   ", "\t\n"] {
        let (hint, effects) = session.load_video(url);
        assert_eq!(hint, VideoHint::EnterUrl);
        assert_eq!(hint.text(), "Please enter a YouTube URL");
        assert_eq!(hint.class(), "error");
        assert_eq!(effects, vec![]);
        assert!(!session.is_video_loaded());
    }
}

#[test]
fn a_reading_that_came_from_elsewhere() {
    let mut session = Session::new();
    let (hint, effects) = session.video_resolved(Err(RejectionReason::Unparseable));
    assert_eq!(hint, VideoHint::Unparseable);
    assert_eq!(effects, vec![]);
    let (hint, effects) = session.video_resolved(Err(RejectionReason::Empty));
    assert_eq!(hint, VideoHint::EnterUrl);
    assert_eq!(effects, vec![]);
    assert!(!session.is_video_loaded());
    let (hint, effects) = session.video_resolved(resolve("dQw4w9WgXcQ"));
    assert_eq!(hint, VideoHint::Loaded);
    assert_eq!(effects, vec![Effect::VideoActive(true)]);
    assert_eq!(session.media().unwrap().as_str(), "dQw4w9WgXcQ");
}

#[test]
fn loading_what_cannot_be_read() {
    let mut session = Session::new();
    for url in ["https://example.com/x", "nonsense", " dQw4w9WgXc "] {
        let (hint, effects) = session.load_video(url);
        assert_eq!(hint, VideoHint::Unparseable);
        assert_eq!(hint.text(), "Could not parse YouTube URL");
        assert_eq!(hint.class(), "error");
        assert_eq!(effects, vec![]);
        assert!(!session.is_video_loaded());
    }
}

#[test]
fn a_failed_load_keeps_the_video_that_is_there() {
    let mut session = Session::new();
    session.load_video("AAAAAAAAAAA");
    session.load_video("nonsense");
    assert_eq!(session.media().unwrap().as_str(), "AAAAAAAAAAA");
    session.load_video("BBBBBBBBBBB");
    assert_eq!(session.media().unwrap().as_str(), "BBBBBBBBBBB");
}

#[test]
fn start_with_a_video_dims_the_page() {
    let mut session = Session::new();
    session.load_video("dQw4w9WgXcQ");
    assert_eq!(session.start(1), vec![Effect::DimMode(true), Effect::StartTicking]);
    assert!(session.dim_mode());
}

#[test]
fn start_without_a_video_leaves_the_page() {
    let mut session = Session::new();
    session.start(1);
    assert!(!session.dim_mode());
    session.load_video("dQw4w9WgXcQ");
    assert!(!session.dim_mode());
}

#[test]
fn closing_the_video_leaves_the_countdown() {
    let mut session = running(1, 8);
    session.load_video("dQw4w9WgXcQ");
    session.start(1);
    session.tick_registered(8);
    session.tick();
    let (hint, effects) = session.close_video();
    assert_eq!(hint, VideoHint::Cleared);
    assert_eq!(hint.text(), "");
    assert_eq!(hint.class(), "");
    assert_eq!(effects, vec![Effect::VideoActive(false), Effect::DimMode(false)]);
    assert!(!session.is_video_loaded());
    assert!(!session.dim_mode());
    assert!(session.is_running());
    assert_eq!(session.remaining_seconds(), 59);
    assert_eq!(session.total_seconds(), 60);
    assert_eq!(session.tick_handle(), Some(8));
    assert_eq!(session.status(), Status::GettingSleepy);
    while session.remaining_seconds() > 1 {
        assert_eq!(session.tick().len(), 1);
    }
    assert_eq!(session.tick(), vec![Effect::StopTicking(8), Effect::Suspend]);
}

#[test]
fn loading_a_video_leaves_the_countdown() {
    let mut session = running(1, 8);
    session.tick();
    session.load_video("dQw4w9WgXcQ");
    assert!(session.is_running());
    assert_eq!(session.remaining_seconds(), 59);
    assert_eq!(session.tick_handle(), Some(8));
    assert!(!session.dim_mode());
}

#[test]
fn style_classes() {
    assert_eq!(Severity::Neutral.class(), "");
    assert_eq!(Severity::Warning.class(), "warning");
    assert_eq!(Severity::Running.class(), "running");
    assert_eq!(Severity::Quiet.class(), "");
}

#[test]
fn the_default_session_is_a_new_one() {
    let session = Session::default();
    assert_eq!(session.phase(), Phase::Idle);
    assert_eq!(session.selected_minutes(), 60);
    assert_eq!(session.status(), Status::Ready);
    assert_eq!(session.remaining_seconds(), 0);
    assert!(!session.is_video_loaded());
}

use spectre::{
    make_color_ref, FadeAction, Ghoast, GhoastClass, GhoastError, SpectreProps, Stage,
    WindowCommand,
};

fn record(title: &str) -> SpectreProps {
    let mut p = SpectreProps::new();
    p.title = title.to_string();
    p
}

#[test]
fn new_toast_is_created_and_not_shown() {
    let w = Ghoast::new("Song A", record("Song A"));
    assert_eq!(w.title, "Song A");
    assert_eq!(w.c_name, "Ghoast");
    assert!(w.is_good);
    assert_eq!(w.stage, Stage::Created);
    assert_eq!(w.get_current_alpha(), None);
}

#[test]
fn init_then_alpha_is_126() {
    let mut w = Ghoast::new("Song A", record("Song A"));
    let cmds = w.init();
    assert_eq!(
        cmds,
        vec![
            WindowCommand::Show,
            WindowCommand::Update,
            WindowCommand::SetTransparency { key: 0x7E7E7E, alpha: 126 },
            WindowCommand::Pump,
        ]
    );
    assert_eq!(w.get_current_alpha(), Some(126));
    assert_eq!(w.stage, Stage::Visible);
    // a second init changes nothing
    assert!(w.init().is_empty());
    assert_eq!(w.get_current_alpha(), Some(126));
}

#[test]
fn song_a_fades_in_126_steps_over_one_second() {
    let mut w = Ghoast::new("Song A", record("Song A"));
    w.init();
    assert_eq!(w.get_current_alpha(), Some(126));
    let mut s = w.fade_out(1_000_000_000).unwrap();
    assert_eq!(s.interval_nanos, 7_936_507);
    assert_eq!(w.stage, Stage::FadingOut);
    let mut sleeps: u64 = 0;
    let mut steps = 0u32;
    for expected in (1..126u8).rev() {
        let a = s.advance(&mut w, true);
        steps += 1;
        assert_eq!(
            a,
            FadeAction::Step { key: make_color_ref(126, 126, 126), alpha: expected, sleep_nanos: 7_936_507 }
        );
        assert_eq!(w.get_current_alpha(), Some(expected));
        sleeps += 7_936_507;
    }
    assert_eq!(s.advance(&mut w, true), FadeAction::Destruct);
    steps += 1;
    assert_eq!(steps, 126);
    assert_eq!(s.steps, 126);
    assert_eq!(w.stage, Stage::Closing);
    // the owner drains the queue until it is gone
    assert!(!w.message_loop(false));
    assert!(!w.is_good);
    assert_eq!(w.get_current_alpha(), None);
    assert!(sleeps <= 1_000_000_000);
    assert!(126 * 7_936_507u64 <= 1_000_000_000 && 1_000_000_000 < 126 * 7_936_508u64);
    // the session is over
    assert_eq!(s.advance(&mut w, true), FadeAction::Stop);
}

#[test]
fn fade_of_a_window_not_shown_fails() {
    let mut w = Ghoast::new("x", record("x"));
    assert_eq!(w.fade_out(5_000_000_000).unwrap_err(), GhoastError::PreconditionFailed);
    assert_eq!(w.stage, Stage::Created);
}

#[test]
fn fade_from_zero_fails() {
    let mut w = Ghoast::new("x", record("x"));
    w.init();
    w.alpha = Some(0);
    assert_eq!(w.fade_out(5_000_000_000).unwrap_err(), GhoastError::PreconditionFailed);
}

#[test]
fn closed_queue_ends_fade_at_once() {
    let mut w = Ghoast::new("x", record("x"));
    w.init();
    let mut s = w.fade_out(1_000_000_000).unwrap();
    assert!(matches!(s.advance(&mut w, true), FadeAction::Step { alpha: 125, .. }));
    assert_eq!(s.advance(&mut w, false), FadeAction::Stop);
    assert!(s.done);
    assert!(!w.is_good);
    assert_eq!(w.stage, Stage::Destroyed);
    assert_eq!(s.advance(&mut w, true), FadeAction::Stop);
    assert_eq!(s.alpha, 125);
}

#[test]
fn destruct_twice_is_harmless() {
    let mut w = Ghoast::new("x", record("x"));
    w.init();
    assert!(w.destruct());
    assert_eq!(w.stage, Stage::Closing);
    assert!(!w.message_loop(false));
    assert!(!w.destruct());
    assert_eq!(w.stage, Stage::Destroyed);
    assert!(!w.is_good);
}

#[test]
fn create_destroy_recreate_is_identical() {
    let mut first = Ghoast::new("Song A", record("Song A"));
    assert!(first.destruct());
    assert!(!first.message_loop(false));
    assert!(!first.is_good);
    assert_eq!(first.get_current_alpha(), None);
    let second = Ghoast::new("Song A", record("Song A"));
    assert_eq!(second.title, "Song A");
    assert!(second.is_good);
    assert_eq!(second.stage, Stage::Created);
    assert_eq!(second.alpha, None);
}

#[test]
fn two_toasts_fade_independently() {
    let mut a = Ghoast::new("Song A", record("Song A"));
    let mut b = Ghoast::new("Song B", record("Song B"));
    a.init();
    b.init();
    let mut sa = a.fade_out(1_000_000_000).unwrap();
    let mut sb = b.fade_out(2_000_000_000).unwrap();
    assert!(matches!(sa.advance(&mut a, true), FadeAction::Step { alpha: 125, .. }));
    assert!(matches!(sb.advance(&mut b, true), FadeAction::Step { alpha: 125, .. }));
    // a is closed from outside
    assert_eq!(sa.advance(&mut a, false), FadeAction::Stop);
    assert!(!a.is_good);
    // b goes on
    assert_eq!(
        sb.advance(&mut b, true),
        FadeAction::Step { key: 0x7E7E7E, alpha: 124, sleep_nanos: 15_873_015 }
    );
    assert!(b.is_good);
    assert_eq!(b.get_current_alpha(), Some(124));
    assert_eq!(sb.steps, 2);
}

#[test]
fn class_registration_result() {
    assert_eq!(GhoastClass::new(0).unwrap_err(), GhoastError::ClassRegistrationFailed);
    let c = GhoastClass::new(49_152).unwrap();
    assert_eq!(c.atom, 49_152);
    assert_eq!(c.class_name, "Ghoast");
}

#[test]
fn color_ref_packs_red_low() {
    assert_eq!(make_color_ref(126, 126, 126), 0x7E7E7E);
    assert_eq!(make_color_ref(1, 2, 3), 0x030201);
    assert_eq!(make_color_ref(255, 0, 0), 255);
    assert_eq!(make_color_ref(0, 0, 255), 0xFF0000);
}

#[test]
fn fade_from_three_takes_three_steps() {
    let mut w = Ghoast::new("t", record("t"));
    w.init();
    w.alpha = Some(3);
    let mut s = w.fade_out(10).unwrap();
    assert_eq!(s.interval_nanos, 3);
    assert_eq!(s.advance(&mut w, true), FadeAction::Step { key: 0x7E7E7E, alpha: 2, sleep_nanos: 3 });
    assert_eq!(s.advance(&mut w, true), FadeAction::Step { key: 0x7E7E7E, alpha: 1, sleep_nanos: 3 });
    assert_eq!(s.advance(&mut w, true), FadeAction::Destruct);
    assert_eq!(s.steps, 3);
    assert_eq!(s.alpha, 0);
    assert!(s.done);
    assert_eq!(w.stage, Stage::Closing);
    assert!(w.is_good);
}

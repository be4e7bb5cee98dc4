use pico::pixel::decode_pixel;
use pico::session::{Phase, ScreenPoint, Session};

#[test]
fn decode_packed_pixel() {
    assert_eq!(decode_pixel(0x0012_3456), (18, 52, 86));
}

#[test]
fn decode_ignores_bits_above_the_low_24() {
    assert_eq!(decode_pixel(0xFFFF_FFFF_FF12_3456), (18, 52, 86));
    assert_eq!(decode_pixel(0xFF00_0000), (0, 0, 0));
}

#[test]
fn decode_channel_extremes() {
    assert_eq!(decode_pixel(0x00FF_0000), (255, 0, 0));
    assert_eq!(decode_pixel(0x0000_FF00), (0, 255, 0));
    assert_eq!(decode_pixel(0x0000_00FF), (0, 0, 255));
}

#[test]
fn capture_success_path_releases_everything() {
    let mut session = Session::new();
    assert_eq!(session.phase, Phase::Idle);
    assert!(session.grab_attempt(true));
    assert_eq!(session.phase, Phase::Grabbed);
    session.begin_wait();
    assert_eq!(session.phase, Phase::AwaitingInput);
    // A motion event is discarded; the wait goes on.
    assert!(!session.on_event(false, 5, 5));
    assert_eq!(session.phase, Phase::AwaitingInput);
    assert_eq!(session.captured_point(), None);
    // The first button press ends the wait with its coordinates.
    assert!(session.on_event(true, 40, 70));
    assert_eq!(session.phase, Phase::Captured);
    assert_eq!(session.captured_point(), Some(ScreenPoint { x: 40, y: 70 }));
    session.teardown();
    assert_eq!(session.phase, Phase::Released);
    // The point survives the teardown.
    assert_eq!(session.captured_point(), Some(ScreenPoint { x: 40, y: 70 }));

    // The grab and the connection were fully given back, so a grab
    // attempt by another actor is granted.
    let mut second = Session::new();
    assert!(second.grab_attempt(true));
    assert_eq!(second.phase, Phase::Grabbed);
    second.teardown();
}

#[test]
fn grab_failure_is_released_at_once() {
    let mut session = Session::new();
    assert!(!session.grab_attempt(false));
    assert_eq!(session.phase, Phase::Released);
    assert_eq!(session.captured_point(), None);
}

#[test]
fn teardown_reachable_from_every_state() {
    let mut idle = Session::new();
    idle.teardown();
    assert_eq!(idle.phase, Phase::Released);

    let mut grabbed = Session::new();
    grabbed.grab_attempt(true);
    grabbed.teardown();
    assert_eq!(grabbed.phase, Phase::Released);

    let mut waiting = Session::new();
    waiting.grab_attempt(true);
    waiting.begin_wait();
    waiting.teardown();
    assert_eq!(waiting.phase, Phase::Released);
}

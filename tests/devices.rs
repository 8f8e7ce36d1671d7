use super_pixeled::render::{next_step, LoopAction, LoopEvent, LoopState};
use super_pixeled::{create_driver, Driver, Error, Framebuffer, LedDriver, MockDriver, PanelDriver};

#[test]
fn test_mock_driver() {
    let mut driver = MockDriver::new();

    assert!(!driver.is_healthy());
    driver.init().unwrap();
    assert!(driver.is_healthy());

    let fb = Framebuffer::default();
    driver.display(&fb).unwrap();
    assert_eq!(driver.frame_count(), 1);

    driver.shutdown().unwrap();
    assert!(!driver.is_healthy());
}

#[test]
fn display_before_init_fails() {
    let fb = Framebuffer::new(4, 4);
    let mut mock = MockDriver::new();
    assert!(matches!(mock.display(&fb), Err(Error::Hardware(_))));
    assert!(!mock.is_healthy());
    assert_eq!(mock.frame_count(), 0);
    let mut led = LedDriver::new(2);
    assert!(matches!(led.display(&fb), Err(Error::Hardware(_))));
    assert!(!led.is_healthy());
}

#[test]
fn display_after_shutdown_fails() {
    let fb = Framebuffer::new(4, 4);
    let mut mock = MockDriver::new();
    mock.shutdown().unwrap();
    mock.init().unwrap();
    mock.display(&fb).unwrap();
    mock.shutdown().unwrap();
    mock.shutdown().unwrap();
    assert!(matches!(mock.display(&fb), Err(Error::Hardware(_))));
    assert_eq!(mock.frame_count(), 1);
}

#[test]
fn brightness_is_clamped() {
    let mut mock = MockDriver::new();
    assert_eq!(mock.brightness(), 80);
    mock.set_brightness(150).unwrap();
    assert_eq!(mock.brightness(), 100);
    mock.set_brightness(255).unwrap();
    assert_eq!(mock.brightness(), 100);
    mock.set_brightness(0).unwrap();
    assert_eq!(mock.brightness(), 0);
    mock.set_brightness(42).unwrap();
    assert_eq!(mock.brightness(), 42);
    let mut led = LedDriver::new(3);
    led.set_brightness(101).unwrap();
    assert_eq!(led.brightness(), 100);
    assert_eq!(led.gpio_slowdown(), 3);
}

#[test]
fn driver_choice() {
    assert!(matches!(create_driver(true, 2), PanelDriver::Mock(_)));
    match create_driver(false, 4) {
        PanelDriver::Led(l) => assert_eq!(l.gpio_slowdown(), 4),
        other => panic!("unexpected {:?}", other),
    }
    let mut d = create_driver(true, 0);
    assert!(!d.is_healthy());
    d.init().unwrap();
    assert!(d.is_healthy());
    let fb = Framebuffer::new(2, 2);
    d.display(&fb).unwrap();
    d.display(&fb).unwrap();
    match d {
        PanelDriver::Mock(m) => assert_eq!(m.frame_count(), 2),
        other => panic!("unexpected {:?}", other),
    }
}

#[test]
fn render_loop_transitions() {
    assert_eq!(
        next_step(LoopState::Running, LoopEvent::FrameDue),
        (LoopState::Running, LoopAction::RenderFrame)
    );
    assert_eq!(
        next_step(LoopState::Running, LoopEvent::DisplayFailed),
        (LoopState::Running, LoopAction::Wait)
    );
    assert_eq!(
        next_step(LoopState::Running, LoopEvent::ShutdownSignal),
        (LoopState::Stopping, LoopAction::ShutDownDevice)
    );
    assert_eq!(
        next_step(LoopState::Stopping, LoopEvent::DeviceDown),
        (LoopState::Stopped, LoopAction::Exit)
    );
    for e in [
        LoopEvent::FrameDue,
        LoopEvent::FrameShown,
        LoopEvent::DisplayFailed,
        LoopEvent::ShutdownSignal,
        LoopEvent::DeviceDown,
    ] {
        assert_eq!(next_step(LoopState::Stopped, e), (LoopState::Stopped, LoopAction::Exit));
    }
}

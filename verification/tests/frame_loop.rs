use scene3d::{FrameLoopDriver, FrameSignal, FrameStage, LoopAction, LoopEvent, LoopState};

/// Carries a driver through one frame and returns the actions it asked for,
/// the poll included.
fn run_frame(driver: &mut FrameLoopDriver, close_requested: bool) -> Vec<LoopAction> {
    let mut actions = vec![driver.pending()];
    let mut action = driver.handle(LoopEvent::InputPolled { close_requested });
    loop {
        actions.push(action);
        let yielded = matches!(action, LoopAction::Yield(_));
        action = driver.handle(LoopEvent::StageCompleted);
        if yielded {
            return actions;
        }
    }
}

fn started() -> FrameLoopDriver {
    let mut driver = FrameLoopDriver::new();
    driver.handle(LoopEvent::SceneReady);
    driver
}

#[test]
fn new_driver_is_initializing() {
    let driver = FrameLoopDriver::new();
    assert_eq!(driver.state(), LoopState::Initializing);
    assert_eq!(driver.pending(), LoopAction::BuildScene);
    assert_eq!(driver.frames_rendered(), 0);
}

#[test]
fn scene_ready_starts_the_loop() {
    let mut driver = FrameLoopDriver::new();
    let action = driver.handle(LoopEvent::SceneReady);
    assert_eq!(action, LoopAction::Perform(FrameStage::PollInput));
    assert_eq!(driver.state(), LoopState::Running);
    assert_eq!(driver.stage(), FrameStage::PollInput);
}

#[test]
fn initializing_driver_ignores_frame_events() {
    let mut driver = FrameLoopDriver::new();
    assert_eq!(driver.handle(LoopEvent::StageCompleted), LoopAction::BuildScene);
    assert_eq!(
        driver.handle(LoopEvent::InputPolled { close_requested: true }),
        LoopAction::BuildScene
    );
    assert_eq!(driver.state(), LoopState::Initializing);
    assert_eq!(driver.handle(LoopEvent::SceneReady), LoopAction::Perform(FrameStage::PollInput));
    assert_eq!(run_frame(&mut driver, false).last(), Some(&LoopAction::Yield(FrameSignal::Continue)));
}

#[test]
fn stages_of_a_frame_come_in_order() {
    let mut driver = started();
    assert_eq!(
        run_frame(&mut driver, false),
        vec![
            LoopAction::Perform(FrameStage::PollInput),
            LoopAction::Perform(FrameStage::UpdateViewport),
            LoopAction::Perform(FrameStage::HandleControls),
            LoopAction::Perform(FrameStage::UpdateTransforms),
            LoopAction::Perform(FrameStage::RenderScene),
            LoopAction::Yield(FrameSignal::Continue),
        ]
    );
    assert_eq!(driver.state(), LoopState::Running);
    assert_eq!(driver.pending(), LoopAction::Perform(FrameStage::PollInput));
    assert_eq!(driver.frames_rendered(), 1);
}

#[test]
fn close_request_ends_the_loop_after_the_frame() {
    let mut driver = started();
    assert_eq!(
        run_frame(&mut driver, true),
        vec![
            LoopAction::Perform(FrameStage::PollInput),
            LoopAction::Perform(FrameStage::UpdateViewport),
            LoopAction::Perform(FrameStage::HandleControls),
            LoopAction::Perform(FrameStage::UpdateTransforms),
            LoopAction::Perform(FrameStage::RenderScene),
            LoopAction::Yield(FrameSignal::Terminate),
        ]
    );
    assert_eq!(driver.state(), LoopState::Terminated);
    assert_eq!(driver.pending(), LoopAction::Halt);
    assert_eq!(driver.frames_rendered(), 1);
}

#[test]
fn close_request_does_not_cut_a_frame_short() {
    let mut driver = started();
    driver.handle(LoopEvent::InputPolled { close_requested: true });
    assert_eq!(driver.state(), LoopState::Running);
    driver.handle(LoopEvent::StageCompleted);
    driver.handle(LoopEvent::StageCompleted);
    assert_eq!(driver.handle(LoopEvent::StageCompleted), LoopAction::Perform(FrameStage::RenderScene));
    assert_eq!(driver.state(), LoopState::Running);
    assert_eq!(driver.frames_rendered(), 0);
    assert_eq!(driver.handle(LoopEvent::StageCompleted), LoopAction::Yield(FrameSignal::Terminate));
    assert_eq!(driver.frames_rendered(), 1);
    assert_eq!(driver.state(), LoopState::Running);
    assert_eq!(driver.handle(LoopEvent::StageCompleted), LoopAction::Halt);
    assert_eq!(driver.state(), LoopState::Terminated);
}

#[test]
fn terminated_driver_ignores_every_event() {
    let mut driver = started();
    run_frame(&mut driver, true);
    for event in [
        LoopEvent::SceneReady,
        LoopEvent::InputPolled { close_requested: false },
        LoopEvent::InputPolled { close_requested: true },
        LoopEvent::StageCompleted,
    ] {
        assert_eq!(driver.handle(event), LoopAction::Halt);
        assert_eq!(driver.state(), LoopState::Terminated);
        assert_eq!(driver.frames_rendered(), 1);
    }
}

#[test]
fn running_driver_ignores_a_second_scene_ready() {
    let mut driver = started();
    run_frame(&mut driver, false);
    driver.handle(LoopEvent::InputPolled { close_requested: false });
    let before = (driver.state(), driver.stage(), driver.frames_rendered());
    assert_eq!(driver.handle(LoopEvent::SceneReady), LoopAction::Perform(FrameStage::UpdateViewport));
    assert_eq!((driver.state(), driver.stage(), driver.frames_rendered()), before);
}

#[test]
fn poll_is_not_skipped_by_stage_completed() {
    let mut driver = started();
    assert_eq!(driver.handle(LoopEvent::StageCompleted), LoopAction::Perform(FrameStage::PollInput));
    assert_eq!(driver.stage(), FrameStage::PollInput);
}

#[test]
fn poll_report_in_mid_frame_changes_nothing() {
    let mut driver = started();
    driver.handle(LoopEvent::InputPolled { close_requested: false });
    driver.handle(LoopEvent::StageCompleted);
    assert_eq!(
        driver.handle(LoopEvent::InputPolled { close_requested: true }),
        LoopAction::Perform(FrameStage::HandleControls)
    );
    driver.handle(LoopEvent::StageCompleted);
    driver.handle(LoopEvent::StageCompleted);
    assert_eq!(driver.handle(LoopEvent::StageCompleted), LoopAction::Yield(FrameSignal::Continue));
}

#[test]
fn close_request_of_one_frame_is_not_kept_for_the_next() {
    let mut driver = started();
    run_frame(&mut driver, false);
    assert_eq!(run_frame(&mut driver, false).last(), Some(&LoopAction::Yield(FrameSignal::Continue)));
    assert_eq!(run_frame(&mut driver, true).last(), Some(&LoopAction::Yield(FrameSignal::Terminate)));
}

#[test]
fn frames_are_counted_one_by_one() {
    let mut driver = started();
    for n in 1..=100u64 {
        run_frame(&mut driver, false);
        assert_eq!(driver.frames_rendered(), n);
        assert_eq!(driver.state(), LoopState::Running);
    }
}

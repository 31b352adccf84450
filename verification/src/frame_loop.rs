//! The frame loop as a state machine.
//!
//! The loop itself runs outside this library, because every stage of a frame
//! is work on a window, a camera or a renderer. What is decided here is the
//! order: the driver says which stage comes next, the caller carries it out
//! and reports back, and the driver moves on. A frame is six stages in a fixed
//! order; a close request that the poll of a frame brought in ends the loop
//! when that frame has been rendered and its signal handed over, not before.

use vstd::prelude::*;

verus! {

/// The three states of the loop.
#[derive(Clone, Copy, Debug, PartialEq, Eq, Structural)]
pub enum LoopState {
    /// Scene, camera and controls are not built yet.
    Initializing,
    /// Frames are being produced.
    Running,
    /// The window asked to close; no frame follows.
    Terminated,
}

/// The six stages of one frame, in the order in which they are carried out.
#[derive(Clone, Copy, Debug, PartialEq, Eq, Structural)]
pub enum FrameStage {
    /// Poll input and timing: elapsed time, viewport size, input events.
    PollInput,
    /// Make the camera's viewport that of the window.
    UpdateViewport,
    /// Hand the input events to the orbit control, which moves the camera.
    HandleControls,
    /// Recompute the transforms that depend on time.
    UpdateTransforms,
    /// Clear the frame buffer and submit camera, entities and lights.
    RenderScene,
    /// Hand the signal of this frame to the window.
    YieldOutput,
}

/// What a frame tells the window when it ends.
#[derive(Clone, Copy, Debug, PartialEq, Eq, Structural)]
pub enum FrameSignal {
    Continue,
    Terminate,
}

/// What the caller reports to the driver.
#[derive(Clone, Copy, Debug, PartialEq, Eq, Structural)]
pub enum LoopEvent {
    /// Scene, camera and controls have been built.
    SceneReady,
    /// The poll of this frame is done; `close_requested` says whether the
    /// window asked to close.
    InputPolled { close_requested: bool },
    /// The stage that the driver asked for last has been carried out.
    StageCompleted,
}

/// What the driver asks the caller to do next.
#[derive(Clone, Copy, Debug, PartialEq, Eq, Structural)]
pub enum LoopAction {
    /// Build scene, camera and controls, then report `SceneReady`.
    BuildScene,
    /// Carry out this stage, then report `InputPolled` for the poll and
    /// `StageCompleted` for any other stage.
    Perform(FrameStage),
    /// Hand this signal to the window, then report `StageCompleted`.
    Yield(FrameSignal),
    /// Nothing is left to do.
    Halt,
}

/// The stage that follows `stage`; after the last stage of a frame comes the
/// first stage of the next.
pub open spec fn next_stage(stage: FrameStage) -> FrameStage {
    match stage {
        FrameStage::PollInput => FrameStage::UpdateViewport,
        FrameStage::UpdateViewport => FrameStage::HandleControls,
        FrameStage::HandleControls => FrameStage::UpdateTransforms,
        FrameStage::UpdateTransforms => FrameStage::RenderScene,
        FrameStage::RenderScene => FrameStage::YieldOutput,
        FrameStage::YieldOutput => FrameStage::PollInput,
    }
}

/// The place of a stage in its frame, from 0 to 5.
pub open spec fn stage_rank(stage: FrameStage) -> nat {
    match stage {
        FrameStage::PollInput => 0,
        FrameStage::UpdateViewport => 1,
        FrameStage::HandleControls => 2,
        FrameStage::UpdateTransforms => 3,
        FrameStage::RenderScene => 4,
        FrameStage::YieldOutput => 5,
    }
}

/// The state of a driver as plain data.
pub struct DriverView {
    /// The state of the loop.
    pub state: LoopState,
    /// While running, the stage that is to be carried out next.
    pub stage: FrameStage,
    /// Whether the poll of the current frame brought a close request.
    pub close_pending: bool,
    /// How often the scene has been submitted for rendering. The count stops
    /// at `u64::MAX`.
    pub frames_rendered: u64,
}

impl DriverView {
    /// A driver before anything has happened.
    pub open spec fn initial() -> DriverView {
        DriverView {
            state: LoopState::Initializing,
            stage: FrameStage::PollInput,
            close_pending: false,
            frames_rendered: 0,
        }
    }

    /// Whether `event` is the report that the driver is waiting for. Any other
    /// event changes nothing.
    pub open spec fn accepts(self, event: LoopEvent) -> bool {
        match event {
            LoopEvent::SceneReady => self.state == LoopState::Initializing,
            LoopEvent::InputPolled { .. } => {
                self.state == LoopState::Running && self.stage == FrameStage::PollInput
            },
            LoopEvent::StageCompleted => {
                self.state == LoopState::Running && self.stage != FrameStage::PollInput
            },
        }
    }

    /// The state after `event`.
    pub open spec fn step(self, event: LoopEvent) -> DriverView {
        if !self.accepts(event) {
            self
        } else {
            match event {
                LoopEvent::SceneReady => DriverView {
                    state: LoopState::Running,
                    stage: FrameStage::PollInput,
                    close_pending: false,
                    frames_rendered: 0,
                },
                LoopEvent::InputPolled { close_requested } => DriverView {
                    stage: FrameStage::UpdateViewport,
                    close_pending: close_requested,
                    ..self
                },
                LoopEvent::StageCompleted => match self.stage {
                    FrameStage::RenderScene => DriverView {
                        stage: FrameStage::YieldOutput,
                        frames_rendered: if self.frames_rendered < u64::MAX {
                            (self.frames_rendered + 1) as u64
                        } else {
                            self.frames_rendered
                        },
                        ..self
                    },
                    FrameStage::YieldOutput => if self.close_pending {
                        DriverView { state: LoopState::Terminated, ..self }
                    } else {
                        DriverView { stage: FrameStage::PollInput, ..self }
                    },
                    _ => DriverView { stage: next_stage(self.stage), ..self },
                },
            }
        }
    }

    /// The signal that the current frame ends with.
    pub open spec fn signal(self) -> FrameSignal {
        if self.close_pending {
            FrameSignal::Terminate
        } else {
            FrameSignal::Continue
        }
    }

    /// What the driver asks for in this state.
    pub open spec fn pending(self) -> LoopAction {
        match self.state {
            LoopState::Initializing => LoopAction::BuildScene,
            LoopState::Terminated => LoopAction::Halt,
            LoopState::Running => if self.stage == FrameStage::YieldOutput {
                LoopAction::Yield(self.signal())
            } else {
                LoopAction::Perform(self.stage)
            },
        }
    }

    /// The state after one whole frame, from the report of its poll to the
    /// report that its signal was handed over.
    pub open spec fn run_frame(self, close_requested: bool) -> DriverView {
        let polled = self.step(LoopEvent::InputPolled { close_requested });
        let viewport_done = polled.step(LoopEvent::StageCompleted);
        let controls_done = viewport_done.step(LoopEvent::StageCompleted);
        let transforms_done = controls_done.step(LoopEvent::StageCompleted);
        let rendered = transforms_done.step(LoopEvent::StageCompleted);
        rendered.step(LoopEvent::StageCompleted)
    }

    /// The state after `n` whole frames without a close request.
    pub open spec fn run_frames(self, n: nat) -> DriverView
        decreases n,
    {
        if n == 0 {
            self
        } else {
            self.run_frames((n - 1) as nat).run_frame(false)
        }
    }

    /// Running, and about to poll for a new frame.
    pub open spec fn at_frame_start(self) -> bool {
        self.state == LoopState::Running && self.stage == FrameStage::PollInput
    }
}

/// The driver of the frame loop: it keeps the state of the loop and the place
/// in the current frame.
pub struct FrameLoopDriver {
    state: LoopState,
    stage: FrameStage,
    close_pending: bool,
    frames_rendered: u64,
}

impl View for FrameLoopDriver {
    type V = DriverView;

    closed spec fn view(&self) -> DriverView {
        DriverView {
            state: self.state,
            stage: self.stage,
            close_pending: self.close_pending,
            frames_rendered: self.frames_rendered,
        }
    }
}

impl FrameLoopDriver {
    /// A driver in the state `Initializing`.
    pub fn new() -> (driver: FrameLoopDriver)
        ensures
            driver@ == DriverView::initial(),
    {
        FrameLoopDriver {
            state: LoopState::Initializing,
            stage: FrameStage::PollInput,
            close_pending: false,
            frames_rendered: 0,
        }
    }

    /// The state of the loop.
    pub fn state(&self) -> (state: LoopState)
        ensures
            state == self@.state,
    {
        self.state
    }

    /// The stage that is to be carried out next. It means something only while
    /// the loop is running.
    pub fn stage(&self) -> (stage: FrameStage)
        ensures
            stage == self@.stage,
    {
        self.stage
    }

    /// How often the scene has been submitted for rendering.
    pub fn frames_rendered(&self) -> (count: u64)
        ensures
            count == self@.frames_rendered,
    {
        self.frames_rendered
    }

    /// What the caller is to do next.
    pub fn pending(&self) -> (action: LoopAction)
        ensures
            action == self@.pending(),
    {
        match self.state {
            LoopState::Initializing => LoopAction::BuildScene,
            LoopState::Terminated => LoopAction::Halt,
            LoopState::Running => match self.stage {
                FrameStage::YieldOutput => if self.close_pending {
                    LoopAction::Yield(FrameSignal::Terminate)
                } else {
                    LoopAction::Yield(FrameSignal::Continue)
                },
                stage => LoopAction::Perform(stage),
            },
        }
    }

    /// Takes a report from the caller and answers with what is to be done
    /// next. A report that the driver is not waiting for changes nothing, and
    /// the answer repeats what is still to be done.
    pub fn handle(&mut self, event: LoopEvent) -> (action: LoopAction)
        ensures
            final(self)@ == old(self)@.step(event),
            action == final(self)@.pending(),
    {
        match event {
            LoopEvent::SceneReady => {
                if self.state == LoopState::Initializing {
                    self.state = LoopState::Running;
                    self.stage = FrameStage::PollInput;
                    self.close_pending = false;
                    self.frames_rendered = 0;
                }
            },
            LoopEvent::InputPolled { close_requested } => {
                if self.state == LoopState::Running && self.stage == FrameStage::PollInput {
                    self.stage = FrameStage::UpdateViewport;
                    self.close_pending = close_requested;
                }
            },
            LoopEvent::StageCompleted => {
                if self.state == LoopState::Running {
                    match self.stage {
                        FrameStage::PollInput => {},
                        FrameStage::UpdateViewport => {
                            self.stage = FrameStage::HandleControls;
                        },
                        FrameStage::HandleControls => {
                            self.stage = FrameStage::UpdateTransforms;
                        },
                        FrameStage::UpdateTransforms => {
                            self.stage = FrameStage::RenderScene;
                        },
                        FrameStage::RenderScene => {
                            self.stage = FrameStage::YieldOutput;
                            if self.frames_rendered < u64::MAX {
                                self.frames_rendered = self.frames_rendered + 1;
                            }
                        },
                        FrameStage::YieldOutput => {
                            if self.close_pending {
                                self.state = LoopState::Terminated;
                            } else {
                                self.stage = FrameStage::PollInput;
                            }
                        },
                    }
                }
            },
        }
        self.pending()
    }
}

/// `Terminated` is final: no event changes a terminated driver, and it asks
/// for nothing more.
pub proof fn lemma_terminated_is_final(s: DriverView, event: LoopEvent)
    requires
        s.state == LoopState::Terminated,
    ensures
        s.step(event) == s,
        s.pending() == LoopAction::Halt,
{
}

/// The loop has two transitions and no other: from `Initializing` to
/// `Running` when the scene is reported ready, and from `Running` to
/// `Terminated` when the signal of a frame whose poll brought a close request
/// has been handed over.
pub proof fn lemma_state_transitions(s: DriverView, event: LoopEvent)
    ensures
        ({
            let after = s.step(event).state;
            &&& after != s.state ==> {
                ||| s.state == LoopState::Initializing && after == LoopState::Running
                ||| s.state == LoopState::Running && after == LoopState::Terminated
            }
            &&& s.state == LoopState::Initializing ==> {
                after == LoopState::Running <==> event == LoopEvent::SceneReady
            }
            &&& s.state == LoopState::Running ==> {
                after == LoopState::Terminated <==> {
                    &&& event == LoopEvent::StageCompleted
                    &&& s.stage == FrameStage::YieldOutput
                    &&& s.close_pending
                }
            }
        }),
{
}

/// Within a frame the stages come in their order: an event leaves the stage
/// as it is or moves it to the one that follows, and the count of rendered
/// frames grows only when the render stage is reported done, and then by one.
pub proof fn lemma_stage_order(s: DriverView, event: LoopEvent)
    requires
        s.state == LoopState::Running,
    ensures
        ({
            let after = s.step(event);
            &&& after.stage == s.stage || after.stage == next_stage(s.stage)
            &&& after.stage != s.stage && s.stage != FrameStage::YieldOutput ==> stage_rank(
                after.stage,
            ) == stage_rank(s.stage) + 1
            &&& after.frames_rendered != s.frames_rendered ==> {
                &&& s.stage == FrameStage::RenderScene
                &&& event == LoopEvent::StageCompleted
                &&& after.frames_rendered == s.frames_rendered + 1
            }
            &&& s.stage == FrameStage::RenderScene && event == LoopEvent::StageCompleted
                && s.frames_rendered < u64::MAX ==> after.frames_rendered == s.frames_rendered
                + 1
        }),
{
}

/// One frame, stage by stage. From the start of a frame the driver asks for
/// the poll, then for the viewport update, the controls, the transforms and
/// the render, in this order, and then yields the signal: `Terminate` if the
/// poll brought a close request, `Continue` if not. The scene is submitted
/// once, after the camera and the transforms were updated. After the frame the
/// loop is terminated in the first case and at the start of the next frame in
/// the second.
pub proof fn lemma_frame(s: DriverView, close_requested: bool)
    requires
        s.at_frame_start(),
    ensures
        ({
            let polled = s.step(LoopEvent::InputPolled { close_requested });
            let viewport_done = polled.step(LoopEvent::StageCompleted);
            let controls_done = viewport_done.step(LoopEvent::StageCompleted);
            let transforms_done = controls_done.step(LoopEvent::StageCompleted);
            let rendered = transforms_done.step(LoopEvent::StageCompleted);
            let yielded = rendered.step(LoopEvent::StageCompleted);
            &&& s.pending() == LoopAction::Perform(FrameStage::PollInput)
            &&& polled.pending() == LoopAction::Perform(FrameStage::UpdateViewport)
            &&& viewport_done.pending() == LoopAction::Perform(FrameStage::HandleControls)
            &&& controls_done.pending() == LoopAction::Perform(FrameStage::UpdateTransforms)
            &&& transforms_done.pending() == LoopAction::Perform(FrameStage::RenderScene)
            &&& transforms_done.frames_rendered == s.frames_rendered
            &&& rendered.pending() == LoopAction::Yield(
                if close_requested {
                    FrameSignal::Terminate
                } else {
                    FrameSignal::Continue
                },
            )
            &&& yielded == s.run_frame(close_requested)
        }),
        s.run_frame(close_requested).frames_rendered == if s.frames_rendered < u64::MAX {
            s.frames_rendered + 1
        } else {
            s.frames_rendered as int
        },
        close_requested ==> s.run_frame(close_requested).state == LoopState::Terminated,
        !close_requested ==> s.run_frame(close_requested).at_frame_start(),
{
}

/// A loop that gets its close request in frame number `n` renders `n` frames
/// and no more: after `n - 1` frames without a close request the loop is at
/// the start of a frame with `n - 1` frames rendered, and after one more
/// frame, whose poll brings the close request, it is terminated with `n`
/// frames rendered. This holds as far as the count goes, up to `u64::MAX`.
pub proof fn lemma_frames_until_close(n: nat)
    requires
        1 <= n <= u64::MAX,
    ensures
        ({
            let started = DriverView::initial().step(LoopEvent::SceneReady);
            let before = started.run_frames((n - 1) as nat);
            let after = before.run_frame(true);
            &&& before.at_frame_start()
            &&& before.frames_rendered == n - 1
            &&& after.state == LoopState::Terminated
            &&& after.frames_rendered == n
            &&& after.pending() == LoopAction::Halt
        }),
{
    let started = DriverView::initial().step(LoopEvent::SceneReady);
    lemma_run_frames(started, (n - 1) as nat);
    lemma_frame(started.run_frames((n - 1) as nat), true);
}

/// Frames without a close request keep the loop running and count up: after
/// `n` of them the loop is at the start of a frame again and `n` more frames
/// have been rendered.
pub proof fn lemma_run_frames(s: DriverView, n: nat)
    requires
        s.at_frame_start(),
        s.frames_rendered + n <= u64::MAX,
    ensures
        s.run_frames(n).at_frame_start(),
        s.run_frames(n).frames_rendered == s.frames_rendered + n,
    decreases n,
{
    if n > 0 {
        lemma_run_frames(s, (n - 1) as nat);
        lemma_frame(s.run_frames((n - 1) as nat), false);
    }
}

} // verus!

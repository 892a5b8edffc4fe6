//! The voice-session lifecycle state machine.
//!
//! `Disconnected → Connecting → Active → Disconnecting → Disconnected`.
//! Connecting walks through the hard and soft steps of session
//! establishment in order: transport-room connection, capture pipeline,
//! local track publish (all hard — a failure aborts the connect and
//! releases everything already established), then the playback pipeline
//! (soft — a failure degrades to capture-only operation).
//!
//! The machine decides; the surrounding application performs. Each
//! transition returns the action to carry out (dial, start a pipeline,
//! publish, spawn the dispatch task, or tear resources down), and the
//! next step event reports how that action went.

use vstd::prelude::*;

verus! {

/// Events emitted by an active voice session toward the UI layer.
#[derive(Debug)]
pub enum VoiceEvent {
    /// The list of remote participant display names has changed.
    ParticipantsUpdated(Vec<String>),
    /// A non-fatal error occurred in the voice session.
    Error(String),
}

/// Why the capture pipeline could not be started.
#[derive(Debug, Clone, Copy, PartialEq, Eq, Structural)]
pub enum CaptureFailure {
    /// No usable default input device was found.
    NoInputDevice,
    /// The input device's configuration could not be queried.
    DeviceConfigError,
    /// The hardware stream could not be built or started.
    StreamStartFailed,
}

/// Why a connect attempt failed. Each variant aborts the connect; no
/// resources persist past the failure.
#[derive(Debug, Clone, Copy, PartialEq, Eq, Structural)]
pub enum VoiceError {
    /// The transport-room connection could not be established.
    TransportConnectFailed,
    /// The capture pipeline could not be started.
    Capture(CaptureFailure),
    /// The local audio track could not be published.
    TrackPublishFailed,
}

/// The session's lifecycle phase.
#[derive(Debug, Clone, Copy, PartialEq, Eq, Structural)]
pub enum SessionPhase {
    Disconnected,
    Connecting,
    Active,
    Disconnecting,
}

/// Which connect step the session is waiting on while `Connecting`.
#[derive(Debug, Clone, Copy, PartialEq, Eq, Structural)]
pub enum ConnectStage {
    /// Waiting for the transport-room connection.
    Transport,
    /// Waiting for the capture pipeline to start.
    Capture,
    /// Waiting for the local track publish.
    Publish,
    /// Waiting for the playback pipeline to start (best effort).
    Playback,
    /// Connecting finished (the session went `Active`).
    Done,
}

/// The outcome of the step the application was asked to perform.
#[derive(Debug, Clone, Copy, PartialEq, Eq, Structural)]
pub enum StepEvent {
    TransportUp,
    TransportFailed,
    CaptureUp,
    CaptureFailed(CaptureFailure),
    Published,
    PublishFailed,
    PlaybackUp,
    PlaybackFailed,
}

/// What the application must do next on behalf of the session.
#[derive(Debug, Clone, Copy, PartialEq, Eq, Structural)]
pub enum SessionAction {
    /// Establish the transport-room connection.
    DialTransport,
    /// Start the capture pipeline on its dedicated thread.
    StartCapture,
    /// Publish the local audio track sourced from the capture pipeline.
    PublishTrack,
    /// Start the playback pipeline (best effort: a failure is non-fatal).
    StartPlayback,
    /// Spawn the room-event dispatch task; the session is now active.
    SpawnDispatch,
    /// A hard-required connect step failed: report the error and release
    /// exactly what had already been established.
    Abort { error: VoiceError, close_transport: bool, stop_capture: bool },
    /// Stop everything the session runs: abort the dispatch task, close
    /// the transport connection, and drop the pipeline handles.
    Teardown {
        abort_dispatch: bool,
        close_transport: bool,
        stop_capture: bool,
        stop_playback: bool,
    },
    /// Nothing to do.
    Idle,
}

/// The session state machine, tracking which resources it holds: the
/// transport-room connection, the two hardware pipelines (each a
/// dedicated thread owning its stream), the room-event dispatch task,
/// and the capture mute flag.
pub struct VoiceSession {
    pub phase: SessionPhase,
    pub stage: ConnectStage,
    pub transport_open: bool,
    pub capture_running: bool,
    pub playback_running: bool,
    pub dispatch_running: bool,
    pub muted: bool,
}

impl VoiceSession {
    /// No resources held: no transport connection, no hardware thread on
    /// either pipeline, no dispatch task.
    pub open spec fn idle(self) -> bool {
        &&& !self.transport_open
        &&& !self.capture_running
        &&& !self.playback_running
        &&& !self.dispatch_running
    }

    /// Phase, stage and held resources agree.
    pub open spec fn wf(self) -> bool {
        match self.phase {
            SessionPhase::Disconnected => self.idle() && !self.muted,
            SessionPhase::Connecting => {
                &&& !self.dispatch_running
                &&& !self.playback_running
                &&& match self.stage {
                    ConnectStage::Transport => !self.transport_open && !self.capture_running,
                    ConnectStage::Capture => self.transport_open && !self.capture_running,
                    ConnectStage::Publish => self.transport_open && self.capture_running,
                    ConnectStage::Playback => self.transport_open && self.capture_running,
                    ConnectStage::Done => false,
                }
            },
            SessionPhase::Active => {
                &&& self.stage is Done
                &&& self.transport_open
                &&& self.capture_running
                &&& self.dispatch_running
            },
            SessionPhase::Disconnecting => self.stage is Done,
        }
    }

    /// The state a fresh connect attempt starts from.
    pub open spec fn connect_start() -> VoiceSession {
        VoiceSession {
            phase: SessionPhase::Connecting,
            stage: ConnectStage::Transport,
            transport_open: false,
            capture_running: false,
            playback_running: false,
            dispatch_running: false,
            muted: false,
        }
    }

    /// The state after every resource has been released: fully back to
    /// Disconnected, nothing running, no half-muted state.
    pub open spec fn fully_released(self) -> VoiceSession {
        VoiceSession {
            phase: SessionPhase::Disconnected,
            transport_open: false,
            capture_running: false,
            playback_running: false,
            dispatch_running: false,
            muted: false,
            ..self
        }
    }

    /// The connect-step transition: next state and the action to perform.
    pub open spec fn step_spec(pre: VoiceSession, ev: StepEvent) -> (VoiceSession, SessionAction) {
        if pre.phase is Connecting {
            match (pre.stage, ev) {
                (ConnectStage::Transport, StepEvent::TransportUp) => (
                    VoiceSession { stage: ConnectStage::Capture, transport_open: true, ..pre },
                    SessionAction::StartCapture,
                ),
                (ConnectStage::Transport, StepEvent::TransportFailed) => (
                    pre.fully_released(),
                    SessionAction::Abort {
                        error: VoiceError::TransportConnectFailed,
                        close_transport: false,
                        stop_capture: false,
                    },
                ),
                (ConnectStage::Capture, StepEvent::CaptureUp) => (
                    VoiceSession { stage: ConnectStage::Publish, capture_running: true, ..pre },
                    SessionAction::PublishTrack,
                ),
                (ConnectStage::Capture, StepEvent::CaptureFailed(f)) => (
                    pre.fully_released(),
                    SessionAction::Abort {
                        error: VoiceError::Capture(f),
                        close_transport: true,
                        stop_capture: false,
                    },
                ),
                (ConnectStage::Publish, StepEvent::Published) => (
                    VoiceSession { stage: ConnectStage::Playback, ..pre },
                    SessionAction::StartPlayback,
                ),
                (ConnectStage::Publish, StepEvent::PublishFailed) => (
                    pre.fully_released(),
                    SessionAction::Abort {
                        error: VoiceError::TrackPublishFailed,
                        close_transport: true,
                        stop_capture: true,
                    },
                ),
                (ConnectStage::Playback, StepEvent::PlaybackUp) => (
                    VoiceSession {
                        phase: SessionPhase::Active,
                        stage: ConnectStage::Done,
                        playback_running: true,
                        dispatch_running: true,
                        ..pre
                    },
                    SessionAction::SpawnDispatch,
                ),
                (ConnectStage::Playback, StepEvent::PlaybackFailed) => (
                    VoiceSession {
                        phase: SessionPhase::Active,
                        stage: ConnectStage::Done,
                        playback_running: false,
                        dispatch_running: true,
                        ..pre
                    },
                    SessionAction::SpawnDispatch,
                ),
                _ => (pre, SessionAction::Idle),
            }
        } else {
            (pre, SessionAction::Idle)
        }
    }

    /// The disconnect transition: an active session starts tearing down;
    /// anything else is a no-op.
    pub open spec fn disconnect_spec(pre: VoiceSession) -> (VoiceSession, SessionAction) {
        if pre.phase is Active {
            (
                VoiceSession { phase: SessionPhase::Disconnecting, ..pre },
                SessionAction::Teardown {
                    abort_dispatch: pre.dispatch_running,
                    close_transport: pre.transport_open,
                    stop_capture: pre.capture_running,
                    stop_playback: pre.playback_running,
                },
            )
        } else {
            (pre, SessionAction::Idle)
        }
    }

    /// The teardown-completed transition: once the handles have been
    /// dropped (termination signals consumed, threads joined) the session
    /// is fully back to Disconnected.
    pub open spec fn teardown_complete_spec(pre: VoiceSession) -> VoiceSession {
        if pre.phase is Disconnecting {
            pre.fully_released()
        } else {
            pre
        }
    }

    /// Begin a connect attempt: returns the fresh Connecting session and
    /// the first action, establishing the transport-room connection.
    pub fn connect() -> (r: (VoiceSession, SessionAction))
        ensures
            r.0 == Self::connect_start(),
            r.0.wf(),
            r.1 == SessionAction::DialTransport,
    {
        (
            VoiceSession {
                phase: SessionPhase::Connecting,
                stage: ConnectStage::Transport,
                transport_open: false,
                capture_running: false,
                playback_running: false,
                dispatch_running: false,
                muted: false,
            },
            SessionAction::DialTransport,
        )
    }

    /// Consume the outcome of the step the application just performed and
    /// return the next action.
    pub fn step(&mut self, ev: StepEvent) -> (a: SessionAction)
        requires
            old(self).wf(),
        ensures
            final(self).wf(),
            *final(self) == Self::step_spec(*old(self), ev).0,
            a == Self::step_spec(*old(self), ev).1,
    {
        if !matches!(self.phase, SessionPhase::Connecting) {
            return SessionAction::Idle;
        }
        match (self.stage, ev) {
            (ConnectStage::Transport, StepEvent::TransportUp) => {
                self.stage = ConnectStage::Capture;
                self.transport_open = true;
                SessionAction::StartCapture
            }
            (ConnectStage::Transport, StepEvent::TransportFailed) => {
                self.release_all();
                SessionAction::Abort {
                    error: VoiceError::TransportConnectFailed,
                    close_transport: false,
                    stop_capture: false,
                }
            }
            (ConnectStage::Capture, StepEvent::CaptureUp) => {
                self.stage = ConnectStage::Publish;
                self.capture_running = true;
                SessionAction::PublishTrack
            }
            (ConnectStage::Capture, StepEvent::CaptureFailed(f)) => {
                self.release_all();
                SessionAction::Abort {
                    error: VoiceError::Capture(f),
                    close_transport: true,
                    stop_capture: false,
                }
            }
            (ConnectStage::Publish, StepEvent::Published) => {
                self.stage = ConnectStage::Playback;
                SessionAction::StartPlayback
            }
            (ConnectStage::Publish, StepEvent::PublishFailed) => {
                self.release_all();
                SessionAction::Abort {
                    error: VoiceError::TrackPublishFailed,
                    close_transport: true,
                    stop_capture: true,
                }
            }
            (ConnectStage::Playback, StepEvent::PlaybackUp) => {
                self.phase = SessionPhase::Active;
                self.stage = ConnectStage::Done;
                self.playback_running = true;
                self.dispatch_running = true;
                SessionAction::SpawnDispatch
            }
            (ConnectStage::Playback, StepEvent::PlaybackFailed) => {
                self.phase = SessionPhase::Active;
                self.stage = ConnectStage::Done;
                self.playback_running = false;
                self.dispatch_running = true;
                SessionAction::SpawnDispatch
            }
            _ => SessionAction::Idle,
        }
    }

    /// Mark every resource released and the session Disconnected.
    fn release_all(&mut self)
        ensures
            *final(self) == old(self).fully_released(),
    {
        self.phase = SessionPhase::Disconnected;
        self.transport_open = false;
        self.capture_running = false;
        self.playback_running = false;
        self.dispatch_running = false;
        self.muted = false;
    }

    /// Disconnect: an active session moves to Disconnecting and the
    /// application is told to stop exactly what is running. Disconnecting
    /// a session that is not active is a no-op.
    pub fn disconnect(&mut self) -> (a: SessionAction)
        requires
            old(self).wf(),
        ensures
            final(self).wf(),
            *final(self) == Self::disconnect_spec(*old(self)).0,
            a == Self::disconnect_spec(*old(self)).1,
    {
        if matches!(self.phase, SessionPhase::Active) {
            self.phase = SessionPhase::Disconnecting;
            SessionAction::Teardown {
                abort_dispatch: self.dispatch_running,
                close_transport: self.transport_open,
                stop_capture: self.capture_running,
                stop_playback: self.playback_running,
            }
        } else {
            SessionAction::Idle
        }
    }

    /// Confirm that teardown finished: the termination signals have been
    /// consumed and the handles dropped. The session is Disconnected and
    /// holds nothing.
    pub fn teardown_complete(&mut self)
        requires
            old(self).wf(),
        ensures
            final(self).wf(),
            *final(self) == Self::teardown_complete_spec(*old(self)),
            old(self).phase is Disconnecting ==> final(self).idle(),
    {
        if matches!(self.phase, SessionPhase::Disconnecting) {
            self.release_all();
        }
    }

    /// Flip the capture pipeline's mute flag; takes effect on the next
    /// captured batch, and nothing else about the session changes.
    pub fn set_muted(&mut self, muted: bool)
        ensures
            *final(self) == (VoiceSession { muted, ..*old(self) }),
    {
        self.muted = muted;
    }

    /// The current mute flag.
    pub fn is_muted(&self) -> (m: bool)
        ensures
            m == self.muted,
    {
        self.muted
    }
}

/// Law: when every connect step succeeds, the session ends Active with
/// the transport open, both pipelines and the dispatch task running, and
/// the microphone unmuted.
pub proof fn lemma_connect_happy_path()
    ensures
        ({
            let s1 = VoiceSession::step_spec(VoiceSession::connect_start(), StepEvent::TransportUp).0;
            let s2 = VoiceSession::step_spec(s1, StepEvent::CaptureUp).0;
            let s3 = VoiceSession::step_spec(s2, StepEvent::Published).0;
            let (s4, a) = VoiceSession::step_spec(s3, StepEvent::PlaybackUp);
            &&& s4.phase is Active
            &&& s4.transport_open
            &&& s4.capture_running
            &&& s4.playback_running
            &&& s4.dispatch_running
            &&& !s4.muted
            &&& a == SessionAction::SpawnDispatch
        }),
{
}

/// Law: a transport-connect failure immediately after `connect` aborts
/// with `TransportConnectFailed` and leaves no capture thread — or any
/// other resource — alive, and nothing to tear down.
pub proof fn lemma_transport_failure_leaves_nothing()
    ensures
        ({
            let s0 = VoiceSession::connect_start();
            let (s1, a) = VoiceSession::step_spec(s0, StepEvent::TransportFailed);
            &&& s1.phase is Disconnected
            &&& s1.idle()
            &&& !s1.capture_running
            &&& a == (SessionAction::Abort {
                error: VoiceError::TransportConnectFailed,
                close_transport: false,
                stop_capture: false,
            })
        }),
{
}

/// Law: whenever a connect step fails hard, the session falls back to
/// Disconnected with nothing running, and the abort action releases
/// exactly the resources that had been established — in particular an
/// already-started capture thread is torn down on a publish failure.
pub proof fn lemma_failed_connect_releases_resources(s: VoiceSession, ev: StepEvent)
    requires
        s.wf(),
    ensures
        ({
            let (s1, a) = VoiceSession::step_spec(s, ev);
            a is Abort ==> {
                &&& s1.phase is Disconnected
                &&& s1.idle()
                &&& !s1.muted
                &&& (a matches SessionAction::Abort { close_transport, stop_capture, .. }
                    && close_transport == s.transport_open && stop_capture == s.capture_running)
            }
        }),
{
}

/// Law: disconnecting an active session and completing its teardown is
/// deterministic resource release: the teardown action stops exactly
/// what was running, and afterwards the pipeline state shows no running
/// hardware thread, no dispatch task and no transport connection.
pub proof fn lemma_disconnect_releases_everything(s: VoiceSession)
    requires
        s.wf(),
        s.phase is Active,
    ensures
        ({
            let (s1, a) = VoiceSession::disconnect_spec(s);
            let s2 = VoiceSession::teardown_complete_spec(s1);
            &&& a == (SessionAction::Teardown {
                abort_dispatch: s.dispatch_running,
                close_transport: s.transport_open,
                stop_capture: s.capture_running,
                stop_playback: s.playback_running,
            })
            &&& s2.phase is Disconnected
            &&& s2.idle()
        }),
{
}

/// Law: disconnecting a session that is already disconnected is a no-op:
/// same state, nothing to do.
pub proof fn lemma_disconnect_idempotent(s: VoiceSession)
    requires
        s.wf(),
        s.phase is Disconnected,
    ensures
        VoiceSession::disconnect_spec(s) == (s, SessionAction::Idle),
{
}

} // verus!

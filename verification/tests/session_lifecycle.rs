use spoke_voice::session::{
    CaptureFailure, ConnectStage, SessionAction, SessionPhase, StepEvent, VoiceError, VoiceSession,
};

fn connect_to_active() -> VoiceSession {
    let (mut s, a) = VoiceSession::connect();
    assert_eq!(a, SessionAction::DialTransport);
    assert_eq!(s.step(StepEvent::TransportUp), SessionAction::StartCapture);
    assert_eq!(s.step(StepEvent::CaptureUp), SessionAction::PublishTrack);
    assert_eq!(s.step(StepEvent::Published), SessionAction::StartPlayback);
    assert_eq!(s.step(StepEvent::PlaybackUp), SessionAction::SpawnDispatch);
    s
}

#[test]
fn full_connect_reaches_active_with_all_resources() {
    let s = connect_to_active();
    assert_eq!(s.phase, SessionPhase::Active);
    assert_eq!(s.stage, ConnectStage::Done);
    assert!(s.transport_open);
    assert!(s.capture_running);
    assert!(s.playback_running);
    assert!(s.dispatch_running);
    assert!(!s.muted);
}

#[test]
fn playback_failure_is_soft_and_degrades_to_capture_only() {
    let (mut s, _) = VoiceSession::connect();
    s.step(StepEvent::TransportUp);
    s.step(StepEvent::CaptureUp);
    s.step(StepEvent::Published);
    let a = s.step(StepEvent::PlaybackFailed);
    assert_eq!(a, SessionAction::SpawnDispatch);
    assert_eq!(s.phase, SessionPhase::Active);
    assert!(!s.playback_running);
    assert!(s.capture_running);
}

#[test]
fn transport_failure_aborts_with_no_capture_thread() {
    // A forced transport-connect failure right after connect returns the
    // error and leaves no capture thread alive: nothing was established,
    // so nothing needs tearing down.
    let (mut s, _) = VoiceSession::connect();
    let a = s.step(StepEvent::TransportFailed);
    assert_eq!(
        a,
        SessionAction::Abort {
            error: VoiceError::TransportConnectFailed,
            close_transport: false,
            stop_capture: false,
        }
    );
    assert_eq!(s.phase, SessionPhase::Disconnected);
    assert!(!s.capture_running);
    assert!(!s.transport_open);
    assert!(!s.playback_running);
    assert!(!s.dispatch_running);
}

#[test]
fn capture_failure_closes_the_transport() {
    let (mut s, _) = VoiceSession::connect();
    s.step(StepEvent::TransportUp);
    let a = s.step(StepEvent::CaptureFailed(CaptureFailure::NoInputDevice));
    assert_eq!(
        a,
        SessionAction::Abort {
            error: VoiceError::Capture(CaptureFailure::NoInputDevice),
            close_transport: true,
            stop_capture: false,
        }
    );
    assert_eq!(s.phase, SessionPhase::Disconnected);
}

#[test]
fn each_capture_failure_kind_is_reported_as_such() {
    for kind in [CaptureFailure::DeviceConfigError, CaptureFailure::StreamStartFailed] {
        let (mut s, _) = VoiceSession::connect();
        s.step(StepEvent::TransportUp);
        let a = s.step(StepEvent::CaptureFailed(kind));
        assert_eq!(
            a,
            SessionAction::Abort {
                error: VoiceError::Capture(kind),
                close_transport: true,
                stop_capture: false,
            }
        );
    }
}

#[test]
fn publish_failure_tears_down_the_started_capture_thread() {
    let (mut s, _) = VoiceSession::connect();
    s.step(StepEvent::TransportUp);
    s.step(StepEvent::CaptureUp);
    let a = s.step(StepEvent::PublishFailed);
    assert_eq!(
        a,
        SessionAction::Abort {
            error: VoiceError::TrackPublishFailed,
            close_transport: true,
            stop_capture: true,
        }
    );
    assert_eq!(s.phase, SessionPhase::Disconnected);
    assert!(!s.capture_running);
}

#[test]
fn disconnect_releases_every_resource_deterministically() {
    // After disconnect and completed teardown, the pipeline state shows
    // no running hardware thread, no dispatch task, no transport.
    let mut s = connect_to_active();
    let a = s.disconnect();
    assert_eq!(
        a,
        SessionAction::Teardown {
            abort_dispatch: true,
            close_transport: true,
            stop_capture: true,
            stop_playback: true,
        }
    );
    assert_eq!(s.phase, SessionPhase::Disconnecting);
    s.teardown_complete();
    assert_eq!(s.phase, SessionPhase::Disconnected);
    assert!(!s.capture_running);
    assert!(!s.playback_running);
    assert!(!s.dispatch_running);
    assert!(!s.transport_open);
}

#[test]
fn disconnect_is_idempotent() {
    let mut s = connect_to_active();
    s.disconnect();
    s.teardown_complete();
    let again = s.disconnect();
    assert_eq!(again, SessionAction::Idle);
    assert_eq!(s.phase, SessionPhase::Disconnected);
}

#[test]
fn mute_flag_flips_and_reads_back() {
    let mut s = connect_to_active();
    assert!(!s.is_muted());
    s.set_muted(true);
    assert!(s.is_muted());
    assert_eq!(s.phase, SessionPhase::Active);
    s.set_muted(false);
    assert!(!s.is_muted());
}

#[test]
fn step_events_outside_connecting_are_ignored() {
    let mut s = connect_to_active();
    let a = s.step(StepEvent::TransportFailed);
    assert_eq!(a, SessionAction::Idle);
    assert_eq!(s.phase, SessionPhase::Active);
}

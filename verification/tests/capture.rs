use webshot::capture::{
    capture_website, CaptureConfig, CaptureError, CaptureSession, CaptureStep, EngineCommand,
    EngineEvent, EngineMode, Identity, Stage, IMAGE_QUALITY, VIEWPORT_HEIGHT, VIEWPORT_WIDTH,
};

const PAGE: &str = "https://example.com/";

/// The clock reading at which the sessions of these tests start.
const START: u64 = 1_000_000;

/// A clock reading well within the deadline of a standard session.
const SOON: u64 = START + 2_000;

/// The deadline of a standard session, and the first reading after it.
const DEADLINE: u64 = START + 60_000;
const TOO_LATE: u64 = DEADLINE + 1;

fn start(config: CaptureConfig) -> (CaptureSession, EngineCommand) {
    capture_website(PAGE.to_string(), config, START)
}

/// Feeds `event` to the session at time `now` and expects it to go on.
fn go_on_at(
    session: CaptureSession,
    event: EngineEvent,
    now: u64,
) -> (CaptureSession, EngineCommand) {
    match session.advance(event, now) {
        CaptureStep::Continue(session, command) => (session, command),
        CaptureStep::Finished(outcome) => panic!("the session ended early with {outcome:?}"),
    }
}

/// Feeds `event` to the session in good time and expects it to go on.
fn go_on(session: CaptureSession, event: EngineEvent) -> (CaptureSession, EngineCommand) {
    go_on_at(session, event, SOON)
}

/// Feeds `event` to the session at time `now` and expects it to end.
fn end_at(session: CaptureSession, event: EngineEvent, now: u64) -> Result<Vec<u8>, CaptureError> {
    match session.advance(event, now) {
        CaptureStep::Continue(_, command) => panic!("the session went on with {command:?}"),
        CaptureStep::Finished(outcome) => outcome,
    }
}

/// Feeds `event` to the session in good time and expects it to end.
fn end(session: CaptureSession, event: EngineEvent) -> Result<Vec<u8>, CaptureError> {
    end_at(session, event, SOON)
}

/// Answers every command with success until the page is to be loaded.
fn up_to_loading(config: CaptureConfig) -> CaptureSession {
    let (mut session, mut command) = start(config);
    while command != EngineCommand::AwaitLoad {
        (session, command) = go_on(session, EngineEvent::Completed);
    }
    session
}

#[test]
fn viewport_is_full_hd() {
    assert_eq!(VIEWPORT_WIDTH, 1920);
    assert_eq!(VIEWPORT_HEIGHT, 1080);
    assert_eq!(IMAGE_QUALITY, 100);
}

#[test]
fn standard_settings() {
    let config = CaptureConfig::standard(EngineMode::PerRequest);
    assert_eq!(config.mode, EngineMode::PerRequest);
    assert!(config.sandbox);
    assert!(config.headless);
    assert_eq!(config.capture_timeout, 60_000);
    assert_eq!(config.operation_timeout, 10_000);
    assert_eq!(config.settle_delay, 5_000);
    assert_eq!(config.identity, Some(Identity::desktop()));
}

#[test]
fn desktop_identity() {
    let identity = Identity::desktop();
    assert_eq!(
        identity.user_agent,
        "Mozilla/5.0 (Macintosh; Intel Mac OS X 10_15_7) AppleWebKit/537.36 (KHTML, like Gecko) Chrome/91.0.4472.114 Safari/537.36"
    );
    assert_eq!(
        identity.accept_language.as_deref(),
        Some("en-US,en;q=0.9,hi;q=0.8,es;q=0.7,lt;q=0.6")
    );
    assert_eq!(identity.platform.as_deref(), Some("macOS"));
    assert_eq!(identity.duplicate(), identity);
}

#[test]
fn error_messages() {
    assert_eq!(CaptureError::LaunchFailed.message(), "Failed to create a new browser");
    assert_eq!(CaptureError::Timeout.message(), "Timed out while rendering the page");
    assert_eq!(
        CaptureError::ProtocolError.message(),
        "The browser failed while rendering the page"
    );
}

#[test]
fn session_with_its_own_process_runs_every_step() {
    let (session, command) = start(CaptureConfig::standard(EngineMode::PerRequest));
    assert_eq!(session.stage(), Stage::Launching);
    assert_eq!(
        command,
        EngineCommand::Launch { sandbox: true, headless: true, width: 1920, height: 1080 }
    );
    let (session, command) = go_on(session, EngineEvent::Completed);
    assert_eq!(
        command,
        EngineCommand::OpenContext { url: "about:blank".to_string(), width: 1920, height: 1080 }
    );
    let (session, command) = go_on(session, EngineEvent::Completed);
    assert_eq!(command, EngineCommand::SetDeadline { millis: 10_000 });
    let (session, command) = go_on(session, EngineEvent::Completed);
    assert_eq!(command, EngineCommand::SetIdentity { identity: Identity::desktop() });
    let (session, command) = go_on(session, EngineEvent::Completed);
    assert_eq!(command, EngineCommand::Navigate { url: PAGE.to_string() });
    let (session, command) = go_on(session, EngineEvent::Completed);
    assert_eq!(command, EngineCommand::AwaitLoad);
    let (session, command) = go_on(session, EngineEvent::Completed);
    assert_eq!(command, EngineCommand::Settle { millis: 5000 });
    let (session, command) = go_on(session, EngineEvent::Completed);
    assert_eq!(command, EngineCommand::Screenshot { quality: 100 });
    let (session, command) = go_on(session, EngineEvent::Image(vec![0xff, 0xd8, 0xff]));
    assert_eq!(command, EngineCommand::CloseContext);
    let (session, command) = go_on(session, EngineEvent::Completed);
    assert_eq!(command, EngineCommand::Terminate);
    assert_eq!(session.command(), EngineCommand::Terminate);
    assert_eq!(end(session, EngineEvent::Completed), Ok(vec![0xff, 0xd8, 0xff]));
}

#[test]
fn session_in_a_shared_process_neither_launches_nor_terminates() {
    let (session, command) = start(CaptureConfig::standard(EngineMode::Shared));
    assert_eq!(session.stage(), Stage::Opening);
    assert_eq!(
        command,
        EngineCommand::OpenContext { url: "about:blank".to_string(), width: 1920, height: 1080 }
    );
    let (mut session, mut command) = go_on(session, EngineEvent::Completed);
    while command != (EngineCommand::Screenshot { quality: 100 }) {
        (session, command) = go_on(session, EngineEvent::Completed);
    }
    let (session, command) = go_on(session, EngineEvent::Image(vec![1, 2]));
    assert_eq!(command, EngineCommand::CloseContext);
    assert_eq!(end(session, EngineEvent::Completed), Ok(vec![1, 2]));
}

#[test]
fn settings_are_handed_to_the_engine() {
    let config = CaptureConfig {
        mode: EngineMode::PerRequest,
        sandbox: false,
        headless: false,
        capture_timeout: 30_000,
        operation_timeout: 3_000,
        settle_delay: 250,
        identity: Some(Identity {
            user_agent: "probe/1.0".to_string(),
            accept_language: None,
            platform: Some("test".to_string()),
        }),
    };
    let (session, command) = start(config);
    assert_eq!(
        command,
        EngineCommand::Launch { sandbox: false, headless: false, width: 1920, height: 1080 }
    );
    let (session, _) = go_on(session, EngineEvent::Completed);
    let (session, command) = go_on(session, EngineEvent::Completed);
    assert_eq!(command, EngineCommand::SetDeadline { millis: 3_000 });
    let (session, command) = go_on(session, EngineEvent::Completed);
    assert_eq!(
        command,
        EngineCommand::SetIdentity {
            identity: Identity {
                user_agent: "probe/1.0".to_string(),
                accept_language: None,
                platform: Some("test".to_string()),
            },
        }
    );
    let (session, _) = go_on(session, EngineEvent::Completed);
    let (session, _) = go_on(session, EngineEvent::Completed);
    let (_, command) = go_on(session, EngineEvent::Completed);
    assert_eq!(command, EngineCommand::Settle { millis: 250 });
}

#[test]
fn without_identity_the_session_navigates_at_once() {
    let mut config = CaptureConfig::standard(EngineMode::Shared);
    config.identity = None;
    let (session, _) = start(config);
    let (session, command) = go_on(session, EngineEvent::Completed);
    assert_eq!(command, EngineCommand::SetDeadline { millis: 10_000 });
    let (_, command) = go_on(session, EngineEvent::Completed);
    assert_eq!(command, EngineCommand::Navigate { url: PAGE.to_string() });
}

#[test]
fn without_settle_delay_the_image_is_taken_at_once() {
    let mut config = CaptureConfig::standard(EngineMode::Shared);
    config.settle_delay = 0;
    let session = up_to_loading(config);
    let (_, command) = go_on(session, EngineEvent::Completed);
    assert_eq!(command, EngineCommand::Screenshot { quality: 100 });
}

#[test]
fn failed_launch_ends_the_session_at_once() {
    let (session, _) = start(CaptureConfig::standard(EngineMode::PerRequest));
    assert_eq!(end(session, EngineEvent::Failed), Err(CaptureError::LaunchFailed));
}

#[test]
fn launch_that_times_out_is_terminated() {
    let (session, _) = start(CaptureConfig::standard(EngineMode::PerRequest));
    let (session, command) = go_on(session, EngineEvent::TimedOut);
    assert_eq!(command, EngineCommand::Terminate);
    assert_eq!(end(session, EngineEvent::Completed), Err(CaptureError::Timeout));
}

#[test]
fn context_that_cannot_be_opened_leaves_only_the_process_to_terminate() {
    let (session, _) = start(CaptureConfig::standard(EngineMode::PerRequest));
    let (session, _) = go_on(session, EngineEvent::Completed);
    let (session, command) = go_on(session, EngineEvent::Failed);
    assert_eq!(command, EngineCommand::Terminate);
    assert_eq!(end(session, EngineEvent::Completed), Err(CaptureError::ProtocolError));
}

#[test]
fn context_that_cannot_be_opened_in_a_shared_process_ends_the_session() {
    let (session, _) = start(CaptureConfig::standard(EngineMode::Shared));
    assert_eq!(end(session, EngineEvent::Failed), Err(CaptureError::ProtocolError));
}

#[test]
fn load_that_times_out_is_reported_after_teardown() {
    let session = up_to_loading(CaptureConfig::standard(EngineMode::PerRequest));
    let (session, command) = go_on(session, EngineEvent::TimedOut);
    assert_eq!(command, EngineCommand::CloseContext);
    let (session, command) = go_on(session, EngineEvent::Completed);
    assert_eq!(command, EngineCommand::Terminate);
    assert_eq!(end(session, EngineEvent::Completed), Err(CaptureError::Timeout));
}

#[test]
fn load_that_times_out_in_a_shared_process_closes_the_context() {
    let session = up_to_loading(CaptureConfig::standard(EngineMode::Shared));
    let (session, command) = go_on(session, EngineEvent::TimedOut);
    assert_eq!(command, EngineCommand::CloseContext);
    assert_eq!(end(session, EngineEvent::Completed), Err(CaptureError::Timeout));
}

#[test]
fn failed_navigation_is_a_protocol_error() {
    let mut config = CaptureConfig::standard(EngineMode::Shared);
    config.identity = None;
    let (session, _) = start(config);
    let (session, _) = go_on(session, EngineEvent::Completed);
    let (session, command) = go_on(session, EngineEvent::Completed);
    assert_eq!(command, EngineCommand::Navigate { url: PAGE.to_string() });
    let (session, command) = go_on(session, EngineEvent::Failed);
    assert_eq!(command, EngineCommand::CloseContext);
    assert_eq!(end(session, EngineEvent::Completed), Err(CaptureError::ProtocolError));
}

#[test]
fn screenshot_without_image_is_a_protocol_error() {
    let mut config = CaptureConfig::standard(EngineMode::Shared);
    config.settle_delay = 0;
    let session = up_to_loading(config);
    let (session, _) = go_on(session, EngineEvent::Completed);
    let (session, command) = go_on(session, EngineEvent::Completed);
    assert_eq!(command, EngineCommand::CloseContext);
    assert_eq!(end(session, EngineEvent::Completed), Err(CaptureError::ProtocolError));
}

#[test]
fn image_out_of_turn_is_a_protocol_error() {
    let session = up_to_loading(CaptureConfig::standard(EngineMode::Shared));
    let (session, command) = go_on(session, EngineEvent::Image(vec![1]));
    assert_eq!(command, EngineCommand::CloseContext);
    assert_eq!(end(session, EngineEvent::Completed), Err(CaptureError::ProtocolError));
}

#[test]
fn failed_teardown_does_not_mask_the_image() {
    let mut config = CaptureConfig::standard(EngineMode::PerRequest);
    config.settle_delay = 0;
    let session = up_to_loading(config);
    let (session, _) = go_on(session, EngineEvent::Completed);
    let (session, command) = go_on(session, EngineEvent::Image(vec![5, 6, 7]));
    assert_eq!(command, EngineCommand::CloseContext);
    let (session, command) = go_on(session, EngineEvent::Failed);
    assert_eq!(command, EngineCommand::Terminate);
    assert_eq!(end(session, EngineEvent::TimedOut), Ok(vec![5, 6, 7]));
}

#[test]
fn failed_teardown_does_not_mask_the_failure() {
    let session = up_to_loading(CaptureConfig::standard(EngineMode::PerRequest));
    let (session, _) = go_on(session, EngineEvent::TimedOut);
    let (session, _) = go_on(session, EngineEvent::Failed);
    assert_eq!(end(session, EngineEvent::Failed), Err(CaptureError::Timeout));
}

#[test]
fn every_step_can_time_out_and_is_torn_down() {
    // How many commands succeed before the deadline runs out, and what is
    // then left to release.
    for completed in 0..8 {
        let (mut session, mut command) = start(CaptureConfig::standard(EngineMode::PerRequest));
        for _ in 0..completed {
            (session, command) = go_on(session, EngineEvent::Completed);
        }
        assert_ne!(command, EngineCommand::CloseContext);
        let (session, command) = go_on(session, EngineEvent::TimedOut);
        let session = if completed >= 1 {
            assert_eq!(command, EngineCommand::CloseContext);
            let (session, command) = go_on(session, EngineEvent::Completed);
            assert_eq!(command, EngineCommand::Terminate);
            session
        } else {
            assert_eq!(command, EngineCommand::Terminate);
            session
        };
        assert_eq!(end(session, EngineEvent::Completed), Err(CaptureError::Timeout));
    }
}

#[test]
fn report_at_the_deadline_is_in_time() {
    let mut config = CaptureConfig::standard(EngineMode::Shared);
    config.settle_delay = 0;
    let session = up_to_loading(config);
    let (session, command) = go_on_at(session, EngineEvent::Completed, DEADLINE);
    assert_eq!(command, EngineCommand::Screenshot { quality: 100 });
    let (session, _) = go_on_at(session, EngineEvent::Image(vec![1, 2, 3]), DEADLINE);
    assert_eq!(end_at(session, EngineEvent::Completed, TOO_LATE), Ok(vec![1, 2, 3]));
}

#[test]
fn success_after_the_deadline_is_a_timeout() {
    let session = up_to_loading(CaptureConfig::standard(EngineMode::PerRequest));
    let (session, command) = go_on_at(session, EngineEvent::Completed, TOO_LATE);
    assert_eq!(command, EngineCommand::CloseContext);
    let (session, command) = go_on_at(session, EngineEvent::Completed, TOO_LATE);
    assert_eq!(command, EngineCommand::Terminate);
    assert_eq!(end_at(session, EngineEvent::Completed, TOO_LATE), Err(CaptureError::Timeout));
}

#[test]
fn image_after_the_deadline_is_a_timeout() {
    let mut config = CaptureConfig::standard(EngineMode::Shared);
    config.settle_delay = 0;
    let session = up_to_loading(config);
    let (session, _) = go_on(session, EngineEvent::Completed);
    let (session, command) = go_on_at(session, EngineEvent::Image(vec![1]), TOO_LATE);
    assert_eq!(command, EngineCommand::CloseContext);
    assert_eq!(end_at(session, EngineEvent::Completed, TOO_LATE), Err(CaptureError::Timeout));
}

#[test]
fn failure_after_the_deadline_is_a_timeout() {
    let session = up_to_loading(CaptureConfig::standard(EngineMode::Shared));
    let (session, _) = go_on_at(session, EngineEvent::Failed, TOO_LATE);
    assert_eq!(end_at(session, EngineEvent::Completed, TOO_LATE), Err(CaptureError::Timeout));
}

#[test]
fn launch_that_completes_after_the_deadline_is_terminated() {
    let (session, _) = start(CaptureConfig::standard(EngineMode::PerRequest));
    let (session, command) = go_on_at(session, EngineEvent::Completed, TOO_LATE);
    assert_eq!(command, EngineCommand::Terminate);
    assert_eq!(end_at(session, EngineEvent::Completed, TOO_LATE), Err(CaptureError::Timeout));
}

#[test]
fn launch_that_fails_after_the_deadline_is_a_timeout() {
    let (session, _) = start(CaptureConfig::standard(EngineMode::PerRequest));
    assert_eq!(end_at(session, EngineEvent::Failed, TOO_LATE), Err(CaptureError::Timeout));
}

#[test]
fn context_that_opens_after_the_deadline_is_closed_again() {
    let (session, _) = start(CaptureConfig::standard(EngineMode::Shared));
    let (session, command) = go_on_at(session, EngineEvent::Completed, TOO_LATE);
    assert_eq!(command, EngineCommand::CloseContext);
    assert_eq!(end_at(session, EngineEvent::Completed, TOO_LATE), Err(CaptureError::Timeout));
}

#[test]
fn allowance_is_what_is_left_until_the_deadline() {
    let (session, _) = start(CaptureConfig::standard(EngineMode::Shared));
    assert_eq!(session.allowance(START), Some(60_000));
    assert_eq!(session.allowance(START + 45_000), Some(15_000));
    assert_eq!(session.allowance(DEADLINE), Some(0));
    assert_eq!(session.allowance(TOO_LATE), Some(0));
    assert_eq!(session.allowance(0), Some(DEADLINE));
}

#[test]
fn teardown_has_no_time_limit() {
    let session = up_to_loading(CaptureConfig::standard(EngineMode::PerRequest));
    let (session, command) = go_on(session, EngineEvent::TimedOut);
    assert_eq!(command, EngineCommand::CloseContext);
    assert_eq!(session.allowance(SOON), None);
    let (session, command) = go_on(session, EngineEvent::Completed);
    assert_eq!(command, EngineCommand::Terminate);
    assert_eq!(session.allowance(TOO_LATE), None);
}

#[test]
fn deadline_stops_at_the_end_of_the_clock() {
    let config = CaptureConfig::standard(EngineMode::Shared);
    let (session, _) = capture_website(PAGE.to_string(), config, u64::MAX - 10);
    assert_eq!(session.allowance(u64::MAX - 10), Some(10));
    let (_, command) = go_on_at(session, EngineEvent::Completed, u64::MAX);
    assert_eq!(command, EngineCommand::SetDeadline { millis: 10_000 });
}

#[test]
fn zero_timeout_still_allows_the_instant_of_the_start() {
    let mut config = CaptureConfig::standard(EngineMode::Shared);
    config.capture_timeout = 0;
    let (session, _) = capture_website(PAGE.to_string(), config, START);
    assert_eq!(session.allowance(START), Some(0));
    let (session, command) = go_on_at(session, EngineEvent::Completed, START);
    assert_eq!(command, EngineCommand::SetDeadline { millis: 10_000 });
    let (_, command) = go_on_at(session, EngineEvent::Completed, START + 1);
    assert_eq!(command, EngineCommand::CloseContext);
}

#[test]
fn opening_that_times_out_is_closed_all_the_same() {
    let (session, _) = start(CaptureConfig::standard(EngineMode::Shared));
    let (session, command) = go_on(session, EngineEvent::TimedOut);
    assert_eq!(command, EngineCommand::CloseContext);
    assert_eq!(end(session, EngineEvent::Failed), Err(CaptureError::Timeout));
}

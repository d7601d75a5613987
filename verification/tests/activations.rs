use system_recorder::activation::{
    Activation, ActivationAction, ActivationEvent, ActivationPhase,
};
use system_recorder::capture::{LOOPBACK_MODE_EXCLUDE_TREE, LOOPBACK_MODE_INCLUDE_TREE};
use system_recorder::error::WasapiError;

fn requested() -> Activation {
    let a = Activation::begin(4711, true);
    assert_eq!(a.action(), ActivationAction::CreateEvent);
    let a = a.step(ActivationEvent::Completed);
    assert_eq!(
        a.action(),
        ActivationAction::Request { pid: 4711, mode: LOOPBACK_MODE_INCLUDE_TREE }
    );
    a
}

fn signalled() -> Activation {
    let a = requested().step(ActivationEvent::Completed);
    assert_eq!(a.action(), ActivationAction::Wait { millis: 5_000 });
    let a = a.step(ActivationEvent::Waited(0));
    assert_eq!(a.action(), ActivationAction::CloseEvent);
    let a = a.step(ActivationEvent::Completed);
    assert_eq!(a.action(), ActivationAction::FetchResult);
    a
}

fn fetched(hr: i32, has_interface: bool) -> ActivationEvent {
    ActivationEvent::Fetched { hr, hr_text: "refused".to_string(), has_interface }
}

#[test]
fn an_answered_request_gives_a_client() {
    let a = signalled().step(fetched(0, true));
    assert_eq!(a.action(), ActivationAction::Cast);
    let a = a.step(ActivationEvent::Completed);
    assert_eq!(a.action(), ActivationAction::Return);
    assert_eq!(a.phase, ActivationPhase::Finished(Ok(())));
}

#[test]
fn a_process_is_requested_with_its_children() {
    requested();
    assert_eq!(LOOPBACK_MODE_INCLUDE_TREE, 0);
    assert_ne!(LOOPBACK_MODE_INCLUDE_TREE, LOOPBACK_MODE_EXCLUDE_TREE);
}

#[test]
fn a_process_without_its_children_is_refused() {
    let a = Activation::begin(4711, false);
    assert_eq!(a.action(), ActivationAction::Return);
    assert_eq!(
        a.phase,
        ActivationPhase::Finished(Err(WasapiError::UnsupportedFormat(
            "Windows 无法只捕获 PID=4711 而不包含其子进程".to_string()
        )))
    );
}

#[test]
fn a_timeout_closes_the_event_and_fails() {
    let a = requested().step(ActivationEvent::Completed);
    let a = a.step(ActivationEvent::Waited(258));
    assert_eq!(a.action(), ActivationAction::CloseEvent);
    let a = a.step(ActivationEvent::Completed);
    assert_eq!(
        a.phase,
        ActivationPhase::Finished(Err(WasapiError::UnsupportedFormat(
            "激活 PID=4711 的 per-process 音频客户端超时 (wait=WAIT_EVENT(258))".to_string()
        )))
    );
}

#[test]
fn a_refused_request_closes_the_event_first() {
    let a = requested().step(ActivationEvent::Failed(WasapiError::Windows("no".to_string())));
    assert_eq!(a.action(), ActivationAction::CloseEvent);
    let a = a.step(ActivationEvent::Completed);
    assert_eq!(
        a.phase,
        ActivationPhase::Finished(Err(WasapiError::Windows("no".to_string())))
    );
}

#[test]
fn a_failed_result_is_reported() {
    assert_eq!(
        signalled().step(fetched(-2_147_024_891, true)).phase,
        ActivationPhase::Finished(Err(WasapiError::Windows("refused".to_string())))
    );
    assert_eq!(
        signalled().step(ActivationEvent::Failed(WasapiError::BadString)).phase,
        ActivationPhase::Finished(Err(WasapiError::BadString))
    );
}

#[test]
fn a_result_without_interface_is_an_error() {
    assert_eq!(
        signalled().step(fetched(0, false)).phase,
        ActivationPhase::Finished(Err(WasapiError::UnsupportedFormat(
            "ActivateCompleted 未返回接口".to_string()
        )))
    );
}

#[test]
fn failures_before_and_after_are_passed_on() {
    let e = || ActivationEvent::Failed(WasapiError::Windows("x".to_string()));
    let failed = || ActivationPhase::Finished(Err(WasapiError::Windows("x".to_string())));
    assert_eq!(Activation::begin(1, true).step(e()).phase, failed());
    assert_eq!(signalled().step(fetched(0, true)).step(e()).phase, failed());
}

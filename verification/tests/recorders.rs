use system_recorder::capture::{CaptureSource, CaptureStats, WasapiCapture};
use system_recorder::config::{AppConfig, RuleEdit};
use system_recorder::devices::{EndpointDevice, EndpointFlow};
use system_recorder::error::WasapiError;
use system_recorder::naming::{default_output_path, LocalTime};
use system_recorder::recorder::{RecorderApp, RecordingState, SourceKind, StatusLine};
use system_recorder::system::OsVersion;

const V11: OsVersion = OsVersion { major: 10, minor: 0, build: 22631 };

fn time() -> LocalTime {
    LocalTime { year: 2023, month: 10, day: 27, hour: 10, minute: 30, second: 0 }
}

fn device(id: &str, is_default: bool, flow: EndpointFlow) -> EndpointDevice {
    EndpointDevice { id: id.to_string(), friendly_name: id.to_string(), is_default, flow }
}

fn app_with(config: AppConfig) -> RecorderApp<u32> {
    RecorderApp::new(
        &V11,
        config,
        Ok(vec![
            device("in1", false, EndpointFlow::Capture),
            device("in2", true, EndpointFlow::Capture),
        ]),
        Ok(vec![device("out1", false, EndpointFlow::Render)]),
        Ok(vec![]),
    )
}

fn app() -> RecorderApp<u32> {
    app_with(AppConfig::default())
}

fn started(app: &mut RecorderApp<u32>) -> (CaptureSource, String) {
    let order = app.start_recording(&time()).unwrap();
    (order.source, order.path)
}

#[test]
fn a_new_window_selects_the_defaults() {
    let app = app();
    assert_eq!(app.os_version, "Windows 10.0.22631 (build 22631)");
    assert!(app.supports_per_process);
    assert_eq!(app.selected_input_id.as_deref(), Some("in2"));
    assert_eq!(app.selected_output_id.as_deref(), Some("out1"));
    assert_eq!(app.selected_pid, None);
    assert_eq!(app.output_path_buf, ".");
    assert_eq!(app.source_kind, SourceKind::Mic);
    assert!(app.is_idle());
    assert_eq!(app.status(0), StatusLine::Ready);
}

#[test]
fn a_new_window_opens_at_the_last_directory() {
    let mut config = AppConfig::default();
    config.last_dir = Some("D:\\rec".to_string());
    assert_eq!(app_with(config).output_path_buf, "D:\\rec");
}

#[test]
fn a_failed_list_selects_nothing() {
    let app: RecorderApp<u32> = RecorderApp::new(
        &V11,
        AppConfig::default(),
        Err(WasapiError::BadString),
        Ok(vec![]),
        Err(WasapiError::ThreadPanic),
    );
    assert!(matches!(&app.input_devices, Err(text) if text == "字符串解码失败"));
    assert!(matches!(&app.sessions, Err(text) if text == "捕获线程 panic"));
    assert_eq!(app.selected_input_id, None);
    assert_eq!(app.selected_output_id, None);
    assert!(!app.can_start());
}

#[test]
fn refreshing_keeps_the_choices() {
    let mut app = app();
    app.selected_pid = Some(9);
    app.refresh(Ok(vec![]), Err(WasapiError::BadString), Ok(vec![]));
    assert!(matches!(&app.input_devices, Ok(list) if list.is_empty()));
    assert!(app.output_devices.is_err());
    assert_eq!(app.selected_input_id.as_deref(), Some("in2"));
    assert_eq!(app.selected_pid, Some(9));
}

#[test]
fn single_processes_are_offered_where_windows_can_record_them() {
    let mut app = app();
    assert!(app.offers(SourceKind::PerProcess));
    assert_eq!(app.per_app_label(), "Per-App 捕获: 可用");
    app.supports_per_process = false;
    assert!(!app.offers(SourceKind::PerProcess));
    assert!(app.offers(SourceKind::Mic));
    assert!(app.offers(SourceKind::SystemLoopback));
    assert_eq!(app.per_app_label(), "Per-App 捕获: 不可用 (需 Win10 build 20348+)");
}

#[test]
fn the_default_name_follows_the_source() {
    let mut app = app();
    app.output_path_buf = default_output_path("mic", &time());
    app.switch_source(SourceKind::SystemLoopback, &time(), &time());
    assert_eq!(app.source_kind, SourceKind::SystemLoopback);
    assert_eq!(app.output_path_buf, "loopback-20231027-103000.wav");
    app.switch_source(SourceKind::SystemLoopback, &time(), &time());
    assert_eq!(app.output_path_buf, "loopback-20231027-103000.wav");
}

#[test]
fn a_path_of_the_user_stays() {
    let mut app = app();
    app.output_path_buf = "D:\\mine".to_string();
    app.switch_source(SourceKind::PerProcess, &time(), &time());
    assert_eq!(app.source_kind, SourceKind::PerProcess);
    assert_eq!(app.output_path_buf, "D:\\mine");
    app.reset_path();
    assert_eq!(app.output_path_buf, ".");
}

#[test]
fn starting_takes_a_source_and_an_output() {
    let mut app = app();
    assert!(app.can_start());
    app.output_path_buf = " \u{3000}\t".to_string();
    assert!(!app.can_start());
    app.output_path_buf = "D:\\".to_string();
    app.source_kind = SourceKind::PerProcess;
    assert!(!app.can_start());
    assert!(app.start_recording(&time()).is_none());
    assert_eq!(app.config.last_dir, None);
    app.selected_pid = Some(3);
    assert!(app.can_start());
}

#[test]
fn a_start_is_offered_only_when_idle() {
    let mut app = app();
    assert!(app.offers_start());
    app.recording_started(WasapiCapture::start(7, "a.wav".to_string()), 0);
    assert!(app.can_start());
    assert!(!app.offers_start());
    let (path, _) = app.take_capture().unwrap();
    assert!(app.offers_start());
    app.recording_stopped(path, Err(WasapiError::ThreadPanic));
    assert!(app.offers_start());
    app.output_path_buf = " ".to_string();
    assert!(!app.offers_start());
    app.output_path_buf = ".".to_string();
    app.selected_input_id = None;
    assert!(!app.offers_start());
}

#[test]
fn the_source_is_of_the_chosen_kind() {
    let mut app = app();
    app.selected_pid = Some(12);
    for kind in [SourceKind::Mic, SourceKind::SystemLoopback, SourceKind::PerProcess] {
        app.source_kind = kind;
        assert_eq!(app.pending_source().unwrap().log_tag(), kind.prefix());
    }
    assert!(matches!(
        app.pending_source(),
        Some(CaptureSource::PerProcess { pid: 12, include_tree: true })
    ));
}

#[test]
fn a_timed_recording_is_ordered() {
    let mut app = app();
    app.output_path_buf = "  D:\\rec ".to_string();
    let (source, path) = started(&mut app);
    assert!(matches!(source, CaptureSource::Mic { device_id } if device_id == "in2"));
    assert_eq!(path, "D:\\rec\\mic-20231027-103000.wav");
    assert_eq!(app.config.last_dir.as_deref(), Some("D:\\rec"));
    assert_eq!(app.config.naming_rules[0].current_sequence, 0);
}

#[test]
fn numbered_recordings_differ() {
    let mut app = app();
    app.config.edit_selected(RuleEdit::ToAutoIncrement);
    app.config.edit_selected(RuleEdit::Prefix("t".to_string()));
    let (_, first) = started(&mut app);
    app.source_kind = SourceKind::SystemLoopback;
    let (_, second) = started(&mut app);
    assert_eq!(first, ".\\t1.wav");
    assert_eq!(second, ".\\t2.wav");
    assert_eq!(app.config.naming_rules[0].current_sequence, 2);
}

#[test]
fn timed_recordings_of_different_seconds_differ() {
    let mut app = app();
    let (_, first) = started(&mut app);
    let later = LocalTime { second: 1, ..time() };
    let second = app.start_recording(&later).unwrap().path;
    assert_eq!(first, ".\\mic-20231027-103000.wav");
    assert_eq!(second, ".\\mic-20231027-103001.wav");
}

#[test]
fn a_recording_runs_and_is_stopped() {
    let mut app = app();
    app.recording_started(WasapiCapture::start(7, "a.wav".to_string()), 1_000);
    assert!(!app.is_idle());
    assert_eq!(app.status(1_000), StatusLine::Recording("● 正在录制  00:00.0".to_string()));
    assert_eq!(
        app.status(1_000 + 65_430),
        StatusLine::Recording("● 正在录制  01:05.4".to_string())
    );
    assert_eq!(
        app.status(1_000 + 6_000_990),
        StatusLine::Recording("● 正在录制  100:00.9".to_string())
    );
    let (path, thread) = app.take_capture().unwrap();
    assert_eq!((path.as_str(), thread), ("a.wav", 7));
    assert!(matches!(app.recording, RecordingState::Idle));
    assert!(app.take_capture().is_none());
    app.recording_stopped(
        path,
        Ok(CaptureStats { frames: 480_000, channels: 2, sample_rate: 48_000 }),
    );
    assert_eq!(
        app.status(0),
        StatusLine::Saved("✓ 已保存 a.wav (48000 Hz / 2 ch / 480000 帧)".to_string())
    );
    assert!(app.is_idle());
}

#[test]
fn a_recording_that_ends_by_itself_is_noticed() {
    let mut app = app();
    app.poll_recording(Some(Err(WasapiError::BadString)));
    assert!(matches!(app.recording, RecordingState::Idle));
    app.recording_started(WasapiCapture::start(7, "a.wav".to_string()), 0);
    app.poll_recording(None);
    assert!(!app.is_idle());
    app.poll_recording(Some(Err(WasapiError::ThreadPanic)));
    assert_eq!(app.status(5), StatusLine::Failed("录制失败: 捕获线程 panic".to_string()));
    assert!(matches!(&app.recording, RecordingState::LastResult { path, .. } if path == "a.wav"));
}

#[test]
fn the_sound_window_opens_and_closes() {
    let mut app = app();
    app.toggle_dsp_window();
    assert!(app.show_dsp_window);
    app.toggle_dsp_window();
    assert!(!app.show_dsp_window);
}

use system_recorder::capture::{
    activation_route, capture_outcome, client_format, ActivationRoute, CaptureSource,
    CaptureStats, WasapiCapture, ACTIVATE_TIMEOUT_MS, BUFFER_DURATION, EVENT_WAIT_MS,
    LOOPBACK_POLL_MS, STREAMFLAGS_EVENTCALLBACK, STREAMFLAGS_LOOPBACK,
};
use system_recorder::error::WasapiError;
use system_recorder::format::{pcm_format, WaveFormat};

fn mic() -> CaptureSource {
    CaptureSource::Mic { device_id: "{mic}".to_string() }
}

fn loopback() -> CaptureSource {
    CaptureSource::SystemLoopback { device_id: "{speakers}".to_string() }
}

fn app(include_tree: bool) -> CaptureSource {
    CaptureSource::PerProcess { pid: 4711, include_tree }
}

#[test]
fn sources_have_short_names() {
    assert_eq!(mic().log_tag(), "mic");
    assert_eq!(loopback().log_tag(), "loopback");
    assert_eq!(app(true).log_tag(), "app");
    assert_eq!(mic().thread_name(), "wasapi-mic-capture");
    assert_eq!(loopback().thread_name(), "wasapi-loopback-capture");
    assert_eq!(app(true).thread_name(), "wasapi-app-capture");
}

#[test]
fn only_output_endpoints_are_polled() {
    assert!(mic().event_driven());
    assert!(!loopback().event_driven());
    assert!(app(false).event_driven());
}

#[test]
fn stream_flags_match_the_way_of_waiting() {
    assert_eq!(mic().stream_flags(), 0x0004_0000);
    assert_eq!(loopback().stream_flags(), 0x0002_0000);
    assert_eq!(app(true).stream_flags(), 0x0006_0000);
    for source in [mic(), loopback(), app(true)] {
        assert_eq!(
            source.stream_flags() & STREAMFLAGS_EVENTCALLBACK != 0,
            source.event_driven()
        );
    }
    assert_eq!(app(true).stream_flags(), STREAMFLAGS_EVENTCALLBACK | STREAMFLAGS_LOOPBACK);
}

#[test]
fn times_of_the_capture() {
    assert_eq!(BUFFER_DURATION, 200 * 10_000);
    assert_eq!(EVENT_WAIT_MS, 500);
    assert_eq!(LOOPBACK_POLL_MS, 10);
    assert_eq!(ACTIVATE_TIMEOUT_MS, 5_000);
}

#[test]
fn a_process_has_a_fixed_format() {
    let fixed = Ok(pcm_format(48_000, 2, 16));
    let float_mix = WaveFormat {
        format_tag: 0x0003,
        channels: 6,
        samples_per_sec: 44_100,
        avg_bytes_per_sec: 44_100 * 24,
        block_align: 24,
        bits_per_sample: 32,
        cb_size: 0,
        sub_format: 0,
    };
    assert_eq!(client_format(&app(true), Ok(float_mix)), fixed);
    assert_eq!(client_format(&app(true), Ok(pcm_format(44_100, 1, 16))), fixed);
    assert_eq!(
        client_format(&app(true), Err(WasapiError::Windows("E_NOTIMPL".to_string()))),
        fixed
    );
}

#[test]
fn an_endpoint_without_mix_format_fails() {
    for source in [mic(), loopback()] {
        assert_eq!(
            client_format(&source, Err(WasapiError::Windows("gone".to_string()))),
            Err(WasapiError::Windows("gone".to_string()))
        );
        let mix = pcm_format(44_100, 1, 16);
        assert_eq!(client_format(&source, Ok(mix)), Ok(mix));
    }
}

#[test]
fn clients_come_from_an_endpoint_or_a_process() {
    assert_eq!(activation_route(&mic()), ActivationRoute::Endpoint("{mic}".to_string()));
    assert_eq!(activation_route(&loopback()), ActivationRoute::Endpoint("{speakers}".to_string()));
    assert_eq!(
        activation_route(&app(true)),
        ActivationRoute::ProcessLoopback { pid: 4711, include_tree: true }
    );
    assert_eq!(
        activation_route(&app(false)),
        ActivationRoute::ProcessLoopback { pid: 4711, include_tree: false }
    );
}

#[test]
fn a_thread_is_handed_out_once() {
    let mut capture = WasapiCapture::start(17u32, "a.wav".to_string());
    assert_eq!(capture.output_path(), "a.wav");
    assert_eq!(capture.try_take_result(false), None);
    assert_eq!(capture.try_take_result(true), Some(17));
    assert_eq!(capture.try_take_result(true), None);
    assert_eq!(capture.output_path(), "a.wav");
}

#[test]
fn stopping_hands_out_the_thread() {
    let capture = WasapiCapture::start("thread", "b.wav".to_string());
    assert_eq!(capture.stop(), "thread");
}

#[test]
fn a_panicked_thread_is_an_error() {
    let stats = CaptureStats { frames: 7, channels: 2, sample_rate: 48_000 };
    assert_eq!(capture_outcome(Some(Ok(stats))), Ok(stats));
    assert_eq!(
        capture_outcome(Some(Err(WasapiError::BadString))),
        Err(WasapiError::BadString)
    );
    assert_eq!(capture_outcome(None), Err(WasapiError::ThreadPanic));
}

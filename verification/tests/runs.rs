use system_recorder::capture::{CaptureSource, CaptureStats};
use system_recorder::error::WasapiError;
use system_recorder::format::{
    pcm_format, FormatInfo, PcmKind, SampleFormat, WavSpec, WaveFormat,
};
use system_recorder::run::{CaptureAction, CaptureEvent, CapturePhase, CaptureRun};

fn mic() -> CaptureSource {
    CaptureSource::Mic { device_id: "m".to_string() }
}

fn loopback() -> CaptureSource {
    CaptureSource::SystemLoopback { device_id: "s".to_string() }
}

fn info() -> FormatInfo {
    FormatInfo { kind: PcmKind::Int16, channels: 2, sample_rate: 48_000 }
}

/// Checks the action, then takes the step.
fn go(run: CaptureRun, action: CaptureAction, event: CaptureEvent) -> CaptureRun {
    assert_eq!(run.action(), action);
    run.step(event)
}

/// A recording up to the point where the stop flag is read for the first time.
fn running(source: CaptureSource) -> CaptureRun {
    let signals = source.event_driven();
    let flags = source.stream_flags();
    let mut run = CaptureRun::begin(source);
    run = go(
        run,
        CaptureAction::Activate,
        CaptureEvent::Activated(pcm_format(48_000, 2, 16)),
    );
    if signals {
        run = go(run, CaptureAction::CreateEvent, CaptureEvent::Completed);
    }
    run = go(
        run,
        CaptureAction::Initialize { flags, buffer_duration: 2_000_000 },
        CaptureEvent::Completed,
    );
    if signals {
        run = go(run, CaptureAction::BindEvent, CaptureEvent::Completed);
    }
    run = go(run, CaptureAction::OpenService, CaptureEvent::Completed);
    run = go(
        run,
        CaptureAction::CreateWriter(WavSpec {
            channels: 2,
            sample_rate: 48_000,
            bits_per_sample: 16,
            sample_format: SampleFormat::Int,
        }),
        CaptureEvent::Completed,
    );
    run = go(run, CaptureAction::StartStream, CaptureEvent::Completed);
    assert_eq!(run.phase, CapturePhase::ReadStopFlag);
    run
}

#[test]
fn a_microphone_is_recorded_by_events() {
    let mut run = running(mic());
    run = go(run, CaptureAction::ReadStopFlag, CaptureEvent::StopFlag(false));
    // nothing within the wait: back to the stop flag
    run = go(run, CaptureAction::WaitForEvent { millis: 500 }, CaptureEvent::Waited(0x102));
    run = go(run, CaptureAction::ReadStopFlag, CaptureEvent::StopFlag(false));
    run = go(run, CaptureAction::WaitForEvent { millis: 500 }, CaptureEvent::Waited(0));
    run = go(run, CaptureAction::NextPacketSize, CaptureEvent::PacketSize(480));
    run = go(
        run,
        CaptureAction::GetBuffer,
        CaptureEvent::Buffer { frames: 480, flags: 0 },
    );
    run = go(
        run,
        CaptureAction::WriteFrames { format: info(), frames: 480, silent: false },
        CaptureEvent::Completed,
    );
    run = go(run, CaptureAction::ReleaseBuffer { frames: 480 }, CaptureEvent::Completed);
    run = go(run, CaptureAction::NextPacketSize, CaptureEvent::PacketSize(0));
    run = go(run, CaptureAction::ReadStopFlag, CaptureEvent::StopFlag(true));
    run = go(run, CaptureAction::StopStream, CaptureEvent::Completed);
    run = go(run, CaptureAction::FinalizeWriter, CaptureEvent::Completed);
    run = go(run, CaptureAction::CloseEvent, CaptureEvent::Completed);
    assert_eq!(run.action(), CaptureAction::Return);
    assert_eq!(
        run.phase,
        CapturePhase::Finished(Ok(CaptureStats { frames: 480, channels: 2, sample_rate: 48_000 }))
    );
}

#[test]
fn an_output_endpoint_is_polled() {
    let mut run = running(loopback());
    run = go(run, CaptureAction::ReadStopFlag, CaptureEvent::StopFlag(false));
    run = go(run, CaptureAction::Sleep { millis: 10 }, CaptureEvent::Completed);
    run = go(run, CaptureAction::NextPacketSize, CaptureEvent::PacketSize(0));
    run = go(run, CaptureAction::ReadStopFlag, CaptureEvent::StopFlag(true));
    run = go(run, CaptureAction::StopStream, CaptureEvent::Completed);
    run = go(run, CaptureAction::FinalizeWriter, CaptureEvent::Completed);
    assert_eq!(
        run.phase,
        CapturePhase::Finished(Ok(CaptureStats { frames: 0, channels: 2, sample_rate: 48_000 }))
    );
}

#[test]
fn frames_of_all_packets_are_counted() {
    let mut run = running(loopback());
    run = run.step(CaptureEvent::StopFlag(false));
    run = run.step(CaptureEvent::Completed);
    let mut expected: u64 = 0;
    for (frames, flags) in [(480u32, 0u32), (0, 0), (441, 2), (1, 3), (479, 1)] {
        run = run.step(CaptureEvent::PacketSize(1));
        run = run.step(CaptureEvent::Buffer { frames, flags });
        if frames > 0 {
            run = go(
                run,
                CaptureAction::WriteFrames {
                    format: info(),
                    frames,
                    silent: flags & 2 != 0,
                },
                CaptureEvent::Completed,
            );
        }
        run = go(run, CaptureAction::ReleaseBuffer { frames }, CaptureEvent::Completed);
        expected += frames as u64;
    }
    assert_eq!(run.frames, expected);
    run = run.step(CaptureEvent::PacketSize(0));
    run = run.step(CaptureEvent::StopFlag(true));
    run = run.step(CaptureEvent::Completed);
    run = run.step(CaptureEvent::Completed);
    assert_eq!(
        run.phase,
        CapturePhase::Finished(Ok(CaptureStats {
            frames: expected,
            channels: 2,
            sample_rate: 48_000,
        }))
    );
}

#[test]
fn an_unsupported_format_ends_the_recording() {
    let f = WaveFormat { bits_per_sample: 24, ..pcm_format(48_000, 2, 16) };
    let run = CaptureRun::begin(mic()).step(CaptureEvent::Activated(f));
    assert_eq!(
        run.phase,
        CapturePhase::Finished(Err(WasapiError::UnsupportedFormat(
            "tag=0x0001 bits=24".to_string()
        )))
    );
}

#[test]
fn a_failure_ends_the_recording_and_is_reported() {
    let run = CaptureRun::begin(mic()).step(CaptureEvent::Failed(WasapiError::BadString));
    assert_eq!(run.phase, CapturePhase::Finished(Err(WasapiError::BadString)));
    assert_eq!(run.action(), CaptureAction::Return);

    let mut run = running(loopback());
    run = run.step(CaptureEvent::StopFlag(false));
    run = run.step(CaptureEvent::Completed);
    run = run.step(CaptureEvent::PacketSize(5));
    run = run.step(CaptureEvent::Buffer { frames: 5, flags: 0 });
    run = run.step(CaptureEvent::Failed(WasapiError::Wav("full".to_string())));
    assert_eq!(
        run.phase,
        CapturePhase::Finished(Err(WasapiError::Wav("full".to_string())))
    );
}

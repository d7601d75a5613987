//! The course of one recording as a state machine: each phase names the call
//! to make, and the outcome of that call leads to the next phase.
use vstd::prelude::*;

use crate::capture::{CaptureSource, CaptureStats};
use crate::error::WasapiError;
use crate::format::{inspect_format, wav_spec, FormatInfo, WavSpec, WaveFormat};

verus! {

/// The phases of a recording.
#[derive(Debug, PartialEq, Eq)]
pub enum CapturePhase {
    Activate,
    CreateEvent,
    Initialize,
    BindEvent,
    OpenService,
    CreateWriter,
    StartStream,
    ReadStopFlag,
    AwaitData,
    NextPacket,
    GetBuffer,
    WritePacket { frames: u32, silent: bool },
    ReleaseBuffer { frames: u32 },
    StopStream,
    FinalizeWriter,
    CloseEvent,
    Finished(Result<CaptureStats, WasapiError>),
}

/// The outcome of the call that a phase asks for.
#[derive(Debug, PartialEq, Eq)]
pub enum CaptureEvent {
    /// The call failed.
    Failed(WasapiError),
    /// The call succeeded and returns nothing.
    Completed,
    /// The client is there; this is its format.
    Activated(WaveFormat),
    /// The value of the stop flag.
    StopFlag(bool),
    /// What the wait for the event returned.
    Waited(u32),
    /// The size of the next packet, 0 for none.
    PacketSize(u32),
    /// A buffer with this many frames and these flags.
    Buffer { frames: u32, flags: u32 },
}

/// The call to make.
#[derive(Debug, Clone, Copy, PartialEq, Eq, Structural)]
pub enum CaptureAction {
    Activate,
    CreateEvent,
    Initialize { flags: u32, buffer_duration: i64 },
    BindEvent,
    OpenService,
    CreateWriter(WavSpec),
    StartStream,
    ReadStopFlag,
    WaitForEvent { millis: u32 },
    Sleep { millis: u32 },
    NextPacketSize,
    GetBuffer,
    WriteFrames { format: FormatInfo, frames: u32, silent: bool },
    ReleaseBuffer { frames: u32 },
    StopStream,
    FinalizeWriter,
    CloseEvent,
    Return,
}

/// A recording under way.
#[derive(Debug)]
pub struct CaptureRun {
    pub source: CaptureSource,
    pub phase: CapturePhase,
    /// The format, once the client is activated.
    pub format: Option<FormatInfo>,
    /// The frames written so far.
    pub frames: u64,
}

impl CaptureRun {
    /// Whether the format is known in every phase that needs it.
    pub open spec fn wf(self) -> bool {
        self.phase is Activate || self.phase is Finished || self.format is Some
    }

    /// Whether `event` can be the outcome of the call of this phase. The frames
    /// of a recording are counted in 64 bits.
    pub open spec fn expects(self, event: CaptureEvent) -> bool {
        match self.phase {
            CapturePhase::Activate => event is Activated || event is Failed,
            CapturePhase::ReadStopFlag => event is StopFlag,
            CapturePhase::AwaitData => if self.source.signals() {
                event is Waited
            } else {
                event is Completed
            },
            CapturePhase::NextPacket => event is PacketSize || event is Failed,
            CapturePhase::GetBuffer => event is Buffer || event is Failed,
            CapturePhase::WritePacket { frames, .. } => {
                ||| event is Completed && self.frames + frames <= u64::MAX
                ||| event is Failed
            },
            CapturePhase::CloseEvent => event is Completed,
            CapturePhase::Finished(_) => false,
            _ => event is Completed || event is Failed,
        }
    }

    /// The recording moved to another phase.
    pub open spec fn at(self, phase: CapturePhase) -> CaptureRun {
        CaptureRun { source: self.source, phase, format: self.format, frames: self.frames }
    }

    /// What a successful recording reports.
    pub open spec fn stats(self) -> CaptureStats {
        CaptureStats {
            frames: self.frames,
            channels: self.format->0.channels,
            sample_rate: self.format->0.sample_rate,
        }
    }

    /// The phase after a call that succeeded and returned nothing.
    pub open spec fn after_completion(self) -> CapturePhase {
        match self.phase {
            CapturePhase::CreateEvent => CapturePhase::Initialize,
            CapturePhase::Initialize => if self.source.signals() {
                CapturePhase::BindEvent
            } else {
                CapturePhase::OpenService
            },
            CapturePhase::BindEvent => CapturePhase::OpenService,
            CapturePhase::OpenService => CapturePhase::CreateWriter,
            CapturePhase::CreateWriter => CapturePhase::StartStream,
            CapturePhase::StartStream => CapturePhase::ReadStopFlag,
            CapturePhase::AwaitData => CapturePhase::NextPacket,
            CapturePhase::WritePacket { frames, .. } => CapturePhase::ReleaseBuffer { frames },
            CapturePhase::ReleaseBuffer { .. } => CapturePhase::NextPacket,
            CapturePhase::StopStream => CapturePhase::FinalizeWriter,
            CapturePhase::FinalizeWriter => if self.source.signals() {
                CapturePhase::CloseEvent
            } else {
                CapturePhase::Finished(Ok(self.stats()))
            },
            CapturePhase::CloseEvent => CapturePhase::Finished(Ok(self.stats())),
            other => other,
        }
    }

    /// Whether `r` is the recording after `event`.
    pub open spec fn next(self, event: CaptureEvent, r: CaptureRun) -> bool {
        match event {
            CaptureEvent::Failed(e) => r == self.at(CapturePhase::Finished(Err(e))),
            CaptureEvent::Activated(f) => match crate::format::pcm_kind(f) {
                Some(kind) => {
                    &&& r.source == self.source
                    &&& r.frames == self.frames
                    &&& r.format == Some(
                        FormatInfo { kind, channels: f.channels, sample_rate: f.samples_per_sec },
                    )
                    &&& r.phase == if self.source.signals() {
                        CapturePhase::CreateEvent
                    } else {
                        CapturePhase::Initialize
                    }
                },
                None => {
                    &&& r.phase matches CapturePhase::Finished(
                        Err(WasapiError::UnsupportedFormat(what)),
                    )
                    &&& what@ == crate::format::refusal_text(f)
                    &&& r == self.at(r.phase)
                },
            },
            CaptureEvent::StopFlag(stop) => r == self.at(
                if stop {
                    CapturePhase::StopStream
                } else {
                    CapturePhase::AwaitData
                },
            ),
            CaptureEvent::Waited(w) => r == self.at(
                if w == crate::capture::WAIT_OBJECT_0 {
                    CapturePhase::NextPacket
                } else {
                    CapturePhase::ReadStopFlag
                },
            ),
            CaptureEvent::PacketSize(n) => r == self.at(
                if n == 0 {
                    CapturePhase::ReadStopFlag
                } else {
                    CapturePhase::GetBuffer
                },
            ),
            CaptureEvent::Buffer { frames, flags } => r == self.at(
                if frames > 0 {
                    CapturePhase::WritePacket {
                        frames,
                        silent: flags & crate::capture::BUFFERFLAGS_SILENT != 0,
                    }
                } else {
                    CapturePhase::ReleaseBuffer { frames: 0 }
                },
            ),
            CaptureEvent::Completed => r == (CaptureRun {
                source: self.source,
                phase: self.after_completion(),
                format: self.format,
                frames: match self.phase {
                    CapturePhase::WritePacket { frames, .. } => (self.frames + frames) as u64,
                    _ => self.frames,
                },
            }),
        }
    }

    /// A recording from `source` that is about to begin.
    pub fn begin(source: CaptureSource) -> (r: CaptureRun)
        ensures
            r.source == source,
            r.phase == CapturePhase::Activate,
            r.format is None,
            r.frames == 0,
            r.wf(),
    {
        CaptureRun { source, phase: CapturePhase::Activate, format: None, frames: 0 }
    }

    /// The call that the phase asks for.
    pub open spec fn wanted(self) -> CaptureAction {
        match self.phase {
            CapturePhase::Activate => CaptureAction::Activate,
            CapturePhase::CreateEvent => CaptureAction::CreateEvent,
            CapturePhase::Initialize => CaptureAction::Initialize {
                flags: self.source.flags(),
                buffer_duration: crate::capture::BUFFER_DURATION,
            },
            CapturePhase::BindEvent => CaptureAction::BindEvent,
            CapturePhase::OpenService => CaptureAction::OpenService,
            CapturePhase::CreateWriter => CaptureAction::CreateWriter(
                crate::format::wav_header(self.format->0),
            ),
            CapturePhase::StartStream => CaptureAction::StartStream,
            CapturePhase::ReadStopFlag => CaptureAction::ReadStopFlag,
            CapturePhase::AwaitData => if self.source.signals() {
                CaptureAction::WaitForEvent { millis: crate::capture::EVENT_WAIT_MS }
            } else {
                CaptureAction::Sleep { millis: crate::capture::LOOPBACK_POLL_MS }
            },
            CapturePhase::NextPacket => CaptureAction::NextPacketSize,
            CapturePhase::GetBuffer => CaptureAction::GetBuffer,
            CapturePhase::WritePacket { frames, silent } => CaptureAction::WriteFrames {
                format: self.format->0,
                frames,
                silent,
            },
            CapturePhase::ReleaseBuffer { frames } => CaptureAction::ReleaseBuffer { frames },
            CapturePhase::StopStream => CaptureAction::StopStream,
            CapturePhase::FinalizeWriter => CaptureAction::FinalizeWriter,
            CapturePhase::CloseEvent => CaptureAction::CloseEvent,
            CapturePhase::Finished(_) => CaptureAction::Return,
        }
    }

    /// The call that the phase asks for.
    pub fn action(&self) -> (a: CaptureAction)
        requires
            self.wf(),
        ensures
            a == self.wanted(),
    {
        match &self.phase {
            CapturePhase::Activate => CaptureAction::Activate,
            CapturePhase::CreateEvent => CaptureAction::CreateEvent,
            CapturePhase::Initialize => CaptureAction::Initialize {
                flags: self.source.stream_flags(),
                buffer_duration: crate::capture::BUFFER_DURATION,
            },
            CapturePhase::BindEvent => CaptureAction::BindEvent,
            CapturePhase::OpenService => CaptureAction::OpenService,
            CapturePhase::CreateWriter => {
                let format = self.format.unwrap();
                CaptureAction::CreateWriter(wav_spec(&format))
            },
            CapturePhase::StartStream => CaptureAction::StartStream,
            CapturePhase::ReadStopFlag => CaptureAction::ReadStopFlag,
            CapturePhase::AwaitData => if self.source.event_driven() {
                CaptureAction::WaitForEvent { millis: crate::capture::EVENT_WAIT_MS }
            } else {
                CaptureAction::Sleep { millis: crate::capture::LOOPBACK_POLL_MS }
            },
            CapturePhase::NextPacket => CaptureAction::NextPacketSize,
            CapturePhase::GetBuffer => CaptureAction::GetBuffer,
            CapturePhase::WritePacket { frames, silent } => CaptureAction::WriteFrames {
                format: self.format.unwrap(),
                frames: *frames,
                silent: *silent,
            },
            CapturePhase::ReleaseBuffer { frames } => CaptureAction::ReleaseBuffer {
                frames: *frames,
            },
            CapturePhase::StopStream => CaptureAction::StopStream,
            CapturePhase::FinalizeWriter => CaptureAction::FinalizeWriter,
            CapturePhase::CloseEvent => CaptureAction::CloseEvent,
            CapturePhase::Finished(_) => CaptureAction::Return,
        }
    }

    /// The recording after the call of its phase had the outcome `event`.
    pub fn step(self, event: CaptureEvent) -> (r: CaptureRun)
        requires
            self.wf(),
            self.expects(event),
        ensures
            self.next(event, r),
            r.wf(),
    {
        let CaptureRun { source, phase, format, frames: written } = self;
        match event {
            CaptureEvent::Failed(e) => CaptureRun {
                source,
                phase: CapturePhase::Finished(Err(e)),
                format,
                frames: written,
            },
            CaptureEvent::Activated(f) => match inspect_format(&f) {
                Ok(info) => {
                    let phase = if source.event_driven() {
                        CapturePhase::CreateEvent
                    } else {
                        CapturePhase::Initialize
                    };
                    CaptureRun { source, phase, format: Some(info), frames: written }
                },
                Err(e) => CaptureRun {
                    source,
                    phase: CapturePhase::Finished(Err(e)),
                    format,
                    frames: written,
                },
            },
            CaptureEvent::StopFlag(stop) => {
                let phase = if stop {
                    CapturePhase::StopStream
                } else {
                    CapturePhase::AwaitData
                };
                CaptureRun { source, phase, format, frames: written }
            },
            CaptureEvent::Waited(w) => {
                let phase = if w == crate::capture::WAIT_OBJECT_0 {
                    CapturePhase::NextPacket
                } else {
                    CapturePhase::ReadStopFlag
                };
                CaptureRun { source, phase, format, frames: written }
            },
            CaptureEvent::PacketSize(n) => {
                let phase = if n == 0 {
                    CapturePhase::ReadStopFlag
                } else {
                    CapturePhase::GetBuffer
                };
                CaptureRun { source, phase, format, frames: written }
            },
            CaptureEvent::Buffer { frames, flags } => {
                let phase = if frames > 0 {
                    CapturePhase::WritePacket {
                        frames,
                        silent: flags & crate::capture::BUFFERFLAGS_SILENT != 0,
                    }
                } else {
                    CapturePhase::ReleaseBuffer { frames: 0 }
                };
                CaptureRun { source, phase, format, frames: written }
            },
            CaptureEvent::Completed => Self::complete(source, phase, format, written),
        }
    }

    /// The recording after a call that succeeded and returned nothing.
    fn complete(
        source: CaptureSource,
        phase: CapturePhase,
        format: Option<FormatInfo>,
        written: u64,
    ) -> (r: CaptureRun)
        requires
            (CaptureRun { source, phase, format, frames: written }).wf(),
            (CaptureRun { source, phase, format, frames: written }).expects(
                CaptureEvent::Completed,
            ),
        ensures
            (CaptureRun { source, phase, format, frames: written }).next(
                CaptureEvent::Completed,
                r,
            ),
            r.wf(),
    {
        let signals = source.event_driven();
        let mut total: u64 = written;
        let phase = match phase {
            CapturePhase::CreateEvent => CapturePhase::Initialize,
            CapturePhase::Initialize => if signals {
                CapturePhase::BindEvent
            } else {
                CapturePhase::OpenService
            },
            CapturePhase::BindEvent => CapturePhase::OpenService,
            CapturePhase::OpenService => CapturePhase::CreateWriter,
            CapturePhase::CreateWriter => CapturePhase::StartStream,
            CapturePhase::StartStream => CapturePhase::ReadStopFlag,
            CapturePhase::AwaitData => CapturePhase::NextPacket,
            CapturePhase::WritePacket { frames, .. } => {
                total = written + frames as u64;
                CapturePhase::ReleaseBuffer { frames }
            },
            CapturePhase::ReleaseBuffer { .. } => CapturePhase::NextPacket,
            CapturePhase::StopStream => CapturePhase::FinalizeWriter,
            CapturePhase::FinalizeWriter if signals => CapturePhase::CloseEvent,
            CapturePhase::FinalizeWriter | CapturePhase::CloseEvent => {
                let info = format.unwrap();
                CapturePhase::Finished(
                    Ok(
                        CaptureStats {
                            frames: written,
                            channels: info.channels,
                            sample_rate: info.sample_rate,
                        },
                    ),
                )
            },
            other => other,
        };
        CaptureRun { source, phase, format, frames: total }
    }
}

// ---------------------------------------------------------------------------
// Laws
// ---------------------------------------------------------------------------
/// Whether `runs` is the course of a recording from `source` under `events`:
/// it begins at the beginning, and each event leads to the next state.
pub open spec fn course(
    source: CaptureSource,
    events: Seq<CaptureEvent>,
    runs: Seq<CaptureRun>,
) -> bool {
    &&& runs.len() == events.len() + 1
    &&& runs[0] == (CaptureRun { source, phase: CapturePhase::Activate, format: None, frames: 0 })
    &&& forall|i: int|
        0 <= i < events.len() ==> #[trigger] runs[i].expects(events[i]) && runs[i].next(
            events[i],
            runs[i + 1],
        )
}

/// The frames of all buffers among `events`.
pub open spec fn captured(events: Seq<CaptureEvent>) -> int
    decreases events.len(),
{
    if events.len() == 0 {
        0
    } else {
        captured(events.drop_last()) + match events.last() {
            CaptureEvent::Buffer { frames, .. } => frames as int,
            _ => 0,
        }
    }
}

/// The frames of a buffer that is being written.
pub open spec fn pending(run: CaptureRun) -> int {
    match run.phase {
        CapturePhase::WritePacket { frames, .. } => frames as int,
        _ => 0,
    }
}

/// Until a recording fails, every captured frame is either counted or being
/// written, and the format is that of the activated client.
proof fn lemma_course(
    source: CaptureSource,
    events: Seq<CaptureEvent>,
    runs: Seq<CaptureRun>,
    n: int,
)
    requires
        course(source, events, runs),
        0 <= n <= events.len(),
    ensures
        runs[n].source == source,
        runs[n].phase is CloseEvent ==> source.signals(),
        !(runs[n].phase matches CapturePhase::Finished(Err(_))) ==> {
            &&& runs[n].frames + pending(runs[n]) == captured(events.take(n))
            &&& n == 0 || {
                &&& events[0] matches CaptureEvent::Activated(f)
                &&& crate::format::pcm_kind(f) matches Some(kind)
                &&& runs[n].format == Some(
                    FormatInfo { kind, channels: f.channels, sample_rate: f.samples_per_sec },
                )
                &&& !(runs[n].phase is Activate)
                &&& runs[n].phase matches CapturePhase::Finished(Ok(stats)) ==> stats
                    == runs[n].stats()
            }
        },
    decreases n,
{
    if n == 0 {
        assert(events.take(0).len() == 0);
    } else {
        lemma_course(source, events, runs, n - 1);
        assert(runs[n - 1].expects(events[n - 1]));
        assert(events.take(n).drop_last() == events.take(n - 1));
        assert(events.take(n).last() == events[n - 1]);
        if n == 1 {
            assert(runs[0].phase is Activate);
        }
    }
}

/// A recording that succeeds reports exactly the frames that were captured, and
/// the channels and rate of the format that the client was activated with.
pub proof fn law_stats_count_captured_frames(
    source: CaptureSource,
    events: Seq<CaptureEvent>,
    runs: Seq<CaptureRun>,
    stats: CaptureStats,
)
    requires
        course(source, events, runs),
        runs.last().phase == CapturePhase::Finished(Ok::<CaptureStats, WasapiError>(stats)),
    ensures
        stats.frames == captured(events),
        events.len() > 0,
        events[0] matches CaptureEvent::Activated(f) && crate::format::pcm_kind(f) is Some
            && stats.channels == f.channels && stats.sample_rate == f.samples_per_sec,
{
    let n = events.len() as int;
    lemma_course(source, events, runs, n);
    assert(events.take(n) == events);
}

/// A recording succeeds only after it was told to stop: the last events are the
/// stop flag, the end of the stream, the finished WAV file and, where the stream
/// signals, the closed event.
pub proof fn law_success_follows_stop(
    source: CaptureSource,
    events: Seq<CaptureEvent>,
    runs: Seq<CaptureRun>,
    stats: CaptureStats,
)
    requires
        course(source, events, runs),
        runs.last().phase == CapturePhase::Finished(Ok::<CaptureStats, WasapiError>(stats)),
    ensures
        ({
            let n = events.len() as int;
            let k = if source.signals() {
                n - 4
            } else {
                n - 3
            };
            &&& 0 <= k
            &&& runs[k].wanted() == CaptureAction::ReadStopFlag
            &&& events[k] == CaptureEvent::StopFlag(true)
            &&& runs[k + 1].wanted() == CaptureAction::StopStream
            &&& events[k + 1] == CaptureEvent::Completed
            &&& runs[k + 2].wanted() == CaptureAction::FinalizeWriter
            &&& events[k + 2] == CaptureEvent::Completed
            &&& source.signals() ==> runs[k + 3].wanted() == CaptureAction::CloseEvent
        }),
{
    let n = events.len() as int;
    let m = if source.signals() {
        n - 1
    } else {
        n
    };
    lemma_course(source, events, runs, n);
    assert(n > 0);
    lemma_course(source, events, runs, n - 1);
    assert(runs[n - 1].expects(events[n - 1]));
    if source.signals() {
        assert(runs[n - 1].phase is CloseEvent);
        assert(n > 1);
        lemma_course(source, events, runs, n - 2);
        assert(runs[n - 2].expects(events[n - 2]));
    }
    assert(runs[m - 1].phase is FinalizeWriter);
    assert(m > 1);
    lemma_course(source, events, runs, m - 2);
    assert(runs[m - 2].expects(events[m - 2]));
    assert(runs[m - 2].phase is StopStream);
    assert(m > 2);
    lemma_course(source, events, runs, m - 3);
    assert(runs[m - 3].expects(events[m - 3]));
}

/// The first failure ends a recording, and the recording reports that failure.
pub proof fn law_failure_is_reported(run: CaptureRun, e: WasapiError, r: CaptureRun)
    requires
        run.expects(CaptureEvent::Failed(e)),
        run.next(CaptureEvent::Failed(e), r),
    ensures
        r.phase == CapturePhase::Finished(Err::<CaptureStats, WasapiError>(e)),
        r.wanted() == CaptureAction::Return,
        forall|event: CaptureEvent| !r.expects(event),
{
}

/// A buffer that was obtained is released with the frames that it was obtained
/// with before the next packet is asked for, and its frames are written first.
pub proof fn law_buffer_is_written_and_released(
    run: CaptureRun,
    frames: u32,
    flags: u32,
    a: CaptureRun,
    b: CaptureRun,
    c: CaptureRun,
)
    requires
        run.phase is GetBuffer,
        run.next(CaptureEvent::Buffer { frames, flags }, a),
        frames > 0 ==> a.expects(CaptureEvent::Completed) && a.next(CaptureEvent::Completed, b),
        frames == 0 ==> b == a,
        b.next(CaptureEvent::Completed, c),
    ensures
        frames > 0 ==> a.wanted() == (CaptureAction::WriteFrames {
            format: run.format->0,
            frames,
            silent: flags & crate::capture::BUFFERFLAGS_SILENT != 0,
        }),
        b.wanted() == (CaptureAction::ReleaseBuffer { frames }),
        c.wanted() == CaptureAction::NextPacketSize,
        c.frames == run.frames + frames,
{
}

/// Once the stop flag is seen, the stream is stopped, the WAV file is finalized,
/// and the event of a signalling stream is closed before the recording returns.
pub proof fn law_stop_sequence(
    run: CaptureRun,
    a: CaptureRun,
    b: CaptureRun,
    c: CaptureRun,
    d: CaptureRun,
)
    requires
        run.phase is ReadStopFlag,
        run.next(CaptureEvent::StopFlag(true), a),
        a.next(CaptureEvent::Completed, b),
        b.next(CaptureEvent::Completed, c),
        run.source.signals() ==> c.next(CaptureEvent::Completed, d),
        !run.source.signals() ==> d == c,
    ensures
        a.wanted() == CaptureAction::StopStream,
        b.wanted() == CaptureAction::FinalizeWriter,
        run.source.signals() ==> c.wanted() == CaptureAction::CloseEvent,
        d.phase == CapturePhase::Finished(Ok::<CaptureStats, WasapiError>(run.stats())),
{
}

// ---------------------------------------------------------------------------
// What is asked for, and what each outcome leads to
// ---------------------------------------------------------------------------
/// A recording first asks for its client.
pub proof fn law_first_call(source: CaptureSource)
    ensures
        (CaptureRun { source, phase: CapturePhase::Activate, format: None, frames: 0 }).wanted()
            == CaptureAction::Activate,
{
}

/// A packet that is there is fetched, for every source and however much has been
/// written; only where there is none the stop flag is looked at again.
pub proof fn law_every_packet_is_fetched(run: CaptureRun, n: u32, r: CaptureRun)
    requires
        run.wanted() == CaptureAction::NextPacketSize,
        run.next(CaptureEvent::PacketSize(n), r),
    ensures
        r.wanted() == CaptureAction::GetBuffer <==> n > 0,
        r.wanted() == CaptureAction::ReadStopFlag <==> n == 0,
{
}

/// Every frame of a fetched buffer is written, as silence exactly where the
/// second bit of the flags is set. An empty buffer is only released.
pub proof fn law_every_frame_is_written(run: CaptureRun, frames: u32, flags: u32, r: CaptureRun)
    requires
        run.wf(),
        run.wanted() == CaptureAction::GetBuffer,
        run.next(CaptureEvent::Buffer { frames, flags }, r),
    ensures
        frames > 0 ==> {
            &&& r.wanted() matches CaptureAction::WriteFrames { format, frames: n, silent }
            &&& Some(format) == run.format
            &&& n == frames
            &&& silent == ((flags / 2) % 2 == 1)
        },
        frames == 0 ==> r.wanted() == (CaptureAction::ReleaseBuffer { frames: 0 }),
{
    assert((flags & 2u32 != 0) == ((flags / 2) % 2 == 1)) by (bit_vector);
}

/// A recording goes on until the stop flag is set: it is told to stop exactly by
/// that flag, and else it waits for data. A signalling source waits for its event
/// for half a second, a polled one pauses for ten milliseconds.
pub proof fn law_only_the_stop_flag_stops(run: CaptureRun, stop: bool, r: CaptureRun)
    requires
        run.wanted() == CaptureAction::ReadStopFlag,
        run.next(CaptureEvent::StopFlag(stop), r),
    ensures
        stop <==> r.wanted() == CaptureAction::StopStream,
        !stop && run.source is SystemLoopback <==> r.wanted() == (CaptureAction::Sleep {
            millis: 10,
        }),
        !stop && !(run.source is SystemLoopback) <==> r.wanted() == (CaptureAction::WaitForEvent {
            millis: 500,
        }),
{
}

/// Data is looked for after every pause and after every signal; a wait without a
/// signal leads back to the stop flag.
pub proof fn law_a_signal_means_data(run: CaptureRun, waited: u32, event: CaptureEvent, r: CaptureRun)
    requires
        run.next(event, r),
        run.wanted() is Sleep && event is Completed || run.wanted() is WaitForEvent && event
            == CaptureEvent::Waited(waited),
    ensures
        run.wanted() is Sleep ==> r.wanted() == CaptureAction::NextPacketSize,
        run.wanted() is WaitForEvent ==> (waited == 0 <==> r.wanted()
            == CaptureAction::NextPacketSize),
        run.wanted() is WaitForEvent ==> (waited != 0 <==> r.wanted()
            == CaptureAction::ReadStopFlag),
{
}

/// The calls of a recording come in one order: event, stream, service, file,
/// start; then each written buffer is released before the next packet is asked
/// for; and at the end stop, file, event. Events are for signalling sources only.
pub proof fn law_order_of_calls(run: CaptureRun, r: CaptureRun)
    requires
        run.wf(),
        run.expects(CaptureEvent::Completed),
        run.next(CaptureEvent::Completed, r),
    ensures
        match run.wanted() {
            CaptureAction::CreateEvent => r.wanted() == (CaptureAction::Initialize {
                flags: match run.source {
                    CaptureSource::Mic { .. } => 262_144u32,
                    CaptureSource::SystemLoopback { .. } => 131_072u32,
                    CaptureSource::PerProcess { .. } => 393_216u32,
                },
                buffer_duration: 2_000_000,
            }),
            CaptureAction::Initialize { .. } => r.wanted() == if run.source is SystemLoopback {
                CaptureAction::OpenService
            } else {
                CaptureAction::BindEvent
            },
            CaptureAction::BindEvent => r.wanted() == CaptureAction::OpenService,
            CaptureAction::OpenService => {
                &&& r.wanted() matches CaptureAction::CreateWriter(spec)
                &&& spec.channels == run.format->0.channels
                &&& spec.sample_rate == run.format->0.sample_rate
                &&& run.format->0.kind is Float32 ==> spec.bits_per_sample == 32
                    && spec.sample_format is Float
                &&& run.format->0.kind is Int16 ==> spec.bits_per_sample == 16
                    && spec.sample_format is Int
            },
            CaptureAction::CreateWriter(_) => r.wanted() == CaptureAction::StartStream,
            CaptureAction::StartStream => r.wanted() == CaptureAction::ReadStopFlag,
            CaptureAction::Sleep { .. } => r.wanted() == CaptureAction::NextPacketSize,
            CaptureAction::WriteFrames { frames, .. } => r.wanted()
                == (CaptureAction::ReleaseBuffer { frames }),
            CaptureAction::ReleaseBuffer { .. } => r.wanted() == CaptureAction::NextPacketSize,
            CaptureAction::StopStream => r.wanted() == CaptureAction::FinalizeWriter,
            CaptureAction::FinalizeWriter => r.wanted() == if run.source is SystemLoopback {
                CaptureAction::Return
            } else {
                CaptureAction::CloseEvent
            },
            CaptureAction::CloseEvent => r.wanted() == CaptureAction::Return,
            _ => false,
        },
{
}

/// An activated client is recorded where its format is that of 32-bit floats or
/// 16-bit integers, by the tag or by the sub-format; else the recording ends.
pub proof fn law_activation_decides_the_format(run: CaptureRun, f: WaveFormat, r: CaptureRun)
    requires
        run.next(CaptureEvent::Activated(f), r),
    ensures
        ({
            let extended = f.format_tag == 0xFFFE && f.cb_size >= 22;
            let float = f.bits_per_sample == 32 && (f.format_tag == 3 || (extended && f.sub_format
                == 0x0000_0003_0000_0010_8000_00aa_0038_9b71));
            let int16 = f.bits_per_sample == 16 && (f.format_tag == 1 || (extended && f.sub_format
                == 0x0000_0001_0000_0010_8000_00aa_0038_9b71));
            &&& float || int16 ==> {
                &&& r.format matches Some(info)
                &&& info.channels == f.channels
                &&& info.sample_rate == f.samples_per_sec
                &&& info.kind is Float32 <==> float
                &&& run.source is SystemLoopback ==> r.wanted() == (CaptureAction::Initialize {
                    flags: 131_072,
                    buffer_duration: 2_000_000,
                })
                &&& !(run.source is SystemLoopback) ==> r.wanted() == CaptureAction::CreateEvent
            }
            &&& !float && !int16 ==> {
                &&& r.wanted() == CaptureAction::Return
                &&& r.phase matches CapturePhase::Finished(
                    Err(WasapiError::UnsupportedFormat(what)),
                )
                &&& what@ == crate::format::refusal_text(f)
            }
        }),
{
}

/// A recording keeps its source, keeps its format once it is known, and counts
/// exactly the frames that were written.
pub proof fn law_frames_are_counted_once(run: CaptureRun, event: CaptureEvent, r: CaptureRun)
    requires
        run.wf(),
        run.expects(event),
        run.next(event, r),
    ensures
        r.source == run.source,
        run.format is Some && !(event is Activated) ==> r.format == run.format,
        run.wanted() matches CaptureAction::WriteFrames { frames, .. } ==> event is Completed
            ==> r.frames == run.frames + frames,
        !(run.wanted() is WriteFrames && event is Completed) ==> r.frames == run.frames,
{
}

/// A recording that returns after its last call reports its frames and the
/// channels and rate of its format.
pub proof fn law_success_is_reported(run: CaptureRun, r: CaptureRun)
    requires
        run.wf(),
        run.wanted() == CaptureAction::FinalizeWriter || run.wanted() == CaptureAction::CloseEvent,
        run.expects(CaptureEvent::Completed),
        run.next(CaptureEvent::Completed, r),
        r.wanted() == CaptureAction::Return,
    ensures
        r.phase matches CapturePhase::Finished(Ok(stats)) && stats.frames == run.frames
            && stats.channels == run.format->0.channels && stats.sample_rate
            == run.format->0.sample_rate,
{
}

/// Every outcome that a call can have is taken: a failure of any call that can
/// fail, whatever the error, and every value of a call that returns one.
pub proof fn law_outcomes_are_taken(
    run: CaptureRun,
    e: WasapiError,
    f: WaveFormat,
    n: u32,
    m: u32,
    stop: bool,
)
    ensures
        match run.wanted() {
            CaptureAction::Return => true,
            CaptureAction::ReadStopFlag => run.expects(CaptureEvent::StopFlag(stop)),
            CaptureAction::WaitForEvent { .. } => run.expects(CaptureEvent::Waited(n)),
            CaptureAction::Sleep { .. } => run.expects(CaptureEvent::Completed),
            CaptureAction::CloseEvent => run.expects(CaptureEvent::Completed),
            CaptureAction::Activate => run.expects(CaptureEvent::Activated(f)) && run.expects(
                CaptureEvent::Failed(e),
            ),
            CaptureAction::NextPacketSize => run.expects(CaptureEvent::PacketSize(n))
                && run.expects(CaptureEvent::Failed(e)),
            CaptureAction::GetBuffer => run.expects(CaptureEvent::Buffer { frames: n, flags: m })
                && run.expects(CaptureEvent::Failed(e)),
            CaptureAction::WriteFrames { frames, .. } => run.expects(CaptureEvent::Failed(e)) && (
            run.frames + frames <= 0xFFFF_FFFF_FFFF_FFFF ==> run.expects(CaptureEvent::Completed)),
            _ => run.expects(CaptureEvent::Completed) && run.expects(CaptureEvent::Failed(e)),
        },
{
}

/// Between activation and the end the format is known.
pub proof fn law_the_format_is_known(run: CaptureRun)
    ensures
        run.wf() <==> (!(run.phase is Activate) && !(run.phase is Finished)
            ==> run.format is Some),
{
}

} // verus!

//! Where a recording comes from, how its stream is set up, and the thread that
//! makes it.
use vstd::prelude::*;
use vstd::string::*;

use crate::error::WasapiError;
use crate::format::{pcm_format, WaveFormat};
use crate::text::joined;

verus! {

/// Where a recording comes from.
#[derive(Debug, Clone)]
pub enum CaptureSource {
    /// An input endpoint, such as a microphone.
    Mic { device_id: String },
    /// Everything that an output endpoint plays.
    SystemLoopback { device_id: String },
    /// What one process plays, together with its child processes. Windows cannot
    /// record a process without them, so that is refused at activation.
    PerProcess { pid: u32, include_tree: bool },
}

/// The size of a finished recording.
#[derive(Debug, Clone, Copy, PartialEq, Eq, Structural)]
pub struct CaptureStats {
    pub frames: u64,
    pub channels: u16,
    pub sample_rate: u32,
}

pub const STREAMFLAGS_LOOPBACK: u32 = 0x0002_0000;

pub const STREAMFLAGS_EVENTCALLBACK: u32 = 0x0004_0000;

pub const STREAMFLAGS_LOOPBACK_EVENTCALLBACK: u32 = 0x0006_0000;

pub const BUFFERFLAGS_SILENT: u32 = 0x2;

/// The shared buffer holds 200 ms, in units of 100 ns.
pub const BUFFER_DURATION: i64 = 2_000_000;

/// How long a wait for data lasts before the stop flag is read again.
pub const EVENT_WAIT_MS: u32 = 500;

/// The pause between two looks at an endpoint without events.
pub const LOOPBACK_POLL_MS: u32 = 10;

/// How long the activation of a process loopback may take.
pub const ACTIVATE_TIMEOUT_MS: u32 = 5_000;

/// What a wait returns when the event was signalled.
pub const WAIT_OBJECT_0: u32 = 0;

/// Records a process and its child processes.
pub const LOOPBACK_MODE_INCLUDE_TREE: i32 = 0;

/// Records everything but a process and its child processes.
pub const LOOPBACK_MODE_EXCLUDE_TREE: i32 = 1;

impl CaptureSource {
    /// The short name of the kind of source.
    pub open spec fn tag(self) -> Seq<char> {
        match self {
            CaptureSource::Mic { .. } => "mic"@,
            CaptureSource::SystemLoopback { .. } => "loopback"@,
            CaptureSource::PerProcess { .. } => "app"@,
        }
    }

    /// The short name of the kind of source.
    pub fn log_tag(&self) -> (s: &'static str)
        ensures
            s@ == self.tag(),
    {
        match self {
            CaptureSource::Mic { .. } => "mic",
            CaptureSource::SystemLoopback { .. } => "loopback",
            CaptureSource::PerProcess { .. } => "app",
        }
    }

    /// Whether the stream signals new data. An output endpoint does not do so
    /// reliably, so it is polled.
    pub open spec fn signals(self) -> bool {
        !(self is SystemLoopback)
    }

    /// Whether the stream signals new data.
    pub fn event_driven(&self) -> (b: bool)
        ensures
            b == self.signals(),
    {
        match self {
            CaptureSource::SystemLoopback { .. } => false,
            _ => true,
        }
    }

    /// The flags that the stream is initialized with.
    pub open spec fn flags(self) -> u32 {
        match self {
            CaptureSource::Mic { .. } => STREAMFLAGS_EVENTCALLBACK,
            CaptureSource::SystemLoopback { .. } => STREAMFLAGS_LOOPBACK,
            CaptureSource::PerProcess { .. } => STREAMFLAGS_LOOPBACK_EVENTCALLBACK,
        }
    }

    /// The flags that the stream is initialized with.
    pub fn stream_flags(&self) -> (flags: u32)
        ensures
            flags == self.flags(),
    {
        match self {
            CaptureSource::Mic { .. } => STREAMFLAGS_EVENTCALLBACK,
            CaptureSource::SystemLoopback { .. } => STREAMFLAGS_LOOPBACK,
            CaptureSource::PerProcess { .. } => STREAMFLAGS_LOOPBACK_EVENTCALLBACK,
        }
    }

    /// The name of the thread that records from this source.
    pub fn thread_name(&self) -> (s: String)
        ensures
            s@ == "wasapi-"@ + self.tag() + "-capture"@,
    {
        let mut s = joined("wasapi-", self.log_tag());
        s.append("-capture");
        s
    }
}

/// A stream is told to signal new data exactly when the recorder waits for such
/// signals.
pub proof fn law_flags_match_waiting(source: CaptureSource)
    ensures
        source.signals() <==> source.flags() & STREAMFLAGS_EVENTCALLBACK != 0,
        !(source is Mic) <==> source.flags() & STREAMFLAGS_LOOPBACK != 0,
{
    assert(0x0002_0000u32 & 0x0004_0000u32 == 0) by (bit_vector);
    assert(0x0004_0000u32 & 0x0004_0000u32 != 0) by (bit_vector);
    assert(0x0006_0000u32 & 0x0004_0000u32 != 0) by (bit_vector);
    assert(0x0002_0000u32 & 0x0002_0000u32 != 0) by (bit_vector);
    assert(0x0004_0000u32 & 0x0002_0000u32 == 0) by (bit_vector);
    assert(0x0006_0000u32 & 0x0002_0000u32 != 0) by (bit_vector);
}

/// The format that a client records in. An endpoint has its mix format; a single
/// process is always recorded as 48 kHz stereo PCM with 16 bits.
pub open spec fn chosen_format(
    source: CaptureSource,
    mix: Result<WaveFormat, WasapiError>,
) -> Result<WaveFormat, WasapiError> {
    if source is PerProcess {
        Ok(crate::format::plain_pcm(48_000, 2, 16))
    } else {
        mix
    }
}

/// The format that a client records in.
pub fn client_format(source: &CaptureSource, mix: Result<WaveFormat, WasapiError>) -> (r: Result<
    WaveFormat,
    WasapiError,
>)
    ensures
        r == chosen_format(*source, mix),
{
    match source {
        CaptureSource::PerProcess { .. } => Ok(pcm_format(48_000, 2, 16)),
        _ => mix,
    }
}

/// How the audio client of a source is obtained.
#[derive(Debug, PartialEq, Eq)]
pub enum ActivationRoute {
    /// From the endpoint with this id.
    Endpoint(String),
    /// From the virtual device that plays what a process plays.
    ProcessLoopback { pid: u32, include_tree: bool },
}

/// The format of a single process does not depend on its mix format, and it can
/// always be recorded.
pub proof fn law_process_format_is_fixed(
    source: CaptureSource,
    mix: Result<WaveFormat, WasapiError>,
    other: Result<WaveFormat, WasapiError>,
)
    requires
        source is PerProcess,
    ensures
        chosen_format(source, mix) == chosen_format(source, other),
        chosen_format(source, mix) matches Ok(f) && crate::format::pcm_kind(f) == Some(
            crate::format::PcmKind::Int16,
        ) && f.samples_per_sec == 48_000 && f.channels == 2,
{
}

/// How the audio client of a source is obtained.
pub open spec fn route_of(source: CaptureSource, r: ActivationRoute) -> bool {
    match source {
        CaptureSource::Mic { device_id } => r == ActivationRoute::Endpoint(device_id),
        CaptureSource::SystemLoopback { device_id } => r == ActivationRoute::Endpoint(device_id),
        CaptureSource::PerProcess { pid, include_tree } => r == (ActivationRoute::ProcessLoopback {
            pid,
            include_tree,
        }),
    }
}

/// How the audio client of a source is obtained.
pub fn activation_route(source: &CaptureSource) -> (r: ActivationRoute)
    ensures
        route_of(*source, r),
{
    match source {
        CaptureSource::Mic { device_id } => ActivationRoute::Endpoint(device_id.clone()),
        CaptureSource::SystemLoopback { device_id } => ActivationRoute::Endpoint(
            device_id.clone(),
        ),
        CaptureSource::PerProcess { pid, include_tree } => ActivationRoute::ProcessLoopback {
            pid: *pid,
            include_tree: *include_tree,
        },
    }
}

// ---------------------------------------------------------------------------
// A recording and its thread
// ---------------------------------------------------------------------------
/// A recording on its own thread. `H` stands for the thread: what can be told to
/// stop and waited for.
#[derive(Debug)]
pub struct WasapiCapture<H> {
    pub join: Option<H>,
    pub output_path: String,
}

impl<H> WasapiCapture<H> {
    /// The recording that a thread makes to a file.
    pub fn start(thread: H, output_path: String) -> (c: Self)
        ensures
            c.join == Some(thread),
            c.output_path == output_path,
    {
        WasapiCapture { join: Some(thread), output_path }
    }

    /// The file that is recorded to.
    pub fn output_path(&self) -> (s: &str)
        ensures
            s@ == self.output_path@,
    {
        self.output_path.as_str()
    }

    /// Hands out the thread, to be stopped and waited for. This can be done once.
    pub fn stop(self) -> (thread: H)
        requires
            self.join is Some,
        ensures
            self.join == Some(thread),
    {
        self.join.unwrap()
    }

    /// Hands out the thread where it has finished by itself. This is done once.
    pub fn try_take_result(&mut self, finished: bool) -> (r: Option<H>)
        ensures
            taken(*old(self), finished, r, *final(self)),
    {
        if finished {
            self.join.take()
        } else {
            None
        }
    }
}

/// What a recording comes to whose thread returned `returned`, or ended by a panic.
pub open spec fn outcome_of(returned: Option<Result<CaptureStats, WasapiError>>) -> Result<
    CaptureStats,
    WasapiError,
> {
    match returned {
        Some(result) => result,
        None => Err(WasapiError::ThreadPanic),
    }
}

/// What a recording comes to: what its thread returned, or an error where the
/// thread ended by a panic.
pub fn capture_outcome(returned: Option<Result<CaptureStats, WasapiError>>) -> (r: Result<
    CaptureStats,
    WasapiError,
>)
    ensures
        r == match returned {
            Some(result) => result,
            None => Err(WasapiError::ThreadPanic),
        },
        r == outcome_of(returned),
{
    match returned {
        Some(result) => result,
        None => Err(WasapiError::ThreadPanic),
    }
}

/// Whether asking `before` for its thread hands out `r` and leaves `after`.
pub open spec fn taken<H>(
    before: WasapiCapture<H>,
    finished: bool,
    r: Option<H>,
    after: WasapiCapture<H>,
) -> bool {
    &&& after.output_path == before.output_path
    &&& finished ==> r == before.join && after.join is None
    &&& !finished ==> r is None && after.join == before.join
}

/// A thread is handed out at most once.
pub proof fn law_thread_is_taken_once<H>(
    a: WasapiCapture<H>,
    first: bool,
    r: Option<H>,
    b: WasapiCapture<H>,
    second: bool,
    q: Option<H>,
    c: WasapiCapture<H>,
)
    requires
        taken(a, first, r, b),
        r is Some,
        taken(b, second, q, c),
    ensures
        q is None,
{
}

/// The short names of the sources.
pub proof fn law_source_names(source: CaptureSource)
    ensures
        source is Mic ==> source.tag() == "mic"@,
        source is SystemLoopback ==> source.tag() == "loopback"@,
        source is PerProcess ==> source.tag() == "app"@,
{
}

/// An endpoint is recorded in its mix format, and fails where it has none.
pub proof fn law_endpoint_format_is_the_mix(
    source: CaptureSource,
    mix: Result<WaveFormat, WasapiError>,
)
    requires
        source is Mic || source is SystemLoopback,
    ensures
        chosen_format(source, mix) == mix,
{
}

/// All fields of the format that a single process is recorded in.
pub proof fn law_process_format_fields(source: CaptureSource, mix: Result<WaveFormat, WasapiError>)
    requires
        source is PerProcess,
    ensures
        chosen_format(source, mix) matches Ok(f) && f.format_tag == 1 && f.channels == 2
            && f.samples_per_sec == 48_000 && f.avg_bytes_per_sec == 192_000 && f.block_align == 4
            && f.bits_per_sample == 16 && f.cb_size == 0,
{
}

/// A client is obtained from the endpoint of the source, or for its process.
pub proof fn law_route_names_the_source(source: CaptureSource, route: ActivationRoute)
    requires
        route_of(source, route),
    ensures
        match route {
            ActivationRoute::Endpoint(id) => source == (CaptureSource::Mic { device_id: id })
                || source == (CaptureSource::SystemLoopback { device_id: id }),
            ActivationRoute::ProcessLoopback { pid, include_tree } => source
                == (CaptureSource::PerProcess { pid, include_tree }),
        },
{
}

/// A thread is handed out exactly where it has finished, and it is the thread of
/// the recording.
pub proof fn law_a_finished_thread_is_taken<H>(
    before: WasapiCapture<H>,
    finished: bool,
    r: Option<H>,
    after: WasapiCapture<H>,
)
    requires
        taken(before, finished, r, after),
    ensures
        finished ==> r == before.join && after.join is None,
        !finished ==> r is None && after.join == before.join,
        after.output_path == before.output_path,
{
}

/// What the thread returned is what the recording comes to; only a thread that
/// returned nothing has panicked.
pub proof fn law_outcome_of_a_thread(result: Result<CaptureStats, WasapiError>)
    ensures
        outcome_of(Some(result)) == result,
        outcome_of(None) is Err,
        outcome_of(None)->Err_0 is ThreadPanic,
{
}

/// Windows takes zero for a process with its child processes and one for all but
/// them.
pub proof fn law_loopback_modes()
    ensures
        LOOPBACK_MODE_INCLUDE_TREE == 0,
        LOOPBACK_MODE_EXCLUDE_TREE == 1,
{
}

} // verus!

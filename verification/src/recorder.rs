//! The state of the recorder window and what the user can do with it.
use vstd::prelude::*;
use vstd::string::*;

use crate::capture::{CaptureSource, CaptureStats, WasapiCapture};
use crate::config::AppConfig;
use crate::devices::{default_choice, EndpointDevice};
use crate::error::WasapiError;
use crate::naming::{default_output_path, generate_output_filename, LocalTime, NamingMode};
use crate::sessions::AudioSession;
use crate::system::{os_version_string, supports_process_loopback, OsVersion};
use crate::text::{joined, push_decimal, push_padded, trimmed};

verus! {

/// The kinds of sources that the user can choose from.
#[derive(Debug, Clone, Copy, PartialEq, Eq, Structural)]
pub enum SourceKind {
    Mic,
    SystemLoopback,
    PerProcess,
}

impl SourceKind {
    /// What file names of this source start with.
    pub open spec fn tag(self) -> Seq<char> {
        match self {
            SourceKind::Mic => "mic"@,
            SourceKind::SystemLoopback => "loopback"@,
            SourceKind::PerProcess => "app"@,
        }
    }

    /// What file names of this source start with.
    pub fn prefix(self) -> (s: &'static str)
        ensures
            s@ == self.tag(),
    {
        match self {
            SourceKind::Mic => "mic",
            SourceKind::SystemLoopback => "loopback",
            SourceKind::PerProcess => "app",
        }
    }
}

/// What the recorder is doing.
#[derive(Debug)]
pub enum RecordingState<H> {
    Idle,
    /// Recording since `started_at`, in milliseconds of the clock of the program.
    Active { capture: WasapiCapture<H>, started_at: u64 },
    /// The last recording is over.
    LastResult { path: String, outcome: Result<CaptureStats, String> },
}

/// A recording to be started.
#[derive(Debug)]
pub struct StartOrder {
    pub source: CaptureSource,
    pub path: String,
}

/// The state of the recorder window. `H` stands for a recording thread.
pub struct RecorderApp<H> {
    pub os_version: String,
    pub supports_per_process: bool,
    pub input_devices: Result<Vec<EndpointDevice>, String>,
    pub output_devices: Result<Vec<EndpointDevice>, String>,
    pub sessions: Result<Vec<AudioSession>, String>,
    pub config: AppConfig,
    pub show_naming_window: bool,
    pub show_dsp_window: bool,
    pub source_kind: SourceKind,
    pub selected_input_id: Option<String>,
    pub selected_output_id: Option<String>,
    pub selected_pid: Option<u32>,
    pub output_path_buf: String,
    pub recording: RecordingState<H>,
}

/// Whether `shown` is a list as the window keeps it: an error is kept as its
/// message.
pub open spec fn kept<T>(r: Result<Vec<T>, WasapiError>, shown: Result<Vec<T>, String>) -> bool {
    match r {
        Ok(list) => shown == Ok::<Vec<T>, String>(list),
        Err(e) => shown matches Err(text) && text@ == e.text(),
    }
}

fn keep<T>(r: Result<Vec<T>, WasapiError>) -> (shown: Result<Vec<T>, String>)
    ensures
        kept(r, shown),
{
    match r {
        Ok(list) => Ok(list),
        Err(e) => Err(e.message()),
    }
}

/// Whether `id` is the endpoint that is selected at first in `devices`.
pub open spec fn initial_choice(
    devices: Result<Vec<EndpointDevice>, String>,
    id: Option<String>,
) -> bool {
    match devices {
        Ok(list) => match crate::devices::first_choice(list@) {
            Some(i) => id == Some(list@[i].id),
            None => id is None,
        },
        Err(_) => id is None,
    }
}

fn choose_device(devices: &Result<Vec<EndpointDevice>, String>) -> (id: Option<String>)
    ensures
        initial_choice(*devices, id),
{
    match devices {
        Ok(list) => default_choice(list),
        Err(_) => None,
    }
}

/// What a finished recording is remembered as: an error by its message.
pub open spec fn remembered(
    r: Result<CaptureStats, WasapiError>,
    outcome: Result<CaptureStats, String>,
) -> bool {
    match r {
        Ok(stats) => outcome == Ok::<CaptureStats, String>(stats),
        Err(e) => outcome matches Err(text) && text@ == e.text(),
    }
}

fn remember(r: Result<CaptureStats, WasapiError>) -> (outcome: Result<CaptureStats, String>)
    ensures
        remembered(r, outcome),
{
    match r {
        Ok(stats) => Ok(stats),
        Err(e) => Err(e.message()),
    }
}

/// Whether starting `before` at the time `now` orders `order` and leaves `after`.
pub open spec fn started<H>(
    before: RecorderApp<H>,
    now: LocalTime,
    order: StartOrder,
    after: RecorderApp<H>,
) -> bool {
    let rule = before.config.rule();
    let dir = crate::text::trim(before.output_path_buf@);
    let numbered = rule.mode is AutoIncrement;
    let number = if numbered {
        Some((rule.current_sequence + 1) as usize)
    } else {
        None
    };
    let new_rule = after.config.rule();
    &&& before.pending() == Some(order.source)
    &&& order.path@ == crate::winpath::join_of(
        dir,
        crate::naming::file_name_for(before.source_kind.tag(), rule.mode, number, now),
    )
    &&& after == (RecorderApp { config: after.config, ..before })
    &&& after.config.selected_rule_idx == before.config.selected_rule_idx
    &&& after.config.naming_rules@ == before.config.naming_rules@.update(
        before.config.selected_rule_idx as int,
        new_rule,
    )
    &&& new_rule.name == rule.name
    &&& new_rule.mode == rule.mode
    &&& new_rule.current_sequence == rule.current_sequence + if numbered {
        1int
    } else {
        0
    }
    &&& after.config.last_dir matches Some(last) && last@ == dir
    &&& after.config.dsp_settings == before.config.dsp_settings
}

/// Whether `app` is the window at the start of the program.
pub open spec fn fresh<H>(
    version: OsVersion,
    config: AppConfig,
    inputs: Result<Vec<EndpointDevice>, WasapiError>,
    outputs: Result<Vec<EndpointDevice>, WasapiError>,
    sessions: Result<Vec<AudioSession>, WasapiError>,
    app: RecorderApp<H>,
) -> bool {
    &&& app.os_version@ == version.words()
    &&& app.supports_per_process == version.records_processes()
    &&& kept(inputs, app.input_devices)
    &&& kept(outputs, app.output_devices)
    &&& kept(sessions, app.sessions)
    &&& app.config == config
    &&& !app.show_naming_window
    &&& !app.show_dsp_window
    &&& app.source_kind == SourceKind::Mic
    &&& initial_choice(app.input_devices, app.selected_input_id)
    &&& initial_choice(app.output_devices, app.selected_output_id)
    &&& app.selected_pid is None
    &&& app.output_path_buf@ == match config.last_dir {
        Some(dir) => dir@,
        None => "."@,
    }
    &&& app.recording is Idle
}

/// Whether taking over new lists changes `before` to `after`.
pub open spec fn refreshed<H>(
    before: RecorderApp<H>,
    inputs: Result<Vec<EndpointDevice>, WasapiError>,
    outputs: Result<Vec<EndpointDevice>, WasapiError>,
    sessions: Result<Vec<AudioSession>, WasapiError>,
    after: RecorderApp<H>,
) -> bool {
    &&& kept(inputs, after.input_devices)
    &&& kept(outputs, after.output_devices)
    &&& kept(sessions, after.sessions)
    &&& after == (RecorderApp {
        input_devices: after.input_devices,
        output_devices: after.output_devices,
        sessions: after.sessions,
        ..before
    })
}

/// Whether choosing `kind` changes `before` to `after`.
pub open spec fn switched<H>(
    before: RecorderApp<H>,
    kind: SourceKind,
    compared_at: LocalTime,
    renamed_at: LocalTime,
    after: RecorderApp<H>,
) -> bool {
    let untouched = before.output_path_buf@ == crate::naming::stamped_name(
        before.source_kind.tag(),
        compared_at,
    );
    &&& after.output_path_buf@ == if kind != before.source_kind && untouched {
        crate::naming::stamped_name(kind.tag(), renamed_at)
    } else {
        before.output_path_buf@
    }
    &&& after == (RecorderApp {
        source_kind: kind,
        output_path_buf: after.output_path_buf,
        ..before
    })
}

/// Whether asking for the end of a recording changes `before` to `after`; `None`
/// where it goes on.
pub open spec fn polled<H>(
    before: RecorderApp<H>,
    result: Option<Result<CaptureStats, WasapiError>>,
    after: RecorderApp<H>,
) -> bool {
    match (before.recording, result) {
        (RecordingState::Active { capture, .. }, Some(r)) => stopped(
            before,
            capture.output_path,
            r,
            after,
        ),
        _ => after == before,
    }
}

/// Whether taking over the result of a recording to the file `path` changes
/// `before` to `after`.
pub open spec fn stopped<H>(
    before: RecorderApp<H>,
    path: String,
    result: Result<CaptureStats, WasapiError>,
    after: RecorderApp<H>,
) -> bool {
    &&& after.recording matches RecordingState::LastResult { path: p, outcome }
    &&& p == path
    &&& remembered(result, outcome)
    &&& after == (RecorderApp { recording: after.recording, ..before })
}

/// Whether ending the state of recording hands out `r` and changes `before` to
/// `after`.
pub open spec fn released<H>(
    before: RecorderApp<H>,
    r: Option<(String, H)>,
    after: RecorderApp<H>,
) -> bool {
    &&& after == (RecorderApp { recording: RecordingState::Idle, ..before })
    &&& match before.recording {
        RecordingState::Active { capture, .. } => r == Some((capture.output_path, capture.join->0)),
        _ => r is None,
    }
}

impl<H> RecorderApp<H> {
    /// Whether the user can choose this kind of source.
    pub open spec fn offered(self, kind: SourceKind) -> bool {
        kind is PerProcess ==> self.supports_per_process
    }

    /// Whether there is a source, and an output.
    pub open spec fn startable(self) -> bool {
        self.pending() is Some && crate::text::trim(self.output_path_buf@).len() > 0
    }

    /// The source that the present choices stand for, where they are complete.
    pub open spec fn pending(self) -> Option<CaptureSource> {
        match self.source_kind {
            SourceKind::Mic => match self.selected_input_id {
                Some(id) => Some(CaptureSource::Mic { device_id: id }),
                None => None,
            },
            SourceKind::SystemLoopback => match self.selected_output_id {
                Some(id) => Some(CaptureSource::SystemLoopback { device_id: id }),
                None => None,
            },
            SourceKind::PerProcess => match self.selected_pid {
                Some(pid) => Some(CaptureSource::PerProcess { pid, include_tree: true }),
                None => None,
            },
        }
    }

    /// Whether a recording under way still has its thread.
    pub open spec fn wf(self) -> bool {
        self.recording matches RecordingState::Active { capture, .. } ==> capture.join is Some
    }

    /// The window at the start of the program. The default endpoints are
    /// selected, and files go to the directory of the last recording.
    pub fn new(
        version: &OsVersion,
        config: AppConfig,
        inputs: Result<Vec<EndpointDevice>, WasapiError>,
        outputs: Result<Vec<EndpointDevice>, WasapiError>,
        sessions: Result<Vec<AudioSession>, WasapiError>,
    ) -> (app: Self)
        ensures
            app.os_version@ == version.words(),
            app.supports_per_process == version.records_processes(),
            kept(inputs, app.input_devices),
            kept(outputs, app.output_devices),
            kept(sessions, app.sessions),
            app.config == config,
            !app.show_naming_window,
            !app.show_dsp_window,
            app.source_kind == SourceKind::Mic,
            initial_choice(app.input_devices, app.selected_input_id),
            initial_choice(app.output_devices, app.selected_output_id),
            app.selected_pid is None,
            app.output_path_buf@ == match config.last_dir {
                Some(dir) => dir@,
                None => "."@,
            },
            app.recording is Idle,
            app.wf(),
            fresh(*version, config, inputs, outputs, sessions, app),
    {
        let output_path_buf = match &config.last_dir {
            Some(dir) => dir.clone(),
            None => ".".to_string(),
        };
        let input_devices = keep(inputs);
        let output_devices = keep(outputs);
        let selected_input_id = choose_device(&input_devices);
        let selected_output_id = choose_device(&output_devices);
        RecorderApp {
            os_version: os_version_string(version),
            supports_per_process: supports_process_loopback(version),
            input_devices,
            output_devices,
            sessions: keep(sessions),
            config,
            show_naming_window: false,
            show_dsp_window: false,
            source_kind: SourceKind::Mic,
            selected_input_id,
            selected_output_id,
            selected_pid: None,
            output_path_buf,
            recording: RecordingState::Idle,
        }
    }

    /// Takes over new lists. The choices stay.
    pub fn refresh(
        &mut self,
        inputs: Result<Vec<EndpointDevice>, WasapiError>,
        outputs: Result<Vec<EndpointDevice>, WasapiError>,
        sessions: Result<Vec<AudioSession>, WasapiError>,
    )
        ensures
            kept(inputs, final(self).input_devices),
            kept(outputs, final(self).output_devices),
            kept(sessions, final(self).sessions),
            *final(self) == (RecorderApp {
                input_devices: final(self).input_devices,
                output_devices: final(self).output_devices,
                sessions: final(self).sessions,
                ..*old(self)
            }),
            refreshed(*old(self), inputs, outputs, sessions, *final(self)),
    {
        self.input_devices = keep(inputs);
        self.output_devices = keep(outputs);
        self.sessions = keep(sessions);
    }

    /// Whether the user can choose this kind of source: a single process only
    /// where Windows can record it.
    pub fn offers(&self, kind: SourceKind) -> (b: bool)
        ensures
            b == (kind is PerProcess ==> self.supports_per_process),
            b == self.offered(kind),
    {
        match kind {
            SourceKind::PerProcess => self.supports_per_process,
            _ => true,
        }
    }

    /// Chooses a kind of source. Where the output is still the default name of
    /// the kind so far, it becomes the default name of the new kind. The clock is
    /// read for the comparison and again for the new name.
    pub fn switch_source(
        &mut self,
        kind: SourceKind,
        compared_at: &LocalTime,
        renamed_at: &LocalTime,
    )
        ensures
            final(self).output_path_buf@ == if kind != old(self).source_kind && old(
                self).output_path_buf@ == crate::naming::stamped_name(
                old(self).source_kind.tag(),
                *compared_at,
            ) {
                crate::naming::stamped_name(kind.tag(), *renamed_at)
            } else {
                old(self).output_path_buf@
            },
            *final(self) == (RecorderApp {
                source_kind: kind,
                output_path_buf: final(self).output_path_buf,
                ..*old(self)
            }),
            switched(*old(self), kind, *compared_at, *renamed_at, *final(self)),
    {
        let prev = self.source_kind;
        self.source_kind = kind;
        if prev != kind {
            let default_path = default_output_path(prev.prefix(), compared_at);
            if self.output_path_buf.eq(&default_path) {
                self.output_path_buf = default_output_path(kind.prefix(), renamed_at);
            }
        }
    }

    /// Sets the output back to the working directory.
    pub fn reset_path(&mut self)
        ensures
            final(self).output_path_buf@ == "."@,
            *final(self) == (RecorderApp {
                output_path_buf: final(self).output_path_buf,
                ..*old(self)
            }),
    {
        self.output_path_buf = ".".to_string();
    }

    /// The source that the present choices stand for, where they are complete.
    pub fn pending_source(&self) -> (r: Option<CaptureSource>)
        ensures
            r == self.pending(),
    {
        match self.source_kind {
            SourceKind::Mic => match &self.selected_input_id {
                Some(id) => Some(CaptureSource::Mic { device_id: id.clone() }),
                None => None,
            },
            SourceKind::SystemLoopback => match &self.selected_output_id {
                Some(id) => Some(CaptureSource::SystemLoopback { device_id: id.clone() }),
                None => None,
            },
            SourceKind::PerProcess => match self.selected_pid {
                Some(pid) => Some(CaptureSource::PerProcess { pid, include_tree: true }),
                None => None,
            },
        }
    }

    /// Whether nothing is being recorded, so that the choices can be changed.
    pub fn is_idle(&self) -> (b: bool)
        ensures
            b == !(self.recording is Active),
    {
        match &self.recording {
            RecordingState::Active { .. } => false,
            _ => true,
        }
    }

    /// Whether a recording can be started: there is a source, and an output.
    pub fn can_start(&self) -> (b: bool)
        ensures
            b == (self.pending() is Some && crate::text::trim(self.output_path_buf@).len() > 0),
            b == self.startable(),
    {
        let dir = trimmed(self.output_path_buf.as_str());
        self.pending_source().is_some() && dir.as_str().unicode_len() > 0
    }

    /// Whether a start is offered: nothing is being recorded, and a recording can be
    /// started.
    pub fn offers_start(&self) -> (b: bool)
        ensures
            b == (!(self.recording is Active) && self.pending() is Some && crate::text::trim(
                self.output_path_buf@,
            ).len() > 0),
            b == (self.startable() && !(self.recording is Active)),
    {
        self.is_idle() && self.can_start()
    }

    /// Orders a recording from the present source to the next file of the
    /// selected rule, and keeps the directory and the number of the file.
    pub fn start_recording(&mut self, now: &LocalTime) -> (r: Option<StartOrder>)
        requires
            old(self).config.wf(),
            old(self).config.rule().mode is AutoIncrement ==> old(
                self).config.rule().current_sequence < usize::MAX,
        ensures
            match r {
                Some(order) => started(*old(self), *now, order, *final(self)),
                None => old(self).pending() is None && *final(self) == *old(self),
            },
            final(self).config.wf(),
    {
        match self.pending_source() {
            None => None,
            Some(source) => {
                let dir = trimmed(self.output_path_buf.as_str());
                let idx = self.config.selected_rule_idx;
                let number: Option<usize> = match &self.config.naming_rules[idx].mode {
                    NamingMode::AutoIncrement { .. } => Some(
                        self.config.naming_rules[idx].current_sequence + 1,
                    ),
                    _ => None,
                };
                let path = generate_output_filename(
                    self.source_kind.prefix(),
                    &self.config.naming_rules[idx].mode,
                    dir.as_str(),
                    number,
                    now,
                );
                self.config.count_file();
                self.config.last_dir = Some(dir);
                Some(StartOrder { source, path })
            },
        }
    }

    /// Takes over a recording that has been started.
    pub fn recording_started(&mut self, capture: WasapiCapture<H>, started_at: u64)
        ensures
            *final(self) == (RecorderApp {
                recording: RecordingState::Active { capture, started_at },
                ..*old(self)
            }),
    {
        self.recording = RecordingState::Active { capture, started_at };
    }

    /// Takes over the result of a recording that has ended by itself; `None`
    /// where it goes on.
    pub fn poll_recording(&mut self, result: Option<Result<CaptureStats, WasapiError>>)
        ensures
            match (old(self).recording, result) {
                (RecordingState::Active { capture, .. }, Some(r)) => {
                    &&& final(self).recording matches RecordingState::LastResult { path, outcome }
                    &&& path == capture.output_path
                    &&& remembered(r, outcome)
                    &&& *final(self) == (RecorderApp {
                        recording: final(self).recording,
                        ..*old(self)
                    })
                },
                _ => *final(self) == *old(self),
            },
            polled(*old(self), result, *final(self)),
    {
        let path = match &self.recording {
            RecordingState::Active { capture, .. } => capture.output_path.clone(),
            _ => {
                return ;
            },
        };
        match result {
            Some(r) => {
                self.recording = RecordingState::LastResult { path, outcome: remember(r) };
            },
            None => {},
        }
    }

    /// Ends the state of recording and hands out the file and the thread, to be
    /// stopped and waited for.
    pub fn take_capture(&mut self) -> (r: Option<(String, H)>)
        requires
            old(self).wf(),
        ensures
            *final(self) == (RecorderApp { recording: RecordingState::Idle, ..*old(self) }),
            match old(self).recording {
                RecordingState::Active { capture, .. } => r == Some(
                    (capture.output_path, capture.join->0),
                ),
                _ => r is None,
            },
            released(*old(self), r, *final(self)),
    {
        let mut recording = RecordingState::Idle;
        std::mem::swap(&mut self.recording, &mut recording);
        match recording {
            RecordingState::Active { capture, .. } => {
                let path = capture.output_path.clone();
                Some((path, capture.stop()))
            },
            _ => None,
        }
    }

    /// Takes over the result of a recording that has been stopped.
    pub fn recording_stopped(&mut self, path: String, result: Result<CaptureStats, WasapiError>)
        ensures
            final(self).recording matches RecordingState::LastResult { path: p, outcome } && p
                == path && remembered(result, outcome),
            *final(self) == (RecorderApp { recording: final(self).recording, ..*old(self) }),
            stopped(*old(self), path, result, *final(self)),
    {
        self.recording = RecordingState::LastResult { path, outcome: remember(result) };
    }

    /// Opens or closes the window of the sound settings.
    pub fn toggle_dsp_window(&mut self)
        ensures
            *final(self) == (RecorderApp {
                show_dsp_window: !old(self).show_dsp_window,
                ..*old(self)
            }),
    {
        self.show_dsp_window = !self.show_dsp_window;
    }
}

// ---------------------------------------------------------------------------
// Status
// ---------------------------------------------------------------------------
/// The line below the buttons.
#[derive(Debug, PartialEq, Eq)]
pub enum StatusLine {
    Ready,
    Recording(String),
    Saved(String),
    Failed(String),
}

/// Whether `line` is the line below the buttons at the time `now`.
pub open spec fn shows_status<H>(app: RecorderApp<H>, now: u64, line: StatusLine) -> bool {
    match app.recording {
        RecordingState::Idle => line is Ready,
        RecordingState::Active { started_at, .. } => {
            &&& line matches StatusLine::Recording(text)
            &&& text@ == timer_text(
                if now >= started_at {
                    (now - started_at) as u64
                } else {
                    0
                },
            )
        },
        RecordingState::LastResult { path, outcome: Ok(stats) } => {
            &&& line matches StatusLine::Saved(text)
            &&& text@ == saved_text(path@, stats)
        },
        RecordingState::LastResult { outcome: Err(e), .. } => {
            &&& line matches StatusLine::Failed(text)
            &&& text@ == "录制失败: "@ + e@
        },
    }
}

/// What the header says of recording single programs.
pub open spec fn per_app_text(supported: bool) -> Seq<char> {
    if supported {
        "Per-App 捕获: 可用"@
    } else {
        "Per-App 捕获: 不可用 (需 Win10 build 20348+)"@
    }
}

/// The time that a recording has lasted: minutes, seconds and tenths.
pub open spec fn timer_text(elapsed_ms: u64) -> Seq<char> {
    let seconds = (elapsed_ms / 1000) as nat;
    "● 正在录制  "@ + crate::text::padded(seconds / 60, 2) + ":"@ + crate::text::padded(
        seconds % 60,
        2,
    ) + "."@ + crate::text::decimal(((elapsed_ms % 1000) / 100) as nat)
}

/// What is said of a finished recording.
pub open spec fn saved_text(path: Seq<char>, stats: CaptureStats) -> Seq<char> {
    "✓ 已保存 "@ + path + " ("@ + crate::text::decimal(stats.sample_rate as nat) + " Hz / "@
        + crate::text::decimal(stats.channels as nat) + " ch / "@ + crate::text::decimal(
        stats.frames as nat,
    ) + " 帧)"@
}

fn timer_label(elapsed_ms: u64) -> (s: String)
    ensures
        s@ == timer_text(elapsed_ms),
{
    let seconds: u64 = elapsed_ms / 1000;
    let mut s = "● 正在录制  ".to_string();
    push_padded(&mut s, seconds / 60, 2);
    s.append(":");
    push_padded(&mut s, seconds % 60, 2);
    s.append(".");
    push_decimal(&mut s, (elapsed_ms % 1000) / 100);
    s
}

fn saved_label(path: &str, stats: &CaptureStats) -> (s: String)
    ensures
        s@ == saved_text(path@, *stats),
{
    let mut s = joined("✓ 已保存 ", path);
    s.append(" (");
    push_decimal(&mut s, stats.sample_rate as u64);
    s.append(" Hz / ");
    push_decimal(&mut s, stats.channels as u64);
    s.append(" ch / ");
    push_decimal(&mut s, stats.frames);
    s.append(" 帧)");
    s
}

impl<H> RecorderApp<H> {
    /// The line below the buttons, at the time `now` of the clock of the program.
    pub fn status(&self, now: u64) -> (line: StatusLine)
        ensures
            match self.recording {
                RecordingState::Idle => line is Ready,
                RecordingState::Active { started_at, .. } => line matches StatusLine::Recording(
                    text,
                ) && text@ == timer_text(
                    if now >= started_at {
                        (now - started_at) as u64
                    } else {
                        0
                    },
                ),
                RecordingState::LastResult { path, outcome } => match outcome {
                    Ok(stats) => line matches StatusLine::Saved(text) && text@ == saved_text(
                        path@,
                        stats,
                    ),
                    Err(e) => line matches StatusLine::Failed(text) && text@ == "录制失败: "@
                        + e@,
                },
            },
            shows_status(*self, now, line),
    {
        match &self.recording {
            RecordingState::Idle => StatusLine::Ready,
            RecordingState::Active { started_at, .. } => {
                let elapsed: u64 = if now >= *started_at {
                    now - *started_at
                } else {
                    0
                };
                StatusLine::Recording(timer_label(elapsed))
            },
            RecordingState::LastResult { path, outcome } => match outcome {
                Ok(stats) => StatusLine::Saved(saved_label(path.as_str(), stats)),
                Err(e) => StatusLine::Failed(joined("录制失败: ", e.as_str())),
            },
        }
    }

    /// What the header says of recording single programs.
    pub fn per_app_label(&self) -> (s: &'static str)
        ensures
            s@ == if self.supports_per_process {
                "Per-App 捕获: 可用"@
            } else {
                "Per-App 捕获: 不可用 (需 Win10 build 20348+)"@
            },
            s@ == per_app_text(self.supports_per_process),
    {
        if self.supports_per_process {
            "Per-App 捕获: 可用"
        } else {
            "Per-App 捕获: 不可用 (需 Win10 build 20348+)"
        }
    }
}

// ---------------------------------------------------------------------------
// Laws
// ---------------------------------------------------------------------------
/// With a numbering rule, the next recording to the same directory goes to
/// another file, whatever its source.
pub proof fn law_numbered_recordings_differ<H>(
    a: RecorderApp<H>,
    t: LocalTime,
    first: StartOrder,
    b: RecorderApp<H>,
    c: RecorderApp<H>,
    u: LocalTime,
    second: StartOrder,
    d: RecorderApp<H>,
)
    requires
        a.config.wf(),
        a.config.rule().mode is AutoIncrement,
        a.config.rule().current_sequence + 1 < usize::MAX,
        started(a, t, first, b),
        c.config == b.config,
        crate::text::trim(c.output_path_buf@) == crate::text::trim(a.output_path_buf@),
        started(c, u, second, d),
    ensures
        first.path@ != second.path@,
{
    let rule = a.config.rule();
    let dir = crate::text::trim(a.output_path_buf@);
    let m = (rule.current_sequence + 1) as usize;
    let n = (rule.current_sequence + 2) as usize;
    assert(c.config.rule().current_sequence == rule.current_sequence + 1);
    crate::naming::law_series_paths_differ(
        dir,
        a.source_kind.tag(),
        rule.mode,
        m,
        n,
        t,
        u,
    );
    assert(crate::naming::file_name_for(c.source_kind.tag(), rule.mode, Some(n), u)
        == crate::naming::file_name_for(a.source_kind.tag(), rule.mode, Some(n), u));
}

/// With the time rule, recordings of one kind of source to one directory that
/// start in different seconds go to different files.
pub proof fn law_timed_recordings_differ<H>(
    a: RecorderApp<H>,
    t: LocalTime,
    first: StartOrder,
    b: RecorderApp<H>,
    c: RecorderApp<H>,
    u: LocalTime,
    second: StartOrder,
    d: RecorderApp<H>,
)
    requires
        a.config.wf(),
        a.config.rule().mode is Timestamped,
        crate::naming::on_the_clock(t),
        crate::naming::on_the_clock(u),
        t != u,
        started(a, t, first, b),
        c.config == b.config,
        c.source_kind == a.source_kind,
        crate::text::trim(c.output_path_buf@) == crate::text::trim(a.output_path_buf@),
        started(c, u, second, d),
    ensures
        first.path@ != second.path@,
{
    let tag = a.source_kind.tag();
    let x = crate::naming::stamped_name(tag, t);
    let y = crate::naming::stamped_name(tag, u);
    reveal_strlit("mic");
    reveal_strlit("loopback");
    reveal_strlit("app");
    crate::naming::law_stamped_names_differ(tag, t, u);
    assert(crate::winpath::is_plain(tag));
    crate::naming::lemma_stamped_name_plain(tag, t);
    crate::naming::lemma_stamped_name_plain(tag, u);
    crate::winpath::lemma_join_injective(
        crate::text::trim(a.output_path_buf@),
        Seq::empty(),
        x,
        y,
    );
    assert(Seq::<char>::empty() + x == x);
    assert(Seq::<char>::empty() + y == y);
}

/// The source that is recorded is of the kind that was chosen: file names and
/// log entries start with the same word.
pub proof fn law_source_matches_kind<H>(app: RecorderApp<H>, source: CaptureSource)
    requires
        app.pending() == Some(source),
    ensures
        source.tag() == app.source_kind.tag(),
{
}

/// The source names what was selected for its kind, and nothing that was selected
/// for another kind: the input for a microphone, the output for the system
/// loopback, the process for a program, always with its child processes.
pub proof fn law_source_is_the_selection<H>(app: RecorderApp<H>)
    ensures
        app.pending() matches Some(CaptureSource::Mic { device_id }) ==> app.source_kind is Mic
            && app.selected_input_id == Some(device_id),
        app.pending() matches Some(CaptureSource::SystemLoopback { device_id })
            ==> app.source_kind is SystemLoopback && app.selected_output_id == Some(device_id),
        app.pending() matches Some(CaptureSource::PerProcess { pid, include_tree })
            ==> app.source_kind is PerProcess && app.selected_pid == Some(pid) && include_tree,
        app.pending() is None <==> match app.source_kind {
            SourceKind::Mic => app.selected_input_id is None,
            SourceKind::SystemLoopback => app.selected_output_id is None,
            SourceKind::PerProcess => app.selected_pid is None,
        },
{
}

/// Only the selection for the chosen kind matters for the source.
pub proof fn law_other_selections_do_not_matter<H>(a: RecorderApp<H>, b: RecorderApp<H>)
    requires
        a.source_kind == b.source_kind,
        a.source_kind is Mic ==> a.selected_input_id == b.selected_input_id,
        a.source_kind is SystemLoopback ==> a.selected_output_id == b.selected_output_id,
        a.source_kind is PerProcess ==> a.selected_pid == b.selected_pid,
    ensures
        a.pending() == b.pending(),
{
}

/// What file names of the kinds of sources start with.
pub proof fn law_prefixes(kind: SourceKind)
    ensures
        kind is Mic ==> kind.tag() == "mic"@,
        kind is SystemLoopback ==> kind.tag() == "loopback"@,
        kind is PerProcess ==> kind.tag() == "app"@,
{
}

/// A list is kept as it is, an error as its message.
pub proof fn law_kept_lists<T>(r: Result<Vec<T>, WasapiError>, shown: Result<Vec<T>, String>)
    requires
        kept(r, shown),
    ensures
        r is Ok ==> shown is Ok && shown->Ok_0 == r->Ok_0,
        r is Err ==> shown is Err && shown->Err_0@ == r->Err_0.text(),
{
}

/// The result of a recording is remembered as it is, an error as its message.
pub proof fn law_remembered_results(
    r: Result<CaptureStats, WasapiError>,
    outcome: Result<CaptureStats, String>,
)
    requires
        remembered(r, outcome),
    ensures
        r is Ok ==> outcome is Ok && outcome->Ok_0 == r->Ok_0,
        r is Err ==> outcome is Err && outcome->Err_0@ == r->Err_0.text(),
{
}

/// At first the first default endpoint is selected, or else the first of all;
/// none where the list is empty or could not be had.
pub proof fn law_initial_choice(
    devices: Result<Vec<EndpointDevice>, String>,
    id: Option<String>,
    k: int,
)
    requires
        initial_choice(devices, id),
    ensures
        devices is Err ==> id is None,
        devices matches Ok(list) ==> {
            &&& list@.len() == 0 ==> id is None
            &&& 0 <= k < list@.len() && list@[k].is_default && (forall|j: int|
                0 <= j < k ==> !(#[trigger] list@[j]).is_default) ==> id == Some(list@[k].id)
            &&& list@.len() > 0 && (forall|j: int|
                0 <= j < list@.len() ==> !(#[trigger] list@[j]).is_default) ==> id == Some(
                list@[0].id,
            )
        },
{
    if devices is Ok {
        crate::devices::law_first_choice(devices->Ok_0@, k);
    }
}

/// What starting a recording orders and changes: the pending source, to a file
/// that the selected rule names, in the directory of the output without white
/// space around it. The directory is kept; the selected rule counts one more file
/// exactly where it numbers its files; nothing else changes.
pub proof fn law_start<H>(
    before: RecorderApp<H>,
    now: LocalTime,
    order: StartOrder,
    after: RecorderApp<H>,
    i: int,
)
    requires
        before.config.wf(),
        started(before, now, order, after),
        before.config.rule().current_sequence < usize::MAX,
    ensures
        ({
            let idx = before.config.selected_rule_idx as int;
            let rules = before.config.naming_rules@;
            let rule = rules[idx];
            let dir = crate::text::trim(before.output_path_buf@);
            let stem = match rule.mode {
                NamingMode::Timestamped => before.source_kind.tag() + "-"@ + crate::naming::stamp(
                    now,
                ),
                NamingMode::Fixed(name) => name@,
                NamingMode::AutoIncrement { prefix, sequence } => prefix@ + crate::naming::label(
                    sequence,
                    rule.current_sequence as nat + 1,
                ),
            };
            &&& Some(order.source) == before.pending()
            &&& order.path@ == crate::winpath::join_of(dir, stem + ".wav"@)
            &&& after.config.last_dir is Some && after.config.last_dir->0@ == dir
            &&& after.config.naming_rules@.len() == rules.len()
            &&& 0 <= i < rules.len() && i != idx ==> after.config.naming_rules@[i] == rules[i]
            &&& after.config.naming_rules@[idx].name == rule.name
            &&& after.config.naming_rules@[idx].mode == rule.mode
            &&& rule.mode is AutoIncrement ==> after.config.naming_rules@[idx].current_sequence
                == rule.current_sequence + 1
            &&& !(rule.mode is AutoIncrement) ==> after.config.naming_rules@[idx].current_sequence
                == rule.current_sequence
            &&& after.config.selected_rule_idx == before.config.selected_rule_idx
            &&& after.config.dsp_settings == before.config.dsp_settings
            &&& after.source_kind == before.source_kind
            &&& after.output_path_buf == before.output_path_buf
            &&& after.recording == before.recording
            &&& after.selected_input_id == before.selected_input_id
            &&& after.selected_output_id == before.selected_output_id
            &&& after.selected_pid == before.selected_pid
            &&& after.os_version == before.os_version
            &&& after.supports_per_process == before.supports_per_process
            &&& after.input_devices == before.input_devices
            &&& after.output_devices == before.output_devices
            &&& after.sessions == before.sessions
            &&& after.show_naming_window == before.show_naming_window
            &&& after.show_dsp_window == before.show_dsp_window
        }),
{
}

/// The timer shows whole minutes, seconds below sixty and tenths, cut off and not
/// rounded.
pub proof fn law_timer(elapsed_ms: u64)
    ensures
        exists|m: nat, s: nat, t: nat|
            #[trigger] reads(timer_text(elapsed_ms), m, s, t) && s < 60 && t < 10 && 60_000 * m
                + 1000 * s + 100 * t <= elapsed_ms < 60_000 * m + 1000 * s + 100 * t + 100,
{
    let seconds = (elapsed_ms / 1000) as nat;
    let m = seconds / 60;
    let s = seconds % 60;
    let t = ((elapsed_ms % 1000) / 100) as nat;
    assert(reads(timer_text(elapsed_ms), m, s, t));
}

/// Whether a text of the timer shows these minutes, seconds and tenths.
pub open spec fn reads(text: Seq<char>, m: nat, s: nat, t: nat) -> bool {
    text == "● 正在录制  "@ + crate::text::padded(m, 2) + ":"@ + crate::text::padded(s, 2) + "."@
        + crate::text::decimal(t)
}

/// A saved recording is reported with its file, rate, channels and frames.
pub proof fn law_saved_text(path: Seq<char>, stats: CaptureStats)
    ensures
        saved_text(path, stats) == "✓ 已保存 "@ + path + " ("@ + crate::text::decimal(
            stats.sample_rate as nat,
        ) + " Hz / "@ + crate::text::decimal(stats.channels as nat) + " ch / "@
            + crate::text::decimal(stats.frames as nat) + " 帧)"@,
{
}

/// A recording under way has its thread, in every state that is well formed.
pub proof fn law_active_recording_has_its_thread<H>(app: RecorderApp<H>)
    ensures
        app.wf() <==> (app.recording matches RecordingState::Active { capture, .. }
            ==> capture.join is Some),
{
}

/// The window starts with the microphone, the first choice of both lists, no
/// process, both windows closed and nothing recorded, in the directory of the
/// last recording or else the working directory.
pub proof fn law_first_window<H>(
    version: OsVersion,
    config: AppConfig,
    inputs: Result<Vec<EndpointDevice>, WasapiError>,
    outputs: Result<Vec<EndpointDevice>, WasapiError>,
    sessions: Result<Vec<AudioSession>, WasapiError>,
    app: RecorderApp<H>,
)
    requires
        fresh(version, config, inputs, outputs, sessions, app),
    ensures
        app.source_kind is Mic,
        app.recording is Idle,
        app.selected_pid is None,
        app.config == config,
        app.show_naming_window == false,
        app.show_dsp_window == false,
        config.last_dir matches Some(dir) ==> app.output_path_buf@ == dir@,
        config.last_dir is None ==> app.output_path_buf@ == "."@,
        app.supports_per_process <==> version.records_processes(),
        app.os_version@ == version.words(),
        inputs matches Ok(list) ==> app.input_devices == Ok::<Vec<EndpointDevice>, String>(list),
        inputs matches Err(e) ==> app.input_devices is Err && app.input_devices->Err_0@ == e.text(),
        outputs matches Ok(list) ==> app.output_devices == Ok::<Vec<EndpointDevice>, String>(list),
        outputs matches Err(e) ==> app.output_devices is Err && app.output_devices->Err_0@
            == e.text(),
        sessions matches Ok(list) ==> app.sessions == Ok::<Vec<AudioSession>, String>(list),
        sessions matches Err(e) ==> app.sessions is Err && app.sessions->Err_0@ == e.text(),
        initial_choice(app.input_devices, app.selected_input_id),
        initial_choice(app.output_devices, app.selected_output_id),
        app.pending() is None <==> match inputs {
            Ok(list) => list@.len() == 0,
            Err(_) => true,
        },
{
    if inputs is Ok {
        crate::devices::law_first_choice(inputs->Ok_0@, 0);
    }
}

/// New lists change neither the choices nor the source, the output or a recording
/// under way.
pub proof fn law_refresh_keeps_the_choices<H>(
    before: RecorderApp<H>,
    inputs: Result<Vec<EndpointDevice>, WasapiError>,
    outputs: Result<Vec<EndpointDevice>, WasapiError>,
    sessions: Result<Vec<AudioSession>, WasapiError>,
    after: RecorderApp<H>,
)
    requires
        refreshed(before, inputs, outputs, sessions, after),
    ensures
        after.pending() == before.pending(),
        after.startable() == before.startable(),
        after.recording == before.recording,
        after.config == before.config,
        after.output_path_buf == before.output_path_buf,
        after.source_kind == before.source_kind,
        after.selected_input_id == before.selected_input_id,
        after.selected_output_id == before.selected_output_id,
        after.selected_pid == before.selected_pid,
        inputs matches Ok(list) ==> after.input_devices == Ok::<Vec<EndpointDevice>, String>(list),
        outputs matches Ok(list) ==> after.output_devices == Ok::<Vec<EndpointDevice>, String>(
            list,
        ),
        sessions matches Ok(list) ==> after.sessions == Ok::<Vec<AudioSession>, String>(list),
        inputs matches Err(e) ==> after.input_devices is Err && after.input_devices->Err_0@
            == e.text(),
        outputs matches Err(e) ==> after.output_devices is Err && after.output_devices->Err_0@
            == e.text(),
        sessions matches Err(e) ==> after.sessions is Err && after.sessions->Err_0@ == e.text(),
{
}

/// The microphone and the system loopback can always be chosen, a single process
/// exactly where Windows can record it.
pub proof fn law_offered_kinds<H>(app: RecorderApp<H>)
    ensures
        app.offered(SourceKind::Mic),
        app.offered(SourceKind::SystemLoopback),
        app.offered(SourceKind::PerProcess) <==> app.supports_per_process,
{
}

/// A recording can be started exactly where something is selected for the chosen
/// kind of source and the output is not blank.
pub proof fn law_startable<H>(app: RecorderApp<H>)
    ensures
        app.startable() <==> {
            &&& app.source_kind is Mic ==> app.selected_input_id is Some
            &&& app.source_kind is SystemLoopback ==> app.selected_output_id is Some
            &&& app.source_kind is PerProcess ==> app.selected_pid is Some
            &&& exists|i: int|
                0 <= i < app.output_path_buf@.len() && !crate::text::is_white(
                    #[trigger] app.output_path_buf@[i],
                )
        },
{
    let s = app.output_path_buf@;
    crate::text::law_trimming(s);
    let (i, j) = choose|i: int, j: int|
        0 <= i <= j <= s.len() && crate::text::trim(s) == #[trigger] s.subrange(i, j) && (forall|
            k: int,
        |
            0 <= k < i || j <= k < s.len() ==> crate::text::is_white(#[trigger] s[k]));
    if i < j {
        assert(crate::text::trim(s)[0] == s[i]);
    }
}

/// Choosing a kind of source changes the output only where it is the default name
/// of another kind, and then to the default name of the new kind; nothing else
/// changes.
pub proof fn law_switch<H>(
    before: RecorderApp<H>,
    kind: SourceKind,
    compared_at: LocalTime,
    renamed_at: LocalTime,
    after: RecorderApp<H>,
)
    requires
        switched(before, kind, compared_at, renamed_at, after),
    ensures
        ({
            let default_name = before.source_kind.tag() + "-"@ + crate::naming::stamp(compared_at)
                + ".wav"@;
            &&& kind == before.source_kind ==> after.output_path_buf@ == before.output_path_buf@
            &&& before.output_path_buf@ != default_name ==> after.output_path_buf@
                == before.output_path_buf@
            &&& kind != before.source_kind && before.output_path_buf@ == default_name
                ==> after.output_path_buf@ == kind.tag() + "-"@ + crate::naming::stamp(renamed_at)
                + ".wav"@
        }),
        after.source_kind == kind,
        after.recording == before.recording,
        after.config == before.config,
        after.selected_input_id == before.selected_input_id,
        after.selected_output_id == before.selected_output_id,
        after.selected_pid == before.selected_pid,
        after.input_devices == before.input_devices,
        after.output_devices == before.output_devices,
        after.sessions == before.sessions,
        after.supports_per_process == before.supports_per_process,
        after.show_dsp_window == before.show_dsp_window,
        after.show_naming_window == before.show_naming_window,
{
}

/// The result of a recording is taken over exactly where one is under way and has
/// ended, under the file of the recording.
pub proof fn law_poll<H>(
    before: RecorderApp<H>,
    result: Option<Result<CaptureStats, WasapiError>>,
    after: RecorderApp<H>,
)
    requires
        polled(before, result, after),
    ensures
        result is None ==> after == before,
        !(before.recording is Active) ==> after == before,
        before.recording is Active && result is Some ==> {
            &&& after.recording is LastResult
            &&& after.recording->path == before.recording->capture.output_path
            &&& result->0 matches Ok(stats) ==> after.recording->outcome == Ok::<
                CaptureStats,
                String,
            >(stats)
            &&& result->0 matches Err(e) ==> after.recording->outcome is Err
                && after.recording->outcome->Err_0@ == e.text()
        },
        after.config == before.config,
        after.source_kind == before.source_kind,
        after.output_path_buf == before.output_path_buf,
        after.pending() == before.pending(),
{
}

/// A recording that is stopped leaves the same as one that ends by itself with
/// the same result.
pub proof fn law_stopping_is_as_ending<H>(
    before: RecorderApp<H>,
    path: String,
    thread: H,
    waiting: RecorderApp<H>,
    result: Result<CaptureStats, WasapiError>,
    by_hand: RecorderApp<H>,
    by_itself: RecorderApp<H>,
)
    requires
        before.recording is Active,
        released(before, Some((path, thread)), waiting),
        stopped(waiting, path, result, by_hand),
        polled(before, Some(result), by_itself),
    ensures
        by_hand.recording->path == by_itself.recording->path,
        by_hand.recording->outcome is Ok <==> by_itself.recording->outcome is Ok,
        by_hand.recording->outcome is Ok ==> by_hand.recording->outcome
            == by_itself.recording->outcome,
        by_hand.recording->outcome is Err ==> by_hand.recording->outcome->Err_0@
            == by_itself.recording->outcome->Err_0@,
        by_hand == (RecorderApp { recording: by_hand.recording, ..by_itself }),
{
}

/// Ending the state of recording hands out the thread and the file of the
/// recording exactly where there is one, and nothing is recorded any more.
pub proof fn law_release<H>(before: RecorderApp<H>, r: Option<(String, H)>, after: RecorderApp<H>)
    requires
        released(before, r, after),
    ensures
        r is Some <==> before.recording is Active,
        r matches Some(pair) ==> pair.0 == before.recording->capture.output_path && pair.1
            == before.recording->capture.join->0,
        after.recording is Idle,
        after.config == before.config,
        after.source_kind == before.source_kind,
        after.output_path_buf == before.output_path_buf,
        after.pending() == before.pending(),
{
}

/// A stopped recording is shown with its own file and result.
pub proof fn law_stop<H>(
    before: RecorderApp<H>,
    path: String,
    result: Result<CaptureStats, WasapiError>,
    after: RecorderApp<H>,
)
    requires
        stopped(before, path, result, after),
    ensures
        after.recording is LastResult,
        after.recording->path == path,
        result matches Ok(stats) ==> after.recording->outcome == Ok::<CaptureStats, String>(stats),
        result matches Err(e) ==> after.recording->outcome is Err
            && after.recording->outcome->Err_0@ == e.text(),
        after.config == before.config,
        after.source_kind == before.source_kind,
        after.output_path_buf == before.output_path_buf,
        after.pending() == before.pending(),
{
}

/// The line below the buttons says in which state the recorder is: ready, for how
/// long it has recorded, what was saved, or why it failed.
pub proof fn law_status<H>(app: RecorderApp<H>, now: u64, line: StatusLine)
    requires
        shows_status(app, now, line),
    ensures
        line is Ready <==> app.recording is Idle,
        line is Recording <==> app.recording is Active,
        line is Saved <==> app.recording is LastResult && app.recording->outcome is Ok,
        line is Failed <==> app.recording is LastResult && app.recording->outcome is Err,
        line is Recording && now >= app.recording->started_at ==> line->Recording_0@ == timer_text(
            (now - app.recording->started_at) as u64,
        ),
        line is Recording && now < app.recording->started_at ==> line->Recording_0@ == timer_text(
            0,
        ),
        line is Saved ==> line->Saved_0@ == saved_text(
            app.recording->path@,
            app.recording->outcome->Ok_0,
        ),
        line is Failed ==> line->Failed_0@ == "录制失败: "@ + app.recording->outcome->Err_0@,
{
}

/// The header says that single programs can be recorded, or which Windows that
/// needs.
pub proof fn law_per_app_text(supported: bool)
    ensures
        supported ==> per_app_text(supported) == "Per-App 捕获: 可用"@,
        !supported ==> per_app_text(supported) == "Per-App 捕获: 不可用 (需 Win10 build 20348+)"@,
{
}

} // verus!

//! What the columns and drop-down lists of the window show.
use vstd::prelude::*;
use vstd::string::*;

use crate::devices::{EndpointDevice, EndpointFlow};
use crate::sessions::{AudioSession, SessionState};
use crate::text::{joined, push_decimal};

verus! {

/// The contents of a column.
#[derive(Debug)]
pub enum Column<R> {
    /// The list could not be had.
    Failed(String),
    /// The list is empty.
    Empty,
    Rows(Vec<R>),
}

/// An endpoint in a column.
#[derive(Debug)]
pub struct DeviceRow {
    pub name: String,
    pub is_default: bool,
    pub detail: String,
}

/// A session in a column.
#[derive(Debug)]
pub struct SessionRow {
    pub label: String,
    pub tag: &'static str,
    pub detail: String,
    /// The full path of the executable, where it is known.
    pub hover: Option<String>,
}

/// A drop-down list: what it shows, and what can be chosen.
#[derive(Debug)]
pub struct Combo<K> {
    pub current: String,
    pub entries: Vec<(K, String)>,
}

// ---------------------------------------------------------------------------
// Endpoints
// ---------------------------------------------------------------------------
/// The word for a direction.
pub open spec fn flow_word(flow: EndpointFlow) -> Seq<char> {
    match flow {
        EndpointFlow::Render => "render"@,
        EndpointFlow::Capture => "capture"@,
    }
}

/// Whether `row` shows the endpoint `d`.
pub open spec fn shows_device(d: EndpointDevice, row: DeviceRow) -> bool {
    &&& row.name == d.friendly_name
    &&& row.is_default == d.is_default
    &&& row.detail@ == flow_word(d.flow) + " · "@ + d.id@
}

fn device_row(d: &EndpointDevice) -> (row: DeviceRow)
    ensures
        shows_device(*d, row),
{
    let word = match d.flow {
        EndpointFlow::Render => "render",
        EndpointFlow::Capture => "capture",
    };
    let mut detail = joined(word, " · ");
    detail.append(d.id.as_str());
    DeviceRow { name: d.friendly_name.clone(), is_default: d.is_default, detail }
}

/// The column of a list of endpoints: one row each, in their order.
pub fn device_column(devices: &Result<Vec<EndpointDevice>, String>) -> (c: Column<DeviceRow>)
    ensures
        match *devices {
            Err(e) => c matches Column::Failed(text) && text@ == "枚举失败: "@ + e@,
            Ok(list) => if list@.len() == 0 {
                c is Empty
            } else {
                &&& c matches Column::Rows(rows)
                &&& rows@.len() == list@.len()
                &&& forall|i: int|
                    0 <= i < list@.len() ==> shows_device(list@[i], #[trigger] rows@[i])
            },
        },
{
    match devices {
        Err(e) => Column::Failed(joined("枚举失败: ", e.as_str())),
        Ok(list) => {
            if list.len() == 0 {
                return Column::Empty;
            }
            let mut rows: Vec<DeviceRow> = Vec::new();
            let mut i: usize = 0;
            while i < list.len()
                invariant
                    i <= list@.len(),
                    rows@.len() == i,
                    forall|j: int| 0 <= j < i ==> shows_device(list@[j], #[trigger] rows@[j]),
                decreases list.len() - i,
            {
                rows.push(device_row(&list[i]));
                i = i + 1;
            }
            Column::Rows(rows)
        },
    }
}

/// What a drop-down list calls an endpoint: the default one has a star.
pub open spec fn device_entry(d: EndpointDevice) -> Seq<char> {
    if d.is_default {
        "★ "@ + d.friendly_name@
    } else {
        d.friendly_name@
    }
}

/// Whether `i` is the first endpoint with the id `id`.
pub open spec fn first_with_id(devices: Seq<EndpointDevice>, id: Seq<char>, i: int) -> bool {
    &&& 0 <= i < devices.len()
    &&& devices[i].id@ == id
    &&& forall|j: int| 0 <= j < i ==> (#[trigger] devices[j]).id@ != id
}

/// What a drop-down list of endpoints shows: the selected one, or a placeholder
/// where none of them is selected.
pub open spec fn shows_selection(
    devices: Seq<EndpointDevice>,
    selected: Option<String>,
    placeholder: Seq<char>,
    shown: Seq<char>,
) -> bool {
    match selected {
        Some(id) => {
            ||| exists|i: int|
                #[trigger] first_with_id(devices, id@, i) && shown == devices[i].friendly_name@
            ||| shown == placeholder && forall|i: int|
                0 <= i < devices.len() ==> (#[trigger] devices[i]).id@ != id@
        },
        None => shown == placeholder,
    }
}

fn selected_name(
    devices: &Vec<EndpointDevice>,
    selected: &Option<String>,
    placeholder: &str,
) -> (s: String)
    ensures
        shows_selection(devices@, *selected, placeholder@, s@),
{
    match selected {
        Some(id) => {
            let mut i: usize = 0;
            while i < devices.len()
                invariant
                    i <= devices@.len(),
                    *selected == Some(*id),
                    forall|j: int| 0 <= j < i ==> (#[trigger] devices@[j]).id@ != id@,
                decreases devices.len() - i,
            {
                if devices[i].id.eq(id) {
                    assert(first_with_id(devices@, selected->0@, i as int));
                    return devices[i].friendly_name.clone();
                }
                i = i + 1;
            }
            placeholder.to_string()
        },
        None => placeholder.to_string(),
    }
}

/// The drop-down list of endpoints, each chosen by its id.
pub fn device_combo(
    devices: &Vec<EndpointDevice>,
    selected: &Option<String>,
    placeholder: &str,
) -> (c: Combo<String>)
    ensures
        shows_selection(devices@, *selected, placeholder@, c.current@),
        c.entries@.len() == devices@.len(),
        forall|i: int|
            0 <= i < devices@.len() ==> (#[trigger] c.entries@[i]).0 == devices@[i].id
                && c.entries@[i].1@ == device_entry(devices@[i]),
{
    let current = selected_name(devices, selected, placeholder);
    let mut entries: Vec<(String, String)> = Vec::new();
    let mut i: usize = 0;
    while i < devices.len()
        invariant
            i <= devices@.len(),
            entries@.len() == i,
            forall|j: int|
                0 <= j < i ==> (#[trigger] entries@[j]).0 == devices@[j].id && entries@[j].1@
                    == device_entry(devices@[j]),
        decreases devices.len() - i,
    {
        let name = if devices[i].is_default {
            joined("★ ", devices[i].friendly_name.as_str())
        } else {
            devices[i].friendly_name.clone()
        };
        entries.push((devices[i].id.clone(), name));
        i = i + 1;
    }
    Combo { current, entries }
}

// ---------------------------------------------------------------------------
// Sessions
// ---------------------------------------------------------------------------
/// The word for a state.
pub open spec fn state_word(state: SessionState) -> Seq<char> {
    match state {
        SessionState::Active => "active"@,
        SessionState::Inactive => "inactive"@,
        SessionState::Expired => "expired"@,
    }
}

/// The word for a state.
pub fn state_tag(state: SessionState) -> (s: &'static str)
    ensures
        s@ == state_word(state),
{
    match state {
        SessionState::Active => "active",
        SessionState::Inactive => "inactive",
        SessionState::Expired => "expired",
    }
}

/// Whether `row` shows the session `s`.
pub open spec fn shows_session(s: AudioSession, row: SessionRow) -> bool {
    &&& row.label@ == s.label()
    &&& row.tag@ == state_word(s.state)
    &&& row.detail@ == "PID "@ + crate::text::decimal(s.pid as nat)
    &&& row.hover == if s.exe_path@.len() > 0 {
        Some(s.exe_path)
    } else {
        None
    }
}

fn session_row(s: &AudioSession) -> (row: SessionRow)
    ensures
        shows_session(*s, row),
{
    let mut detail = "PID ".to_string();
    push_decimal(&mut detail, s.pid as u64);
    let hover = if s.exe_path.as_str().unicode_len() > 0 {
        Some(s.exe_path.clone())
    } else {
        None
    };
    SessionRow { label: s.best_label(), tag: state_tag(s.state), detail, hover }
}

/// The column of a list of sessions: one row each, in their order.
pub fn session_column(sessions: &Result<Vec<AudioSession>, String>) -> (c: Column<SessionRow>)
    ensures
        match *sessions {
            Err(e) => c matches Column::Failed(text) && text@ == "枚举失败: "@ + e@,
            Ok(list) => if list@.len() == 0 {
                c is Empty
            } else {
                &&& c matches Column::Rows(rows)
                &&& rows@.len() == list@.len()
                &&& forall|i: int|
                    0 <= i < list@.len() ==> shows_session(list@[i], #[trigger] rows@[i])
            },
        },
{
    match sessions {
        Err(e) => Column::Failed(joined("枚举失败: ", e.as_str())),
        Ok(list) => {
            if list.len() == 0 {
                return Column::Empty;
            }
            let mut rows: Vec<SessionRow> = Vec::new();
            let mut i: usize = 0;
            while i < list.len()
                invariant
                    i <= list@.len(),
                    rows@.len() == i,
                    forall|j: int| 0 <= j < i ==> shows_session(list@[j], #[trigger] rows@[j]),
                decreases list.len() - i,
            {
                rows.push(session_row(&list[i]));
                i = i + 1;
            }
            Column::Rows(rows)
        },
    }
}

/// Whether a session can be recorded: it has a process, and it is not that of
/// the system sounds.
pub open spec fn recordable(s: AudioSession) -> bool {
    s.pid != 0 && !s.is_system_sounds
}

/// The sessions that can be recorded, in their order.
pub open spec fn usable(sessions: Seq<AudioSession>) -> Seq<AudioSession>
    decreases sessions.len(),
{
    if sessions.len() == 0 {
        Seq::empty()
    } else {
        let before = usable(sessions.drop_last());
        if recordable(sessions.last()) {
            before.push(sessions.last())
        } else {
            before
        }
    }
}

/// What the drop-down list calls a session.
pub open spec fn session_entry(s: AudioSession) -> Seq<char> {
    s.label() + " (PID "@ + crate::text::decimal(s.pid as nat) + ")"@
}

fn entry_of(s: &AudioSession) -> (text: String)
    ensures
        text@ == session_entry(*s),
{
    let label = s.best_label();
    let mut text = joined(label.as_str(), " (PID ");
    push_decimal(&mut text, s.pid as u64);
    text.append(")");
    text
}

/// Whether `i` is the first of the sessions of the process `pid`.
pub open spec fn first_with_pid(sessions: Seq<AudioSession>, pid: u32, i: int) -> bool {
    &&& 0 <= i < sessions.len()
    &&& sessions[i].pid == pid
    &&& forall|j: int| 0 <= j < i ==> (#[trigger] sessions[j]).pid != pid
}

/// What the drop-down list of sessions shows: the selected one, or a placeholder
/// where none of them is selected.
pub open spec fn shows_process(
    list: Seq<AudioSession>,
    selected: Option<u32>,
    shown: Seq<char>,
) -> bool {
    match selected {
        Some(pid) => {
            ||| exists|i: int|
                #[trigger] first_with_pid(list, pid, i) && shown == session_entry(list[i])
            ||| shown == "<选择应用>"@ && forall|i: int|
                0 <= i < list.len() ==> (#[trigger] list[i]).pid != pid
        },
        None => shown == "<选择应用>"@,
    }
}

/// Whether one of the entries is chosen by the process of a session.
pub open spec fn offers(entries: Seq<(u32, String)>, s: AudioSession) -> bool {
    exists|i: int| 0 <= i < entries.len() && (#[trigger] entries[i]).0 == s.pid
}

/// Whether a session of the process `pid` is listed that is not that of the
/// system sounds.
pub open spec fn plays_as(sessions: Seq<AudioSession>, pid: u32) -> bool {
    exists|k: int|
        0 <= k < sessions.len() && (#[trigger] sessions[k]).pid == pid
            && !sessions[k].is_system_sounds
}

/// The drop-down list of the sessions that can be recorded, each chosen by its
/// process.
pub fn session_combo(sessions: &Vec<AudioSession>, selected: Option<u32>) -> (c: Combo<u32>)
    ensures
        shows_process(usable(sessions@), selected, c.current@),
        c.entries@.len() == usable(sessions@).len(),
        forall|i: int|
            0 <= i < c.entries@.len() ==> (#[trigger] c.entries@[i]).0 == usable(sessions@)[i].pid
                && c.entries@[i].1@ == session_entry(usable(sessions@)[i]),
        forall|k: int|
            0 <= k < sessions@.len() && (#[trigger] sessions@[k]).pid != 0
                && !sessions@[k].is_system_sounds ==> offers(c.entries@, sessions@[k]),
        forall|i: int|
            0 <= i < c.entries@.len() ==> (#[trigger] c.entries@[i]).0 != 0 && plays_as(
                sessions@,
                c.entries@[i].0,
            ),
{
    let mut current = "<选择应用>".to_string();
    let mut found = false;
    let mut entries: Vec<(u32, String)> = Vec::new();
    let mut i: usize = 0;
    assert(sessions@.take(0).len() == 0);
    while i < sessions.len()
        invariant
            i <= sessions@.len(),
            entries@.len() == usable(sessions@.take(i as int)).len(),
            forall|j: int|
                0 <= j < entries@.len() ==> (#[trigger] entries@[j]).0 == usable(
                    sessions@.take(i as int),
                )[j].pid && entries@[j].1@ == session_entry(usable(sessions@.take(i as int))[j]),
            found ==> selected is Some && exists|j: int|
                #[trigger] first_with_pid(usable(sessions@.take(i as int)), selected->0, j)
                    && current@ == session_entry(usable(sessions@.take(i as int))[j]),
            !found ==> current@ == "<选择应用>"@,
            !found && selected is Some ==> forall|j: int|
                0 <= j < usable(sessions@.take(i as int)).len() ==> (#[trigger] usable(
                    sessions@.take(i as int),
                )[j]).pid != selected->0,
        decreases sessions.len() - i,
    {
        let ghost list = usable(sessions@.take(i as int));
        let ghost was_found = found;
        proof {
            assert(sessions@.take(i + 1).drop_last() == sessions@.take(i as int));
            assert(sessions@.take(i + 1).last() == sessions@[i as int]);
        }
        let ghost longer = usable(sessions@.take(i + 1));
        let s = &sessions[i];
        if s.pid != 0 && !s.is_system_sounds {
            assert(longer == list.push(*s));
            let text = entry_of(s);
            match selected {
                Some(pid) => {
                    if !found && s.pid == pid {
                        current = text.clone();
                        found = true;
                        assert(first_with_pid(longer, pid, list.len() as int));
                    }
                },
                None => {},
            }
            entries.push((s.pid, text));
            proof {
                if was_found {
                    let j = choose|j: int|
                        #[trigger] first_with_pid(list, selected->0, j) && current@
                            == session_entry(list[j]);
                    assert(first_with_pid(longer, selected->0, j));
                    assert(longer[j] == list[j]);
                }
            }
        } else {
            assert(longer == list);
        }
        i = i + 1;
    }
    assert(sessions@.take(sessions@.len() as int) == sessions@);
    proof {
        let list = usable(sessions@);
        assert forall|k: int|
            0 <= k < sessions@.len() && (#[trigger] sessions@[k]).pid != 0
                && !sessions@[k].is_system_sounds implies offers(entries@, sessions@[k]) by {
            law_every_program_is_offered(sessions@, k);
            let i = choose|i: int| 0 <= i < list.len() && list[i] == sessions@[k];
            assert(entries@[i].0 == sessions@[k].pid);
        }
        assert forall|i: int| 0 <= i < entries@.len() implies (#[trigger] entries@[i]).0 != 0
            && plays_as(sessions@, entries@[i].0) by {
            law_only_programs_are_offered(sessions@, i);
            let k = choose|k: int| 0 <= k < sessions@.len() && sessions@[k] == list[i];
            assert(sessions@[k].pid == entries@[i].0);
        }
    }
    Combo { current, entries }
}

/// Every process that the drop-down list offers is a real one, and every
/// session that can be recorded is offered.
pub proof fn law_usable_sessions(sessions: Seq<AudioSession>)
    ensures
        forall|i: int| 0 <= i < usable(sessions).len() ==> recordable(#[trigger] usable(sessions)[i]),
        forall|k: int|
            0 <= k < sessions.len() && recordable(#[trigger] sessions[k]) ==> usable(
                sessions,
            ).contains(sessions[k]),
    decreases sessions.len(),
{
    if sessions.len() > 0 {
        let rest = sessions.drop_last();
        law_usable_sessions(rest);
        let list = usable(sessions);
        assert forall|k: int| 0 <= k < sessions.len() && recordable(
            #[trigger] sessions[k],
        ) implies list.contains(sessions[k]) by {
            if k < rest.len() {
                assert(rest[k] == sessions[k]);
                let j = choose|j: int|
                    0 <= j < usable(rest).len() && usable(rest)[j] == sessions[k];
                assert(list[j] == sessions[k]);
            } else {
                assert(list[list.len() - 1] == sessions[k]);
            }
        }
    }
}

/// A session with a process that is not that of the system sounds is offered,
/// whatever its state, name and place.
pub proof fn law_every_program_is_offered(sessions: Seq<AudioSession>, k: int)
    requires
        0 <= k < sessions.len(),
        sessions[k].pid != 0,
        !sessions[k].is_system_sounds,
    ensures
        exists|i: int|
            0 <= i < usable(sessions).len() && #[trigger] usable(sessions)[i] == sessions[k],
    decreases sessions.len(),
{
    law_usable_sessions(sessions);
    assert(recordable(sessions[k]));
    assert(usable(sessions).contains(sessions[k]));
}

/// What is offered is a listed session with a process, and not that of the system
/// sounds.
pub proof fn law_only_programs_are_offered(sessions: Seq<AudioSession>, i: int)
    requires
        0 <= i < usable(sessions).len(),
    ensures
        usable(sessions)[i].pid != 0,
        !usable(sessions)[i].is_system_sounds,
        exists|k: int|
            0 <= k < sessions.len() && #[trigger] sessions[k] == usable(sessions)[i],
    decreases sessions.len(),
{
    if sessions.len() > 0 {
        let rest = sessions.drop_last();
        if i < usable(rest).len() {
            law_only_programs_are_offered(rest, i);
            let k = choose|k: int| 0 <= k < rest.len() && #[trigger] rest[k] == usable(rest)[i];
            assert(sessions[k] == usable(sessions)[i]);
        } else {
            assert(sessions[sessions.len() - 1] == usable(sessions)[i]);
        }
    }
}

/// One session alone is offered exactly where it has a process and is not that of
/// the system sounds.
pub proof fn law_one_session_is_offered(s: AudioSession)
    ensures
        s.pid != 0 && !s.is_system_sounds ==> usable(seq![s]) == seq![s],
        s.pid == 0 || s.is_system_sounds ==> usable(seq![s]).len() == 0,
{
    assert(seq![s].drop_last().len() == 0);
    assert(usable(seq![s].drop_last()) == Seq::<AudioSession>::empty());
}

/// Two lists behind each other offer what each of them offers, in that order.
pub proof fn law_offers_add_up(a: Seq<AudioSession>, b: Seq<AudioSession>)
    ensures
        usable(a + b) == usable(a) + usable(b),
    decreases b.len(),
{
    if b.len() == 0 {
        assert(a + b == a);
        assert(usable(a) + usable(b) == usable(a));
    } else {
        law_offers_add_up(a, b.drop_last());
        assert((a + b).drop_last() == a + b.drop_last());
        assert((a + b).last() == b.last());
        assert(usable(a + b) == usable(a) + usable(b));
    }
}

/// A session is called by its label and its process.
pub proof fn law_entry_of_a_session(s: AudioSession)
    ensures
        session_entry(s) == s.label() + " (PID "@ + crate::text::decimal(s.pid as nat) + ")"@,
{
}

/// The list of sessions shows the first one of the selected process, and the
/// placeholder exactly where no process is selected or none of its sessions is
/// there.
pub proof fn law_selected_process_is_shown(
    list: Seq<AudioSession>,
    selected: Option<u32>,
    shown: Seq<char>,
    i: int,
)
    requires
        shows_process(list, selected, shown),
    ensures
        selected is None ==> shown == "<选择应用>"@,
        0 <= i < list.len() && selected == Some(list[i].pid) && (forall|j: int|
            0 <= j < i ==> (#[trigger] list[j]).pid != list[i].pid) ==> shown == list[i].label()
            + " (PID "@ + crate::text::decimal(list[i].pid as nat) + ")"@,
        (forall|j: int| 0 <= j < list.len() ==> selected != Some((#[trigger] list[j]).pid))
            ==> shown == "<选择应用>"@,
{
    if 0 <= i < list.len() && selected == Some(list[i].pid) && (forall|j: int|
        0 <= j < i ==> (#[trigger] list[j]).pid != list[i].pid) {
        let k = choose|k: int|
            #[trigger] first_with_pid(list, list[i].pid, k) && shown == session_entry(list[k]);
        assert(first_with_pid(list, list[i].pid, k));
        assert(k == i) by {
            if k < i {
                assert(list[k].pid != list[i].pid);
            }
            if i < k {
                assert(list[i].pid != list[i].pid);
            }
        }
    }
}

/// The list of endpoints shows the name of the first one with the selected id, and
/// the placeholder exactly where no id is selected or no endpoint has it.
pub proof fn law_selected_endpoint_is_shown(
    devices: Seq<EndpointDevice>,
    selected: Option<String>,
    placeholder: Seq<char>,
    shown: Seq<char>,
    i: int,
)
    requires
        shows_selection(devices, selected, placeholder, shown),
    ensures
        selected is None ==> shown == placeholder,
        0 <= i < devices.len() && selected is Some && selected->0@ == devices[i].id@ && (forall|
            j: int,
        |
            0 <= j < i ==> (#[trigger] devices[j]).id@ != devices[i].id@) ==> shown
            == devices[i].friendly_name@,
        selected is Some && (forall|j: int|
            0 <= j < devices.len() ==> (#[trigger] devices[j]).id@ != selected->0@) ==> shown
            == placeholder,
{
    if selected is Some {
        let id = selected->0@;
        if exists|k: int|
            #[trigger] first_with_id(devices, id, k) && shown == devices[k].friendly_name@ {
            let k = choose|k: int|
                #[trigger] first_with_id(devices, id, k) && shown == devices[k].friendly_name@;
            assert(first_with_id(devices, id, k));
            assert(devices[k].id@ == id);
            if 0 <= i < devices.len() && id == devices[i].id@ && (forall|j: int|
                0 <= j < i ==> (#[trigger] devices[j]).id@ != devices[i].id@) {
                assert(k == i);
            }
        }
    }
}

/// The default endpoint has a star before its name, every other only its name.
pub proof fn law_entry_of_an_endpoint(d: EndpointDevice)
    ensures
        d.is_default ==> device_entry(d) == "★ "@ + d.friendly_name@,
        !d.is_default ==> device_entry(d) == d.friendly_name@,
{
}

/// The row of an endpoint: its name, whether it is the default, its direction and
/// its id.
pub proof fn law_row_of_an_endpoint(d: EndpointDevice, row: DeviceRow)
    requires
        shows_device(d, row),
    ensures
        row.name == d.friendly_name,
        row.is_default == d.is_default,
        d.flow is Render ==> row.detail@ == "render"@ + " · "@ + d.id@,
        d.flow is Capture ==> row.detail@ == "capture"@ + " · "@ + d.id@,
{
}

/// The row of a session: its label, its state, its process, and the path of its
/// executable where it has one.
pub proof fn law_row_of_a_session(s: AudioSession, row: SessionRow)
    requires
        shows_session(s, row),
    ensures
        row.label@ == s.label(),
        s.state is Active ==> row.tag@ == "active"@,
        s.state is Inactive ==> row.tag@ == "inactive"@,
        s.state is Expired ==> row.tag@ == "expired"@,
        row.detail@ == "PID "@ + crate::text::decimal(s.pid as nat),
        s.exe_path@.len() > 0 ==> row.hover == Some(s.exe_path),
        s.exe_path@.len() == 0 ==> row.hover is None,
{
}

} // verus!

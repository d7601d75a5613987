//! Audio sessions: which programs play sound, and under which name they are
//! listed.
use vstd::prelude::*;
use vstd::string::*;

use crate::error::WasapiError;
use crate::text::{precedes, push_decimal, utf16_text};
use crate::winpath::file_name;

verus! {

/// What a session is doing.
#[derive(Debug, Clone, Copy, PartialEq, Eq, Structural)]
pub enum SessionState {
    /// Playing.
    Active,
    /// Open, but without data at the moment.
    Inactive,
    /// Closed.
    Expired,
}

/// An audio session of a process.
#[derive(Debug, Clone)]
pub struct AudioSession {
    pub pid: u32,
    /// The full path of the executable, or empty.
    pub exe_path: String,
    /// The name that the program gave the session, mostly empty.
    pub display_name: String,
    pub state: SessionState,
    /// Whether this is the session of the Windows system sounds.
    pub is_system_sounds: bool,
}

impl AudioSession {
    /// The name shown to the user: that of the system sounds, else the file
    /// name of the executable, else the display name unless it is a reference
    /// to a resource (`@...`), else the process id.
    pub open spec fn label(self) -> Seq<char> {
        if self.is_system_sounds {
            "Windows 系统提示音"@
        } else if crate::winpath::file_name_of(self.exe_path@) is Some {
            crate::winpath::file_name_of(self.exe_path@)->0
        } else if self.display_name@.len() > 0 && self.display_name@[0] != '@' {
            self.display_name@
        } else {
            "PID "@ + crate::text::decimal(self.pid as nat)
        }
    }

    /// The name shown to the user.
    pub fn best_label(&self) -> (s: String)
        ensures
            s@ == self.label(),
    {
        if self.is_system_sounds {
            return "Windows 系统提示音".to_string();
        }
        if let Some(name) = file_name(self.exe_path.as_str()) {
            return name;
        }
        if self.display_name.as_str().unicode_len() > 0 && self.display_name.as_str().get_char(0)
            != '@' {
            return self.display_name.clone();
        }
        let mut s = "PID ".to_string();
        push_decimal(&mut s, self.pid as u64);
        s
    }
}

/// A label is never empty.
pub proof fn law_label_is_not_empty(s: AudioSession)
    ensures
        s.label().len() > 0,
{
    reveal_strlit("Windows 系统提示音");
    reveal_strlit("PID ");
    crate::winpath::law_file_name_is_one_component(s.exe_path@);
}

// ---------------------------------------------------------------------------
// From the answers of Windows
// ---------------------------------------------------------------------------
/// What Windows answers about a session; `None` where a question failed.
#[derive(Debug)]
pub struct RawSession {
    pub pid: Option<u32>,
    /// 0 for the session of the system sounds.
    pub system_sounds: i32,
    pub display_name: Option<String>,
    /// 0 inactive, 1 active, 2 expired.
    pub state: i32,
    pub exe_path: Option<String>,
}

/// The state that a number of Windows stands for.
pub open spec fn state_of(code: i32) -> SessionState {
    if code == 1 {
        SessionState::Active
    } else if code == 2 {
        SessionState::Expired
    } else {
        SessionState::Inactive
    }
}

/// Whether the path of the executable is asked for: the system sounds and
/// sessions without a process have none.
pub open spec fn has_exe(pid: u32, is_system_sounds: bool) -> bool {
    pid != 0 && !is_system_sounds
}

/// Whether the path of the executable is asked for.
pub fn wants_exe_path(pid: Option<u32>, system_sounds: i32) -> (b: bool)
    ensures
        b == has_exe(
            match pid {
                Some(p) => p,
                None => 0,
            },
            system_sounds == 0,
        ),
        b <==> pid is Some && pid->0 != 0 && system_sounds != 0,
{
    match pid {
        Some(p) => p != 0 && system_sounds != 0,
        None => false,
    }
}

/// What the question for the path of an executable brought: the text in the
/// first `len` units of the buffer, or an error where Windows wrote none.
pub open spec fn path_brought(
    buffer: Seq<u16>,
    len: int,
    r: Result<String, WasapiError>,
) -> bool {
    if len == 0 {
        r == Err::<String, WasapiError>(WasapiError::BadString)
    } else {
        r matches Ok(path) && path@ == crate::text::utf16_lossy(buffer.take(len))
    }
}

/// The path of an executable, from the buffer that Windows wrote `len` units to.
pub fn pid_to_exe_path(buffer: &Vec<u16>, len: usize) -> (r: Result<String, WasapiError>)
    requires
        len <= buffer@.len(),
    ensures
        path_brought(buffer@, len as int, r),
        len == 0 ==> r == Err::<String, WasapiError>(WasapiError::BadString),
        len > 0 ==> r is Ok && r->Ok_0@ == crate::text::utf16_lossy(buffer@.take(len as int)),
{
    if len == 0 {
        return Err(WasapiError::BadString);
    }
    Ok(utf16_text(buffer, len))
}

/// The text that a question brought, or the empty text.
pub open spec fn or_empty(t: Option<String>) -> Seq<char> {
    match t {
        Some(s) => s@,
        None => Seq::empty(),
    }
}

fn text_or_empty(t: &Option<String>) -> (s: String)
    ensures
        s@ == or_empty(*t),
{
    match t {
        Some(s) => s.clone(),
        None => String::new(),
    }
}

/// Whether `s` is the session that `raw` describes.
pub open spec fn describes(raw: RawSession, s: AudioSession) -> bool {
    &&& s.pid == match raw.pid {
        Some(p) => p,
        None => 0,
    }
    &&& s.is_system_sounds == (raw.system_sounds == 0)
    &&& s.display_name@ == or_empty(raw.display_name)
    &&& s.state == state_of(raw.state)
    &&& s.exe_path@ == if has_exe(s.pid, s.is_system_sounds) {
        or_empty(raw.exe_path)
    } else {
        Seq::empty()
    }
}

/// The session that `raw` describes.
pub fn session_of(raw: &RawSession) -> (s: AudioSession)
    ensures
        describes(*raw, s),
{
    let pid: u32 = match raw.pid {
        Some(p) => p,
        None => 0,
    };
    let is_system_sounds = raw.system_sounds == 0;
    let state = if raw.state == 1 {
        SessionState::Active
    } else if raw.state == 2 {
        SessionState::Expired
    } else {
        SessionState::Inactive
    };
    let exe_path = if pid != 0 && !is_system_sounds {
        text_or_empty(&raw.exe_path)
    } else {
        String::new()
    };
    AudioSession {
        pid,
        exe_path,
        display_name: text_or_empty(&raw.display_name),
        state,
        is_system_sounds,
    }
}

// ---------------------------------------------------------------------------
// Order of the list
// ---------------------------------------------------------------------------
/// Active sessions come first, expired ones last.
pub open spec fn rank_of(state: SessionState) -> int {
    match state {
        SessionState::Active => 0,
        SessionState::Inactive => 1,
        SessionState::Expired => 2,
    }
}

fn rank(state: SessionState) -> (r: u8)
    ensures
        r == rank_of(state),
{
    match state {
        SessionState::Active => 0,
        SessionState::Inactive => 1,
        SessionState::Expired => 2,
    }
}

/// Whether `a` is listed before `b`: by state, then by label.
pub open spec fn comes_before(a: AudioSession, b: AudioSession) -> bool {
    rank_of(a.state) < rank_of(b.state) || (rank_of(a.state) == rank_of(b.state)
        && crate::text::text_before(a.label(), b.label()))
}

/// Whether `list` is the sorted list of the sessions that `raws` describe:
/// `order` says, for each entry, which of `raws` it is. Every one is listed
/// once, and sessions with the same state and label keep their order.
pub open spec fn sorted_as(
    raws: Seq<RawSession>,
    list: Seq<AudioSession>,
    order: Seq<int>,
) -> bool {
    &&& list.len() == raws.len()
    &&& order.len() == raws.len()
    &&& forall|i: int| 0 <= i < order.len() ==> 0 <= #[trigger] order[i] < raws.len()
    &&& forall|i: int, j: int|
        0 <= i < j < order.len() ==> #[trigger] order[i] != #[trigger] order[j]
    &&& forall|i: int|
        0 <= i < list.len() ==> describes(raws[#[trigger] order[i]], list[i])
    &&& forall|i: int, j: int|
        0 <= i < j < list.len() ==> {
            ||| comes_before(#[trigger] list[i], #[trigger] list[j])
            ||| !comes_before(list[j], list[i]) && order[i] < order[j]
        }
}

/// Whether `list` is the sorted list of the sessions that `raws` describe.
pub open spec fn is_sorted_list(raws: Seq<RawSession>, list: Seq<AudioSession>) -> bool {
    exists|order: Seq<int>| sorted_as(raws, list, order)
}

proof fn lemma_comes_before_asymmetric(a: AudioSession, b: AudioSession)
    requires
        comes_before(a, b),
    ensures
        !comes_before(b, a),
{
    if comes_before(b, a) {
        crate::text::lemma_before_transitive(a.label(), b.label(), a.label());
        crate::text::lemma_before_irreflexive(a.label());
    }
}

proof fn lemma_comes_before_splits(a: AudioSession, b: AudioSession, c: AudioSession)
    requires
        comes_before(a, b),
    ensures
        comes_before(a, c) || comes_before(c, b),
{
    let x = a.label();
    let y = b.label();
    let z = c.label();
    if rank_of(a.state) == rank_of(b.state) == rank_of(c.state) {
        if x != z {
            crate::text::lemma_before_total(x, z);
            if crate::text::text_before(z, x) {
                crate::text::lemma_before_transitive(z, x, y);
            }
        }
    }
}

/// Putting the next session behind all that do not come after it keeps a list
/// sorted.
proof fn lemma_insert_sorted(
    raws: Seq<RawSession>,
    list: Seq<AudioSession>,
    order: Seq<int>,
    raw: RawSession,
    s: AudioSession,
    p: int,
)
    requires
        sorted_as(raws, list, order),
        describes(raw, s),
        0 <= p <= list.len(),
        forall|i: int| 0 <= i < p ==> !comes_before(s, #[trigger] list[i]),
        p < list.len() ==> comes_before(s, list[p]),
    ensures
        sorted_as(raws.push(raw), list.insert(p, s), order.insert(p, raws.len() as int)),
{
    let n = raws.len() as int;
    let raws2 = raws.push(raw);
    let list2 = list.insert(p, s);
    let order2 = order.insert(p, n);
    assert forall|i: int| p <= i < list.len() implies comes_before(s, #[trigger] list[i]) by {
        if i > p {
            lemma_comes_before_splits(s, list[p], list[i]);
            if comes_before(list[p], list[i]) {
                lemma_comes_before_asymmetric(list[p], list[i]);
            }
        }
    }
    assert forall|i: int| 0 <= i < order2.len() implies 0 <= #[trigger] order2[i] < raws2.len() by {
        if i < p {
            assert(order2[i] == order[i]);
        } else if i > p {
            assert(order2[i] == order[i - 1]);
        }
    }
    assert forall|i: int, j: int| 0 <= i < j < order2.len() implies #[trigger] order2[i]
        != #[trigger] order2[j] by {
        let a = if i < p { i } else { i - 1 };
        let b = if j < p { j } else { j - 1 };
        if i != p && j != p {
            assert(order[a] != order[b]);
        } else if i != p {
            assert(order[a] < n);
        } else {
            assert(order[b] < n);
        }
    }
    assert forall|i: int| 0 <= i < list2.len() implies describes(
        raws2[#[trigger] order2[i]],
        list2[i],
    ) by {
        if i < p {
            assert(order2[i] == order[i]);
        } else if i > p {
            assert(order2[i] == order[i - 1]);
        }
    }
    assert forall|i: int, j: int| 0 <= i < j < list2.len() implies {
        ||| comes_before(#[trigger] list2[i], #[trigger] list2[j])
        ||| !comes_before(list2[j], list2[i]) && order2[i] < order2[j]
    } by {
        let a = if i < p { i } else { i - 1 };
        let b = if j < p { j } else { j - 1 };
        if i != p && j != p {
            assert(list2[i] == list[a] && list2[j] == list[b]);
            assert(order2[i] == order[a] && order2[j] == order[b]);
        } else if i != p {
            assert(list2[i] == list[a]);
            assert(order2[i] == order[a]);
        } else {
            assert(list2[j] == list[b]);
        }
    }
}

fn session_before(state: SessionState, label: &str, other: &AudioSession) -> (b: bool)
    ensures
        forall|s: AudioSession|
            s.state == state && s.label() == label@ ==> b == #[trigger] comes_before(s, *other),
{
    let a = rank(state);
    let b = rank(other.state);
    if a != b {
        return a < b;
    }
    let other_label = other.best_label();
    precedes(label, other_label.as_str())
}

/// The sessions that Windows reports, sorted by state and label.
pub fn sort_sessions(raws: &Vec<RawSession>) -> (list: Vec<AudioSession>)
    ensures
        is_sorted_list(raws@, list@),
{
    let mut list: Vec<AudioSession> = Vec::new();
    let ghost mut order: Seq<int> = Seq::empty();
    let mut k: usize = 0;
    while k < raws.len()
        invariant
            k <= raws@.len(),
            sorted_as(raws@.take(k as int), list@, order),
        decreases raws.len() - k,
    {
        let s = session_of(&raws[k]);
        let label = s.best_label();
        let mut p: usize = 0;
        while p < list.len() && !session_before(s.state, label.as_str(), &list[p])
            invariant
                p <= list@.len(),
                label@ == s.label(),
                forall|i: int| 0 <= i < p ==> !comes_before(s, #[trigger] list@[i]),
            decreases list.len() - p,
        {
            assert(!comes_before(s, list@[p as int]));
            p = p + 1;
        }
        proof {
            lemma_insert_sorted(
                raws@.take(k as int),
                list@,
                order,
                raws@[k as int],
                s,
                p as int,
            );
            assert(raws@.take(k as int).push(raws@[k as int]) == raws@.take(k + 1));
            order = order.insert(p as int, k as int);
        }
        list.insert(p, s);
        k = k + 1;
    }
    assert(raws@.take(raws@.len() as int) == raws@);
    list
}

/// The sessions that Windows reports, sorted by state and label, or why they
/// cannot be listed.
pub fn list_audio_sessions(raws: Result<Vec<RawSession>, WasapiError>) -> (r: Result<
    Vec<AudioSession>,
    WasapiError,
>)
    ensures
        match raws {
            Ok(v) => r matches Ok(list) && is_sorted_list(v@, list@),
            Err(e) => r == Err::<Vec<AudioSession>, WasapiError>(e),
        },
{
    match raws {
        Ok(v) => Ok(sort_sessions(&v)),
        Err(e) => Err(e),
    }
}

/// In the list no session stands behind one that it should come before.
pub proof fn law_list_is_sorted(
    raws: Seq<RawSession>,
    list: Seq<AudioSession>,
    i: int,
    j: int,
)
    requires
        is_sorted_list(raws, list),
        0 <= i < j < list.len(),
    ensures
        !comes_before(list[j], list[i]),
        rank_of(list[i].state) <= rank_of(list[j].state),
{
    let order = choose|order: Seq<int>| sorted_as(raws, list, order);
    assert(sorted_as(raws, list, order));
    if comes_before(list[i], list[j]) {
        lemma_comes_before_asymmetric(list[i], list[j]);
    }
}

// ---------------------------------------------------------------------------
// Laws of labels, fields and order
// ---------------------------------------------------------------------------
/// What a session is called: the system sounds have a name of their own; any other
/// session has the file name of its executable, where there is none the display
/// name unless it starts with `@`, and else its process id.
pub proof fn law_label_by_preference(s: AudioSession)
    ensures
        ({
            let name = crate::winpath::file_name_of(s.exe_path@);
            let shown = s.display_name@.len() > 0 && s.display_name@[0] != '@';
            &&& s.is_system_sounds ==> s.label() == "Windows 系统提示音"@
            &&& !s.is_system_sounds && name is Some ==> s.label() == name->0
            &&& !s.is_system_sounds && name is None && shown ==> s.label() == s.display_name@
            &&& !s.is_system_sounds && name is None && !shown ==> s.label() == "PID "@
                + crate::text::decimal(s.pid as nat)
        }),
{
}

/// A label does not depend on what the session is doing; nor, where the executable
/// has a file name, on the display name and the process.
pub proof fn law_label_is_independent(s: AudioSession, t: AudioSession)
    requires
        s.is_system_sounds == t.is_system_sounds,
        s.exe_path@ == t.exe_path@,
    ensures
        s.display_name@ == t.display_name@ && s.pid == t.pid ==> s.label() == t.label(),
        crate::winpath::file_name_of(s.exe_path@) is Some ==> s.label() == t.label(),
{
}

/// The fields of a session from the answers of Windows. A failed question leaves
/// its field empty. The path of the executable is taken over only where there is
/// a process that is not that of the system sounds.
pub proof fn law_fields_of_a_session(raw: RawSession, s: AudioSession)
    requires
        describes(raw, s),
    ensures
        raw.pid is Some ==> s.pid == raw.pid->0,
        raw.pid is None ==> s.pid == 0,
        s.is_system_sounds <==> raw.system_sounds == 0,
        s.state is Active <==> raw.state == 1,
        s.state is Expired <==> raw.state == 2,
        s.state is Inactive <==> raw.state != 1 && raw.state != 2,
        raw.display_name is Some ==> s.display_name@ == raw.display_name->0@,
        raw.display_name is None ==> s.display_name@.len() == 0,
        s.pid != 0 && raw.system_sounds != 0 && raw.exe_path is Some ==> s.exe_path@
            == raw.exe_path->0@,
        s.pid == 0 || raw.system_sounds == 0 || raw.exe_path is None ==> s.exe_path@.len() == 0,
{
}

/// The list by states and labels: active sessions come before the others, expired
/// ones after the others, and among sessions of one state no label stands behind
/// a greater one.
pub proof fn law_order_of_the_list(
    raws: Seq<RawSession>,
    list: Seq<AudioSession>,
    i: int,
    j: int,
)
    requires
        is_sorted_list(raws, list),
        0 <= i < j < list.len(),
    ensures
        list[j].state is Active ==> list[i].state is Active,
        list[i].state is Expired ==> list[j].state is Expired,
        list[i].state == list[j].state ==> !crate::text::text_before(
            list[j].label(),
            list[i].label(),
        ),
{
    law_list_is_sorted(raws, list, i, j);
}

/// Every session that Windows reports is listed once: some numbering of the list
/// by places of the report uses each place once, and describes what it numbers.
/// Sessions with one state and one label stand in the order of the report.
pub proof fn law_list_is_complete(raws: Seq<RawSession>, list: Seq<AudioSession>)
    requires
        is_sorted_list(raws, list),
    ensures
        exists|order: Seq<int>| #[trigger] numbers(raws, list, order),
{
    let order = choose|order: Seq<int>| sorted_as(raws, list, order);
    let n = raws.len() as int;
    assert(order.no_duplicates());
    order.unique_seq_to_set();
    let all = vstd::set_lib::set_int_range(0, n);
    vstd::set_lib::lemma_int_range(0, n);
    assert(order.to_set().subset_of(all));
    vstd::set_lib::lemma_subset_equality(order.to_set(), all);
    assert forall|k: int| 0 <= k < n implies #[trigger] order.contains(k) by {
        assert(all.contains(k));
        assert(order.to_set().contains(k));
    }
    assert forall|i: int, j: int|
        0 <= i < j < list.len() && #[trigger] list[i].state == #[trigger] list[j].state
            && list[i].label() == list[j].label() implies order[i] < order[j] by {
        crate::text::lemma_before_irreflexive(list[i].label());
    }
    assert(numbers(raws, list, order));
}

/// Whether `order` gives each entry of the list its place in the report.
pub open spec fn numbers(
    raws: Seq<RawSession>,
    list: Seq<AudioSession>,
    order: Seq<int>,
) -> bool {
    &&& list.len() == raws.len() == order.len()
    &&& order.no_duplicates()
    &&& forall|k: int| 0 <= k < raws.len() ==> #[trigger] order.contains(k)
    &&& forall|i: int|
        0 <= i < list.len() ==> 0 <= #[trigger] order[i] < raws.len() && describes(
            raws[order[i]],
            list[i],
        )
    &&& forall|i: int, j: int|
        0 <= i < j < list.len() && #[trigger] list[i].state == #[trigger] list[j].state
            && list[i].label() == list[j].label() ==> order[i] < order[j]
}

} // verus!

use system_recorder::error::WasapiError;
use system_recorder::sessions::{
    list_audio_sessions, pid_to_exe_path, session_of, sort_sessions, wants_exe_path, AudioSession,
    RawSession, SessionState,
};

fn session(exe_path: &str, display_name: &str, is_system_sounds: bool) -> AudioSession {
    AudioSession {
        pid: 4711,
        exe_path: exe_path.to_string(),
        display_name: display_name.to_string(),
        state: SessionState::Active,
        is_system_sounds,
    }
}

fn raw(pid: u32, state: i32, exe: &str, name: &str) -> RawSession {
    RawSession {
        pid: Some(pid),
        system_sounds: 1,
        display_name: Some(name.to_string()),
        state,
        exe_path: Some(exe.to_string()),
    }
}

#[test]
fn labels_follow_the_order_of_preference() {
    assert_eq!(
        session("C:\\x\\player.exe", "Player", true).best_label(),
        "Windows 系统提示音"
    );
    assert_eq!(session("C:\\x\\player.exe", "Player", false).best_label(), "player.exe");
    assert_eq!(session("", "Player", false).best_label(), "Player");
    assert_eq!(session("C:\\", "Player", false).best_label(), "Player");
    assert_eq!(session("", "@%SystemRoot%\\x.dll,-202", false).best_label(), "PID 4711");
    assert_eq!(session("", "", false).best_label(), "PID 4711");
}

#[test]
fn labels_are_never_empty() {
    for exe in ["", "C:\\", "..", "a.exe"] {
        for name in ["", "@", "x"] {
            for system in [true, false] {
                assert!(!session(exe, name, system).best_label().is_empty());
            }
        }
    }
}

#[test]
fn answers_of_windows_become_sessions() {
    let s = session_of(&raw(12, 1, "C:\\a.exe", "A"));
    assert_eq!(s.pid, 12);
    assert_eq!(s.exe_path, "C:\\a.exe");
    assert_eq!(s.display_name, "A");
    assert_eq!(s.state, SessionState::Active);
    assert!(!s.is_system_sounds);
    assert_eq!(session_of(&raw(1, 0, "", "")).state, SessionState::Inactive);
    assert_eq!(session_of(&raw(1, 2, "", "")).state, SessionState::Expired);
    assert_eq!(session_of(&raw(1, 99, "", "")).state, SessionState::Inactive);
}

#[test]
fn failed_questions_leave_their_field_empty() {
    let s = session_of(&RawSession {
        pid: None,
        system_sounds: 1,
        display_name: None,
        state: 1,
        exe_path: Some("C:\\ignored.exe".to_string()),
    });
    assert_eq!(s.pid, 0);
    assert_eq!(s.display_name, "");
    assert_eq!(s.exe_path, "");
    let mut r = raw(7, 1, "C:\\ignored.exe", "x");
    r.system_sounds = 0;
    let s = session_of(&r);
    assert!(s.is_system_sounds);
    assert_eq!(s.exe_path, "");
}

#[test]
fn the_executable_is_asked_for_only_where_there_is_one() {
    assert!(wants_exe_path(Some(7), 1));
    assert!(!wants_exe_path(Some(0), 1));
    assert!(!wants_exe_path(Some(7), 0));
    assert!(!wants_exe_path(None, 1));
}

#[test]
fn the_path_of_an_executable_is_decoded() {
    let mut buffer: Vec<u16> = "C:\\歌.exe".encode_utf16().collect();
    let len = buffer.len();
    buffer.resize(260, 0);
    assert_eq!(pid_to_exe_path(&buffer, len), Ok("C:\\歌.exe".to_string()));
    assert_eq!(pid_to_exe_path(&buffer, 0), Err(WasapiError::BadString));
}

#[test]
fn sessions_are_sorted_by_state_and_label() {
    let raws = vec![
        raw(1, 2, "C:\\a.exe", ""),
        raw(2, 0, "C:\\b.exe", ""),
        raw(3, 1, "C:\\z.exe", ""),
        raw(4, 1, "C:\\c.exe", ""),
        raw(5, 0, "C:\\a.exe", ""),
    ];
    let pids: Vec<u32> = sort_sessions(&raws).iter().map(|s| s.pid).collect();
    assert_eq!(pids, vec![4, 3, 5, 2, 1]);
}

#[test]
fn equal_sessions_keep_their_order() {
    let raws = vec![
        raw(9, 1, "C:\\x\\a.exe", ""),
        raw(3, 1, "C:\\y\\a.exe", ""),
        raw(7, 1, "D:\\a.exe", ""),
        raw(1, 1, "C:\\0.exe", ""),
    ];
    let pids: Vec<u32> = sort_sessions(&raws).iter().map(|s| s.pid).collect();
    assert_eq!(pids, vec![1, 9, 3, 7]);
}

#[test]
fn sorting_is_the_stable_sort_of_std() {
    let exes = ["C:\\b.exe", "C:\\a.exe", "", "C:\\音.exe", "C:\\B.exe"];
    let mut raws: Vec<RawSession> = Vec::new();
    for i in 0..60u32 {
        raws.push(raw(i + 1, (i * 7 % 3) as i32, exes[(i * 11 % 5) as usize], ""));
    }
    let mut expected: Vec<AudioSession> = raws.iter().map(session_of).collect();
    expected.sort_by(|a, b| {
        (a.state as u8, a.best_label()).cmp(&(b.state as u8, b.best_label()))
    });
    let expected: Vec<u32> = expected.iter().map(|s| s.pid).collect();
    let sorted: Vec<u32> = sort_sessions(&raws).iter().map(|s| s.pid).collect();
    assert_eq!(sorted, expected);
}

#[test]
fn an_error_is_passed_on() {
    assert!(matches!(
        list_audio_sessions(Err(WasapiError::BadString)),
        Err(WasapiError::BadString)
    ));
    let list = list_audio_sessions(Ok(vec![raw(2, 0, "", ""), raw(1, 1, "", "")])).unwrap();
    assert_eq!(list.len(), 2);
    assert_eq!(list[0].pid, 1);
}

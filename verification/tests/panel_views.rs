use system_recorder::devices::{EndpointDevice, EndpointFlow};
use system_recorder::panels::{
    device_column, device_combo, session_column, session_combo, state_tag, Column,
};
use system_recorder::sessions::{AudioSession, SessionState};

fn device(id: &str, name: &str, is_default: bool, flow: EndpointFlow) -> EndpointDevice {
    EndpointDevice { id: id.to_string(), friendly_name: name.to_string(), is_default, flow }
}

fn session(pid: u32, exe: &str, system: bool) -> AudioSession {
    AudioSession {
        pid,
        exe_path: exe.to_string(),
        display_name: String::new(),
        state: SessionState::Inactive,
        is_system_sounds: system,
    }
}

#[test]
fn a_failed_list_shows_why() {
    match device_column(&Err("没有权限".to_string())) {
        Column::Failed(text) => assert_eq!(text, "枚举失败: 没有权限"),
        other => panic!("{:?}", other),
    }
    match session_column(&Err("e".to_string())) {
        Column::Failed(text) => assert_eq!(text, "枚举失败: e"),
        other => panic!("{:?}", other),
    }
}

#[test]
fn an_empty_list_is_shown_as_empty() {
    assert!(matches!(device_column(&Ok(vec![])), Column::Empty));
    assert!(matches!(session_column(&Ok(vec![])), Column::Empty));
}

#[test]
fn endpoints_are_shown_with_flow_and_id() {
    let list = vec![
        device("{1}", "扬声器", true, EndpointFlow::Render),
        device("{2}", "麦克风", false, EndpointFlow::Capture),
    ];
    match device_column(&Ok(list)) {
        Column::Rows(rows) => {
            assert_eq!(rows.len(), 2);
            assert_eq!(rows[0].name, "扬声器");
            assert!(rows[0].is_default);
            assert_eq!(rows[0].detail, "render · {1}");
            assert!(!rows[1].is_default);
            assert_eq!(rows[1].detail, "capture · {2}");
        }
        other => panic!("{:?}", other),
    }
}

#[test]
fn sessions_are_shown_with_label_and_process() {
    match session_column(&Ok(vec![session(12, "C:\\a\\b.exe", false), session(0, "", true)])) {
        Column::Rows(rows) => {
            assert_eq!(rows[0].label, "b.exe");
            assert_eq!(rows[0].tag, "inactive");
            assert_eq!(rows[0].detail, "PID 12");
            assert_eq!(rows[0].hover.as_deref(), Some("C:\\a\\b.exe"));
            assert_eq!(rows[1].label, "Windows 系统提示音");
            assert_eq!(rows[1].detail, "PID 0");
            assert_eq!(rows[1].hover, None);
        }
        other => panic!("{:?}", other),
    }
}

#[test]
fn states_have_words() {
    assert_eq!(state_tag(SessionState::Active), "active");
    assert_eq!(state_tag(SessionState::Inactive), "inactive");
    assert_eq!(state_tag(SessionState::Expired), "expired");
}

#[test]
fn the_endpoint_list_shows_the_selection() {
    let list = vec![
        device("1", "A", true, EndpointFlow::Capture),
        device("2", "B", false, EndpointFlow::Capture),
    ];
    let combo = device_combo(&list, &Some("2".to_string()), "<选择麦克风>");
    assert_eq!(combo.current, "B");
    assert_eq!(
        combo.entries,
        vec![("1".to_string(), "★ A".to_string()), ("2".to_string(), "B".to_string())]
    );
    assert_eq!(device_combo(&list, &Some("1".to_string()), "<p>").current, "A");
    assert_eq!(device_combo(&list, &Some("3".to_string()), "<p>").current, "<p>");
    assert_eq!(device_combo(&list, &None, "<p>").current, "<p>");
}

#[test]
fn only_recordable_sessions_are_offered() {
    let list = vec![
        session(0, "", false),
        session(5, "C:\\a.exe", false),
        session(6, "", true),
        session(7, "", false),
        session(5, "C:\\b.exe", false),
    ];
    let combo = session_combo(&list, Some(5));
    assert_eq!(combo.current, "a.exe (PID 5)");
    assert_eq!(
        combo.entries,
        vec![
            (5, "a.exe (PID 5)".to_string()),
            (7, "PID 7 (PID 7)".to_string()),
            (5, "b.exe (PID 5)".to_string()),
        ]
    );
    assert_eq!(session_combo(&list, Some(7)).current, "PID 7 (PID 7)");
    assert_eq!(session_combo(&list, Some(6)).current, "<选择应用>");
    assert_eq!(session_combo(&list, Some(0)).current, "<选择应用>");
    assert_eq!(session_combo(&list, None).current, "<选择应用>");
    assert!(session_combo(&vec![], Some(5)).entries.is_empty());
}

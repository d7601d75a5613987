use system_recorder::paths::{app_data_dir, config_path, log_path};
use system_recorder::winpath::{file_name, join_path};

fn name(path: &str) -> Option<String> {
    file_name(path)
}

#[test]
fn file_names_of_ordinary_paths() {
    assert_eq!(name("C:\\Program Files\\App\\app.exe").as_deref(), Some("app.exe"));
    assert_eq!(name("C:/Program Files/App/app.exe").as_deref(), Some("app.exe"));
    assert_eq!(name("app.exe").as_deref(), Some("app.exe"));
    assert_eq!(name("C:app.exe").as_deref(), Some("app.exe"));
    assert_eq!(name("C:\\音乐\\播放器.exe").as_deref(), Some("播放器.exe"));
    assert_eq!(name("dir\\").as_deref(), Some("dir"));
    assert_eq!(name("dir\\\\.\\").as_deref(), Some("dir"));
    assert_eq!(name(".hidden").as_deref(), Some(".hidden"));
}

#[test]
fn paths_without_file_name() {
    assert_eq!(name(""), None);
    assert_eq!(name("C:\\"), None);
    assert_eq!(name("C:"), None);
    assert_eq!(name("\\"), None);
    assert_eq!(name("."), None);
    assert_eq!(name(".."), None);
    assert_eq!(name("dir\\.."), None);
    assert_eq!(name("\\\\server\\share"), None);
    assert_eq!(name("\\\\server\\share\\"), None);
    assert_eq!(name("\\\\?\\C:"), None);
}

#[test]
fn file_names_behind_prefixes() {
    assert_eq!(name("\\\\server\\share\\x.exe").as_deref(), Some("x.exe"));
    assert_eq!(name("\\\\?\\C:\\dir\\x.exe").as_deref(), Some("x.exe"));
    assert_eq!(name("\\\\?\\UNC\\server\\share\\x.exe").as_deref(), Some("x.exe"));
    assert_eq!(name("\\\\.\\COM1\\x").as_deref(), Some("x"));
    // behind a verbatim prefix a slash separates nothing
    assert_eq!(name("\\\\?\\C:\\a/b").as_deref(), Some("a/b"));
    assert_eq!(name("\\\\?\\C:\\a\\."), None);
    assert_eq!(name("\\\\?\\C:/a").as_deref(), Some("a"));
}

#[test]
fn joining_relative_paths() {
    assert_eq!(join_path("D:\\rec", "a.wav"), "D:\\rec\\a.wav");
    assert_eq!(join_path("D:\\rec\\", "a.wav"), "D:\\rec\\a.wav");
    assert_eq!(join_path("D:/rec/", "a.wav"), "D:/rec/a.wav");
    assert_eq!(join_path(".", "a.wav"), ".\\a.wav");
    assert_eq!(join_path("", "a.wav"), "a.wav");
    assert_eq!(join_path("D:", "a.wav"), "D:a.wav");
    assert_eq!(join_path("D:\\rec", ""), "D:\\rec\\");
}

#[test]
fn joining_paths_that_stand_for_themselves() {
    assert_eq!(join_path("D:\\rec", "E:\\a.wav"), "E:\\a.wav");
    assert_eq!(join_path("D:\\rec", "E:a.wav"), "E:a.wav");
    assert_eq!(join_path("D:\\rec", "\\\\server\\share\\a.wav"), "\\\\server\\share\\a.wav");
    assert_eq!(join_path("D:\\rec", "\\a.wav"), "D:\\a.wav");
    assert_eq!(join_path("D:\\rec", "/a.wav"), "D:/a.wav");
    assert_eq!(join_path("\\\\server\\share\\x", "\\a.wav"), "\\\\server\\share\\a.wav");
}

#[test]
fn joining_behind_a_verbatim_prefix_resolves_references() {
    assert_eq!(join_path("\\\\?\\C:\\rec", "a.wav"), "\\\\?\\C:\\rec\\a.wav");
    assert_eq!(join_path("\\\\?\\C:\\rec\\\\x\\", "..\\a.wav"), "\\\\?\\C:\\rec\\a.wav");
    assert_eq!(join_path("\\\\?\\C:\\rec", "./b/../a.wav"), "\\\\?\\C:\\rec\\a.wav");
    assert_eq!(join_path("\\\\?\\C:\\rec", "\\a.wav"), "\\\\?\\C:\\a.wav");
    assert_eq!(join_path("\\\\?\\C:\\rec", ".."), "\\\\?\\C:\\");
    assert_eq!(join_path("\\\\?\\C:\\rec", "..\\.."), "\\\\?\\C:\\");
    assert_eq!(join_path("\\\\?\\C:\\rec\\.", "..\\x"), "\\\\?\\C:\\rec\\.\\x");
    assert_eq!(join_path("\\\\?\\UNC\\s\\h", "a"), "\\\\?\\UNC\\s\\h\\a");
    assert_eq!(join_path("\\\\?\\C:", "a"), "\\\\?\\C:\\a");
    assert_eq!(join_path("\\\\?\\C:\\rec\\\\", ""), "\\\\?\\C:\\rec\\\\");
    assert_eq!(join_path("\\\\?\\C:\\rec", "D:\\x"), "D:\\x");
}

#[test]
fn files_lie_below_a_verbatim_directory() {
    assert_eq!(
        config_path(Some("\\\\?\\C:\\data\\\\")),
        "\\\\?\\C:\\data\\SystemRecorder\\config.json"
    );
    assert_eq!(
        log_path(Some("\\\\?")),
        "\\\\?\\SystemRecorder\\system-recorder.log"
    );
}

#[test]
fn files_lie_below_the_application_data() {
    let appdata = Some("C:\\Users\\李\\AppData\\Roaming");
    assert_eq!(app_data_dir(appdata), "C:\\Users\\李\\AppData\\Roaming\\SystemRecorder");
    assert_eq!(
        log_path(appdata),
        "C:\\Users\\李\\AppData\\Roaming\\SystemRecorder\\system-recorder.log"
    );
    assert_eq!(
        config_path(appdata),
        "C:\\Users\\李\\AppData\\Roaming\\SystemRecorder\\config.json"
    );
}

#[test]
fn files_lie_in_the_working_directory_without_application_data() {
    assert_eq!(app_data_dir(None), ".\\SystemRecorder");
    assert_eq!(log_path(None), ".\\SystemRecorder\\system-recorder.log");
    assert_eq!(config_path(None), ".\\SystemRecorder\\config.json");
}

//! Where the recorder keeps its files.
use vstd::prelude::*;

use crate::winpath::join_path;

verus! {

/// The directory of the recorder below the application data directory of the
/// user, or below the working directory where there is none.
pub open spec fn data_dir(appdata: Option<Seq<char>>) -> Seq<char> {
    crate::winpath::join_of(
        match appdata {
            Some(base) => base,
            None => "."@,
        },
        "SystemRecorder"@,
    )
}

/// A text, if there is one, as a sequence of characters.
pub open spec fn text_view(t: Option<&str>) -> Option<Seq<char>> {
    match t {
        Some(s) => Some(s@),
        None => None,
    }
}

/// The directory of the recorder; `appdata` is the value of `%APPDATA%`.
pub fn app_data_dir(appdata: Option<&str>) -> (dir: String)
    ensures
        dir@ == data_dir(text_view(appdata)),
{
    match appdata {
        Some(base) => join_path(base, "SystemRecorder"),
        None => join_path(".", "SystemRecorder"),
    }
}

/// The path of the log file.
pub fn log_path(appdata: Option<&str>) -> (path: String)
    ensures
        path@ == crate::winpath::join_of(data_dir(text_view(appdata)), "system-recorder.log"@),
{
    let dir = app_data_dir(appdata);
    join_path(dir.as_str(), "system-recorder.log")
}

/// The path of the configuration file.
pub fn config_path(appdata: Option<&str>) -> (path: String)
    ensures
        path@ == crate::winpath::join_of(data_dir(text_view(appdata)), "config.json"@),
{
    let dir = app_data_dir(appdata);
    join_path(dir.as_str(), "config.json")
}

/// The files of the recorder lie in its data directory, and their paths differ.
pub proof fn law_files_lie_in_data_dir(appdata: Option<Seq<char>>)
    ensures
        crate::winpath::join_of(data_dir(appdata), "system-recorder.log"@) == data_dir(
            appdata,
        ).push('\\') + "system-recorder.log"@,
        crate::winpath::join_of(data_dir(appdata), "config.json"@) == data_dir(appdata).push('\\')
            + "config.json"@,
        crate::winpath::join_of(data_dir(appdata), "system-recorder.log"@)
            != crate::winpath::join_of(data_dir(appdata), "config.json"@),
{
    reveal_strlit("SystemRecorder");
    reveal_strlit("system-recorder.log");
    reveal_strlit("config.json");
    let base = match appdata {
        Some(base) => base,
        None => "."@,
    };
    let dir = data_dir(appdata);
    let log = "system-recorder.log"@;
    let config = "config.json"@;
    assert(crate::winpath::is_plain("SystemRecorder"@));
    assert(crate::winpath::is_plain(log));
    assert(crate::winpath::is_plain(config));
    crate::winpath::lemma_join_nested(base, "SystemRecorder"@, log);
    crate::winpath::lemma_join_nested(base, "SystemRecorder"@, config);
    let a = dir.push('\\') + log;
    let b = dir.push('\\') + config;
    assert(a.len() != b.len());
}

/// The data directory lies directly below the application data directory of the
/// user, or below the working directory where there is none.
pub proof fn law_data_dir(base: Seq<char>)
    requires
        base.len() > 0,
        base.last() != '\\',
        base.last() != '/',
        base.last() != ':',
        !(base.len() >= 4 && base[0] == '\\' && base[1] == '\\' && base[2] == '?' && base[3]
            == '\\'),
    ensures
        data_dir(Some(base)) == base + seq!['\\'] + "SystemRecorder"@,
        data_dir(None) == "."@ + seq!['\\'] + "SystemRecorder"@,
{
    reveal_strlit("SystemRecorder");
    reveal_strlit(".");
    crate::winpath::law_join_relative(base, "SystemRecorder"@);
    crate::winpath::law_join_relative("."@, "SystemRecorder"@);
}

/// The value of `%APPDATA%` counts as it is.
pub proof fn law_text_view(t: &str)
    ensures
        text_view(Some(t)) == Some(t@),
        text_view(None) is None,
{
}

} // verus!

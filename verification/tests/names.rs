use system_recorder::naming::{
    default_output_path, generate_output_filename, push_label, LocalTime, NamingMode, SequenceType,
};

fn time() -> LocalTime {
    LocalTime { year: 2023, month: 10, day: 27, hour: 10, minute: 30, second: 0 }
}

fn label(sequence: SequenceType, n: u64) -> String {
    let mut s = String::new();
    push_label(&mut s, sequence, n);
    s
}

fn series(prefix: &str, sequence: SequenceType) -> NamingMode {
    NamingMode::AutoIncrement { prefix: prefix.to_string(), sequence }
}

#[test]
fn default_names_carry_source_and_time() {
    assert_eq!(default_output_path("mic", &time()), "mic-20231027-103000.wav");
    let early = LocalTime { year: 33, month: 1, day: 2, hour: 3, minute: 4, second: 5 };
    assert_eq!(default_output_path("loopback", &early), "loopback-00330102-030405.wav");
}

#[test]
fn default_names_of_different_seconds_differ() {
    let times = [
        time(),
        LocalTime { second: 1, ..time() },
        LocalTime { minute: 3, ..time() },
        LocalTime { hour: 1, ..time() },
        LocalTime { day: 2, ..time() },
        LocalTime { month: 1, ..time() },
        LocalTime { year: 2024, ..time() },
    ];
    for (i, t) in times.iter().enumerate() {
        for (j, u) in times.iter().enumerate() {
            assert_eq!(
                default_output_path("app", t) == default_output_path("app", u),
                i == j
            );
        }
    }
}

#[test]
fn default_names_sort_as_the_times_do() {
    let times = [
        LocalTime { year: 33, ..time() },
        LocalTime { year: 2022, month: 12, day: 31, hour: 23, minute: 59, second: 59 },
        LocalTime { month: 9, day: 30, ..time() },
        LocalTime { day: 9, hour: 23, ..time() },
        LocalTime { hour: 9, minute: 59, ..time() },
        LocalTime { minute: 9, second: 59, ..time() },
        time(),
        LocalTime { second: 9, ..time() },
        LocalTime { second: 10, ..time() },
        LocalTime { year: 9999, ..time() },
    ];
    for prefix in ["mic", "录音\\x", ""] {
        for (i, t) in times.iter().enumerate() {
            let name = default_output_path(prefix, t);
            assert_eq!(name.chars().count(), prefix.chars().count() + 20);
            assert!(!name[prefix.len()..].contains(['\\', '/']));
            for (j, u) in times.iter().enumerate() {
                let other = default_output_path(prefix, u);
                assert_eq!(name < other, i < j);
                assert_eq!(name == other, i == j);
            }
        }
    }
}

#[test]
fn numeric_series_count_from_one() {
    assert_eq!(label(SequenceType::Numeric, 1), "1");
    assert_eq!(label(SequenceType::Numeric, 12), "12");
}

#[test]
fn letter_series_go_on_with_two_letters() {
    let lower: Vec<String> =
        [1, 2, 3, 26, 27, 28, 52, 53, 702, 703].iter().map(|n| label(SequenceType::AlphabeticLower, *n)).collect();
    assert_eq!(lower, vec!["a", "b", "c", "z", "aa", "ab", "az", "ba", "zz", "aaa"]);
    assert_eq!(label(SequenceType::AlphabeticUpper, 3), "C");
    assert_eq!(label(SequenceType::AlphabeticUpper, 28), "AB");
}

#[test]
fn labels_of_a_series_differ() {
    for sequence in [
        SequenceType::Numeric,
        SequenceType::AlphabeticLower,
        SequenceType::AlphabeticUpper,
    ] {
        let mut labels: Vec<String> = (1..2000u64).map(|n| label(sequence, n)).collect();
        labels.sort();
        labels.dedup();
        assert_eq!(labels.len(), 1999);
    }
}

#[test]
fn file_names_follow_the_mode() {
    let dir = "D:\\rec";
    assert_eq!(
        generate_output_filename("mic", &NamingMode::Timestamped, dir, None, &time()),
        "D:\\rec\\mic-20231027-103000.wav"
    );
    assert_eq!(
        generate_output_filename(
            "mic",
            &NamingMode::Fixed("recording".to_string()),
            dir,
            None,
            &time()
        ),
        "D:\\rec\\recording.wav"
    );
    assert_eq!(
        generate_output_filename(
            "app",
            &series("会议-", SequenceType::Numeric),
            dir,
            Some(7),
            &time()
        ),
        "D:\\rec\\会议-7.wav"
    );
    assert_eq!(
        generate_output_filename(
            "app",
            &series("", SequenceType::AlphabeticUpper),
            dir,
            Some(2),
            &time()
        ),
        "D:\\rec\\B.wav"
    );
}

#[test]
fn a_series_without_number_starts_at_one() {
    assert_eq!(
        generate_output_filename(
            "mic",
            &series("x", SequenceType::AlphabeticLower),
            ".",
            None,
            &time()
        ),
        ".\\xa.wav"
    );
}

#[test]
fn files_of_a_series_differ() {
    for prefix in ["", "x", "sub\\x", "E:\\y", "\\z", "\\\\s\\h", "C:", "\\\\?\\"] {
        let mode = series(prefix, SequenceType::AlphabeticLower);
        let mut paths: Vec<String> = (1..100usize)
            .map(|n| generate_output_filename("mic", &mode, "D:\\rec", Some(n), &time()))
            .collect();
        paths.sort();
        paths.dedup();
        assert_eq!(paths.len(), 99, "{}", prefix);
    }
}

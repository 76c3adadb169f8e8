use std::path::Path;

use hyprrec::clock::Timestamp;
use hyprrec::path::FilePath;
use hyprrec::text;

const PATHS: [&str; 24] = [
    "",
    "/",
    "//",
    ".",
    "..",
    "a",
    "a/",
    "a/.",
    "a/./",
    "/a",
    "a/b",
    "a//b",
    "a/..",
    "../a",
    "./a",
    "a.b",
    ".a",
    "..a",
    ".a.b",
    "a.",
    "a.b.c",
    "a.d/b",
    "a.d/b.mp4/",
    "é.mp4",
];

fn bytes(path: &Path) -> Vec<u8> {
    path.as_os_str().as_encoded_bytes().to_vec()
}

#[test]
fn joining_is_what_the_standard_library_does() {
    for directory in PATHS {
        for tail in PATHS {
            let joined = FilePath::from_text(directory).join(&FilePath::from_text(tail));
            assert_eq!(
                joined.as_bytes(),
                &bytes(&Path::new(directory).join(tail)),
                "{directory:?} and {tail:?}"
            );
        }
    }
}

#[test]
fn extensions_are_what_the_standard_library_finds() {
    for path in PATHS {
        let expected =
            Path::new(path).extension().map(|extension| extension.as_encoded_bytes().to_vec());
        assert_eq!(FilePath::from_text(path).extension(), expected, "{path:?}");
    }
}

#[test]
fn extensions_are_replaced_as_the_standard_library_does() {
    // A name like `..a` is left out: there the standard library departs from what it documents.
    for path in PATHS.into_iter().filter(|path| *path != "..a") {
        let replaced = FilePath::from_text(path).with_extension("telemetry.jsonl");
        assert_eq!(
            replaced.as_bytes(),
            &bytes(&Path::new(path).with_extension("telemetry.jsonl")),
            "{path:?}"
        );
    }
}

#[test]
fn a_path_need_not_be_text() {
    let path = FilePath::from_bytes(b"/v/\xff.mp4".to_vec());
    assert_eq!(path.display(), "/v/\u{fffd}.mp4");
    assert_eq!(path.with_extension("x").as_bytes(), &b"/v/\xff.x".to_vec());
    assert_eq!(FilePath::from_text("..a").with_extension("x"), FilePath::from_text("..x"));
    assert_eq!(FilePath::from_text("/v/é").display(), "/v/é");
    assert_eq!(path.clone(), path);
}

#[test]
fn white_space_is_what_unicode_says() {
    for code in 0..0x11_0000u32 {
        if let Some(c) = char::from_u32(code) {
            assert_eq!(text::white_space(c), c.is_whitespace(), "{code:x}");
        }
    }
}

#[test]
fn trimming_is_what_the_standard_library_does() {
    for s in ["", " ", "a", " a ", "\u{a0}a b\n\t", "é\u{2003}", "\u{feff}a", "\r\n"] {
        assert_eq!(text::trim(s), s.trim());
        assert_eq!(text::trim_end(s), s.trim_end());
        assert_eq!(text::trim(text::trim(s)), s.trim());
    }
}

#[test]
fn cutting_is_what_the_standard_library_does() {
    for (s, part) in [("ab", "a"), ("ab", "b"), ("ab", ""), ("é,", ","), ("a", "ab"), ("aa", "aa")] {
        assert_eq!(text::strip_prefix(s, part), s.strip_prefix(part));
        assert_eq!(text::strip_suffix(s, part), s.strip_suffix(part));
    }
    for s in ["a,b,c", ",", "abc", "é,ü"] {
        assert_eq!(text::split_once(s, ','), s.split_once(','));
        assert_eq!(text::contains_char(s, ','), s.contains(','));
        assert_eq!(text::characters(s), s.chars().collect::<Vec<char>>());
    }
    for s in ["A.MP4", "x.mp4", "İ.Mp4", "mp4", ""] {
        assert_eq!(
            text::lowercase_ends_with(s, ".mp4"),
            s.to_ascii_lowercase().ends_with(".mp4")
        );
    }
    assert!(text::same_text("é", "é") && !text::same_text("e", "é"));
    assert_eq!(text::concat3("a", "é", "c"), "aéc");
}

#[test]
fn stamps_are_what_chrono_writes() {
    for (year, month, day, hour, minute, second) in [
        (2026, 7, 10, 9, 8, 7),
        (1, 1, 1, 0, 0, 0),
        (9999, 12, 31, 23, 59, 59),
        (10000, 1, 2, 3, 4, 5),
        (-1, 2, 28, 1, 1, 1),
        (2024, 2, 29, 12, 0, 0),
    ] {
        let expected = chrono::NaiveDate::from_ymd_opt(year, month, day)
            .unwrap()
            .and_hms_opt(hour, minute, second)
            .unwrap()
            .format("%Y%m%d-%H%M%S")
            .to_string();
        let time = Timestamp::new(year, month, day, hour, minute, second, 0).unwrap();
        assert_eq!(time.to_stamp(), expected);
    }
    assert_eq!(Timestamp::new(2026, 7, 10, 9, 8, 7, 0).unwrap().to_stamp(), "20260710-090807");
    assert_eq!(Timestamp::new(10000, 1, 2, 3, 4, 5, 0).unwrap().to_stamp(), "+100000102-030405");
}

#[test]
fn a_leap_second_is_the_sixtieth() {
    let leap = Timestamp::new(2016, 12, 31, 23, 59, 59, 1_000_000_000).unwrap();
    assert_eq!(leap.to_stamp(), "20161231-235960");
}

#[test]
fn only_times_that_exist_are_accepted() {
    for (year, month, day, hour, minute, second, nanosecond) in [
        (2026, 0, 1, 0, 0, 0, 0),
        (2026, 13, 1, 0, 0, 0, 0),
        (2026, 1, 0, 0, 0, 0, 0),
        (2026, 2, 29, 0, 0, 0, 0),
        (1900, 2, 29, 0, 0, 0, 0),
        (2026, 4, 31, 0, 0, 0, 0),
        (2026, 1, 1, 24, 0, 0, 0),
        (2026, 1, 1, 0, 60, 0, 0),
        (2026, 1, 1, 0, 0, 60, 0),
        (2026, 1, 1, 0, 0, 0, 1_000_000_000),
        (262143, 1, 1, 0, 0, 0, 0),
        (-262144, 12, 31, 0, 0, 0, 0),
    ] {
        assert!(Timestamp::new(year, month, day, hour, minute, second, nanosecond).is_none());
    }
    assert!(Timestamp::new(2000, 2, 29, 0, 0, 0, 0).is_some());
    let last = Timestamp::new(262142, 12, 31, 23, 59, 59, 0).unwrap();
    assert_eq!(last.to_stamp(), "+2621421231-235959");
    let first = Timestamp::new(-262143, 1, 1, 0, 0, 0, 0).unwrap();
    assert_eq!(first.to_stamp(), "-2621430101-000000");
}

#[test]
fn the_present_has_a_plain_stamp() {
    let stamp = Timestamp::now().to_stamp();
    assert_eq!(stamp.len(), 15);
    assert_eq!(&stamp[8..9], "-");
    assert!(stamp.chars().all(|c| c.is_ascii_digit() || c == '-'));
    assert!(stamp.as_str() > "20250101-000000");
}

use audio_analyzer_ultimate::utils::fs_utils::{self, ScanEntry};
use audio_analyzer_ultimate::utils::string_utils;
use audio_analyzer_ultimate::utils::Timer;
use std::time::{Duration, Instant};

#[test]
fn utils_test_format_file_size() {
    assert_eq!(string_utils::format_file_size(0), "0 B");
    assert_eq!(string_utils::format_file_size(512), "512 B");
    assert_eq!(string_utils::format_file_size(1024), "1.0 KB");
    assert_eq!(string_utils::format_file_size(1536), "1.5 KB");
    assert_eq!(string_utils::format_file_size(1048576), "1.0 MB");
}

#[test]
fn utils_test_truncate_string() {
    assert_eq!(string_utils::truncate_string("hello", 10), "hello");
    assert_eq!(string_utils::truncate_string("hello world", 8), "hello...");
    assert_eq!(string_utils::truncate_string("hi", 5), "hi");
}

#[test]
fn utils_test_is_supported_audio_file() {
    let extensions = vec!["wav".to_string(), "mp3".to_string()];

    assert!(fs_utils::is_supported_audio_file("test.wav", &extensions));
    assert!(fs_utils::is_supported_audio_file("test.MP3", &extensions));
    assert!(!fs_utils::is_supported_audio_file("test.txt", &extensions));
}

#[test]
fn test_utils_test_is_supported_audio_file() {
    let extensions = vec!["wav".to_string(), "mp3".to_string(), "flac".to_string()];

    assert!(fs_utils::is_supported_audio_file("test.wav", &extensions));
    assert!(fs_utils::is_supported_audio_file("test.WAV", &extensions));
    assert!(fs_utils::is_supported_audio_file("test.Mp3", &extensions));
    assert!(fs_utils::is_supported_audio_file("test.FLAC", &extensions));
    assert!(fs_utils::is_supported_audio_file("/path/to/music.wav", &extensions));

    assert!(!fs_utils::is_supported_audio_file("test.txt", &extensions));
    assert!(!fs_utils::is_supported_audio_file("test.doc", &extensions));
    assert!(!fs_utils::is_supported_audio_file("test", &extensions));
    assert!(!fs_utils::is_supported_audio_file("test.", &extensions));
}

#[test]
fn test_get_display_name() {
    let test_cases = vec![
        ("test.wav", "test.wav"),
        ("/path/to/test.wav", "test.wav"),
        ("/very/long/path/to/audio/file.flac", "file.flac"),
        ("", "未知文件"),
        ("no_extension", "no_extension"),
    ];

    for (input_path, expected_name) in test_cases {
        let result = fs_utils::get_display_name(input_path);
        assert_eq!(result, expected_name);
    }
}

#[test]
fn test_utils_test_format_file_size() {
    let test_cases = vec![
        (0, "0 B"),
        (512, "512 B"),
        (1024, "1.0 KB"),
        (1536, "1.5 KB"),
        (1048576, "1.0 MB"),
        (1073741824, "1.0 GB"),
        (1099511627776, "1.0 TB"),
        (2048, "2.0 KB"),
        (1536000, "1.5 MB"),
    ];

    for (bytes, expected) in test_cases {
        let result = string_utils::format_file_size(bytes);
        assert_eq!(result, expected);
    }
}

#[test]
fn test_utils_test_truncate_string() {
    let test_cases = vec![
        ("hello", 10, "hello"),
        ("hello world", 8, "hello..."),
        ("hi", 5, "hi"),
        ("a very long string that needs truncation", 15, "a very long ..."),
        ("", 5, ""),
        ("abc", 3, "abc"),
        ("abcd", 3, "..."),
    ];

    for (input, max_len, expected) in test_cases {
        let result = string_utils::truncate_string(input, max_len);
        assert_eq!(result, expected);
    }
}

#[test]
fn test_format_duration() {
    let test_cases = vec![
        (Duration::from_millis(500), "500ms"),
        (Duration::from_secs(1), "1.000s"),
        (Duration::from_secs(30), "30.000s"),
        (Duration::from_secs(60), "1m 0s"),
        (Duration::from_secs(90), "1m 30s"),
        (Duration::from_secs(3600), "1h 0m 0s"),
        (Duration::from_secs(3661), "1h 1m 1s"),
        (Duration::from_millis(1500), "1.500s"),
    ];

    for (duration, expected) in test_cases {
        let result = string_utils::format_duration(duration);
        assert_eq!(result, expected);
    }
}

#[test]
fn format_file_size_rounds_ties_to_even() {
    // 1.25 KB and 1.75 KB lie exactly between two tenths.
    assert_eq!(string_utils::format_file_size(1280), "1.2 KB");
    assert_eq!(string_utils::format_file_size(1792), "1.8 KB");
    assert_eq!(string_utils::format_file_size(1023), "1023 B");
    assert_eq!(string_utils::format_file_size(u64::MAX), "16777216.0 TB");
}

#[test]
fn format_duration_parts_pads_milliseconds() {
    assert_eq!(string_utils::format_duration_parts(2, 7), "2.007s");
    assert_eq!(string_utils::format_duration_parts(2, 45), "2.045s");
    assert_eq!(string_utils::format_duration_parts(0, 0), "0ms");
    assert_eq!(string_utils::format_duration_parts(7322, 999), "2h 2m 2s");
}

#[test]
fn decimal_text_writes_every_digit() {
    assert_eq!(string_utils::decimal_text(0), "0");
    assert_eq!(string_utils::decimal_text(16000), "16000");
    assert_eq!(string_utils::decimal_text(u64::MAX), "18446744073709551615");
}

#[test]
fn truncate_string_cuts_between_characters() {
    assert_eq!(string_utils::truncate_string("日本語テキスト", 9), "日本...");
}

#[test]
fn path_filter_ignores_extension_case() {
    let wav = vec!["wav".to_string()];
    assert!(fs_utils::is_supported_audio_file("FILE.WAV", &wav));
    assert!(fs_utils::is_supported_audio_file("file.Wav", &wav));
    assert!(fs_utils::is_supported_audio_file("file.wav", &wav));
    assert!(!fs_utils::is_supported_audio_file("FILE", &wav));
    assert!(!fs_utils::is_supported_audio_file("file.wav.txt", &wav));
    assert!(!fs_utils::is_supported_audio_file(".wav", &wav));
    assert!(fs_utils::is_supported_audio_file("dir.d/x.wav", &wav));
    assert!(!fs_utils::is_supported_audio_file("x.wav", &[]));
}

#[test]
fn path_filter_matches_upper_case_mp3() {
    let mp3 = vec!["mp3".to_string()];
    assert!(fs_utils::is_supported_audio_file("x.MP3", &mp3));
}

#[test]
fn scan_of_empty_directory_finds_nothing() {
    let wav = vec!["wav".to_string()];
    let found = fs_utils::select_audio_files(&[], &wav);
    assert!(found.is_empty());
}

#[test]
fn scan_finds_nested_wav_files_only() {
    let wav = vec!["wav".to_string()];
    let entries = vec![
        ScanEntry { path: "/root".to_string(), is_file: false },
        ScanEntry { path: "/root/a.wav".to_string(), is_file: true },
        ScanEntry { path: "/root/notes.txt".to_string(), is_file: true },
        ScanEntry { path: "/root/sub".to_string(), is_file: false },
        ScanEntry { path: "/root/sub/b.WAV".to_string(), is_file: true },
        ScanEntry { path: "/root/odd.wav".to_string(), is_file: false },
    ];
    let found = fs_utils::select_audio_files(&entries, &wav);
    assert_eq!(found, vec!["/root/a.wav".to_string(), "/root/sub/b.WAV".to_string()]);
}

#[test]
fn timer_measures_and_keeps_its_name() {
    let mut timer = Timer::new("test");
    assert_eq!(timer.name(), "test");
    let start = Instant::now();
    while start.elapsed() < Duration::from_millis(10) {}
    assert!(timer.elapsed() >= Duration::from_millis(10));
    timer.reset();
    assert!(timer.elapsed() < Duration::from_millis(10));
    assert_eq!(timer.name(), "test");
    assert!(timer.elapsed_report().starts_with("test: "));
    let _ = timer.stop();
}

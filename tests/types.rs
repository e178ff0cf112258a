use audio_analyzer_ultimate::parser::Reading;
use audio_analyzer_ultimate::types::{AnalysisProgress, AudioMetrics, AudioStats, FieldValue};

fn reading(t: &str) -> Reading {
    Reading::parse(t).unwrap()
}

#[test]
fn types_test_audio_metrics_creation() {
    let metrics = AudioMetrics::new("test.wav".to_string(), 1024);
    assert_eq!(metrics.file_path, "test.wav");
    assert_eq!(metrics.file_size_bytes, 1024);
    assert!(!metrics.is_complete());
}

#[test]
fn types_test_audio_metrics_filename() {
    let metrics = AudioMetrics::new("/path/to/test.wav".to_string(), 1024);
    assert_eq!(metrics.filename(), "test.wav");
}

#[test]
fn test_types_test_audio_metrics_creation() {
    let metrics = AudioMetrics::new("test.wav".to_string(), 1024);

    assert_eq!(metrics.file_path, "test.wav");
    assert_eq!(metrics.file_size_bytes, 1024);
    assert_eq!(metrics.lra, None);
    assert_eq!(metrics.peak_amplitude_db, None);
    assert_eq!(metrics.overall_rms_db, None);
    assert_eq!(metrics.rms_db_above_16k, None);
    assert_eq!(metrics.rms_db_above_18k, None);
    assert_eq!(metrics.rms_db_above_20k, None);
    assert_eq!(metrics.processing_time_ms, 0);
}

#[test]
fn test_audio_metrics_completeness() {
    let mut metrics = AudioMetrics::new("test.wav".to_string(), 1024);

    assert!(!metrics.is_complete());

    metrics.lra = Some(reading("10.0"));
    assert!(!metrics.is_complete());

    metrics.peak_amplitude_db = Some(reading("-6.0"));
    assert!(!metrics.is_complete());

    metrics.rms_db_above_18k = Some(reading("-70.0"));
    assert!(metrics.is_complete());
}

#[test]
fn test_types_test_audio_metrics_filename() {
    let test_cases = vec![
        ("test.wav", "test.wav"),
        ("/path/to/test.wav", "test.wav"),
        ("/very/long/path/to/audio/file.flac", "file.flac"),
        ("", "未知文件"),
    ];

    for (input_path, expected_filename) in test_cases {
        let metrics = AudioMetrics::new(input_path.to_string(), 1024);
        assert_eq!(metrics.filename(), expected_filename);
    }
}

#[test]
fn test_audio_stats_creation() {
    let stats = AudioStats::new();

    assert_eq!(stats.peak_db, None);
    assert_eq!(stats.rms_db, None);
    assert!(!stats.has_data());
}

#[test]
fn test_audio_stats_has_data() {
    let mut stats = AudioStats::new();

    assert!(!stats.has_data());

    stats.peak_db = Some(reading("-6.0"));
    assert!(stats.has_data());

    stats.peak_db = None;
    stats.rms_db = Some(reading("-18.0"));
    assert!(stats.has_data());

    stats.peak_db = Some(reading("-3.0"));
    assert!(stats.has_data());

    stats.peak_db = None;
    stats.rms_db = None;
    assert!(!stats.has_data());
}

#[test]
fn test_audio_stats_default() {
    let stats = AudioStats::default();

    assert_eq!(stats.peak_db, None);
    assert_eq!(stats.rms_db, None);
    assert!(!stats.has_data());
}

// The share of the batch that is done is a whole percentage, rounded down.
#[test]
fn test_types_test_analysis_progress_percentage() {
    let test_cases = vec![(0, 10, 0), (5, 10, 50), (10, 10, 100), (3, 7, 42), (0, 0, 0)];

    for (completed, total, expected_percentage) in test_cases {
        let progress = AnalysisProgress {
            current_file: completed,
            total_files: total,
            current_path: "test.wav".to_string(),
            completed_files: completed,
        };
        assert_eq!(progress.percent_complete(), expected_percentage);
    }
}

#[test]
fn types_test_analysis_progress_percentage() {
    let progress = AnalysisProgress {
        current_file: 5,
        total_files: 10,
        current_path: "test.wav".to_string(),
        completed_files: 5,
    };
    assert_eq!(progress.percent_complete(), 50);
}

#[test]
fn test_analysis_progress_fields() {
    let progress = AnalysisProgress {
        current_file: 5,
        total_files: 10,
        current_path: "/path/to/current.wav".to_string(),
        completed_files: 4,
    };

    assert_eq!(progress.current_file, 5);
    assert_eq!(progress.total_files, 10);
    assert_eq!(progress.current_path, "/path/to/current.wav");
    assert_eq!(progress.completed_files, 4);
    assert_eq!(progress.percent_complete(), 40);
}

fn sample_metrics() -> AudioMetrics {
    let mut metrics = AudioMetrics::new("test.wav".to_string(), 1024);
    metrics.lra = Some(reading("8.5"));
    metrics.peak_amplitude_db = Some(reading("-3.2"));
    metrics.overall_rms_db = Some(reading("-18.7"));
    metrics.rms_db_above_16k = Some(reading("-65.3"));
    metrics.rms_db_above_18k = None;
    metrics.rms_db_above_20k = Some(reading("-85.4"));
    metrics.processing_time_ms = 1500;
    metrics
}

#[test]
fn field_layout_round_trip_keeps_the_record() {
    let metrics = sample_metrics();
    let fields = metrics.clone().into_fields();
    let names: Vec<&str> = fields.iter().map(|f| f.name.as_str()).collect();
    assert_eq!(
        names,
        vec![
            "filePath",
            "fileSizeBytes",
            "lra",
            "peakAmplitudeDb",
            "overallRmsDb",
            "rmsDbAbove16k",
            "rmsDbAbove18k",
            "rmsDbAbove20k",
            "processingTimeMs",
        ]
    );
    assert!(matches!(fields[6].value, FieldValue::Level(None)));
    let back = AudioMetrics::from_fields(&fields).unwrap();
    assert!(back == metrics);
    assert_eq!(back.rms_db_above_18k, None);
    assert_eq!(back.lra.unwrap().as_str(), "8.5");
}

#[test]
fn field_layout_rejects_missing_or_mistyped_fields() {
    let mut fields = sample_metrics().into_fields();
    fields.pop();
    assert!(AudioMetrics::from_fields(&fields).is_none());

    let mut fields = sample_metrics().into_fields();
    fields[1].value = FieldValue::Text("1024".to_string());
    assert!(AudioMetrics::from_fields(&fields).is_none());
}

#[test]
fn reading_accepts_only_decimal_literals() {
    assert!(Reading::parse("-144.0").is_some());
    assert!(Reading::parse("5.").is_some());
    assert!(Reading::parse(".5").is_some());
    assert!(Reading::parse("+3").is_some());
    assert!(Reading::parse("-").is_none());
    assert!(Reading::parse(".").is_none());
    assert!(Reading::parse("").is_none());
    assert!(Reading::parse("1.2.3").is_none());
    assert!(Reading::parse("--1").is_none());
    assert!(Reading::parse("1-2").is_none());
    assert!(Reading::parse("inf").is_none());
    assert_eq!(Reading::parse("-18.7").unwrap().text(), "-18.7");
}

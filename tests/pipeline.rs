use audio_analyzer_ultimate::analyzer::{
    assemble_metrics, collect_batch, probe_arguments, FileOutcome, ProbeKind, ProbeOutputs,
};
use audio_analyzer_ultimate::config::FfmpegConfig;
use audio_analyzer_ultimate::parser::{
    highpass_from_matches, lra_from_matches, stats_from_matches, OutputPatterns, Reading,
};
use audio_analyzer_ultimate::types::AudioMetrics;
use audio_analyzer_ultimate::AnalyzerError;

fn group1(t: &str) -> Vec<Option<String>> {
    vec![Some(format!("x{t}")), Some(t.to_string())]
}

fn patterns() -> OutputPatterns {
    OutputPatterns::new().unwrap()
}

const LOUDNESS_OUTPUT: &str = "[Parsed_ebur128_0 @ 0x1] t: 0.1 M: -20.0 S: -21.0 I: -19.0 LUFS LRA: 1.0 LU\n\
Summary:\n\
\n\
  Loudness range:\n\
LRA:         6.4 LU\n\
    LRA low:   -25.1 LUFS\n";

const STATS_OUTPUT: &str = "[Parsed_astats_0 @ 0x55d] Channel: 1\n\
[Parsed_astats_0 @ 0x55d] Peak level dB: -1.5\n\
[Parsed_astats_0 @ 0x55d] Overall\n\
[Parsed_astats_0 @ 0x55d] DC offset: 0.0001\n\
[Parsed_astats_0 @ 0x55d] Peak level dB: -0.3\n\
[Parsed_astats_0 @ 0x55d] RMS peak dB: -8.0\n\
[Parsed_astats_0 @ 0x55d] RMS level dB: -17.9\n";

const HIGHPASS_OUTPUT: &str = "[Parsed_astats_1 @ 0x7f] Channel: 1\n\
[Parsed_astats_1 @ 0x7f] RMS level dB: -80.0\n\
[Parsed_astats_1 @ 0x7f] Overall\n\
[Parsed_astats_1 @ 0x7f] Peak level dB: -60.2\n\
[Parsed_astats_1 @ 0x7f] RMS level dB: -77.5\n";

#[test]
fn last_running_loudness_value_wins() {
    let running = vec![group1("5.0"), group1("7.2"), group1("9.9")];
    let r = lra_from_matches(&None, &running).unwrap();
    assert_eq!(r.as_str(), "9.9");
}

#[test]
fn loudness_text_without_summary_uses_last_value() {
    let text = "t: 0.5 LRA: 5.0 LU\nt: 1.0 LRA: 7.2 LU\nt: 1.5 LRA: 9.9 LU\n";
    let r = patterns().extract_lra(text).unwrap();
    assert_eq!(r.as_str(), "9.9");
}

#[test]
fn loudness_summary_line_wins_over_running_values() {
    let r = patterns().extract_lra(LOUDNESS_OUTPUT).unwrap();
    assert_eq!(r.as_str(), "6.4");
    let r = lra_from_matches(&Some(group1("3.0")), &vec![group1("4.0")]).unwrap();
    assert_eq!(r.as_str(), "3.0");
}

#[test]
fn loudness_skips_values_that_are_not_numbers() {
    let running = vec![group1("5.0"), group1("-")];
    assert_eq!(lra_from_matches(&Some(group1("..")), &running).unwrap().as_str(), "5.0");
}

#[test]
fn loudness_without_any_value_is_a_parse_error() {
    let text = "no loudness here";
    match patterns().extract_lra(text) {
        Err(AnalyzerError::ParseError { raw_data: Some(d), .. }) => assert_eq!(d, text),
        _ => panic!("expected a parse error"),
    }
    let long = "x".repeat(600);
    match patterns().extract_lra(&long) {
        Err(AnalyzerError::ParseError { raw_data: Some(d), .. }) => assert_eq!(d.len(), 500),
        _ => panic!("expected a parse error"),
    }
}

#[test]
fn stats_come_from_the_overall_block() {
    let st = patterns().extract_audio_stats(STATS_OUTPUT).unwrap();
    assert_eq!(st.peak_db.unwrap().as_str(), "-0.3");
    assert_eq!(st.rms_db.unwrap().as_str(), "-17.9");
}

#[test]
fn stats_fall_back_to_bare_lines() {
    let text = "Peak level dB: -2.5\nsomething\nRMS level dB: -20.25\n";
    let st = patterns().extract_audio_stats(text).unwrap();
    assert_eq!(st.peak_db.unwrap().as_str(), "-2.5");
    assert_eq!(st.rms_db.unwrap().as_str(), "-20.25");

    let st = stats_from_matches(&None, &None, &Some(group1("-20"))).unwrap();
    assert_eq!(st.peak_db, None);
    assert_eq!(st.rms_db.unwrap().as_str(), "-20");
    assert!(stats_from_matches(&None, &None, &None).is_none());
    assert!(patterns().extract_audio_stats("nothing").is_err());
}

#[test]
fn highpass_reads_the_overall_block() {
    let r = patterns().extract_highpass_rms(HIGHPASS_OUTPUT);
    assert_eq!(r.as_str(), "-77.5");
}

#[test]
fn highpass_falls_back_to_last_rms_line() {
    let text = "RMS level dB: -90.1\nRMS level dB: -91.2\n";
    assert_eq!(patterns().extract_highpass_rms(text).as_str(), "-91.2");
}

#[test]
fn highpass_without_rms_is_silence_floor() {
    let r = patterns().extract_highpass_rms("no levels at all");
    assert_eq!(r.as_str(), "-144.0");
    assert_eq!(r.as_str().parse::<f64>().unwrap(), -144.0);
    assert_eq!(highpass_from_matches(&None, &vec![]).as_str(), "-144.0");
}

#[test]
fn probe_arguments_follow_the_templates() {
    let cfg = FfmpegConfig::default();
    assert_eq!(
        probe_arguments(ProbeKind::LoudnessRange, "a.wav", &cfg),
        vec!["-i", "a.wav", "-filter_complex", "ebur128", "-f", "null", "-", "-hide_banner", "-loglevel", "info"]
    );
    assert_eq!(
        probe_arguments(ProbeKind::Stats, "a.wav", &cfg),
        vec!["-i", "a.wav", "-filter:a", "astats=metadata=1", "-map", "0:a", "-f", "null", "-", "-hide_banner", "-loglevel", "info"]
    );
    let quiet = FfmpegConfig { log_level: "error".to_string(), hide_banner: false, timeout_seconds: None };
    assert_eq!(
        probe_arguments(ProbeKind::HighpassRms(18000), "b.flac", &quiet),
        vec!["-i", "b.flac", "-filter:a", "highpass=f=18000,astats=metadata=1", "-map", "0:a", "-f", "null", "-", "-loglevel", "error"]
    );
}

fn all_outputs() -> ProbeOutputs {
    ProbeOutputs {
        loudness: Ok(LOUDNESS_OUTPUT.to_string()),
        stats: Ok(STATS_OUTPUT.to_string()),
        highpass_16k: Ok(HIGHPASS_OUTPUT.to_string()),
        highpass_18k: Ok(HIGHPASS_OUTPUT.to_string()),
        highpass_20k: Ok("nothing".to_string()),
    }
}

#[test]
fn record_with_every_probe_is_complete() {
    let (m, diags) = assemble_metrics(&patterns(), "/m/a.wav", 2048, &all_outputs(), 12);
    assert!(diags.is_empty());
    assert!(m.is_complete());
    assert_eq!(m.file_path, "/m/a.wav");
    assert_eq!(m.file_size_bytes, 2048);
    assert_eq!(m.lra.unwrap().as_str(), "6.4");
    assert_eq!(m.rms_db_above_20k.unwrap().as_str(), "-144.0");
    assert_eq!(m.processing_time_ms, 12);
}

#[test]
fn failed_loudness_probe_leaves_only_lra_absent() {
    let mut outputs = all_outputs();
    outputs.loudness = Err(AnalyzerError::FfmpegError { message: "exit 1".to_string(), stderr: None });
    let (m, diags) = assemble_metrics(&patterns(), "/m/a.wav", 2048, &outputs, 12);
    assert_eq!(m.lra, None);
    assert!(m.peak_amplitude_db.is_some());
    assert!(m.overall_rms_db.is_some());
    assert!(m.rms_db_above_16k.is_some());
    assert!(m.rms_db_above_18k.is_some());
    assert!(m.rms_db_above_20k.is_some());
    assert!(!m.is_complete());
    assert_eq!(diags.len(), 1);
    assert!(diags[0].starts_with("/m/a.wav: loudness range: "));
}

#[test]
fn unparsable_stats_leave_levels_absent() {
    let mut outputs = all_outputs();
    outputs.stats = Ok("garbage".to_string());
    outputs.highpass_20k = Err(AnalyzerError::ProbeTimeout("300 s".to_string()));
    let (m, diags) = assemble_metrics(&patterns(), "/m/b.wav", 1, &outputs, 0);
    assert_eq!(m.peak_amplitude_db, None);
    assert_eq!(m.overall_rms_db, None);
    assert_eq!(m.rms_db_above_20k, None);
    assert_eq!(diags.len(), 2);
}

#[test]
fn batch_drops_the_file_that_failed() {
    let mut outcomes = Vec::new();
    for i in 1..=10 {
        let path = format!("/music/{i}.wav");
        let result = if i == 4 {
            Err(AnalyzerError::MetadataError { path: path.clone(), message: "denied".to_string() })
        } else {
            Ok(AudioMetrics::new(path.clone(), i))
        };
        outcomes.push(FileOutcome { path, result });
    }
    let report = collect_batch(&outcomes);
    assert_eq!(report.records.len(), 9);
    assert_eq!(report.failed_count(), 1);
    assert_eq!(report.total, 10);
    assert!(report.is_partial_failure());
    assert!(report.failures[0].starts_with("处理失败: /music/4.wav"));
    assert_eq!(report.records[3].file_path, "/music/5.wav");
}

#[test]
fn empty_batch_gives_empty_report() {
    let report = collect_batch(&Vec::new());
    assert!(report.records.is_empty());
    assert_eq!(report.failed_count(), 0);
    assert!(!report.is_partial_failure());
}

#[test]
fn reading_clone_and_equality() {
    let a = Reading::parse("1.5").unwrap();
    assert!(a.clone() == a);
    assert!(Reading::parse("1.50").unwrap() != a);
}

#[test]
fn stats_fall_through_when_the_overall_capture_is_not_a_number() {
    let text = "Peak level dB: -2.5\n\
[Parsed_astats_0 @ 0x1] Overall\n\
[Parsed_astats_0 @ 0x1] Peak level dB: -\n\
[Parsed_astats_0 @ 0x1] RMS level dB: -17.9\n";
    let st = patterns().extract_audio_stats(text).unwrap();
    assert_eq!(st.peak_db.unwrap().as_str(), "-2.5");
    assert_eq!(st.rms_db.unwrap().as_str(), "-17.9");

    let overall = Some(vec![Some("o".to_string()), Some("..".to_string()), Some("-3".to_string())]);
    let st = stats_from_matches(&overall, &Some(group1("-1.0")), &Some(group1("-9.0"))).unwrap();
    assert_eq!(st.peak_db.unwrap().as_str(), "-1.0");
    assert_eq!(st.rms_db.unwrap().as_str(), "-3");
}

#[test]
fn each_failed_probe_gets_its_own_diagnostic() {
    let outputs = ProbeOutputs {
        loudness: Ok("nothing".to_string()),
        stats: Err(AnalyzerError::FfmpegError { message: "exit 1".to_string(), stderr: None }),
        highpass_16k: Ok(HIGHPASS_OUTPUT.to_string()),
        highpass_18k: Err(AnalyzerError::ProbeTimeout("300 s".to_string())),
        highpass_20k: Ok(HIGHPASS_OUTPUT.to_string()),
    };
    let (_, diags) = assemble_metrics(&patterns(), "/m/c.wav", 1, &outputs, 0);
    assert_eq!(diags.len(), 3);
    assert!(diags[0].starts_with("/m/c.wav: loudness range: 数据解析错误: "));
    assert_eq!(diags[1], "/m/c.wav: peak/RMS: FFmpeg 执行错误: exit 1");
    assert_eq!(diags[2], "/m/c.wav: high-pass RMS 18 kHz: 探测超时: 300 s");
}

#[test]
fn batch_diagnostic_carries_the_error() {
    let outcomes = vec![FileOutcome {
        path: "/music/x.wav".to_string(),
        result: Err(AnalyzerError::MetadataError { path: "/music/x.wav".to_string(), message: "denied".to_string() }),
    }];
    let report = collect_batch(&outcomes);
    assert_eq!(report.failures[0], "处理失败: /music/x.wav\n └─> 错误详情: 文件元数据错误: /music/x.wav: denied");
    assert!(report.records.is_empty());
    assert!(!report.is_partial_failure());
}

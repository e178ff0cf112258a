use audio_analyzer_ultimate::{AnalyzerError, SUPPORTED_EXTENSIONS, VERSION};

#[test]
fn test_error_display() {
    let err = AnalyzerError::ConfigError("测试错误".to_string());
    assert!(err.to_string().contains("配置错误"));
    assert!(err.to_string().contains("测试错误"));
}

#[test]
fn test_io_error_conversion() {
    let io_err = std::io::Error::new(std::io::ErrorKind::NotFound, "文件未找到");
    let analyzer_err: AnalyzerError = io_err.into();

    match analyzer_err {
        AnalyzerError::Io(_) => (),
        _ => panic!("应该转换为 Io 错误"),
    }
}

#[test]
fn test_version_exists() {
    assert!(VERSION.starts_with(char::is_numeric), "版本字符串应该以数字开头");
}

#[test]
fn test_supported_extensions() {
    assert!(SUPPORTED_EXTENSIONS.contains(&"wav"));
    assert!(SUPPORTED_EXTENSIONS.contains(&"mp3"));
    assert!(SUPPORTED_EXTENSIONS.contains(&"flac"));
}

#[test]
fn error_messages_name_every_part() {
    let e = AnalyzerError::ParseError { message: "m".to_string(), raw_data: Some("raw".to_string()) };
    assert_eq!(e.to_string(), "数据解析错误: m\n原始数据: raw");
    let e = AnalyzerError::UnsupportedFormat { path: "a.xyz".to_string(), extension: Some("xyz".to_string()) };
    assert_eq!(e.to_string(), "不支持的文件格式: a.xyz (扩展名: xyz)");
    let e = AnalyzerError::FfmpegError { message: "spawn".to_string(), stderr: None };
    assert_eq!(e.to_string(), "FFmpeg 执行错误: spawn");
    let e = AnalyzerError::Io(std::io::Error::new(std::io::ErrorKind::NotFound, "gone"));
    assert_eq!(e.to_string(), "I/O 错误: gone");
    let e = AnalyzerError::ScanError("/nowhere".to_string());
    assert_eq!(e.to_string(), "扫描错误: /nowhere");
}

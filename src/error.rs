//! Errors of the analysis pipeline.
use vstd::prelude::*;
use vstd::string::StringExecFns;

verus! {

#[verifier::external_type_specification]
#[verifier::external_body]
pub struct ExIoError(std::io::Error);

/// Everything that can go wrong in the pipeline.
///
/// Below the level of one file, errors are absorbed into an absent reading;
/// at the level of one file they drop that file from a batch; only a failed
/// scan of the root directory ends a run.
#[derive(Debug)]
pub enum AnalyzerError {
    /// An I/O failure.
    Io(std::io::Error),
    /// The analysis tool could not be run, or failed.
    FfmpegError { message: String, stderr: Option<String> },
    /// A file whose format is not supported.
    UnsupportedFormat { path: String, extension: Option<String> },
    /// A probe's output held no reading; `raw_data` previews the text.
    ParseError { message: String, raw_data: Option<String> },
    /// An invalid configuration.
    ConfigError(String),
    /// The external executables are not available.
    DependencyError(String),
    /// The root of a scan does not exist or is not a directory.
    ScanError(String),
    /// The size of a file could not be read; the file is dropped.
    MetadataError { path: String, message: String },
    /// A probe ran past its time limit and was stopped.
    ProbeTimeout(String),
    /// Anything else.
    Other(String),
}

/// Result type of the pipeline.
pub type Result<T> = std::result::Result<T, AnalyzerError>;

/// Text that follows `head` only where `tail` is present.
pub open spec fn optional_part(head: Seq<char>, tail: Option<String>) -> Seq<char> {
    match tail {
        Some(t) => head + t@,
        None => Seq::empty(),
    }
}

/// The message of an error other than `Io`.
pub open spec fn error_text(e: AnalyzerError) -> Seq<char> {
    match e {
        AnalyzerError::Io(_) => "I/O 错误: "@,
        AnalyzerError::FfmpegError { message, stderr } =>
            "FFmpeg 执行错误: "@ + message@ + optional_part("\n详细信息: "@, stderr),
        AnalyzerError::UnsupportedFormat { path, extension } =>
            "不支持的文件格式: "@ + path@ + match extension {
                Some(x) => " (扩展名: "@ + x@ + ")"@,
                None => Seq::empty(),
            },
        AnalyzerError::ParseError { message, raw_data } =>
            "数据解析错误: "@ + message@ + optional_part("\n原始数据: "@, raw_data),
        AnalyzerError::ConfigError(m) => "配置错误: "@ + m@,
        AnalyzerError::DependencyError(m) => "依赖项错误: "@ + m@,
        AnalyzerError::ScanError(m) => "扫描错误: "@ + m@,
        AnalyzerError::MetadataError { path, message } => "文件元数据错误: "@ + path@ + ": "@ + message@,
        AnalyzerError::ProbeTimeout(m) => "探测超时: "@ + m@,
        AnalyzerError::Other(m) => "错误: "@ + m@,
    }
}

/// `m` is the message of `e`: exactly its text, or for `Io` its text
/// followed by the message of the I/O error.
pub open spec fn describes(m: Seq<char>, e: AnalyzerError) -> bool {
    match e {
        AnalyzerError::Io(_) => m.len() >= error_text(e).len() && m.subrange(0, error_text(e).len() as int)
            == error_text(e),
        _ => m == error_text(e),
    }
}

/// Relies on the `Display` impl of `std::io::Error` for its message.
#[verifier::external_body]
fn io_error_message(e: &std::io::Error) -> (r: String) {
    e.to_string()
}

fn append_optional(s: String, head: &str, tail: &Option<String>) -> (r: String)
    ensures
        r@ == s@ + optional_part(head@, *tail),
{
    match tail {
        Some(t) => s.concat(head).concat(t.as_str()),
        None => {
            assert(s@ + Seq::<char>::empty() =~= s@);
            s
        },
    }
}

impl AnalyzerError {
    /// The message of the error. For `Io` it is the fixed head followed by the
    /// message of the I/O error.
    pub fn to_string(&self) -> (r: String)
        ensures
            describes(r@, *self),
    {
        match self {
            AnalyzerError::Io(e) => {
                let head = String::from_str("I/O 错误: ");
                let r = head.concat(io_error_message(e).as_str());
                assert(r@.subrange(0, error_text(*self).len() as int) =~= error_text(*self));
                r
            },
            AnalyzerError::FfmpegError { message, stderr } => {
                let s = String::from_str("FFmpeg 执行错误: ").concat(message.as_str());
                append_optional(s, "\n详细信息: ", stderr)
            },
            AnalyzerError::UnsupportedFormat { path, extension } => {
                let s = String::from_str("不支持的文件格式: ").concat(path.as_str());
                match extension {
                    Some(x) => {
                        let r = s.concat(" (扩展名: ").concat(x.as_str()).concat(")");
                        assert(r@ =~= error_text(*self));
                        r
                    },
                    None => {
                        assert(s@ =~= error_text(*self));
                        s
                    },
                }
            },
            AnalyzerError::ParseError { message, raw_data } => {
                let s = String::from_str("数据解析错误: ").concat(message.as_str());
                append_optional(s, "\n原始数据: ", raw_data)
            },
            AnalyzerError::ConfigError(m) => String::from_str("配置错误: ").concat(m.as_str()),
            AnalyzerError::DependencyError(m) => String::from_str("依赖项错误: ").concat(m.as_str()),
            AnalyzerError::ScanError(m) => String::from_str("扫描错误: ").concat(m.as_str()),
            AnalyzerError::MetadataError { path, message } => {
                String::from_str("文件元数据错误: ").concat(path.as_str()).concat(": ").concat(message.as_str())
            },
            AnalyzerError::ProbeTimeout(m) => String::from_str("探测超时: ").concat(m.as_str()),
            AnalyzerError::Other(m) => String::from_str("错误: ").concat(m.as_str()),
        }
    }
}

impl From<std::io::Error> for AnalyzerError {
    fn from(err: std::io::Error) -> (r: AnalyzerError)
        ensures
            r is Io,
    {
        AnalyzerError::Io(err)
    }
}

impl vstd::std_specs::convert::FromSpecImpl<std::io::Error> for AnalyzerError {
    open spec fn obeys_from_spec() -> bool {
        true
    }

    open spec fn from_spec(v: std::io::Error) -> AnalyzerError {
        AnalyzerError::Io(v)
    }
}

} // verus!

//! Configuration of the analyser: read-only inputs of the pipeline.
use vstd::prelude::*;
use vstd::string::StringExecFns;
use crate::error::AnalyzerError;
use crate::utils::fs_utils::{
    allow_list, bytes_of, eq_ignore_ascii_case, extension_allowed, is_supported_extension_in,
    tail_eq_ignore_ascii_case,
};

verus! {

/// Boundaries that the report generator applies to the metrics.
///
/// Levels are in thousandths of a dB and ranges in thousandths of an LU; the
/// linear clipping boundary is in thousandths of full scale.
#[derive(Debug, Clone, Copy, PartialEq, Eq, Structural)]
pub struct QualityThresholds {
    pub spectrum_fake_threshold: i64,
    pub spectrum_processed_threshold: i64,
    pub spectrum_good_threshold: i64,
    pub lra_poor_max: i64,
    pub lra_low_max: i64,
    pub lra_excellent_min: i64,
    pub lra_excellent_max: i64,
    pub lra_acceptable_max: i64,
    pub lra_too_high: i64,
    pub peak_clipping_db: i64,
    pub peak_clipping_linear: i64,
    pub peak_good_db: i64,
    pub peak_medium_db: i64,
}

/// The boundaries used when none are configured.
pub open spec fn default_thresholds() -> QualityThresholds {
    QualityThresholds {
        spectrum_fake_threshold: -85000i64,
        spectrum_processed_threshold: -80000i64,
        spectrum_good_threshold: -70000i64,
        lra_poor_max: 3000i64,
        lra_low_max: 6000i64,
        lra_excellent_min: 8000i64,
        lra_excellent_max: 12000i64,
        lra_acceptable_max: 15000i64,
        lra_too_high: 20000i64,
        peak_clipping_db: -100i64,
        peak_clipping_linear: 999i64,
        peak_good_db: -6000i64,
        peak_medium_db: -3000i64,
    }
}

impl Default for QualityThresholds {
    fn default() -> (r: QualityThresholds)
        ensures
            r == default_thresholds(),
    {
        QualityThresholds {
            spectrum_fake_threshold: -85000,
            spectrum_processed_threshold: -80000,
            spectrum_good_threshold: -70000,
            lra_poor_max: 3000,
            lra_low_max: 6000,
            lra_excellent_min: 8000,
            lra_excellent_max: 12000,
            lra_acceptable_max: 15000,
            lra_too_high: 20000,
            peak_clipping_db: -100,
            peak_clipping_linear: 999,
            peak_good_db: -6000,
            peak_medium_db: -3000,
        }
    }
}

/// Where and how results are written.
#[derive(Debug)]
pub struct OutputConfig {
    /// Directory of the output files; the scanned directory when absent.
    pub output_dir: Option<String>,
    /// File name of the dataset.
    pub json_filename: String,
    /// File name of the report.
    pub csv_filename: String,
    /// Whether processing times are kept.
    pub include_timing: bool,
    /// Lowest quality score that the report keeps.
    pub min_quality_score: Option<i32>,
}

impl Default for OutputConfig {
    fn default() -> (r: OutputConfig)
        ensures
            r.output_dir is None,
            r.json_filename@ == "analysis_data.json"@,
            r.csv_filename@ == "audio_quality_report.csv"@,
            r.include_timing,
            r.min_quality_score is None,
    {
        OutputConfig {
            output_dir: None,
            json_filename: String::from_str("analysis_data.json"),
            csv_filename: String::from_str("audio_quality_report.csv"),
            include_timing: true,
            min_quality_score: None,
        }
    }
}

/// How the analysis tool is invoked.
#[derive(Debug)]
pub struct FfmpegConfig {
    /// Value of the tool's `-loglevel` option.
    pub log_level: String,
    /// Whether `-hide_banner` is passed.
    pub hide_banner: bool,
    /// Time limit of one probe, in seconds.
    pub timeout_seconds: Option<u64>,
}

impl Default for FfmpegConfig {
    fn default() -> (r: FfmpegConfig)
        ensures
            r.log_level@ == "info"@,
            r.hide_banner,
            r.timeout_seconds == Some(300u64),
    {
        FfmpegConfig { log_level: String::from_str("info"), hide_banner: true, timeout_seconds: Some(300) }
    }
}

/// The whole configuration of the analyser.
#[derive(Debug)]
pub struct AnalyzerConfig {
    /// Extensions of the files that are analysed, compared ignoring ASCII case.
    pub supported_extensions: Vec<String>,
    /// Boundaries for the report generator.
    pub quality_thresholds: QualityThresholds,
    /// Number of worker threads; the available parallelism when absent.
    pub num_threads: Option<usize>,
    /// Whether progress details are logged.
    pub verbose: bool,
    /// Whether per-file progress is shown.
    pub show_progress: bool,
    /// Output settings.
    pub output: OutputConfig,
    /// Analysis tool settings.
    pub ffmpeg: FfmpegConfig,
}

/// The extensions analysed by default.
pub open spec fn default_extensions() -> Seq<Seq<char>> {
    seq![
        "wav"@, "mp3"@, "m4a"@, "flac"@, "aac"@, "ogg"@, "opus"@, "wma"@, "aiff"@, "alac"@,
    ]
}

impl Default for AnalyzerConfig {
    fn default() -> (r: AnalyzerConfig)
        ensures
            r.supported_extensions@.map_values(|s: String| s@) == default_extensions(),
            r.quality_thresholds == default_thresholds(),
            r.num_threads is None,
            !r.verbose,
            r.show_progress,
    {
        let mut exts: Vec<String> = Vec::new();
        exts.push(String::from_str("wav"));
        exts.push(String::from_str("mp3"));
        exts.push(String::from_str("m4a"));
        exts.push(String::from_str("flac"));
        exts.push(String::from_str("aac"));
        exts.push(String::from_str("ogg"));
        exts.push(String::from_str("opus"));
        exts.push(String::from_str("wma"));
        exts.push(String::from_str("aiff"));
        exts.push(String::from_str("alac"));
        assert(exts@.map_values(|s: String| s@) =~= default_extensions());
        AnalyzerConfig {
            supported_extensions: exts,
            quality_thresholds: QualityThresholds::default(),
            num_threads: None,
            verbose: false,
            show_progress: true,
            output: OutputConfig::default(),
            ffmpeg: FfmpegConfig::default(),
        }
    }
}

/// Relies on `num_cpus::get`, which its documentation says always returns at
/// least one.
#[verifier::external_body]
fn available_parallelism() -> (r: usize)
    ensures
        r >= 1,
{
    num_cpus::get()
}

/// A configuration is valid when it names at least one extension, asks for
/// at least one thread if it asks for any, and its loudness-range and peak
/// boundaries are in increasing order.
pub open spec fn config_valid(c: AnalyzerConfig) -> bool {
    &&& c.supported_extensions@.len() > 0
    &&& c.num_threads != Some(0usize)
    &&& c.quality_thresholds.lra_poor_max < c.quality_thresholds.lra_low_max
    &&& c.quality_thresholds.peak_good_db < c.quality_thresholds.peak_medium_db
}

impl AnalyzerConfig {
    /// Checks the configuration; a configuration error names the first rule
    /// that fails.
    pub fn validate(&self) -> (r: Result<(), AnalyzerError>)
        ensures
            r is Ok <==> config_valid(*self),
            r matches Err(e) ==> e is ConfigError,
    {
        if self.supported_extensions.len() == 0 {
            return Err(AnalyzerError::ConfigError(String::from_str("支持的文件扩展名列表不能为空")));
        }
        if let Some(threads) = self.num_threads {
            if threads == 0 {
                return Err(AnalyzerError::ConfigError(String::from_str("线程数必须大于0")));
            }
        }
        let t = &self.quality_thresholds;
        if t.lra_poor_max >= t.lra_low_max {
            return Err(AnalyzerError::ConfigError(String::from_str("LRA阈值配置不合理: poor_max 应小于 low_max")));
        }
        if t.peak_good_db >= t.peak_medium_db {
            return Err(AnalyzerError::ConfigError(String::from_str("峰值阈值配置不合理: good_db 应小于 medium_db")));
        }
        Ok(())
    }

    /// Whether `extension` is on the allow-list, ignoring ASCII case.
    pub fn is_supported_extension(&self, extension: &str) -> (r: bool)
        ensures
            r == extension_allowed(bytes_of(extension@), allow_list(self.supported_extensions@)),
    {
        is_supported_extension_in(extension, self.supported_extensions.as_slice())
    }

    /// The configured thread count, or the available parallelism.
    pub fn effective_thread_count(&self) -> (r: usize)
        ensures
            match self.num_threads {
                Some(n) => r == n,
                None => r >= 1,
            },
    {
        match self.num_threads {
            Some(n) => n,
            None => available_parallelism(),
        }
    }
}

/// Every byte is an ASCII digit.
pub open spec fn all_digits(d: Seq<u8>) -> bool {
    forall|i: int| 0 <= i < d.len() ==> 48 <= #[trigger] d[i] <= 57
}

/// The value of a string of ASCII digits.
pub open spec fn numeral_value(d: Seq<u8>) -> nat
    decreases d.len(),
{
    if d.len() == 0 {
        0
    } else {
        numeral_value(d.drop_last()) * 10 + (d.last() - 48) as nat
    }
}

/// A count as std's `usize::from_str` reads it: an optional `+`, then one or
/// more ASCII digits whose value fits in `usize`.
pub open spec fn parsed_count(b: Seq<u8>) -> Option<usize> {
    let d = if b.len() > 0 && b[0] == 43 {
        b.drop_first()
    } else {
        b
    };
    if d.len() > 0 && all_digits(d) && numeral_value(d) <= usize::MAX {
        Some(numeral_value(d) as usize)
    } else {
        None
    }
}

/// The value of a prefix never exceeds that of the whole.
proof fn lemma_numeral_prefix(d: Seq<u8>, k: int)
    requires
        0 <= k <= d.len(),
        all_digits(d),
    ensures
        numeral_value(d.subrange(0, k)) <= numeral_value(d),
    decreases d.len() - k,
{
    if k < d.len() {
        lemma_numeral_prefix(d, k + 1);
        assert(d.subrange(0, k + 1).drop_last() =~= d.subrange(0, k));
    } else {
        assert(d.subrange(0, k) =~= d);
    }
}

/// Reads a count written in decimal; none when the text is not one or the
/// value does not fit.
pub fn parse_count(text: &str) -> (r: Option<usize>)
    ensures
        r == parsed_count(bytes_of(text@)),
{
    let b: &[u8] = text.as_bytes();
    let n: usize = b.len();
    let start: usize = if n > 0 && b[0] == 43 { 1 } else { 0 };
    let ghost d = b@.subrange(start as int, n as int);
    assert(start == 1 ==> d =~= b@.drop_first());
    assert(start == 0 ==> d =~= b@);
    assert(parsed_count(b@) == if d.len() > 0 && all_digits(d) && numeral_value(d) <= usize::MAX {
        Some(numeral_value(d) as usize)
    } else {
        None
    });
    if start == n {
        return None;
    }
    let mut value: usize = 0;
    let mut i: usize = start;
    while i < n
        invariant
            start <= i <= n,
            n == b@.len(),
            d == b@.subrange(start as int, n as int),
            b@ == bytes_of(text@),
            parsed_count(b@) == if d.len() > 0 && all_digits(d) && numeral_value(d) <= usize::MAX {
                Some(numeral_value(d) as usize)
            } else {
                None
            },
            all_digits(b@.subrange(start as int, i as int)),
            value as nat == numeral_value(b@.subrange(start as int, i as int)),
        decreases n - i,
    {
        let c = b[i];
        let ghost pre = b@.subrange(start as int, i as int);
        let ghost next = b@.subrange(start as int, i + 1);
        assert(next.drop_last() =~= pre);
        if c < 48 || c > 57 {
            assert(d[i - start] == c);
            return None;
        }
        let digit: usize = (c - 48) as usize;
        assert(all_digits(next)) by {
            assert forall|j: int| 0 <= j < next.len() implies 48 <= #[trigger] next[j] <= 57 by {
                if j < pre.len() {
                    assert(next[j] == pre[j]);
                }
            }
        }
        if value > (usize::MAX - digit) / 10 {
            proof {
                assert(numeral_value(next) > usize::MAX) by (nonlinear_arith)
                    requires
                        numeral_value(next) == value as nat * 10 + digit as nat,
                        value as nat > (usize::MAX - digit) / 10,
                        digit <= 9,
                ;
                if all_digits(d) {
                    lemma_numeral_prefix(d, i + 1 - start);
                    assert(d.subrange(0, i + 1 - start) =~= next);
                }
            }
            return None;
        }
        assert(value * 10 + digit <= usize::MAX) by (nonlinear_arith)
            requires
                value as nat <= (usize::MAX - digit) / 10,
                digit <= 9,
        ;
        value = value * 10 + digit;
        i = i + 1;
    }
    assert(b@.subrange(start as int, n as int) =~= d);
    Some(value)
}

/// Whether a text switches verbose output on: `true` in any case, or `1`.
pub open spec fn verbose_switch(v: Seq<char>) -> bool {
    eq_ignore_ascii_case(bytes_of(v), bytes_of("true"@)) || v == "1"@
}

/// Reads a verbose switch.
pub fn parse_verbose(text: &str) -> (r: bool)
    ensures
        r == verbose_switch(text@),
{
    let word: &str = "true";
    let b = text.as_bytes();
    let w = word.as_bytes();
    let is_true = tail_eq_ignore_ascii_case(b, 0, w, 0);
    assert(b@.subrange(0, b@.len() as int) =~= b@);
    assert(w@.subrange(0, w@.len() as int) =~= w@);
    let one = String::from_str("1");
    let is_one = String::from_str(text) == one;
    is_true || is_one
}

impl AnalyzerConfig {
    /// Applies the overrides read from the environment: a thread count where
    /// `threads` is a count, and the verbose switch where `verbose` is given.
    /// Everything else is kept.
    pub fn apply_environment(&mut self, threads: Option<&str>, verbose: Option<&str>)
        ensures
            final(self).num_threads == match threads {
                Some(t) => match parsed_count(bytes_of(t@)) {
                    Some(n) => Some(n),
                    None => old(self).num_threads,
                },
                None => old(self).num_threads,
            },
            final(self).verbose == match verbose {
                Some(v) => verbose_switch(v@),
                None => old(self).verbose,
            },
            final(self).supported_extensions == old(self).supported_extensions,
            final(self).quality_thresholds == old(self).quality_thresholds,
            final(self).show_progress == old(self).show_progress,
            final(self).output == old(self).output,
            final(self).ffmpeg == old(self).ffmpeg,
    {
        if let Some(t) = threads {
            if let Some(n) = parse_count(t) {
                self.num_threads = Some(n);
            }
        }
        if let Some(v) = verbose {
            self.verbose = parse_verbose(v);
        }
    }
}

/// The default configuration with the overrides given by the environment.
pub fn create_default_config(threads: Option<&str>, verbose: Option<&str>) -> (r: AnalyzerConfig)
    ensures
        r.num_threads == match threads {
            Some(t) => parsed_count(bytes_of(t@)),
            None => None,
        },
        r.verbose == match verbose {
            Some(v) => verbose_switch(v@),
            None => false,
        },
        r.supported_extensions@.map_values(|s: String| s@) == default_extensions(),
        r.quality_thresholds == default_thresholds(),
        r.show_progress,
{
    let mut config = AnalyzerConfig::default();
    config.apply_environment(threads, verbose);
    config
}

} // verus!

//! The decisions of the pipeline around the external analysis tool: how each
//! probe is invoked, how the six probe outputs of one file become a record,
//! and how the records of a batch are gathered.
use vstd::prelude::*;
use vstd::string::StringExecFns;
use crate::config::{config_valid, default_extensions, default_thresholds, AnalyzerConfig, FfmpegConfig};
use crate::error::{describes, AnalyzerError};
use crate::parser::{
    first_match, every_match, highpass_choice, lra_choice, stats_choice, OutputPatterns,
    ASTATS_OVERALL_PATTERN, HIGHPASS_RMS_PATTERN, LRA_PATTERN, PEAK_PATTERN, RMS_PATTERN,
    SUMMARY_LRA_PATTERN,
};
use crate::types::{is_complete_view, AudioMetrics, MetricsView};
use crate::utils::fs_utils::texts;
use crate::utils::string_utils::{decimal, decimal_text, starts_with};

verus! {

/// Cut-off of the lowest high-pass probe, in Hz.
pub const CUTOFF_16K_HZ: u32 = 16000;
/// Cut-off of the middle high-pass probe, in Hz.
pub const CUTOFF_18K_HZ: u32 = 18000;
/// Cut-off of the highest high-pass probe, in Hz.
pub const CUTOFF_20K_HZ: u32 = 20000;

/// One invocation of the analysis tool on one file.
#[derive(Debug, Clone, Copy, PartialEq, Eq, Structural)]
pub enum ProbeKind {
    /// The loudness filter, for the loudness range.
    LoudnessRange,
    /// The statistics filter, for peak and RMS levels.
    Stats,
    /// A high-pass filter at the given cut-off (Hz), then the statistics filter.
    HighpassRms(u32),
}

/// The filter arguments of a probe.
pub open spec fn filter_args(kind: ProbeKind) -> Seq<Seq<char>> {
    match kind {
        ProbeKind::LoudnessRange => seq!["-filter_complex"@, "ebur128"@],
        ProbeKind::Stats => seq!["-filter:a"@, "astats=metadata=1"@, "-map"@, "0:a"@],
        ProbeKind::HighpassRms(f) => seq![
            "-filter:a"@,
            "highpass=f="@ + decimal(f as nat) + ",astats=metadata=1"@,
            "-map"@,
            "0:a"@,
        ],
    }
}

/// The full argument list of a probe of `file`: input, filter, a null
/// output, then the banner and log-level options.
pub open spec fn probe_args(kind: ProbeKind, file: Seq<char>, log_level: Seq<char>, hide_banner: bool) -> Seq<
    Seq<char>,
> {
    seq!["-i"@, file] + filter_args(kind) + seq!["-f"@, "null"@, "-"@] + (if hide_banner {
        seq!["-hide_banner"@]
    } else {
        Seq::empty()
    }) + seq!["-loglevel"@, log_level]
}

fn push_str(v: &mut Vec<String>, s: &str)
    ensures
        texts(final(v)@) == texts(old(v)@).push(s@),
{
    v.push(String::from_str(s));
    assert(texts(v@) =~= texts(old(v)@).push(s@));
}

/// The arguments with which the analysis tool runs `kind` on `file`.
pub fn probe_arguments(kind: ProbeKind, file: &str, ffmpeg: &FfmpegConfig) -> (r: Vec<String>)
    ensures
        texts(r@) == probe_args(kind, file@, ffmpeg.log_level@, ffmpeg.hide_banner),
{
    let mut v: Vec<String> = Vec::new();
    push_str(&mut v, "-i");
    push_str(&mut v, file);
    match kind {
        ProbeKind::LoudnessRange => {
            push_str(&mut v, "-filter_complex");
            push_str(&mut v, "ebur128");
        },
        ProbeKind::Stats => {
            push_str(&mut v, "-filter:a");
            push_str(&mut v, "astats=metadata=1");
            push_str(&mut v, "-map");
            push_str(&mut v, "0:a");
        },
        ProbeKind::HighpassRms(f) => {
            push_str(&mut v, "-filter:a");
            let filter = String::from_str("highpass=f=").concat(decimal_text(f as u64).as_str()).concat(
                ",astats=metadata=1",
            );
            push_str(&mut v, filter.as_str());
            push_str(&mut v, "-map");
            push_str(&mut v, "0:a");
        },
    }
    push_str(&mut v, "-f");
    push_str(&mut v, "null");
    push_str(&mut v, "-");
    if ffmpeg.hide_banner {
        push_str(&mut v, "-hide_banner");
    }
    push_str(&mut v, "-loglevel");
    push_str(&mut v, ffmpeg.log_level.as_str());
    assert(texts(v@) =~= probe_args(kind, file@, ffmpeg.log_level@, ffmpeg.hide_banner));
    v
}

/// The captured diagnostic text of each probe of one file, or why the probe
/// could not be run.
pub struct ProbeOutputs {
    pub loudness: Result<String, AnalyzerError>,
    pub stats: Result<String, AnalyzerError>,
    pub highpass_16k: Result<String, AnalyzerError>,
    pub highpass_18k: Result<String, AnalyzerError>,
    pub highpass_20k: Result<String, AnalyzerError>,
}

/// The text of a probe that ran.
pub open spec fn output_text(o: Result<String, AnalyzerError>) -> Option<Seq<char>> {
    match o {
        Ok(t) => Some(t@),
        Err(_) => None,
    }
}

/// The loudness range read from the loudness probe's text.
pub open spec fn loudness_reading(t: Option<Seq<char>>) -> Option<Seq<char>> {
    match t {
        Some(x) => lra_choice(first_match(SUMMARY_LRA_PATTERN@, x), every_match(LRA_PATTERN@, x)),
        None => None,
    }
}

/// The peak and RMS levels read from the statistics probe's text.
pub open spec fn stats_readings(t: Option<Seq<char>>) -> (Option<Seq<char>>, Option<Seq<char>>) {
    match t {
        Some(x) => match stats_choice(
            first_match(ASTATS_OVERALL_PATTERN@, x),
            first_match(PEAK_PATTERN@, x),
            first_match(RMS_PATTERN@, x),
        ) {
            Some(p) => p,
            None => (None, None),
        },
        None => (None, None),
    }
}

/// The band level read from a high-pass probe's text.
pub open spec fn highpass_reading(t: Option<Seq<char>>) -> Option<Seq<char>> {
    match t {
        Some(x) => Some(highpass_choice(first_match(HIGHPASS_RMS_PATTERN@, x), every_match(RMS_PATTERN@, x))),
        None => None,
    }
}

/// The record of a file, given the texts of its probes (absent where a probe
/// could not be run).
pub open spec fn assembled(
    file_path: Seq<char>,
    file_size_bytes: u64,
    loudness: Option<Seq<char>>,
    stats: Option<Seq<char>>,
    highpass_16k: Option<Seq<char>>,
    highpass_18k: Option<Seq<char>>,
    highpass_20k: Option<Seq<char>>,
    processing_time_ms: u64,
) -> MetricsView {
    MetricsView {
        file_path,
        file_size_bytes,
        lra: loudness_reading(loudness),
        peak_amplitude_db: stats_readings(stats).0,
        overall_rms_db: stats_readings(stats).1,
        rms_db_above_16k: highpass_reading(highpass_16k),
        rms_db_above_18k: highpass_reading(highpass_18k),
        rms_db_above_20k: highpass_reading(highpass_20k),
        processing_time_ms,
    }
}

/// The record that a file's probe outputs give.
pub open spec fn record_of(file_path: Seq<char>, file_size_bytes: u64, o: ProbeOutputs, processing_time_ms: u64) -> MetricsView {
    assembled(
        file_path,
        file_size_bytes,
        output_text(o.loudness),
        output_text(o.stats),
        output_text(o.highpass_16k),
        output_text(o.highpass_18k),
        output_text(o.highpass_20k),
        processing_time_ms,
    )
}

/// Name of the loudness probe in diagnostics.
pub const LOUDNESS_PROBE: &'static str = "loudness range";
/// Name of the statistics probe in diagnostics.
pub const STATS_PROBE: &'static str = "peak/RMS";
/// Name of the lowest high-pass probe in diagnostics.
pub const HIGHPASS_16K_PROBE: &'static str = "high-pass RMS 16 kHz";
/// Name of the middle high-pass probe in diagnostics.
pub const HIGHPASS_18K_PROBE: &'static str = "high-pass RMS 18 kHz";
/// Name of the highest high-pass probe in diagnostics.
pub const HIGHPASS_20K_PROBE: &'static str = "high-pass RMS 20 kHz";

/// The loudness probe's failure is absorbed: it could not run, or its text
/// held no loudness range.
pub open spec fn loudness_failed(o: ProbeOutputs) -> bool {
    loudness_reading(output_text(o.loudness)) is None
}

/// The statistics probe's failure is absorbed: it could not run, or its text
/// held neither level.
pub open spec fn stats_failed(o: ProbeOutputs) -> bool {
    match output_text(o.stats) {
        Some(x) => stats_choice(
            first_match(ASTATS_OVERALL_PATTERN@, x),
            first_match(PEAK_PATTERN@, x),
            first_match(RMS_PATTERN@, x),
        ) is None,
        None => true,
    }
}

/// `label` where `failed` holds, nothing otherwise.
pub open spec fn label_if(failed: bool, label: &str) -> Seq<Seq<char>> {
    if failed {
        seq![label@]
    } else {
        Seq::empty()
    }
}

/// The names of the probes of a file whose failure was absorbed, in probe
/// order.
pub open spec fn failed_probes(o: ProbeOutputs) -> Seq<Seq<char>> {
    label_if(loudness_failed(o), LOUDNESS_PROBE) + label_if(stats_failed(o), STATS_PROBE) + label_if(
        o.highpass_16k is Err,
        HIGHPASS_16K_PROBE,
    ) + label_if(o.highpass_18k is Err, HIGHPASS_18K_PROBE) + label_if(o.highpass_20k is Err, HIGHPASS_20K_PROBE)
}

/// How a diagnostic of a probe of a file begins.
pub open spec fn probe_head(file_path: Seq<char>, probe: Seq<char>) -> Seq<char> {
    file_path + ": "@ + probe + ": "@
}

/// One diagnostic per named probe, in order, each naming the file and that
/// probe.
pub open spec fn names_probes(diagnostics: Seq<String>, file_path: Seq<char>, probes: Seq<Seq<char>>) -> bool {
    &&& diagnostics.len() == probes.len()
    &&& forall|k: int|
        0 <= k < diagnostics.len() ==> starts_with(
            (#[trigger] diagnostics[k])@,
            probe_head(file_path, probes[k]),
        )
}

/// A diagnostic for a probe failure: the file, the probe, then the error.
fn probe_diagnostic(file_path: &str, probe: &str, e: &AnalyzerError) -> (r: String)
    ensures
        starts_with(r@, probe_head(file_path@, probe@)),
{
    let head = String::from_str(file_path).concat(": ").concat(probe).concat(": ");
    let r = head.concat(e.to_string().as_str());
    assert(r@.subrange(0, head@.len() as int) =~= head@);
    r
}

/// Adds the diagnostic of a failed probe.
fn note_failure(diagnostics: &mut Vec<String>, file_path: &str, probe: &str, e: &AnalyzerError)
    ensures
        forall|ps: Seq<Seq<char>>|
            names_probes(old(diagnostics)@, file_path@, ps) ==> names_probes(
                final(diagnostics)@,
                file_path@,
                #[trigger] ps.push(probe@),
            ),
{
    diagnostics.push(probe_diagnostic(file_path, probe, e));
    assert forall|ps: Seq<Seq<char>>|
        names_probes(old(diagnostics)@, file_path@, ps) implies names_probes(
        diagnostics@,
        file_path@,
        #[trigger] ps.push(probe@),
    ) by {
        assert forall|k: int| 0 <= k < diagnostics@.len() implies starts_with(
            (#[trigger] diagnostics@[k])@,
            probe_head(file_path@, ps.push(probe@)[k]),
        ) by {
            if k < old(diagnostics)@.len() {
                assert(diagnostics@[k] == old(diagnostics)@[k]);
            }
        }
    }
}

/// Reads one high-pass probe, noting a probe that could not run.
fn read_highpass(
    patterns: &OutputPatterns,
    file_path: &str,
    probe: &str,
    o: &Result<String, AnalyzerError>,
    diagnostics: &mut Vec<String>,
) -> (r: Option<crate::parser::Reading>)
    requires
        patterns.wf(),
    ensures
        crate::types::reading_view(r) == highpass_reading(output_text(*o)),
        forall|ps: Seq<Seq<char>>|
            names_probes(old(diagnostics)@, file_path@, ps) ==> names_probes(
                final(diagnostics)@,
                file_path@,
                #[trigger] (ps + label_if(*o is Err, probe)),
            ),
{
    let ghost before = diagnostics@;
    match o {
        Ok(t) => {
            assert forall|ps: Seq<Seq<char>>| names_probes(before, file_path@, ps) implies names_probes(
                diagnostics@,
                file_path@,
                #[trigger] (ps + label_if(*o is Err, probe)),
            ) by {
                assert(ps + label_if(*o is Err, probe) =~= ps);
            }
            Some(patterns.extract_highpass_rms(t.as_str()))
        },
        Err(e) => {
            note_failure(diagnostics, file_path, probe, e);
            assert forall|ps: Seq<Seq<char>>| names_probes(before, file_path@, ps) implies names_probes(
                diagnostics@,
                file_path@,
                #[trigger] (ps + label_if(*o is Err, probe)),
            ) by {
                assert(ps + label_if(*o is Err, probe) =~= ps.push(probe@));
            }
            None
        },
    }
}

/// Builds the record of one file from the outputs of its probes.
///
/// A probe that could not run, or whose text held no reading, leaves its
/// fields absent and adds one diagnostic that names the file and the probe;
/// it never fails the file.
pub fn assemble_metrics(
    patterns: &OutputPatterns,
    file_path: &str,
    file_size_bytes: u64,
    outputs: &ProbeOutputs,
    processing_time_ms: u64,
) -> (r: (AudioMetrics, Vec<String>))
    requires
        patterns.wf(),
    ensures
        r.0@ == record_of(file_path@, file_size_bytes, *outputs, processing_time_ms),
        names_probes(r.1@, file_path@, failed_probes(*outputs)),
{
    let mut diagnostics: Vec<String> = Vec::new();
    let ghost l0 = label_if(loudness_failed(*outputs), LOUDNESS_PROBE);
    let ghost l1 = l0 + label_if(stats_failed(*outputs), STATS_PROBE);
    let ghost l2 = l1 + label_if(outputs.highpass_16k is Err, HIGHPASS_16K_PROBE);
    let ghost l3 = l2 + label_if(outputs.highpass_18k is Err, HIGHPASS_18K_PROBE);
    let ghost l4 = l3 + label_if(outputs.highpass_20k is Err, HIGHPASS_20K_PROBE);
    assert(names_probes(diagnostics@, file_path@, Seq::empty()));
    let mut metrics = AudioMetrics::new(String::from_str(file_path), file_size_bytes);
    match &outputs.loudness {
        Ok(t) => match patterns.extract_lra(t.as_str()) {
            Ok(x) => {
                metrics.lra = Some(x);
                assert(l0 =~= Seq::<Seq<char>>::empty());
            },
            Err(e) => {
                note_failure(&mut diagnostics, file_path, LOUDNESS_PROBE, &e);
                assert(Seq::<Seq<char>>::empty().push(LOUDNESS_PROBE@) =~= l0);
            },
        },
        Err(e) => {
            note_failure(&mut diagnostics, file_path, LOUDNESS_PROBE, e);
            assert(Seq::<Seq<char>>::empty().push(LOUDNESS_PROBE@) =~= l0);
        },
    }
    assert(names_probes(diagnostics@, file_path@, l0));
    match &outputs.stats {
        Ok(t) => match patterns.extract_audio_stats(t.as_str()) {
            Ok(st) => {
                metrics.peak_amplitude_db = st.peak_db;
                metrics.overall_rms_db = st.rms_db;
                assert(l1 =~= l0);
            },
            Err(e) => {
                note_failure(&mut diagnostics, file_path, STATS_PROBE, &e);
                assert(l0.push(STATS_PROBE@) =~= l1);
            },
        },
        Err(e) => {
            note_failure(&mut diagnostics, file_path, STATS_PROBE, e);
            assert(l0.push(STATS_PROBE@) =~= l1);
        },
    }
    assert(names_probes(diagnostics@, file_path@, l1));
    metrics.rms_db_above_16k = read_highpass(patterns, file_path, HIGHPASS_16K_PROBE, &outputs.highpass_16k, &mut diagnostics);
    assert(names_probes(diagnostics@, file_path@, l2));
    metrics.rms_db_above_18k = read_highpass(patterns, file_path, HIGHPASS_18K_PROBE, &outputs.highpass_18k, &mut diagnostics);
    assert(names_probes(diagnostics@, file_path@, l3));
    metrics.rms_db_above_20k = read_highpass(patterns, file_path, HIGHPASS_20K_PROBE, &outputs.highpass_20k, &mut diagnostics);
    assert(names_probes(diagnostics@, file_path@, l4));
    metrics.processing_time_ms = processing_time_ms;
    (metrics, diagnostics)
}

/// A file whose loudness probe failed while its other probes gave readings
/// gets a record with no loudness range and every other reading, and that
/// record is not complete.
pub proof fn law_failed_loudness_probe(
    file_path: Seq<char>,
    file_size_bytes: u64,
    o: ProbeOutputs,
    processing_time_ms: u64,
)
    requires
        output_text(o.loudness) is None,
        stats_readings(output_text(o.stats)).0 is Some,
        stats_readings(output_text(o.stats)).1 is Some,
        output_text(o.highpass_16k) is Some,
        output_text(o.highpass_18k) is Some,
        output_text(o.highpass_20k) is Some,
    ensures
        ({
            let r = record_of(file_path, file_size_bytes, o, processing_time_ms);
            &&& r.lra is None
            &&& r.peak_amplitude_db is Some
            &&& r.overall_rms_db is Some
            &&& r.rms_db_above_16k is Some
            &&& r.rms_db_above_18k is Some
            &&& r.rms_db_above_20k is Some
            &&& !is_complete_view(r)
        }),
{
}

/// What became of one file of a batch.
pub struct FileOutcome {
    pub path: String,
    pub result: Result<AudioMetrics, AnalyzerError>,
}

/// The records of a batch, and a diagnostic for each file that was dropped.
pub struct BatchReport {
    /// The records of the files that were analysed, in input order.
    pub records: Vec<AudioMetrics>,
    /// One diagnostic per dropped file, in input order.
    pub failures: Vec<String>,
    /// The number of files in the batch.
    pub total: usize,
}

/// The records of the files that were analysed, in order.
pub open spec fn successes(os: Seq<FileOutcome>) -> Seq<MetricsView>
    decreases os.len(),
{
    if os.len() == 0 {
        Seq::empty()
    } else {
        let prev = successes(os.drop_last());
        match os.last().result {
            Ok(m) => prev.push(m@),
            Err(_) => prev,
        }
    }
}

/// The outcomes of the files that were dropped, in order.
pub open spec fn failed(os: Seq<FileOutcome>) -> Seq<FileOutcome>
    decreases os.len(),
{
    if os.len() == 0 {
        Seq::empty()
    } else {
        let prev = failed(os.drop_last());
        match os.last().result {
            Ok(_) => prev,
            Err(_) => prev.push(os.last()),
        }
    }
}

/// The records of a list, as plain values.
pub open spec fn records_view(v: Seq<AudioMetrics>) -> Seq<MetricsView> {
    v.map_values(|m: AudioMetrics| m@)
}

/// How the diagnostic of a dropped file begins: its path, then the head of
/// the error.
pub open spec fn failure_head(path: Seq<char>) -> Seq<char> {
    "处理失败: "@ + path + "\n └─> 错误详情: "@
}

/// `d` reports the failed outcome `o`: the head naming its file, then the
/// message of its error.
pub open spec fn reports_failure(d: Seq<char>, o: FileOutcome) -> bool {
    let head = failure_head(o.path@);
    &&& starts_with(d, head)
    &&& match o.result {
        Err(e) => describes(d.subrange(head.len() as int, d.len() as int), e),
        Ok(_) => false,
    }
}

/// A diagnostic for a dropped file: its path, then the error.
fn failure_diagnostic(o: &FileOutcome, e: &AnalyzerError) -> (r: String)
    requires
        o.result == Err::<AudioMetrics, AnalyzerError>(*e),
    ensures
        reports_failure(r@, *o),
{
    let head = String::from_str("处理失败: ").concat(o.path.as_str()).concat("\n └─> 错误详情: ");
    let m = e.to_string();
    let r = head.concat(m.as_str());
    assert(r@.subrange(0, head@.len() as int) =~= head@);
    assert(r@.subrange(head@.len() as int, r@.len() as int) =~= m@);
    r
}

/// Gathers the outcomes of a batch: the records of the files that were
/// analysed, in input order, and one diagnostic per file that failed. A
/// failed file never fails the batch; an empty batch gives an empty report.
pub fn collect_batch(outcomes: &Vec<FileOutcome>) -> (r: BatchReport)
    ensures
        records_view(r.records@) == successes(outcomes@),
        r.failures@.len() == failed(outcomes@).len(),
        forall|k: int|
            0 <= k < r.failures@.len() ==> reports_failure((#[trigger] r.failures@[k])@, failed(outcomes@)[k]),
        r.total == outcomes@.len(),
{
    let mut records: Vec<AudioMetrics> = Vec::new();
    let mut failures: Vec<String> = Vec::new();
    let mut i: usize = 0;
    while i < outcomes.len()
        invariant
            i <= outcomes@.len(),
            records_view(records@) == successes(outcomes@.subrange(0, i as int)),
            failures@.len() == failed(outcomes@.subrange(0, i as int)).len(),
            forall|k: int|
                0 <= k < failures@.len() ==> reports_failure(
                    (#[trigger] failures@[k])@,
                    failed(outcomes@.subrange(0, i as int))[k],
                ),
        decreases outcomes@.len() - i,
    {
        let ghost pre = outcomes@.subrange(0, i as int);
        let ghost next = outcomes@.subrange(0, i + 1);
        assert(next.drop_last() =~= pre);
        assert(next.last() == outcomes@[i as int]);
        match &outcomes[i].result {
            Ok(m) => {
                records.push(m.clone());
                assert(records_view(records@) =~= successes(pre).push(m@));
            },
            Err(e) => {
                failures.push(failure_diagnostic(&outcomes[i], e));
                assert(failed(next) == failed(pre).push(outcomes@[i as int]));
                assert forall|k: int|
                    0 <= k < failures@.len() implies reports_failure(
                    (#[trigger] failures@[k])@,
                    failed(next)[k],
                ) by {
                    if k < failures@.len() - 1 {
                        assert(failed(next)[k] == failed(pre)[k]);
                    }
                }
            },
        }
        i = i + 1;
    }
    assert(outcomes@.subrange(0, outcomes@.len() as int) =~= outcomes@);
    BatchReport { records, failures, total: outcomes.len() }
}

impl BatchReport {
    /// The number of files that were dropped.
    pub fn failed_count(&self) -> (r: usize)
        ensures
            r == self.failures@.len(),
    {
        self.failures.len()
    }

    /// Whether some, but not all, of the batch was lost.
    pub fn is_partial_failure(&self) -> (r: bool)
        ensures
            r == (self.failures@.len() > 0 && self.records@.len() > 0),
    {
        self.failures.len() > 0 && self.records.len() > 0
    }
}

/// Every file of a batch is either kept as a record or reported as dropped.
pub proof fn law_batch_accounts_for_every_file(os: Seq<FileOutcome>)
    ensures
        successes(os).len() + failed(os).len() == os.len(),
    decreases os.len(),
{
    if os.len() > 0 {
        law_batch_accounts_for_every_file(os.drop_last());
    }
}

/// Where the external executables were found.
#[derive(Debug)]
pub struct DependencyPaths {
    /// The analysis tool.
    pub ffmpeg_path: String,
    /// The report generator.
    pub analyzer_path: String,
}

/// The analyser: a validated configuration and, once resolved, the paths of
/// the external executables.
#[derive(Debug)]
pub struct AudioAnalyzer {
    config: AnalyzerConfig,
    dependencies: Option<DependencyPaths>,
}

impl AudioAnalyzer {
    /// The configuration of the analyser.
    pub closed spec fn config_view(&self) -> AnalyzerConfig {
        self.config
    }

    /// The executables of the analyser, once resolved.
    pub closed spec fn dependencies_view(&self) -> Option<DependencyPaths> {
        self.dependencies
    }

    /// An analyser for `config`, refused with a configuration error when the
    /// configuration is not valid.
    pub fn new(config: AnalyzerConfig) -> (r: Result<AudioAnalyzer, AnalyzerError>)
        ensures
            r is Ok <==> config_valid(config),
            r matches Ok(a) ==> a.config_view() == config && a.dependencies_view() is None,
            r matches Err(e) ==> e is ConfigError,
    {
        match config.validate() {
            Ok(()) => Ok(AudioAnalyzer { config, dependencies: None }),
            Err(e) => Err(e),
        }
    }

    /// An analyser with the default configuration, which is valid.
    pub fn with_default_config() -> (r: Result<AudioAnalyzer, AnalyzerError>)
        ensures
            r matches Ok(a) && a.config_view().supported_extensions@.map_values(|s: String| s@)
                == default_extensions() && a.config_view().quality_thresholds == default_thresholds()
                && a.dependencies_view() is None,
    {
        let config = AnalyzerConfig::default();
        assert(config.supported_extensions@.len() == default_extensions().len());
        AudioAnalyzer::new(config)
    }

    /// The configuration.
    pub fn config(&self) -> (r: &AnalyzerConfig)
        ensures
            *r == self.config_view(),
    {
        &self.config
    }

    /// Whether the executables were resolved.
    pub fn is_initialized(&self) -> (r: bool)
        ensures
            r == self.dependencies_view() is Some,
    {
        self.dependencies.is_some()
    }

    /// Records where the executables are; an analyser that already knows
    /// them keeps the first paths.
    pub fn set_dependencies(&mut self, paths: DependencyPaths)
        ensures
            final(self).config_view() == old(self).config_view(),
            final(self).dependencies_view() == match old(self).dependencies_view() {
                Some(d) => Some(d),
                None => Some(paths),
            },
    {
        if self.dependencies.is_none() {
            self.dependencies = Some(paths);
        }
    }

    /// The path of the analysis tool, once resolved.
    pub fn ffmpeg_path(&self) -> (r: Option<&str>)
        ensures
            match self.dependencies_view() {
                Some(d) => r matches Some(p) && p@ == d.ffmpeg_path@,
                None => r is None,
            },
    {
        match &self.dependencies {
            Some(d) => Some(d.ffmpeg_path.as_str()),
            None => None,
        }
    }

    /// The path of the report generator, once resolved.
    pub fn get_analyzer_path(&self) -> (r: Option<&str>)
        ensures
            match self.dependencies_view() {
                Some(d) => r matches Some(p) && p@ == d.analyzer_path@,
                None => r is None,
            },
    {
        match &self.dependencies {
            Some(d) => Some(d.analyzer_path.as_str()),
            None => None,
        }
    }
}

/// Each kept record is the record of an analysed file of the batch.
proof fn lemma_successes_come_from(os: Seq<FileOutcome>)
    ensures
        forall|k: int|
            #![trigger successes(os)[k]]
            0 <= k < successes(os).len() ==> exists|i: int|
                0 <= i < os.len() && (#[trigger] os[i]).result is Ok && successes(os)[k] == os[i].result->Ok_0@,
    decreases os.len(),
{
    if os.len() > 0 {
        let prev = os.drop_last();
        lemma_successes_come_from(prev);
        assert forall|k: int| #![trigger successes(os)[k]] 0 <= k < successes(os).len() implies exists|i: int|
            0 <= i < os.len() && (#[trigger] os[i]).result is Ok && successes(os)[k] == os[i].result->Ok_0@ by {
            if k < successes(prev).len() {
                let i = choose|i: int|
                    0 <= i < prev.len() && (#[trigger] prev[i]).result is Ok && successes(prev)[k]
                        == prev[i].result->Ok_0@;
                assert(os[i] == prev[i]);
            } else {
                assert(os[os.len() - 1] == os.last());
            }
        }
    }
}

/// Each reported failure is a dropped file of the batch.
proof fn lemma_failures_come_from(os: Seq<FileOutcome>)
    ensures
        forall|j: int|
            #![trigger failed(os)[j]]
            0 <= j < failed(os).len() ==> exists|i: int|
                0 <= i < os.len() && (#[trigger] os[i]).result is Err && failed(os)[j] == os[i],
    decreases os.len(),
{
    if os.len() > 0 {
        let prev = os.drop_last();
        lemma_failures_come_from(prev);
        assert forall|j: int| #![trigger failed(os)[j]] 0 <= j < failed(os).len() implies exists|i: int|
            0 <= i < os.len() && (#[trigger] os[i]).result is Err && failed(os)[j] == os[i] by {
            if j < failed(prev).len() {
                let i = choose|i: int|
                    0 <= i < prev.len() && (#[trigger] prev[i]).result is Err && failed(prev)[j] == prev[i];
                assert(os[i] == prev[i]);
            } else {
                assert(os[os.len() - 1] == os.last());
            }
        }
    }
}

/// Where each analysed file's record carries that file's path and no path
/// repeats in the batch, no kept record carries the path of a dropped file.
pub proof fn law_dropped_files_leave_no_record(os: Seq<FileOutcome>)
    requires
        forall|i: int|
            0 <= i < os.len() && (#[trigger] os[i]).result is Ok ==> os[i].result->Ok_0.file_path@ == os[i].path@,
        forall|i: int, j: int| 0 <= i < j < os.len() ==> (#[trigger] os[i]).path@ != (#[trigger] os[j]).path@,
    ensures
        forall|k: int, j: int|
            0 <= k < successes(os).len() && 0 <= j < failed(os).len() ==> (#[trigger] successes(os)[k]).file_path
                != (#[trigger] failed(os)[j]).path@,
{
    lemma_successes_come_from(os);
    lemma_failures_come_from(os);
    assert forall|k: int, j: int|
        0 <= k < successes(os).len() && 0 <= j < failed(os).len() implies (#[trigger] successes(os)[k]).file_path
        != (#[trigger] failed(os)[j]).path@ by {
        let a = choose|i: int|
            0 <= i < os.len() && (#[trigger] os[i]).result is Ok && successes(os)[k] == os[i].result->Ok_0@;
        let b = choose|i: int| 0 <= i < os.len() && (#[trigger] os[i]).result is Err && failed(os)[j] == os[i];
        assert(a != b);
        if a < b {
            assert(os[a].path@ != os[b].path@);
        } else {
            assert(os[b].path@ != os[a].path@);
        }
    }
}

} // verus!

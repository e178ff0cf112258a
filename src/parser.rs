//! Turning the analysis tool's text output into readings.
//!
//! Each metric has an ordered list of strategies, each a pattern matched
//! against the whole text: a summary pattern first, then a pattern that may
//! match many times (the last match wins), then a bare fallback. A captured
//! text that is not a decimal number counts as no match.
use vstd::prelude::*;
use vstd::string::StringExecFns;
use vstd::string::StrSliceExecFns;
use crate::error::AnalyzerError;
use crate::types::{reading_view, AudioStats};

verus! {

/// A decimal digit.
pub open spec fn is_digit(c: char) -> bool {
    '0' <= c && c <= '9'
}

/// The number of `.` in `t`.
pub open spec fn dot_count(t: Seq<char>) -> nat
    decreases t.len(),
{
    if t.len() == 0 {
        0
    } else {
        dot_count(t.drop_last()) + if t.last() == '.' { 1nat } else { 0nat }
    }
}

/// A sign-free decimal: digits with at most one `.`, and at least one digit.
pub open spec fn is_unsigned_decimal(t: Seq<char>) -> bool {
    &&& forall|i: int| 0 <= i < t.len() ==> (is_digit(#[trigger] t[i]) || t[i] == '.')
    &&& exists|i: int| 0 <= i < t.len() && is_digit(#[trigger] t[i])
    &&& dot_count(t) <= 1
}

/// A decimal literal as standard floating-point parsing reads one written
/// without exponent: an optional sign, then a sign-free decimal.
pub open spec fn is_decimal_literal(t: Seq<char>) -> bool {
    if t.len() > 0 && (t[0] == '-' || t[0] == '+') {
        is_unsigned_decimal(t.drop_first())
    } else {
        is_unsigned_decimal(t)
    }
}

fn is_digit_char(c: char) -> (r: bool)
    ensures
        r == is_digit(c),
{
    '0' <= c && c <= '9'
}

/// Whether `t` is a decimal literal.
pub fn is_decimal_literal_text(t: &str) -> (r: bool)
    ensures
        r == is_decimal_literal(t@),
{
    let n: usize = t.unicode_len();
    let start: usize = if n > 0 && (t.get_char(0) == '-' || t.get_char(0) == '+') {
        1
    } else {
        0
    };
    let ghost body = t@.subrange(start as int, n as int);
    assert(start == 1 ==> body =~= t@.drop_first());
    assert(start == 0 ==> body =~= t@);
    let mut seen_digit = false;
    let mut dots: usize = 0;
    let mut i: usize = start;
    while i < n
        invariant
            start <= i <= n,
            n == t@.len(),
            body == t@.subrange(start as int, n as int),
            is_decimal_literal(t@) == is_unsigned_decimal(body),
            forall|j: int| start <= j < i ==> (is_digit(#[trigger] t@[j]) || t@[j] == '.'),
            seen_digit <==> exists|j: int| start <= j < i && is_digit(#[trigger] t@[j]),
            dots as nat == dot_count(t@.subrange(start as int, i as int)),
            dots <= 1,
        decreases n - i,
    {
        let c = t.get_char(i);
        assert(t@.subrange(start as int, i + 1).drop_last() =~= t@.subrange(start as int, i as int));
        if c == '.' {
            if dots == 1 {
                assert(t@.subrange(start as int, i + 1).last() == '.');
                assert(dot_count(t@.subrange(start as int, i + 1)) == 2);
                proof {
                    lemma_dot_count_prefix(body, i + 1 - start);
                    assert(body.subrange(0, i + 1 - start) =~= t@.subrange(start as int, i + 1));
                }
                return false;
            }
            dots = dots + 1;
        } else if is_digit_char(c) {
            seen_digit = true;
        } else {
            assert(body[i - start] == c);
            return false;
        }
        i = i + 1;
    }
    assert(t@.subrange(start as int, n as int) =~= body);
    if !seen_digit {
        assert forall|j: int| 0 <= j < body.len() implies !is_digit(#[trigger] body[j]) by {
            assert(body[j] == t@[start + j]);
        }
        return false;
    }
    assert forall|j: int| 0 <= j < body.len() implies (is_digit(#[trigger] body[j]) || body[j] == '.') by {
        assert(body[j] == t@[start + j]);
    }
    let ghost w = choose|j: int| start <= j < i && is_digit(#[trigger] t@[j]);
    assert(body[w - start] == t@[w]);
    true
}

/// The dots of a prefix are never more than those of the whole.
proof fn lemma_dot_count_prefix(t: Seq<char>, k: int)
    requires
        0 <= k <= t.len(),
    ensures
        dot_count(t.subrange(0, k)) <= dot_count(t),
    decreases t.len() - k,
{
    if k < t.len() {
        lemma_dot_count_prefix(t, k + 1);
        assert(t.subrange(0, k + 1).drop_last() =~= t.subrange(0, k));
    } else {
        assert(t.subrange(0, k) =~= t);
    }
}

/// A reading of the analysis tool: the decimal literal it printed for one
/// metric, in the unit of that metric (LU or dB).
#[derive(Debug)]
pub struct Reading {
    text: String,
}

impl View for Reading {
    type V = Seq<char>;

    closed spec fn view(&self) -> Seq<char> {
        self.text@
    }
}

impl Reading {
    /// The reading that `t` spells, if it is a decimal literal.
    pub fn parse(t: &str) -> (r: Option<Reading>)
        ensures
            r is Some <==> is_decimal_literal(t@),
            r matches Some(x) ==> x@ == t@,
    {
        if is_decimal_literal_text(t) {
            Some(Reading { text: String::from_str(t) })
        } else {
            None
        }
    }

    /// The literal of the reading.
    pub fn as_str(&self) -> (r: &str)
        ensures
            r@ == self@,
    {
        self.text.as_str()
    }

    /// The literal of the reading, as an owned string.
    pub fn text(&self) -> (r: String)
        ensures
            r@ == self@,
    {
        String::from_str(self.text.as_str())
    }
}

impl Clone for Reading {
    fn clone(&self) -> (r: Reading)
        ensures
            r == *self,
    {
        Reading { text: self.text.clone() }
    }
}

impl PartialEq for Reading {
    fn eq(&self, other: &Reading) -> (r: bool) {
        self.text == other.text
    }
}

impl vstd::std_specs::cmp::PartialEqSpecImpl for Reading {
    open spec fn obeys_eq_spec() -> bool {
        true
    }

    open spec fn eq_spec(&self, other: &Reading) -> bool {
        self@ == other@
    }
}

#[verifier::external_type_specification]
#[verifier::external_body]
pub struct ExRegex(regex::Regex);

/// The groups of one match: group 0 is the whole match, an absent entry a
/// group that did not take part.
pub type Groups = Seq<Option<Seq<char>>>;

/// The groups of the first match of `pattern` in `text`, as the `regex`
/// crate finds it.
pub uninterp spec fn first_match(pattern: Seq<char>, text: Seq<char>) -> Option<Groups>;

/// The groups of each successive non-overlapping match of `pattern` in
/// `text`, as the `regex` crate finds them.
pub uninterp spec fn every_match(pattern: Seq<char>, text: Seq<char>) -> Seq<Groups>;

/// The texts of the groups of one match.
pub open spec fn groups_view(g: Seq<Option<String>>) -> Groups {
    g.map_values(|o: Option<String>| match o {
        Some(s) => Some(s@),
        None => None,
    })
}

/// The texts of the groups of each match.
pub open spec fn matches_view(m: Seq<Vec<Option<String>>>) -> Seq<Groups> {
    m.map_values(|g: Vec<Option<String>>| groups_view(g@))
}

/// A compiled pattern together with the source it was compiled from. Only
/// `compile` builds one, so `re` is always the compiled form of `source`.
pub struct Pattern {
    source: String,
    re: regex::Regex,
}

impl Pattern {
    /// The source of the pattern.
    pub closed spec fn source(&self) -> Seq<char> {
        self.source@
    }
}

/// Whether the `regex` crate accepts `source` as a pattern.
pub uninterp spec fn pattern_compiles(source: Seq<char>) -> bool;

/// Relies on `regex::Regex::new`: compiles `source`, or fails on an invalid
/// pattern; which of the two depends on `source` alone. The result keeps
/// `source` beside the compiled form.
#[verifier::external_body]
fn compile(source: &str) -> (r: Option<Pattern>)
    ensures
        r is Some <==> pattern_compiles(source@),
        r matches Some(p) ==> p.source() == source@,
{
    regex::Regex::new(source).ok().map(|re| Pattern { source: source.to_string(), re })
}

/// Relies on `regex::Regex::captures`: the groups of the first match.
#[verifier::external_body]
fn captures(p: &Pattern, text: &str) -> (r: Option<Vec<Option<String>>>)
    ensures
        match r {
            Some(g) => first_match(p.source(), text@) == Some(groups_view(g@)),
            None => first_match(p.source(), text@) is None,
        },
{
    p.re.captures(text).map(|c| c.iter().map(|m| m.map(|m| m.as_str().to_string())).collect())
}

/// Relies on `regex::Regex::captures_iter`: the groups of every match, in
/// order.
#[verifier::external_body]
fn captures_iter(p: &Pattern, text: &str) -> (r: Vec<Vec<Option<String>>>)
    ensures
        matches_view(r@) == every_match(p.source(), text@),
{
    p.re.captures_iter(text).map(|c| c.iter().map(|m| m.map(|m| m.as_str().to_string())).collect()).collect()
}

/// Summary line of the loudness filter, emitted once per run.
pub const SUMMARY_LRA_PATTERN: &'static str = r"(?m)^LRA:\s*([0-9.-]+)\s*LU\s*$";

/// Running loudness-range value, emitted many times per run.
pub const LRA_PATTERN: &'static str = r"LRA:\s*([0-9.-]+)\s*LU";

/// Overall block of the statistics filter: peak level, then RMS level.
pub const ASTATS_OVERALL_PATTERN: &'static str = r"(?m)^\[Parsed_astats_0 @ [^\]]+\] Overall\s*\n(?:[^\n]*\n)*?[^\n]*Peak level dB:\s*([-\d.]+)\s*\n(?:[^\n]*\n)*?[^\n]*RMS level dB:\s*([-\d.]+)";

/// A bare peak level line.
pub const PEAK_PATTERN: &'static str = r"Peak level dB:\s*([-\d.]+)";

/// A bare RMS level line.
pub const RMS_PATTERN: &'static str = r"RMS level dB:\s*([-\d.]+)";

/// Overall block of the statistics filter that follows a high-pass filter.
pub const HIGHPASS_RMS_PATTERN: &'static str = r"(?m)^\[Parsed_astats_1 @ [^\]]+\] Overall\s*\n(?:[^\n]*\n)*?[^\n]*RMS level dB:\s*([-\d.]+)";

/// The level (dB) of a band in which nothing could be measured.
pub const SILENCE_FLOOR_DB: &'static str = "-144.0";

/// How many characters of an unparsed output an error keeps.
pub const PREVIEW_CHARS: usize = 500;

/// Group `k` of a match, where that group took part and is a decimal literal.
pub open spec fn literal_group(g: Groups, k: int) -> Option<Seq<char>> {
    if 0 <= k < g.len() && g[k] is Some && is_decimal_literal(g[k]->0) {
        g[k]
    } else {
        None
    }
}

/// Group `k` of a match that may be absent.
pub open spec fn first_literal(m: Option<Groups>, k: int) -> Option<Seq<char>> {
    match m {
        Some(g) => literal_group(g, k),
        None => None,
    }
}

/// Group 1 of the last match whose group 1 is a decimal literal.
pub open spec fn last_literal(ms: Seq<Groups>) -> Option<Seq<char>>
    decreases ms.len(),
{
    if ms.len() == 0 {
        None
    } else {
        match literal_group(ms.last(), 1) {
            Some(t) => Some(t),
            None => last_literal(ms.drop_last()),
        }
    }
}

/// The loudness range: from the summary line, else the last running value.
pub open spec fn lra_choice(summary: Option<Groups>, running: Seq<Groups>) -> Option<Seq<char>> {
    match first_literal(summary, 1) {
        Some(t) => Some(t),
        None => last_literal(running),
    }
}

/// Group `k` of the overall block where it is a decimal literal, else group 1
/// of the bare line.
pub open spec fn overall_or_bare(overall: Option<Groups>, k: int, bare: Option<Groups>) -> Option<Seq<char>> {
    match first_literal(overall, k) {
        Some(t) => Some(t),
        None => first_literal(bare, 1),
    }
}

/// Peak and RMS levels: each from the overall block where its capture there
/// is a decimal number, else from its bare line; none at all when neither
/// level is found.
pub open spec fn stats_choice(overall: Option<Groups>, peak: Option<Groups>, rms: Option<Groups>) -> Option<
    (Option<Seq<char>>, Option<Seq<char>>),
> {
    let p = overall_or_bare(overall, 1, peak);
    let q = overall_or_bare(overall, 2, rms);
    if p is Some || q is Some {
        Some((p, q))
    } else {
        None
    }
}

/// The RMS level of a high-pass band: from the overall block, else the last
/// bare RMS line, else the silence floor.
pub open spec fn highpass_choice(overall: Option<Groups>, running: Seq<Groups>) -> Seq<char> {
    match first_literal(overall, 1) {
        Some(t) => t,
        None => match last_literal(running) {
            Some(t) => t,
            None => SILENCE_FLOOR_DB@,
        },
    }
}

/// Group `k` of a match, as a reading.
fn literal_in(g: &Vec<Option<String>>, k: usize) -> (r: Option<Reading>)
    ensures
        reading_view(r) == literal_group(groups_view(g@), k as int),
{
    if k < g.len() {
        match &g[k] {
            Some(t) => Reading::parse(t.as_str()),
            None => None,
        }
    } else {
        None
    }
}

/// Group `k` of a match that may be absent, as a reading.
fn literal_in_first(m: &Option<Vec<Option<String>>>, k: usize) -> (r: Option<Reading>)
    ensures
        reading_view(r) == first_literal(
            match m {
                Some(g) => Some(groups_view(g@)),
                None => None,
            },
            k as int,
        ),
{
    match m {
        Some(g) => literal_in(g, k),
        None => None,
    }
}

/// Group 1 of the last match whose group 1 is a decimal literal.
pub fn last_literal_reading(ms: &Vec<Vec<Option<String>>>) -> (r: Option<Reading>)
    ensures
        reading_view(r) == last_literal(matches_view(ms@)),
{
    let mut i: usize = ms.len();
    assert(matches_view(ms@).subrange(0, i as int) =~= matches_view(ms@));
    while i > 0
        invariant
            i <= ms@.len(),
            last_literal(matches_view(ms@)) == last_literal(matches_view(ms@).subrange(0, i as int)),
        decreases i,
    {
        let ghost pre = matches_view(ms@).subrange(0, i as int);
        assert(pre.drop_last() =~= matches_view(ms@).subrange(0, i - 1));
        assert(pre.last() == groups_view(ms@[i - 1]@));
        let found = literal_in(&ms[i - 1], 1);
        if found.is_some() {
            return found;
        }
        i = i - 1;
    }
    None
}

/// The texts of the groups of a match that may be absent.
pub open spec fn first_view(m: Option<Vec<Option<String>>>) -> Option<Groups> {
    match m {
        Some(g) => Some(groups_view(g@)),
        None => None,
    }
}

/// The loudness range, given the summary match and the running matches.
pub fn lra_from_matches(summary: &Option<Vec<Option<String>>>, running: &Vec<Vec<Option<String>>>) -> (r:
    Option<Reading>)
    ensures
        reading_view(r) == lra_choice(first_view(*summary), matches_view(running@)),
{
    let s = literal_in_first(summary, 1);
    if s.is_some() {
        s
    } else {
        last_literal_reading(running)
    }
}

/// Peak and RMS levels, given the matches of the overall block and of the two
/// bare lines.
pub fn stats_from_matches(
    overall: &Option<Vec<Option<String>>>,
    peak: &Option<Vec<Option<String>>>,
    rms: &Option<Vec<Option<String>>>,
) -> (r: Option<AudioStats>)
    ensures
        match stats_choice(first_view(*overall), first_view(*peak), first_view(*rms)) {
            Some((p, q)) => r matches Some(st) && reading_view(st.peak_db) == p && reading_view(st.rms_db) == q,
            None => r is None,
        },
{
    let peak_db = match literal_in_first(overall, 1) {
        Some(x) => Some(x),
        None => literal_in_first(peak, 1),
    };
    let rms_db = match literal_in_first(overall, 2) {
        Some(x) => Some(x),
        None => literal_in_first(rms, 1),
    };
    if peak_db.is_some() || rms_db.is_some() {
        Some(AudioStats { peak_db, rms_db })
    } else {
        None
    }
}

/// The reading that stands for a band in which nothing could be measured.
pub fn silence_floor() -> (r: Reading)
    ensures
        r@ == SILENCE_FLOOR_DB@,
{
    Reading { text: String::from_str(SILENCE_FLOOR_DB) }
}

/// The RMS level of a high-pass band, given the match of the overall block and
/// the bare RMS matches.
pub fn highpass_from_matches(overall: &Option<Vec<Option<String>>>, running: &Vec<Vec<Option<String>>>) -> (r:
    Reading)
    ensures
        r@ == highpass_choice(first_view(*overall), matches_view(running@)),
{
    match literal_in_first(overall, 1) {
        Some(x) => x,
        None => match last_literal_reading(running) {
            Some(x) => x,
            None => silence_floor(),
        },
    }
}

/// The first characters of a text, as many as an error keeps.
pub open spec fn preview_of(text: Seq<char>) -> Seq<char> {
    text.subrange(0, if text.len() < PREVIEW_CHARS { text.len() as int } else { PREVIEW_CHARS as int })
}

/// The first characters of a text, for an error message.
pub fn preview(text: &str) -> (r: String)
    ensures
        r@ == preview_of(text@),
{
    let n: usize = text.unicode_len();
    let k: usize = if n < PREVIEW_CHARS { n } else { PREVIEW_CHARS };
    String::from_str(text.substring_char(0, k))
}

/// The patterns of every strategy, compiled once and shared read-only.
pub struct OutputPatterns {
    summary_lra: Pattern,
    lra: Pattern,
    astats_overall: Pattern,
    peak: Pattern,
    rms: Pattern,
    highpass_rms: Pattern,
}

impl OutputPatterns {
    /// Each pattern was compiled from its source.
    pub closed spec fn wf(&self) -> bool {
        &&& self.summary_lra.source() == SUMMARY_LRA_PATTERN@
        &&& self.lra.source() == LRA_PATTERN@
        &&& self.astats_overall.source() == ASTATS_OVERALL_PATTERN@
        &&& self.peak.source() == PEAK_PATTERN@
        &&& self.rms.source() == RMS_PATTERN@
        &&& self.highpass_rms.source() == HIGHPASS_RMS_PATTERN@
    }

    /// Every pattern is one that the regex engine accepts.
    pub open spec fn all_compile() -> bool {
        &&& pattern_compiles(SUMMARY_LRA_PATTERN@)
        &&& pattern_compiles(LRA_PATTERN@)
        &&& pattern_compiles(ASTATS_OVERALL_PATTERN@)
        &&& pattern_compiles(PEAK_PATTERN@)
        &&& pattern_compiles(RMS_PATTERN@)
        &&& pattern_compiles(HIGHPASS_RMS_PATTERN@)
    }

    /// Compiles every pattern; none where the regex engine refuses one.
    pub fn new() -> (r: Option<OutputPatterns>)
        ensures
            r is Some <==> OutputPatterns::all_compile(),
            r matches Some(p) ==> p.wf(),
    {
        let summary_lra = compile(SUMMARY_LRA_PATTERN)?;
        let lra = compile(LRA_PATTERN)?;
        let astats_overall = compile(ASTATS_OVERALL_PATTERN)?;
        let peak = compile(PEAK_PATTERN)?;
        let rms = compile(RMS_PATTERN)?;
        let highpass_rms = compile(HIGHPASS_RMS_PATTERN)?;
        Some(OutputPatterns { summary_lra, lra, astats_overall, peak, rms, highpass_rms })
    }

    /// The loudness range in the output of the loudness probe: from its
    /// summary line, else the last running value; a parse error when neither
    /// gives a decimal number.
    pub fn extract_lra(&self, text: &str) -> (r: Result<Reading, AnalyzerError>)
        requires
            self.wf(),
        ensures
            match lra_choice(first_match(SUMMARY_LRA_PATTERN@, text@), every_match(LRA_PATTERN@, text@)) {
                Some(t) => r matches Ok(x) && x@ == t,
                None => r matches Err(AnalyzerError::ParseError { raw_data: Some(d), .. })
                    && d@ == preview_of(text@),
            },
    {
        let summary = captures(&self.summary_lra, text);
        let running = captures_iter(&self.lra, text);
        match lra_from_matches(&summary, &running) {
            Some(x) => Ok(x),
            None => Err(AnalyzerError::ParseError {
                message: String::from_str("无法从EBU R128输出中解析LRA值"),
                raw_data: Some(preview(text)),
            }),
        }
    }

    /// Peak and RMS levels in the output of the statistics probe: each from
    /// the overall block where it is a number there, else from its bare line;
    /// a parse error when that gives neither.
    pub fn extract_audio_stats(&self, text: &str) -> (r: Result<AudioStats, AnalyzerError>)
        requires
            self.wf(),
        ensures
            match stats_choice(
                first_match(ASTATS_OVERALL_PATTERN@, text@),
                first_match(PEAK_PATTERN@, text@),
                first_match(RMS_PATTERN@, text@),
            ) {
                Some((p, q)) => r matches Ok(st) && reading_view(st.peak_db) == p && reading_view(st.rms_db) == q,
                None => r matches Err(AnalyzerError::ParseError { raw_data: Some(d), .. })
                    && d@ == preview_of(text@),
            },
    {
        let overall = captures(&self.astats_overall, text);
        let peak = captures(&self.peak, text);
        let rms = captures(&self.rms, text);
        match stats_from_matches(&overall, &peak, &rms) {
            Some(st) => Ok(st),
            None => Err(AnalyzerError::ParseError {
                message: String::from_str("无法从astats输出中解析峰值/RMS"),
                raw_data: Some(preview(text)),
            }),
        }
    }

    /// The RMS level in the output of a high-pass probe: from the overall
    /// block, else the last bare RMS line, else the silence floor.
    pub fn extract_highpass_rms(&self, text: &str) -> (r: Reading)
        requires
            self.wf(),
        ensures
            r@ == highpass_choice(first_match(HIGHPASS_RMS_PATTERN@, text@), every_match(RMS_PATTERN@, text@)),
    {
        let overall = captures(&self.highpass_rms, text);
        let running = captures_iter(&self.rms, text);
        highpass_from_matches(&overall, &running)
    }
}

/// Without a summary value, the loudness range is the last running value:
/// a later value overrides every earlier one.
pub proof fn law_last_running_value_wins(summary: Option<Groups>, running: Seq<Groups>, t: Seq<char>)
    requires
        first_literal(summary, 1) is None,
        running.len() > 0,
        literal_group(running.last(), 1) == Some(t),
    ensures
        lra_choice(summary, running) == Some(t),
{
}

/// A high-pass probe whose output holds no RMS level at all gives the
/// silence floor, not an absent reading.
pub proof fn law_highpass_without_level_is_silence(text: Seq<char>)
    requires
        first_match(HIGHPASS_RMS_PATTERN@, text) is None,
        every_match(RMS_PATTERN@, text).len() == 0,
    ensures
        highpass_choice(first_match(HIGHPASS_RMS_PATTERN@, text), every_match(RMS_PATTERN@, text))
            == SILENCE_FLOOR_DB@,
{
}

} // verus!

//! The records that the pipeline produces.
use vstd::prelude::*;
use crate::parser::Reading;
pub use crate::config::QualityThresholds;
use crate::utils::fs_utils::{display_name, get_display_name};
use vstd::string::StringExecFns;

verus! {

/// The text of an optional reading.
pub open spec fn reading_view(o: Option<Reading>) -> Option<Seq<char>> {
    match o {
        Some(r) => Some(r@),
        None => None,
    }
}

/// Peak and RMS levels read from one statistics probe.
#[derive(Debug)]
pub struct AudioStats {
    /// Peak level (dB).
    pub peak_db: Option<Reading>,
    /// RMS level (dB).
    pub rms_db: Option<Reading>,
}

impl AudioStats {
    /// Statistics with neither level.
    pub fn new() -> (r: AudioStats)
        ensures
            r.peak_db is None,
            r.rms_db is None,
    {
        AudioStats { peak_db: None, rms_db: None }
    }

    /// Whether at least one level is present.
    pub fn has_data(&self) -> (r: bool)
        ensures
            r == (self.peak_db is Some || self.rms_db is Some),
    {
        self.peak_db.is_some() || self.rms_db.is_some()
    }
}

impl Default for AudioStats {
    fn default() -> (r: AudioStats)
        ensures
            r.peak_db is None,
            r.rms_db is None,
    {
        AudioStats::new()
    }
}

/// A copy of an optional reading.
fn copy_reading(o: &Option<Reading>) -> (r: Option<Reading>)
    ensures
        r == *o,
{
    match o {
        Some(x) => Some(x.clone()),
        None => None,
    }
}

/// The metrics of one analysed file.
///
/// A record is complete when the loudness range, the peak level and the RMS
/// level above 18 kHz are all present; the other readings may be absent.
#[derive(Debug)]
pub struct AudioMetrics {
    /// Path of the file.
    pub file_path: String,
    /// Size of the file in bytes.
    pub file_size_bytes: u64,
    /// Loudness range (LU).
    pub lra: Option<Reading>,
    /// Peak amplitude (dB).
    pub peak_amplitude_db: Option<Reading>,
    /// Overall RMS level (dB).
    pub overall_rms_db: Option<Reading>,
    /// RMS level above 16 kHz (dB).
    pub rms_db_above_16k: Option<Reading>,
    /// RMS level above 18 kHz (dB).
    pub rms_db_above_18k: Option<Reading>,
    /// RMS level above 20 kHz (dB).
    pub rms_db_above_20k: Option<Reading>,
    /// Wall-clock time of the analysis, in milliseconds.
    pub processing_time_ms: u64,
}

/// What a record holds, as plain values.
pub struct MetricsView {
    pub file_path: Seq<char>,
    pub file_size_bytes: u64,
    pub lra: Option<Seq<char>>,
    pub peak_amplitude_db: Option<Seq<char>>,
    pub overall_rms_db: Option<Seq<char>>,
    pub rms_db_above_16k: Option<Seq<char>>,
    pub rms_db_above_18k: Option<Seq<char>>,
    pub rms_db_above_20k: Option<Seq<char>>,
    pub processing_time_ms: u64,
}

impl View for AudioMetrics {
    type V = MetricsView;

    open spec fn view(&self) -> MetricsView {
        MetricsView {
            file_path: self.file_path@,
            file_size_bytes: self.file_size_bytes,
            lra: reading_view(self.lra),
            peak_amplitude_db: reading_view(self.peak_amplitude_db),
            overall_rms_db: reading_view(self.overall_rms_db),
            rms_db_above_16k: reading_view(self.rms_db_above_16k),
            rms_db_above_18k: reading_view(self.rms_db_above_18k),
            rms_db_above_20k: reading_view(self.rms_db_above_20k),
            processing_time_ms: self.processing_time_ms,
        }
    }
}

/// A record is complete when its loudness range, peak level and RMS level
/// above 18 kHz are present.
pub open spec fn is_complete_view(v: MetricsView) -> bool {
    v.lra is Some && v.peak_amplitude_db is Some && v.rms_db_above_18k is Some
}

impl AudioMetrics {
    /// A record for a file of known path and size, with no reading yet.
    pub fn new(file_path: String, file_size_bytes: u64) -> (r: AudioMetrics)
        ensures
            r@ == (MetricsView {
                file_path: file_path@,
                file_size_bytes,
                lra: None,
                peak_amplitude_db: None,
                overall_rms_db: None,
                rms_db_above_16k: None,
                rms_db_above_18k: None,
                rms_db_above_20k: None,
                processing_time_ms: 0,
            }),
    {
        AudioMetrics {
            file_path,
            file_size_bytes,
            lra: None,
            peak_amplitude_db: None,
            overall_rms_db: None,
            rms_db_above_16k: None,
            rms_db_above_18k: None,
            rms_db_above_20k: None,
            processing_time_ms: 0,
        }
    }

    /// Whether the record is complete.
    pub fn is_complete(&self) -> (r: bool)
        ensures
            r == is_complete_view(self@),
    {
        self.lra.is_some() && self.peak_amplitude_db.is_some() && self.rms_db_above_18k.is_some()
    }

    /// The file's name without its directory.
    pub fn filename(&self) -> (r: String)
        ensures
            r@ == display_name(self.file_path@),
    {
        get_display_name(self.file_path.as_str())
    }
}

impl Clone for AudioMetrics {
    fn clone(&self) -> (r: AudioMetrics)
        ensures
            r == *self,
    {
        AudioMetrics {
            file_path: self.file_path.clone(),
            file_size_bytes: self.file_size_bytes,
            lra: copy_reading(&self.lra),
            peak_amplitude_db: copy_reading(&self.peak_amplitude_db),
            overall_rms_db: copy_reading(&self.overall_rms_db),
            rms_db_above_16k: copy_reading(&self.rms_db_above_16k),
            rms_db_above_18k: copy_reading(&self.rms_db_above_18k),
            rms_db_above_20k: copy_reading(&self.rms_db_above_20k),
            processing_time_ms: self.processing_time_ms,
        }
    }
}

impl PartialEq for AudioMetrics {
    fn eq(&self, other: &AudioMetrics) -> (r: bool) {
        self.file_path == other.file_path && self.file_size_bytes == other.file_size_bytes
            && self.lra == other.lra && self.peak_amplitude_db == other.peak_amplitude_db
            && self.overall_rms_db == other.overall_rms_db && self.rms_db_above_16k
            == other.rms_db_above_16k && self.rms_db_above_18k == other.rms_db_above_18k
            && self.rms_db_above_20k == other.rms_db_above_20k && self.processing_time_ms
            == other.processing_time_ms
    }
}

impl vstd::std_specs::cmp::PartialEqSpecImpl for AudioMetrics {
    open spec fn obeys_eq_spec() -> bool {
        true
    }

    open spec fn eq_spec(&self, other: &AudioMetrics) -> bool {
        self@ == other@
    }
}

/// Field name of the file path in the dataset.
pub const FIELD_FILE_PATH: &'static str = "filePath";
/// Field name of the file size.
pub const FIELD_FILE_SIZE: &'static str = "fileSizeBytes";
/// Field name of the loudness range.
pub const FIELD_LRA: &'static str = "lra";
/// Field name of the peak amplitude.
pub const FIELD_PEAK: &'static str = "peakAmplitudeDb";
/// Field name of the overall RMS level.
pub const FIELD_RMS: &'static str = "overallRmsDb";
/// Field name of the RMS level above 16 kHz.
pub const FIELD_RMS_16K: &'static str = "rmsDbAbove16k";
/// Field name of the RMS level above 18 kHz.
pub const FIELD_RMS_18K: &'static str = "rmsDbAbove18k";
/// Field name of the RMS level above 20 kHz.
pub const FIELD_RMS_20K: &'static str = "rmsDbAbove20k";
/// Field name of the processing time.
pub const FIELD_TIME: &'static str = "processingTimeMs";

/// The value of one field of the dataset.
#[derive(Debug)]
pub enum FieldValue {
    /// A string.
    Text(String),
    /// An unsigned integer.
    Count(u64),
    /// A reading, or null when absent.
    Level(Option<Reading>),
}

/// The value of one field, as plain values.
pub enum FieldData {
    Text(Seq<char>),
    Count(u64),
    Level(Option<Seq<char>>),
}

/// One named field of the dataset.
#[derive(Debug)]
pub struct Field {
    pub name: String,
    pub value: FieldValue,
}

/// A field as plain values.
pub open spec fn field_view(f: Field) -> (Seq<char>, FieldData) {
    (
        f.name@,
        match f.value {
            FieldValue::Text(s) => FieldData::Text(s@),
            FieldValue::Count(n) => FieldData::Count(n),
            FieldValue::Level(o) => FieldData::Level(reading_view(o)),
        },
    )
}

/// A list of fields as plain values.
pub open spec fn fields_view(fs: Seq<Field>) -> Seq<(Seq<char>, FieldData)> {
    fs.map_values(|f: Field| field_view(f))
}

/// The fields of a record, in the order of the dataset.
pub open spec fn layout(v: MetricsView) -> Seq<(Seq<char>, FieldData)> {
    seq![
        (FIELD_FILE_PATH@, FieldData::Text(v.file_path)),
        (FIELD_FILE_SIZE@, FieldData::Count(v.file_size_bytes)),
        (FIELD_LRA@, FieldData::Level(v.lra)),
        (FIELD_PEAK@, FieldData::Level(v.peak_amplitude_db)),
        (FIELD_RMS@, FieldData::Level(v.overall_rms_db)),
        (FIELD_RMS_16K@, FieldData::Level(v.rms_db_above_16k)),
        (FIELD_RMS_18K@, FieldData::Level(v.rms_db_above_18k)),
        (FIELD_RMS_20K@, FieldData::Level(v.rms_db_above_20k)),
        (FIELD_TIME@, FieldData::Count(v.processing_time_ms)),
    ]
}

/// The value of the first field called `name`.
pub open spec fn lookup(fs: Seq<(Seq<char>, FieldData)>, name: Seq<char>) -> Option<FieldData>
    decreases fs.len(),
{
    if fs.len() == 0 {
        None
    } else if fs[0].0 == name {
        Some(fs[0].1)
    } else {
        lookup(fs.drop_first(), name)
    }
}

/// The string held by the field called `name`.
pub open spec fn text_field(fs: Seq<(Seq<char>, FieldData)>, name: Seq<char>) -> Option<Seq<char>> {
    match lookup(fs, name) {
        Some(FieldData::Text(s)) => Some(s),
        _ => None,
    }
}

/// The integer held by the field called `name`.
pub open spec fn count_field(fs: Seq<(Seq<char>, FieldData)>, name: Seq<char>) -> Option<u64> {
    match lookup(fs, name) {
        Some(FieldData::Count(n)) => Some(n),
        _ => None,
    }
}

/// The optional reading held by the field called `name`.
pub open spec fn level_field(fs: Seq<(Seq<char>, FieldData)>, name: Seq<char>) -> Option<Option<Seq<char>>> {
    match lookup(fs, name) {
        Some(FieldData::Level(o)) => Some(o),
        _ => None,
    }
}

/// The record that a list of fields describes: each field of the layout must
/// be there, by name, with a value of its kind; other fields are ignored.
pub open spec fn read_layout(fs: Seq<(Seq<char>, FieldData)>) -> Option<MetricsView> {
    if text_field(fs, FIELD_FILE_PATH@) is Some && count_field(fs, FIELD_FILE_SIZE@) is Some
        && level_field(fs, FIELD_LRA@) is Some && level_field(fs, FIELD_PEAK@) is Some
        && level_field(fs, FIELD_RMS@) is Some && level_field(fs, FIELD_RMS_16K@) is Some
        && level_field(fs, FIELD_RMS_18K@) is Some && level_field(fs, FIELD_RMS_20K@) is Some
        && count_field(fs, FIELD_TIME@) is Some {
        Some(
            MetricsView {
                file_path: text_field(fs, FIELD_FILE_PATH@)->0,
                file_size_bytes: count_field(fs, FIELD_FILE_SIZE@)->0,
                lra: level_field(fs, FIELD_LRA@)->0,
                peak_amplitude_db: level_field(fs, FIELD_PEAK@)->0,
                overall_rms_db: level_field(fs, FIELD_RMS@)->0,
                rms_db_above_16k: level_field(fs, FIELD_RMS_16K@)->0,
                rms_db_above_18k: level_field(fs, FIELD_RMS_18K@)->0,
                rms_db_above_20k: level_field(fs, FIELD_RMS_20K@)->0,
                processing_time_ms: count_field(fs, FIELD_TIME@)->0,
            },
        )
    } else {
        None
    }
}

/// Writing a record out as its fields and reading them back gives the same
/// record, absent readings included.
pub proof fn law_layout_round_trip(m: AudioMetrics)
    ensures
        read_layout(layout(m@)) == Some(m@),
{
    reveal_strlit("filePath");
    reveal_strlit("fileSizeBytes");
    reveal_strlit("lra");
    reveal_strlit("peakAmplitudeDb");
    reveal_strlit("overallRmsDb");
    reveal_strlit("rmsDbAbove16k");
    reveal_strlit("rmsDbAbove18k");
    reveal_strlit("rmsDbAbove20k");
    reveal_strlit("processingTimeMs");
    let fs = layout(m@);
    assert(fs.len() == 9);
    let names = seq![
        FIELD_FILE_PATH@, FIELD_FILE_SIZE@, FIELD_LRA@, FIELD_PEAK@, FIELD_RMS@,
        FIELD_RMS_16K@, FIELD_RMS_18K@, FIELD_RMS_20K@, FIELD_TIME@,
    ];
    assert(FIELD_FILE_SIZE@[0] != FIELD_RMS_16K@[0]);
    assert(FIELD_FILE_SIZE@[0] != FIELD_RMS_18K@[0]);
    assert(FIELD_FILE_SIZE@[0] != FIELD_RMS_20K@[0]);
    assert(FIELD_RMS_16K@[11] != FIELD_RMS_18K@[11]);
    assert(FIELD_RMS_16K@[10] != FIELD_RMS_20K@[10]);
    assert(FIELD_RMS_18K@[10] != FIELD_RMS_20K@[10]);
    assert forall|k: int| 0 <= k < 9 implies lookup(fs, #[trigger] names[k]) == Some(fs[k].1) by {
        assert(fs[k].0 == names[k]);
        assert forall|j: int| 0 <= j < k implies fs[j].0 != names[k] by {
            assert(fs[j].0 == names[j]);
            assert(names[j].len() != names[k].len() || names[j] != names[k]);
        }
        lemma_lookup_at(fs, names[k], k);
    }
    assert(lookup(fs, names[0]) == Some(fs[0].1));
    assert(lookup(fs, names[1]) == Some(fs[1].1));
    assert(lookup(fs, names[2]) == Some(fs[2].1));
    assert(lookup(fs, names[3]) == Some(fs[3].1));
    assert(lookup(fs, names[4]) == Some(fs[4].1));
    assert(lookup(fs, names[5]) == Some(fs[5].1));
    assert(lookup(fs, names[6]) == Some(fs[6].1));
    assert(lookup(fs, names[7]) == Some(fs[7].1));
    assert(lookup(fs, names[8]) == Some(fs[8].1));
    assert(read_layout(fs) == Some(m@));
}

/// The first field called `name` decides what `lookup` finds.
proof fn lemma_lookup_at(fs: Seq<(Seq<char>, FieldData)>, name: Seq<char>, k: int)
    requires
        0 <= k < fs.len(),
        fs[k].0 == name,
        forall|j: int| 0 <= j < k ==> fs[j].0 != name,
    ensures
        lookup(fs, name) == Some(fs[k].1),
    decreases k,
{
    if k > 0 {
        assert forall|j: int| 0 <= j < k - 1 implies fs.drop_first()[j].0 != name by {
            assert(fs.drop_first()[j] == fs[j + 1]);
        }
        lemma_lookup_at(fs.drop_first(), name, k - 1);
    }
}

fn named_field(name: &str, value: FieldValue) -> (r: Field)
    ensures
        r.name@ == name@,
        r.value == value,
{
    Field { name: String::from_str(name), value }
}

impl AudioMetrics {
    /// The fields of the record, in the order and under the names of the
    /// dataset; an absent reading is a null level.
    pub fn into_fields(self) -> (r: Vec<Field>)
        ensures
            fields_view(r@) == layout(self@),
    {
        let ghost v = self@;
        let mut out: Vec<Field> = Vec::new();
        out.push(named_field(FIELD_FILE_PATH, FieldValue::Text(self.file_path)));
        out.push(named_field(FIELD_FILE_SIZE, FieldValue::Count(self.file_size_bytes)));
        out.push(named_field(FIELD_LRA, FieldValue::Level(self.lra)));
        out.push(named_field(FIELD_PEAK, FieldValue::Level(self.peak_amplitude_db)));
        out.push(named_field(FIELD_RMS, FieldValue::Level(self.overall_rms_db)));
        out.push(named_field(FIELD_RMS_16K, FieldValue::Level(self.rms_db_above_16k)));
        out.push(named_field(FIELD_RMS_18K, FieldValue::Level(self.rms_db_above_18k)));
        out.push(named_field(FIELD_RMS_20K, FieldValue::Level(self.rms_db_above_20k)));
        out.push(named_field(FIELD_TIME, FieldValue::Count(self.processing_time_ms)));
        assert(fields_view(out@) =~= layout(v));
        out
    }

    /// The record that `fields` describe, when each field of the layout is
    /// there with a value of its kind.
    pub fn from_fields(fields: &Vec<Field>) -> (r: Option<AudioMetrics>)
        ensures
            match read_layout(fields_view(fields@)) {
                Some(v) => r matches Some(m) && m@ == v,
                None => r is None,
            },
    {
        let file_path = text_from(fields, FIELD_FILE_PATH)?;
        let file_size_bytes = count_from(fields, FIELD_FILE_SIZE)?;
        let lra = level_from(fields, FIELD_LRA)?;
        let peak_amplitude_db = level_from(fields, FIELD_PEAK)?;
        let overall_rms_db = level_from(fields, FIELD_RMS)?;
        let rms_db_above_16k = level_from(fields, FIELD_RMS_16K)?;
        let rms_db_above_18k = level_from(fields, FIELD_RMS_18K)?;
        let rms_db_above_20k = level_from(fields, FIELD_RMS_20K)?;
        let processing_time_ms = count_from(fields, FIELD_TIME)?;
        Some(
            AudioMetrics {
                file_path,
                file_size_bytes,
                lra,
                peak_amplitude_db,
                overall_rms_db,
                rms_db_above_16k,
                rms_db_above_18k,
                rms_db_above_20k,
                processing_time_ms,
            },
        )
    }
}

/// Index of the first field called `name`.
fn find_field(fields: &Vec<Field>, name: &str) -> (r: Option<usize>)
    ensures
        match r {
            Some(i) => i < fields@.len() && lookup(fields_view(fields@), name@) == Some(
                fields_view(fields@)[i as int].1,
            ),
            None => lookup(fields_view(fields@), name@) is None,
        },
{
    let key = String::from_str(name);
    let ghost fv = fields_view(fields@);
    let mut i: usize = 0;
    assert(fv.subrange(0, fv.len() as int) =~= fv);
    while i < fields.len()
        invariant
            i <= fields@.len(),
            fv == fields_view(fields@),
            key@ == name@,
            lookup(fv, name@) == lookup(fv.subrange(i as int, fv.len() as int), name@),
        decreases fields@.len() - i,
    {
        let ghost rest = fv.subrange(i as int, fv.len() as int);
        assert(rest[0] == fv[i as int]);
        if fields[i].name == key {
            return Some(i);
        }
        assert(rest.drop_first() =~= fv.subrange(i + 1, fv.len() as int));
        i = i + 1;
    }
    None
}

/// The string of the first field called `name`.
fn text_from(fields: &Vec<Field>, name: &str) -> (r: Option<String>)
    ensures
        match r {
            Some(s) => text_field(fields_view(fields@), name@) == Some(s@),
            None => text_field(fields_view(fields@), name@) is None,
        },
{
    match find_field(fields, name) {
        Some(i) => match &fields[i].value {
            FieldValue::Text(s) => Some(s.clone()),
            _ => None,
        },
        None => None,
    }
}

/// The integer of the first field called `name`.
fn count_from(fields: &Vec<Field>, name: &str) -> (r: Option<u64>)
    ensures
        r == count_field(fields_view(fields@), name@),
{
    match find_field(fields, name) {
        Some(i) => match &fields[i].value {
            FieldValue::Count(n) => Some(*n),
            _ => None,
        },
        None => None,
    }
}

/// The optional reading of the first field called `name`.
fn level_from(fields: &Vec<Field>, name: &str) -> (r: Option<Option<Reading>>)
    ensures
        match r {
            Some(o) => level_field(fields_view(fields@), name@) == Some(reading_view(o)),
            None => level_field(fields_view(fields@), name@) is None,
        },
{
    match find_field(fields, name) {
        Some(i) => match &fields[i].value {
            FieldValue::Level(o) => Some(copy_reading(o)),
            _ => None,
        },
        None => None,
    }
}

/// Where a batch stands.
#[derive(Debug)]
pub struct AnalysisProgress {
    /// Position of the file under way.
    pub current_file: usize,
    /// Number of files in the batch.
    pub total_files: usize,
    /// Path of the file under way.
    pub current_path: String,
    /// Number of files done.
    pub completed_files: usize,
}

impl AnalysisProgress {
    /// The whole percentage of the batch that is done, rounded down; zero
    /// for an empty batch.
    pub fn percent_complete(&self) -> (r: u128)
        ensures
            r == if self.total_files == 0 {
                0
            } else {
                (self.completed_files as nat * 100) / self.total_files as nat
            },
    {
        if self.total_files == 0 {
            0
        } else {
            (self.completed_files as u128 * 100) / self.total_files as u128
        }
    }
}

} // verus!

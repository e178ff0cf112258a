//! Path classification: file names, extensions and the extension allow-list.
use vstd::prelude::*;
use vstd::utf8::encode_utf8;

verus! {

/// The ASCII lower-case form of one byte; other bytes are unchanged.
pub open spec fn ascii_lower(b: u8) -> u8 {
    if 65 <= b && b <= 90 {
        (b + 32) as u8
    } else {
        b
    }
}

/// Two byte strings are equal once ASCII letters are lower-cased.
pub open spec fn eq_ignore_ascii_case(a: Seq<u8>, b: Seq<u8>) -> bool {
    &&& a.len() == b.len()
    &&& forall|i: int| 0 <= i < a.len() ==> ascii_lower(#[trigger] a[i]) == ascii_lower(b[i])
}

/// Index of the last `.` in `b`, or -1 when there is none.
pub open spec fn last_dot(b: Seq<u8>) -> int
    decreases b.len(),
{
    if b.len() == 0 {
        -1
    } else if b.last() == 46 {
        b.len() - 1
    } else {
        last_dot(b.drop_last())
    }
}

/// The extension of a file name: what follows its last `.`, provided that dot
/// is not the first byte of the name.
pub open spec fn extension_of(name: Seq<u8>) -> Option<Seq<u8>> {
    if last_dot(name) > 0 {
        Some(name.subrange(last_dot(name) + 1, name.len() as int))
    } else {
        None
    }
}

/// `ext` matches one of `allowed`, ignoring ASCII case.
pub open spec fn extension_allowed(ext: Seq<u8>, allowed: Seq<Seq<u8>>) -> bool {
    exists|i: int| 0 <= i < allowed.len() && eq_ignore_ascii_case(#[trigger] allowed[i], ext)
}

fn lower_byte(b: u8) -> (r: u8)
    ensures
        r == ascii_lower(b),
{
    if 65 <= b && b <= 90 {
        b + 32
    } else {
        b
    }
}

/// Whether `a[a_start..]` equals `b[b_start..]`, ignoring ASCII case.
pub(crate) fn tail_eq_ignore_ascii_case(a: &[u8], a_start: usize, b: &[u8], b_start: usize) -> (r: bool)
    requires
        a_start <= a@.len(),
        b_start <= b@.len(),
    ensures
        r == eq_ignore_ascii_case(
            a@.subrange(a_start as int, a@.len() as int),
            b@.subrange(b_start as int, b@.len() as int),
        ),
{
    let ghost ta = a@.subrange(a_start as int, a@.len() as int);
    let ghost tb = b@.subrange(b_start as int, b@.len() as int);
    if a.len() - a_start != b.len() - b_start {
        return false;
    }
    let a_len: usize = a.len();
    let b_len: usize = b.len();
    let n: usize = a_len - a_start;
    let mut i: usize = 0;
    while i < n
        invariant
            n == ta.len(),
            n == tb.len(),
            ta == a@.subrange(a_start as int, a@.len() as int),
            tb == b@.subrange(b_start as int, b@.len() as int),
            a_start + n == a_len,
            b_start + n == b_len,
            a_len == a@.len(),
            b_len == b@.len(),
            i <= n,
            forall|j: int| 0 <= j < i ==> ascii_lower(#[trigger] ta[j]) == ascii_lower(tb[j]),
        decreases n - i,
    {
        assert(ta[i as int] == a@[a_start + i]);
        assert(tb[i as int] == b@[b_start + i]);
        if lower_byte(a[a_start + i]) != lower_byte(b[b_start + i]) {
            return false;
        }
        i = i + 1;
    }
    true
}

/// Position of the last `.` in `b`, if any.
fn find_last_dot(b: &[u8]) -> (r: Option<usize>)
    ensures
        match r {
            Some(k) => k as int == last_dot(b@) && k < b@.len() && b@.len() <= usize::MAX,
            None => last_dot(b@) == -1,
        },
{
    let mut i: usize = b.len();
    assert(b@.subrange(0, i as int) =~= b@);
    while i > 0
        invariant
            i <= b@.len(),
            last_dot(b@) == last_dot(b@.subrange(0, i as int)),
        decreases i,
    {
        assert(b@.subrange(0, i as int).drop_last() =~= b@.subrange(0, i - 1));
        if b[i - 1] == 46 {
            return Some(i - 1);
        }
        i = i - 1;
    }
    None
}

/// The UTF-8 bytes of a text.
pub open spec fn bytes_of(s: Seq<char>) -> Seq<u8> {
    encode_utf8(s)
}

/// The UTF-8 bytes of each entry of an allow-list.
pub open spec fn allow_list(supported: Seq<String>) -> Seq<Seq<u8>> {
    supported.map_values(|s: String| bytes_of(s@))
}

/// Whether `ext` is in `supported`, ignoring ASCII case.
fn extension_in_bytes(ext: &[u8], ext_start: usize, supported: &[String]) -> (r: bool)
    requires
        ext_start <= ext@.len(),
    ensures
        r == extension_allowed(ext@.subrange(ext_start as int, ext@.len() as int), allow_list(supported@)),
{
    let ghost tail = ext@.subrange(ext_start as int, ext@.len() as int);
    let mut i: usize = 0;
    while i < supported.len()
        invariant
            i <= supported@.len(),
            tail == ext@.subrange(ext_start as int, ext@.len() as int),
            ext_start <= ext@.len(),
            forall|j: int| 0 <= j < i ==> !eq_ignore_ascii_case(#[trigger] allow_list(supported@)[j], tail),
        decreases supported@.len() - i,
    {
        let cand: &[u8] = supported[i].as_str().as_bytes();
        if tail_eq_ignore_ascii_case(cand, 0, ext, ext_start) {
            assert(cand@.subrange(0, cand@.len() as int) =~= cand@);
            assert(eq_ignore_ascii_case(allow_list(supported@)[i as int], tail));
            return true;
        }
        assert(cand@.subrange(0, cand@.len() as int) =~= cand@);
        i = i + 1;
    }
    false
}

/// Whether `ext` is in `supported`, ignoring ASCII case.
pub fn is_supported_extension_in(ext: &str, supported: &[String]) -> (r: bool)
    ensures
        r == extension_allowed(bytes_of(ext@), allow_list(supported@)),
{
    let b = ext.as_bytes();
    let r = extension_in_bytes(b, 0, supported);
    assert(b@.subrange(0, b@.len() as int) =~= b@);
    r
}

/// The final component of a path, as std's `Path::file_name` gives it.
pub uninterp spec fn file_name_of(path: Seq<char>) -> Option<Seq<char>>;

/// Relies on std's `Path::file_name`: the final component of the path, if there is one.
#[verifier::external_body]
fn path_file_name(path: &str) -> (r: Option<String>)
    ensures
        match r {
            Some(n) => file_name_of(path@) == Some(n@),
            None => file_name_of(path@) is None,
        },
{
    std::path::Path::new(path).file_name().and_then(|n| n.to_str()).map(|n| n.to_string())
}

/// Whether a path names a file whose extension is on the allow-list.
pub open spec fn is_supported_path(path: Seq<char>, allowed: Seq<Seq<u8>>) -> bool {
    match file_name_of(path) {
        Some(name) => is_supported_name(name, allowed),
        None => false,
    }
}

/// Whether a file name has an extension on the allow-list.
pub open spec fn is_supported_name(name: Seq<char>, allowed: Seq<Seq<u8>>) -> bool {
    match extension_of(bytes_of(name)) {
        Some(ext) => extension_allowed(ext, allowed),
        None => false,
    }
}

/// Whether the file name `name` has an extension that matches one of
/// `supported_extensions`, ignoring ASCII case. A name without an extension
/// (no `.`, or only a leading one) is never supported.
pub fn is_supported_file_name(name: &str, supported_extensions: &[String]) -> (r: bool)
    ensures
        r == is_supported_name(name@, allow_list(supported_extensions@)),
{
    let b: &[u8] = name.as_bytes();
    match find_last_dot(b) {
        Some(k) => {
            if k > 0 {
                extension_in_bytes(b, k + 1, supported_extensions)
            } else {
                false
            }
        },
        None => false,
    }
}

/// Whether `path` has an extension that matches one of `supported_extensions`,
/// ignoring ASCII case. A path without an extension is never supported.
pub fn is_supported_audio_file(path: &str, supported_extensions: &[String]) -> (r: bool)
    ensures
        r == is_supported_path(path@, allow_list(supported_extensions@)),
{
    match path_file_name(path) {
        Some(name) => is_supported_file_name(name.as_str(), supported_extensions),
        None => false,
    }
}

/// The name shown for a path that has no final component.
pub const UNKNOWN_FILE_NAME: &'static str = "未知文件";

/// The display name of a path: its final component, or the placeholder name.
pub open spec fn display_name(path: Seq<char>) -> Seq<char> {
    match file_name_of(path) {
        Some(n) => n,
        None => UNKNOWN_FILE_NAME@,
    }
}

/// The final component of `path`, or the placeholder name when it has none.
pub fn get_display_name(path: &str) -> (r: String)
    ensures
        r@ == display_name(path@),
{
    match path_file_name(path) {
        Some(n) => n,
        None => String::from_str(UNKNOWN_FILE_NAME),
    }
}

/// One entry met while walking a directory tree.
pub struct ScanEntry {
    pub path: String,
    pub is_file: bool,
}

/// The paths that a scan keeps out of `entries`, in order: the regular files
/// whose extension is on the allow-list.
pub open spec fn selected_paths(entries: Seq<ScanEntry>, allowed: Seq<Seq<u8>>) -> Seq<Seq<char>>
    decreases entries.len(),
{
    if entries.len() == 0 {
        Seq::empty()
    } else {
        let prev = selected_paths(entries.drop_last(), allowed);
        let e = entries.last();
        if e.is_file && is_supported_path(e.path@, allowed) {
            prev.push(e.path@)
        } else {
            prev
        }
    }
}

/// The texts of a list of strings.
pub open spec fn texts(v: Seq<String>) -> Seq<Seq<char>> {
    v.map_values(|s: String| s@)
}

/// Keeps, in order, the regular files among `entries` whose extension is
/// supported.
pub fn select_audio_files(entries: &[ScanEntry], supported_extensions: &[String]) -> (r: Vec<String>)
    ensures
        texts(r@) == selected_paths(entries@, allow_list(supported_extensions@)),
{
    let mut out: Vec<String> = Vec::new();
    let mut i: usize = 0;
    while i < entries.len()
        invariant
            i <= entries@.len(),
            texts(out@) == selected_paths(entries@.subrange(0, i as int), allow_list(supported_extensions@)),
        decreases entries@.len() - i,
    {
        assert(entries@.subrange(0, i + 1).drop_last() =~= entries@.subrange(0, i as int));
        let e = &entries[i];
        if e.is_file && is_supported_audio_file(e.path.as_str(), supported_extensions) {
            out.push(e.path.clone());
            assert(texts(out@) =~= selected_paths(entries@.subrange(0, i as int), allow_list(supported_extensions@)).push(e.path@));
        }
        i = i + 1;
    }
    assert(entries@.subrange(0, entries@.len() as int) =~= entries@);
    out
}

/// A path whose file name has no extension is never supported, whatever the
/// allow-list.
pub proof fn law_no_extension_never_supported(path: Seq<char>, allowed: Seq<Seq<u8>>)
    requires
        match file_name_of(path) {
            Some(n) => extension_of(bytes_of(n)) is None,
            None => true,
        },
    ensures
        !is_supported_path(path, allowed),
{
}

/// Whether an extension is supported does not depend on the case of its
/// ASCII letters.
pub proof fn law_extension_case_insensitive(e1: Seq<u8>, e2: Seq<u8>, allowed: Seq<Seq<u8>>)
    requires
        eq_ignore_ascii_case(e1, e2),
    ensures
        extension_allowed(e1, allowed) == extension_allowed(e2, allowed),
{
    if extension_allowed(e1, allowed) {
        let i = choose|i: int| 0 <= i < allowed.len() && eq_ignore_ascii_case(#[trigger] allowed[i], e1);
        assert forall|j: int| 0 <= j < allowed[i].len() implies ascii_lower(#[trigger] allowed[i][j])
            == ascii_lower(e2[j]) by {
            assert(ascii_lower(allowed[i][j]) == ascii_lower(e1[j]));
            assert(ascii_lower(e1[j]) == ascii_lower(e2[j]));
        }
        assert(eq_ignore_ascii_case(allowed[i], e2));
    }
    if extension_allowed(e2, allowed) {
        let i = choose|i: int| 0 <= i < allowed.len() && eq_ignore_ascii_case(#[trigger] allowed[i], e2);
        assert forall|j: int| 0 <= j < allowed[i].len() implies ascii_lower(#[trigger] allowed[i][j])
            == ascii_lower(e1[j]) by {
            assert(ascii_lower(allowed[i][j]) == ascii_lower(e2[j]));
            assert(ascii_lower(e1[j]) == ascii_lower(e2[j]));
        }
        assert(eq_ignore_ascii_case(allowed[i], e1));
    }
}

/// A scan of no entries keeps no path.
pub proof fn law_empty_scan(allowed: Seq<Seq<u8>>)
    ensures
        selected_paths(Seq::<ScanEntry>::empty(), allowed) == Seq::<Seq<char>>::empty(),
{
}

/// A scan keeps only regular files with a supported extension, and never
/// more paths than it met.
pub proof fn law_scan_keeps_supported_files(entries: Seq<ScanEntry>, allowed: Seq<Seq<u8>>)
    ensures
        selected_paths(entries, allowed).len() <= entries.len(),
        forall|k: int|
            0 <= k < selected_paths(entries, allowed).len() ==> exists|j: int|
                0 <= j < entries.len() && entries[j].is_file && is_supported_path(entries[j].path@, allowed)
                    && #[trigger] selected_paths(entries, allowed)[k] == entries[j].path@,
    decreases entries.len(),
{
    if entries.len() > 0 {
        let prev = entries.drop_last();
        law_scan_keeps_supported_files(prev, allowed);
        let sel = selected_paths(entries, allowed);
        let psel = selected_paths(prev, allowed);
        assert forall|k: int| 0 <= k < sel.len() implies exists|j: int|
            0 <= j < entries.len() && entries[j].is_file && is_supported_path(entries[j].path@, allowed)
                && #[trigger] sel[k] == entries[j].path@ by {
            if k < psel.len() {
                assert(sel[k] == psel[k]);
                let j = choose|j: int|
                    0 <= j < prev.len() && prev[j].is_file && is_supported_path(prev[j].path@, allowed)
                        && #[trigger] psel[k] == prev[j].path@;
                assert(prev[j] == entries[j]);
            } else {
                assert(sel[k] == entries.last().path@);
                assert(entries[entries.len() - 1] == entries.last());
            }
        }
    }
}

/// In a directory holding a `.wav` file, a `.txt` file and a subdirectory
/// with another `.wav` file, a scan with `wav` allowed keeps exactly the two
/// `.wav` paths. The file names are those that `Path::file_name` gives.
pub proof fn law_scan_keeps_the_two_wav_files(
    dir: ScanEntry,
    wav: ScanEntry,
    txt: ScanEntry,
    sub: ScanEntry,
    nested_wav: ScanEntry,
    wav_name: Seq<char>,
    txt_name: Seq<char>,
    nested_name: Seq<char>,
)
    requires
        !dir.is_file,
        !sub.is_file,
        wav.is_file,
        txt.is_file,
        nested_wav.is_file,
        file_name_of(wav.path@) == Some(wav_name),
        file_name_of(txt.path@) == Some(txt_name),
        file_name_of(nested_wav.path@) == Some(nested_name),
        extension_of(bytes_of(wav_name)) == Some(seq![119u8, 97u8, 118u8]),
        extension_of(bytes_of(txt_name)) == Some(seq![116u8, 120u8, 116u8]),
        extension_of(bytes_of(nested_name)) == Some(seq![119u8, 97u8, 118u8]),
    ensures
        selected_paths(seq![dir, wav, txt, sub, nested_wav], seq![seq![119u8, 97u8, 118u8]]) == seq![
            wav.path@,
            nested_wav.path@,
        ],
{
    let allowed = seq![seq![119u8, 97u8, 118u8]];
    let w = seq![119u8, 97u8, 118u8];
    let t = seq![116u8, 120u8, 116u8];
    assert(eq_ignore_ascii_case(allowed[0], w));
    assert(extension_allowed(w, allowed));
    assert(!eq_ignore_ascii_case(allowed[0], t)) by {
        assert(ascii_lower(allowed[0][0]) != ascii_lower(t[0]));
    }
    assert(!extension_allowed(t, allowed));
    let es = seq![dir, wav, txt, sub, nested_wav];
    assert(es.drop_last() =~= seq![dir, wav, txt, sub]);
    assert(es.drop_last().drop_last() =~= seq![dir, wav, txt]);
    assert(es.drop_last().drop_last().drop_last() =~= seq![dir, wav]);
    assert(es.drop_last().drop_last().drop_last().drop_last() =~= seq![dir]);
    assert(seq![dir].drop_last() =~= Seq::<ScanEntry>::empty());
    assert(seq![dir].last() == dir);
    assert(seq![dir, wav].last() == wav);
    assert(seq![dir, wav].drop_last() =~= seq![dir]);
    assert(seq![dir, wav, txt].last() == txt);
    assert(seq![dir, wav, txt].drop_last() =~= seq![dir, wav]);
    assert(seq![dir, wav, txt, sub].last() == sub);
    assert(seq![dir, wav, txt, sub].drop_last() =~= seq![dir, wav, txt]);
    assert(es.last() == nested_wav);
    assert(selected_paths(Seq::<ScanEntry>::empty(), allowed) =~= Seq::<Seq<char>>::empty());
    assert(selected_paths(seq![dir], allowed) =~= Seq::<Seq<char>>::empty());
    assert(selected_paths(seq![dir, wav], allowed) =~= seq![wav.path@]);
    assert(selected_paths(seq![dir, wav, txt], allowed) =~= seq![wav.path@]);
    assert(selected_paths(seq![dir, wav, txt, sub], allowed) =~= seq![wav.path@]);
    assert(selected_paths(es, allowed) =~= seq![wav.path@, nested_wav.path@]);
}

} // verus!

//! Text helpers: decimal rendering, truncation, sizes and durations.
use vstd::prelude::*;
use vstd::string::StringExecFns;
use vstd::utf8::{decode_utf8, encode_utf8, encode_utf8_decode_utf8, is_char_boundary};

verus! {

/// `s` begins with `p`.
pub open spec fn starts_with(s: Seq<char>, p: Seq<char>) -> bool {
    s.len() >= p.len() && s.subrange(0, p.len() as int) == p
}

/// The character of a decimal digit.
pub open spec fn digit_char(d: nat) -> char {
    if d == 0 {
        '0'
    } else if d == 1 {
        '1'
    } else if d == 2 {
        '2'
    } else if d == 3 {
        '3'
    } else if d == 4 {
        '4'
    } else if d == 5 {
        '5'
    } else if d == 6 {
        '6'
    } else if d == 7 {
        '7'
    } else if d == 8 {
        '8'
    } else {
        '9'
    }
}

/// The decimal digits of `n`, without leading zeros.
pub open spec fn decimal(n: nat) -> Seq<char>
    decreases n,
{
    if n < 10 {
        seq![digit_char(n)]
    } else {
        decimal(n / 10) + seq![digit_char(n % 10)]
    }
}

fn digit_text(d: u64) -> (r: &'static str)
    requires
        d < 10,
    ensures
        r@ == seq![digit_char(d as nat)],
{
    proof {
        reveal_strlit("0");
        reveal_strlit("1");
        reveal_strlit("2");
        reveal_strlit("3");
        reveal_strlit("4");
        reveal_strlit("5");
        reveal_strlit("6");
        reveal_strlit("7");
        reveal_strlit("8");
        reveal_strlit("9");
    }
    let r = if d == 0 {
        "0"
    } else if d == 1 {
        "1"
    } else if d == 2 {
        "2"
    } else if d == 3 {
        "3"
    } else if d == 4 {
        "4"
    } else if d == 5 {
        "5"
    } else if d == 6 {
        "6"
    } else if d == 7 {
        "7"
    } else if d == 8 {
        "8"
    } else {
        "9"
    };
    assert(r@ =~= seq![digit_char(d as nat)]);
    r
}

/// `n` written in decimal.
pub fn decimal_text(n: u64) -> (r: String)
    ensures
        r@ == decimal(n as nat),
    decreases n,
{
    if n < 10 {
        String::from_str(digit_text(n))
    } else {
        decimal_text(n / 10).concat(digit_text(n % 10))
    }
}

/// Where a truncated text is cut, in bytes: three bytes are left for the
/// ellipsis.
pub open spec fn cut_point(max_len: usize) -> int {
    if max_len >= 3 {
        max_len - 3
    } else {
        0
    }
}

/// `s` cut to at most `max_len` bytes: unchanged when it fits, else its
/// first `max_len - 3` bytes followed by `...`.
pub open spec fn truncated(s: Seq<char>, max_len: usize) -> Seq<char> {
    if encode_utf8(s).len() <= max_len {
        s
    } else {
        decode_utf8(encode_utf8(s).subrange(0, cut_point(max_len))) + "..."@
    }
}

/// Cuts `s` to at most `max_len` bytes, marking a cut with `...`. The cut
/// must fall between two characters.
pub fn truncate_string(s: &str, max_len: usize) -> (r: String)
    requires
        encode_utf8(s@).len() <= max_len || is_char_boundary(encode_utf8(s@), cut_point(max_len)),
    ensures
        r@ == truncated(s@, max_len),
{
    let n: usize = s.as_bytes().len();
    if n <= max_len {
        String::from_str(s)
    } else {
        let k: usize = if max_len >= 3 { max_len - 3 } else { 0 };
        let (head, _tail) = s.split_at(k);
        proof {
            encode_utf8_decode_utf8(head@);
        }
        String::from_str(head).concat("...")
    }
}

/// `1024` to the power `k`.
pub open spec fn pow1024(k: nat) -> nat
    decreases k,
{
    if k == 0 {
        1
    } else {
        1024 * pow1024((k - 1) as nat)
    }
}

/// The unit in which a size is shown: the largest power of 1024, up to the
/// fourth, that does not exceed it.
pub open spec fn size_unit(bytes: nat) -> nat {
    if bytes >= pow1024(4) {
        4
    } else if bytes >= pow1024(3) {
        3
    } else if bytes >= pow1024(2) {
        2
    } else if bytes >= pow1024(1) {
        1
    } else {
        0
    }
}

/// The name of a unit.
pub open spec fn unit_name(k: nat) -> Seq<char> {
    if k == 0 {
        "B"@
    } else if k == 1 {
        "KB"@
    } else if k == 2 {
        "MB"@
    } else if k == 3 {
        "GB"@
    } else {
        "TB"@
    }
}

/// `bytes` in tenths of unit `k`, rounded to nearest, ties to even.
pub open spec fn tenths(bytes: nat, k: nat) -> nat {
    let d = pow1024(k);
    let q = bytes * 10 / d;
    let rem = bytes * 10 % d;
    if 2 * rem > d || (2 * rem == d && q % 2 == 1) {
        q + 1
    } else {
        q
    }
}

/// A size for people: whole bytes under 1 KB, else one decimal place in the
/// largest unit up to TB.
pub open spec fn file_size_text(bytes: u64) -> Seq<char> {
    let k = size_unit(bytes as nat);
    if bytes == 0 {
        "0 B"@
    } else if k == 0 {
        decimal(bytes as nat) + " B"@
    } else {
        let t = tenths(bytes as nat, k);
        decimal(t / 10) + "."@ + decimal(t % 10) + " "@ + unit_name(k)
    }
}

fn unit_text(k: u64) -> (r: &'static str)
    requires
        1 <= k <= 4,
    ensures
        r@ == unit_name(k as nat),
{
    if k == 1 {
        "KB"
    } else if k == 2 {
        "MB"
    } else if k == 3 {
        "GB"
    } else {
        "TB"
    }
}

/// Formats a size in bytes for people: `0 B`, `512 B`, `1.5 KB`, `1.0 MB`.
pub fn format_file_size(bytes: u64) -> (r: String)
    ensures
        r@ == file_size_text(bytes),
{
    if bytes == 0 {
        return String::from_str("0 B");
    }
    proof {
        reveal_with_fuel(pow1024, 5);
    }
    assert(pow1024(4) == 1099511627776);
    let (k, d): (u64, u128) = if bytes >= 1099511627776 {
        (4, 1099511627776)
    } else if bytes >= 1073741824 {
        (3, 1073741824)
    } else if bytes >= 1048576 {
        (2, 1048576)
    } else if bytes >= 1024 {
        (1, 1024)
    } else {
        (0, 1)
    };
    if k == 0 {
        return decimal_text(bytes).concat(" B");
    }
    let num: u128 = bytes as u128 * 10;
    let q: u128 = num / d;
    let rem: u128 = num % d;
    let t: u128 = if 2 * rem > d || (2 * rem == d && q % 2 == 1) {
        q + 1
    } else {
        q
    };
    assert(t == tenths(bytes as nat, k as nat));
    assert(t <= num);
    let t64: u64 = t as u64;
    decimal_text(t64 / 10).concat(".").concat(decimal_text(t64 % 10).as_str()).concat(" ").concat(unit_text(k))
}

/// `n` in at least three digits, padded with leading zeros.
pub open spec fn padded3(n: nat) -> Seq<char> {
    if n < 10 {
        "00"@ + decimal(n)
    } else if n < 100 {
        "0"@ + decimal(n)
    } else {
        decimal(n)
    }
}

/// A duration for people: hours, minutes and seconds from an hour on;
/// minutes and seconds from a minute on; seconds with milliseconds from a
/// second on; milliseconds below.
pub open spec fn duration_text(total_seconds: u64, millis: u32) -> Seq<char> {
    let hours = total_seconds / 3600;
    let minutes = (total_seconds % 3600) / 60;
    let seconds = total_seconds % 60;
    if hours > 0 {
        decimal(hours as nat) + "h "@ + decimal(minutes as nat) + "m "@ + decimal(seconds as nat) + "s"@
    } else if minutes > 0 {
        decimal(minutes as nat) + "m "@ + decimal(seconds as nat) + "s"@
    } else if seconds > 0 {
        decimal(seconds as nat) + "."@ + padded3(millis as nat) + "s"@
    } else {
        decimal(millis as nat) + "ms"@
    }
}

/// Formats a duration given as whole seconds and the milliseconds of the
/// second under way.
pub fn format_duration_parts(total_seconds: u64, millis: u32) -> (r: String)
    ensures
        r@ == duration_text(total_seconds, millis),
{
    let hours = total_seconds / 3600;
    let minutes = (total_seconds % 3600) / 60;
    let seconds = total_seconds % 60;
    if hours > 0 {
        decimal_text(hours).concat("h ").concat(decimal_text(minutes).as_str()).concat("m ").concat(
            decimal_text(seconds).as_str(),
        ).concat("s")
    } else if minutes > 0 {
        decimal_text(minutes).concat("m ").concat(decimal_text(seconds).as_str()).concat("s")
    } else if seconds > 0 {
        let ms = millis as u64;
        let pad: &str = if ms < 10 {
            "00"
        } else if ms < 100 {
            "0"
        } else {
            ""
        };
        let frac = String::from_str(pad).concat(decimal_text(ms).as_str());
        assert(ms >= 100 ==> frac@ =~= padded3(millis as nat)) by {
            reveal_strlit("");
        }
        decimal_text(seconds).concat(".").concat(frac.as_str()).concat("s")
    } else {
        decimal_text(millis as u64).concat("ms")
    }
}

/// Relies on std's `Duration::as_secs`: the whole seconds of a duration.
pub assume_specification[ core::time::Duration::as_secs ](d: &core::time::Duration) -> u64;

/// Relies on std's `Duration::subsec_millis`, whose documentation says the
/// result is the fractional part of a second, so less than one thousand.
pub assume_specification[ core::time::Duration::subsec_millis ](d: &core::time::Duration) -> (r: u32)
    ensures
        r < 1000,
;

/// Formats a duration for people: `500ms`, `1.500s`, `1m 30s`, `1h 1m 1s`.
pub fn format_duration(duration: core::time::Duration) -> (r: String)
    ensures
        exists|s: u64, m: u32| m < 1000 && r@ == duration_text(s, m),
{
    let m = duration.subsec_millis();
    let r = format_duration_parts(duration.as_secs(), m);
    r
}

} // verus!

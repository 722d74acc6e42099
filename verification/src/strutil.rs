//! Small verified string utilities: decimal rendering and parsing of `u64`
//! values and character-exact string comparison, used when building report
//! URLs, acknowledgement strings and when reading query parameters.

use vstd::prelude::*;
use vstd::string::*;

verus! {

/// The character for one decimal digit value.
pub open spec fn spec_digit_char(d: int) -> char
    recommends
        0 <= d <= 9,
{
    ((48 + d) as u8) as char
}

/// The decimal rendering of a non-negative integer, most significant digit
/// first, with no leading zeros (`0` renders as `"0"`).
pub open spec fn spec_u64_digits(n: int) -> Seq<char>
    recommends
        n >= 0,
    decreases n,
{
    if n < 10 {
        seq![spec_digit_char(n)]
    } else {
        spec_u64_digits(n / 10).push(spec_digit_char(n % 10))
    }
}

fn digit_str(d: u64) -> (r: &'static str)
    requires
        d < 10,
    ensures
        r@ == seq![spec_digit_char(d as int)],
{
    proof {
        reveal_strlit("0");
        reveal_strlit("1");
        reveal_strlit("2");
        reveal_strlit("3");
        reveal_strlit("4");
        reveal_strlit("5");
        reveal_strlit("6");
        reveal_strlit("7");
        reveal_strlit("8");
        reveal_strlit("9");
    }
    let r: &'static str = match d {
        0 => "0",
        1 => "1",
        2 => "2",
        3 => "3",
        4 => "4",
        5 => "5",
        6 => "6",
        7 => "7",
        8 => "8",
        _ => "9",
    };
    proof {
        assert(r@ =~= seq![spec_digit_char(d as int)]);
    }
    r
}

/// Renders `n` in decimal, exactly as `spec_u64_digits` describes.
pub fn u64_to_string(n: u64) -> (r: String)
    ensures
        r@ == spec_u64_digits(n as int),
    decreases n,
{
    if n < 10 {
        digit_str(n).to_owned()
    } else {
        let mut r = u64_to_string(n / 10);
        r.append(digit_str(n % 10));
        r
    }
}

/// A clone of an optional string, equal to what it was cloned from.
pub fn clone_opt_string(o: &Option<String>) -> (r: Option<String>)
    ensures
        r == o,
{
    match o {
        None => None,
        Some(s) => Some(s.clone()),
    }
}

/// Character-exact equality of two string slices.
pub fn str_eq(a: &str, b: &str) -> (r: bool)
    ensures
        r <==> a@ == b@,
{
    let alen = a.unicode_len();
    let blen = b.unicode_len();
    if alen != blen {
        return false;
    }
    let mut i: usize = 0;
    while i < alen
        invariant
            0 <= i <= alen,
            alen == a@.len(),
            alen == b@.len(),
            forall|j: int| 0 <= j < i ==> a@[j] == b@[j],
        decreases alen - i,
    {
        if a.get_char(i) != b.get_char(i) {
            return false;
        }
        i = i + 1;
    }
    proof {
        assert(a@ =~= b@);
    }
    true
}

pub open spec fn spec_is_digit(c: char) -> bool {
    48 <= c as int <= 57
}

pub open spec fn spec_digit_val(c: char) -> int {
    c as int - 48
}

/// The value of a digit string, most significant digit first.
pub open spec fn spec_digits_val(s: Seq<char>) -> int
    decreases s.len(),
{
    if s.len() == 0 {
        0
    } else {
        spec_digits_val(s.drop_last()) * 10 + spec_digit_val(s.last())
    }
}

pub open spec fn spec_all_digits(s: Seq<char>) -> bool {
    s.len() > 0 && forall|i: int| 0 <= i < s.len() ==> spec_is_digit(s[i])
}

/// The digit part of a decimal string: an optional leading `'+'` is dropped,
/// as `u64::from_str` does.
pub open spec fn spec_decimal_body(s: Seq<char>) -> Seq<char> {
    if s.len() > 0 && s[0] == '+' {
        s.skip(1)
    } else {
        s
    }
}

/// Whether a string is accepted by `u64` decimal parsing: an optional `'+'`,
/// then at least one digit, with a value that fits in a `u64`.
pub open spec fn spec_u64_accepts(s: Seq<char>) -> bool {
    spec_all_digits(spec_decimal_body(s)) && spec_digits_val(spec_decimal_body(s)) <= u64::MAX
}

proof fn lemma_digits_val_nonneg(s: Seq<char>)
    requires
        forall|i: int| 0 <= i < s.len() ==> spec_is_digit(s[i]),
    ensures
        spec_digits_val(s) >= 0,
    decreases s.len(),
{
    if s.len() > 0 {
        lemma_digits_val_nonneg(s.drop_last());
    }
}

/// Parses `s` as a decimal `u64`, as `str::parse::<u64>` would: `Some`
/// exactly on the strings `spec_u64_accepts` admits, and then the digits'
/// value.
pub fn parse_u64(s: &str) -> (r: Option<u64>)
    ensures
        r matches Some(v) <==> spec_u64_accepts(s@),
        r matches Some(v) ==> v == spec_digits_val(spec_decimal_body(s@)),
{
    let len = s.unicode_len();
    let start: usize = if len > 0 && s.get_char(0) == '+' {
        1
    } else {
        0
    };
    let ghost body = spec_decimal_body(s@);
    proof {
        assert(body =~= s@.subrange(start as int, len as int));
    }
    if len == start {
        return None;
    }
    let mut i: usize = start;
    let mut v: u64 = 0;
    while i < len
        invariant
            start <= i <= len,
            len == s@.len(),
            start < len,
            body == spec_decimal_body(s@),
            body == s@.subrange(start as int, len as int),
            forall|j: int| start <= j < i ==> spec_is_digit(s@[j]),
            v == spec_digits_val(s@.subrange(start as int, i as int)),
            spec_digits_val(s@.subrange(start as int, i as int)) <= u64::MAX,
        decreases len - i,
    {
        let c = s.get_char(i);
        let cu: u32 = c as u32;
        if !(48 <= cu && cu <= 57) {
            proof {
                assert(body[i - start] == s@[i as int]);
                assert(!spec_is_digit(body[i - start]));
            }
            return None;
        }
        let d: u64 = (cu - 48) as u64;
        let ghost prefix = s@.subrange(start as int, i as int);
        let ghost extended = s@.subrange(start as int, i + 1 as int);
        proof {
            assert(extended.drop_last() =~= prefix);
            assert(extended.last() == s@[i as int]);
            assert(spec_digits_val(extended) == v * 10 + d);
        }
        if v > (u64::MAX - d) / 10 {
            proof {
                assert(v * 10 + d > u64::MAX) by (nonlinear_arith)
                    requires
                        v > (u64::MAX - d) / 10,
                        0 <= d <= 9,
                ;
                if spec_all_digits(body) {
                    lemma_value_grows(body, i + 1 - start);
                    assert(extended =~= body.take(i + 1 - start));
                    assert(spec_digits_val(body) > u64::MAX);
                }
            }
            return None;
        }
        proof {
            assert(v * 10 + d <= u64::MAX) by (nonlinear_arith)
                requires
                    v <= (u64::MAX - d) / 10,
                    0 <= d <= 9,
            ;
        }
        v = v * 10 + d;
        i = i + 1;
    }
    proof {
        assert(s@.subrange(start as int, len as int) =~= body);
    }
    Some(v)
}

/// The digit part of a signed decimal string: one leading `'-'` or `'+'` is
/// dropped, as `i16::from_str` does.
pub open spec fn spec_signed_body(s: Seq<char>) -> Seq<char> {
    if s.len() > 0 && (s[0] == '-' || s[0] == '+') {
        s.skip(1)
    } else {
        s
    }
}

/// Whether a string is accepted by `i16` decimal parsing: an optional sign,
/// then at least one digit, with a value in `i16`'s range.
pub open spec fn spec_i16_accepts(s: Seq<char>) -> bool {
    spec_all_digits(spec_signed_body(s)) && (if s.len() > 0 && s[0] == '-' {
        spec_digits_val(spec_signed_body(s)) <= 32768
    } else {
        spec_digits_val(spec_signed_body(s)) <= 32767
    })
}

/// The value of an accepted signed decimal string.
pub open spec fn spec_i16_value(s: Seq<char>) -> int {
    if s.len() > 0 && s[0] == '-' {
        -spec_digits_val(spec_signed_body(s))
    } else {
        spec_digits_val(spec_signed_body(s))
    }
}

/// Parses `s` as a decimal `i16`, as `str::parse::<i16>` would: `Some`
/// exactly on the strings `spec_i16_accepts` admits, and then their value.
pub fn parse_i16(s: &str) -> (r: Option<i16>)
    ensures
        r matches Some(v) <==> spec_i16_accepts(s@),
        r matches Some(v) ==> v as int == spec_i16_value(s@),
{
    let len = s.unicode_len();
    if len == 0 {
        return None;
    }
    let c0 = s.get_char(0);
    let neg = c0 == '-';
    let start: usize = if c0 == '-' || c0 == '+' {
        1
    } else {
        0
    };
    let body = s.substring_char(start, len);
    proof {
        assert(body@ =~= spec_signed_body(s@));
    }
    if body.unicode_len() == 0 {
        return None;
    }
    let b0 = body.get_char(0);
    if !('0' <= b0 && b0 <= '9') {
        proof {
            assert(!spec_is_digit(spec_signed_body(s@)[0]));
        }
        return None;
    }
    proof {
        assert(spec_decimal_body(body@) =~= body@);
    }
    match parse_u64(body) {
        None => {
            proof {
                if spec_all_digits(body@) {
                    lemma_digits_val_nonneg(body@);
                }
            }
            None
        },
        Some(v) => {
            if neg {
                if v <= 32768 {
                    let r: i16 = if v == 32768 {
                        i16::MIN
                    } else {
                        -(v as i16)
                    };
                    Some(r)
                } else {
                    None
                }
            } else {
                if v <= 32767 {
                    Some(v as i16)
                } else {
                    None
                }
            }
        },
    }
}

/// Splitting a character sequence on a separator, as `str::split` does: the
/// result always has one more part than there are separators, so an empty
/// input gives one empty part.
pub open spec fn spec_split(s: Seq<char>, sep: char) -> Seq<Seq<char>>
    decreases s.len(),
{
    if s.len() == 0 {
        seq![s]
    } else if s[0] == sep {
        seq![Seq::<char>::empty()] + spec_split(s.skip(1), sep)
    } else {
        let rest = spec_split(s.skip(1), sep);
        seq![seq![s[0]] + rest[0]] + rest.skip(1)
    }
}

proof fn lemma_split_len(s: Seq<char>, sep: char)
    ensures
        spec_split(s, sep).len() >= 1,
    decreases s.len(),
{
    if s.len() > 0 {
        lemma_split_len(s.skip(1), sep);
    }
}

/// A sequence with no separator splits into itself alone.
proof fn lemma_split_no_sep(s: Seq<char>, sep: char)
    requires
        forall|j: int| 0 <= j < s.len() ==> s[j] != sep,
    ensures
        spec_split(s, sep) =~~= seq![s],
    decreases s.len(),
{
    if s.len() > 0 {
        lemma_split_no_sep(s.skip(1), sep);
        assert(seq![s[0]] + s.skip(1) =~= s);
    }
}

/// Splitting at the first separator: everything before it is the first part.
proof fn lemma_split_first_sep(s: Seq<char>, sep: char, k: int)
    requires
        0 <= k < s.len(),
        s[k] == sep,
        forall|j: int| 0 <= j < k ==> s[j] != sep,
    ensures
        spec_split(s, sep) =~~= seq![s.take(k)] + spec_split(s.skip(k + 1), sep),
    decreases k,
{
    lemma_split_len(s.skip(1), sep);
    if k == 0 {
        assert(s.take(0) =~= Seq::<char>::empty());
    } else {
        lemma_split_first_sep(s.skip(1), sep, k - 1);
        assert(s.skip(1).skip(k) =~= s.skip(k + 1));
        assert(seq![s[0]] + s.skip(1).take(k - 1) =~= s.take(k));
    }
}

/// Splits `s` on `sep`, exactly as `spec_split` describes.
pub fn split_char(s: &str, sep: char) -> (r: Vec<String>)
    ensures
        r.deep_view() == spec_split(s@, sep),
{
    let len = s.unicode_len();
    let mut parts: Vec<String> = Vec::new();
    let mut start: usize = 0;
    let mut i: usize = 0;
    proof {
        assert(s@.subrange(0, len as int) =~= s@);
        assert(parts.deep_view() =~~= Seq::<Seq<char>>::empty());
    }
    while i < len
        invariant
            0 <= start <= i <= len,
            len == s@.len(),
            forall|j: int| start <= j < i ==> s@[j] != sep,
            spec_split(s@, sep) =~~= parts.deep_view() + spec_split(
                s@.subrange(start as int, len as int),
                sep,
            ),
        decreases len - i,
    {
        if s.get_char(i) == sep {
            let part = s.substring_char(start, i).to_owned();
            let ghost done = parts.deep_view();
            proof {
                let t = s@.subrange(start as int, len as int);
                lemma_split_first_sep(t, sep, i - start);
                assert(t.take(i - start) =~= s@.subrange(start as int, i as int));
                assert(t.skip(i - start + 1) =~= s@.subrange(i + 1 as int, len as int));
            }
            parts.push(part);
            proof {
                assert(parts.deep_view() =~~= done.push(part@));
                assert(done.push(part@) + spec_split(s@.subrange(i + 1 as int, len as int), sep)
                    =~~= done + (seq![part@] + spec_split(
                    s@.subrange(i + 1 as int, len as int),
                    sep,
                )));
            }
            start = i + 1;
        }
        i = i + 1;
    }
    let last = s.substring_char(start, len).to_owned();
    let ghost done = parts.deep_view();
    proof {
        let t = s@.subrange(start as int, len as int);
        lemma_split_no_sep(t, sep);
    }
    parts.push(last);
    proof {
        assert(parts.deep_view() =~~= done.push(last@));
        assert(done.push(last@) =~~= done + seq![last@]);
    }
    parts
}

/// The `n`-th `/`-separated segment of a path, if the path has that many
/// segments.
pub open spec fn spec_path_segment(s: Seq<char>, n: int) -> Option<Seq<char>> {
    let parts = spec_split(s, '/');
    if 0 <= n < parts.len() {
        Some(parts[n])
    } else {
        None
    }
}

/// Returns the `n`-th `/`-separated segment of `s`, as `spec_path_segment`
/// describes.
pub fn path_segment(s: &str, n: usize) -> (r: Option<String>)
    ensures
        (r matches Some(seg) ==> spec_path_segment(s@, n as int) == Some(seg@)),
        (r is None <==> spec_path_segment(s@, n as int) is None),
{
    let parts = split_char(s, '/');
    if n < parts.len() {
        let seg = parts[n].clone();
        proof {
            assert(parts.deep_view()[n as int] == parts@[n as int]@);
        }
        Some(seg)
    } else {
        None
    }
}

/// The characters `str::trim` removes at the ends: the code points with the
/// Unicode `White_Space` property, which `char::is_whitespace` tests.
pub open spec fn spec_is_ws(c: char) -> bool {
    let u = c as int;
    (0x09 <= u && u <= 0x0D) || u == 0x20 || u == 0x85 || u == 0xA0 || u == 0x1680 || (0x2000 <= u
        && u <= 0x200A) || u == 0x2028 || u == 0x2029 || u == 0x202F || u == 0x205F || u == 0x3000
}

/// `s` with leading and trailing whitespace removed.
pub open spec fn spec_trim(s: Seq<char>) -> Seq<char>
    decreases s.len(),
{
    if s.len() == 0 {
        s
    } else if spec_is_ws(s[0]) {
        spec_trim(s.skip(1))
    } else if spec_is_ws(s.last()) {
        spec_trim(s.drop_last())
    } else {
        s
    }
}

fn is_ws(c: char) -> (r: bool)
    ensures
        r == spec_is_ws(c),
{
    let u = c as u32;
    (0x09 <= u && u <= 0x0D) || u == 0x20 || u == 0x85 || u == 0xA0 || u == 0x1680 || (0x2000 <= u
        && u <= 0x200A) || u == 0x2028 || u == 0x2029 || u == 0x202F || u == 0x205F || u == 0x3000
}

/// Trims whitespace from both ends of `s`, exactly as `spec_trim` describes.
pub fn trim(s: &str) -> (r: String)
    ensures
        r@ == spec_trim(s@),
{
    let len = s.unicode_len();
    let mut start: usize = 0;
    proof {
        assert(s@.skip(0) =~= s@);
    }
    while start < len && is_ws(s.get_char(start))
        invariant
            0 <= start <= len,
            len == s@.len(),
            spec_trim(s@) == spec_trim(s@.skip(start as int)),
        decreases len - start,
    {
        proof {
            assert(s@.skip(start as int).skip(1) =~= s@.skip(start + 1));
        }
        start = start + 1;
    }
    let mut end: usize = len;
    while end > start && is_ws(s.get_char(end - 1))
        invariant
            0 <= start <= end <= len,
            len == s@.len(),
            start < len ==> !spec_is_ws(s@[start as int]),
            spec_trim(s@) == spec_trim(s@.subrange(start as int, end as int)),
        decreases end,
    {
        proof {
            let t = s@.subrange(start as int, end as int);
            assert(t.drop_last() =~= s@.subrange(start as int, end - 1));
        }
        end = end - 1;
    }
    proof {
        if start == len {
            assert(s@.subrange(start as int, end as int) =~= Seq::<char>::empty());
        }
    }
    s.substring_char(start, end).to_owned()
}

/// Once a digit prefix exceeds `u64::MAX`, every longer digit string does.
proof fn lemma_value_grows(s: Seq<char>, k: int)
    requires
        0 <= k <= s.len(),
        forall|i: int| 0 <= i < s.len() ==> spec_is_digit(s[i]),
    ensures
        spec_digits_val(s) >= spec_digits_val(s.take(k)),
    decreases s.len() - k,
{
    if k < s.len() {
        let t = s.take(k + 1);
        assert(t.drop_last() =~= s.take(k));
        lemma_digits_val_nonneg(s.take(k));
        assert(spec_digits_val(t) >= spec_digits_val(s.take(k)));
        lemma_value_grows(s, k + 1);
        assert(s.take(s.len() as int) =~= s);
    } else {
        assert(s.take(k) =~= s);
    }
}

} // verus!

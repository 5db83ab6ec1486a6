//! Input handling of the simulation command: the value in wei, the calldata
//! prefix, and the argument list given to the calldata encoder.
use vstd::prelude::*;
use vstd::string::{StrSliceExecFns, StringExecFns};
use crate::text::push_char;

verus! {

/// Whether a character has the Unicode `White_Space` property: the 25
/// code points U+0009 to U+000D, U+0020, U+0085, U+00A0, U+1680, U+2000 to
/// U+200A, U+2028, U+2029, U+202F, U+205F and U+3000.
pub open spec fn unicode_white_space(c: char) -> bool {
    let n = c as int;
    ||| 0x9 <= n <= 0xd
    ||| n == 0x20
    ||| n == 0x85
    ||| n == 0xa0
    ||| n == 0x1680
    ||| 0x2000 <= n <= 0x200a
    ||| n == 0x2028
    ||| n == 0x2029
    ||| n == 0x202f
    ||| n == 0x205f
    ||| n == 0x3000
}

/// `char::is_whitespace`: the Unicode `White_Space` property, which std
/// documents it to test.
#[verifier::external_body]
fn is_whitespace(c: char) -> (b: bool)
    ensures
        b == unicode_white_space(c),
{
    c.is_whitespace()
}

/// The text without leading white space.
pub open spec fn trim_start(s: Seq<char>) -> Seq<char>
    decreases s.len(),
{
    if s.len() > 0 && unicode_white_space(s[0]) {
        trim_start(s.drop_first())
    } else {
        s
    }
}

/// The text without trailing white space.
pub open spec fn trim_end(s: Seq<char>) -> Seq<char>
    decreases s.len(),
{
    if s.len() > 0 && unicode_white_space(s.last()) {
        trim_end(s.drop_last())
    } else {
        s
    }
}

/// The text without leading or trailing white space (`str::trim`).
pub open spec fn trim(s: Seq<char>) -> Seq<char> {
    trim_end(trim_start(s))
}

/// The pieces between separators, in order; `n` separators give `n + 1`
/// pieces, some possibly empty (`str::split`).
pub open spec fn split_pieces(s: Seq<char>, comma: bool) -> Seq<Seq<char>>
    decreases s.len(),
{
    if s.len() == 0 {
        seq![Seq::empty()]
    } else {
        let p = split_pieces(s.drop_last(), comma);
        if is_separator(s.last(), comma) {
            p.push(Seq::empty())
        } else {
            p.update(p.len() - 1, p.last().push(s.last()))
        }
    }
}

/// Commas separate when `comma` holds, white space otherwise.
pub open spec fn is_separator(c: char, comma: bool) -> bool {
    if comma {
        c == ','
    } else {
        unicode_white_space(c)
    }
}

/// Each piece trimmed.
pub open spec fn trim_all(s: Seq<Seq<char>>) -> Seq<Seq<char>> {
    s.map_values(|p: Seq<char>| trim(p))
}

/// The non-empty pieces, in order.
pub open spec fn non_empty(s: Seq<Seq<char>>) -> Seq<Seq<char>>
    decreases s.len(),
{
    if s.len() == 0 {
        s
    } else if s.last().len() == 0 {
        non_empty(s.drop_last())
    } else {
        non_empty(s.drop_last()).push(s.last())
    }
}

/// The arguments of a raw argument string: comma-separated (each trimmed)
/// when it holds a comma, white-space separated otherwise; empty ones are
/// dropped.
pub open spec fn argument_list(raw: Seq<char>) -> Seq<Seq<char>> {
    if raw.contains(',') {
        non_empty(trim_all(split_pieces(raw, true)))
    } else {
        non_empty(split_pieces(raw, false))
    }
}

/// The text starts with `0x` (or, when `upper_too`, with `0X`).
pub open spec fn has_hex_prefix(s: Seq<char>, upper_too: bool) -> bool {
    s.len() >= 2 && s[0] == '0' && (s[1] == 'x' || (upper_too && s[1] == 'X'))
}

/// The value of decimal digits.
pub open spec fn digits_value(s: Seq<char>) -> nat
    decreases s.len(),
{
    if s.len() == 0 {
        0
    } else {
        digits_value(s.drop_last()) * 10 + (s.last() as nat - 48) as nat
    }
}

/// All characters are decimal digits.
pub open spec fn all_digits(s: Seq<char>) -> bool {
    forall|i: int| 0 <= i < s.len() ==> '0' <= #[trigger] s[i] <= '9'
}

/// What `str::parse::<u128>` gives: an optional `+`, then at least one
/// decimal digit, and a value that fits.
pub open spec fn parse_u128(s: Seq<char>) -> Option<u128> {
    let d = if s.len() > 0 && s[0] == '+' {
        s.drop_first()
    } else {
        s
    };
    if d.len() == 0 || !all_digits(d) || digits_value(d) > u128::MAX {
        None
    } else {
        Some(digits_value(d) as u128)
    }
}

/// The lower-case hexadecimal digit of `d < 16`.
pub open spec fn hex_digit(d: nat) -> char {
    if d < 10 {
        (48 + d) as char
    } else {
        (87 + d) as char
    }
}

/// Lower-case hexadecimal without leading zeros (`format!("{:x}")`).
pub open spec fn hex(n: nat) -> Seq<char>
    decreases n,
{
    if n < 16 {
        seq![hex_digit(n)]
    } else {
        hex(n / 16).push(hex_digit(n % 16))
    }
}

/// The value to send: kept when it already starts with `0x` or `0X`,
/// converted from decimal otherwise, `0x0` when absent; `None` when it is
/// neither.
pub open spec fn value_hex(v: Option<Seq<char>>) -> Option<Seq<char>> {
    match v {
        None => Some("0x"@ + seq!['0']),
        Some(s) => if has_hex_prefix(s, true) {
            Some(s)
        } else {
            match parse_u128(s) {
                Some(n) => Some("0x"@ + hex(n as nat)),
                None => None,
            }
        },
    }
}

/// The value was neither `0x`-hex nor decimal.
#[derive(Debug, Clone, Copy, PartialEq, Eq, Structural)]
pub struct InvalidValue;

/// The text starts with `0x`, or also `0X` when `upper_too`.
pub fn starts_with_hex_prefix(s: &str, upper_too: bool) -> (b: bool)
    ensures
        b == has_hex_prefix(s@, upper_too),
{
    let n = s.unicode_len();
    if n < 2 {
        return false;
    }
    let c0 = s.get_char(0);
    let c1 = s.get_char(1);
    c0 == '0' && (c1 == 'x' || (upper_too && c1 == 'X'))
}

/// `str::parse::<u128>`.
pub fn parse_decimal_u128(s: &str) -> (r: Option<u128>)
    ensures
        r == parse_u128(s@),
{
    let n = s.unicode_len();
    let mut i: usize = 0;
    if n > 0 && s.get_char(0) == '+' {
        i = 1;
    }
    let ghost d = if s@.len() > 0 && s@[0] == '+' { s@.drop_first() } else { s@ };
    let start = i;
    if start == n {
        return None;
    }
    let mut v: u128 = 0;
    while i < n
        invariant
            start <= i <= n,
            n == s@.len(),
            d == (if s@.len() > 0 && s@[0] == '+' {
                s@.drop_first()
            } else {
                s@
            }),
            start == n - d.len(),
            d == s@.subrange(start as int, n as int),
            all_digits(d.take(i - start)),
            v == digits_value(d.take(i - start)),
        decreases n - i,
    {
        let c = s.get_char(i);
        assert(d.take(i - start + 1).drop_last() =~= d.take(i - start));
        assert(d[i - start] == c);
        if !('0' <= c && c <= '9') {
            proof {
                let j = i - start;
                assert(!('0' <= d[j as int] <= '9'));
                assert(!all_digits(d));
                assert(parse_u128(s@) is None);
            }
            return None;
        }
        let digit: u128 = (c as u32 - 48) as u128;
        let next = match v.checked_mul(10) {
            Some(t) => t.checked_add(digit),
            None => None,
        };
        match next {
            Some(t) => {
                v = t;
            },
            None => {
                proof {
                    let t = d.take(i - start + 1);
                    assert(t.drop_last() =~= d.take(i - start));
                    assert(t.last() == c);
                    assert(digits_value(t) > u128::MAX);
                    if all_digits(d) {
                        lemma_digits_prefix_le(d, (i - start + 1) as nat);
                    }
                    assert(parse_u128(s@) is None);
                }
                return None;
            },
        }
        i = i + 1;
    }
    assert(d.take(i - start) =~= d);
    Some(v)
}

/// A prefix of digits is worth no more than the whole.
proof fn lemma_digits_prefix_le(d: Seq<char>, k: nat)
    requires
        k <= d.len(),
        all_digits(d),
    ensures
        digits_value(d.take(k as int)) <= digits_value(d),
    decreases d.len() - k,
{
    if k < d.len() {
        lemma_digits_prefix_le(d, k + 1);
        let t = d.take(k + 1 as int);
        assert(t.drop_last() =~= d.take(k as int));
        assert(t.last() == d[k as int]);
        assert('0' <= d[k as int] <= '9');
        let a = digits_value(d.take(k as int));
        assert(a <= a * 10) by (nonlinear_arith);
        assert(digits_value(t) == a * 10 + (t.last() as nat - 48) as nat);
    } else {
        assert(d.take(k as int) =~= d);
    }
}

/// Lower-case hexadecimal of a number.
pub fn hex_string(n: u128) -> (s: String)
    ensures
        s@ == hex(n as nat),
    decreases n,
{
    let d: u128 = n % 16;
    let c: char = if d < 10 {
        (48u8 + (d as u8)) as char
    } else {
        (87u8 + (d as u8)) as char
    };
    if n < 16 {
        let mut s = String::new();
        push_char(&mut s, c);
        s
    } else {
        let mut s = hex_string(n / 16);
        push_char(&mut s, c);
        s
    }
}

/// The value in wei to send, as `0x`-prefixed hexadecimal.
pub fn normalize_value_hex(v: Option<String>) -> (r: Result<String, InvalidValue>)
    ensures
        match value_hex(match v {
            Some(s) => Some(s@),
            None => None,
        }) {
            Some(h) => r matches Ok(s) && s@ == h,
            None => r is Err,
        },
{
    match v {
        None => {
            let mut s = String::from_str("0x");
            push_char(&mut s, '0');
            Ok(s)
        },
        Some(s) => {
            if starts_with_hex_prefix(s.as_str(), true) {
                Ok(s)
            } else {
                match parse_decimal_u128(s.as_str()) {
                    Some(n) => {
                        let mut out = String::from_str("0x");
                        out.append(hex_string(n).as_str());
                        Ok(out)
                    },
                    None => Err(InvalidValue),
                }
            }
        },
    }
}

/// `str::trim`.
pub fn trim_str(s: &str) -> (r: String)
    ensures
        r@ == trim(s@),
{
    let n = s.unicode_len();
    let mut lo: usize = 0;
    assert(s@.subrange(0, n as int) =~= s@);
    while lo < n && is_whitespace(s.get_char(lo))
        invariant
            0 <= lo <= n,
            n == s@.len(),
            trim_start(s@) == trim_start(s@.subrange(lo as int, n as int)),
        decreases n - lo,
    {
        assert(s@.subrange(lo as int, n as int).drop_first() =~= s@.subrange(lo + 1, n as int));
        lo = lo + 1;
    }
    let ghost mid = s@.subrange(lo as int, n as int);
    assert(trim_start(s@) == mid);
    let mut hi: usize = n;
    while hi > lo && is_whitespace(s.get_char(hi - 1))
        invariant
            lo <= hi <= n,
            n == s@.len(),
            mid == s@.subrange(lo as int, n as int),
            trim_end(mid) == trim_end(s@.subrange(lo as int, hi as int)),
        decreases hi - lo,
    {
        assert(s@.subrange(lo as int, hi as int).drop_last() =~= s@.subrange(lo as int, hi - 1));
        hi = hi - 1;
    }
    let r = String::from_str(s.substring_char(lo, hi));
    r
}

/// The calldata that the encoder printed, trimmed and given a `0x` prefix
/// when it lacks one.
pub fn ensure_hex_prefix(output: &str) -> (r: String)
    ensures
        r@ == (if has_hex_prefix(trim(output@), false) {
            trim(output@)
        } else {
            "0x"@ + trim(output@)
        }),
{
    let t = trim_str(output);
    if starts_with_hex_prefix(t.as_str(), false) {
        t
    } else {
        let mut r = String::from_str("0x");
        r.append(t.as_str());
        r
    }
}

/// The pieces of a text between separators (commas, or white space).
fn split_by(s: &str, comma: bool) -> (r: Vec<String>)
    ensures
        r@.map_values(|p: String| p@) == split_pieces(s@, comma),
{
    let n = s.unicode_len();
    let mut pieces: Vec<String> = Vec::new();
    let mut cur = String::new();
    let mut i: usize = 0;
    while i < n
        invariant
            0 <= i <= n,
            n == s@.len(),
            pieces@.map_values(|p: String| p@).push(cur@) == split_pieces(s@.take(i as int), comma),
        decreases n - i,
    {
        let c = s.get_char(i);
        let sep = if comma {
            c == ','
        } else {
            is_whitespace(c)
        };
        let ghost before = pieces@.map_values(|p: String| p@);
        assert(s@.take(i + 1).drop_last() =~= s@.take(i as int));
        assert(s@.take(i + 1).last() == c);
        if sep {
            let done = cur;
            cur = String::new();
            pieces.push(done);
            assert(pieces@.map_values(|p: String| p@) =~= before.push(done@));
        } else {
            push_char(&mut cur, c);
        }
        proof {
            let p = split_pieces(s@.take(i as int), comma);
            assert(split_pieces(s@.take(i + 1), comma) == if sep {
                p.push(Seq::empty())
            } else {
                p.update(p.len() - 1, p.last().push(c))
            });
            assert(pieces@.map_values(|p: String| p@).push(cur@) =~= split_pieces(s@.take(i + 1), comma));
        }
        i = i + 1;
    }
    assert(s@.take(n as int) =~= s@);
    let ghost before = pieces@.map_values(|p: String| p@);
    pieces.push(cur);
    assert(pieces@.map_values(|p: String| p@) =~= before.push(cur@));
    pieces
}

/// The arguments handed to the calldata encoder: comma-separated (each
/// trimmed) when the text holds a comma, white-space separated otherwise;
/// empty ones are dropped.
pub fn argument_list_of(raw: &str) -> (r: Vec<String>)
    ensures
        r@.map_values(|p: String| p@) == argument_list(raw@),
{
    let comma = has_comma(raw);
    let pieces = split_by(raw, comma);
    let ghost pv = pieces@.map_values(|p: String| p@);
    let mut out: Vec<String> = Vec::new();
    let mut i: usize = 0;
    while i < pieces.len()
        invariant
            0 <= i <= pieces.len(),
            pv == pieces@.map_values(|p: String| p@),
            out@.map_values(|p: String| p@) == non_empty(
                if comma {
                    trim_all(pv.take(i as int))
                } else {
                    pv.take(i as int)
                },
            ),
        decreases pieces.len() - i,
    {
        let ghost prev = out@.map_values(|p: String| p@);
        let piece = if comma {
            trim_str(pieces[i].as_str())
        } else {
            pieces[i].clone()
        };
        assert(pv.take(i + 1).drop_last() =~= pv.take(i as int));
        assert(trim_all(pv.take(i + 1)).drop_last() =~= trim_all(pv.take(i as int)));
        assert(pv[i as int] == pieces@[i as int]@);
        if piece.unicode_len() > 0 {
            out.push(piece);
            assert(out@.map_values(|p: String| p@) =~= prev.push(piece@));
        }
        i = i + 1;
    }
    assert(pv.take(pieces.len() as int) =~= pv);
    proof {
        if comma {
            assert(raw@.contains(','));
        } else {
            assert(!raw@.contains(','));
        }
    }
    out
}

/// Whether the text holds a comma.
fn has_comma(s: &str) -> (b: bool)
    ensures
        b == s@.contains(','),
{
    let n = s.unicode_len();
    let mut i: usize = 0;
    while i < n
        invariant
            0 <= i <= n,
            n == s@.len(),
            forall|j: int| 0 <= j < i ==> s@[j] != ',',
        decreases n - i,
    {
        if s.get_char(i) == ',' {
            return true;
        }
        i = i + 1;
    }
    false
}

} // verus!

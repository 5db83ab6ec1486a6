//! Short pairing codes: six base-36 digits drawn from a random 64-bit value.
use vstd::prelude::*;
use crate::text::push_char;

verus! {

/// Number of characters of a pairing code.
pub const CODE_LEN: usize = 6;

/// The character that stands for a base-36 digit: `0-9` then `a-z`.
pub open spec fn base36_char(d: nat) -> char {
    if d < 10 {
        (48 + d) as char
    } else {
        (97 + (d - 10)) as char
    }
}

/// `36` to the power `k`.
pub open spec fn pow36(k: nat) -> nat
    decreases k,
{
    if k == 0 { 1 } else { 36 * pow36((k - 1) as nat) }
}

/// The `k` lowest base-36 digits of `n`, least significant first.
pub open spec fn base36_digits(n: nat, k: nat) -> Seq<char>
    decreases k,
{
    if k == 0 {
        Seq::empty()
    } else {
        seq![base36_char(n % 36)] + base36_digits(n / 36, (k - 1) as nat)
    }
}

/// The pairing code that a random value `n` yields.
pub open spec fn spec_short_code(n: u64) -> Seq<char> {
    base36_digits(n as nat, CODE_LEN as nat)
}

/// A character is a base-36 digit character (`0-9` or `a-z`).
pub open spec fn is_base36_char(c: char) -> bool {
    ('0' <= c <= '9') || ('a' <= c <= 'z')
}

/// The digit value of a base-36 digit character.
pub open spec fn base36_value(c: char) -> nat {
    if '0' <= c <= '9' {
        (c as nat - 48) as nat
    } else {
        (c as nat - 87) as nat
    }
}

/// The number that a code spells, least significant digit first.
pub open spec fn decode_base36(s: Seq<char>) -> nat
    decreases s.len(),
{
    if s.len() == 0 {
        0
    } else {
        base36_value(s[0]) + 36 * decode_base36(s.drop_first())
    }
}

/// The big-endian value of a byte sequence.
pub open spec fn be_value(s: Seq<u8>) -> nat
    decreases s.len(),
{
    if s.len() == 0 {
        0
    } else {
        be_value(s.drop_last()) * 256 + s.last() as nat
    }
}

/// Sixteen bytes of a fresh version-4 UUID (`uuid::Uuid::new_v4`, then
/// `Uuid::into_bytes`). The bytes are random, except the version and
/// variant bits that `new_v4` sets: the high nibble of byte 6 is `4` and
/// the two high bits of byte 8 are `10`. Nothing more is promised.
#[verifier::external_body]
fn uuid_v4_bytes() -> (bytes: [u8; 16])
    ensures
        bytes@[6] / 16 == 4,
        bytes@[8] / 64 == 2,
{
    uuid::Uuid::new_v4().into_bytes()
}

/// Folds the first eight bytes into a `u64`, most significant first.
pub fn u64_from_be_prefix(bytes: &[u8; 16]) -> (v: u64)
    ensures
        v == be_value(bytes@.take(8)),
{
    let mut v: u64 = 0;
    let mut i: usize = 0;
    while i < 8
        invariant
            0 <= i <= 8,
            v == be_value(bytes@.take(i as int)),
            v < pow256(i as nat),
        decreases 8 - i,
    {
        let x: u8 = bytes[i];
        assert(bytes@.take(i + 1).drop_last() =~= bytes@.take(i as int));
        assert(pow256(i as nat) <= 0x100000000000000) by {
            lemma_pow256_le(i as nat, 7);
            reveal_with_fuel(pow256, 8);
        }
        assert(((v << 8u64) ^ (x as u64)) == v * 256 + x) by (bit_vector)
            requires
                v < 0x100000000000000u64,
        ;
        v = (v << 8u64) ^ (x as u64);
        i = i + 1;
    }
    assert(bytes@.take(8) =~= bytes@.take(i as int));
    v
}

/// `256` to the power `k`.
pub open spec fn pow256(k: nat) -> nat
    decreases k,
{
    if k == 0 { 1 } else { 256 * pow256((k - 1) as nat) }
}

proof fn lemma_pow256_le(i: nat, j: nat)
    requires
        i <= j,
    ensures
        pow256(i) <= pow256(j),
    decreases j,
{
    if i < j {
        lemma_pow256_le(i, (j - 1) as nat);
    }
}

/// The UUID version nibble that the first eight bytes of a UUID carry once
/// read as a big-endian `u64`: bits 12 to 15.
pub open spec fn version_nibble(v: u64) -> nat {
    (v as nat / 4096) % 16
}

/// Bits 12 to 15 of `(x * 256 + b6) * 256 + b7` are the high nibble of `b6`.
proof fn lemma_version_nibble(x: int, b6: int, b7: int)
    requires
        0 <= x,
        0 <= b6 < 256,
        0 <= b7 < 256,
    ensures
        (((x * 256 + b6) * 256 + b7) / 4096) % 16 == b6 / 16,
{
    let n = (x * 256 + b6) * 256 + b7;
    let q = x * 16 + b6 / 16;
    let r = (b6 % 16) * 256 + b7;
    assert(n == q * 4096 + r);
    vstd::arithmetic::div_mod::lemma_fundamental_div_mod_converse(n, 4096, q, r);
    vstd::arithmetic::div_mod::lemma_fundamental_div_mod_converse(q, 16, x, b6 / 16);
}

/// A random 64-bit value: the first eight bytes of a fresh random UUID,
/// most significant first. Those bytes carry the UUID's version, so the
/// value's version nibble is always `4`; its other bits are random.
pub fn rand_u64() -> (v: u64)
    ensures
        version_nibble(v) == 4,
{
    let bytes = uuid_v4_bytes();
    let v = u64_from_be_prefix(&bytes);
    proof {
        let s = bytes@.take(8);
        assert(s.drop_last() =~= bytes@.take(7));
        assert(bytes@.take(7).drop_last() =~= bytes@.take(6));
        let x = be_value(bytes@.take(6));
        let b6 = bytes@[6] as nat;
        let b7 = bytes@[7] as nat;
        assert(s.last() == bytes@[7] && bytes@.take(7).last() == bytes@[6]);
        assert(be_value(bytes@.take(7)) == x * 256 + b6);
        assert(be_value(s) == be_value(bytes@.take(7)) * 256 + b7);
        assert(v as nat == (x * 256 + b6) * 256 + b7);
        lemma_version_nibble(x as int, b6 as int, b7 as int);
    }
    v
}

/// The character of one base-36 digit.
fn base36_digit_char(d: u8) -> (c: char)
    requires
        d < 36,
    ensures
        c == base36_char(d as nat),
        is_base36_char(c),
{
    if d < 10 {
        (48u8 + d) as char
    } else {
        (97u8 + (d - 10)) as char
    }
}

/// The six-character code that `n` yields: its six lowest base-36 digits,
/// least significant first.
pub fn short_code_from(n: u64) -> (code: String)
    ensures
        code@ == spec_short_code(n),
{
    let mut code = String::new();
    let mut m: u64 = n;
    let mut i: usize = 0;
    while i < CODE_LEN
        invariant
            0 <= i <= CODE_LEN,
            base36_digits(n as nat, CODE_LEN as nat) == code@ + base36_digits(
                m as nat,
                (CODE_LEN - i) as nat,
            ),
        decreases CODE_LEN - i,
    {
        let d: u8 = (m % 36) as u8;
        let c = base36_digit_char(d);
        push_char(&mut code, c);
        assert(base36_digits(m as nat, (CODE_LEN - i) as nat) == seq![c] + base36_digits(
            (m / 36) as nat,
            (CODE_LEN - i - 1) as nat,
        ));
        m = m / 36;
        i = i + 1;
    }
    code
}

/// A fresh random pairing code of six base-36 characters.
pub fn short_code() -> (code: String)
    ensures
        code@.len() == CODE_LEN,
        forall|i: int| 0 <= i < code@.len() ==> is_base36_char(#[trigger] code@[i]),
{
    let n = rand_u64();
    let code = short_code_from(n);
    proof {
        lemma_short_code_shape(n as nat, CODE_LEN as nat);
    }
    code
}

/// Every code has `k` characters, each a base-36 digit character.
pub proof fn lemma_short_code_shape(n: nat, k: nat)
    ensures
        base36_digits(n, k).len() == k,
        forall|i: int| 0 <= i < k ==> is_base36_char(#[trigger] base36_digits(n, k)[i]),
    decreases k,
{
    if k > 0 {
        lemma_short_code_shape(n / 36, (k - 1) as nat);
        let rest = base36_digits(n / 36, (k - 1) as nat);
        assert forall|i: int| 0 <= i < k implies is_base36_char(#[trigger] base36_digits(n, k)[i]) by {
            if i > 0 {
                assert(base36_digits(n, k)[i] == rest[i - 1]);
            }
        }
    }
}

/// Reading a code back gives the value it came from, reduced modulo `36^k`:
/// the code keeps exactly the `k` lowest base-36 digits of the value.
pub proof fn lemma_decode_digits(n: nat, k: nat)
    ensures
        decode_base36(base36_digits(n, k)) == n % pow36(k),
    decreases k,
{
    if k == 0 {
    } else {
        lemma_decode_digits(n / 36, (k - 1) as nat);
        let s = base36_digits(n, k);
        assert(s.drop_first() =~= base36_digits(n / 36, (k - 1) as nat));
        let d = n % 36;
        assert(base36_value(base36_char(d)) == d);
        lemma_pow36_pos((k - 1) as nat);
        vstd::arithmetic::div_mod::lemma_mod_breakdown(n as int, 36, pow36((k - 1) as nat) as int);
    }
}

proof fn lemma_pow36_pos(k: nat)
    ensures
        pow36(k) > 0,
    decreases k,
{
    if k > 0 {
        lemma_pow36_pos((k - 1) as nat);
    }
}

/// Two random values give the same code exactly when they agree modulo
/// `36^6`.
pub proof fn lemma_short_code_injective(a: u64, b: u64)
    ensures
        (spec_short_code(a) == spec_short_code(b)) <==> (a as nat % pow36(CODE_LEN as nat)
            == b as nat % pow36(CODE_LEN as nat)),
{
    lemma_decode_digits(a as nat, CODE_LEN as nat);
    lemma_decode_digits(b as nat, CODE_LEN as nat);
    if a as nat % pow36(CODE_LEN as nat) == b as nat % pow36(CODE_LEN as nat) {
        lemma_digits_mod(a as nat, b as nat, CODE_LEN as nat);
    }
}

proof fn lemma_digits_mod(a: nat, b: nat, k: nat)
    requires
        a % pow36(k) == b % pow36(k),
    ensures
        base36_digits(a, k) == base36_digits(b, k),
    decreases k,
{
    if k > 0 {
        lemma_pow36_pos((k - 1) as nat);
        vstd::arithmetic::div_mod::lemma_mod_breakdown(a as int, 36, pow36((k - 1) as nat) as int);
        vstd::arithmetic::div_mod::lemma_mod_breakdown(b as int, 36, pow36((k - 1) as nat) as int);
        // a % 36 == b % 36 and (a/36) % 36^(k-1) == (b/36) % 36^(k-1)
        let pa = (a / 36) % pow36((k - 1) as nat);
        let pb = (b / 36) % pow36((k - 1) as nat);
        assert(a % 36 == b % 36 && pa == pb) by (nonlinear_arith)
            requires
                36 * pa + a % 36 == 36 * pb + b % 36,
                0 <= a % 36 < 36,
                0 <= b % 36 < 36,
        ;
        lemma_digits_mod(a / 36, b / 36, (k - 1) as nat);
    }
}

} // verus!

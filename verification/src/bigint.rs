use vstd::prelude::*;
use vstd::string::*;
use vstd::utf8::*;
use crate::text::{concat2, debug_str, debug_text, string_from_utf8};
use crate::wasm::{WasmDdsError, WasmDdsResult};

verus! {

/// Largest integer that a JavaScript `Number` represents exactly (2^53 - 1).
pub const MAX_SAFE_INTEGER_U64: u64 = 9_007_199_254_740_991;

/// The ASCII byte of the decimal digit `d`.
pub open spec fn digit_byte(d: nat) -> u8 {
    (48 + d) as u8
}

/// The decimal digits of `v`, most significant first, without leading zeros.
pub open spec fn decimal_bytes(v: nat) -> Seq<u8>
    decreases v,
{
    if v < 10 {
        seq![digit_byte(v)]
    } else {
        decimal_bytes(v / 10).push(digit_byte(v % 10))
    }
}

/// True when every byte of `b` is an ASCII digit.
pub open spec fn all_ascii_digits(b: Seq<u8>) -> bool {
    forall|i: int| 0 <= i < b.len() ==> 48 <= #[trigger] b[i] <= 57
}

/// The number that the ASCII digits `b` spell in base ten (leading zeros allowed).
pub open spec fn digits_value(b: Seq<u8>) -> nat
    decreases b.len(),
{
    if b.len() == 0 {
        0
    } else {
        digits_value(b.drop_last()) * 10 + (b.last() - 48) as nat
    }
}

pub proof fn lemma_decimal_bytes_digits(v: nat)
    ensures
        all_ascii_digits(decimal_bytes(v)),
        decimal_bytes(v).len() > 0,
        digits_value(decimal_bytes(v)) == v,
    decreases v,
{
    if v >= 10 {
        lemma_decimal_bytes_digits(v / 10);
        let b = decimal_bytes(v);
        assert(b.drop_last() =~= decimal_bytes(v / 10));
        assert(v == (v / 10) * 10 + v % 10) by (nonlinear_arith);
        assert(b.last() == digit_byte(v % 10));
        assert(digit_byte(v % 10) == 48 + v % 10);
        assert(digits_value(b) == digits_value(b.drop_last()) * 10 + (b.last() - 48) as nat);
    } else {
        assert(digit_byte(v) == 48 + v);
        let b = decimal_bytes(v);
        assert(b.drop_last() =~= Seq::<u8>::empty());
        assert(digits_value(b) == digits_value(b.drop_last()) * 10 + (b.last() - 48) as nat);
    }
}

/// Bytes below 0x80 always form valid UTF-8.
pub proof fn lemma_ascii_valid_utf8(b: Seq<u8>)
    requires
        forall|i: int| 0 <= i < b.len() ==> #[trigger] b[i] < 0x80,
    ensures
        valid_utf8(b),
{
    assert(b.subrange(0, 0) =~= Seq::<u8>::empty());
    assert(partial_valid_utf8(b, 0));
    partial_valid_utf8_extend_ascii_block(b, 0, b.len() as int);
    assert(b.subrange(0, b.len() as int) =~= b);
}

/// A prefix of a digit string never spells a larger number than the whole.
pub proof fn lemma_digits_value_prefix(b: Seq<u8>, k: int)
    requires
        all_ascii_digits(b),
        0 <= k <= b.len(),
    ensures
        digits_value(b.take(k)) <= digits_value(b),
    decreases b.len(),
{
    if k < b.len() {
        assert(all_ascii_digits(b.drop_last()));
        assert(b.drop_last().take(k) =~= b.take(k));
        lemma_digits_value_prefix(b.drop_last(), k);
        let x = digits_value(b.drop_last());
        assert(x * 10 + (b.last() - 48) as nat >= x) by (nonlinear_arith)
            requires x >= 0, b.last() >= 48;
    } else {
        assert(b.take(k) =~= b);
    }
}

/// The characters of ASCII bytes.
pub open spec fn ascii_chars(b: Seq<u8>) -> Seq<char> {
    b.map_values(|x: u8| x as char)
}

/// Decoding bytes below 0x80 gives one character per byte.
pub proof fn lemma_ascii_decode(b: Seq<u8>)
    requires
        forall|i: int| 0 <= i < b.len() ==> #[trigger] b[i] < 0x80,
    ensures
        valid_utf8(b),
        decode_utf8(b) == ascii_chars(b),
    decreases b.len(),
{
    lemma_ascii_valid_utf8(b);
    if b.len() > 0 {
        let x = b[0];
        assert(x & 0x7f == x) by (bit_vector)
            requires x < 0x80u8;
        assert(pop_first_scalar(b) =~= b.drop_first());
        lemma_ascii_decode(b.drop_first());
        assert(decode_utf8(b) == seq![decode_first_scalar(b) as char] + decode_utf8(pop_first_scalar(b)));
        assert(decode_utf8(b) =~= ascii_chars(b));
    } else {
        assert(decode_utf8(b) =~= ascii_chars(b));
    }
}

/// A string whose encoding is ASCII bytes consists of those characters.
pub proof fn lemma_ascii_string(s: Seq<char>, b: Seq<u8>)
    requires
        encode_utf8(s) == b,
        forall|i: int| 0 <= i < b.len() ==> #[trigger] b[i] < 0x80,
    ensures
        s == ascii_chars(b),
{
    lemma_ascii_decode(b);
    encode_utf8_decode_utf8(s);
}

/// Appends the decimal digits of `v` to `out`.
fn push_decimal(v: u64, out: &mut Vec<u8>)
    ensures
        final(out)@ == old(out)@ + decimal_bytes(v as nat),
    decreases v,
{
    if v >= 10 {
        push_decimal(v / 10, out);
    }
    let d: u8 = (v % 10) as u8;
    out.push(48 + d);
    proof {
        if v >= 10 {
            assert(decimal_bytes(v as nat) == decimal_bytes((v / 10) as nat).push(digit_byte((v % 10) as nat)));
        }
    }
}

/// The ASCII decimal digits of `v` as bytes.
fn decimal_vec(v: u64) -> (r: Vec<u8>)
    ensures
        r@ == decimal_bytes(v as nat),
{
    let mut r: Vec<u8> = Vec::new();
    push_decimal(v, &mut r);
    assert(r@ =~= decimal_bytes(v as nat));
    r
}

/// Turns ASCII digit bytes into a `String` with the same encoding.
fn ascii_digits_string(b: Vec<u8>) -> (r: String)
    requires
        all_ascii_digits(b@),
    ensures
        encode_utf8(r@) == b@,
        r@ == ascii_chars(b@),
{
    proof {
        assert forall|i: int| 0 <= i < b@.len() implies #[trigger] b@[i] < 0x80 by {
            assert(48 <= b@[i] <= 57);
        }
        lemma_ascii_valid_utf8(b@);
    }
    let ghost bytes = b@;
    match string_from_utf8(b) {
        Some(s) => {
            proof {
                lemma_ascii_string(s@, bytes);
            }
            s
        },
        None => {
            assert(false);
            String::new()
        },
    }
}

/// Exact decimal rendering of a `u64` (what JavaScript's `BigInt(s)`
/// parses back).
pub fn u64_to_decimal_str(v: u64) -> (r: String)
    ensures
        encode_utf8(r@) == decimal_bytes(v as nat),
        r@ == ascii_chars(decimal_bytes(v as nat)),
{
    proof {
        lemma_decimal_bytes_digits(v as nat);
    }
    ascii_digits_string(decimal_vec(v))
}

/// The decimal rendering of a signed value: a `-` before the digits of its
/// magnitude when it is negative.
pub open spec fn signed_decimal_bytes(v: int) -> Seq<u8> {
    if v < 0 {
        seq![45u8] + decimal_bytes((-v) as nat)
    } else {
        decimal_bytes(v as nat)
    }
}

/// Exact decimal rendering of an `i64`.
pub fn i64_to_decimal_str(v: i64) -> (r: String)
    ensures
        encode_utf8(r@) == signed_decimal_bytes(v as int),
        r@ == ascii_chars(signed_decimal_bytes(v as int)),
{
    if v < 0 {
        let magnitude: u64 = if v == i64::MIN {
            9_223_372_036_854_775_808u64
        } else {
            (-v) as u64
        };
        let digits = decimal_vec(magnitude);
        let mut b: Vec<u8> = Vec::new();
        b.push(45u8);
        let mut rest = digits;
        b.append(&mut rest);
        proof {
            lemma_decimal_bytes_digits(magnitude as nat);
            assert(b@ =~= seq![45u8] + decimal_bytes((-v) as nat));
        }
        let ghost bytes = b@;
        proof {
            assert forall|i: int| 0 <= i < bytes.len() implies #[trigger] bytes[i] < 0x80 by {
                if i > 0 {
                    assert(bytes[i] == decimal_bytes((-v) as nat)[i - 1]);
                }
            }
            lemma_ascii_valid_utf8(bytes);
        }
        match string_from_utf8(b) {
            Some(s) => {
                proof {
                    lemma_ascii_string(s@, bytes);
                }
                s
            },
            None => {
                assert(false);
                String::new()
            },
        }
    } else {
        u64_to_decimal_str(v as u64)
    }
}

/// Reads the ASCII digits `b[start..]` as a number, or `None` when it
/// exceeds `limit`.
fn parse_digits(b: &[u8], start: usize, limit: u64) -> (r: Option<u64>)
    requires
        start <= b@.len(),
        all_ascii_digits(b@.skip(start as int)),
    ensures
        r is Some <==> digits_value(b@.skip(start as int)) <= limit,
        r matches Some(x) ==> x == digits_value(b@.skip(start as int)),
{
    let ghost d = b@.skip(start as int);
    let mut acc: u64 = 0;
    let mut i: usize = start;
    assert(d.take(0) =~= Seq::<u8>::empty());
    while i < b.len()
        invariant
            start <= i <= b@.len(),
            d == b@.skip(start as int),
            all_ascii_digits(d),
            acc as nat == digits_value(d.take(i - start)),
            acc <= limit,
        decreases b@.len() - i,
    {
        let c = b[i];
        assert(c == d[i - start]);
        let next: u128 = (acc as u128) * 10 + ((c - 48) as u128);
        proof {
            let t = d.take(i - start + 1);
            assert(t.drop_last() =~= d.take(i - start));
            assert(t.last() == c);
            assert(digits_value(t) == digits_value(t.drop_last()) * 10 + (t.last() - 48) as nat);
        }
        if next > limit as u128 {
            proof {
                lemma_digits_value_prefix(d, i - start + 1);
            }
            return None;
        }
        acc = next as u64;
        i = i + 1;
    }
    assert(d.take(i - start) =~= d);
    Some(acc)
}

/// When a digit string is accepted as a `u64`.
pub open spec fn u64_decimal_ok(b: Seq<u8>) -> bool {
    &&& b.len() > 0
    &&& all_ascii_digits(b)
    &&& digits_value(b) <= u64::MAX
}

/// The message of the error for a string `s` rejected as a `u64`.
pub open spec fn u64_decimal_error_text(s: Seq<char>, b: Seq<u8>) -> Seq<char> {
    if b.len() == 0 || !all_ascii_digits(b) {
        "invalid u64 decimal string: "@ + debug_text(s)
    } else {
        "u64 decimal out of range: "@ + debug_text(s)
    }
}

/// Parses a decimal string (as produced by [`u64_to_decimal_str`] or by
/// JavaScript's `BigInt.prototype.toString()`) back into a `u64`. Empty
/// strings, signs, whitespace, non-digits and values above `u64::MAX` are
/// rejected with a typed error that names the input.
pub fn decimal_str_to_u64(s: &str) -> (r: WasmDdsResult<u64>)
    ensures
        r is Ok <==> u64_decimal_ok(s.spec_bytes()),
        r matches Ok(x) ==> x == digits_value(s.spec_bytes()),
        r matches Err(e) ==> e matches WasmDdsError::Serialization(m)
            && m@ == u64_decimal_error_text(s@, s.spec_bytes()),
{
    let b = s.as_bytes();
    let mut ok = b.len() > 0;
    let mut i: usize = 0;
    while i < b.len()
        invariant
            0 <= i <= b@.len(),
            b@ == s.spec_bytes(),
            ok <==> (b@.len() > 0 && forall|j: int| 0 <= j < i ==> 48 <= #[trigger] b@[j] <= 57),
        decreases b@.len() - i,
    {
        if !(48 <= b[i] && b[i] <= 57) {
            ok = false;
        }
        i = i + 1;
    }
    if !ok {
        let q = debug_str(s);
        return Err(WasmDdsError::Serialization(concat2("invalid u64 decimal string: ", q.as_str())));
    }
    assert(b@.skip(0) =~= b@);
    match parse_digits(b, 0, u64::MAX) {
        Some(x) => Ok(x),
        None => {
            let q = debug_str(s);
            Err(WasmDdsError::Serialization(concat2("u64 decimal out of range: ", q.as_str())))
        },
    }
}

/// True when `b` starts with a minus sign.
pub open spec fn has_minus(b: Seq<u8>) -> bool {
    b.len() > 0 && b[0] == 45
}

/// The digit part of a signed decimal string.
pub open spec fn signed_digits(b: Seq<u8>) -> Seq<u8> {
    if has_minus(b) {
        b.skip(1)
    } else {
        b
    }
}

/// When a decimal string is accepted as an `i64`.
pub open spec fn i64_decimal_ok(b: Seq<u8>) -> bool {
    &&& b.len() > 0
    &&& signed_digits(b).len() > 0
    &&& all_ascii_digits(signed_digits(b))
    &&& if has_minus(b) {
        digits_value(signed_digits(b)) <= 9_223_372_036_854_775_808
    } else {
        digits_value(signed_digits(b)) <= 9_223_372_036_854_775_807
    }
}

/// The number that an accepted signed decimal string spells.
pub open spec fn signed_digits_value(b: Seq<u8>) -> int {
    if has_minus(b) {
        -(digits_value(signed_digits(b)) as int)
    } else {
        digits_value(signed_digits(b)) as int
    }
}

/// The message of the error for a string `s` rejected as an `i64`.
pub open spec fn i64_decimal_error_text(s: Seq<char>, b: Seq<u8>) -> Seq<char> {
    if b.len() == 0 {
        "invalid i64 decimal string: \"\""@
    } else if signed_digits(b).len() == 0 || !all_ascii_digits(signed_digits(b)) {
        "invalid i64 decimal string: "@ + debug_text(s)
    } else {
        "i64 decimal out of range: "@ + debug_text(s)
    }
}

/// Parses a decimal string back into an `i64`. One leading `-` is
/// accepted; everything else that is not a digit is rejected with a typed
/// error, as is any value outside the `i64` range.
pub fn decimal_str_to_i64(s: &str) -> (r: WasmDdsResult<i64>)
    ensures
        r is Ok <==> i64_decimal_ok(s.spec_bytes()),
        r matches Ok(x) ==> x as int == signed_digits_value(s.spec_bytes()),
        r matches Err(e) ==> e matches WasmDdsError::Serialization(m)
            && m@ == i64_decimal_error_text(s@, s.spec_bytes()),
{
    let b = s.as_bytes();
    if b.len() == 0 {
        return Err(WasmDdsError::Serialization("invalid i64 decimal string: \"\"".to_owned()));
    }
    let neg = b[0] == 45u8;
    let start: usize = if neg { 1 } else { 0 };
    let ghost digits = b@.skip(start as int);
    assert(digits =~= signed_digits(b@));
    let mut ok = start < b.len();
    let mut i: usize = start;
    while i < b.len()
        invariant
            start <= i <= b@.len(),
            digits == b@.skip(start as int),
            ok <==> (start < b@.len() && forall|j: int| start <= j < i ==> 48 <= #[trigger] b@[j] <= 57),
        decreases b@.len() - i,
    {
        if !(48 <= b[i] && b[i] <= 57) {
            ok = false;
        }
        i = i + 1;
    }
    proof {
        if ok {
            assert forall|j: int| 0 <= j < digits.len() implies 48 <= #[trigger] digits[j] <= 57 by {
                assert(digits[j] == b@[j + start]);
            }
        } else if start < b@.len() {
            let j = choose|j: int| start <= j < b@.len() && !(48 <= #[trigger] b@[j] <= 57);
            assert(digits[j - start] == b@[j]);
        }
    }
    if !ok {
        let q = debug_str(s);
        return Err(WasmDdsError::Serialization(concat2("invalid i64 decimal string: ", q.as_str())));
    }
    let limit: u64 = if neg { 9_223_372_036_854_775_808u64 } else { 9_223_372_036_854_775_807u64 };
    match parse_digits(b, start, limit) {
        Some(x) => {
            if neg {
                if x == 9_223_372_036_854_775_808u64 {
                    Ok(i64::MIN)
                } else {
                    Ok(-(x as i64))
                }
            } else {
                Ok(x as i64)
            }
        },
        None => {
            let q = debug_str(s);
            Err(WasmDdsError::Serialization(concat2("i64 decimal out of range: ", q.as_str())))
        },
    }
}

/// True when a `u64` value would lose precision as a JavaScript `Number`;
/// such values have to travel as `BigInt`.
pub fn u64_needs_bigint(v: u64) -> (r: bool)
    ensures
        r <==> v > MAX_SAFE_INTEGER_U64,
{
    v > MAX_SAFE_INTEGER_U64
}

/// Rendering a `u64` and parsing the text back gives the value again.
pub proof fn law_u64_decimal_roundtrip(v: u64)
    ensures
        u64_decimal_ok(decimal_bytes(v as nat)),
        digits_value(decimal_bytes(v as nat)) == v,
{
    lemma_decimal_bytes_digits(v as nat);
}

/// Rendering an `i64` and parsing the text back gives the value again.
pub proof fn law_i64_decimal_roundtrip(v: i64)
    ensures
        i64_decimal_ok(signed_decimal_bytes(v as int)),
        signed_digits_value(signed_decimal_bytes(v as int)) == v,
{
    let b = signed_decimal_bytes(v as int);
    if v < 0 {
        let m = (-v) as nat;
        lemma_decimal_bytes_digits(m);
        assert(b.skip(1) =~= decimal_bytes(m));
        assert(has_minus(b));
    } else {
        lemma_decimal_bytes_digits(v as nat);
        assert(48 <= b[0] <= 57);
        assert(!has_minus(b));
    }
}

} // verus!

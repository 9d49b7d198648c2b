use vstd::prelude::*;
use vstd::string::*;
use vstd::utf8::*;

verus! {

/// The text that `{:?}` renders for a string with the given characters:
/// the characters in double quotes, with quotes, backslashes and control
/// characters escaped.
pub uninterp spec fn debug_quoted(s: Seq<char>) -> Seq<char>;

/// A character that `Debug` for `str` writes as it is: an ASCII letter or
/// digit, a space, `+`, `-`, `.` or `_`.
pub open spec fn plain_debug_char(c: char) -> bool {
    ||| ('a' <= c && c <= 'z')
    ||| ('A' <= c && c <= 'Z')
    ||| ('0' <= c && c <= '9')
    ||| c == ' ' || c == '+' || c == '-' || c == '.' || c == '_'
}

/// What `Debug` for `str` shows of a text: the text in double quotes when
/// every character is plain (see [`plain_debug_char`]), else what std's
/// escaping makes of it.
pub open spec fn debug_text(s: Seq<char>) -> Seq<char> {
    if forall|i: int| 0 <= i < s.len() ==> plain_debug_char(#[trigger] s[i]) {
        seq!['"'] + s + seq!['"']
    } else {
        debug_quoted(s)
    }
}

/// Renders `s` as `format!("{s:?}")` does (std's `Debug` for `str`).
///
/// Trusted: the result is named `debug_quoted(s@)`, and a text made only
/// of printable ASCII characters that need no escape comes back in double
/// quotes unchanged, as std documents for `char::escape_debug`; how other
/// characters are escaped is left to std and is not stated here.
#[verifier::external_body]
pub(crate) fn debug_str(s: &str) -> (r: String)
    ensures
        r@ == debug_quoted(s@),
        (forall|i: int| 0 <= i < s@.len() ==> plain_debug_char(#[trigger] s@[i])) ==> r@ == seq!['"']
            + s@ + seq!['"'],
{
    format!("{s:?}")
}

/// `String::from_utf8` from std: the bytes become a string exactly when
/// they are valid UTF-8, and then the string's UTF-8 encoding is those bytes.
///
/// Trusted: std documents that `from_utf8` fails only on invalid UTF-8 and
/// that the resulting `String` owns the given bytes unchanged.
#[verifier::external_body]
pub(crate) fn string_from_utf8(bytes: Vec<u8>) -> (r: Option<String>)
    ensures
        r is Some <==> valid_utf8(bytes@),
        r matches Some(s) ==> encode_utf8(s@) == bytes@,
{
    match String::from_utf8(bytes) {
        Ok(s) => Some(s),
        Err(_) => None,
    }
}

/// Concatenation of two string slices into a new `String`.
pub fn concat2(a: &str, b: &str) -> (r: String)
    ensures
        r@ == a@ + b@,
{
    let mut r = a.to_owned();
    r.append(b);
    r
}

/// Concatenation of three string slices into a new `String`.
pub fn concat3(a: &str, b: &str, c: &str) -> (r: String)
    ensures
        r@ == a@ + b@ + c@,
{
    let mut r = a.to_owned();
    r.append(b);
    r.append(c);
    r
}

/// Renders a value with its `Debug` implementation (`format!("{v:?}")`).
///
/// Trusted: nothing is stated of the text, which the derived `Debug`
/// implementation determines.
#[verifier::external_body]
pub(crate) fn debug_string<T: std::fmt::Debug>(v: &T) -> String {
    format!("{v:?}")
}

/// Equality of two string slices, character for character.
pub fn str_eq(a: &str, b: &str) -> (r: bool)
    ensures
        r == (a@ == b@),
{
    let x = a.as_bytes();
    let y = b.as_bytes();
    proof {
        encode_utf8_decode_utf8(a@);
        encode_utf8_decode_utf8(b@);
    }
    if x.len() != y.len() {
        return false;
    }
    let mut i: usize = 0;
    while i < x.len()
        invariant
            0 <= i <= x@.len(),
            x@.len() == y@.len(),
            x@ == encode_utf8(a@),
            y@ == encode_utf8(b@),
            forall|j: int| 0 <= j < i ==> x@[j] == y@[j],
        decreases x@.len() - i,
    {
        if x[i] != y[i] {
            return false;
        }
        i += 1;
    }
    assert(x@ =~= y@);
    true
}


/// Byte sequences in lexicographic order: `x` comes before `y` when it is
/// a proper prefix of `y`, or at the first byte where they differ, its byte
/// is the smaller.
pub open spec fn bytes_less(x: Seq<u8>, y: Seq<u8>) -> bool
    decreases x.len(),
{
    if x.len() == 0 {
        y.len() > 0
    } else if y.len() == 0 {
        false
    } else if x[0] != y[0] {
        x[0] < y[0]
    } else {
        bytes_less(x.drop_first(), y.drop_first())
    }
}

/// Names in the order of `String`'s `Ord`: by their UTF-8 bytes.
pub open spec fn name_less(a: Seq<char>, b: Seq<char>) -> bool {
    bytes_less(encode_utf8(a), encode_utf8(b))
}

/// The order of byte sequences is strict: no sequence comes before itself,
/// and of two it is never both ways.
pub proof fn lemma_bytes_less_asymmetric(x: Seq<u8>, y: Seq<u8>)
    ensures
        !(bytes_less(x, y) && bytes_less(y, x)),
        !bytes_less(x, x),
    decreases x.len(),
{
    if x.len() > 0 && y.len() > 0 && x[0] == y[0] {
        lemma_bytes_less_asymmetric(x.drop_first(), y.drop_first());
    }
    if x.len() > 0 {
        lemma_bytes_less_asymmetric(x.drop_first(), x.drop_first());
    }
}

/// The order of byte sequences is transitive.
pub proof fn lemma_bytes_less_transitive(x: Seq<u8>, y: Seq<u8>, z: Seq<u8>)
    requires
        bytes_less(x, y),
        bytes_less(y, z),
    ensures
        bytes_less(x, z),
    decreases x.len(),
{
    if x.len() > 0 && y.len() > 0 && z.len() > 0 && x[0] == y[0] && y[0] == z[0] {
        lemma_bytes_less_transitive(x.drop_first(), y.drop_first(), z.drop_first());
    }
}

/// Of two different byte sequences, one comes before the other.
pub proof fn lemma_bytes_less_total(x: Seq<u8>, y: Seq<u8>)
    requires
        x != y,
    ensures
        bytes_less(x, y) || bytes_less(y, x),
    decreases x.len(),
{
    if x.len() == 0 {
        assert(y.len() > 0) by {
            if y.len() == 0 {
                assert(x =~= y);
            }
        }
    } else if y.len() > 0 && x[0] == y[0] {
        if x.drop_first() == y.drop_first() {
            assert(x =~= y) by {
                assert(x.drop_first().len() == y.drop_first().len());
                assert forall|i: int| 0 <= i < x.len() implies x[i] == y[i] by {
                    if i > 0 {
                        assert(x[i] == x.drop_first()[i - 1]);
                        assert(y[i] == y.drop_first()[i - 1]);
                    }
                }
            }
        }
        lemma_bytes_less_total(x.drop_first(), y.drop_first());
    }
}

/// Names are ordered strictly, transitively, and totally.
pub proof fn lemma_name_order(a: Seq<char>, b: Seq<char>, c: Seq<char>)
    ensures
        !name_less(a, a),
        !(name_less(a, b) && name_less(b, a)),
        name_less(a, b) && name_less(b, c) ==> name_less(a, c),
        a != b ==> name_less(a, b) || name_less(b, a),
{
    lemma_bytes_less_asymmetric(encode_utf8(a), encode_utf8(b));
    if name_less(a, b) && name_less(b, c) {
        lemma_bytes_less_transitive(encode_utf8(a), encode_utf8(b), encode_utf8(c));
    }
    if a != b {
        encode_utf8_decode_utf8(a);
        encode_utf8_decode_utf8(b);
        lemma_bytes_less_total(encode_utf8(a), encode_utf8(b));
    }
}

/// Whether `a` comes before `b` in the order of `String`'s `Ord`.
pub fn str_less(a: &str, b: &str) -> (r: bool)
    ensures
        r == name_less(a@, b@),
{
    let x = a.as_bytes();
    let y = b.as_bytes();
    let mut i: usize = 0;
    assert(x@.skip(0) =~= x@);
    assert(y@.skip(0) =~= y@);
    while i < x.len() && i < y.len()
        invariant
            0 <= i <= x@.len(),
            i <= y@.len(),
            x@ == encode_utf8(a@),
            y@ == encode_utf8(b@),
            name_less(a@, b@) == bytes_less(x@.skip(i as int), y@.skip(i as int)),
        decreases x@.len() - i,
    {
        if x[i] != y[i] {
            return x[i] < y[i];
        }
        assert(x@.skip(i as int).drop_first() =~= x@.skip(i as int + 1));
        assert(y@.skip(i as int).drop_first() =~= y@.skip(i as int + 1));
        i += 1;
    }
    i < y.len()
}

} // verus!

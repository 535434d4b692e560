//! Rendering of scalar values as text: decimal integers, booleans, byte lists,
//! and the two outside conversions (Base58 keys and UTF-8 text).
use vstd::prelude::*;
use vstd::string::StringExecFns;

verus! {

/// The text of a single decimal digit.
pub open spec fn digit_text(d: nat) -> Seq<char> {
    if d == 0 { "0"@ }
    else if d == 1 { "1"@ }
    else if d == 2 { "2"@ }
    else if d == 3 { "3"@ }
    else if d == 4 { "4"@ }
    else if d == 5 { "5"@ }
    else if d == 6 { "6"@ }
    else if d == 7 { "7"@ }
    else if d == 8 { "8"@ }
    else { "9"@ }
}

/// The decimal text of a natural number, most significant digit first, with no
/// leading zeros.
pub open spec fn dec_text(n: nat) -> Seq<char>
    decreases n,
{
    if n < 10 {
        digit_text(n)
    } else {
        dec_text(n / 10) + digit_text(n % 10)
    }
}

/// The decimal text of a signed integer, with a leading `-` when negative.
pub open spec fn int_text(n: int) -> Seq<char> {
    if n < 0 {
        "-"@ + dec_text((-n) as nat)
    } else {
        dec_text(n as nat)
    }
}

/// The text `true` or `false`.
pub open spec fn bool_text(b: bool) -> Seq<char> {
    if b { "true"@ } else { "false"@ }
}

/// The comma-separated decimal items of a byte sequence.
pub open spec fn byte_items(s: Seq<u8>) -> Seq<char>
    decreases s.len(),
{
    if s.len() == 0 {
        Seq::empty()
    } else if s.len() == 1 {
        dec_text(s[0] as nat)
    } else {
        byte_items(s.drop_last()) + ", "@ + dec_text(s.last() as nat)
    }
}

/// A byte sequence as a bracketed list of decimal values, e.g. `[1, 2, 3]`.
pub open spec fn byte_list_text(s: Seq<u8>) -> Seq<char> {
    "["@ + byte_items(s) + "]"@
}

/// Relies on bs58::encode (with into_string): the Base58 text of the given bytes,
/// the usual rendering of a public key.
pub uninterp spec fn base58_of(b: Seq<u8>) -> Seq<char>;

/// Relies on String::from_utf8_lossy: the text of the given bytes read as UTF-8,
/// with each invalid sequence replaced by U+FFFD.
pub uninterp spec fn utf8_lossy_of(b: Seq<u8>) -> Seq<char>;

/// Relies on bs58::encode(..).into_string(), which renders bytes in Base58.
#[verifier::external_body]
fn base58(b: &Vec<u8>) -> (r: String)
    ensures
        r@ == base58_of(b@),
{
    bs58::encode(b).into_string()
}

/// Relies on String::from_utf8_lossy, which turns bytes into text.
#[verifier::external_body]
fn utf8_lossy(b: &Vec<u8>) -> (r: String)
    ensures
        r@ == utf8_lossy_of(b@),
{
    String::from_utf8_lossy(b.as_slice()).into_owned()
}

/// The Base58 text of a public key.
pub fn key_text(key: &Vec<u8>) -> (r: String)
    ensures
        r@ == base58_of(key@),
{
    base58(key)
}

/// The bytes of a stored string, read as UTF-8.
pub fn bytes_text(b: &Vec<u8>) -> (r: String)
    ensures
        r@ == utf8_lossy_of(b@),
{
    utf8_lossy(b)
}

/// The text of one decimal digit.
pub fn digit_str(d: u64) -> (r: &'static str)
    requires
        d < 10,
    ensures
        r@ == digit_text(d as nat),
{
    if d == 0 { "0" }
    else if d == 1 { "1" }
    else if d == 2 { "2" }
    else if d == 3 { "3" }
    else if d == 4 { "4" }
    else if d == 5 { "5" }
    else if d == 6 { "6" }
    else if d == 7 { "7" }
    else if d == 8 { "8" }
    else { "9" }
}

/// The decimal text of an unsigned integer.
pub fn u64_text(n: u64) -> (r: String)
    ensures
        r@ == dec_text(n as nat),
    decreases n,
{
    if n < 10 {
        String::from_str(digit_str(n))
    } else {
        let mut s = u64_text(n / 10);
        s.append(digit_str(n % 10));
        s
    }
}

/// The decimal text of a signed integer.
pub fn i64_text(n: i64) -> (r: String)
    ensures
        r@ == int_text(n as int),
{
    if n < 0 {
        let m: u64 = (0i128 - (n as i128)) as u64;
        let digits = u64_text(m);
        String::from_str("-").concat(digits.as_str())
    } else {
        u64_text(n as u64)
    }
}

/// The text `true` or `false`.
pub fn bool_str(b: bool) -> (r: &'static str)
    ensures
        r@ == bool_text(b),
{
    if b { "true" } else { "false" }
}

/// A byte sequence as a bracketed list of decimal values.
pub fn byte_list(s: &Vec<u8>) -> (r: String)
    ensures
        r@ == byte_list_text(s@),
{
    let mut items = String::new();
    let mut i: usize = 0;
    while i < s.len()
        invariant
            i <= s@.len(),
            items@ == byte_items(s@.subrange(0, i as int)),
        decreases s@.len() - i,
    {
        let d = u64_text(s[i] as u64);
        let ghost prev = s@.subrange(0, i as int);
        let ghost next = s@.subrange(0, i + 1);
        assert(next.drop_last() =~= prev);
        if i > 0 {
            items.append(", ");
        } else {
            assert(prev =~= Seq::<u8>::empty());
            assert(items@ =~= Seq::<char>::empty());
        }
        items.append(d.as_str());
        i = i + 1;
        proof {
            if i > 1 {
                assert(items@ =~= byte_items(next));
            } else {
                assert(items@ =~= byte_items(next));
            }
        }
    }
    assert(s@.subrange(0, s@.len() as int) =~= s@);
    let out = String::from_str("[").concat(items.as_str());
    out.concat("]")
}

} // verus!

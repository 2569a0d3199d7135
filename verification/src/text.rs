//! ASCII case-insensitive name matching, as used for species and move lookups.
use vstd::prelude::*;
use vstd::string::StringSliceAdditionalSpecFns;

verus! {

/// The ASCII lowercase form of a byte: `A`..=`Z` map to `a`..=`z`, every other byte is kept.
pub open spec fn ascii_lower(b: u8) -> u8 {
    if 65 <= b <= 90 {
        (b + 32) as u8
    } else {
        b
    }
}

/// Two byte strings match when they have the same length and agree byte by byte
/// after ASCII lowercasing.
pub open spec fn ascii_ci_eq(a: Seq<u8>, b: Seq<u8>) -> bool {
    &&& a.len() == b.len()
    &&& forall|i: int| 0 <= i < a.len() ==> ascii_lower(#[trigger] a[i]) == ascii_lower(b[i])
}

/// Names match when their UTF-8 bytes are an ASCII case-insensitive match.
pub open spec fn names_match(a: &str, b: &str) -> bool {
    ascii_ci_eq(a.spec_bytes(), b.spec_bytes())
}

fn lower_byte(b: u8) -> (r: u8)
    ensures
        r == ascii_lower(b),
{
    if 65 <= b && b <= 90 {
        b + 32
    } else {
        b
    }
}

/// Compares two names ignoring ASCII case.
pub fn eq_ignore_ascii_case(a: &str, b: &str) -> (r: bool)
    ensures
        r == names_match(a, b),
{
    let x = a.as_bytes();
    let y = b.as_bytes();
    if x.len() != y.len() {
        return false;
    }
    let mut i: usize = 0;
    while i < x.len()
        invariant
            x@ == a.spec_bytes(),
            y@ == b.spec_bytes(),
            x@.len() == y@.len(),
            0 <= i <= x@.len(),
            forall|j: int| 0 <= j < i ==> ascii_lower(#[trigger] x@[j]) == ascii_lower(y@[j]),
        decreases x@.len() - i,
    {
        if lower_byte(x[i]) != lower_byte(y[i]) {
            return false;
        }
        i = i + 1;
    }
    true
}

/// Compares two strings for exact equality.
pub fn text_equal(a: &str, b: &str) -> (r: bool)
    ensures
        r == (a@ == b@),
{
    let x = a.as_bytes();
    let y = b.as_bytes();
    proof {
        vstd::utf8::encode_utf8_decode_utf8(a@);
        vstd::utf8::encode_utf8_decode_utf8(b@);
    }
    if x.len() != y.len() {
        return false;
    }
    let mut i: usize = 0;
    while i < x.len()
        invariant
            x@ == a.spec_bytes(),
            y@ == b.spec_bytes(),
            x@.len() == y@.len(),
            0 <= i <= x@.len(),
            forall|j: int| 0 <= j < i ==> #[trigger] x@[j] == y@[j],
        decreases x@.len() - i,
    {
        if x[i] != y[i] {
            return false;
        }
        i = i + 1;
    }
    assert(x@ =~= y@);
    true
}

/// The length and the lowercased first and last bytes of a name: names that match ignoring
/// ASCII case have the same key.
pub open spec fn name_key(s: &str) -> (int, u8, u8) {
    let b = s.spec_bytes();
    (b.len() as int, ascii_lower(b[0]), ascii_lower(b[b.len() - 1]))
}

/// Names that match ignoring ASCII case have the same key.
pub proof fn lemma_matching_names_share_key(a: &str, b: &str)
    requires
        names_match(a, b),
        a.spec_bytes().len() > 0,
    ensures
        name_key(a) == name_key(b),
{
    let x = a.spec_bytes();
    let y = b.spec_bytes();
    assert(ascii_lower(x[0]) == ascii_lower(y[0]));
    assert(ascii_lower(x[x.len() - 1]) == ascii_lower(y[x.len() - 1]));
}

/// The key of a non-empty ASCII name, read from its characters.
pub proof fn lemma_ascii_name_key(s: &str)
    requires
        vstd::utf8::is_ascii_chars(s@),
        s@.len() > 0,
    ensures
        name_key(s) == (s@.len() as int, ascii_lower(s@[0] as u8), ascii_lower(s@[s@.len() - 1] as u8)),
{
    vstd::utf8::is_ascii_chars_encode_utf8(s@);
}

} // verus!

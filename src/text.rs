use vstd::prelude::*;
use vstd::string::*;

verus! {

/// The text that lossy UTF-8 decoding makes of some bytes: each invalid
/// sequence becomes U+FFFD.
pub uninterp spec fn utf8_lossy_of(b: Seq<u8>) -> Seq<char>;

/// Relies on String::from_utf8_lossy: the bytes decoded as UTF-8, with
/// U+FFFD in place of each invalid sequence.
#[verifier::external_body]
fn utf8_lossy(b: &[u8]) -> (r: String)
    ensures
        r@ == utf8_lossy_of(b@),
{
    String::from_utf8_lossy(b).into_owned()
}

/// `s` without its leading NUL characters.
pub open spec fn trim_nul_start(s: Seq<char>) -> Seq<char>
    decreases s.len(),
{
    if s.len() > 0 && s[0] == '\0' {
        trim_nul_start(s.drop_first())
    } else {
        s
    }
}

/// `s` without its trailing NUL characters.
pub open spec fn trim_nul_end(s: Seq<char>) -> Seq<char>
    decreases s.len(),
{
    if s.len() > 0 && s.last() == '\0' {
        trim_nul_end(s.drop_last())
    } else {
        s
    }
}

/// `s` without NUL padding at either end.
pub open spec fn trim_nul(s: Seq<char>) -> Seq<char> {
    trim_nul_end(trim_nul_start(s))
}

/// A path sent as bytes, as text: decoded lossily, NUL padding removed.
pub open spec fn decoded_path(b: Seq<u8>) -> Seq<char> {
    trim_nul(utf8_lossy_of(b))
}

/// Removes the NUL characters at both ends of `s`.
pub fn trim_nul_chars(s: &str) -> (r: String)
    ensures
        r@ == trim_nul(s@),
{
    let n = s.unicode_len();
    let mut a: usize = 0;
    assert(s@.subrange(0, n as int) =~= s@);
    while a < n && s.get_char(a) == '\0'
        invariant
            n == s@.len(),
            a <= n,
            trim_nul_start(s@.subrange(a as int, n as int)) == trim_nul_start(s@),
        decreases n - a,
    {
        assert(s@.subrange(a as int, n as int).drop_first() =~= s@.subrange(a + 1, n as int));
        a = a + 1;
    }
    let ghost front = s@.subrange(a as int, n as int);
    assert(trim_nul_start(front) == front);
    let mut b: usize = n;
    while b > a && s.get_char(b - 1) == '\0'
        invariant
            n == s@.len(),
            a <= b <= n,
            front == s@.subrange(a as int, n as int),
            trim_nul_end(s@.subrange(a as int, b as int)) == trim_nul_end(front),
        decreases b,
    {
        assert(s@.subrange(a as int, b as int).drop_last() =~= s@.subrange(a as int, b - 1));
        b = b - 1;
    }
    proof {
        assert(s@.subrange(a as int, n as int) =~= front);
    }
    s.substring_char(a, b).to_string()
}

/// Decodes a path sent as bytes (see `decoded_path`).
pub fn decode_path(b: &Vec<u8>) -> (r: String)
    ensures
        r@ == decoded_path(b@),
{
    let text = utf8_lossy(b.as_slice());
    trim_nul_chars(text.as_str())
}

} // verus!

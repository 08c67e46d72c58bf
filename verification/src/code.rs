use rand::distr::SampleString;
use vstd::prelude::*;

verus! {

/// A character that may appear in a short code: an ASCII letter or digit,
/// a hyphen or an underscore.
pub open spec fn is_code_char(c: char) -> bool {
    ||| ('a' <= c && c <= 'z')
    ||| ('A' <= c && c <= 'Z')
    ||| ('0' <= c && c <= '9')
    ||| c == '-'
    ||| c == '_'
}

/// A valid short code is non-empty and made of code characters only.
pub open spec fn valid_code(s: Seq<char>) -> bool {
    &&& s.len() > 0
    &&& forall|i: int| 0 <= i < s.len() ==> is_code_char(#[trigger] s[i])
}

fn is_valid_code_char(ch: char) -> (res: bool)
    ensures
        res == is_code_char(ch),
{
    ('a' <= ch && ch <= 'z') || ('A' <= ch && ch <= 'Z') || ('0' <= ch && ch <= '9') || ch == '-'
        || ch == '_'
}

/// Checks that a code is non-empty and contains only letters, digits,
/// hyphens and underscores.
pub fn is_valid_code(code: &str) -> (res: bool)
    ensures
        res == valid_code(code@),
{
    let n = code.unicode_len();
    if n == 0 {
        return false;
    }
    let mut i: usize = 0;
    while i < n
        invariant
            n == code@.len(),
            i <= n,
            forall|j: int| 0 <= j < i ==> is_code_char(#[trigger] code@[j]),
        decreases n - i,
    {
        if !is_valid_code_char(code.get_char(i)) {
            return false;
        }
        i = i + 1;
    }
    true
}

/// An ASCII letter or digit.
pub open spec fn is_alphanumeric(c: char) -> bool {
    ||| ('a' <= c && c <= 'z')
    ||| ('A' <= c && c <= 'Z')
    ||| ('0' <= c && c <= '9')
}

/// Calls `rand::distr::Alphanumeric.sample_string` with the thread-local
/// generator. Claimed: the string has exactly `length` characters, each
/// drawn from `A-Z`, `a-z` and `0-9` (the sampler's charset). Which
/// characters come out is left open: they are random.
#[verifier::external_body]
fn sample_alphanumeric(length: usize) -> (res: String)
    requires
        length <= isize::MAX,
    ensures
        res@.len() == length,
        forall|i: int| 0 <= i < res@.len() ==> is_alphanumeric(#[trigger] res@[i]),
{
    rand::distr::Alphanumeric.sample_string(&mut rand::rng(), length)
}

/// Generates a random alphanumeric code of the given length.
pub fn generate_code(length: usize) -> (res: String)
    requires
        length <= isize::MAX,
    ensures
        res@.len() == length,
        forall|i: int| 0 <= i < res@.len() ==> is_alphanumeric(#[trigger] res@[i]),
{
    sample_alphanumeric(length)
}

/// Every generated code of positive length is a valid code.
pub proof fn lemma_generated_code_is_valid(s: Seq<char>)
    requires
        s.len() > 0,
        forall|i: int| 0 <= i < s.len() ==> is_alphanumeric(#[trigger] s[i]),
    ensures
        valid_code(s),
{
    assert forall|i: int| 0 <= i < s.len() implies is_code_char(#[trigger] s[i]) by {
        assert(is_alphanumeric(s[i]));
    }
}

} // verus!

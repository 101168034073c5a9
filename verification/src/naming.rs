//! Collision-resistant random file names for finished images.

use vstd::prelude::*;

use rand::Rng;

verus! {

/// An ASCII digit, upper-case letter or lower-case letter.
pub open spec fn is_alnum_char(c: char) -> bool {
    ('0' <= c && c <= '9') || ('A' <= c && c <= 'Z') || ('a' <= c && c <= 'z')
}

/// Relies on `rand::Rng::sample_iter` over `rand::distributions::Alphanumeric`:
/// every sampled symbol is drawn from the 62 ASCII digits and letters. The
/// result is random, so nothing relates two calls.
#[verifier::external_body]
fn random_alphanumeric_token(len: usize) -> (r: String)
    ensures
        r@.len() == len,
        forall|i: int| 0 <= i < r@.len() ==> is_alnum_char(r@[i]),
{
    rand::thread_rng().sample_iter(&rand::distributions::Alphanumeric).take(len).map(
        char::from,
    ).collect()
}

/// A fresh output file name: ten random alphanumeric characters followed
/// by the fixed `.png` extension.
pub fn generate_random_filename() -> (r: String)
    ensures
        r@.len() == 14,
        forall|i: int| 0 <= i < 10 ==> is_alnum_char(r@[i]),
        r@.subrange(10, 14) =~= ".png"@,
{
    let rand_string: String = random_alphanumeric_token(10);
    let name = rand_string.concat(".png");
    proof {
        reveal_strlit(".png");
        assert(name@.subrange(10, 14) =~= ".png"@);
    }
    name
}

} // verus!

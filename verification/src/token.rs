//! The secure token generator: fixed-length random strings over the
//! 62-symbol alphanumeric alphabet, drawn from a cryptographically secure
//! source, for use as unguessable session secrets.

use vstd::prelude::*;

use crate::text::push_char;

verus! {

/// Whether `b` is the ASCII code of an alphanumeric symbol: a decimal
/// digit, an uppercase letter, or a lowercase letter.
pub open spec fn is_alphanumeric_byte(b: u8) -> bool {
    (0x30 <= b <= 0x39) || (0x41 <= b <= 0x5a) || (0x61 <= b <= 0x7a)
}

/// Whether `c` is one of the 62 alphanumeric symbols.
pub open spec fn is_alphanumeric_char(c: char) -> bool {
    (0x30 <= c as u32 <= 0x39) || (0x41 <= c as u32 <= 0x5a) || (0x61 <= c as u32 <= 0x7a)
}

/// The thread-local random generator of the `rand` crate, opaque here: the
/// contracts state only what holds of every draw from it.
#[verifier::external_type_specification]
#[verifier::external_body]
pub struct ExThreadRng(rand::rngs::ThreadRng);

/// Relies on `rand::thread_rng`: returns a handle to the thread-local,
/// cryptographically secure random generator, seeded by the operating
/// system.
#[verifier::external_body]
fn fresh_rng() -> rand::rngs::ThreadRng {
    rand::thread_rng()
}

/// Relies on `rand::Rng::sample` with the `Alphanumeric` distribution:
/// returns a byte drawn uniformly from the 62 ASCII codes of 0-9, A-Z and
/// a-z. Nothing more can be promised of a random draw.
#[verifier::external_body]
fn sample_alphanumeric(rng: &mut rand::rngs::ThreadRng) -> (b: u8)
    ensures
        is_alphanumeric_byte(b),
{
    rand::Rng::sample(rng, rand::distributions::Alphanumeric)
}

/// Generate a cryptographically-secure, random alphanumeric value.
///
/// The result has exactly `len` characters, each one of the 62 alphanumeric
/// symbols; a length of 0 yields the empty string. Each call draws fresh
/// randomness, so no two calls are related beyond these guarantees.
pub fn rand_alphanumeric(len: usize) -> (s: String)
    ensures
        s@.len() == len,
        forall|i: int| 0 <= i < len ==> is_alphanumeric_char(#[trigger] s@[i]),
{
    let mut rng = fresh_rng();
    let mut s = String::new();
    let mut i: usize = 0;
    while i < len
        invariant
            i <= len,
            s@.len() == i,
            forall|j: int| 0 <= j < i ==> is_alphanumeric_char(#[trigger] s@[j]),
        decreases len - i,
    {
        let b = sample_alphanumeric(&mut rng);
        push_char(&mut s, b as char);
        i = i + 1;
    }
    s
}

} // verus!

//! Names for semaphores that must live in the system-wide namespace.

use vstd::prelude::*;

verus! {

/// How many characters a generated semaphore name holds. Chosen well below
/// the shortest name limit among the systems that need named semaphores.
pub const SEM_NAME_MAX: usize = 28;

/// An ASCII letter or digit.
pub open spec fn is_name_char(c: u8) -> bool {
    (0x41 <= c <= 0x5a) || (0x61 <= c <= 0x7a) || (0x30 <= c <= 0x39)
}

/// Relies on rand's `Alphanumeric` distribution, drawn from `thread_rng`:
/// each draw is one of the 62 ASCII letters and digits.
#[verifier::external_body]
fn random_alphanumeric() -> (c: u8)
    ensures
        is_name_char(c),
{
    rand::Rng::sample(&mut rand::thread_rng(), rand::distributions::Alphanumeric)
}

/// A fresh random name for a semaphore that has to live in the system-wide
/// namespace: `SEM_NAME_MAX` ASCII letters and digits, so printable and free
/// of NUL bytes.
pub fn random_name() -> (name: Vec<u8>)
    ensures
        name@.len() == SEM_NAME_MAX,
        forall|i: int| 0 <= i < name@.len() ==> is_name_char(#[trigger] name@[i]),
{
    let mut name: Vec<u8> = Vec::with_capacity(SEM_NAME_MAX);
    while name.len() < SEM_NAME_MAX
        invariant
            name@.len() <= SEM_NAME_MAX,
            forall|i: int| 0 <= i < name@.len() ==> is_name_char(#[trigger] name@[i]),
        decreases SEM_NAME_MAX - name@.len(),
    {
        let c = random_alphanumeric();
        name.push(c);
    }
    name
}

} // verus!

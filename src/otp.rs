use crate::flags::Flags;
use rand::Rng;
use vstd::prelude::*;

verus! {

/// Error returned when a password of length zero is asked for.
pub const ERR_ZERO_LENGTH: &'static str = "Length is 0.";

/// Error returned when no character class is enabled.
pub const ERR_ALL_FALSE_FLAGS: &'static str = "All flags are false. Need at least one option true.";

/// Relies on rand's `thread_rng().gen_range(0..bound)`: a value in `[0, bound)`,
/// drawn anew on every call. `gen_range` panics on an empty range, hence the
/// bound must be positive.
#[verifier::external_body]
fn random_index(bound: usize) -> (r: usize)
    requires
        bound > 0,
    ensures
        r < bound,
{
    rand::thread_rng().gen_range(0..bound)
}

/// The password made of the characters of `pool` at the given positions, in order.
pub fn password_from_indices(pool: &str, indices: &[usize]) -> (r: String)
    requires
        forall|i: int| 0 <= i < indices@.len() ==> (#[trigger] indices@[i]) < pool@.len(),
    ensures
        r@ == indices@.map_values(|k: usize| pool@[k as int]),
{
    let pool_length = pool.unicode_len();
    let mut password = String::new();
    let mut i: usize = 0;
    while i < indices.len()
        invariant
            i <= indices@.len(),
            pool_length == pool@.len(),
            forall|j: int| 0 <= j < indices@.len() ==> (#[trigger] indices@[j]) < pool@.len(),
            password@ == indices@.take(i as int).map_values(|k: usize| pool@[k as int]),
        decreases indices@.len() - i,
    {
        let k = indices[i];
        let one = pool.substring_char(k, k + 1);
        password.append(one);
        proof {
            assert(indices@.take(i + 1) == indices@.take(i as int).push(k));
            assert(one@ =~= seq![pool@[k as int]]);
            assert(password@ =~= indices@.take(i + 1).map_values(|k: usize| pool@[k as int]));
        }
        i = i + 1;
    }
    proof {
        assert(indices@.take(indices@.len() as int) =~= indices@);
    }
    password
}

/// Returns one time password (OTP) as per given flags.
///
/// A zero length is refused first, then flags that enable no class. Otherwise
/// each of the `length` characters is drawn independently and uniformly from
/// the pool of the enabled classes.
pub fn generate(length: usize, flags: &Flags) -> (r: Result<String, &'static str>)
    ensures
        length == 0 ==> r == Err::<String, &'static str>(ERR_ZERO_LENGTH),
        length > 0 && !flags.any_enabled() ==> r == Err::<String, &'static str>(
            ERR_ALL_FALSE_FLAGS,
        ),
        length > 0 && flags.any_enabled() ==> r is Ok,
        r is Ok ==> r->Ok_0@.len() == length && forall|i: int|
            0 <= i < length ==> flags.pool().contains(#[trigger] r->Ok_0@[i]),
{
    if length == 0 {
        return Err(ERR_ZERO_LENGTH);
    }
    if *flags == Flags::default() {
        return Err(ERR_ALL_FALSE_FLAGS);
    }
    let allowed_chars = flags.allowed_chars();
    let pool = allowed_chars.as_str();
    let pool_length = pool.unicode_len();
    proof {
        crate::flags::lemma_pool_empty_iff_none_enabled(*flags);
    }
    let mut indices: Vec<usize> = Vec::new();
    let mut n: usize = 0;
    while n < length
        invariant
            n <= length,
            pool_length == pool@.len(),
            pool_length > 0,
            indices@.len() == n,
            forall|j: int| 0 <= j < indices@.len() ==> (#[trigger] indices@[j]) < pool@.len(),
        decreases length - n,
    {
        indices.push(random_index(pool_length));
        n = n + 1;
    }
    let password = password_from_indices(pool, indices.as_slice());
    proof {
        assert forall|i: int| 0 <= i < length implies flags.pool().contains(
            #[trigger] password@[i],
        ) by {
            assert(pool@[indices@[i] as int] == password@[i]);
        }
    }
    Ok(password)
}

} // verus!

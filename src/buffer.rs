use vstd::prelude::*;
use crate::error::{Error, SoundResult};

verus! {

/// How many leading samples a buffer operation of length `len` covers, given
/// what the timer or progress cursor reported: all on success, the completed
/// ones on a boundary, none on any other error.
pub open spec fn covered(len: nat, r: SoundResult<()>) -> nat {
    match r {
        Ok(()) => len,
        Err(Error::ItemsCompleted(k)) => if (k as nat) < len { k as nat } else { len },
        Err(_) => 0,
    }
}

/// `new` is `old` with its first `n` samples multiplied by `factor` through
/// `product`, and the rest untouched.
pub open spec fn scaled_by<T, F: Fn(T, T) -> T>(product: F, old: Seq<T>, new: Seq<T>, n: nat, factor: T) -> bool {
    &&& new.len() == old.len()
    &&& forall|i: int| 0 <= i < n ==> #[trigger] product.ensures((old[i], factor), new[i])
    &&& forall|i: int| n <= i < old.len() ==> new[i] == old[i]
}

/// `new` is `old` with each of its first `factors.len()` samples multiplied
/// by the factor of the same index, and the rest untouched.
pub open spec fn scaled_each<T, F: Fn(T, T) -> T>(product: F, old: Seq<T>, new: Seq<T>, factors: Seq<T>) -> bool {
    &&& new.len() == old.len()
    &&& forall|i: int| 0 <= i < factors.len() ==> #[trigger] product.ensures((old[i], factors[i]), new[i])
    &&& forall|i: int| factors.len() <= i < old.len() ==> new[i] == old[i]
}

/// A rhythmic call needs one tempo value per sample.
pub fn check_buffer_sizes(tempo_len: usize, samples_len: usize) -> (r: SoundResult<()>)
    ensures
        r == (if tempo_len == samples_len { Ok::<(), Error>(()) } else { Err(Error::BufferSize) }),
{
    if tempo_len != samples_len {
        Err(Error::BufferSize)
    } else {
        Ok(())
    }
}

/// The number of leading samples of a buffer of length `len` that an
/// operation reporting `r` has processed.
pub fn covered_count(len: usize, r: &SoundResult<()>) -> (n: usize)
    ensures
        n as nat == covered(len as nat, *r),
        n <= len,
{
    match r {
        Ok(()) => len,
        Err(Error::ItemsCompleted(k)) => if *k < len { *k } else { len },
        Err(_) => 0,
    }
}

/// Multiplies the first `n` samples by `factor`.
pub fn scale_prefix<T: Copy, F: Fn(T, T) -> T>(samples: &mut Vec<T>, n: usize, factor: T, product: &F)
    requires
        n <= old(samples).len(),
        forall|x: T| product.requires((x, factor)),
    ensures
        scaled_by(*product, old(samples)@, final(samples)@, n as nat, factor),
{
    let mut i: usize = 0;
    while i < n
        invariant
            n <= samples.len(),
            i <= n,
            forall|x: T| product.requires((x, factor)),
            samples@.len() == old(samples)@.len(),
            forall|j: int| 0 <= j < i ==> #[trigger] product.ensures((old(samples)@[j], factor), samples@[j]),
            forall|j: int| i <= j < samples@.len() ==> samples@[j] == old(samples)@[j],
        decreases n - i,
    {
        let v = product(samples[i], factor);
        samples.set(i, v);
        i = i + 1;
    }
}

/// Multiplies each leading sample by the factor of the same index; there are
/// at most as many factors as samples.
pub fn scale_each<T: Copy, F: Fn(T, T) -> T>(samples: &mut Vec<T>, factors: &Vec<T>, product: &F)
    requires
        factors.len() <= old(samples).len(),
        forall|x: T, y: T| product.requires((x, y)),
    ensures
        scaled_each(*product, old(samples)@, final(samples)@, factors@),
{
    let mut i: usize = 0;
    while i < factors.len()
        invariant
            factors.len() <= samples.len(),
            i <= factors.len(),
            forall|x: T, y: T| product.requires((x, y)),
            samples@.len() == old(samples)@.len(),
            forall|j: int| 0 <= j < i ==> #[trigger] product.ensures((old(samples)@[j], factors@[j]), samples@[j]),
            forall|j: int| i <= j < samples@.len() ==> samples@[j] == old(samples)@[j],
        decreases factors.len() - i,
    {
        let v = product(samples[i], factors[i]);
        samples.set(i, v);
        i = i + 1;
    }
}

/// Writes `value` into every element.
pub fn fill<T: Copy>(result: &mut Vec<T>, value: T)
    ensures
        final(result)@.len() == old(result)@.len(),
        forall|i: int| 0 <= i < final(result)@.len() ==> final(result)@[i] == value,
{
    let mut i: usize = 0;
    while i < result.len()
        invariant
            i <= result.len(),
            result@.len() == old(result)@.len(),
            forall|j: int| 0 <= j < i ==> result@[j] == value,
        decreases result.len() - i,
    {
        result.set(i, value);
        i = i + 1;
    }
}

} // verus!

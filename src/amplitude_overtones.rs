use vstd::prelude::*;
use crate::amplitude::{decay_prefix, decay_steps};
use crate::buffer::{fill, scale_prefix, scaled_by, scaled_each};
use crate::error::{Error, SoundResult};

verus! {

/// `sums` is the running total of `items` from `zero`: `sums[j + 1]` is
/// `sums[j] + items[j]`, as `plus` computes it.
pub open spec fn sum_steps<T, A: Fn(T, T) -> T>(plus: A, zero: T, items: Seq<T>, sums: Seq<T>) -> bool {
    &&& sums.len() == items.len() + 1
    &&& sums[0] == zero
    &&& forall|j: int| 0 <= j < items.len() ==> #[trigger] plus.ensures((sums[j], items[j]), sums[j + 1])
}

/// The number of overtone amplitudes that a constructor reads: one for the
/// fundamental and one per overtone, as far as they are given.
pub open spec fn retained(overtone_count: usize, given: nat) -> nat {
    if given < overtone_count + 1 { given } else { (overtone_count + 1) as nat }
}

/// `values` holds `overtone_count + 1` slots: the first `retained` given
/// amplitudes, each divided by `sum`, and `zero` in the rest.
pub open spec fn normalized<T, D: Fn(T, T) -> T>(
    divide: D,
    overtone_count: usize,
    zero: T,
    given: Seq<T>,
    sum: T,
    values: Seq<T>,
) -> bool {
    &&& values.len() == overtone_count + 1
    &&& forall|i: int| 0 <= i < retained(overtone_count, given.len()) ==> #[trigger] divide.ensures((given[i], sum), values[i])
    &&& forall|i: int| retained(overtone_count, given.len()) <= i < values.len() ==> values[i] == zero
}

/// What a constructor's amplitude check finds: `Ok` carries the sum of the
/// retained amplitudes.
pub open spec fn normalize_outcome<T, P: Fn(T) -> bool, A: Fn(T, T) -> T, Z: Fn(T) -> bool>(
    is_negative: P,
    plus: A,
    is_zero: Z,
    zero: T,
    retained_items: Seq<T>,
    r: SoundResult<T>,
) -> bool {
    match r {
        Ok(sum) => {
            &&& forall|i: int| 0 <= i < retained_items.len() ==> #[trigger] is_negative.ensures((retained_items[i],), false)
            &&& exists|sums: Seq<T>| #[trigger] sum_steps(plus, zero, retained_items, sums) && sums.last() == sum
            &&& is_zero.ensures((sum,), false)
        },
        Err(e) => {
            &&& e == Error::AmplitudeInvalid
            &&& (exists|i: int| 0 <= i < retained_items.len() && #[trigger] is_negative.ensures((retained_items[i],), true))
                || exists|sums: Seq<T>| #[trigger] sum_steps(plus, zero, retained_items, sums) && is_zero.ensures((sums.last(),), true)
        },
    }
}

/// A negative amplitude among those read is refused: where `is_negative`
/// answers each value one way, an outcome that names entry `i` negative is
/// an error.
pub proof fn lemma_negative_refused<T, P: Fn(T) -> bool, A: Fn(T, T) -> T, Z: Fn(T) -> bool>(
    is_negative: P,
    plus: A,
    is_zero: Z,
    zero: T,
    items: Seq<T>,
    r: SoundResult<T>,
    i: int,
)
    requires
        normalize_outcome(is_negative, plus, is_zero, zero, items, r),
        0 <= i < items.len(),
        is_negative.ensures((items[i],), true),
        forall|x: T| !(#[trigger] is_negative.ensures((x,), true) && is_negative.ensures((x,), false)),
    ensures
        r == Err::<T, Error>(Error::AmplitudeInvalid),
{
    if r is Ok {
        assert(is_negative.ensures((items[i],), false));
    }
}

/// Amplitudes that are all zero are refused: where `zero_like` holds of
/// `zero` and of every amplitude read, is kept by `plus`, and rules out a
/// "not zero" answer of `is_zero`, the outcome is an error.
pub proof fn lemma_all_zero_refused<T, P: Fn(T) -> bool, A: Fn(T, T) -> T, Z: Fn(T) -> bool>(
    is_negative: P,
    plus: A,
    is_zero: Z,
    zero: T,
    items: Seq<T>,
    r: SoundResult<T>,
    zero_like: spec_fn(T) -> bool,
)
    requires
        normalize_outcome(is_negative, plus, is_zero, zero, items, r),
        zero_like(zero),
        forall|i: int| 0 <= i < items.len() ==> #[trigger] zero_like(items[i]),
        forall|a: T, b: T, c: T| #[trigger] plus.ensures((a, b), c) && zero_like(a) && zero_like(b) ==> zero_like(c),
        forall|x: T| #[trigger] zero_like(x) ==> !is_zero.ensures((x,), false),
    ensures
        r == Err::<T, Error>(Error::AmplitudeInvalid),
{
    if r is Ok {
        let sums = choose|sums: Seq<T>| #[trigger] sum_steps(plus, zero, items, sums) && sums.last() == r->Ok_0;
        assert forall|k: int| 0 <= k < sums.len() implies #[trigger] zero_like(sums[k]) by {
            lemma_running_zero(plus, zero, items, sums, zero_like, k);
        }
        assert(zero_like(sums[sums.len() - 1]));
    }
}

proof fn lemma_running_zero<T, A: Fn(T, T) -> T>(
    plus: A,
    zero: T,
    items: Seq<T>,
    sums: Seq<T>,
    zero_like: spec_fn(T) -> bool,
    k: int,
)
    requires
        sum_steps(plus, zero, items, sums),
        zero_like(zero),
        forall|i: int| 0 <= i < items.len() ==> #[trigger] zero_like(items[i]),
        forall|a: T, b: T, c: T| #[trigger] plus.ensures((a, b), c) && zero_like(a) && zero_like(b) ==> zero_like(c),
        0 <= k < sums.len(),
    ensures
        zero_like(sums[k]),
    decreases k,
{
    if k > 0 {
        lemma_running_zero(plus, zero, items, sums, zero_like, k - 1);
        let j: int = k - 1;
        assert(plus.ensures((sums[j], items[j]), sums[j + 1]));
        assert(zero_like(items[j]));
    }
}

/// Checks the first `n` amplitudes (none negative, a sum that is not zero)
/// and returns their sum.
fn checked_sum<T: Copy, P: Fn(T) -> bool, A: Fn(T, T) -> T, Z: Fn(T) -> bool>(
    amplitude: &Vec<T>,
    n: usize,
    zero: T,
    is_negative: &P,
    plus: &A,
    is_zero: &Z,
) -> (r: SoundResult<T>)
    requires
        n <= amplitude@.len(),
        forall|x: T| is_negative.requires((x,)),
        forall|x: T, y: T| plus.requires((x, y)),
        forall|x: T| is_zero.requires((x,)),
    ensures
        normalize_outcome(*is_negative, *plus, *is_zero, zero, amplitude@.subrange(0, n as int), r),
{
    let ghost items = amplitude@.subrange(0, n as int);
    let mut sum = zero;
    let ghost mut sums: Seq<T> = seq![zero];
    let mut i: usize = 0;
    while i < n
        invariant
            n <= amplitude@.len(),
            items == amplitude@.subrange(0, n as int),
            i <= n,
            forall|x: T| is_negative.requires((x,)),
            forall|x: T, y: T| plus.requires((x, y)),
            sum_steps(*plus, zero, items.subrange(0, i as int), sums),
            sum == sums.last(),
            forall|j: int| 0 <= j < i ==> #[trigger] is_negative.ensures((items[j],), false),
        decreases n - i,
    {
        let a = amplitude[i];
        if is_negative(a) {
            assert(is_negative.ensures((items[i as int],), true));
            return Err(Error::AmplitudeInvalid);
        }
        let next = plus(sum, a);
        proof {
            sums = sums.push(next);
            assert(items.subrange(0, i + 1) =~= items.subrange(0, i as int).push(a));
        }
        sum = next;
        i = i + 1;
    }
    assert(items.subrange(0, n as int) =~= items);
    assert(sum_steps(*plus, zero, items, sums));
    if is_zero(sum) {
        return Err(Error::AmplitudeInvalid);
    }
    Ok(sum)
}

/// The normalized amplitudes: `overtone_count + 1` slots, the retained given
/// amplitudes divided by `sum`, zero in the rest.
fn normalize_into<T: Copy, D: Fn(T, T) -> T>(
    overtone_count: usize,
    amplitude: &Vec<T>,
    zero: T,
    sum: T,
    divide: &D,
) -> (values: Vec<T>)
    requires
        overtone_count < usize::MAX,
        forall|x: T, y: T| divide.requires((x, y)),
    ensures
        normalized(*divide, overtone_count, zero, amplitude@, sum, values@),
{
    let slots: usize = overtone_count + 1;
    let mut values: Vec<T> = Vec::new();
    let mut i: usize = 0;
    while i < slots
        invariant
            slots == overtone_count + 1,
            i <= slots,
            values@.len() == i,
            forall|x: T, y: T| divide.requires((x, y)),
            forall|j: int| 0 <= j < i && j < amplitude@.len() ==> #[trigger] divide.ensures((amplitude@[j], sum), values@[j]),
            forall|j: int| amplitude@.len() <= j < i ==> values@[j] == zero,
        decreases slots - i,
    {
        if i < amplitude.len() {
            let v = divide(amplitude[i], sum);
            values.push(v);
        } else {
            values.push(zero);
        }
        i = i + 1;
    }
    values
}

/// `after` holds the given amplitudes in its first slots and `zero` in the rest.
pub open spec fn joined<T>(zero: T, given: Seq<T>, before: Seq<T>, after: Seq<T>) -> bool {
    &&& after.len() == before.len()
    &&& forall|i: int| 0 <= i < given.len() ==> after[i] == given[i]
    &&& forall|i: int| given.len() <= i < after.len() ==> after[i] == zero
}

/// What a join reports on `given` for a generator of `slots` slots.
pub open spec fn join_outcome<T, R: Fn(T) -> bool, A: Fn(T, T) -> T, S: Fn(T) -> bool>(
    in_range: R,
    plus: A,
    sum_ok: S,
    zero: T,
    slots: nat,
    given: Seq<T>,
    r: SoundResult<()>,
) -> bool {
    match r {
        Ok(()) => {
            &&& given.len() <= slots
            &&& forall|i: int| 0 <= i < given.len() ==> #[trigger] in_range.ensures((given[i],), true)
            &&& exists|sums: Seq<T>| #[trigger] sum_steps(plus, zero, given, sums) && sum_ok.ensures((sums.last(),), true)
        },
        Err(Error::OvertoneCountInvalid) => given.len() > slots,
        Err(Error::AmplitudeInvalid) => {
            &&& given.len() <= slots
            &&& (exists|i: int| 0 <= i < given.len() && #[trigger] in_range.ensures((given[i],), false))
                || exists|sums: Seq<T>| #[trigger] sum_steps(plus, zero, given, sums) && sum_ok.ensures((sums.last(),), false)
        },
        Err(_) => false,
    }
}

/// Checks and copies joined amplitudes into `current`: no more of them than
/// slots, each accepted by `in_range`, and a sum that `sum_ok` accepts (above
/// zero, at most one). The slots past the given ones become `zero`.
fn join_amplitudes<T: Copy, R: Fn(T) -> bool, A: Fn(T, T) -> T, S: Fn(T) -> bool>(
    current: &mut Vec<T>,
    given: &Vec<T>,
    zero: T,
    in_range: &R,
    plus: &A,
    sum_ok: &S,
) -> (r: SoundResult<()>)
    requires
        forall|x: T| in_range.requires((x,)),
        forall|x: T, y: T| plus.requires((x, y)),
        forall|x: T| sum_ok.requires((x,)),
    ensures
        join_outcome(*in_range, *plus, *sum_ok, zero, old(current)@.len(), given@, r),
        r is Ok ==> joined(zero, given@, old(current)@, final(current)@),
        r is Err ==> final(current)@ == old(current)@,
{
    if given.len() > current.len() {
        return Err(Error::OvertoneCountInvalid);
    }
    let mut sum = zero;
    let ghost mut sums: Seq<T> = seq![zero];
    let mut i: usize = 0;
    while i < given.len()
        invariant
            i <= given@.len(),
            given@.len() <= current@.len(),
            current@ == old(current)@,
            forall|x: T| in_range.requires((x,)),
            forall|x: T, y: T| plus.requires((x, y)),
            sum_steps(*plus, zero, given@.subrange(0, i as int), sums),
            sum == sums.last(),
            forall|j: int| 0 <= j < i ==> #[trigger] in_range.ensures((given@[j],), true),
        decreases given.len() - i,
    {
        let a = given[i];
        if !in_range(a) {
            assert(in_range.ensures((given@[i as int],), false));
            return Err(Error::AmplitudeInvalid);
        }
        let next = plus(sum, a);
        proof {
            sums = sums.push(next);
            assert(given@.subrange(0, i + 1) =~= given@.subrange(0, i as int).push(a));
        }
        sum = next;
        i = i + 1;
    }
    assert(given@.subrange(0, given@.len() as int) =~= given@);
    assert(sum_steps(*plus, zero, given@, sums));
    if !sum_ok(sum) {
        return Err(Error::AmplitudeInvalid);
    }
    let mut k: usize = 0;
    while k < current.len()
        invariant
            given@.len() <= current@.len(),
            current@.len() == old(current)@.len(),
            k <= current@.len(),
            forall|j: int| 0 <= j < k && j < given@.len() ==> current@[j] == given@[j],
            forall|j: int| given@.len() <= j < k ==> current@[j] == zero,
        decreases current.len() - k,
    {
        if k < given.len() {
            current.set(k, given[k]);
        } else {
            current.set(k, zero);
        }
        k = k + 1;
    }
    Ok(())
}

/// Amplitudes that do not change with time, one per overtone; index 0 is the
/// fundamental.
#[derive(Debug, Clone)]
pub struct AmplitudeConstOvertones<T> {
    amplitude: Vec<T>,
}

impl<T: Copy> AmplitudeConstOvertones<T> {
    /// The amplitude of each overtone.
    pub closed spec fn amplitude_spec(&self) -> Seq<T> {
        self.amplitude@
    }

    /// Normalizes the first `overtone_count + 1` given amplitudes so that
    /// their sum is one; missing ones are `zero`. Fails with
    /// `AmplitudeInvalid` where one of them is negative or their sum is zero.
    pub fn new<P: Fn(T) -> bool, A: Fn(T, T) -> T, Z: Fn(T) -> bool, D: Fn(T, T) -> T>(
        overtone_count: usize,
        amplitude: &Vec<T>,
        zero: T,
        is_negative: &P,
        plus: &A,
        is_zero: &Z,
        divide: &D,
    ) -> (r: SoundResult<Self>)
        requires
            overtone_count < usize::MAX,
            forall|x: T| is_negative.requires((x,)),
            forall|x: T, y: T| plus.requires((x, y)),
            forall|x: T| is_zero.requires((x,)),
            forall|x: T, y: T| divide.requires((x, y)),
        ensures
            r is Err ==> r == Err::<Self, Error>(Error::AmplitudeInvalid),
            exists|c: SoundResult<T>|
                #[trigger] normalize_outcome(*is_negative, *plus, *is_zero, zero,
                    amplitude@.subrange(0, retained(overtone_count, amplitude@.len()) as int), c)
                && (c is Err <==> r is Err)
                && (c is Ok ==> normalized(*divide, overtone_count, zero, amplitude@, c->Ok_0, r->Ok_0.amplitude_spec())),
    {
        let n: usize = if amplitude.len() < overtone_count + 1 { amplitude.len() } else { overtone_count + 1 };
        let c = checked_sum(amplitude, n, zero, is_negative, plus, is_zero);
        assert(n as nat == retained(overtone_count, amplitude@.len()));
        assert(normalize_outcome(*is_negative, *plus, *is_zero, zero,
            amplitude@.subrange(0, retained(overtone_count, amplitude@.len()) as int), c));
        match c {
            Ok(sum) => {
                let values = normalize_into(overtone_count, amplitude, zero, sum, divide);
                Ok(AmplitudeConstOvertones { amplitude: values })
            },
            Err(e) => Err(e),
        }
    }

    /// Writes the amplitude of `overtone` into every element of `result`;
    /// an overtone that the generator does not hold gives `zero`.
    pub fn get(&self, overtone: usize, result: &mut Vec<T>, zero: T) -> (r: SoundResult<()>)
        ensures
            r is Ok,
            final(result)@.len() == old(result)@.len(),
            forall|i: int| 0 <= i < final(result)@.len() ==> final(result)@[i] == (
                if overtone < self.amplitude_spec().len() { self.amplitude_spec()[overtone as int] } else { zero }),
    {
        if overtone >= self.amplitude.len() {
            fill(result, zero);
        } else {
            fill(result, self.amplitude[overtone]);
        }
        Ok(())
    }

    /// Multiplies every sample by the amplitude of `overtone`; an overtone
    /// that the generator does not hold sets every sample to `zero`.
    pub fn apply<F: Fn(T, T) -> T>(&self, overtone: usize, samples: &mut Vec<T>, zero: T, product: &F) -> (r: SoundResult<()>)
        requires
            forall|x: T, y: T| product.requires((x, y)),
        ensures
            r is Ok,
            final(samples)@.len() == old(samples)@.len(),
            overtone >= self.amplitude_spec().len() ==> forall|i: int| 0 <= i < final(samples)@.len() ==> final(samples)@[i] == zero,
            overtone < self.amplitude_spec().len() ==> scaled_by(*product, old(samples)@, final(samples)@,
                old(samples)@.len(), self.amplitude_spec()[overtone as int]),
    {
        if overtone >= self.amplitude.len() {
            fill(samples, zero);
        } else {
            let n = samples.len();
            scale_prefix(samples, n, self.amplitude[overtone], product);
        }
        Ok(())
    }

    /// Nothing changes with time, so there is nothing to reset.
    pub fn restart(&self) {
    }

    /// Sets the amplitudes of the first overtones from `amplitude` and the
    /// rest to `zero`. Fails with `OvertoneCountInvalid` where more are given
    /// than the generator holds, and with `AmplitudeInvalid` where one is out
    /// of range or their sum is zero or above one (as `sum_ok` decides).
    pub fn set_amplitude_start<R: Fn(T) -> bool, A: Fn(T, T) -> T, S: Fn(T) -> bool>(
        &mut self,
        amplitude: &Vec<T>,
        zero: T,
        in_range: &R,
        plus: &A,
        sum_ok: &S,
    ) -> (r: SoundResult<()>)
        requires
            forall|x: T| in_range.requires((x,)),
            forall|x: T, y: T| plus.requires((x, y)),
            forall|x: T| sum_ok.requires((x,)),
        ensures
            join_outcome(*in_range, *plus, *sum_ok, zero, old(self).amplitude_spec().len(), amplitude@, r),
            r is Ok ==> joined(zero, amplitude@, old(self).amplitude_spec(), final(self).amplitude_spec()),
            r is Err ==> final(self).amplitude_spec() == old(self).amplitude_spec(),
    {
        join_amplitudes(&mut self.amplitude, amplitude, zero, in_range, plus, sum_ok)
    }
}

/// Runs the decay over every element of `result`: before each, the amplitude
/// is multiplied by `multiplier`, and the element is set to it. Returns the
/// amplitude after the last step, with the steps.
fn decay_fill<T: Copy, F: Fn(T, T) -> T>(
    result: &mut Vec<T>,
    start: T,
    multiplier: T,
    product: &F,
) -> (res: (T, Ghost<Seq<T>>))
    requires
        forall|x: T, y: T| product.requires((x, y)),
    ensures
        decay_steps(*product, start, multiplier, res.1@),
        res.1@.len() == old(result)@.len() + 1,
        res.0 == res.1@.last(),
        final(result)@ == res.1@.drop_first(),
{
    let mut amplitude = start;
    let ghost mut steps: Seq<T> = seq![start];
    let mut i: usize = 0;
    while i < result.len()
        invariant
            i <= result.len(),
            forall|x: T, y: T| product.requires((x, y)),
            result@.len() == old(result)@.len(),
            decay_steps(*product, start, multiplier, steps),
            steps.len() == i + 1,
            amplitude == steps[i as int],
            forall|j: int| 0 <= j < i ==> result@[j] == steps[j + 1],
        decreases result.len() - i,
    {
        let next = product(amplitude, multiplier);
        proof {
            steps = steps.push(next);
        }
        amplitude = next;
        result.set(i, amplitude);
        i = i + 1;
    }
    assert(result@ =~= steps.drop_first());
    (amplitude, Ghost(steps))
}

/// The per-overtone decay multipliers: `overtone_count + 1` slots, the first
/// ones from the given half-lives through `to_multiplier`, `zero` in the rest.
pub open spec fn multipliers_from<T, M: Fn(T) -> T>(
    to_multiplier: M,
    overtone_count: usize,
    zero: T,
    half_life: Seq<T>,
    values: Seq<T>,
) -> bool {
    &&& values.len() == overtone_count + 1
    &&& forall|i: int| 0 <= i < values.len() && i < half_life.len() ==> #[trigger] to_multiplier.ensures((half_life[i],), values[i])
    &&& forall|i: int| half_life.len() <= i < values.len() ==> values[i] == zero
}

fn check_half_lives<T: Copy, Q: Fn(T) -> bool>(half_life: &Vec<T>, positive: &Q) -> (r: SoundResult<()>)
    requires
        forall|x: T| positive.requires((x,)),
    ensures
        r is Ok ==> forall|i: int| 0 <= i < half_life@.len() ==> #[trigger] positive.ensures((half_life@[i],), true),
        r is Err ==> r == Err::<(), Error>(Error::AmplitudeRateInvalid)
            && exists|i: int| 0 <= i < half_life@.len() && #[trigger] positive.ensures((half_life@[i],), false),
{
    let mut i: usize = 0;
    while i < half_life.len()
        invariant
            i <= half_life@.len(),
            forall|x: T| positive.requires((x,)),
            forall|j: int| 0 <= j < i ==> #[trigger] positive.ensures((half_life@[j],), true),
        decreases half_life.len() - i,
    {
        if !positive(half_life[i]) {
            assert(positive.ensures((half_life@[i as int],), false));
            return Err(Error::AmplitudeRateInvalid);
        }
        i = i + 1;
    }
    Ok(())
}

fn multipliers_into<T: Copy, M: Fn(T) -> T>(
    overtone_count: usize,
    half_life: &Vec<T>,
    zero: T,
    to_multiplier: &M,
) -> (values: Vec<T>)
    requires
        overtone_count < usize::MAX,
        forall|x: T| to_multiplier.requires((x,)),
    ensures
        multipliers_from(*to_multiplier, overtone_count, zero, half_life@, values@),
{
    let slots: usize = overtone_count + 1;
    let mut values: Vec<T> = Vec::new();
    let mut i: usize = 0;
    while i < slots
        invariant
            slots == overtone_count + 1,
            i <= slots,
            values@.len() == i,
            forall|x: T| to_multiplier.requires((x,)),
            forall|j: int| 0 <= j < i && j < half_life@.len() ==> #[trigger] to_multiplier.ensures((half_life@[j],), values@[j]),
            forall|j: int| half_life@.len() <= j < i ==> values@[j] == zero,
        decreases slots - i,
    {
        if i < half_life.len() {
            let v = to_multiplier(half_life[i]);
            values.push(v);
        } else {
            values.push(zero);
        }
        i = i + 1;
    }
    values
}

/// An element-by-element copy.
fn copy_values<T: Copy>(v: &Vec<T>) -> (r: Vec<T>)
    ensures
        r@ == v@,
{
    let mut r: Vec<T> = Vec::new();
    let mut i: usize = 0;
    while i < v.len()
        invariant
            i <= v@.len(),
            r@ == v@.subrange(0, i as int),
        decreases v.len() - i,
    {
        r.push(v[i]);
        i = i + 1;
    }
    assert(v@.subrange(0, v@.len() as int) =~= v@);
    r
}

/// Exponentially decaying amplitudes, one per overtone, each with its own
/// per-sample multiplier; index 0 is the fundamental.
#[derive(Debug, Clone)]
pub struct AmplitudeDecayExpOvertones<T> {
    amplitude_init: Vec<T>,
    multiplier: Vec<T>,
    amplitude: Vec<T>,
}

impl<T: Copy> AmplitudeDecayExpOvertones<T> {
    /// The amplitudes at the start, which `restart` goes back to.
    pub closed spec fn init_spec(&self) -> Seq<T> {
        self.amplitude_init@
    }

    /// The per-sample multiplier of each overtone.
    pub closed spec fn multiplier_spec(&self) -> Seq<T> {
        self.multiplier@
    }

    /// The current amplitude of each overtone.
    pub closed spec fn amplitude_spec(&self) -> Seq<T> {
        self.amplitude@
    }

    /// The three sequences have one entry per overtone.
    pub open spec fn wf(&self) -> bool {
        &&& self.init_spec().len() == self.amplitude_spec().len()
        &&& self.multiplier_spec().len() == self.amplitude_spec().len()
    }

    /// Normalizes the first `overtone_count + 1` given amplitudes as
    /// `AmplitudeConstOvertones::new` does, then checks that every given
    /// half-life is positive (else `AmplitudeRateInvalid`) and turns each into
    /// its overtone's multiplier; overtones without a half-life get `zero`.
    pub fn new<P, A, Z, D, Q, M>(
        overtone_count: usize,
        amplitude: &Vec<T>,
        half_life: &Vec<T>,
        zero: T,
        is_negative: &P,
        plus: &A,
        is_zero: &Z,
        divide: &D,
        positive: &Q,
        to_multiplier: &M,
    ) -> (r: SoundResult<Self>)
        where
            P: Fn(T) -> bool,
            A: Fn(T, T) -> T,
            Z: Fn(T) -> bool,
            D: Fn(T, T) -> T,
            Q: Fn(T) -> bool,
            M: Fn(T) -> T,
        requires
            overtone_count < usize::MAX,
            forall|x: T| is_negative.requires((x,)),
            forall|x: T, y: T| plus.requires((x, y)),
            forall|x: T| is_zero.requires((x,)),
            forall|x: T, y: T| divide.requires((x, y)),
            forall|x: T| positive.requires((x,)),
            forall|x: T| to_multiplier.requires((x,)),
        ensures
            r is Ok ==> r->Ok_0.wf() && r->Ok_0.amplitude_spec() == r->Ok_0.init_spec(),
            exists|c: SoundResult<T>|
                #[trigger] normalize_outcome(*is_negative, *plus, *is_zero, zero,
                    amplitude@.subrange(0, retained(overtone_count, amplitude@.len()) as int), c)
                && (c is Err <==> r == Err::<Self, Error>(Error::AmplitudeInvalid))
                && (c is Ok && r is Ok ==> normalized(*divide, overtone_count, zero, amplitude@, c->Ok_0, r->Ok_0.init_spec())),
            r is Ok ==> (forall|i: int| 0 <= i < half_life@.len() ==> #[trigger] positive.ensures((half_life@[i],), true))
                && multipliers_from(*to_multiplier, overtone_count, zero, half_life@, r->Ok_0.multiplier_spec()),
            r == Err::<Self, Error>(Error::AmplitudeRateInvalid) ==>
                exists|i: int| 0 <= i < half_life@.len() && #[trigger] positive.ensures((half_life@[i],), false),
            r is Err ==> r == Err::<Self, Error>(Error::AmplitudeInvalid) || r == Err::<Self, Error>(Error::AmplitudeRateInvalid),
    {
        let n: usize = if amplitude.len() < overtone_count + 1 { amplitude.len() } else { overtone_count + 1 };
        let c = checked_sum(amplitude, n, zero, is_negative, plus, is_zero);
        assert(n as nat == retained(overtone_count, amplitude@.len()));
        assert(normalize_outcome(*is_negative, *plus, *is_zero, zero,
            amplitude@.subrange(0, retained(overtone_count, amplitude@.len()) as int), c));
        let sum = match c {
            Ok(sum) => sum,
            Err(e) => return Err(e),
        };
        let init = normalize_into(overtone_count, amplitude, zero, sum, divide);
        check_half_lives(half_life, positive)?;
        let multiplier = multipliers_into(overtone_count, half_life, zero, to_multiplier);
        let current = copy_values(&init);
        Ok(AmplitudeDecayExpOvertones { amplitude_init: init, multiplier, amplitude: current })
    }
}


impl<T: Copy> AmplitudeDecayExpOvertones<T> {
    /// Writes the amplitude of `overtone` into `result`, one decay step per
    /// element; an overtone that the generator does not hold gives `zero`
    /// and changes nothing.
    pub fn get<F: Fn(T, T) -> T>(&mut self, overtone: usize, result: &mut Vec<T>, zero: T, product: &F) -> (r: SoundResult<()>)
        requires
            old(self).wf(),
            forall|x: T, y: T| product.requires((x, y)),
        ensures
            r is Ok,
            final(self).wf(),
            final(self).init_spec() == old(self).init_spec(),
            final(self).multiplier_spec() == old(self).multiplier_spec(),
            final(result)@.len() == old(result)@.len(),
            overtone >= old(self).amplitude_spec().len() ==> final(self).amplitude_spec() == old(self).amplitude_spec()
                && forall|i: int| 0 <= i < final(result)@.len() ==> final(result)@[i] == zero,
            overtone < old(self).amplitude_spec().len() ==> exists|steps: Seq<T>|
                #[trigger] decay_steps(*product, old(self).amplitude_spec()[overtone as int],
                    old(self).multiplier_spec()[overtone as int], steps)
                && steps.len() == old(result)@.len() + 1
                && final(result)@ == steps.drop_first()
                && final(self).amplitude_spec() == old(self).amplitude_spec().update(overtone as int, steps.last()),
    {
        if overtone >= self.amplitude.len() || overtone >= self.multiplier.len() {
            fill(result, zero);
            return Ok(());
        }
        let (end, steps) = decay_fill(result, self.amplitude[overtone], self.multiplier[overtone], product);
        self.amplitude.set(overtone, end);
        assert(decay_steps(*product, old(self).amplitude_spec()[overtone as int],
            old(self).multiplier_spec()[overtone as int], steps@));
        Ok(())
    }

    /// Multiplies every sample by the amplitude of `overtone`, one decay step
    /// per sample; an overtone that the generator does not hold sets every
    /// sample to `zero` and changes nothing.
    pub fn apply<F: Fn(T, T) -> T>(&mut self, overtone: usize, samples: &mut Vec<T>, zero: T, product: &F) -> (r: SoundResult<()>)
        requires
            old(self).wf(),
            forall|x: T, y: T| product.requires((x, y)),
        ensures
            r is Ok,
            final(self).wf(),
            final(self).init_spec() == old(self).init_spec(),
            final(self).multiplier_spec() == old(self).multiplier_spec(),
            final(samples)@.len() == old(samples)@.len(),
            overtone >= old(self).amplitude_spec().len() ==> final(self).amplitude_spec() == old(self).amplitude_spec()
                && forall|i: int| 0 <= i < final(samples)@.len() ==> final(samples)@[i] == zero,
            overtone < old(self).amplitude_spec().len() ==> exists|steps: Seq<T>|
                #[trigger] decay_steps(*product, old(self).amplitude_spec()[overtone as int],
                    old(self).multiplier_spec()[overtone as int], steps)
                && steps.len() == old(samples)@.len() + 1
                && scaled_each(*product, old(samples)@, final(samples)@, steps.drop_first())
                && final(self).amplitude_spec() == old(self).amplitude_spec().update(overtone as int, steps.last()),
    {
        if overtone >= self.amplitude.len() || overtone >= self.multiplier.len() {
            fill(samples, zero);
            return Ok(());
        }
        let n = samples.len();
        let (end, steps) = decay_prefix(samples, n, self.amplitude[overtone], self.multiplier[overtone], product);
        self.amplitude.set(overtone, end);
        assert(decay_steps(*product, old(self).amplitude_spec()[overtone as int],
            old(self).multiplier_spec()[overtone as int], steps@));
        Ok(())
    }

    /// Sets every overtone back to its starting amplitude.
    pub fn restart(&mut self)
        requires
            old(self).wf(),
        ensures
            final(self).wf(),
            final(self).amplitude_spec() == old(self).init_spec(),
            final(self).init_spec() == old(self).init_spec(),
            final(self).multiplier_spec() == old(self).multiplier_spec(),
    {
        self.amplitude = copy_values(&self.amplitude_init);
    }

    /// Sets the current amplitudes of the first overtones from `amplitude`
    /// and the rest to `zero`, with the checks and errors of
    /// `AmplitudeConstOvertones::set_amplitude_start`.
    pub fn set_amplitude_start<R: Fn(T) -> bool, A: Fn(T, T) -> T, S: Fn(T) -> bool>(
        &mut self,
        amplitude: &Vec<T>,
        zero: T,
        in_range: &R,
        plus: &A,
        sum_ok: &S,
    ) -> (r: SoundResult<()>)
        requires
            old(self).wf(),
            forall|x: T| in_range.requires((x,)),
            forall|x: T, y: T| plus.requires((x, y)),
            forall|x: T| sum_ok.requires((x,)),
        ensures
            final(self).wf(),
            final(self).init_spec() == old(self).init_spec(),
            final(self).multiplier_spec() == old(self).multiplier_spec(),
            join_outcome(*in_range, *plus, *sum_ok, zero, old(self).amplitude_spec().len(), amplitude@, r),
            r is Ok ==> joined(zero, amplitude@, old(self).amplitude_spec(), final(self).amplitude_spec()),
            r is Err ==> final(self).amplitude_spec() == old(self).amplitude_spec(),
    {
        join_amplitudes(&mut self.amplitude, amplitude, zero, in_range, plus, sum_ok)
    }
}

} // verus!

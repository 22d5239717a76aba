use vstd::prelude::*;
use crate::buffer::{
    check_buffer_sizes, covered, covered_count, scale_each, scale_prefix, scaled_by, scaled_each,
};
use crate::error::{Error, SoundResult};
use crate::timer::{jump_elapsed, jump_result, Timer};

verus! {

/// Whether a progress cursor runs on time or on tempo; fixed for a generator's lifetime.
#[derive(Debug, Clone, Copy, PartialEq, Eq, Structural)]
pub enum ProgressMode {
    Time,
    Tempo,
}

/// Checks that an amplitude lies in the valid range, as `in_range` decides.
pub fn is_valid_amplitude<T: Copy, R: Fn(T) -> bool>(amplitude: T, in_range: &R) -> (r: SoundResult<()>)
    requires
        in_range.requires((amplitude,)),
    ensures
        r is Ok ==> in_range.ensures((amplitude,), true),
        r is Err ==> in_range.ensures((amplitude,), false) && r == Err::<(), Error>(Error::AmplitudeInvalid),
{
    if in_range(amplitude) {
        Ok(())
    } else {
        Err(Error::AmplitudeInvalid)
    }
}

/// The amplitude steps of an exponential decay: `steps[0]` is `start`, and
/// each next one is the previous multiplied by `multiplier`.
pub open spec fn decay_steps<T, F: Fn(T, T) -> T>(product: F, start: T, multiplier: T, steps: Seq<T>) -> bool {
    &&& steps.len() >= 1
    &&& steps[0] == start
    &&& forall|j: int| 0 <= j < steps.len() - 1 ==> #[trigger] product.ensures((steps[j], multiplier), steps[j + 1])
}

/// Partial completion: a generator whose timer tracks `duration` samples
/// from the start, asked for `duration + extra` samples (`extra > 0`),
/// reports `ItemsCompleted(duration)` and covers exactly the first `duration`
/// samples; `scaled_by` and `scaled_each` leave the others untouched.
pub proof fn lemma_partial_completion(duration: usize, extra: nat)
    requires
        extra > 0,
    ensures
        jump_result(Some(duration), 0, (duration + extra) as nat) == Err::<(), Error>(Error::ItemsCompleted(duration)),
        covered((duration + extra) as nat, jump_result(Some(duration), 0, (duration + extra) as nat)) == duration,
        jump_elapsed(Some(duration), 0, (duration + extra) as nat) == duration,
{
}

/// Decay never raises the amplitude: where each step's result is at most
/// (as `le` orders them) the amplitude it started from, every later step is
/// at most every earlier one.
pub proof fn lemma_decay_never_rises<T, F: Fn(T, T) -> T>(
    product: F,
    le: spec_fn(T, T) -> bool,
    start: T,
    multiplier: T,
    steps: Seq<T>,
)
    requires
        decay_steps(product, start, multiplier, steps),
        forall|a: T, r: T| #[trigger] product.ensures((a, multiplier), r) ==> le(r, a),
        forall|a: T| #[trigger] le(a, a),
        forall|a: T, b: T, c: T| #[trigger] le(a, b) && #[trigger] le(b, c) ==> le(a, c),
    ensures
        forall|i: int, j: int| 0 <= i <= j < steps.len() ==> #[trigger] le(steps[j], steps[i]),
    decreases steps.len(),
{
    if steps.len() > 1 {
        let prefix = steps.drop_last();
        assert(decay_steps(product, start, multiplier, prefix));
        lemma_decay_never_rises(product, le, start, multiplier, prefix);
        let last: int = steps.len() - 1;
        let k: int = last - 1;
        assert(0 <= k < steps.len() - 1);
        assert(product.ensures((steps[k], multiplier), steps[k + 1]));
        assert forall|i: int, j: int| 0 <= i <= j < steps.len() implies #[trigger] le(steps[j], steps[i]) by {
            if j == last && i < last {
                assert(prefix[i] == steps[i]);
                assert(prefix[last - 1] == steps[last - 1]);
                assert(le(steps[last - 1], steps[i]));
                assert(le(steps[last], steps[last - 1]));
            } else if j < last {
                assert(prefix[i] == steps[i] && prefix[j] == steps[j]);
            }
        }
    }
}

/// Constant amplitude.
#[derive(Debug, Clone)]
pub struct AmplitudeConst<T> {
    timer: Timer,
    amplitude: T,
}

impl<T: Copy> AmplitudeConst<T> {
    pub closed spec fn timer_spec(&self) -> Timer {
        self.timer
    }

    pub closed spec fn amplitude_spec(&self) -> T {
        self.amplitude
    }

    pub open spec fn wf(&self) -> bool {
        self.timer_spec().wf()
    }

    /// A generator at full amplitude (`unit`) with a timer without an end.
    pub fn new(unit: T) -> (g: Self)
        ensures
            g.wf(),
            g.amplitude_spec() == unit,
            g.timer_spec() == (Timer { duration: None, elapsed: 0 }),
    {
        AmplitudeConst { timer: Timer::new(), amplitude: unit }
    }

    /// Advances time by the buffer's length and multiplies each sample that
    /// falls before the end of the duration by the amplitude.
    pub fn apply<F: Fn(T, T) -> T>(&mut self, samples: &mut Vec<T>, product: &F) -> (r: SoundResult<()>)
        requires
            old(self).wf(),
            forall|x: T, y: T| product.requires((x, y)),
        ensures
            final(self).wf(),
            r == jump_result(old(self).timer_spec().duration, old(self).timer_spec().elapsed, old(samples)@.len()),
            final(self).timer_spec().duration == old(self).timer_spec().duration,
            final(self).timer_spec().elapsed == jump_elapsed(
                old(self).timer_spec().duration, old(self).timer_spec().elapsed, old(samples)@.len()),
            final(self).amplitude_spec() == old(self).amplitude_spec(),
            scaled_by(*product, old(samples)@, final(samples)@, covered(old(samples)@.len(), r), old(self).amplitude_spec()),
    {
        let r = self.timer.jump_by_time(samples.len());
        let n = covered_count(samples.len(), &r);
        scale_prefix(samples, n, self.amplitude, product);
        r
    }

    /// Like `apply`, driven by tempo: `timer_result` is what the tempo timer
    /// reported for this buffer. Mismatched buffer lengths change nothing.
    pub fn apply_rhythmic<F: Fn(T, T) -> T>(
        &self,
        tempo: &Vec<T>,
        samples: &mut Vec<T>,
        timer_result: SoundResult<()>,
        product: &F,
    ) -> (r: SoundResult<()>)
        requires
            forall|x: T, y: T| product.requires((x, y)),
        ensures
            tempo@.len() != old(samples)@.len() ==> r == Err::<(), Error>(Error::BufferSize)
                && final(samples)@ == old(samples)@,
            tempo@.len() == old(samples)@.len() ==> r == timer_result
                && scaled_by(*product, old(samples)@, final(samples)@, covered(old(samples)@.len(), r), self.amplitude_spec()),
    {
        check_buffer_sizes(tempo.len(), samples.len())?;
        let n = covered_count(samples.len(), &timer_result);
        scale_prefix(samples, n, self.amplitude, product);
        timer_result
    }

    /// Sets the duration in samples (`None`: no end), keeping the amplitude.
    pub fn set_timing(&mut self, duration: Option<usize>) -> (r: SoundResult<()>)
        ensures
            final(self).wf(),
            r is Ok,
            final(self).timer_spec().duration == duration,
            final(self).amplitude_spec() == old(self).amplitude_spec(),
    {
        self.timer.set(duration);
        Ok(())
    }

    /// Sets the amplitude, if `in_range` accepts it, and restarts time.
    pub fn set_amplitude_start<R: Fn(T) -> bool>(&mut self, amplitude: T, in_range: &R) -> (r: SoundResult<()>)
        requires
            old(self).wf(),
            in_range.requires((amplitude,)),
        ensures
            final(self).wf(),
            r is Ok ==> in_range.ensures((amplitude,), true)
                && final(self).amplitude_spec() == amplitude
                && final(self).timer_spec().elapsed == 0
                && final(self).timer_spec().duration == old(self).timer_spec().duration,
            r is Err ==> in_range.ensures((amplitude,), false)
                && r == Err::<(), Error>(Error::AmplitudeInvalid)
                && *final(self) == *old(self),
    {
        is_valid_amplitude(amplitude, in_range)?;
        self.amplitude = amplitude;
        self.timer.restart();
        Ok(())
    }

    /// The current amplitude.
    pub fn get_amplitude(&self) -> (a: T)
        ensures
            a == self.amplitude_spec(),
    {
        self.amplitude
    }

    /// The largest amplitude still to come: the constant itself.
    pub fn get_max(&self) -> (a: T)
        ensures
            a == self.amplitude_spec(),
    {
        self.amplitude
    }
}

/// Runs the decay over the first `n` samples: before each of them the
/// amplitude is multiplied by `multiplier`, then the sample by the amplitude.
/// Returns the amplitude after the last step.
pub(crate) fn decay_prefix<T: Copy, F: Fn(T, T) -> T>(
    samples: &mut Vec<T>,
    n: usize,
    start: T,
    multiplier: T,
    product: &F,
) -> (res: (T, Ghost<Seq<T>>))
    requires
        n <= old(samples).len(),
        forall|x: T, y: T| product.requires((x, y)),
    ensures
        decay_steps(*product, start, multiplier, res.1@),
        res.1@.len() == n + 1,
        res.0 == res.1@.last(),
        scaled_each(*product, old(samples)@, final(samples)@, res.1@.drop_first()),
{
    let mut amplitude = start;
    let ghost mut steps: Seq<T> = seq![start];
    let mut i: usize = 0;
    while i < n
        invariant
            n <= samples.len(),
            i <= n,
            forall|x: T, y: T| product.requires((x, y)),
            samples@.len() == old(samples)@.len(),
            decay_steps(*product, start, multiplier, steps),
            steps.len() == i + 1,
            amplitude == steps[i as int],
            forall|j: int| 0 <= j < i ==> #[trigger] product.ensures((old(samples)@[j], steps[j + 1]), samples@[j]),
            forall|j: int| i <= j < samples@.len() ==> samples@[j] == old(samples)@[j],
        decreases n - i,
    {
        let next = product(amplitude, multiplier);
        proof {
            steps = steps.push(next);
        }
        amplitude = next;
        let v = product(samples[i], amplitude);
        samples.set(i, v);
        i = i + 1;
    }
    assert(scaled_each(*product, old(samples)@, samples@, steps.drop_first()));
    (amplitude, Ghost(steps))
}

/// Exponentially decaying amplitude: each sample multiplies the amplitude by
/// a fixed per-sample multiplier. The decay only depends on time, even where
/// the duration is tempo dependent.
#[derive(Debug, Clone)]
pub struct AmplitudeDecayExp<T> {
    timer: Timer,
    multiplier: T,
    amplitude: T,
}

impl<T: Copy> AmplitudeDecayExp<T> {
    pub closed spec fn timer_spec(&self) -> Timer {
        self.timer
    }

    pub closed spec fn multiplier_spec(&self) -> T {
        self.multiplier
    }

    pub closed spec fn amplitude_spec(&self) -> T {
        self.amplitude
    }

    pub open spec fn wf(&self) -> bool {
        self.timer_spec().wf()
    }

    /// A generator at full amplitude (`unit`) that decays by `multiplier` per
    /// sample, with a timer without an end.
    pub fn new(unit: T, multiplier: T) -> (g: Self)
        ensures
            g.wf(),
            g.amplitude_spec() == unit,
            g.multiplier_spec() == multiplier,
            g.timer_spec() == (Timer { duration: None, elapsed: 0 }),
    {
        AmplitudeDecayExp { timer: Timer::new(), multiplier, amplitude: unit }
    }

    /// Advances time by the buffer's length; for each sample before the end
    /// of the duration the amplitude decays one step and the sample is
    /// multiplied by it. Samples past the end are untouched.
    pub fn apply<F: Fn(T, T) -> T>(&mut self, samples: &mut Vec<T>, product: &F) -> (r: SoundResult<()>)
        requires
            old(self).wf(),
            forall|x: T, y: T| product.requires((x, y)),
        ensures
            final(self).wf(),
            r == jump_result(old(self).timer_spec().duration, old(self).timer_spec().elapsed, old(samples)@.len()),
            final(self).timer_spec().duration == old(self).timer_spec().duration,
            final(self).timer_spec().elapsed == jump_elapsed(
                old(self).timer_spec().duration, old(self).timer_spec().elapsed, old(samples)@.len()),
            final(self).multiplier_spec() == old(self).multiplier_spec(),
            exists|steps: Seq<T>|
                #[trigger] decay_steps(*product, old(self).amplitude_spec(), old(self).multiplier_spec(), steps)
                && steps.len() == covered(old(samples)@.len(), r) + 1
                && final(self).amplitude_spec() == steps.last()
                && scaled_each(*product, old(samples)@, final(samples)@, steps.drop_first()),
    {
        let r = self.timer.jump_by_time(samples.len());
        let n = covered_count(samples.len(), &r);
        let (end, steps) = decay_prefix(samples, n, self.amplitude, self.multiplier, product);
        self.amplitude = end;
        assert(decay_steps(*product, old(self).amplitude_spec(), old(self).multiplier_spec(), steps@));
        r
    }

    /// Like `apply`, driven by tempo: `timer_result` is what the tempo timer
    /// reported for this buffer. Mismatched buffer lengths change nothing.
    pub fn apply_rhythmic<F: Fn(T, T) -> T>(
        &mut self,
        tempo: &Vec<T>,
        samples: &mut Vec<T>,
        timer_result: SoundResult<()>,
        product: &F,
    ) -> (r: SoundResult<()>)
        requires
            forall|x: T, y: T| product.requires((x, y)),
        ensures
            final(self).timer_spec() == old(self).timer_spec(),
            final(self).multiplier_spec() == old(self).multiplier_spec(),
            tempo@.len() != old(samples)@.len() ==> r == Err::<(), Error>(Error::BufferSize)
                && final(samples)@ == old(samples)@
                && final(self).amplitude_spec() == old(self).amplitude_spec(),
            tempo@.len() == old(samples)@.len() ==> r == timer_result
                && exists|steps: Seq<T>|
                    #[trigger] decay_steps(*product, old(self).amplitude_spec(), old(self).multiplier_spec(), steps)
                    && steps.len() == covered(old(samples)@.len(), r) + 1
                    && final(self).amplitude_spec() == steps.last()
                    && scaled_each(*product, old(samples)@, final(samples)@, steps.drop_first()),
    {
        check_buffer_sizes(tempo.len(), samples.len())?;
        let n = covered_count(samples.len(), &timer_result);
        let (end, steps) = decay_prefix(samples, n, self.amplitude, self.multiplier, product);
        self.amplitude = end;
        assert(decay_steps(*product, old(self).amplitude_spec(), old(self).multiplier_spec(), steps@));
        timer_result
    }

    /// Sets the duration in samples (`None`: no end), keeping the amplitude.
    pub fn set_timing(&mut self, duration: Option<usize>) -> (r: SoundResult<()>)
        ensures
            final(self).wf(),
            r is Ok,
            final(self).timer_spec().duration == duration,
            final(self).amplitude_spec() == old(self).amplitude_spec(),
            final(self).multiplier_spec() == old(self).multiplier_spec(),
    {
        self.timer.set(duration);
        Ok(())
    }

    /// Sets the amplitude, if `in_range` accepts it, and restarts time.
    pub fn set_amplitude_start<R: Fn(T) -> bool>(&mut self, amplitude: T, in_range: &R) -> (r: SoundResult<()>)
        requires
            old(self).wf(),
            in_range.requires((amplitude,)),
        ensures
            final(self).wf(),
            final(self).multiplier_spec() == old(self).multiplier_spec(),
            r is Ok ==> in_range.ensures((amplitude,), true)
                && final(self).amplitude_spec() == amplitude
                && final(self).timer_spec().elapsed == 0
                && final(self).timer_spec().duration == old(self).timer_spec().duration,
            r is Err ==> in_range.ensures((amplitude,), false)
                && r == Err::<(), Error>(Error::AmplitudeInvalid)
                && *final(self) == *old(self),
    {
        is_valid_amplitude(amplitude, in_range)?;
        self.amplitude = amplitude;
        self.timer.restart();
        Ok(())
    }

    /// The current amplitude.
    pub fn get_amplitude(&self) -> (a: T)
        ensures
            a == self.amplitude_spec(),
    {
        self.amplitude
    }

    /// The largest amplitude still to come: the current one, as it only decays.
    pub fn get_max(&self) -> (a: T)
        ensures
            a == self.amplitude_spec(),
    {
        self.amplitude
    }
}

/// What a progress-driven generator reports for a buffer of `len` samples
/// when its cursor produced `produced` phases before completing, in `mode`,
/// called on the path for `wanted`.
pub open spec fn progress_result(mode: ProgressMode, wanted: ProgressMode, produced: nat, len: nat) -> SoundResult<()> {
    if mode != wanted {
        Err(Error::ProgressInvalid)
    } else if produced < len {
        Err(Error::ItemsCompleted(produced as usize))
    } else {
        Ok(())
    }
}

/// Multiplies the samples by the factors that the progress cursor gave, one
/// per sample, in the right mode; fewer factors than samples means the cursor
/// completed there.
fn apply_progress<T: Copy, F: Fn(T, T) -> T>(
    mode: ProgressMode,
    wanted: ProgressMode,
    samples: &mut Vec<T>,
    factors: &Vec<T>,
    product: &F,
) -> (r: SoundResult<()>)
    requires
        factors@.len() <= old(samples)@.len(),
        forall|x: T, y: T| product.requires((x, y)),
    ensures
        r == progress_result(mode, wanted, factors@.len(), old(samples)@.len()),
        mode != wanted ==> final(samples)@ == old(samples)@,
        mode == wanted ==> scaled_each(*product, old(samples)@, final(samples)@, factors@),
{
    if mode != wanted {
        return Err(Error::ProgressInvalid);
    }
    scale_each(samples, factors, product);
    if factors.len() < samples.len() {
        Err(Error::ItemsCompleted(factors.len()))
    } else {
        Ok(())
    }
}

/// Linearly changing amplitude. Its progress cursor runs from the start
/// amplitude to the end amplitude, so the cursor's phase is the amplitude.
#[derive(Debug, Clone)]
pub struct FadeLinear<T> {
    mode: ProgressMode,
    amplitude_start: T,
    amplitude_end: T,
    amplitude: T,
}

impl<T: Copy> FadeLinear<T> {
    pub closed spec fn mode_spec(&self) -> ProgressMode {
        self.mode
    }

    pub closed spec fn start_spec(&self) -> T {
        self.amplitude_start
    }

    pub closed spec fn end_spec(&self) -> T {
        self.amplitude_end
    }

    /// The cursor's current phase, that is the current amplitude.
    pub closed spec fn amplitude_spec(&self) -> T {
        self.amplitude
    }

    /// A fade from `zero` to `amplitude_end`, if `in_range` accepts the end.
    pub fn new<R: Fn(T) -> bool>(mode: ProgressMode, zero: T, amplitude_end: T, in_range: &R) -> (r: SoundResult<Self>)
        requires
            in_range.requires((amplitude_end,)),
        ensures
            r is Err ==> in_range.ensures((amplitude_end,), false) && r == Err::<Self, Error>(Error::AmplitudeInvalid),
            r is Ok ==> in_range.ensures((amplitude_end,), true)
                && r->Ok_0.mode_spec() == mode
                && r->Ok_0.start_spec() == zero
                && r->Ok_0.end_spec() == amplitude_end
                && r->Ok_0.amplitude_spec() == zero,
    {
        is_valid_amplitude(amplitude_end, in_range)?;
        Ok(FadeLinear { mode, amplitude_start: zero, amplitude_end, amplitude: zero })
    }

    /// Multiplies each sample by the phase that the time cursor gave for it;
    /// `phases` is shorter than `samples` where the cursor completed.
    pub fn apply<F: Fn(T, T) -> T>(&mut self, samples: &mut Vec<T>, phases: &Vec<T>, product: &F) -> (r: SoundResult<()>)
        requires
            phases@.len() <= old(samples)@.len(),
            forall|x: T, y: T| product.requires((x, y)),
        ensures
            r == progress_result(old(self).mode_spec(), ProgressMode::Time, phases@.len(), old(samples)@.len()),
            final(self).mode_spec() == old(self).mode_spec(),
            final(self).start_spec() == old(self).start_spec(),
            final(self).end_spec() == old(self).end_spec(),
            old(self).mode_spec() != ProgressMode::Time ==> final(samples)@ == old(samples)@
                && final(self).amplitude_spec() == old(self).amplitude_spec(),
            old(self).mode_spec() == ProgressMode::Time ==> scaled_each(*product, old(samples)@, final(samples)@, phases@)
                && final(self).amplitude_spec() == (if phases@.len() == 0 { old(self).amplitude_spec() } else { phases@.last() }),
    {
        let r = apply_progress(self.mode, ProgressMode::Time, samples, phases, product);
        if self.mode == ProgressMode::Time && phases.len() > 0 {
            self.amplitude = phases[phases.len() - 1];
        }
        r
    }

    /// Like `apply`, driven by tempo; mismatched buffer lengths change nothing.
    pub fn apply_rhythmic<F: Fn(T, T) -> T>(
        &mut self,
        tempo: &Vec<T>,
        samples: &mut Vec<T>,
        phases: &Vec<T>,
        product: &F,
    ) -> (r: SoundResult<()>)
        requires
            phases@.len() <= old(samples)@.len(),
            forall|x: T, y: T| product.requires((x, y)),
        ensures
            final(self).mode_spec() == old(self).mode_spec(),
            final(self).start_spec() == old(self).start_spec(),
            final(self).end_spec() == old(self).end_spec(),
            tempo@.len() != old(samples)@.len() ==> r == Err::<(), Error>(Error::BufferSize)
                && final(samples)@ == old(samples)@
                && final(self).amplitude_spec() == old(self).amplitude_spec(),
            tempo@.len() == old(samples)@.len() ==> r == progress_result(
                old(self).mode_spec(), ProgressMode::Tempo, phases@.len(), old(samples)@.len()),
            tempo@.len() == old(samples)@.len() && old(self).mode_spec() != ProgressMode::Tempo
                ==> final(samples)@ == old(samples)@ && final(self).amplitude_spec() == old(self).amplitude_spec(),
            tempo@.len() == old(samples)@.len() && old(self).mode_spec() == ProgressMode::Tempo
                ==> scaled_each(*product, old(samples)@, final(samples)@, phases@)
                && final(self).amplitude_spec() == (if phases@.len() == 0 { old(self).amplitude_spec() } else { phases@.last() }),
    {
        check_buffer_sizes(tempo.len(), samples.len())?;
        let r = apply_progress(self.mode, ProgressMode::Tempo, samples, phases, product);
        if self.mode == ProgressMode::Tempo && phases.len() > 0 {
            self.amplitude = phases[phases.len() - 1];
        }
        r
    }

    /// Sets the start amplitude, if `in_range` accepts it; the cursor starts
    /// over from there, so it is also the current amplitude.
    pub fn set_amplitude_start<R: Fn(T) -> bool>(&mut self, amplitude: T, in_range: &R) -> (r: SoundResult<()>)
        requires
            in_range.requires((amplitude,)),
        ensures
            final(self).mode_spec() == old(self).mode_spec(),
            final(self).end_spec() == old(self).end_spec(),
            r is Ok ==> in_range.ensures((amplitude,), true)
                && final(self).start_spec() == amplitude
                && final(self).amplitude_spec() == amplitude,
            r is Err ==> in_range.ensures((amplitude,), false)
                && r == Err::<(), Error>(Error::AmplitudeInvalid)
                && final(self).start_spec() == old(self).start_spec()
                && final(self).amplitude_spec() == old(self).amplitude_spec(),
    {
        is_valid_amplitude(amplitude, in_range)?;
        self.amplitude_start = amplitude;
        self.amplitude = amplitude;
        Ok(())
    }

    /// The current amplitude.
    pub fn get_amplitude(&self) -> (a: T)
        ensures
            a == self.amplitude_spec(),
    {
        self.amplitude
    }

    /// The larger of the start and the end amplitude, as `max` picks it.
    pub fn get_max<M: Fn(T, T) -> T>(&self, max: &M) -> (a: T)
        requires
            max.requires((self.start_spec(), self.end_spec())),
        ensures
            max.ensures((self.start_spec(), self.end_spec()), a),
    {
        max(self.amplitude_start, self.amplitude_end)
    }
}

/// Tremolo: a sine variation of the amplitude between `1 / extent_ratio²`
/// and 1, as `amplitude_normalized × extent_ratio^sin(phase)`.
#[derive(Debug, Clone)]
pub struct Tremolo<T> {
    mode: ProgressMode,
    extent_ratio: T,
    amplitude_normalized: T,
}

impl<T: Copy> Tremolo<T> {
    pub closed spec fn mode_spec(&self) -> ProgressMode {
        self.mode
    }

    pub closed spec fn extent_ratio_spec(&self) -> T {
        self.extent_ratio
    }

    pub closed spec fn normalized_spec(&self) -> T {
        self.amplitude_normalized
    }

    /// A tremolo of the given extent ratio, which `above_one` must accept;
    /// the base amplitude is its reciprocal.
    pub fn new<G: Fn(T) -> bool, V: Fn(T) -> T>(
        mode: ProgressMode,
        extent_ratio: T,
        above_one: &G,
        reciprocal: &V,
    ) -> (r: SoundResult<Self>)
        requires
            above_one.requires((extent_ratio,)),
            reciprocal.requires((extent_ratio,)),
        ensures
            r is Err ==> above_one.ensures((extent_ratio,), false) && r == Err::<Self, Error>(Error::AmplitudeInvalid),
            r is Ok ==> above_one.ensures((extent_ratio,), true)
                && r->Ok_0.mode_spec() == mode
                && r->Ok_0.extent_ratio_spec() == extent_ratio
                && reciprocal.ensures((extent_ratio,), r->Ok_0.normalized_spec()),
    {
        if !above_one(extent_ratio) {
            return Err(Error::AmplitudeInvalid);
        }
        let amplitude_normalized = reciprocal(extent_ratio);
        Ok(Tremolo { mode, extent_ratio, amplitude_normalized })
    }

    /// The multiplier at a phase: `gain(amplitude_normalized, extent_ratio, phase)`.
    pub fn multiplier<H: Fn(T, T, T) -> T>(&self, phase: T, gain: &H) -> (m: T)
        requires
            gain.requires((self.normalized_spec(), self.extent_ratio_spec(), phase)),
        ensures
            gain.ensures((self.normalized_spec(), self.extent_ratio_spec(), phase), m),
    {
        gain(self.amplitude_normalized, self.extent_ratio, phase)
    }

    /// Multiplies each sample by the multiplier for the phase that the time
    /// cursor gave for it; fewer multipliers than samples means the cursor
    /// completed there.
    pub fn apply<F: Fn(T, T) -> T>(&self, samples: &mut Vec<T>, multipliers: &Vec<T>, product: &F) -> (r: SoundResult<()>)
        requires
            multipliers@.len() <= old(samples)@.len(),
            forall|x: T, y: T| product.requires((x, y)),
        ensures
            r == progress_result(self.mode_spec(), ProgressMode::Time, multipliers@.len(), old(samples)@.len()),
            self.mode_spec() != ProgressMode::Time ==> final(samples)@ == old(samples)@,
            self.mode_spec() == ProgressMode::Time ==> scaled_each(*product, old(samples)@, final(samples)@, multipliers@),
    {
        apply_progress(self.mode, ProgressMode::Time, samples, multipliers, product)
    }

    /// Like `apply`, driven by tempo; mismatched buffer lengths change nothing.
    pub fn apply_rhythmic<F: Fn(T, T) -> T>(
        &self,
        tempo: &Vec<T>,
        samples: &mut Vec<T>,
        multipliers: &Vec<T>,
        product: &F,
    ) -> (r: SoundResult<()>)
        requires
            multipliers@.len() <= old(samples)@.len(),
            forall|x: T, y: T| product.requires((x, y)),
        ensures
            tempo@.len() != old(samples)@.len() ==> r == Err::<(), Error>(Error::BufferSize)
                && final(samples)@ == old(samples)@,
            tempo@.len() == old(samples)@.len() ==> r == progress_result(
                self.mode_spec(), ProgressMode::Tempo, multipliers@.len(), old(samples)@.len()),
            tempo@.len() == old(samples)@.len() && self.mode_spec() != ProgressMode::Tempo
                ==> final(samples)@ == old(samples)@,
            tempo@.len() == old(samples)@.len() && self.mode_spec() == ProgressMode::Tempo
                ==> scaled_each(*product, old(samples)@, final(samples)@, multipliers@),
    {
        check_buffer_sizes(tempo.len(), samples.len())?;
        apply_progress(self.mode, ProgressMode::Tempo, samples, multipliers, product)
    }
}

/// Sequence of several amplitude functions.
pub struct AmplitudeSequence;

/// Combination of several amplitude functions.
pub struct AmplitudeCombination;

/// Equal-loudness contour (ISO 226:2003).
pub struct AmplitudeEqualLoudness;

} // verus!

use vstd::prelude::*;
use crate::error::{Error, SoundResult};

verus! {

/// Counts elapsed samples against an optional duration, also in samples.
/// Without a duration it never completes.
#[derive(Debug, Clone, Copy, PartialEq, Eq, Structural)]
pub struct Timer {
    pub duration: Option<usize>,
    pub elapsed: usize,
}

/// Samples left before the duration ends (`None`: no end).
pub open spec fn remaining(duration: Option<usize>, elapsed: usize) -> Option<nat> {
    match duration {
        Some(d) => Some((d - elapsed) as nat),
        None => None,
    }
}

/// What a jump of `count` samples reports.
pub open spec fn jump_result(duration: Option<usize>, elapsed: usize, count: nat) -> SoundResult<()> {
    match remaining(duration, elapsed) {
        Some(r) => if count <= r { Ok(()) } else { Err(Error::ItemsCompleted(r as usize)) },
        None => Ok(()),
    }
}

/// The elapsed count after a jump of `count` samples (it saturates where there is no end).
pub open spec fn jump_elapsed(duration: Option<usize>, elapsed: usize, count: nat) -> usize {
    match duration {
        Some(d) => if elapsed + count <= d { (elapsed + count) as usize } else { d },
        None => if elapsed + count <= usize::MAX { (elapsed + count) as usize } else { usize::MAX },
    }
}

impl Timer {
    /// The elapsed count never passes the duration.
    pub open spec fn wf(&self) -> bool {
        match self.duration {
            Some(d) => self.elapsed <= d,
            None => true,
        }
    }

    /// A timer without an end.
    pub fn new() -> (t: Timer)
        ensures
            t.wf(),
            t.duration == None::<usize>,
            t.elapsed == 0,
    {
        Timer { duration: None, elapsed: 0 }
    }

    /// A timer that ends after `samples` samples.
    pub fn with_duration(samples: usize) -> (t: Timer)
        ensures
            t.wf(),
            t.duration == Some(samples),
            t.elapsed == 0,
    {
        Timer { duration: Some(samples), elapsed: 0 }
    }

    /// Sets time back to the start.
    pub fn restart(&mut self)
        ensures
            final(self).wf(),
            final(self).duration == old(self).duration,
            final(self).elapsed == 0,
    {
        self.elapsed = 0;
    }

    /// Sets a new duration; time elapsed so far is kept, but never passes it.
    pub fn set(&mut self, duration: Option<usize>)
        ensures
            final(self).wf(),
            final(self).duration == duration,
            final(self).elapsed == match duration {
                Some(d) => if old(self).elapsed <= d { old(self).elapsed } else { d },
                None => old(self).elapsed,
            },
    {
        self.duration = duration;
        match duration {
            Some(d) => {
                if self.elapsed > d {
                    self.elapsed = d;
                }
            },
            None => {},
        }
    }

    /// Advances time by `count` samples. Where the duration ends first, time
    /// stops at its end and the number of samples that fit is reported.
    pub fn jump_by_time(&mut self, count: usize) -> (r: SoundResult<()>)
        requires
            old(self).wf(),
        ensures
            final(self).wf(),
            final(self).duration == old(self).duration,
            r == jump_result(old(self).duration, old(self).elapsed, count as nat),
            final(self).elapsed == jump_elapsed(old(self).duration, old(self).elapsed, count as nat),
    {
        match self.duration {
            Some(d) => {
                let left: usize = d - self.elapsed;
                if count <= left {
                    self.elapsed = self.elapsed + count;
                    Ok(())
                } else {
                    self.elapsed = d;
                    Err(Error::ItemsCompleted(left))
                }
            },
            None => {
                if count <= usize::MAX - self.elapsed {
                    self.elapsed = self.elapsed + count;
                } else {
                    self.elapsed = usize::MAX;
                }
                Ok(())
            },
        }
    }
}

} // verus!

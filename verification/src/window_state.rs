use vstd::prelude::*;

verus! {

/// Spaces out the saving of the window state while the window is moved or
/// resized. Times are milliseconds on a monotonic clock that the caller reads.
pub struct WindowStateSaveTimer {
    last_save: Option<u64>,
}

impl WindowStateSaveTimer {
    /// The time of the last save, if there was one.
    pub closed spec fn last(&self) -> Option<u64> {
        self.last_save
    }

    pub fn new() -> (t: Self)
        ensures
            t.last() is None,
    {
        WindowStateSaveTimer { last_save: None }
    }

    /// Whether the state is saved at time `now`: it is at the first call,
    /// and then whenever `min_interval_ms` have passed since the last save.
    /// A save is recorded with its time.
    pub fn should_save(&mut self, now: u64, min_interval_ms: u64) -> (save: bool)
        ensures
            save == match old(self).last() {
                None => true,
                Some(prev) => (if now >= prev {
                    now - prev
                } else {
                    0
                }) >= min_interval_ms,
            },
            final(self).last() == if save {
                Some(now)
            } else {
                old(self).last()
            },
    {
        match self.last_save {
            None => {
                self.last_save = Some(now);
                true
            },
            Some(prev) => {
                let elapsed = if now >= prev {
                    now - prev
                } else {
                    0
                };
                if elapsed >= min_interval_ms {
                    self.last_save = Some(now);
                    true
                } else {
                    false
                }
            },
        }
    }
}

} // verus!

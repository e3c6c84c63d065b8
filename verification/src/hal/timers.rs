//! Hardware timers.

use std::time::Duration;
use vstd::prelude::*;

use crate::hal::common::HalResult;

verus! {

pub trait Timer {
    /// How the platform names a timer.
    type TimerId;

    fn new(id: Self::TimerId) -> HalResult<Self> where Self: Sized;

    /// Arms the timer: `callback` runs when `duration` has passed, and again
    /// after each further `duration` if `periodic`.
    fn start<F: FnMut() + Send + 'static>(
        &mut self,
        duration: Duration,
        periodic: bool,
        callback: F,
    ) -> HalResult<()>;

    fn stop(&mut self) -> HalResult<()>;
}

} // verus!

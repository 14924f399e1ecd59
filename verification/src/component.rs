//! What a tab has to offer beside drawing and reacting to events.

use vstd::prelude::*;
use crate::tabs::log::LogTab;

verus! {

/// A tab that winds up what it holds before another tab takes its place.
pub trait FinishableComp {
    /// What winding up gives.
    type Res;

    /// Winds up, or says why it could not.
    fn finish(&mut self) -> Result<Self::Res, String>;
}

impl FinishableComp for LogTab {
    type Res = ();

    fn finish(&mut self) -> (done: Result<(), String>)
        ensures
            done.is_ok(),
    {
        Ok(())
    }
}

} // verus!

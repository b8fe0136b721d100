use crate::subtitle::handling::SubtitleHandling;
use vstd::prelude::*;

verus! {

/// The handling policy, as a subtitle record names it.
pub type SubtitleMode = SubtitleHandling;

} // verus!

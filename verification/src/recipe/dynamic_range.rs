use vstd::prelude::*;

verus! {

/// Dynamic range setting.
#[derive(Debug, Clone, Copy, PartialEq, Eq, Structural)]
pub enum DynamicRange {
    Dr100,
    Dr200,
    Dr400,
}

} // verus!

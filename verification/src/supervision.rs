//! How supervised actors are restarted.
use vstd::prelude::*;

verus! {

/// When a supervised actor is restarted after it stopped.
#[derive(Debug, Clone, Copy, PartialEq, Eq, Structural)]
pub enum RestartPolicy {
    /// Always.
    Permanent,
    /// Unless it stopped normally.
    Transient,
    /// Never.
    Never,
}

} // verus!

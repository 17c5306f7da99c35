//! The errors that end a packaging run.
use crate::platform::Platform;
use vstd::prelude::*;

verus! {

/// Why a packaging run stops before, or while, producing its bundles.
#[derive(Clone, Copy, Debug, PartialEq, Eq, Structural)]
pub enum NatyError {
    /// The target address is not a well-formed URL.
    InvalidUrl,
    /// An option that only concerns this platform was given, but the
    /// platform is not among the targets.
    PlatformOptionMismatch(Platform),
    /// The icon that was named explicitly could be neither fetched nor read.
    IconUnavailable,
    /// The configuration snapshot could not be rendered as TOML.
    Serialization,
}

} // verus!

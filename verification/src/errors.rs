use vstd::prelude::*;

verus! {

/// Errors shared by the builder-pattern constructors of this crate.
#[derive(Debug, Clone, Copy, PartialEq, Eq, Structural)]
pub enum Error {
    /// A builder was asked to build before every required field was set.
    BuilderPatternBuildErr,
}

pub type Result<T, E = Error> = core::result::Result<T, E>;

} // verus!

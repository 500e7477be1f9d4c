//! The enumerated settings of the engine's loaders, with the integer codes
//! under which the engine knows them.

use vstd::prelude::*;

verus! {

/// The pattern in which the pixels of a loaded image will be read.
#[derive(Debug, Clone, Copy, PartialEq, Eq, Structural)]
pub enum VipsAccess {
    /// Pixels may be read in any order.
    Random,
    /// Pixels are read top to bottom.
    Sequential,
    /// Top to bottom, without a buffer.
    SequentialUnbuffered,
    /// The end marker of the enumeration.
    Last,
}

impl VipsAccess {
    /// The engine's code of this access pattern.
    pub open spec fn code_spec(self) -> i32 {
        match self {
            VipsAccess::Random => 0i32,
            VipsAccess::Sequential => 1i32,
            VipsAccess::SequentialUnbuffered => 2i32,
            VipsAccess::Last => 3i32,
        }
    }

    /// The engine's code of this access pattern.
    #[verifier::when_used_as_spec(code_spec)]
    pub fn code(self) -> (code: i32)
        ensures
            code == self.code_spec(),
    {
        match self {
            VipsAccess::Random => 0,
            VipsAccess::Sequential => 1,
            VipsAccess::SequentialUnbuffered => 2,
            VipsAccess::Last => 3,
        }
    }
}

/// How serious a problem in the input has to be for a load to fail.
#[derive(Debug, Clone, Copy, PartialEq, Eq, Structural)]
pub enum VipsFailOn {
    /// Never fail, load what can be loaded.
    Never,
    /// Fail on truncated input.
    Truncated,
    /// Fail on any error in the input.
    Error,
    /// Fail on any warning.
    Warning,
    /// The end marker of the enumeration.
    Last,
}

impl VipsFailOn {
    /// The engine's code of this threshold.
    pub open spec fn code_spec(self) -> i32 {
        match self {
            VipsFailOn::Never => 0i32,
            VipsFailOn::Truncated => 1i32,
            VipsFailOn::Error => 2i32,
            VipsFailOn::Warning => 3i32,
            VipsFailOn::Last => 4i32,
        }
    }

    /// The engine's code of this threshold.
    #[verifier::when_used_as_spec(code_spec)]
    pub fn code(self) -> (code: i32)
        ensures
            code == self.code_spec(),
    {
        match self {
            VipsFailOn::Never => 0,
            VipsFailOn::Truncated => 1,
            VipsFailOn::Error => 2,
            VipsFailOn::Warning => 3,
            VipsFailOn::Last => 4,
        }
    }
}

} // verus!

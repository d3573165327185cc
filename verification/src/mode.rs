//! Where an accelerated dataset keeps its data.

use vstd::prelude::*;
use vstd::std_specs::convert::FromSpecImpl;

use crate::text::same_text;

verus! {

/// Where an accelerated dataset keeps its data.
#[derive(Clone, Copy, Debug, PartialEq, Eq, Structural)]
pub enum Mode {
    Memory,
    File,
}

/// The mode as a dataset's configuration names it.
#[derive(Clone, Copy, Debug, PartialEq, Eq, Structural)]
pub enum AccelerationMode {
    Memory,
    File,
}

/// The mode that a name stands for: `file` and `memory` for their own, and
/// every other name for the default.
pub open spec fn mode_named(name: Seq<char>) -> Mode {
    if name == "file"@ {
        Mode::File
    } else {
        Mode::Memory
    }
}

impl Default for Mode {
    /// In memory, unless said otherwise.
    fn default() -> (mode: Self)
        ensures
            mode == Mode::Memory,
    {
        Mode::Memory
    }
}

impl<'a> From<&'a str> for Mode {
    fn from(m: &'a str) -> (mode: Self) {
        if same_text(m, "file") {
            Mode::File
        } else if same_text(m, "memory") {
            Mode::Memory
        } else {
            Mode::default()
        }
    }
}

impl<'a> FromSpecImpl<&'a str> for Mode {
    open spec fn obeys_from_spec() -> bool {
        true
    }

    open spec fn from_spec(m: &'a str) -> Self {
        mode_named(m@)
    }
}

impl From<AccelerationMode> for Mode {
    fn from(m: AccelerationMode) -> (mode: Self) {
        match m {
            AccelerationMode::File => Mode::File,
            AccelerationMode::Memory => Mode::Memory,
        }
    }
}

impl FromSpecImpl<AccelerationMode> for Mode {
    open spec fn obeys_from_spec() -> bool {
        true
    }

    open spec fn from_spec(m: AccelerationMode) -> Self {
        match m {
            AccelerationMode::File => Mode::File,
            AccelerationMode::Memory => Mode::Memory,
        }
    }
}

} // verus!

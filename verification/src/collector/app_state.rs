//! The modes of the collector.

use vstd::prelude::*;

verus! {

/// Whether the collector shows posts or the editor.
#[derive(Debug, Clone, Copy, PartialEq, Eq, Hash, Structural)]
pub enum Mode {
    Read,
    Write,
}

} // verus!

//! The rendering configuration.

use vstd::prelude::*;

verus! {

/// Options that shape generated snippets. `ignore_defaults` decides what
/// happens to a parameter that carries a default value: when true the
/// parameter stays in the generated call, spelled out as plain
/// `name = default` text; when false it is dropped from the call.
#[derive(Clone, Copy, Debug, PartialEq, Eq, Structural)]
pub struct RenderConfig {
    pub ignore_defaults: bool,
}

} // verus!

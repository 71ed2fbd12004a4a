use vstd::prelude::*;

verus! {

/// Settings for the optional rendering context of a window.
///
/// The options model stores a configuration without reading it; only the
/// subsystem that actually creates the rendering context interprets it, so
/// this layer carries it as an opaque marker value.
#[derive(Clone, Copy, Debug, PartialEq, Eq, Structural)]
pub struct GlConfig {}

} // verus!

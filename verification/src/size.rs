use vstd::prelude::*;

verus! {

/// The logical, pre-scale dimensions of a window.
///
/// Width and height are carried as the raw 64-bit encodings of the host's
/// floating-point dimensions. This layer stores the encodings without
/// interpreting them; turning host dimension values into encodings and back
/// belongs to the platform boundary. No validation is performed here:
/// non-negative dimensions are the caller's responsibility.
#[derive(Clone, Copy, Debug, PartialEq, Eq, Structural)]
pub struct Size {
    /// The raw encoding of the logical width.
    pub width_bits: u64,
    /// The raw encoding of the logical height.
    pub height_bits: u64,
}

impl Size {
    /// Packs two raw dimension encodings into a size.
    pub fn new(width_bits: u64, height_bits: u64) -> (r: Self)
        ensures
            r == (Size { width_bits, height_bits }),
    {
        Size { width_bits, height_bits }
    }
}

} // verus!

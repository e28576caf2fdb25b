use vstd::prelude::*;

verus! {

/// Why a capture configuration could not be set up.
///
/// The negotiation errors carry the alternatives the device does support,
/// so a caller can retry with one of them: the full discrete set, or the
/// `[min, max]` bounds of a stepwise grid.
#[derive(Debug, PartialEq)]
pub enum Error {
    /// The requested frame interval is not supported by the device.
    InvalidFps(Vec<(u32, u32)>),
    /// The requested resolution is not supported by the device.
    InvalidResolution(Vec<(u32, u32)>),
    /// The device or its driver failed. Negotiation itself never raises
    /// this kind; it is reserved for the capture shell around the library,
    /// which maps a failed device query to it.
    Io,
}

} // verus!

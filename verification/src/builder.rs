use vstd::prelude::*;

use crate::caps::{alternatives_vec, matches_capability, Capability};
use crate::error::Error;

verus! {

/// A capture configuration under negotiation: the frame interval and the
/// resolution currently held, updated by each successful negotiation step.
///
/// The interval is `(numerator, denominator)` — "numerator time units per
/// denominator frames", so a smaller ratio is a higher rate — and the
/// resolution is `(width, height)`.
///
/// Devices report their supported intervals relative to the resolution
/// that is currently set, so a caller that deviates from the defaults in
/// both axes must negotiate the resolution first and query the interval
/// capability afterwards.
pub struct Builder {
    /// The frame interval held by this configuration.
    pub fps: (u32, u32),
    /// The resolution held by this configuration.
    pub resolution: (u32, u32),
}

impl Builder {
    /// A fresh configuration with the default resolution of 640 by 480
    /// and the default interval of one time unit per ten frames.
    pub fn new() -> (b: Builder)
        ensures
            b.fps == (1u32, 10u32),
            b.resolution == (640u32, 480u32),
    {
        Builder { fps: (1, 10), resolution: (640, 480) }
    }

    /// Negotiate the frame interval against the device's interval
    /// capability, as reported for the currently held resolution.
    ///
    /// The request succeeds exactly when the capability admits the
    /// interval; the configuration then holds it. Otherwise the result is
    /// `InvalidFps` carrying the supported alternatives, and the
    /// configuration is discarded.
    pub fn fps(self, interval: (u32, u32), caps: &Capability) -> (r: Result<Builder, Error>)
        requires
            caps.wf(),
        ensures
            caps.allows(interval) ==> (r matches Ok(b) && b.fps == interval && b.resolution
                == self.resolution),
            !caps.allows(interval) ==> (r matches Err(e) && e matches Error::InvalidFps(alts)
                && alts@ == caps.alternatives()),
    {
        if matches_capability(interval, caps) {
            Ok(Builder { fps: interval, resolution: self.resolution })
        } else {
            Err(Error::InvalidFps(alternatives_vec(caps)))
        }
    }

    /// Negotiate the resolution against the device's resolution
    /// capability.
    ///
    /// The request succeeds exactly when the capability admits the pair
    /// `(wdt, hgt)`; the configuration then holds it. Otherwise the
    /// result is `InvalidResolution` carrying the supported alternatives,
    /// and the configuration is discarded.
    pub fn resolution(self, wdt: u32, hgt: u32, caps: &Capability) -> (r: Result<Builder, Error>)
        requires
            caps.wf(),
        ensures
            caps.allows((wdt, hgt)) ==> (r matches Ok(b) && b.resolution == (wdt, hgt) && b.fps
                == self.fps),
            !caps.allows((wdt, hgt)) ==> (r matches Err(e) && e matches Error::InvalidResolution(
                alts,
            ) && alts@ == caps.alternatives()),
    {
        if matches_capability((wdt, hgt), caps) {
            Ok(Builder { fps: self.fps, resolution: (wdt, hgt) })
        } else {
            Err(Error::InvalidResolution(alternatives_vec(caps)))
        }
    }
}

impl Default for Builder {
    /// The same defaults as `new`: 640 by 480 at one time unit per ten
    /// frames.
    fn default() -> (b: Builder)
        ensures
            b.fps == (1u32, 10u32),
            b.resolution == (640u32, 480u32),
    {
        Builder::new()
    }
}

} // verus!

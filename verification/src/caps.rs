use vstd::prelude::*;

verus! {

/// A device's advertised capability for one configuration axis: the frame
/// intervals it supports (for a fixed resolution), or the resolutions it
/// supports. Both axes use the same two shapes over `(u32, u32)` pairs:
/// an interval is `(numerator, denominator)` — "numerator time units per
/// denominator frames" — and a resolution is `(width, height)`.
pub enum Capability {
    /// An explicit finite set of supported pairs.
    Discrete(Vec<(u32, u32)>),
    /// A regular grid: componentwise, every value `min + k * step` that
    /// does not exceed `max`.
    Stepwise { min: (u32, u32), max: (u32, u32), step: (u32, u32) },
}

/// Whether `v` lies on the grid that starts at `min` and advances by `step`:
/// `v` is `min` plus an exact multiple of `step`.
pub open spec fn on_grid(v: u32, min: u32, step: u32) -> bool {
    min <= v && (v - min) % (step as int) == 0
}

impl Capability {
    /// Devices report stepwise ranges with positive steps and ordered
    /// bounds; a discrete set carries no constraint.
    pub open spec fn wf(self) -> bool {
        match self {
            Capability::Discrete(_) => true,
            Capability::Stepwise { min, max, step } => {
                step.0 > 0 && step.1 > 0 && min.0 <= max.0 && min.1 <= max.1
            },
        }
    }

    /// Whether the capability admits the requested pair: membership in the
    /// discrete set, or — componentwise and independently — a grid point
    /// that does not exceed the maximum.
    ///
    /// The two components of a stepwise request are validated
    /// independently of each other, exactly as the devices' own drivers
    /// do; the grid is the product of two one-dimensional grids.
    pub open spec fn allows(self, req: (u32, u32)) -> bool {
        match self {
            Capability::Discrete(v) => v@.contains(req),
            Capability::Stepwise { min, max, step } => {
                &&& on_grid(req.0, min.0, step.0)
                &&& on_grid(req.1, min.1, step.1)
                &&& req.0 <= max.0
                &&& req.1 <= max.1
            },
        }
    }

    /// The alternatives reported to a caller whose request was refused:
    /// the full discrete set, or the `[min, max]` bounds of the grid.
    pub open spec fn alternatives(self) -> Seq<(u32, u32)> {
        match self {
            Capability::Discrete(v) => v@,
            Capability::Stepwise { min, max, step: _ } => seq![min, max],
        }
    }

    /// Runtime check of `wf`, for callers that receive a capability report
    /// from outside the library and must validate it before negotiating.
    pub fn is_well_formed(&self) -> (r: bool)
        ensures
            r == self.wf(),
    {
        match self {
            Capability::Discrete(_) => true,
            Capability::Stepwise { min, max, step } => {
                step.0 > 0 && step.1 > 0 && min.0 <= max.0 && min.1 <= max.1
            },
        }
    }
}

/// Whether `v` is an exact multiple of `step` away from `min`, and at most
/// `max`; the one-component stepwise test.
fn component_on_grid(v: u32, min: u32, step: u32) -> (r: bool)
    requires
        step > 0,
    ensures
        r == on_grid(v, min, step),
{
    min <= v && (v - min) % step == 0
}

/// Whether the discrete set `v` contains the exact pair `req`.
fn contains_pair(v: &Vec<(u32, u32)>, req: (u32, u32)) -> (r: bool)
    ensures
        r == v@.contains(req),
{
    let mut i: usize = 0;
    while i < v.len()
        invariant
            i <= v@.len(),
            forall|k: int| 0 <= k < i ==> v@[k] != req,
        decreases v@.len() - i,
    {
        let (a, b) = v[i];
        if a == req.0 && b == req.1 {
            return true;
        }
        i = i + 1;
    }
    false
}

/// Whether the capability admits the requested pair.
pub fn matches_capability(req: (u32, u32), caps: &Capability) -> (r: bool)
    requires
        caps.wf(),
    ensures
        r == caps.allows(req),
{
    match caps {
        Capability::Discrete(v) => contains_pair(v, req),
        Capability::Stepwise { min, max, step } => {
            component_on_grid(req.0, min.0, step.0) && component_on_grid(req.1, min.1, step.1)
                && req.0 <= max.0 && req.1 <= max.1
        },
    }
}

/// The refusal payload of the capability: a fresh vector holding its
/// alternatives.
pub fn alternatives_vec(caps: &Capability) -> (r: Vec<(u32, u32)>)
    ensures
        r@ == caps.alternatives(),
{
    match caps {
        Capability::Discrete(v) => {
            let mut r: Vec<(u32, u32)> = Vec::new();
            let mut i: usize = 0;
            while i < v.len()
                invariant
                    i <= v@.len(),
                    r@ == v@.subrange(0, i as int),
                decreases v@.len() - i,
            {
                r.push(v[i]);
                proof {
                    assert(r@ =~= v@.subrange(0, i + 1));
                }
                i = i + 1;
            }
            proof {
                assert(r@ =~= v@);
            }
            r
        },
        Capability::Stepwise { min, max, step: _ } => {
            let mut r: Vec<(u32, u32)> = Vec::new();
            r.push(*min);
            r.push(*max);
            proof {
                assert(r@ =~= seq![*min, *max]);
            }
            r
        },
    }
}

} // verus!

//! The projection: a tagged choice between an orthographic box and a
//! perspective frustum.  Lengths are held in thousandths of a world unit,
//! so every rule here is exact integer arithmetic.  A perspective's framing
//! is held as the tangent of half its vertical field of view, in
//! thousandths; the relation `side = near * tan(fov / 2)` that converts
//! between the two framings is then plain algebra, and the angle itself is
//! only needed outside, when the device matrix is built.  Each variant
//! caches its matrix once the caller computes it; any mutation drops the
//! cache.
use vstd::prelude::*;

verus! {

/// Smallest and largest orthographic half-extent, in thousandths.
pub const MIN_SIDE_MILLI: i64 = 1;

pub const MAX_SIDE_MILLI: i64 = 1_000_000_000_000;

/// The half-extent a zoom may not go below: a tenth of a unit.
pub const ZOOM_SIDE_FLOOR_MILLI: i64 = 100;

/// Bounds of the perspective framing parameter, in thousandths.  The zoom
/// clamp keeps it between the tangents of half a field of view of one
/// radian and of a tenth less than a half turn, the angles the zoom may
/// not leave.
pub const MIN_HALF_TAN_MILLI: i64 = 1;

pub const MAX_HALF_TAN_MILLI: i64 = 10_000_000_000_000;

pub const ZOOM_HALF_TAN_FLOOR_MILLI: i64 = 546;

pub const ZOOM_HALF_TAN_CEIL_MILLI: i64 = 19_983;

/// Bounds of the aspect ratio, in thousandths.
pub const MIN_ASPECT_MILLI: i64 = 1;

pub const MAX_ASPECT_MILLI: i64 = 1_000_000_000;

/// Bounds of the near and far planes, in thousandths.
pub const MIN_NEAR_MILLI: i64 = 1;

pub const MAX_NEAR_MILLI: i64 = 1_000_000_000;

pub const MIN_FAR_MILLI: i64 = 1;

pub const MAX_FAR_MILLI: i64 = 1_000_000_000_000;

/// Defaults: a tenth of a unit near plane, ten thousand units far plane, a
/// square aspect, a ten-unit orthographic half-extent, and a perspective
/// framing of tan of a sixth of a turn's half — a third of a half turn of
/// vertical field of view.
pub const DEFAULT_NEAR_MILLI: i64 = 100;

pub const DEFAULT_FAR_MILLI: i64 = 10_000_000;

pub const DEFAULT_ASPECT_MILLI: i64 = 1_000;

pub const DEFAULT_ORTHO_SIDE_MILLI: i64 = 10_000;

pub const DEFAULT_HALF_TAN_MILLI: i64 = 577;

pub open spec fn clamp_int(x: int, lo: int, hi: int) -> int {
    if x < lo {
        lo
    } else if x > hi {
        hi
    } else {
        x
    }
}

#[derive(Clone, Copy)]
pub enum Projection {
    Ortho { side: i64, aspect_ratio: i64, matrix: Option<ultraviolet::Mat4> },
    Perspective {
        half_tan: i64,
        aspect_ratio: i64,
        z_near: i64,
        z_far: i64,
        matrix: Option<ultraviolet::Mat4>,
    },
}

impl Projection {
    pub open spec fn wf(self) -> bool {
        match self {
            Projection::Ortho { side, aspect_ratio, .. } => MIN_SIDE_MILLI <= side
                <= MAX_SIDE_MILLI && MIN_ASPECT_MILLI <= aspect_ratio <= MAX_ASPECT_MILLI,
            Projection::Perspective { half_tan, aspect_ratio, z_near, z_far, .. } =>
                MIN_HALF_TAN_MILLI <= half_tan <= MAX_HALF_TAN_MILLI && MIN_ASPECT_MILLI
                    <= aspect_ratio <= MAX_ASPECT_MILLI && MIN_NEAR_MILLI <= z_near
                    <= MAX_NEAR_MILLI && MIN_FAR_MILLI <= z_far <= MAX_FAR_MILLI,
        }
    }

    /// The default orthographic framing: ten units, square.
    pub fn default_ortho() -> (r: Projection)
        ensures
            r == spec_new_ortho(DEFAULT_ORTHO_SIDE_MILLI as int, DEFAULT_ASPECT_MILLI as int),
            r.wf(),
    {
        Self::new_ortho(DEFAULT_ORTHO_SIDE_MILLI, DEFAULT_ASPECT_MILLI)
    }

    /// An orthographic projection; the inputs are clamped into their
    /// working ranges.
    pub fn new_ortho(side: i64, aspect_ratio: i64) -> (r: Projection)
        ensures
            r == spec_new_ortho(side as int, aspect_ratio as int),
            r.wf(),
    {
        Projection::Ortho {
            side: clamp_i64(side, MIN_SIDE_MILLI, MAX_SIDE_MILLI),
            aspect_ratio: clamp_i64(aspect_ratio, MIN_ASPECT_MILLI, MAX_ASPECT_MILLI),
            matrix: None,
        }
    }

    /// The default perspective framing.
    pub fn default_perspective() -> (r: Projection)
        ensures
            r == spec_default_perspective(),
            r.wf(),
    {
        Self::new_perspective(
            DEFAULT_HALF_TAN_MILLI,
            DEFAULT_ASPECT_MILLI,
            DEFAULT_NEAR_MILLI,
            DEFAULT_FAR_MILLI,
        )
    }

    /// A perspective projection; the inputs are clamped into their working
    /// ranges.
    pub fn new_perspective(half_tan: i64, aspect_ratio: i64, z_near: i64, z_far: i64) -> (r:
        Projection)
        ensures
            r == spec_new_perspective(
                half_tan as int,
                aspect_ratio as int,
                z_near as int,
                z_far as int,
            ),
            r.wf(),
    {
        Projection::Perspective {
            half_tan: clamp_i64(half_tan, MIN_HALF_TAN_MILLI, MAX_HALF_TAN_MILLI),
            aspect_ratio: clamp_i64(aspect_ratio, MIN_ASPECT_MILLI, MAX_ASPECT_MILLI),
            z_near: clamp_i64(z_near, MIN_NEAR_MILLI, MAX_NEAR_MILLI),
            z_far: clamp_i64(z_far, MIN_FAR_MILLI, MAX_FAR_MILLI),
            matrix: None,
        }
    }

    /// The cached matrix, if one has been set since the last mutation.
    pub fn matrix(&self) -> (r: Option<ultraviolet::Mat4>)
        ensures
            r == self.matrix_cache(),
    {
        match self {
            Projection::Ortho { matrix, .. } => *matrix,
            Projection::Perspective { matrix, .. } => *matrix,
        }
    }

    pub open spec fn matrix_cache(self) -> Option<ultraviolet::Mat4> {
        match self {
            Projection::Ortho { matrix, .. } => matrix,
            Projection::Perspective { matrix, .. } => matrix,
        }
    }

    /// Caches the matrix the caller computed for the current framing.
    pub fn set_matrix(&mut self, m: ultraviolet::Mat4)
        ensures
            final(self).matrix_cache() == Some(m),
            final(self).same_framing(*old(self)),
            old(self).wf() ==> final(self).wf(),
    {
        match self {
            Projection::Ortho { matrix, .. } => {
                *matrix = Some(m);
            },
            Projection::Perspective { matrix, .. } => {
                *matrix = Some(m);
            },
        }
    }

    /// Equal in everything but the cached matrix.
    pub open spec fn same_framing(self, other: Projection) -> bool {
        match (self, other) {
            (
                Projection::Ortho { side: s1, aspect_ratio: a1, .. },
                Projection::Ortho { side: s2, aspect_ratio: a2, .. },
            ) => s1 == s2 && a1 == a2,
            (
                Projection::Perspective { half_tan: t1, aspect_ratio: a1, z_near: n1, z_far: f1, .. },
                Projection::Perspective { half_tan: t2, aspect_ratio: a2, z_near: n2, z_far: f2, .. },
            ) => t1 == t2 && a1 == a2 && n1 == n2 && f1 == f2,
            _ => false,
        }
    }

    /// The other kind of projection, framed comparably: going to
    /// perspective, the framing becomes `side / near` against the default
    /// near plane; going to orthographic, the half-extent becomes
    /// `near * half_tan`, rounded to the nearest thousandth.
    pub fn swap(self) -> (r: Projection)
        requires
            self.wf(),
        ensures
            r == spec_swap(self),
            r.wf(),
    {
        match self {
            Projection::Ortho { side, aspect_ratio, .. } => {
                proof {
                    assert(1000 <= side as int * 1000 <= 1_000_000_000_000_000) by (nonlinear_arith)
                        requires
                            1 <= side <= MAX_SIDE_MILLI,
                    ;
                    assert(side as int * 1000 / 100 == side as int * 10) by (nonlinear_arith);
                    assert(10 <= side as int * 10 <= MAX_HALF_TAN_MILLI) by (nonlinear_arith)
                        requires
                            1 <= side <= MAX_SIDE_MILLI,
                    ;
                }
                let half_tan = (side as i128 * 1000 / (DEFAULT_NEAR_MILLI as i128)) as i64;
                Projection::Perspective {
                    half_tan,
                    aspect_ratio,
                    z_near: DEFAULT_NEAR_MILLI,
                    z_far: DEFAULT_FAR_MILLI,
                    matrix: None,
                }
            },
            Projection::Perspective { half_tan, aspect_ratio, z_near, .. } => {
                proof {
                    assert(0 <= z_near as int * half_tan as int
                        <= 1_000_000_000 * MAX_HALF_TAN_MILLI as int) by (nonlinear_arith)
                        requires
                            1 <= z_near <= MAX_NEAR_MILLI,
                            1 <= half_tan <= MAX_HALF_TAN_MILLI,
                    ;
                }
                let wide = (z_near as i128) * (half_tan as i128) + 500;
                let side = clamp_i128(wide / 1000, MIN_SIDE_MILLI, MAX_SIDE_MILLI);
                Projection::Ortho { side, aspect_ratio, matrix: None }
            },
        }
    }

    /// The same projection under a new aspect ratio; the cache is dropped.
    pub fn aspect_ratio(self, aspect_ratio: i64) -> (r: Projection)
        requires
            self.wf(),
        ensures
            r == spec_aspect(self, aspect_ratio as int),
            r.wf(),
    {
        let a = clamp_i64(aspect_ratio, MIN_ASPECT_MILLI, MAX_ASPECT_MILLI);
        match self {
            Projection::Ortho { side, .. } => Projection::Ortho {
                side,
                aspect_ratio: a,
                matrix: None,
            },
            Projection::Perspective { half_tan, z_near, z_far, .. } => Projection::Perspective {
                half_tan,
                aspect_ratio: a,
                z_near,
                z_far,
                matrix: None,
            },
        }
    }

    /// Widens or narrows the framing: an orthographic half-extent moves
    /// ten thousandths per step and never reaches zero; a perspective
    /// framing moves one thousandth per step and is kept away from both a
    /// closed-up and a degenerate, over-wide field of view.  The model's
    /// zoom unit is the framing parameter itself — the tangent of half
    /// the field of view — so a step widens the picture by a fixed
    /// fraction of a unit at the near plane; an angle-stepped zoom would
    /// cover the same range, between a field of view of one radian and a
    /// tenth short of a half turn (the clamp bounds below are those two
    /// angles' tangents), at a rate that differs away from the middle of
    /// the range.
    pub fn zoom(self, amount: i64) -> (r: Projection)
        requires
            self.wf(),
        ensures
            r == spec_zoom(self, amount as int),
            r.wf(),
    {
        match self {
            Projection::Ortho { side, aspect_ratio, .. } => {
                let wide = (side as i128) + (amount as i128) * 10;
                let side = clamp_i128(wide, ZOOM_SIDE_FLOOR_MILLI, MAX_SIDE_MILLI);
                Projection::Ortho { side, aspect_ratio, matrix: None }
            },
            Projection::Perspective { half_tan, aspect_ratio, z_near, z_far, .. } => {
                let wide = (half_tan as i128) + (amount as i128);
                let half_tan = clamp_i128(
                    wide,
                    ZOOM_HALF_TAN_FLOOR_MILLI,
                    ZOOM_HALF_TAN_CEIL_MILLI,
                );
                Projection::Perspective { half_tan, aspect_ratio, z_near, z_far, matrix: None }
            },
        }
    }
}

pub open spec fn spec_new_ortho(side: int, aspect_ratio: int) -> Projection {
    Projection::Ortho {
        side: clamp_int(side, MIN_SIDE_MILLI as int, MAX_SIDE_MILLI as int) as i64,
        aspect_ratio: clamp_int(
            aspect_ratio,
            MIN_ASPECT_MILLI as int,
            MAX_ASPECT_MILLI as int,
        ) as i64,
        matrix: None,
    }
}

pub open spec fn spec_new_perspective(half_tan: int, aspect_ratio: int, z_near: int, z_far: int) -> Projection {
    Projection::Perspective {
        half_tan: clamp_int(half_tan, MIN_HALF_TAN_MILLI as int, MAX_HALF_TAN_MILLI as int) as i64,
        aspect_ratio: clamp_int(
            aspect_ratio,
            MIN_ASPECT_MILLI as int,
            MAX_ASPECT_MILLI as int,
        ) as i64,
        z_near: clamp_int(z_near, MIN_NEAR_MILLI as int, MAX_NEAR_MILLI as int) as i64,
        z_far: clamp_int(z_far, MIN_FAR_MILLI as int, MAX_FAR_MILLI as int) as i64,
        matrix: None,
    }
}

pub open spec fn spec_default_perspective() -> Projection {
    spec_new_perspective(
        DEFAULT_HALF_TAN_MILLI as int,
        DEFAULT_ASPECT_MILLI as int,
        DEFAULT_NEAR_MILLI as int,
        DEFAULT_FAR_MILLI as int,
    )
}

/// What swapping yields, exactly.
pub open spec fn spec_swap(p: Projection) -> Projection {
    match p {
        Projection::Ortho { side, aspect_ratio, .. } => Projection::Perspective {
            half_tan: (side as int * 10) as i64,
            aspect_ratio,
            z_near: DEFAULT_NEAR_MILLI,
            z_far: DEFAULT_FAR_MILLI,
            matrix: None,
        },
        Projection::Perspective { half_tan, aspect_ratio, z_near, .. } => Projection::Ortho {
            side: clamp_int(
                (z_near as int * half_tan as int + 500) / 1000,
                MIN_SIDE_MILLI as int,
                MAX_SIDE_MILLI as int,
            ) as i64,
            aspect_ratio,
            matrix: None,
        },
    }
}

pub open spec fn spec_aspect(p: Projection, aspect_ratio: int) -> Projection {
    let a = clamp_int(aspect_ratio, MIN_ASPECT_MILLI as int, MAX_ASPECT_MILLI as int) as i64;
    match p {
        Projection::Ortho { side, .. } => Projection::Ortho {
            side,
            aspect_ratio: a,
            matrix: None,
        },
        Projection::Perspective { half_tan, z_near, z_far, .. } => Projection::Perspective {
            half_tan,
            aspect_ratio: a,
            z_near,
            z_far,
            matrix: None,
        },
    }
}

pub open spec fn spec_zoom(p: Projection, amount: int) -> Projection {
    match p {
        Projection::Ortho { side, aspect_ratio, .. } => Projection::Ortho {
            side: clamp_int(
                side as int + amount * 10,
                ZOOM_SIDE_FLOOR_MILLI as int,
                MAX_SIDE_MILLI as int,
            ) as i64,
            aspect_ratio,
            matrix: None,
        },
        Projection::Perspective { half_tan, aspect_ratio, z_near, z_far, .. } =>
            Projection::Perspective {
            half_tan: clamp_int(
                half_tan as int + amount,
                ZOOM_HALF_TAN_FLOOR_MILLI as int,
                ZOOM_HALF_TAN_CEIL_MILLI as int,
            ) as i64,
            aspect_ratio,
            z_near,
            z_far,
            matrix: None,
        },
    }
}

/// Law: swapping an orthographic projection to perspective and back yields
/// the very same half-extent — the two framing conversions are exact
/// inverses under the default near plane — with the aspect ratio kept.
pub proof fn lemma_swap_round_trip(side: i64, aspect_ratio: i64, m: Option<ultraviolet::Mat4>)
    requires
        MIN_SIDE_MILLI <= side <= MAX_SIDE_MILLI,
        MIN_ASPECT_MILLI <= aspect_ratio <= MAX_ASPECT_MILLI,
    ensures
        spec_swap(spec_swap(Projection::Ortho { side, aspect_ratio, matrix: m }))
            == (Projection::Ortho { side, aspect_ratio, matrix: None::<ultraviolet::Mat4> }),
{
    let p = Projection::Ortho { side, aspect_ratio, matrix: m };
    let q = spec_swap(p);
    assert(10 <= side as int * 10 <= MAX_HALF_TAN_MILLI) by (nonlinear_arith)
        requires
            1 <= side <= MAX_SIDE_MILLI,
    ;
    let ht = side as int * 10;
    assert((100 * ht + 500) / 1000 == side) by (nonlinear_arith)
        requires
            ht == side as int * 10,
            1 <= side,
    ;
    assert((100 * ht + 500) / 1000 <= MAX_SIDE_MILLI && (100 * ht + 500) / 1000
        >= MIN_SIDE_MILLI);
}

fn clamp_i64(x: i64, lo: i64, hi: i64) -> (r: i64)
    requires
        lo <= hi,
    ensures
        r as int == clamp_int(x as int, lo as int, hi as int),
{
    if x < lo {
        lo
    } else if x > hi {
        hi
    } else {
        x
    }
}

fn clamp_i128(x: i128, lo: i64, hi: i64) -> (r: i64)
    requires
        lo <= hi,
    ensures
        r as int == clamp_int(x as int, lo as int, hi as int),
{
    if x < lo as i128 {
        lo
    } else if x > hi as i128 {
        hi
    } else {
        x as i64
    }
}

} // verus!

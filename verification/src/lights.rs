//! Dynamic lights and their wire format.  A light source is two
//! four-component vectors — colour with intensity, then homogeneous position
//! — packed back to back: a fixed 32-byte stride with no implicit padding,
//! matching the std140 block the shader declares.
use vstd::prelude::*;

use crate::geom::vec3_homogeneous_point;
use crate::geom::vec3_to_homogeneous_point;
use crate::geom::vec4_clamp_unit;
use crate::geom::vec4_le_bytes;
use crate::geom::vec4_unit_clamped;

verus! {

/// A light's colour: red, green, blue and intensity, each clamped into the
/// unit interval at construction.
#[derive(Clone, Copy)]
pub struct LightColor {
    pub color: ultraviolet::Vec4,
}

impl LightColor {
    pub fn new(color: ultraviolet::Vec4) -> (r: LightColor)
        ensures
            r.color == vec4_unit_clamped(color),
    {
        LightColor { color: vec4_clamp_unit(&color) }
    }

    pub fn to_vec4(self) -> (r: ultraviolet::Vec4)
        ensures
            r == self.color,
    {
        self.color
    }
}

/// A position in world space.
#[derive(Clone, Copy)]
pub struct Position {
    pub position: ultraviolet::Vec3,
}

impl Position {
    pub fn new(position: ultraviolet::Vec3) -> (r: Position)
        ensures
            r.position == position,
    {
        Position { position }
    }

    pub fn to_vec3(self) -> (r: ultraviolet::Vec3)
        ensures
            r == self.position,
    {
        self.position
    }

    pub fn to_vec4(self) -> (r: ultraviolet::Vec4)
        ensures
            r == vec3_homogeneous_point(self.position),
    {
        vec3_to_homogeneous_point(&self.position)
    }
}

/// One entry of the lights block: colour, then homogeneous position.
#[derive(Clone, Copy)]
pub struct LightSource {
    pub color: ultraviolet::Vec4,
    pub position: ultraviolet::Vec4,
}

impl LightSource {
    pub fn new(color: &LightColor, position: &Position) -> (r: LightSource)
        ensures
            r.color == color.color,
            r.position == vec3_homogeneous_point(position.position),
    {
        LightSource {
            color: color.color,
            position: vec3_to_homogeneous_point(&position.position),
        }
    }
}

/// The 32 bytes of one light: 16 for the colour, 16 for the position.
pub open spec fn light_bytes(l: LightSource) -> Seq<u8> {
    vec4_le_bytes(l.color) + vec4_le_bytes(l.position)
}

/// The whole block's bytes: every light's 32 bytes, in order, tightly
/// packed.
pub open spec fn lights_bytes(s: Seq<LightSource>) -> Seq<u8>
    decreases s.len(),
{
    if s.len() == 0 {
        Seq::empty()
    } else {
        lights_bytes(s.drop_last()) + light_bytes(s.last())
    }
}

/// Packs the light list for upload.  The result is exactly 32 bytes per
/// light.
pub fn pack_lights(lights: &Vec<LightSource>) -> (r: Vec<u8>)
    requires
        lights@.len() * 32 <= usize::MAX,
    ensures
        r@ == lights_bytes(lights@),
        r@.len() == 32 * lights@.len(),
{
    let n = lights.len();
    let mut r: Vec<u8> = Vec::new();
    let mut i: usize = 0;
    while i < n
        invariant
            i <= n,
            n == lights@.len(),
            n * 32 <= usize::MAX,
            r@ == lights_bytes(lights@.take(i as int)),
            r@.len() == 32 * i,
        decreases n - i,
    {
        let light = &lights[i];
        let mut color_bytes = crate::geom::vec4_to_le_bytes(&light.color);
        let mut position_bytes = crate::geom::vec4_to_le_bytes(&light.position);
        r.append(&mut color_bytes);
        r.append(&mut position_bytes);
        proof {
            let taken = lights@.take(i + 1 as int);
            assert(taken.drop_last() =~= lights@.take(i as int));
            assert(taken.last() == lights@[i as int]);
            assert(r@ =~= lights_bytes(lights@.take(i as int)) + light_bytes(lights@[i as int]));
        }
        i += 1;
    }
    proof {
        assert(lights@.take(n as int) =~= lights@);
    }
    r
}

} // verus!

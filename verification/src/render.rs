//! The pinhole camera and the sphere-tracing renderer.
//!
//! A `ViewPort` turns camera parameters into an orthonormal-by-design
//! view basis and a per-pixel angular pitch; `render` walks every pixel,
//! asks the viewport for a ray, marches it against the scene and shades
//! the step count into an 8-bit intensity.  A ray that converges quickly
//! is bright; one that converges slowly or escapes to infinity exhausts
//! the budget and is darkest — the two are indistinguishable by design.

pub mod laws;

use vstd::prelude::*;

use crate::fixed::EPSILON;
use crate::fixed::SCALE;
use crate::fixed::add_sat;
use crate::fixed::div_t;
use crate::fixed::sat64;
use crate::fixed::sat_narrow;
use crate::fixed::spec_add;
use crate::fixed::spec_div_t;
use crate::linalg::vec3::Vec3;
use crate::objects::base::Scene;
use crate::objects::base::spec_scene_distance;
use crate::trig::radians_fp;
use crate::trig::spec_radians;
use crate::trig::spec_tan;
use crate::trig::tan_fp;

verus! {

/// The ray march's step budget.
pub const MAX_STEPS: u32 = 100;

/// A pinhole camera: a position, a right-handed orthonormal view basis
/// derived from the caller's forward and up hints, the pixel grid, and
/// the angular pitch of one pixel at unit distance.
pub struct ViewPort {
    pub pos: Vec3,
    pub forward: Vec3,
    pub up: Vec3,
    pub right: Vec3,
    pub width: u32,
    pub height: u32,
    pub delta: i64,
}

/// The angular pitch of one horizontal pixel:
/// `2 * tan(radians(fov) / 2) / width`.
pub open spec fn spec_delta(fov: i64, width: u32) -> i64 {
    let t = spec_tan(spec_div_t(spec_radians(fov), 2));
    spec_div_t(spec_add(t, t), width as i64)
}

/// A pixel coordinate recentred on the image's middle, in fixed point:
/// `p - extent / 2` pixels.
pub open spec fn spec_pixel_offset(p: u32, extent: u32) -> i64 {
    sat64(p as int * SCALE - extent as int * (SCALE / 2))
}

impl ViewPort {
    /// Build the camera.  The basis is derived in a fixed order:
    /// `forward` is the normalized forward hint; `right` is the
    /// normalized cross of `forward` with the up hint; `up` is then
    /// recomputed as the normalized cross of `right` with `forward`,
    /// discarding the hint's component along `forward`, so the basis
    /// comes out right-handed and orthonormal even for a skew hint.
    pub fn new(pos: &Vec3, forward: &Vec3, up: &Vec3, width: u32, height: u32, fov: i64) -> (v:
        ViewPort)
        requires
            width >= 1,
            height >= 1,
        ensures
            v.pos == *pos,
            v.width == width,
            v.height == height,
            v.forward == forward.spec_normalized(),
            v.right == forward.spec_normalized().spec_cross(*up).spec_normalized(),
            v.up == v.right.spec_cross(v.forward).spec_normalized(),
            v.delta == spec_delta(fov, width),
    {
        let forward_n = forward.normalized();
        let right = forward_n.cross(up).normalized();
        let up_n = right.cross(&forward_n).normalized();
        let t = tan_fp(div_t(radians_fp(fov), 2));
        let delta = div_t(add_sat(t, t), width as i64);
        ViewPort { pos: *pos, forward: forward_n, up: up_n, right, width, height, delta }
    }

    /// The ray through pixel `(x, y)` before normalization: the forward
    /// axis, pushed right by the pixel's horizontal offset and down by
    /// its vertical offset (row 0 is the top of the image).
    pub open spec fn spec_ray_sum(self, x: u32, y: u32) -> Vec3 {
        self.forward.spec_add(
            self.right.spec_scale(self.delta).spec_scale(spec_pixel_offset(x, self.width)),
        ).spec_sub(self.up.spec_scale(self.delta).spec_scale(spec_pixel_offset(y, self.height)))
    }

    /// The ray through pixel `(x, y)`, normalized.
    pub open spec fn spec_ray(self, x: u32, y: u32) -> Vec3 {
        self.spec_ray_sum(x, y).spec_normalized()
    }

    pub fn ray_from_pixel(&self, x: u32, y: u32) -> (r: Vec3)
        ensures
            r == self.spec_ray(x, y),
    {
        let off_x = sat_narrow(x as i128 * (SCALE as i128) - self.width as i128 * (SCALE as i128
            / 2));
        let off_y = sat_narrow(y as i128 * (SCALE as i128) - self.height as i128 * (SCALE as i128
            / 2));
        self.forward.add(&self.right.scale(self.delta).scale(off_x)).sub(
            &self.up.scale(self.delta).scale(off_y),
        ).normalized()
    }
}

/// How many steps the march spends before it first sees a distance
/// under `EPSILON`, capped one short of the budget: from the running
/// ray parameter `total`, each level samples the scene at
/// `from + dir * total`, stops at a hit, and otherwise advances by the
/// sampled distance.  A distance gone degenerate (saturated) never
/// passes the threshold, so such a ray spends its whole budget, by
/// design.
pub open spec fn spec_march(
    objs: Seq<crate::objects::base::Object>,
    from: Vec3,
    dir: Vec3,
    total: i64,
    fuel: nat,
) -> nat
    decreases fuel,
{
    if fuel == 0 {
        0
    } else {
        let p = from.spec_add(dir.spec_scale(total));
        let d = spec_scene_distance(objs, p);
        if d < EPSILON {
            0
        } else if fuel == 1 {
            0
        } else {
            1 + spec_march(objs, from, dir, spec_add(total, d), (fuel - 1) as nat)
        }
    }
}

/// The grayscale value of a step count: `1 - steps / MAX_STEPS`,
/// scaled to 0..=255 and rounded to the nearest integer.
pub open spec fn spec_shade(steps: nat) -> u8 {
    (((MAX_STEPS - steps) * 255 + MAX_STEPS / 2) / (MAX_STEPS as int)) as u8
}

/// The pixel a ray yields: its march's step count, shaded.
pub open spec fn spec_cast_ray(
    objs: Seq<crate::objects::base::Object>,
    from: Vec3,
    dir: Vec3,
) -> u8 {
    spec_shade(spec_march(objs, from, dir, 0, MAX_STEPS as nat))
}

/// March one ray from `from` along `dir` against the scene and shade
/// the step count it used.
pub fn cast_ray(from: &Vec3, dir: &Vec3, scene: &Scene) -> (px: u8)
    ensures
        px == spec_cast_ray(scene.0@, *from, *dir),
{
    let mut total_dist: i64 = 0;
    let mut steps: u32 = 0;
    let mut i: u32 = 0;
    while i < MAX_STEPS
        invariant_except_break
            i <= MAX_STEPS,
            steps <= i,
            steps < MAX_STEPS,
            i < MAX_STEPS ==> spec_march(scene.0@, *from, *dir, 0, MAX_STEPS as nat) == i
                + spec_march(scene.0@, *from, *dir, total_dist, (MAX_STEPS - i) as nat),
            i == MAX_STEPS ==> steps == spec_march(scene.0@, *from, *dir, 0, MAX_STEPS as nat),
        ensures
            steps < MAX_STEPS,
            steps == spec_march(scene.0@, *from, *dir, 0, MAX_STEPS as nat),
        decreases MAX_STEPS - i,
    {
        steps = i;
        let ghost total0 = total_dist;
        let p = from.add(&dir.scale(total_dist));
        let dist = scene.distance_estimator(&p);
        total_dist = add_sat(total_dist, dist);
        if dist < EPSILON {
            proof {
                assert(spec_march(scene.0@, *from, *dir, total0, (MAX_STEPS - i) as nat) == 0);
            }
            break ;
        }
        proof {
            if i < MAX_STEPS - 1 {
                assert(spec_march(scene.0@, *from, *dir, total0, (MAX_STEPS - i) as nat) == 1
                    + spec_march(
                    scene.0@,
                    *from,
                    *dir,
                    total_dist,
                    (MAX_STEPS - i - 1) as nat,
                ));
            } else {
                assert(spec_march(scene.0@, *from, *dir, total0, 1) == 0);
            }
        }
        i = i + 1;
    }
    let v: u32 = ((MAX_STEPS - steps) * 255 + MAX_STEPS / 2) / MAX_STEPS;
    v as u8
}

/// A dense grid of 8-bit grayscale samples, row-major from the top.
pub struct Image {
    pub width: u32,
    pub height: u32,
    pub pixels: Vec<u8>,
}

impl Image {
    /// The grid holds exactly one sample per pixel.
    pub open spec fn wf(self) -> bool {
        self.pixels@.len() == self.width as int * self.height as int
    }

    /// The sample at `(x, y)`.
    pub fn get(&self, x: u32, y: u32) -> (p: u8)
        requires
            self.wf(),
            x < self.width,
            y < self.height,
        ensures
            p == self.pixels@[y as int * self.width as int + x as int],
    {
        let n = self.pixels.len();
        proof {
            // `n` being a machine word bounds the grid's area.
            assert(n == self.width as int * self.height as int);
            assert((y as int) * (self.width as int) + (x as int) < (self.width as int) * (
            self.height as int)) by (nonlinear_arith)
                requires
                    x < self.width,
                    y < self.height,
            ;
        }
        let idx: usize = (y as usize) * (self.width as usize) + (x as usize);
        self.pixels[idx]
    }
}

/// Render the scene through the viewport: one ray per pixel, row by row
/// from the top, each pixel shaded independently of all others.  The
/// result is a pure function of the viewport and the scene, so a second
/// render of the same pair is identical bit for bit.
pub fn render(port: &ViewPort, scene: &Scene) -> (img: Image)
    requires
        port.width as int * port.height as int <= usize::MAX as int,
    ensures
        img.width == port.width,
        img.height == port.height,
        img.wf(),
        forall|x: u32, y: u32|
            x < port.width && y < port.height ==> img.pixels@[y as int * port.width as int
                + x as int] == spec_cast_ray(scene.0@, port.pos, port.spec_ray(x, y)),
{
    let w = port.width;
    let h = port.height;
    let mut pixels: Vec<u8> = Vec::new();
    for y in 0..h
        invariant
            w == port.width,
            h == port.height,
            pixels@.len() == y as int * w as int,
            forall|xx: u32, yy: u32|
                xx < w && yy < y ==> pixels@[yy as int * w as int + xx as int] == spec_cast_ray(
                    scene.0@,
                    port.pos,
                    port.spec_ray(xx, yy),
                ),
    {
        for x in 0..w
            invariant
                w == port.width,
                h == port.height,
                y < h,
                pixels@.len() == y as int * w as int + x as int,
                forall|xx: u32, yy: u32|
                    xx < w && yy < y ==> pixels@[yy as int * w as int + xx as int]
                        == spec_cast_ray(scene.0@, port.pos, port.spec_ray(xx, yy)),
                forall|xx: u32|
                    xx < x ==> pixels@[y as int * w as int + xx as int] == spec_cast_ray(
                        scene.0@,
                        port.pos,
                        port.spec_ray(xx, y),
                    ),
        {
            let ray = port.ray_from_pixel(x, y);
            let px = cast_ray(&port.pos, &ray, scene);
            pixels.push(px);
            proof {
                // Rows already written keep their values across the push.
                assert forall|xx: u32, yy: u32| xx < w && yy < y implies pixels@[(yy as int) * (
                w as int) + (xx as int)] == spec_cast_ray(
                    scene.0@,
                    port.pos,
                    port.spec_ray(xx, yy),
                ) by {
                    assert((yy as int) * (w as int) + (xx as int) < (y as int) * (w as int))
                        by (nonlinear_arith)
                        requires
                            yy < y,
                            xx < w,
                    ;
                }
            }
        }
        proof {
            assert((y as int + 1) * (w as int) == (y as int) * (w as int) + (w as int))
                by (nonlinear_arith);
            assert forall|xx: u32, yy: u32| xx < w && yy < y + 1 implies pixels@[(yy as int) * (
            w as int) + (xx as int)] == spec_cast_ray(scene.0@, port.pos, port.spec_ray(xx, yy)) by {
                if yy < y {
                    assert((yy as int) * (w as int) + (xx as int) < (y as int) * (w as int))
                        by (nonlinear_arith)
                        requires
                            yy < y,
                            xx < w,
                    ;
                } else {
                    assert(yy == y);
                }
            }
        }
    }
    proof {
        assert((h as int) * (w as int) == (w as int) * (h as int)) by (nonlinear_arith);
    }
    Image { width: w, height: h, pixels }
}

} // verus!

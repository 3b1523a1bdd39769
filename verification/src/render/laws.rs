//! Laws of the renderer that span more than one call.

use vstd::prelude::*;

use crate::fixed::EPSILON;
use crate::fixed::INFINITY;
use crate::fixed::SCALE;
use crate::fixed::isqrt;
use crate::fixed::spec_add;
use crate::linalg::laws::lemma_normalized_unit_length;
use crate::linalg::vec3::Vec3;
use crate::objects::base::Object;
use crate::render::Image;
use crate::render::MAX_STEPS;
use crate::render::ViewPort;
use crate::render::spec_cast_ray;
use crate::render::spec_march;
use crate::render::spec_shade;

verus! {

/// With nothing in the scene every sample is at `INFINITY`, so the
/// march never stops early.
proof fn lemma_empty_march(from: Vec3, dir: Vec3, total: i64, fuel: nat)
    requires
        fuel >= 1,
    ensures
        spec_march(Seq::<Object>::empty(), from, dir, total, fuel) == (fuel - 1) as nat,
    decreases fuel,
{
    assert(INFINITY >= EPSILON);
    if fuel >= 2 {
        let p = from.spec_add(dir.spec_scale(total));
        lemma_empty_march(from, dir, spec_add(total, INFINITY), (fuel - 1) as nat);
    }
}

/// An empty scene defeats every ray: the march spends its whole step
/// budget, and the pixel lands on the darkest shade the step-count
/// visualization can produce — the same shade as any other miss.
pub proof fn lemma_empty_scene_renders_darkest(from: Vec3, dir: Vec3)
    ensures
        spec_cast_ray(Seq::<Object>::empty(), from, dir) == spec_shade((MAX_STEPS - 1) as nat),
{
    lemma_empty_march(from, dir, 0, MAX_STEPS as nat);
}

/// Every ray the viewport hands out has unit length to within a few
/// millionths, whenever the vector it normalizes is at least one long
/// (a camera fed a degenerate forward hint, or a forward parallel to
/// its up hint, can collapse that vector, and such a ray is garbage by
/// design, the way a float pipeline would silently hand back NaN).
pub proof fn lemma_ray_unit_length(port: ViewPort, x: u32, y: u32)
    requires
        port.spec_ray_sum(x, y).spec_len() >= SCALE,
        isqrt(port.spec_ray_sum(x, y).spec_len_sq()) <= i64::MAX,
    ensures
        SCALE - 4 <= port.spec_ray(x, y).spec_len() <= SCALE + 1,
{
    lemma_normalized_unit_length(port.spec_ray_sum(x, y));
}

/// Rendering is deterministic: any two images that satisfy `render`'s
/// contract for the same viewport and scene are identical, bit for bit.
pub proof fn lemma_render_deterministic(port: ViewPort, objs: Seq<Object>, a: Image, b: Image)
    requires
        a.width == port.width,
        a.height == port.height,
        a.wf(),
        b.width == port.width,
        b.height == port.height,
        b.wf(),
        forall|x: u32, y: u32|
            x < port.width && y < port.height ==> a.pixels@[y as int * port.width as int
                + x as int] == spec_cast_ray(objs, port.pos, port.spec_ray(x, y)),
        forall|x: u32, y: u32|
            x < port.width && y < port.height ==> b.pixels@[y as int * port.width as int
                + x as int] == spec_cast_ray(objs, port.pos, port.spec_ray(x, y)),
    ensures
        a.pixels@ == b.pixels@,
{
    let w = port.width as int;
    let h = port.height as int;
    assert forall|i: int| 0 <= i < a.pixels@.len() implies a.pixels@[i] == b.pixels@[i] by {
        assert(w >= 1 && h >= 1) by (nonlinear_arith)
            requires
                0 <= i < w * h,
                w >= 0,
                h >= 0,
        ;
        let yy = i / w;
        let xx = i % w;
        vstd::arithmetic::div_mod::lemma_fundamental_div_mod(i, w);
        vstd::arithmetic::div_mod::lemma_mod_division_less_than_divisor(i, w);
        vstd::arithmetic::div_mod::lemma_div_pos_is_pos(i, w);
        if yy >= h {
            vstd::arithmetic::mul::lemma_mul_inequality(h, yy, w);
            assert(false);
        }
        let xu = xx as u32;
        let yu = yy as u32;
        assert(xu as int == xx && yu as int == yy);
        assert(a.pixels@[yu as int * w + xu as int] == spec_cast_ray(
            objs,
            port.pos,
            port.spec_ray(xu, yu),
        ));
        assert(b.pixels@[yu as int * w + xu as int] == spec_cast_ray(
            objs,
            port.pos,
            port.spec_ray(xu, yu),
        ));
        vstd::arithmetic::mul::lemma_mul_is_commutative(yy, w);
        assert(i == yy * w + xx);
    }
    assert(a.pixels@ =~= b.pixels@);
}

} // verus!

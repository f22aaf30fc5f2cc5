//! The virtual pinhole camera: position, forward direction, vertical field
//! of view, clip planes and image size, with memoized projection and view
//! matrices and their inverses (recomputed only on change). Per-pixel rays
//! are produced row-major, top image row first, by unprojecting the pixel
//! center through the inverse projection and rotating the normalized
//! view-space direction into the world by the inverse view.

use crate::fx::{
    fx_add, fx_div, fx_mul, fx_neg, fx_sub, spec_add, spec_div, spec_mul, spec_neg, spec_sub,
    FX_ONE,
};
use crate::trig::{fx_cos, fx_sin, fx_tan, spec_cos, spec_sin, spec_tan, DEG_TO_RAD_FX};
use crate::vec::{
    spec_v3_add, spec_v3_cross, spec_v3_dot, spec_v3_normalize, spec_v3_scale, Fx3,
};
use vstd::prelude::*;

verus! {

/// A vector of four 16.16 fixed-point components.
#[derive(Clone, Copy, PartialEq, Eq, Structural, Debug)]
pub struct Fx4 {
    pub x: i64,
    pub y: i64,
    pub z: i64,
    pub w: i64,
}

/// A 4x4 fixed-point matrix, stored by columns.
#[derive(Clone, Copy, PartialEq, Eq, Structural, Debug)]
pub struct Mat4 {
    pub x_axis: Fx4,
    pub y_axis: Fx4,
    pub z_axis: Fx4,
    pub w_axis: Fx4,
}

/// The identity matrix.
pub open spec fn spec_m4_identity() -> Mat4 {
    Mat4 {
        x_axis: Fx4 { x: FX_ONE, y: 0, z: 0, w: 0 },
        y_axis: Fx4 { x: 0, y: FX_ONE, z: 0, w: 0 },
        z_axis: Fx4 { x: 0, y: 0, z: FX_ONE, w: 0 },
        w_axis: Fx4 { x: 0, y: 0, z: 0, w: FX_ONE },
    }
}

/// Matrix times column vector.
pub open spec fn spec_m4_mul_v4(m: Mat4, v: Fx4) -> Fx4 {
    Fx4 {
        x: spec_add(
            spec_add(spec_mul(m.x_axis.x, v.x), spec_mul(m.y_axis.x, v.y)),
            spec_add(spec_mul(m.z_axis.x, v.z), spec_mul(m.w_axis.x, v.w)),
        ),
        y: spec_add(
            spec_add(spec_mul(m.x_axis.y, v.x), spec_mul(m.y_axis.y, v.y)),
            spec_add(spec_mul(m.z_axis.y, v.z), spec_mul(m.w_axis.y, v.w)),
        ),
        z: spec_add(
            spec_add(spec_mul(m.x_axis.z, v.x), spec_mul(m.y_axis.z, v.y)),
            spec_add(spec_mul(m.z_axis.z, v.z), spec_mul(m.w_axis.z, v.w)),
        ),
        w: spec_add(
            spec_add(spec_mul(m.x_axis.w, v.x), spec_mul(m.y_axis.w, v.y)),
            spec_add(spec_mul(m.z_axis.w, v.z), spec_mul(m.w_axis.w, v.w)),
        ),
    }
}

impl Mat4 {
    /// The identity matrix.
    pub fn identity() -> (r: Mat4)
        ensures
            r == spec_m4_identity(),
    {
        Mat4 {
            x_axis: Fx4 { x: FX_ONE, y: 0, z: 0, w: 0 },
            y_axis: Fx4 { x: 0, y: FX_ONE, z: 0, w: 0 },
            z_axis: Fx4 { x: 0, y: 0, z: FX_ONE, w: 0 },
            w_axis: Fx4 { x: 0, y: 0, z: 0, w: FX_ONE },
        }
    }

    /// Matrix times column vector.
    pub fn mul_vec4(&self, v: &Fx4) -> (r: Fx4)
        ensures
            r == spec_m4_mul_v4(*self, *v),
    {
        Fx4 {
            x: fx_add(
                fx_add(fx_mul(self.x_axis.x, v.x), fx_mul(self.y_axis.x, v.y)),
                fx_add(fx_mul(self.z_axis.x, v.z), fx_mul(self.w_axis.x, v.w)),
            ),
            y: fx_add(
                fx_add(fx_mul(self.x_axis.y, v.x), fx_mul(self.y_axis.y, v.y)),
                fx_add(fx_mul(self.z_axis.y, v.z), fx_mul(self.w_axis.y, v.w)),
            ),
            z: fx_add(
                fx_add(fx_mul(self.x_axis.z, v.x), fx_mul(self.y_axis.z, v.y)),
                fx_add(fx_mul(self.z_axis.z, v.z), fx_mul(self.w_axis.z, v.w)),
            ),
            w: fx_add(
                fx_add(fx_mul(self.x_axis.w, v.x), fx_mul(self.y_axis.w, v.y)),
                fx_add(fx_mul(self.z_axis.w, v.z), fx_mul(self.w_axis.w, v.w)),
            ),
        }
    }
}

/// The world up axis, fixed to Y.
pub open spec fn spec_world_up() -> Fx3 {
    Fx3 { x: 0, y: FX_ONE, z: 0 }
}

/// A `u32` count as a fixed-point value.
pub open spec fn spec_u32_fx(n: u32) -> i64 {
    (n * FX_ONE) as i64
}

/// Axis-angle rotation of `v` about the unit axis `k` by `theta`
/// (Rodrigues): `v cos + (k x v) sin + k (k . v) (1 - cos)`.
pub open spec fn spec_rodrigues(v: Fx3, k: Fx3, theta: i64) -> Fx3 {
    spec_v3_add(
        spec_v3_add(
            spec_v3_scale(v, spec_cos(theta)),
            spec_v3_scale(spec_v3_cross(k, v), spec_sin(theta)),
        ),
        spec_v3_scale(spec_v3_scale(k, spec_v3_dot(k, v)), spec_sub(FX_ONE, spec_cos(theta))),
    )
}

/// Axis-angle rotation of `v` about the unit axis `k` by `theta`.
fn rodrigues(v: &Fx3, k: &Fx3, theta: i64) -> (r: Fx3)
    ensures
        r == spec_rodrigues(*v, *k, theta),
{
    let c = fx_cos(theta);
    let s = fx_sin(theta);
    v.scale(c).add(&k.cross(v).scale(s)).add(&k.scale(k.dot(v)).scale(fx_sub(FX_ONE, c)))
}

/// The pinhole camera.
#[derive(Clone, Copy, PartialEq, Eq, Structural, Debug)]
pub struct Camera {
    pub projection: Mat4,
    pub view: Mat4,
    pub inverse_projection: Mat4,
    pub inverse_view: Mat4,
    pub vertical_fov: i64,
    pub near_clip: i64,
    pub far_clip: i64,
    pub position: Fx3,
    pub forward: Fx3,
    pub width: u32,
    pub height: u32,
}

/// The tangent of half the vertical field of view (given in degrees).
pub open spec fn spec_tan_half_fov(c: Camera) -> i64 {
    spec_tan(spec_mul(spec_mul(c.vertical_fov, 32768), DEG_TO_RAD_FX))
}

/// The right-handed perspective projection of the camera.
pub open spec fn spec_projection(c: Camera) -> Mat4 {
    let aspect = spec_div(spec_u32_fx(c.width), spec_u32_fx(c.height));
    let f = spec_div(FX_ONE, spec_tan_half_fov(c));
    let cc = spec_div(c.far_clip, spec_sub(c.near_clip, c.far_clip));
    let dd = spec_mul(cc, c.near_clip);
    Mat4 {
        x_axis: Fx4 { x: spec_div(f, aspect), y: 0, z: 0, w: 0 },
        y_axis: Fx4 { x: 0, y: f, z: 0, w: 0 },
        z_axis: Fx4 { x: 0, y: 0, z: cc, w: spec_neg(FX_ONE) },
        w_axis: Fx4 { x: 0, y: 0, z: dd, w: 0 },
    }
}

/// The closed-form inverse of the perspective projection.
pub open spec fn spec_inverse_projection(c: Camera) -> Mat4 {
    let aspect = spec_div(spec_u32_fx(c.width), spec_u32_fx(c.height));
    let f = spec_div(FX_ONE, spec_tan_half_fov(c));
    let cc = spec_div(c.far_clip, spec_sub(c.near_clip, c.far_clip));
    let dd = spec_mul(cc, c.near_clip);
    Mat4 {
        x_axis: Fx4 { x: spec_div(aspect, f), y: 0, z: 0, w: 0 },
        y_axis: Fx4 { x: 0, y: spec_div(FX_ONE, f), z: 0, w: 0 },
        z_axis: Fx4 { x: 0, y: 0, z: 0, w: spec_div(FX_ONE, dd) },
        w_axis: Fx4 { x: 0, y: 0, z: spec_neg(FX_ONE), w: spec_div(cc, dd) },
    }
}

/// The camera's orthonormal basis: unit forward, right, and camera up.
pub open spec fn spec_basis(c: Camera) -> (Fx3, Fx3, Fx3) {
    let fwd = spec_v3_normalize(c.forward);
    let s = spec_v3_normalize(spec_v3_cross(fwd, spec_world_up()));
    let u = spec_v3_cross(s, fwd);
    (fwd, s, u)
}

/// The right-handed look-at view matrix of the camera.
pub open spec fn spec_view(c: Camera) -> Mat4 {
    let b = spec_basis(c);
    let fwd = b.0;
    let s = b.1;
    let u = b.2;
    Mat4 {
        x_axis: Fx4 { x: s.x, y: u.x, z: spec_neg(fwd.x), w: 0 },
        y_axis: Fx4 { x: s.y, y: u.y, z: spec_neg(fwd.y), w: 0 },
        z_axis: Fx4 { x: s.z, y: u.z, z: spec_neg(fwd.z), w: 0 },
        w_axis: Fx4 {
            x: spec_neg(spec_v3_dot(s, c.position)),
            y: spec_neg(spec_v3_dot(u, c.position)),
            z: spec_v3_dot(fwd, c.position),
            w: FX_ONE,
        },
    }
}

/// The closed-form inverse of the view matrix: the transposed rotation
/// with the camera position as translation.
pub open spec fn spec_inverse_view(c: Camera) -> Mat4 {
    let b = spec_basis(c);
    let fwd = b.0;
    let s = b.1;
    let u = b.2;
    Mat4 {
        x_axis: Fx4 { x: s.x, y: s.y, z: s.z, w: 0 },
        y_axis: Fx4 { x: u.x, y: u.y, z: u.z, w: 0 },
        z_axis: Fx4 { x: spec_neg(fwd.x), y: spec_neg(fwd.y), z: spec_neg(fwd.z), w: 0 },
        w_axis: Fx4 { x: c.position.x, y: c.position.y, z: c.position.z, w: FX_ONE },
    }
}

/// The unit world-space ray direction through the center of pixel
/// `(x, y)`: normalized device coordinates, unprojected through the
/// inverse projection, the homogeneous ratio normalized, then rotated into
/// the world (translation dropped) by the inverse view.
pub open spec fn spec_ray_direction(c: Camera, x: int, y: int) -> Fx3 {
    let ux = spec_sub(spec_div(((2 * x + 1) * FX_ONE) as i64, spec_u32_fx(c.width)), FX_ONE);
    let uy = spec_sub(spec_div(((2 * y + 1) * FX_ONE) as i64, spec_u32_fx(c.height)), FX_ONE);
    let target = spec_m4_mul_v4(c.inverse_projection, Fx4 { x: ux, y: uy, z: FX_ONE, w: FX_ONE });
    let ratio = Fx3 {
        x: spec_div(target.x, target.w),
        y: spec_div(target.y, target.w),
        z: spec_div(target.z, target.w),
    };
    let dir = spec_v3_normalize(ratio);
    let world = spec_m4_mul_v4(c.inverse_view, Fx4 { x: dir.x, y: dir.y, z: dir.z, w: 0 });
    Fx3 { x: world.x, y: world.y, z: world.z }
}

impl Camera {
    /// A fresh camera at (0, 0, 3) looking along -Z over a 1x1 image, its
    /// derived matrices already computed.
    pub fn new(vertical_fov: i64, near_clip: i64, far_clip: i64) -> (r: Camera)
        ensures
            r.vertical_fov == vertical_fov,
            r.near_clip == near_clip,
            r.far_clip == far_clip,
            r.position == (Fx3 { x: 0, y: 0, z: (3 * FX_ONE) as i64 }),
            r.forward == (Fx3 { x: 0, y: 0, z: (-FX_ONE) as i64 }),
            r.width == 1u32,
            r.height == 1u32,
            r.projection == spec_projection(r),
            r.inverse_projection == spec_inverse_projection(r),
            r.view == spec_view(r),
            r.inverse_view == spec_inverse_view(r),
    {
        let mut cam = Camera {
            projection: Mat4::identity(),
            view: Mat4::identity(),
            inverse_projection: Mat4::identity(),
            inverse_view: Mat4::identity(),
            vertical_fov,
            near_clip,
            far_clip,
            position: Fx3 { x: 0, y: 0, z: 3 * FX_ONE },
            forward: Fx3 { x: 0, y: 0, z: -FX_ONE },
            width: 1,
            height: 1,
        };
        cam.recalculate_projection();
        cam.recalculate_view();
        cam
    }

    /// Recompute the projection matrix and its inverse from the field of
    /// view, the aspect ratio, and the clip planes.
    pub fn recalculate_projection(&mut self)
        ensures
            final (self).projection == spec_projection(*old(self)),
            final (self).inverse_projection == spec_inverse_projection(*old(self)),
            final (self).view == old(self).view,
            final (self).inverse_view == old(self).inverse_view,
            final (self).vertical_fov == old(self).vertical_fov,
            final (self).near_clip == old(self).near_clip,
            final (self).far_clip == old(self).far_clip,
            final (self).position == old(self).position,
            final (self).forward == old(self).forward,
            final (self).width == old(self).width,
            final (self).height == old(self).height,
    {
        let wf = (self.width as i64) * 65536;
        let hf = (self.height as i64) * 65536;
        let aspect = fx_div(wf, hf);
        let tan_half = fx_tan(fx_mul(fx_mul(self.vertical_fov, 32768), DEG_TO_RAD_FX));
        let f = fx_div(FX_ONE, tan_half);
        let cc = fx_div(self.far_clip, fx_sub(self.near_clip, self.far_clip));
        let dd = fx_mul(cc, self.near_clip);
        self.projection = Mat4 {
            x_axis: Fx4 { x: fx_div(f, aspect), y: 0, z: 0, w: 0 },
            y_axis: Fx4 { x: 0, y: f, z: 0, w: 0 },
            z_axis: Fx4 { x: 0, y: 0, z: cc, w: -FX_ONE },
            w_axis: Fx4 { x: 0, y: 0, z: dd, w: 0 },
        };
        self.inverse_projection = Mat4 {
            x_axis: Fx4 { x: fx_div(aspect, f), y: 0, z: 0, w: 0 },
            y_axis: Fx4 { x: 0, y: fx_div(FX_ONE, f), z: 0, w: 0 },
            z_axis: Fx4 { x: 0, y: 0, z: 0, w: fx_div(FX_ONE, dd) },
            w_axis: Fx4 { x: 0, y: 0, z: fx_neg(FX_ONE), w: fx_div(cc, dd) },
        };
    }

    /// Recompute the view matrix and its inverse from the position and the
    /// forward direction, with world up fixed to Y.
    pub fn recalculate_view(&mut self)
        ensures
            final (self).view == spec_view(*old(self)),
            final (self).inverse_view == spec_inverse_view(*old(self)),
            final (self).projection == old(self).projection,
            final (self).inverse_projection == old(self).inverse_projection,
            final (self).vertical_fov == old(self).vertical_fov,
            final (self).near_clip == old(self).near_clip,
            final (self).far_clip == old(self).far_clip,
            final (self).position == old(self).position,
            final (self).forward == old(self).forward,
            final (self).width == old(self).width,
            final (self).height == old(self).height,
    {
        let up = Fx3 { x: 0, y: FX_ONE, z: 0 };
        let fwd = self.forward.normalize();
        let s = fwd.cross(&up).normalize();
        let u = s.cross(&fwd);
        self.view = Mat4 {
            x_axis: Fx4 { x: s.x, y: u.x, z: fx_neg(fwd.x), w: 0 },
            y_axis: Fx4 { x: s.y, y: u.y, z: fx_neg(fwd.y), w: 0 },
            z_axis: Fx4 { x: s.z, y: u.z, z: fx_neg(fwd.z), w: 0 },
            w_axis: Fx4 {
                x: fx_neg(s.dot(&self.position)),
                y: fx_neg(u.dot(&self.position)),
                z: fwd.dot(&self.position),
                w: FX_ONE,
            },
        };
        self.inverse_view = Mat4 {
            x_axis: Fx4 { x: s.x, y: s.y, z: s.z, w: 0 },
            y_axis: Fx4 { x: u.x, y: u.y, z: u.z, w: 0 },
            z_axis: Fx4 { x: fx_neg(fwd.x), y: fx_neg(fwd.y), z: fx_neg(fwd.z), w: 0 },
            w_axis: Fx4 { x: self.position.x, y: self.position.y, z: self.position.z, w: FX_ONE },
        };
    }

    /// Move the camera along a direction and recompute the view.
    pub fn translate(&mut self, dir: Fx3, speed: i64)
        ensures
            final (self).position == spec_v3_add(old(self).position, spec_v3_scale(dir, speed)),
            final (self).forward == old(self).forward,
            final (self).view == spec_view(*final (self)),
            final (self).inverse_view == spec_inverse_view(*final (self)),
            final (self).projection == old(self).projection,
            final (self).inverse_projection == old(self).inverse_projection,
            final (self).vertical_fov == old(self).vertical_fov,
            final (self).width == old(self).width,
            final (self).height == old(self).height,
    {
        self.position = self.position.add(&dir.scale(speed));
        self.recalculate_view();
    }

    /// Turn the camera by a mouse delta: compose a yaw rotation about the
    /// world up axis with a pitch rotation about the current right vector,
    /// apply both to the forward direction, renormalize, and recompute the
    /// view. Pitch is not clamped: steering past the vertical inverts the
    /// roll, as the pinhole model allows.
    pub fn rotate(&mut self, dx: i64, dy: i64, speed: i64)
        ensures
            final (self).forward == ({
                let up = spec_world_up();
                let right = spec_v3_normalize(spec_v3_cross(old(self).forward, up));
                let v1 = spec_rodrigues(old(self).forward, up, spec_mul(spec_neg(dx), speed));
                let v2 = spec_rodrigues(v1, right, spec_mul(spec_neg(dy), speed));
                spec_v3_normalize(v2)
            }),
            final (self).position == old(self).position,
            final (self).view == spec_view(*final (self)),
            final (self).inverse_view == spec_inverse_view(*final (self)),
            final (self).projection == old(self).projection,
            final (self).inverse_projection == old(self).inverse_projection,
            final (self).vertical_fov == old(self).vertical_fov,
            final (self).width == old(self).width,
            final (self).height == old(self).height,
    {
        let up = Fx3 { x: 0, y: FX_ONE, z: 0 };
        let right = self.forward.cross(&up).normalize();
        let yaw = fx_mul(fx_neg(dx), speed);
        let pitch = fx_mul(fx_neg(dy), speed);
        let v1 = rodrigues(&self.forward, &up, yaw);
        let v2 = rodrigues(&v1, &right, pitch);
        self.forward = v2.normalize();
        self.recalculate_view();
    }

    /// Adopt a new image size: a no-op if unchanged, otherwise store it and
    /// recompute the projection, the view, and both inverses.
    pub fn on_resize(&mut self, width: u32, height: u32)
        ensures
            width == old(self).width && height == old(self).height ==> *final (self) == *old(self),
            !(width == old(self).width && height == old(self).height) ==> {
                &&& final (self).width == width
                &&& final (self).height == height
                &&& final (self).projection == spec_projection(*final (self))
                &&& final (self).inverse_projection == spec_inverse_projection(*final (self))
                &&& final (self).view == spec_view(*final (self))
                &&& final (self).inverse_view == spec_inverse_view(*final (self))
                &&& final (self).position == old(self).position
                &&& final (self).forward == old(self).forward
                &&& final (self).vertical_fov == old(self).vertical_fov
                &&& final (self).near_clip == old(self).near_clip
                &&& final (self).far_clip == old(self).far_clip
            },
    {
        if width == self.width && height == self.height {
            return ;
        }
        self.width = width;
        self.height = height;
        self.recalculate_projection();
        self.recalculate_view();
    }

    /// The unit world-space ray direction through the center of pixel
    /// `(x, y)`, from the memoized inverse matrices.
    pub fn ray_direction(&self, x: u32, y: u32) -> (r: Fx3)
        ensures
            r == spec_ray_direction(*self, x as int, y as int),
    {
        let ux = fx_sub(fx_div((2 * (x as i64) + 1) * 65536, (self.width as i64) * 65536), FX_ONE);
        let uy = fx_sub(
            fx_div((2 * (y as i64) + 1) * 65536, (self.height as i64) * 65536),
            FX_ONE,
        );
        let target = self.inverse_projection.mul_vec4(&Fx4 { x: ux, y: uy, z: FX_ONE, w: FX_ONE });
        let ratio = Fx3 {
            x: fx_div(target.x, target.w),
            y: fx_div(target.y, target.w),
            z: fx_div(target.z, target.w),
        };
        let dir = ratio.normalize();
        let world = self.inverse_view.mul_vec4(&Fx4 { x: dir.x, y: dir.y, z: dir.z, w: 0 });
        Fx3 { x: world.x, y: world.y, z: world.z }
    }

    /// All per-pixel ray directions, one row per image row, top image row
    /// first (rows iterate in reverse of increasing view-space Y).
    pub fn ray_directions(&self) -> (r: Vec<Vec<Fx3>>)
        ensures
            r@.len() == self.height as int,
            forall|i: int| 0 <= i < r@.len() ==> #[trigger] r@[i]@.len() == self.width as int,
            forall|i: int, j: int|
                0 <= i < r@.len() && 0 <= j < self.width as int ==> #[trigger] r@[i]@[j]
                    == spec_ray_direction(*self, j, self.height as int - 1 - i),
    {
        let mut rows: Vec<Vec<Fx3>> = Vec::new();
        let mut i: u32 = 0;
        while i < self.height
            invariant
                0 <= i <= self.height,
                rows@.len() == i as int,
                forall|k: int| 0 <= k < rows@.len() ==> #[trigger] rows@[k]@.len()
                    == self.width as int,
                forall|k: int, j: int|
                    0 <= k < rows@.len() && 0 <= j < self.width as int ==> #[trigger] rows@[k]@[j]
                        == spec_ray_direction(*self, j, self.height as int - 1 - k),
            decreases self.height - i,
        {
            let y = self.height - 1 - i;
            let mut row: Vec<Fx3> = Vec::new();
            let mut x: u32 = 0;
            while x < self.width
                invariant
                    0 <= x <= self.width,
                    row@.len() == x as int,
                    y as int == self.height as int - 1 - i as int,
                    forall|j: int| 0 <= j < row@.len() ==> #[trigger] row@[j]
                        == spec_ray_direction(*self, j, y as int),
                decreases self.width - x,
            {
                row.push(self.ray_direction(x, y));
                x = x + 1;
            }
            rows.push(row);
            i = i + 1;
        }
        rows
    }
}

} // verus!

//! The raster the tracer fills, backed by the `image` crate's pixel buffer,
//! and the render entry point that shoots one ray per pixel.

use vstd::prelude::*;
use crate::fx::{clip, fdiv, fmul, fneg, fsub, Fx, FX_SCALE};
use crate::light::Light;
use crate::sphere::Sphere;
use crate::trace::{cast_ray, cast_s, lights_views, spheres_views, ConfigS, RenderConfig};
use crate::vec3::{rgb_bytes, v3_unit_total, v3_zero, Vec3, Vec3S};

verus! {

/// The raster of a render: a pixel sink of known dimensions, backed by the
/// `image` crate's buffer. The buffer type cannot be declared to the
/// verifier (its type parameters carry a trait bound of that crate), so the
/// whole struct is opaque and its contents are named below.
#[verifier::external_body]
pub struct ImageMatrix {
    framebuffer: image::RgbImage,
}

/// What the raster holds: the byte triple at each in-bounds coordinate.
pub uninterp spec fn image_pixels(m: ImageMatrix) -> Map<(u32, u32), (u8, u8, u8)>;

/// The width and height the raster was created with.
pub uninterp spec fn image_dims(m: ImageMatrix) -> (u32, u32);

impl ImageMatrix {
    /// The width and height of the raster.
    pub open spec fn dims(&self) -> (u32, u32) {
        image_dims(*self)
    }

    /// The byte triple stored at each in-bounds coordinate.
    pub open spec fn pixels(&self) -> Map<(u32, u32), (u8, u8, u8)> {
        image_pixels(*self)
    }

    /// Relies on `image::ImageBuffer::new`: a buffer of the given dimensions
    /// with every pixel zeroed, that is black. The dimension bound keeps the
    /// byte length far from any allocation-size panic.
    #[verifier::external_body]
    pub fn new(w: u32, h: u32) -> (r: ImageMatrix)
        requires
            w <= 16384,
            h <= 16384,
        ensures
            image_dims(r) == (w, h),
            forall|x: u32, y: u32|
                x < w && y < h ==> image_pixels(r)[(x, y)] == (0u8, 0u8, 0u8),
    {
        ImageMatrix { framebuffer: image::RgbImage::new(w, h) }
    }

    /// Relies on `image::ImageBuffer::dimensions`: returns the width and
    /// height the buffer was created with.
    #[verifier::external_body]
    pub fn get_dimensions(&self) -> (r: (u32, u32))
        ensures
            r == image_dims(*self),
    {
        self.framebuffer.dimensions()
    }

    /// Relies on `image::ImageBuffer::put_pixel`: overwrites the pixel at an
    /// in-bounds coordinate and nothing else; out of bounds it would panic.
    #[verifier::external_body]
    fn put_bytes(&mut self, x: u32, y: u32, p: (u8, u8, u8))
        requires
            x < image_dims(*old(self)).0,
            y < image_dims(*old(self)).1,
        ensures
            image_dims(*final(self)) == image_dims(*old(self)),
            image_pixels(*final(self)) == image_pixels(*old(self)).insert((x, y), p),
    {
        self.framebuffer.put_pixel(x, y, image::Rgb([p.0, p.1, p.2]));
    }

    /// Relies on `image::ImageBuffer::get_pixel`: returns the pixel at an
    /// in-bounds coordinate; out of bounds it would panic.
    #[verifier::external_body]
    pub fn pixel_bytes(&self, x: u32, y: u32) -> (r: (u8, u8, u8))
        requires
            x < image_dims(*self).0,
            y < image_dims(*self).1,
        ensures
            r == image_pixels(*self)[(x, y)],
    {
        let p = self.framebuffer.get_pixel(x, y);
        (p.0[0], p.0[1], p.0[2])
    }

    /// Write one pixel, converting the color vector to bytes; out-of-range
    /// coordinates are a caller error and are excluded here.
    pub fn put_pixel(&mut self, x: u32, y: u32, vec: Vec3)
        requires
            x < old(self).dims().0,
            y < old(self).dims().1,
        ensures
            final(self).dims() == old(self).dims(),
            final(self).pixels() == old(self).pixels().insert((x, y), rgb_bytes(vec@)),
    {
        let bytes = vec.to_rgb_bytes();
        self.put_bytes(x, y, bytes);
    }
}

/// The camera ray for pixel `(i, j)` of a `w` by `h` raster: the standard
/// per-pixel linear map by the tangent of half the field of view and the
/// aspect ratio, pointed down the negative `z` axis and normalized.
pub open spec fn camera_dir(i: int, j: int, w: int, h: int, tan_half_fov: int) -> Vec3S {
    let fw = clip(w * FX_SCALE as int);
    let fh = clip(h * FX_SCALE as int);
    let fi = clip((2 * i + 1) * FX_SCALE as int);
    let fj = clip((2 * j + 1) * FX_SCALE as int);
    let x = fdiv(fmul(fmul(fsub(fdiv(fi, fw), FX_SCALE as int), tan_half_fov), fw), fh);
    let y = fneg(fmul(fsub(fdiv(fj, fh), FX_SCALE as int), tan_half_fov));
    v3_unit_total(Vec3S { x: x, y: y, z: -(FX_SCALE as int) })
}

/// The color of pixel `(i, j)`: its camera ray cast from the origin at
/// recursion depth zero, converted to bytes.
pub open spec fn pixel_color(
    spheres: Seq<crate::sphere::SphereS>,
    lights: Seq<crate::light::LightS>,
    cfg: ConfigS,
    w: int,
    h: int,
    i: int,
    j: int,
) -> (u8, u8, u8) {
    rgb_bytes(
        cast_s(spheres, lights, v3_zero(), camera_dir(i, j, w, h, cfg.tan_half_fov), 0, cfg),
    )
}

fn pixel_dir(i: u32, j: u32, w: u32, h: u32, tan_half_fov: Fx) -> (r: Vec3)
    requires
        1 <= w <= 16384,
        1 <= h <= 16384,
        i < w,
        j < h,
    ensures
        r@ == camera_dir(i as int, j as int, w as int, h as int, tan_half_fov@),
{
    let fw = Fx::from_int(w as i64);
    let fh = Fx::from_int(h as i64);
    let fi = Fx::from_int(2 * (i as i64) + 1);
    let fj = Fx::from_int(2 * (j as i64) + 1);
    let x = fi.div(fw).sub(Fx::one()).mul(tan_half_fov).mul(fw).div(fh);
    let y = fj.div(fh).sub(Fx::one()).mul(tan_half_fov).neg();
    Vec3 { x, y, z: Fx::one().neg() }.unit_or_zero()
}

/// Fill every pixel of the raster: one camera ray per pixel, cast from the
/// origin at depth zero. Every in-bounds pixel of the result is pinned to
/// `pixel_color`; nothing else about the raster changes.
pub fn render_spheres(
    framebuffer: &mut ImageMatrix,
    spheres: &Vec<Sphere>,
    lights: &Vec<Light>,
    cfg: &RenderConfig,
)
    requires
        old(framebuffer).dims().0 <= 16384,
        old(framebuffer).dims().1 <= 16384,
    ensures
        final(framebuffer).dims() == old(framebuffer).dims(),
        forall|x: u32, y: u32|
            x < old(framebuffer).dims().0 && y < old(framebuffer).dims().1
                ==> final(framebuffer).pixels()[(x, y)] == pixel_color(
                spheres_views(spheres@),
                lights_views(lights@),
                cfg@,
                old(framebuffer).dims().0 as int,
                old(framebuffer).dims().1 as int,
                x as int,
                y as int,
            ),
{
    let (w, h) = framebuffer.get_dimensions();
    let ghost vs = spheres_views(spheres@);
    let ghost ls = lights_views(lights@);
    let mut j: u32 = 0;
    while j < h
        invariant
            j <= h,
            (w, h) == old(framebuffer).dims(),
            w <= 16384,
            h <= 16384,
            vs == spheres_views(spheres@),
            ls == lights_views(lights@),
            framebuffer.dims() == old(framebuffer).dims(),
            forall|x: u32, y: u32|
                x < w && y < j ==> framebuffer.pixels()[(x, y)] == pixel_color(
                    vs,
                    ls,
                    cfg@,
                    w as int,
                    h as int,
                    x as int,
                    y as int,
                ),
        decreases h - j,
    {
        let mut i: u32 = 0;
        while i < w
            invariant
                i <= w,
                j < h,
                (w, h) == old(framebuffer).dims(),
                w <= 16384,
                h <= 16384,
                vs == spheres_views(spheres@),
                ls == lights_views(lights@),
                framebuffer.dims() == old(framebuffer).dims(),
                forall|x: u32, y: u32|
                    x < w && (y < j || (y == j && x < i)) ==> framebuffer.pixels()[(x, y)]
                        == pixel_color(vs, ls, cfg@, w as int, h as int, x as int, y as int),
            decreases w - i,
        {
            let dir = pixel_dir(i, j, w, h, cfg.tan_half_fov);
            let color = cast_ray(Vec3::zero(), dir, spheres, lights, 0, cfg);
            framebuffer.put_pixel(i, j, color);
            i = i + 1;
        }
        j = j + 1;
    }
}

} // verus!

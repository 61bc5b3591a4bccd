//! The camera: image size, viewpoint, sampling, and the decisions taken while
//! a ray is traced.

use vstd::prelude::*;
use crate::geometry::{Color, Point3, Vec3};

verus! {

/// A camera looking at a scene.
///
/// Angles are fixed-point degrees and lengths fixed-point units (see
/// `geometry::UNIT`). The aspect ratio is `aspect_width : aspect_height`.
#[derive(Clone, Copy, Debug, PartialEq, Eq, Structural)]
pub struct Camera {
    pub aspect_width: u32,
    pub aspect_height: u32,
    pub fov: i64,
    pub lookfrom: Point3,
    pub lookat: Point3,
    pub cameraup: Vec3,
    pub background: Color,
    pub defocus_angle: i64,
    pub focus_distance: i64,
    pub image_width: u32,
    pub image_height: u32,
    pub samples_per_pixel: u32,
    pub max_depth: u32,
}

/// The image height for an image `image_width` pixels wide at aspect ratio
/// `aspect_width : aspect_height`: the width divided by the ratio, rounded
/// down, at least one pixel, and at most `u32::MAX`. A ratio of zero
/// (`aspect_width == 0`) makes the quotient infinite, so the height is
/// `u32::MAX`, unless the width or `aspect_height` is also zero, where the
/// quotient is undefined and the height is one pixel.
pub open spec fn image_height_for(image_width: u32, aspect_width: u32, aspect_height: u32) -> u32 {
    if aspect_width == 0 {
        if image_width > 0 && aspect_height > 0 {
            u32::MAX
        } else {
            1
        }
    } else {
        let h = (image_width as int * aspect_height as int) / (aspect_width as int);
        if h < 1 {
            1
        } else if h > u32::MAX {
            u32::MAX
        } else {
            h as u32
        }
    }
}

/// What the image height is, in terms of the width and the aspect ratio:
/// with a positive ratio, `h` is the largest height with `h * aspect_width <=
/// image_width * aspect_height`, raised to 1 and capped at `u32::MAX`. So a
/// portrait image (`aspect_height > aspect_width`) is at least as tall as it
/// is wide, and a landscape or square one at most as tall.
pub proof fn lemma_image_height_for(image_width: u32, aspect_width: u32, aspect_height: u32)
    ensures
        ({
            let h = image_height_for(image_width, aspect_width, aspect_height);
            &&& 1 <= h
            &&& aspect_width > 0 && aspect_width <= image_width * aspect_height && image_width
                * aspect_height < (u32::MAX + 1) * aspect_width ==> h * aspect_width
                <= image_width * aspect_height < (h + 1) * aspect_width
            &&& aspect_width > 0 && image_width * aspect_height < aspect_width ==> h == 1
            &&& aspect_width > 0 && image_width * aspect_height >= (u32::MAX + 1) * aspect_width
                ==> h == u32::MAX
            &&& aspect_width == 0 && image_width > 0 && aspect_height > 0 ==> h == u32::MAX
            &&& aspect_width == 0 && (image_width == 0 || aspect_height == 0) ==> h == 1
            &&& aspect_height > aspect_width > 0 ==> h >= image_width
            &&& aspect_width >= aspect_height && aspect_width > 0 ==> h <= image_width || h == 1
        }),
{
    let h = image_height_for(image_width, aspect_width, aspect_height);
    if aspect_width > 0 {
        let n = image_width as int * aspect_height as int;
        let d = aspect_width as int;
        let q = n / d;
        vstd::arithmetic::div_mod::lemma_fundamental_div_mod(n, d);
        assert(0 <= n % d < d);
        assert(n == d * q + n % d);
        assert(q >= 0) by (nonlinear_arith)
            requires
                n >= 0,
                d > 0,
                n == d * q + n % d,
                n % d < d,
        ;
        if d <= n && n < (u32::MAX + 1) * d {
            assert(1 <= q <= u32::MAX) by (nonlinear_arith)
                requires
                    d <= n,
                    n < (u32::MAX + 1) * d,
                    n == d * q + n % d,
                    0 <= n % d < d,
            ;
            assert(h == q);
            assert(q * d <= n < (q + 1) * d) by (nonlinear_arith)
                requires
                    n == d * q + n % d,
                    0 <= n % d < d,
            ;
        }
        if n < d {
            assert(q < 1) by (nonlinear_arith)
                requires
                    n < d,
                    n == d * q + n % d,
                    0 <= n % d,
                    d > 0,
            ;
        }
        if n >= (u32::MAX + 1) * d {
            assert(q > u32::MAX) by (nonlinear_arith)
                requires
                    n >= (u32::MAX + 1) * d,
                    n == d * q + n % d,
                    n % d < d,
                    d > 0,
            ;
        }
        if aspect_height > aspect_width {
            // n = w * ah >= w * (aw + 1) = w * d + w, so q >= w
            assert(q >= image_width) by (nonlinear_arith)
                requires
                    n == image_width * aspect_height,
                    aspect_height >= d + 1,
                    image_width >= 0,
                    n == d * q + n % d,
                    n % d < d,
                    d > 0,
            ;
            assert(image_width <= u32::MAX);
        }
        if aspect_width >= aspect_height {
            assert(q <= image_width) by (nonlinear_arith)
                requires
                    n == image_width * aspect_height,
                    aspect_height <= d,
                    image_width >= 0,
                    n == d * q + n % d,
                    n % d >= 0,
                    d > 0,
            ;
        }
    }
}

/// The camera that [`Camera::new`] builds from its arguments.
pub open spec fn camera_for(
    aspect_width: u32,
    aspect_height: u32,
    image_width: u32,
    samples_per_pixel: u32,
    max_depth: u32,
    fov: i64,
    lookfrom: Point3,
    lookat: Point3,
    cameraup: Vec3,
    background: Color,
    defocus_angle: i64,
    focus_distance: i64,
) -> Camera {
    Camera {
        aspect_width,
        aspect_height,
        fov,
        lookfrom,
        lookat,
        cameraup,
        background,
        defocus_angle,
        focus_distance,
        image_width,
        image_height: image_height_for(image_width, aspect_width, aspect_height),
        samples_per_pixel,
        max_depth,
    }
}

/// What happened at the current step of tracing a ray.
#[derive(Clone, Copy, Debug, PartialEq, Eq, Structural)]
pub enum RayEvent {
    /// The ray has just been cast; the world has not been asked yet.
    Start,
    /// The ray hit nothing.
    Missed,
    /// The ray hit a surface that did not scatter it.
    Absorbed,
    /// The ray hit a surface that scattered it into a new ray.
    Scattered,
}

/// What the tracer does next with a ray.
#[derive(Clone, Copy, Debug, PartialEq, Eq, Structural)]
pub enum RayAction {
    /// The ray contributes no light (the bounce budget is spent).
    Black,
    /// Ask the world what the ray hits.
    QueryWorld,
    /// The ray contributes the background colour.
    Background,
    /// The ray contributes the light emitted at the hit point only.
    Emitted,
    /// The ray contributes the emitted light plus the attenuated colour of
    /// the scattered ray, traced with the remaining bounce budget `depth`.
    EmittedPlusBounce { depth: u32 },
}

/// The product of two `u32` values fits in a `u64`.
proof fn lemma_u32_product_fits(a: u32, b: u32)
    ensures
        a * b <= u64::MAX,
{
    assert(a * b <= u32::MAX * u32::MAX) by (nonlinear_arith)
        requires
            a <= u32::MAX,
            b <= u32::MAX,
    ;
}

impl Camera {
    /// A camera for an image `image_width` pixels wide; the height follows
    /// from the aspect ratio (see [`image_height_for`]).
    pub fn new(
        aspect_width: u32,
        aspect_height: u32,
        image_width: u32,
        samples_per_pixel: u32,
        max_depth: u32,
        fov: i64,
        lookfrom: Point3,
        lookat: Point3,
        cameraup: Vec3,
        background: Color,
        defocus_angle: i64,
        focus_distance: i64,
    ) -> (c: Camera)
        ensures
            c == camera_for(
                aspect_width,
                aspect_height,
                image_width,
                samples_per_pixel,
                max_depth,
                fov,
                lookfrom,
                lookat,
                cameraup,
                background,
                defocus_angle,
                focus_distance,
            ),
            c.image_height >= 1,
            c.aspect_width == aspect_width && c.aspect_height == aspect_height,
            c.image_width == image_width && c.samples_per_pixel == samples_per_pixel,
            c.max_depth == max_depth && c.fov == fov,
            c.lookfrom == lookfrom && c.lookat == lookat && c.cameraup == cameraup,
            c.background == background && c.defocus_angle == defocus_angle,
            c.focus_distance == focus_distance,
            // the height is the width divided by the aspect ratio, rounded down
            aspect_width > 0 && aspect_width <= image_width * aspect_height && image_width
                * aspect_height < (u32::MAX + 1) * aspect_width ==> c.image_height * aspect_width
                <= image_width * aspect_height < (c.image_height + 1) * aspect_width,
            // below one pixel it is raised to one, above u32::MAX it saturates
            aspect_width > 0 && image_width * aspect_height < aspect_width ==> c.image_height == 1,
            aspect_width > 0 && image_width * aspect_height >= (u32::MAX + 1) * aspect_width
                ==> c.image_height == u32::MAX,
            aspect_width == 0 && image_width > 0 && aspect_height > 0 ==> c.image_height == u32::MAX,
            aspect_width == 0 && (image_width == 0 || aspect_height == 0) ==> c.image_height == 1,
    {
        proof {
            lemma_image_height_for(image_width, aspect_width, aspect_height);
        }
        let image_height: u32 = if aspect_width == 0 {
            if image_width > 0 && aspect_height > 0 {
                u32::MAX
            } else {
                1
            }
        } else {
            proof {
                lemma_u32_product_fits(image_width, aspect_height);
            }
            let h: u64 = (image_width as u64 * aspect_height as u64) / (aspect_width as u64);
            if h < 1 {
                1
            } else if h > u32::MAX as u64 {
                u32::MAX
            } else {
                h as u32
            }
        };
        Camera {
            aspect_width,
            aspect_height,
            fov,
            lookfrom,
            lookat,
            cameraup,
            background,
            defocus_angle,
            focus_distance,
            image_width,
            image_height,
            samples_per_pixel,
            max_depth,
        }
    }

    /// The number of samples a full render takes: one per pixel per sample
    /// round. The product must fit in a `u32`.
    pub fn total_samples(&self) -> (n: u64)
        requires
            self.image_height * self.image_width * self.samples_per_pixel <= u32::MAX,
        ensures
            n == self.image_height * self.image_width * self.samples_per_pixel,
    {
        proof {
            lemma_u32_product_fits(self.image_height, self.image_width);
        }
        let hw: u64 = self.image_height as u64 * self.image_width as u64;
        assert(hw * self.samples_per_pixel <= u32::MAX);
        (hw * self.samples_per_pixel as u64)
    }

    /// Whether rays start from a disk around `lookfrom` (depth-of-field
    /// blur) rather than from `lookfrom` itself.
    pub fn defocus_enabled(&self) -> (b: bool)
        ensures
            b == (self.defocus_angle > 0),
    {
        self.defocus_angle > 0
    }

    /// The next action in tracing a ray with `depth` bounces left, after
    /// `event`. A ray is first asked about with `Start`; the other events
    /// report the world's answer to `QueryWorld`, which is only asked for
    /// with bounces left.
    pub fn ray_step(depth: u32, event: RayEvent) -> (a: RayAction)
        requires
            event != RayEvent::Start ==> depth > 0,
        ensures
            event == RayEvent::Start ==> a == (if depth == 0 {
                RayAction::Black
            } else {
                RayAction::QueryWorld
            }),
            event == RayEvent::Missed ==> a == RayAction::Background,
            event == RayEvent::Absorbed ==> a == RayAction::Emitted,
            event == RayEvent::Scattered ==> a == (RayAction::EmittedPlusBounce {
                depth: (depth - 1) as u32,
            }),
            a matches RayAction::EmittedPlusBounce { depth: d } ==> d < depth,
    {
        match event {
            RayEvent::Start => if depth == 0 {
                RayAction::Black
            } else {
                RayAction::QueryWorld
            },
            RayEvent::Missed => RayAction::Background,
            RayEvent::Absorbed => RayAction::Emitted,
            RayEvent::Scattered => RayAction::EmittedPlusBounce { depth: depth - 1 },
        }
    }
}

} // verus!

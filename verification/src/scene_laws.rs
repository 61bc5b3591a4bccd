//! What each scene holds, stated with plain numbers (one unit is 1_000_000),
//! independently of the spec functions that define the scenes.

use vstd::prelude::*;
use crate::camera::{image_height_for, lemma_image_height_for, Camera};
use crate::geometry::{Rotation, Vec3};
use crate::material::{MaterialModel, TextureModel};
use crate::scene::{FogModel, ObjectModel, PrimitiveModel, ShapeModel};
use crate::scenes::{
    spheres_and_boxes_draws, ball_draw_in_range, ball_material, cornell_box_scene, earth_scene, quads_scene, scattered_balls_scene,
    small_balls, spheres_and_boxes_scene, BallDraw,
};

verus! {

/// A diffuse surface of one colour.
pub open spec fn solid_matte(x: i64, y: i64, z: i64) -> MaterialModel {
    MaterialModel::Lambertian(TextureModel::Solid(Vec3 { x, y, z }))
}

/// An object of one primitive, not moved and without fog.
pub open spec fn bare(p: PrimitiveModel) -> ObjectModel {
    ObjectModel { shape: ShapeModel::Single(p), rotation: None, offset: None, fog: None }
}

/// The globe scene: a 1200 by 675 image (16:9) with 100 samples per pixel
/// and 50 bounces, seen from (-4, 12, 5) towards the origin with a field of
/// view of 20 degrees, in front of a light blue sky (0.7, 0.8, 1.0), of one
/// earth-textured sphere of radius 2 at the origin, written to
/// `output/render.png`.
pub proof fn lemma_earth_scene_contents()
    ensures
        earth_scene().camera == (Camera {
            aspect_width: 16,
            aspect_height: 9,
            fov: 20_000_000,
            lookfrom: Vec3 { x: ((-4_000_000) as i64) as i64, y: 12_000_000, z: 5_000_000 },
            lookat: Vec3 { x: 0, y: 0, z: 0 },
            cameraup: Vec3 { x: 0, y: 1_000_000, z: 0 },
            background: Vec3 { x: 700_000, y: 800_000, z: 1_000_000 },
            defocus_angle: 0,
            focus_distance: 10_000_000,
            image_width: 1200,
            image_height: 675,
            samples_per_pixel: 100,
            max_depth: 50,
        }),
        earth_scene().world.objects.len() == 1,
        earth_scene().world.objects[0] == bare(
            PrimitiveModel::Sphere {
                center: Vec3 { x: 0, y: 0, z: 0 },
                radius: 2_000_000,
                material: MaterialModel::Lambertian(TextureModel::Image("assets/earthmap.jpg"@)),
            },
        ),
        !earth_scene().world.bvh,
        earth_scene().output_path == "output/render.png"@,
{
}

/// The quads scene: a 600 by 600 image seen from (0, 0, 9) with a field of
/// view of 70 degrees before the sky, of five 4 by 4 quads (red left, green
/// back, blue right, orange top, teal bottom) around an earth sphere of
/// radius 2.25.
pub proof fn lemma_quads_scene_contents()
    ensures
        quads_scene().camera == (Camera {
            aspect_width: 1,
            aspect_height: 1,
            fov: 70_000_000,
            lookfrom: Vec3 { x: 0, y: 0, z: 9_000_000 },
            lookat: Vec3 { x: 0, y: 0, z: 0 },
            cameraup: Vec3 { x: 0, y: 1_000_000, z: 0 },
            background: Vec3 { x: 700_000, y: 800_000, z: 1_000_000 },
            defocus_angle: 0,
            focus_distance: 10_000_000,
            image_width: 600,
            image_height: 600,
            samples_per_pixel: 100,
            max_depth: 50,
        }),
        quads_scene().world.objects.len() == 6,
        !quads_scene().world.bvh,
        quads_scene().world.objects[0] == bare(
            PrimitiveModel::Quad {
                q: Vec3 { x: ((-3_000_000) as i64) as i64, y: ((-2_000_000) as i64) as i64, z: 5_000_000 },
                u: Vec3 { x: 0, y: 0, z: ((-4_000_000) as i64) as i64 },
                v: Vec3 { x: 0, y: 4_000_000, z: 0 },
                material: solid_matte(1_000_000, 200_000, 200_000),
            },
        ),
        quads_scene().world.objects[1] == bare(
            PrimitiveModel::Quad {
                q: Vec3 { x: ((-2_000_000) as i64) as i64, y: ((-2_000_000) as i64) as i64, z: 0 },
                u: Vec3 { x: 4_000_000, y: 0, z: 0 },
                v: Vec3 { x: 0, y: 4_000_000, z: 0 },
                material: solid_matte(200_000, 1_000_000, 200_000),
            },
        ),
        quads_scene().world.objects[2] == bare(
            PrimitiveModel::Quad {
                q: Vec3 { x: 3_000_000, y: ((-2_000_000) as i64) as i64, z: 1_000_000 },
                u: Vec3 { x: 0, y: 0, z: 4_000_000 },
                v: Vec3 { x: 0, y: 4_000_000, z: 0 },
                material: solid_matte(200_000, 200_000, 1_000_000),
            },
        ),
        quads_scene().world.objects[3] == bare(
            PrimitiveModel::Quad {
                q: Vec3 { x: ((-2_000_000) as i64) as i64, y: 3_000_000, z: 1_000_000 },
                u: Vec3 { x: 4_000_000, y: 0, z: 0 },
                v: Vec3 { x: 0, y: 0, z: 4_000_000 },
                material: solid_matte(1_000_000, 500_000, 0),
            },
        ),
        quads_scene().world.objects[4] == bare(
            PrimitiveModel::Quad {
                q: Vec3 { x: ((-2_000_000) as i64) as i64, y: ((-3_000_000) as i64) as i64, z: 5_000_000 },
                u: Vec3 { x: 4_000_000, y: 0, z: 0 },
                v: Vec3 { x: 0, y: 0, z: ((-4_000_000) as i64) as i64 },
                material: solid_matte(200_000, 800_000, 800_000),
            },
        ),
        quads_scene().world.objects[5] == bare(
            PrimitiveModel::Sphere {
                center: Vec3 { x: 0, y: 0, z: 0 },
                radius: 2_250_000,
                material: MaterialModel::Lambertian(TextureModel::Image("assets/earthmap.jpg"@)),
            },
        ),
        quads_scene().output_path == "output/render.png"@,
{
}

/// The Cornell box, for every image width and sample count: a square image
/// as tall as it is wide (one pixel at least), seen from (278, 278, -800)
/// with a field of view of 40 degrees against black, of a 555 room with a
/// green right wall, a red left wall, a ceiling light of intensity 15, three
/// white walls (0.73), a tall box rotated by 15 degrees about y and moved to
/// (265, 0, 295) filled with black smoke, and a short box rotated by -18
/// degrees and moved to (130, 0, 65) filled with white smoke, both of density
/// 0.01, searched through a bounding volume hierarchy.
pub proof fn lemma_cornell_box_contents(image_width: u32, samples_per_pixel: u32)
    ensures
        cornell_box_scene(image_width, samples_per_pixel).camera == (Camera {
            aspect_width: 1,
            aspect_height: 1,
            fov: 40_000_000,
            lookfrom: Vec3 { x: 278_000_000, y: 278_000_000, z: ((-800_000_000) as i64) as i64 },
            lookat: Vec3 { x: 278_000_000, y: 278_000_000, z: 0 },
            cameraup: Vec3 { x: 0, y: 1_000_000, z: 0 },
            background: Vec3 { x: 0, y: 0, z: 0 },
            defocus_angle: 0,
            focus_distance: 10_000_000,
            image_width,
            image_height: if image_width == 0 { 1 } else { image_width },
            samples_per_pixel,
            max_depth: 50,
        }),
        ({
            let objects = cornell_box_scene(image_width, samples_per_pixel).world.objects;
            &&& objects.len() == 8
            &&& objects[0] == bare(
                PrimitiveModel::Quad {
                    q: Vec3 { x: 555_000_000, y: 0, z: 0 },
                    u: Vec3 { x: 0, y: 555_000_000, z: 0 },
                    v: Vec3 { x: 0, y: 0, z: 555_000_000 },
                    material: solid_matte(120_000, 450_000, 150_000),
                },
            )
            &&& objects[1] == bare(
                PrimitiveModel::Quad {
                    q: Vec3 { x: 0, y: 0, z: 0 },
                    u: Vec3 { x: 0, y: 555_000_000, z: 0 },
                    v: Vec3 { x: 0, y: 0, z: 555_000_000 },
                    material: solid_matte(650_000, 50_000, 50_000),
                },
            )
            &&& objects[2] == bare(
                PrimitiveModel::Quad {
                    q: Vec3 { x: 343_000_000, y: 554_000_000, z: 332_000_000 },
                    u: Vec3 { x: ((-130_000_000) as i64) as i64, y: 0, z: 0 },
                    v: Vec3 { x: 0, y: 0, z: ((-105_000_000) as i64) as i64 },
                    material: MaterialModel::DiffuseLight(
                        TextureModel::Solid(Vec3 { x: 15_000_000, y: 15_000_000, z: 15_000_000 }),
                    ),
                },
            )
            &&& objects[3] == bare(
                PrimitiveModel::Quad {
                    q: Vec3 { x: 0, y: 0, z: 0 },
                    u: Vec3 { x: 555_000_000, y: 0, z: 0 },
                    v: Vec3 { x: 0, y: 0, z: 555_000_000 },
                    material: solid_matte(730_000, 730_000, 730_000),
                },
            )
            &&& objects[4] == bare(
                PrimitiveModel::Quad {
                    q: Vec3 { x: 555_000_000, y: 555_000_000, z: 555_000_000 },
                    u: Vec3 { x: ((-555_000_000) as i64) as i64, y: 0, z: 0 },
                    v: Vec3 { x: 0, y: 0, z: ((-555_000_000) as i64) as i64 },
                    material: solid_matte(730_000, 730_000, 730_000),
                },
            )
            &&& objects[5] == bare(
                PrimitiveModel::Quad {
                    q: Vec3 { x: 0, y: 0, z: 555_000_000 },
                    u: Vec3 { x: 555_000_000, y: 0, z: 0 },
                    v: Vec3 { x: 0, y: 555_000_000, z: 0 },
                    material: solid_matte(730_000, 730_000, 730_000),
                },
            )
            &&& objects[6] == (ObjectModel {
                shape: ShapeModel::Single(
                    PrimitiveModel::Cuboid {
                        a: Vec3 { x: 0, y: 0, z: 0 },
                        b: Vec3 { x: 165_000_000, y: 330_000_000, z: 165_000_000 },
                        material: solid_matte(730_000, 730_000, 730_000),
                    },
                ),
                rotation: Some(Rotation::AboutY { degrees: 15_000_000 }),
                offset: Some(Vec3 { x: 265_000_000, y: 0, z: 295_000_000 }),
                fog: Some(FogModel { density: 10_000, albedo: TextureModel::Solid(Vec3 { x: 0, y: 0, z: 0 }) }),
            })
            &&& objects[7] == (ObjectModel {
                shape: ShapeModel::Single(
                    PrimitiveModel::Cuboid {
                        a: Vec3 { x: 0, y: 0, z: 0 },
                        b: Vec3 { x: 165_000_000, y: 165_000_000, z: 165_000_000 },
                        material: solid_matte(730_000, 730_000, 730_000),
                    },
                ),
                rotation: Some(Rotation::AboutY { degrees: ((-18_000_000) as i64) as i64 }),
                offset: Some(Vec3 { x: 130_000_000, y: 0, z: 65_000_000 }),
                fog: Some(
                    FogModel {
                        density: 10_000,
                        albedo: TextureModel::Solid(Vec3 { x: 1_000_000, y: 1_000_000, z: 1_000_000 }),
                    },
                ),
            })
        }),
        cornell_box_scene(image_width, samples_per_pixel).world.bvh,
        cornell_box_scene(image_width, samples_per_pixel).output_path == "output/render.png"@,
{
    lemma_image_height_for(image_width, 1, 1);
}

/// The glass of the final scene's spheres.
pub open spec fn clear_glass() -> MaterialModel {
    MaterialModel::Dielectric { refraction_index: 1_500_000 }
}

/// The final scene, for every set of random values, image width and sample
/// count: a square image seen from (478, 278, -600) with a field of view of
/// 40 degrees against black, written to `output/idkstuff.png`, of
///  - a hierarchy of 400 green (0.48, 0.83, 0.53) boxes, box k with its
///    corner at (-1000 + 100 (k / 20), 0, -1000 + 100 (k % 20)), 100 wide and
///    deep and as high as the k-th height,
///  - a light quad of intensity 7,
///  - a glass sphere filled with blue smoke of density 0.001,
///  - a glass sphere and a fuzzy metal sphere of radius 50,
///  - a glass sphere of radius 70 and the same sphere filled with smoke of
///    density 0.2,
///  - a glass sphere of radius 5000 filled with white mist of density 0.0001,
///  - an earth sphere of radius 80 rotated by 25 degrees about x and moved
///    to (220, 280, 300),
///  - a hierarchy of 1000 white spheres of radius 10 at the given centres,
///    rotated by the Euler angles (15, 25, 0) and moved to (0, 270, 395).
pub proof fn lemma_spheres_and_boxes_contents(
    heights: Seq<i64>,
    centers: Seq<Vec3>,
    image_width: u32,
    samples_per_pixel: u32,
)
    ensures
        spheres_and_boxes_scene(heights, centers, image_width, samples_per_pixel).camera == (Camera {
            aspect_width: 1,
            aspect_height: 1,
            fov: 40_000_000,
            lookfrom: Vec3 { x: 478_000_000, y: 278_000_000, z: (-600_000_000) as i64 },
            lookat: Vec3 { x: 278_000_000, y: 278_000_000, z: 0 },
            cameraup: Vec3 { x: 0, y: 1_000_000, z: 0 },
            background: Vec3 { x: 0, y: 0, z: 0 },
            defocus_angle: 0,
            focus_distance: 10_000_000,
            image_width,
            image_height: if image_width == 0 { 1 } else { image_width },
            samples_per_pixel,
            max_depth: 50,
        }),
        !spheres_and_boxes_scene(heights, centers, image_width, samples_per_pixel).world.bvh,
        spheres_and_boxes_scene(heights, centers, image_width, samples_per_pixel).output_path
            == "output/idkstuff.png"@,
        ({
            let objects = spheres_and_boxes_scene(heights, centers, image_width, samples_per_pixel).world.objects;
            &&& objects.len() == 10
            &&& objects[0].rotation is None && objects[0].offset is None && objects[0].fog is None
            &&& objects[0].shape matches ShapeModel::Bvh(boxes) && boxes.len() == 400 && forall|k: int|
                0 <= k < 400 ==> #[trigger] boxes[k] == (PrimitiveModel::Cuboid {
                    a: Vec3 {
                        x: (-1_000_000_000 + 100_000_000 * (k / 20)) as i64,
                        y: 0,
                        z: (-1_000_000_000 + 100_000_000 * (k % 20)) as i64,
                    },
                    b: Vec3 {
                        x: (-900_000_000 + 100_000_000 * (k / 20)) as i64,
                        y: heights[k],
                        z: (-900_000_000 + 100_000_000 * (k % 20)) as i64,
                    },
                    material: solid_matte(480_000, 830_000, 530_000),
                })
            &&& objects[1] == bare(
                PrimitiveModel::Quad {
                    q: Vec3 { x: 123_000_000, y: 554_000_000, z: 147_000_000 },
                    u: Vec3 { x: 300_000_000, y: 0, z: 0 },
                    v: Vec3 { x: 0, y: 0, z: 265_000_000 },
                    material: MaterialModel::DiffuseLight(
                        TextureModel::Solid(Vec3 { x: 7_000_000, y: 7_000_000, z: 7_000_000 }),
                    ),
                },
            )
            &&& objects[2] == (ObjectModel {
                shape: ShapeModel::Single(
                    PrimitiveModel::Sphere {
                        center: Vec3 { x: 400_000_000, y: 400_000_000, z: 200_000_000 },
                        radius: 50_000_000,
                        material: clear_glass(),
                    },
                ),
                rotation: None,
                offset: None,
                fog: Some(FogModel { density: 1_000, albedo: TextureModel::Solid(Vec3 { x: 530_000, y: 810_000, z: 920_000 }) }),
            })
            &&& objects[3] == bare(
                PrimitiveModel::Sphere {
                    center: Vec3 { x: 260_000_000, y: 150_000_000, z: 45_000_000 },
                    radius: 50_000_000,
                    material: clear_glass(),
                },
            )
            &&& objects[4] == bare(
                PrimitiveModel::Sphere {
                    center: Vec3 { x: 0, y: 150_000_000, z: 145_000_000 },
                    radius: 50_000_000,
                    material: MaterialModel::Metal {
                        albedo: Vec3 { x: 800_000, y: 800_000, z: 900_000 },
                        fuzz: 1_000_000,
                    },
                },
            )
            &&& objects[5] == bare(
                PrimitiveModel::Sphere {
                    center: Vec3 { x: 360_000_000, y: 150_000_000, z: 145_000_000 },
                    radius: 70_000_000,
                    material: clear_glass(),
                },
            )
            &&& objects[6] == (ObjectModel {
                shape: ShapeModel::Single(
                    PrimitiveModel::Sphere {
                        center: Vec3 { x: 360_000_000, y: 150_000_000, z: 145_000_000 },
                        radius: 70_000_000,
                        material: clear_glass(),
                    },
                ),
                rotation: None,
                offset: None,
                fog: Some(FogModel { density: 200_000, albedo: TextureModel::Solid(Vec3 { x: 200_000, y: 400_000, z: 900_000 }) }),
            })
            &&& objects[7] == (ObjectModel {
                shape: ShapeModel::Single(
                    PrimitiveModel::Sphere { center: Vec3 { x: 0, y: 0, z: 0 }, radius: 5_000_000_000, material: clear_glass() },
                ),
                rotation: None,
                offset: None,
                fog: Some(FogModel { density: 100, albedo: TextureModel::Solid(Vec3 { x: 1_000_000, y: 1_000_000, z: 1_000_000 }) }),
            })
            &&& objects[8] == (ObjectModel {
                shape: ShapeModel::Single(
                    PrimitiveModel::Sphere {
                        center: Vec3 { x: 0, y: 0, z: 0 },
                        radius: 80_000_000,
                        material: MaterialModel::Lambertian(TextureModel::Image("assets/earthmap.jpg"@)),
                    },
                ),
                rotation: Some(Rotation::AboutX { degrees: 25_000_000 }),
                offset: Some(Vec3 { x: 220_000_000, y: 280_000_000, z: 300_000_000 }),
                fog: None,
            })
            &&& objects[9].rotation == Some(Rotation::EulerYxz { y: 15_000_000, x: 25_000_000, z: 0 })
            &&& objects[9].offset == Some(Vec3 { x: 0, y: 270_000_000, z: 395_000_000 })
            &&& objects[9].fog is None
            &&& objects[9].shape matches ShapeModel::Bvh(spheres) && spheres.len() == 1000 && forall|k: int|
                0 <= k < 1000 ==> #[trigger] spheres[k] == (PrimitiveModel::Sphere {
                    center: centers[k],
                    radius: 10_000_000,
                    material: solid_matte(730_000, 730_000, 730_000),
                })
        }),
{
    lemma_image_height_for(image_width, 1, 1);
}

/// The values the final scene is built from are exactly: 400 heights, each
/// at least 1 and below 101, and 1000 centres whose coordinates are
/// multiples of 165 in [0, 165).
pub proof fn lemma_spheres_and_boxes_draw_ranges(heights: Seq<i64>, centers: Seq<Vec3>)
    ensures
        spheres_and_boxes_draws(heights, centers) <==> {
            &&& heights.len() == 400
            &&& forall|k: int| 0 <= k < 400 ==> 1_000_000 <= #[trigger] heights[k] < 101_000_000
            &&& centers.len() == 1000
            &&& forall|k: int|
                0 <= k < 1000 ==> {
                    let c = #[trigger] centers[k];
                    &&& 0 <= c.x < 165_000_000 && c.x % 165 == 0
                    &&& 0 <= c.y < 165_000_000 && c.y % 165 == 0
                    &&& 0 <= c.z < 165_000_000 && c.z % 165 == 0
                }
        },
{
}

/// The draws of one cell of the random-ball grid are exactly: a material
/// chooser in 0..20, jitters and colour channels in [0, 1), a fuzz in
/// [0, 0.5).
pub proof fn lemma_ball_draw_ranges(d: BallDraw)
    ensures
        ball_draw_in_range(d) <==> {
            &&& 0 <= d.material < 20
            &&& 0 <= d.jitter_x < 1_000_000 && 0 <= d.jitter_z < 1_000_000
            &&& 0 <= d.color_a.x < 1_000_000 && 0 <= d.color_a.y < 1_000_000 && 0 <= d.color_a.z < 1_000_000
            &&& 0 <= d.color_b.x < 1_000_000 && 0 <= d.color_b.y < 1_000_000 && 0 <= d.color_b.z < 1_000_000
            &&& 0 <= d.fuzz < 500_000
        },
{
}

/// The same draws with another material chooser.
pub open spec fn with_material(d: BallDraw, m: i64) -> BallDraw {
    BallDraw { material: m, ..d }
}

/// The material of a small ball: a chooser below 16 gives a diffuse ball
/// coloured by the channel-wise product of the two colours, 16 to 18 a metal
/// ball of colour 0.5 + first colour / 2 with the drawn fuzz, and 19 glass.
/// Every chooser in 0..20 is accepted, so all three kinds can occur.
pub proof fn lemma_ball_material_kinds(d: BallDraw)
    ensures
        d.material < 16 ==> ball_material(d) == solid_matte(
            (d.color_a.x * d.color_b.x / 1_000_000) as i64,
            (d.color_a.y * d.color_b.y / 1_000_000) as i64,
            (d.color_a.z * d.color_b.z / 1_000_000) as i64,
        ),
        16 <= d.material < 19 ==> ball_material(d) == (MaterialModel::Metal {
            albedo: Vec3 {
                x: (500_000 + d.color_a.x / 2) as i64,
                y: (500_000 + d.color_a.y / 2) as i64,
                z: (500_000 + d.color_a.z / 2) as i64,
            },
            fuzz: d.fuzz,
        }),
        d.material >= 19 ==> ball_material(d) == clear_glass(),
        forall|m: i64|
            0 <= m < 20 ==> #[trigger] ball_draw_in_range(with_material(d, m)) == ball_draw_in_range(
                with_material(d, 0),
            ),
{
}

/// The first scene, for every set of draws, image width and sample count: a
/// 16:9 image seen from (13, 2, 3) towards the origin with a field of view of
/// 20 degrees, a defocus angle of 0.6 and a focus distance of 10, before the
/// sky, searched through a bounding volume hierarchy, of a checkered ground
/// sphere of radius 1000 at (0, -1000, 0), the small balls, then a glass, a
/// brown and a metal sphere of radius 1 at (0, 1, 0), (-4, 1, 0), (4, 1, 0).
/// Each small ball has radius 0.2 and the centre (a + 0.9 jitter_x, 0.2,
/// b + 0.9 jitter_z) of its cell.
pub proof fn lemma_scattered_balls_contents(draws: Seq<BallDraw>, image_width: u32, samples_per_pixel: u32)
    ensures
        scattered_balls_scene(draws, image_width, samples_per_pixel).camera == (Camera {
            aspect_width: 16,
            aspect_height: 9,
            fov: 20_000_000,
            lookfrom: Vec3 { x: 13_000_000, y: 2_000_000, z: 3_000_000 },
            lookat: Vec3 { x: 0, y: 0, z: 0 },
            cameraup: Vec3 { x: 0, y: 1_000_000, z: 0 },
            background: Vec3 { x: 700_000, y: 800_000, z: 1_000_000 },
            defocus_angle: 600_000,
            focus_distance: 10_000_000,
            image_width,
            image_height: image_height_for(image_width, 16, 9),
            samples_per_pixel,
            max_depth: 50,
        }),
        scattered_balls_scene(draws, image_width, samples_per_pixel).world.bvh,
        scattered_balls_scene(draws, image_width, samples_per_pixel).output_path == "output/render.png"@,
        ({
            let objects = scattered_balls_scene(draws, image_width, samples_per_pixel).world.objects;
            let n = small_balls(draws, 529).len() as int;
            &&& objects.len() == n + 4
            &&& objects[0] == bare(
                PrimitiveModel::Sphere {
                    center: Vec3 { x: 0, y: (-1_000_000_000) as i64, z: 0 },
                    radius: 1_000_000_000,
                    material: MaterialModel::Lambertian(
                        TextureModel::Checker {
                            scale: 320_000,
                            even: Box::new(TextureModel::Solid(Vec3 { x: 200_000, y: 300_000, z: 100_000 })),
                            odd: Box::new(TextureModel::Solid(Vec3 { x: 900_000, y: 900_000, z: 900_000 })),
                        },
                    ),
                },
            )
            &&& forall|i: int| 0 < i <= n ==> #[trigger] objects[i] == bare(small_balls(draws, 529)[i - 1])
            &&& objects[n + 1] == bare(
                PrimitiveModel::Sphere { center: Vec3 { x: 0, y: 1_000_000, z: 0 }, radius: 1_000_000, material: clear_glass() },
            )
            &&& objects[n + 2] == bare(
                PrimitiveModel::Sphere {
                    center: Vec3 { x: (-4_000_000) as i64, y: 1_000_000, z: 0 },
                    radius: 1_000_000,
                    material: solid_matte(400_000, 200_000, 100_000),
                },
            )
            &&& objects[n + 3] == bare(
                PrimitiveModel::Sphere {
                    center: Vec3 { x: 4_000_000, y: 1_000_000, z: 0 },
                    radius: 1_000_000,
                    material: MaterialModel::Metal { albedo: Vec3 { x: 700_000, y: 600_000, z: 500_000 }, fuzz: 100_000 },
                },
            )
        }),
{
}

} // verus!

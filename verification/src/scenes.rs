//! The scenes the renderer knows how to set up.

use vstd::prelude::*;
use crate::camera::{camera_for, Camera};
use crate::random::random_in_range;
use crate::geometry::{Rotation, Vec3, UNIT};
use crate::material::{Material, MaterialModel, Texture, TextureModel};
use crate::scene::{
    plain, Fog, FogModel, Object, ObjectModel, Primitive, PrimitiveModel, Scene, SceneModel, Shape,
    ShapeModel, World, WorldModel,
};

verus! {

/// The vector with the given fixed-point components.
pub open spec fn vec3(x: i64, y: i64, z: i64) -> Vec3 {
    Vec3 { x, y, z }
}

/// `n` whole units in fixed point.
pub open spec fn u(n: int) -> i64 {
    (n * UNIT) as i64
}

/// The world's up direction.
pub open spec fn up() -> Vec3 {
    vec3(0, u(1), 0)
}

/// The light blue sky behind the outdoor scenes.
pub open spec fn sky() -> Vec3 {
    vec3(700_000, 800_000, u(1))
}

/// The image file that the earth textures show.
pub open spec fn earth_map() -> Seq<char> {
    "assets/earthmap.jpg"@
}

/// The file most scenes are rendered into.
pub open spec fn default_output() -> Seq<char> {
    "output/render.png"@
}

/// The globe scene: one earth-textured sphere seen from above.
pub open spec fn earth_scene() -> SceneModel {
    SceneModel {
        world: WorldModel {
            objects: seq![
                plain(
                    PrimitiveModel::Sphere {
                        center: vec3(0, 0, 0),
                        radius: u(2),
                        material: MaterialModel::Lambertian(TextureModel::Image(earth_map())),
                    },
                ),
            ],
            bvh: false,
        },
        camera: camera_for(
            16,
            9,
            1200,
            100,
            50,
            u(20),
            vec3(u(-4), u(12), u(5)),
            vec3(0, 0, 0),
            up(),
            sky(),
            0,
            u(10),
        ),
        output_path: default_output(),
    }
}

/// Sets up the globe scene.
pub fn setup_earth() -> (s: Scene)
    ensures
        s.deep_view() == earth_scene(),
{
    let earth_surface = Material::lambertian_image("assets/earthmap.jpg");
    let globe = Primitive::Sphere { center: Vec3::new(0, 0, 0), radius: 2 * UNIT, material: earth_surface };
    let mut objects: Vec<Object> = Vec::new();
    objects.push(Object::plain(globe));
    let camera = Camera::new(
        16,  // aspect ratio 16:9
        9,
        1200,  // image width
        100,  // samples per pixel
        50,  // max depth
        20 * UNIT,  // fov
        Vec3::new(-4 * UNIT, 12 * UNIT, 5 * UNIT),  // look from
        Vec3::new(0, 0, 0),  // look at
        Vec3::new(0, UNIT, 0),  // camera up
        Vec3::new(700_000, 800_000, UNIT),  // background color
        0,  // defocus angle
        10 * UNIT,  // focus distance
    );
    let s = Scene { world: World { objects, bvh: false }, camera, output_path: "output/render.png".to_string() };
    assert(s.world.deep_view().objects =~= earth_scene().world.objects);
    s
}

/// A diffuse surface of one colour.
pub open spec fn matte(color: Vec3) -> MaterialModel {
    MaterialModel::Lambertian(TextureModel::Solid(color))
}

/// A diffuse quad of one colour.
pub open spec fn matte_quad(q: Vec3, u: Vec3, v: Vec3, color: Vec3) -> ObjectModel {
    plain(PrimitiveModel::Quad { q, u, v, material: matte(color) })
}

/// The quads scene: five coloured quads around an earth-textured sphere.
pub open spec fn quads_scene() -> SceneModel {
    SceneModel {
        world: WorldModel {
            objects: seq![
                matte_quad(vec3(u(-3), u(-2), u(5)), vec3(0, 0, u(-4)), vec3(0, u(4), 0), vec3(u(1), 200_000, 200_000)),
                matte_quad(vec3(u(-2), u(-2), 0), vec3(u(4), 0, 0), vec3(0, u(4), 0), vec3(200_000, u(1), 200_000)),
                matte_quad(vec3(u(3), u(-2), u(1)), vec3(0, 0, u(4)), vec3(0, u(4), 0), vec3(200_000, 200_000, u(1))),
                matte_quad(vec3(u(-2), u(3), u(1)), vec3(u(4), 0, 0), vec3(0, 0, u(4)), vec3(u(1), 500_000, 0)),
                matte_quad(vec3(u(-2), u(-3), u(5)), vec3(u(4), 0, 0), vec3(0, 0, u(-4)), vec3(200_000, 800_000, 800_000)),
                plain(
                    PrimitiveModel::Sphere {
                        center: vec3(0, 0, 0),
                        radius: 2_250_000,
                        material: MaterialModel::Lambertian(TextureModel::Image(earth_map())),
                    },
                ),
            ],
            bvh: false,
        },
        camera: camera_for(
            1,
            1,
            600,
            100,
            50,
            u(70),
            vec3(0, 0, u(9)),
            vec3(0, 0, 0),
            up(),
            sky(),
            0,
            u(10),
        ),
        output_path: default_output(),
    }
}

/// A diffuse quad of one colour.
fn matte_quad_object(q: Vec3, u: Vec3, v: Vec3, color: Vec3) -> (o: Object)
    ensures
        o.deep_view() == matte_quad(q, u, v, color),
{
    Object::plain(Primitive::Quad { q, u, v, material: Material::lambertian_solid(color) })
}

/// Sets up the quads scene.
pub fn setup_quads() -> (s: Scene)
    ensures
        s.deep_view() == quads_scene(),
{
    let mut world: Vec<Object> = Vec::new();
    // left red
    world.push(matte_quad_object(
        Vec3::new(-3 * UNIT, -2 * UNIT, 5 * UNIT),
        Vec3::new(0, 0, -4 * UNIT),
        Vec3::new(0, 4 * UNIT, 0),
        Vec3::new(UNIT, 200_000, 200_000),
    ));
    // back green
    world.push(matte_quad_object(
        Vec3::new(-2 * UNIT, -2 * UNIT, 0),
        Vec3::new(4 * UNIT, 0, 0),
        Vec3::new(0, 4 * UNIT, 0),
        Vec3::new(200_000, UNIT, 200_000),
    ));
    // right blue
    world.push(matte_quad_object(
        Vec3::new(3 * UNIT, -2 * UNIT, UNIT),
        Vec3::new(0, 0, 4 * UNIT),
        Vec3::new(0, 4 * UNIT, 0),
        Vec3::new(200_000, 200_000, UNIT),
    ));
    // upper orange
    world.push(matte_quad_object(
        Vec3::new(-2 * UNIT, 3 * UNIT, UNIT),
        Vec3::new(4 * UNIT, 0, 0),
        Vec3::new(0, 0, 4 * UNIT),
        Vec3::new(UNIT, 500_000, 0),
    ));
    // lower teal
    world.push(matte_quad_object(
        Vec3::new(-2 * UNIT, -3 * UNIT, 5 * UNIT),
        Vec3::new(4 * UNIT, 0, 0),
        Vec3::new(0, 0, -4 * UNIT),
        Vec3::new(200_000, 800_000, 800_000),
    ));
    let earth_surface = Material::lambertian_image("assets/earthmap.jpg");
    world.push(Object::plain(Primitive::Sphere { center: Vec3::new(0, 0, 0), radius: 2_250_000, material: earth_surface }));

    let camera = Camera::new(
        1,  // aspect ratio 1:1
        1,
        600,  // image width
        100,  // samples per pixel
        50,  // max depth
        70 * UNIT,  // fov
        Vec3::new(0, 0, 9 * UNIT),  // look from
        Vec3::new(0, 0, 0),  // look at
        Vec3::new(0, UNIT, 0),  // camera up
        Vec3::new(700_000, 800_000, UNIT),  // background color
        0,  // defocus angle
        10 * UNIT,  // focus distance
    );
    let s = Scene { world: World { objects: world, bvh: false }, camera, output_path: "output/render.png".to_string() };
    assert(s.world.deep_view().objects =~= quads_scene().world.objects);
    s
}

/// A diffuse quad lit by its own colour.
pub open spec fn light_quad(q: Vec3, u: Vec3, v: Vec3, color: Vec3) -> ObjectModel {
    plain(PrimitiveModel::Quad { q, u, v, material: MaterialModel::DiffuseLight(TextureModel::Solid(color)) })
}

/// One primitive, rotated, moved by `offset` and filled with fog of one colour.
pub open spec fn foggy(p: PrimitiveModel, rotation: Rotation, offset: Vec3, density: i64, color: Vec3) -> ObjectModel {
    ObjectModel {
        shape: ShapeModel::Single(p),
        rotation: Some(rotation),
        offset: Some(offset),
        fog: Some(FogModel { density, albedo: TextureModel::Solid(color) }),
    }
}

/// The white of the Cornell box walls.
pub open spec fn wall_white() -> Vec3 {
    vec3(730_000, 730_000, 730_000)
}

/// The Cornell box: a closed room with a ceiling light and two rotated boxes
/// of black and white smoke.
pub open spec fn cornell_box_scene(image_width: u32, samples_per_pixel: u32) -> SceneModel {
    SceneModel {
        world: WorldModel {
            objects: seq![
                matte_quad(vec3(u(555), 0, 0), vec3(0, u(555), 0), vec3(0, 0, u(555)), vec3(120_000, 450_000, 150_000)),
                matte_quad(vec3(0, 0, 0), vec3(0, u(555), 0), vec3(0, 0, u(555)), vec3(650_000, 50_000, 50_000)),
                light_quad(vec3(u(343), u(554), u(332)), vec3(u(-130), 0, 0), vec3(0, 0, u(-105)), vec3(u(15), u(15), u(15))),
                matte_quad(vec3(0, 0, 0), vec3(u(555), 0, 0), vec3(0, 0, u(555)), wall_white()),
                matte_quad(vec3(u(555), u(555), u(555)), vec3(u(-555), 0, 0), vec3(0, 0, u(-555)), wall_white()),
                matte_quad(vec3(0, 0, u(555)), vec3(u(555), 0, 0), vec3(0, u(555), 0), wall_white()),
                foggy(
                    PrimitiveModel::Cuboid { a: vec3(0, 0, 0), b: vec3(u(165), u(330), u(165)), material: matte(wall_white()) },
                    Rotation::AboutY { degrees: u(15) },
                    vec3(u(265), 0, u(295)),
                    10_000,
                    vec3(0, 0, 0),
                ),
                foggy(
                    PrimitiveModel::Cuboid { a: vec3(0, 0, 0), b: vec3(u(165), u(165), u(165)), material: matte(wall_white()) },
                    Rotation::AboutY { degrees: u(-18) },
                    vec3(u(130), 0, u(65)),
                    10_000,
                    vec3(u(1), u(1), u(1)),
                ),
            ],
            bvh: true,
        },
        camera: camera_for(
            1,
            1,
            image_width,
            samples_per_pixel,
            50,
            u(40),
            vec3(u(278), u(278), u(-800)),
            vec3(u(278), u(278), 0),
            up(),
            vec3(0, 0, 0),
            0,
            u(10),
        ),
        output_path: default_output(),
    }
}

/// A diffuse light quad of one colour.
fn light_quad_object(q: Vec3, u: Vec3, v: Vec3, color: Vec3) -> (o: Object)
    ensures
        o.deep_view() == light_quad(q, u, v, color),
{
    Object::plain(Primitive::Quad { q, u, v, material: Material::light_solid(color) })
}

/// A primitive, rotated, moved by `offset` and filled with fog of one colour.
fn foggy_object(p: Primitive, rotation: Rotation, offset: Vec3, density: i64, color: Vec3) -> (o: Object)
    ensures
        o.deep_view() == foggy(p.deep_view(), rotation, offset, density, color),
{
    Object {
        shape: Shape::Single(p),
        rotation: Some(rotation),
        offset: Some(offset),
        fog: Some(Fog { density, albedo: Texture::solid(color) }),
    }
}

/// Sets up the Cornell box scene.
pub fn setup_cornell_box(image_width: u32, samples_per_pixel: u32) -> (s: Scene)
    ensures
        s.deep_view() == cornell_box_scene(image_width, samples_per_pixel),
{
    let white = Vec3::new(730_000, 730_000, 730_000);
    let mut world: Vec<Object> = Vec::new();
    // green
    world.push(matte_quad_object(
        Vec3::new(555 * UNIT, 0, 0),
        Vec3::new(0, 555 * UNIT, 0),
        Vec3::new(0, 0, 555 * UNIT),
        Vec3::new(120_000, 450_000, 150_000),
    ));
    // red
    world.push(matte_quad_object(
        Vec3::new(0, 0, 0),
        Vec3::new(0, 555 * UNIT, 0),
        Vec3::new(0, 0, 555 * UNIT),
        Vec3::new(650_000, 50_000, 50_000),
    ));
    // light
    world.push(light_quad_object(
        Vec3::new(343 * UNIT, 554 * UNIT, 332 * UNIT),
        Vec3::new(-130 * UNIT, 0, 0),
        Vec3::new(0, 0, -105 * UNIT),
        Vec3::new(15 * UNIT, 15 * UNIT, 15 * UNIT),
    ));
    world.push(matte_quad_object(
        Vec3::new(0, 0, 0),
        Vec3::new(555 * UNIT, 0, 0),
        Vec3::new(0, 0, 555 * UNIT),
        white,
    ));
    world.push(matte_quad_object(
        Vec3::new(555 * UNIT, 555 * UNIT, 555 * UNIT),
        Vec3::new(-555 * UNIT, 0, 0),
        Vec3::new(0, 0, -555 * UNIT),
        white,
    ));
    world.push(matte_quad_object(
        Vec3::new(0, 0, 555 * UNIT),
        Vec3::new(555 * UNIT, 0, 0),
        Vec3::new(0, 555 * UNIT, 0),
        white,
    ));

    let box1 = Primitive::Cuboid {
        a: Vec3::new(0, 0, 0),
        b: Vec3::new(165 * UNIT, 330 * UNIT, 165 * UNIT),
        material: Material::lambertian_solid(white),
    };
    world.push(foggy_object(
        box1,
        Rotation::AboutY { degrees: 15 * UNIT },
        Vec3::new(265 * UNIT, 0, 295 * UNIT),
        10_000,
        Vec3::new(0, 0, 0),
    ));

    let box2 = Primitive::Cuboid {
        a: Vec3::new(0, 0, 0),
        b: Vec3::new(165 * UNIT, 165 * UNIT, 165 * UNIT),
        material: Material::lambertian_solid(white),
    };
    world.push(foggy_object(
        box2,
        Rotation::AboutY { degrees: -18 * UNIT },
        Vec3::new(130 * UNIT, 0, 65 * UNIT),
        10_000,
        Vec3::new(UNIT, UNIT, UNIT),
    ));

    let camera = Camera::new(
        1,  // aspect ratio 1:1
        1,
        image_width,  // image width
        samples_per_pixel,  // samples per pixel
        50,  // max depth
        40 * UNIT,  // fov
        Vec3::new(278 * UNIT, 278 * UNIT, -800 * UNIT),  // look from
        Vec3::new(278 * UNIT, 278 * UNIT, 0),  // look at
        Vec3::new(0, UNIT, 0),  // camera up
        Vec3::new(0, 0, 0),  // background color
        0,  // defocus angle
        10 * UNIT,  // focus distance
    );
    let s = Scene { world: World { objects: world, bvh: true }, camera, output_path: "output/render.png".to_string() };
    assert(s.world.deep_view().objects =~= cornell_box_scene(image_width, samples_per_pixel).world.objects);
    s
}

/// One primitive filled with fog of one colour, not moved.
pub open spec fn fogged(p: PrimitiveModel, density: i64, color: Vec3) -> ObjectModel {
    ObjectModel {
        shape: ShapeModel::Single(p),
        rotation: None,
        offset: None,
        fog: Some(FogModel { density, albedo: TextureModel::Solid(color) }),
    }
}

/// Glass.
pub open spec fn glass() -> MaterialModel {
    MaterialModel::Dielectric { refraction_index: 1_500_000 }
}

/// The colour of the ground boxes of the final scene.
pub open spec fn ground_green() -> Vec3 {
    vec3(480_000, 830_000, 530_000)
}

/// The ground box in row `i` and column `j` of the 20 by 20 grid: a 100 by
/// 100 column of the given height, with its corner at (-1000 + 100 i, 0,
/// -1000 + 100 j).
pub open spec fn ground_box(i: int, j: int, height: i64) -> PrimitiveModel {
    let x0 = u(-1000 + 100 * i);
    let z0 = u(-1000 + 100 * j);
    PrimitiveModel::Cuboid {
        a: vec3(x0, 0, z0),
        b: vec3(u(-1000 + 100 * i + 100), height, u(-1000 + 100 * j + 100)),
        material: matte(ground_green()),
    }
}

/// The 400 ground boxes, row by row, box `k` of the given height.
pub open spec fn ground_boxes(heights: Seq<i64>) -> Seq<PrimitiveModel> {
    Seq::new(400, |k: int| ground_box(k / 20, k % 20, heights[k]))
}

/// The 1000 small white spheres with the given centres.
pub open spec fn sphere_cluster(centers: Seq<Vec3>) -> Seq<PrimitiveModel> {
    Seq::new(
        1000,
        |k: int| PrimitiveModel::Sphere { center: centers[k], radius: u(10), material: matte(wall_white()) },
    )
}

/// Random values the final scene can be built from: 400 box heights in
/// [1, 101) and 1000 sphere centres, each coordinate 165 times a value in
/// [0, 1).
pub open spec fn spheres_and_boxes_draws(heights: Seq<i64>, centers: Seq<Vec3>) -> bool {
    &&& heights.len() == 400
    &&& forall|k: int| 0 <= k < 400 ==> u(1) <= #[trigger] heights[k] < u(101)
    &&& centers.len() == 1000
    &&& forall|k: int| 0 <= k < 1000 ==> in_cluster_cube(#[trigger] centers[k])
}

/// A multiple of 165 in [0, 165).
pub open spec fn cluster_coordinate(c: i64) -> bool {
    0 <= c < u(165) && c % 165 == 0
}

/// Each coordinate is 165 times a value in [0, 1).
pub open spec fn in_cluster_cube(p: Vec3) -> bool {
    cluster_coordinate(p.x) && cluster_coordinate(p.y) && cluster_coordinate(p.z)
}

/// The final scene: a field of boxes of the given heights, a light, spheres
/// of glass, metal and smoke, a rotated globe, a rotated cluster of spheres
/// with the given centres, all inside a thin mist.
pub open spec fn spheres_and_boxes_scene(
    heights: Seq<i64>,
    centers: Seq<Vec3>,
    image_width: u32,
    samples_per_pixel: u32,
) -> SceneModel {
    SceneModel {
        world: WorldModel {
            objects: seq![
                ObjectModel {
                    shape: ShapeModel::Bvh(ground_boxes(heights)),
                    rotation: None,
                    offset: None,
                    fog: None,
                },
                light_quad(vec3(u(123), u(554), u(147)), vec3(u(300), 0, 0), vec3(0, 0, u(265)), vec3(u(7), u(7), u(7))),
                fogged(
                    PrimitiveModel::Sphere { center: vec3(u(400), u(400), u(200)), radius: u(50), material: glass() },
                    1_000,
                    vec3(530_000, 810_000, 920_000),
                ),
                plain(PrimitiveModel::Sphere { center: vec3(u(260), u(150), u(45)), radius: u(50), material: glass() }),
                plain(
                    PrimitiveModel::Sphere {
                        center: vec3(0, u(150), u(145)),
                        radius: u(50),
                        material: MaterialModel::Metal { albedo: vec3(800_000, 800_000, 900_000), fuzz: u(1) },
                    },
                ),
                plain(PrimitiveModel::Sphere { center: vec3(u(360), u(150), u(145)), radius: u(70), material: glass() }),
                fogged(
                    PrimitiveModel::Sphere { center: vec3(u(360), u(150), u(145)), radius: u(70), material: glass() },
                    200_000,
                    vec3(200_000, 400_000, 900_000),
                ),
                fogged(
                    PrimitiveModel::Sphere { center: vec3(0, 0, 0), radius: u(5000), material: glass() },
                    100,
                    vec3(u(1), u(1), u(1)),
                ),
                ObjectModel {
                    shape: ShapeModel::Single(
                        PrimitiveModel::Sphere {
                            center: vec3(0, 0, 0),
                            radius: u(80),
                            material: MaterialModel::Lambertian(TextureModel::Image(earth_map())),
                        },
                    ),
                    rotation: Some(Rotation::AboutX { degrees: u(25) }),
                    offset: Some(vec3(u(220), u(280), u(300))),
                    fog: None,
                },
                ObjectModel {
                    shape: ShapeModel::Bvh(sphere_cluster(centers)),
                    rotation: Some(Rotation::EulerYxz { y: u(15), x: u(25), z: 0 }),
                    offset: Some(vec3(0, u(270), u(395))),
                    fog: None,
                },
            ],
            bvh: false,
        },
        camera: camera_for(
            1,
            1,
            image_width,
            samples_per_pixel,
            50,
            u(40),
            vec3(u(478), u(278), u(-600)),
            vec3(u(278), u(278), 0),
            up(),
            vec3(0, 0, 0),
            0,
            u(10),
        ),
        output_path: "output/idkstuff.png"@,
    }
}

/// Row and column of the grid cell `i * n + j`.
proof fn lemma_grid_cell(i: int, j: int, n: int)
    requires
        0 <= j < n,
        0 <= i,
    ensures
        (i * n + j) / n == i,
        (i * n + j) % n == j,
{
    vstd::arithmetic::div_mod::lemma_fundamental_div_mod_converse(i * n + j, n, i, j);
}

/// 165 times a value in [0, 1) is a coordinate of the sphere cluster.
proof fn lemma_scaled_coordinate(p: i64)
    requires
        0 <= p < UNIT,
    ensures
        cluster_coordinate((165 * p) as i64),
{
    vstd::arithmetic::div_mod::lemma_mod_multiples_basic(p as int, 165);
    assert(165 * p == p * 165);
}

/// A glass sphere.
fn glass_sphere(center: Vec3, radius: i64) -> (p: Primitive)
    ensures
        p.deep_view() == (PrimitiveModel::Sphere { center, radius, material: glass() }),
{
    Primitive::Sphere { center, radius, material: Material::Dielectric { refraction_index: 1_500_000 } }
}

/// One primitive filled with fog of one colour, not moved.
fn fogged_object(p: Primitive, density: i64, color: Vec3) -> (o: Object)
    ensures
        o.deep_view() == fogged(p.deep_view(), density, color),
{
    Object { shape: Shape::Single(p), rotation: None, offset: None, fog: Some(Fog { density, albedo: Texture::solid(color) }) }
}

/// Builds the final scene from its random values: the box heights, row by
/// row, and the centres of the sphere cluster.
pub fn build_spheres_and_boxes(
    heights: &Vec<i64>,
    centers: &Vec<Vec3>,
    image_width: u32,
    samples_per_pixel: u32,
) -> (s: Scene)
    requires
        heights.len() == 400,
        centers.len() == 1000,
    ensures
        s.deep_view() == spheres_and_boxes_scene(heights@, centers@, image_width, samples_per_pixel),
{
    let mut boxes1: Vec<Primitive> = Vec::new();
    let mut i: i64 = 0;
    while i < 20
        invariant
            0 <= i <= 20,
            heights.len() == 400,
            boxes1.deep_view() =~= ground_boxes(heights@).take(i * 20),
        decreases 20 - i,
    {
        let mut j: i64 = 0;
        while j < 20
            invariant
                0 <= i < 20,
                0 <= j <= 20,
                heights.len() == 400,
                boxes1.deep_view() =~= ground_boxes(heights@).take(i * 20 + j),
            decreases 20 - j,
        {
            let k: usize = (i * 20 + j) as usize;
            let x0: i64 = -1000 * UNIT + i * 100 * UNIT;
            let z0: i64 = -1000 * UNIT + j * 100 * UNIT;
            let b = Primitive::Cuboid {
                a: Vec3::new(x0, 0, z0),
                b: Vec3::new(x0 + 100 * UNIT, heights[k], z0 + 100 * UNIT),
                material: Material::lambertian_solid(Vec3::new(480_000, 830_000, 530_000)),
            };
            let ghost before = boxes1.deep_view();
            let ghost b_model = b.deep_view();
            proof {
                lemma_grid_cell(i as int, j as int, 20);
                assert(b_model == ground_boxes(heights@)[k as int]);
                assert(ground_boxes(heights@).take(k + 1) =~= before.push(b_model));
            }
            boxes1.push(b);
            assert(boxes1.deep_view() =~= before.push(b_model));
            j = j + 1;
        }
        i = i + 1;
    }
    assert(ground_boxes(heights@).take(400) =~= ground_boxes(heights@));

    let mut world: Vec<Object> = Vec::new();
    world.push(Object { shape: Shape::Bvh(boxes1), rotation: None, offset: None, fog: None });

    world.push(light_quad_object(
        Vec3::new(123 * UNIT, 554 * UNIT, 147 * UNIT),
        Vec3::new(300 * UNIT, 0, 0),
        Vec3::new(0, 0, 265 * UNIT),
        Vec3::new(7 * UNIT, 7 * UNIT, 7 * UNIT),
    ));
    world.push(fogged_object(
        glass_sphere(Vec3::new(400 * UNIT, 400 * UNIT, 200 * UNIT), 50 * UNIT),
        1_000,
        Vec3::new(530_000, 810_000, 920_000),
    ));
    world.push(Object::plain(glass_sphere(Vec3::new(260 * UNIT, 150 * UNIT, 45 * UNIT), 50 * UNIT)));
    world.push(Object::plain(Primitive::Sphere {
        center: Vec3::new(0, 150 * UNIT, 145 * UNIT),
        radius: 50 * UNIT,
        material: Material::Metal { albedo: Vec3::new(800_000, 800_000, 900_000), fuzz: UNIT },
    }));

    // the boundary sphere is added twice: once as glass, once filled with blue smoke
    world.push(Object::plain(glass_sphere(Vec3::new(360 * UNIT, 150 * UNIT, 145 * UNIT), 70 * UNIT)));
    world.push(fogged_object(
        glass_sphere(Vec3::new(360 * UNIT, 150 * UNIT, 145 * UNIT), 70 * UNIT),
        200_000,
        Vec3::new(200_000, 400_000, 900_000),
    ));
    world.push(fogged_object(glass_sphere(Vec3::new(0, 0, 0), 5000 * UNIT), 100, Vec3::new(UNIT, UNIT, UNIT)));

    world.push(Object {
        shape: Shape::Single(Primitive::Sphere {
            center: Vec3::new(0, 0, 0),
            radius: 80 * UNIT,
            material: Material::lambertian_image("assets/earthmap.jpg"),
        }),
        rotation: Some(Rotation::AboutX { degrees: 25 * UNIT }),
        offset: Some(Vec3::new(220 * UNIT, 280 * UNIT, 300 * UNIT)),
        fog: None,
    });

    let mut boxes2: Vec<Primitive> = Vec::new();
    let mut k: usize = 0;
    while k < 1000
        invariant
            0 <= k <= 1000,
            centers.len() == 1000,
            boxes2.deep_view() =~= sphere_cluster(centers@).take(k as int),
        decreases 1000 - k,
    {
        let sphere = Primitive::Sphere {
            center: centers[k],
            radius: 10 * UNIT,
            material: Material::lambertian_solid(Vec3::new(730_000, 730_000, 730_000)),
        };
        let ghost before = boxes2.deep_view();
        let ghost sphere_model = sphere.deep_view();
        assert(sphere_cluster(centers@).take(k + 1) =~= before.push(sphere_model));
        boxes2.push(sphere);
        assert(boxes2.deep_view() =~= before.push(sphere_model));
        k = k + 1;
    }
    assert(sphere_cluster(centers@).take(1000) =~= sphere_cluster(centers@));
    world.push(Object {
        shape: Shape::Bvh(boxes2),
        rotation: Some(Rotation::EulerYxz { y: 15 * UNIT, x: 25 * UNIT, z: 0 }),
        offset: Some(Vec3::new(0, 270 * UNIT, 395 * UNIT)),
        fog: None,
    });

    let camera = Camera::new(
        1,  // aspect ratio 1:1
        1,
        image_width,  // image width
        samples_per_pixel,  // samples per pixel
        50,  // max depth
        40 * UNIT,  // fov
        Vec3::new(478 * UNIT, 278 * UNIT, -600 * UNIT),  // look from
        Vec3::new(278 * UNIT, 278 * UNIT, 0),  // look at
        Vec3::new(0, UNIT, 0),  // camera up
        Vec3::new(0, 0, 0),  // background color
        0,  // defocus angle
        10 * UNIT,  // focus distance
    );
    let s = Scene { world: World { objects: world, bvh: false }, camera, output_path: "output/idkstuff.png".to_string() };
    assert(s.world.deep_view().objects =~= spheres_and_boxes_scene(heights@, centers@, image_width, samples_per_pixel).world.objects);
    s
}

/// Sets up the final scene: draws the 400 box heights uniformly from
/// [1, 101), then the 1000 sphere centres uniformly from the cube of side 165,
/// and builds the scene from them.
pub fn setup_spheres_and_boxes(image_width: u32, samples_per_pixel: u32) -> (s: Scene)
    ensures
        exists|heights: Seq<i64>, centers: Seq<Vec3>|
            spheres_and_boxes_draws(heights, centers) && s.deep_view() == spheres_and_boxes_scene(
                heights,
                centers,
                image_width,
                samples_per_pixel,
            ),
{
    let mut heights: Vec<i64> = Vec::new();
    while heights.len() < 400
        invariant
            heights.len() <= 400,
            forall|k: int| 0 <= k < heights.len() ==> u(1) <= #[trigger] heights@[k] < u(101),
        decreases 400 - heights.len(),
    {
        heights.push(random_in_range(UNIT, 101 * UNIT));
    }
    let mut centers: Vec<Vec3> = Vec::new();
    while centers.len() < 1000
        invariant
            centers.len() <= 1000,
            forall|k: int| 0 <= k < centers.len() ==> in_cluster_cube(#[trigger] centers@[k]),
        decreases 1000 - centers.len(),
    {
        let p = Vec3::new(random_in_range(0, UNIT), random_in_range(0, UNIT), random_in_range(0, UNIT));
        let c = Vec3::new(165 * p.x, 165 * p.y, 165 * p.z);
        proof {
            lemma_scaled_coordinate(p.x);
            lemma_scaled_coordinate(p.y);
            lemma_scaled_coordinate(p.z);
        }
        centers.push(c);
    }
    let s = build_spheres_and_boxes(&heights, &centers, image_width, samples_per_pixel);
    assert(spheres_and_boxes_draws(heights@, centers@));
    s
}

/// The random values drawn for one cell of the grid of small balls.
#[derive(Clone, Copy, Debug, PartialEq, Eq, Structural)]
pub struct BallDraw {
    /// Chooses the material: below 16 diffuse, below 19 metal, else glass.
    pub material: i64,
    /// Offsets of the ball inside its cell along x and z, before scaling by 0.9.
    pub jitter_x: i64,
    pub jitter_z: i64,
    /// Two random colours: their product colours a diffuse ball; the first,
    /// halved and lightened by one half, colours a metal ball.
    pub color_a: Vec3,
    pub color_b: Vec3,
    /// The fuzz of a metal ball.
    pub fuzz: i64,
}

/// A value in [0, 1).
pub open spec fn unit_fraction(v: i64) -> bool {
    0 <= v < UNIT
}

/// A colour with each channel in [0, 1).
pub open spec fn unit_color(c: Vec3) -> bool {
    unit_fraction(c.x) && unit_fraction(c.y) && unit_fraction(c.z)
}

/// The ranges the draws of one cell come from: the material chooser from
/// 0..20, jitters and colour channels from [0, 1), fuzz from [0, 0.5).
pub open spec fn ball_draw_in_range(d: BallDraw) -> bool {
    &&& 0 <= d.material < 20
    &&& unit_fraction(d.jitter_x)
    &&& unit_fraction(d.jitter_z)
    &&& unit_color(d.color_a)
    &&& unit_color(d.color_b)
    &&& 0 <= d.fuzz < UNIT / 2
}

/// Draws for the whole 23 by 23 grid, all in range.
pub open spec fn ball_draws(draws: Seq<BallDraw>) -> bool {
    draws.len() == 529 && forall|k: int| 0 <= k < 529 ==> ball_draw_in_range(#[trigger] draws[k])
}

/// The centre of the ball of cell `k` (cells go by a from -11 to 11, then by
/// b from -11 to 11): (a + 0.9 jitter_x, 0.2, b + 0.9 jitter_z).
pub open spec fn ball_center(k: int, d: BallDraw) -> Vec3 {
    vec3(
        (u(k / 23 - 11) + 9 * d.jitter_x / 10) as i64,
        200_000,
        (u(k % 23 - 11) + 9 * d.jitter_z / 10) as i64,
    )
}

/// A small ball is placed only farther than 0.9 from (4, 0.2, 0), where the
/// big metal sphere stands.
pub open spec fn ball_placed(c: Vec3) -> bool {
    let dx = c.x - u(4);
    let dy = c.y - 200_000;
    let dz = c.z;
    dx * dx + dy * dy + dz * dz > 900_000 * 900_000
}

/// The channel-wise product of two colours.
pub open spec fn color_product(a: Vec3, b: Vec3) -> Vec3 {
    vec3((a.x * b.x / (UNIT as int)) as i64, (a.y * b.y / (UNIT as int)) as i64, (a.z * b.z / (UNIT as int)) as i64)
}

/// 0.5 + c / 2, channel by channel.
pub open spec fn lightened(c: Vec3) -> Vec3 {
    vec3((UNIT / 2 + c.x / 2) as i64, (UNIT / 2 + c.y / 2) as i64, (UNIT / 2 + c.z / 2) as i64)
}

/// The material of a small ball.
pub open spec fn ball_material(d: BallDraw) -> MaterialModel {
    if d.material < 16 {
        matte(color_product(d.color_a, d.color_b))
    } else if d.material < 19 {
        MaterialModel::Metal { albedo: lightened(d.color_a), fuzz: d.fuzz }
    } else {
        glass()
    }
}

/// The small balls of the first `n` cells, in cell order.
pub open spec fn small_balls(draws: Seq<BallDraw>, n: nat) -> Seq<PrimitiveModel>
    decreases n,
{
    if n == 0 {
        seq![]
    } else {
        let k = n - 1;
        let before = small_balls(draws, (n - 1) as nat);
        let c = ball_center(k, draws[k]);
        if ball_placed(c) {
            before.push(PrimitiveModel::Sphere { center: c, radius: 200_000, material: ball_material(draws[k]) })
        } else {
            before
        }
    }
}

/// The checkered ground of the first scene.
pub open spec fn checkered_ground() -> PrimitiveModel {
    PrimitiveModel::Sphere {
        center: vec3(0, u(-1000), 0),
        radius: u(1000),
        material: MaterialModel::Lambertian(
            TextureModel::Checker {
                scale: 320_000,
                even: Box::new(TextureModel::Solid(vec3(200_000, 300_000, 100_000))),
                odd: Box::new(TextureModel::Solid(vec3(900_000, 900_000, 900_000))),
            },
        ),
    }
}

/// The first scene: a checkered ground, a grid of small random balls, and
/// three big spheres of glass, brown matte and metal, with depth of field.
pub open spec fn scattered_balls_scene(draws: Seq<BallDraw>, image_width: u32, samples_per_pixel: u32) -> SceneModel {
    SceneModel {
        world: WorldModel {
            objects: seq![plain(checkered_ground())] + small_balls(draws, 529).map_values(|p: PrimitiveModel| plain(p))
                + seq![
                plain(PrimitiveModel::Sphere { center: vec3(0, u(1), 0), radius: u(1), material: glass() }),
                plain(PrimitiveModel::Sphere { center: vec3(u(-4), u(1), 0), radius: u(1), material: matte(vec3(400_000, 200_000, 100_000)) }),
                plain(
                    PrimitiveModel::Sphere {
                        center: vec3(u(4), u(1), 0),
                        radius: u(1),
                        material: MaterialModel::Metal { albedo: vec3(700_000, 600_000, 500_000), fuzz: 100_000 },
                    },
                ),
            ],
            bvh: true,
        },
        camera: camera_for(
            16,
            9,
            image_width,
            samples_per_pixel,
            50,
            u(20),
            vec3(u(13), u(2), u(3)),
            vec3(0, 0, 0),
            up(),
            sky(),
            600_000,
            u(10),
        ),
        output_path: default_output(),
    }
}

/// The square of a value of magnitude below `bound`.
proof fn lemma_square_bound(x: int, bound: int)
    requires
        -bound <= x <= bound,
        bound >= 0,
    ensures
        0 <= x * x <= bound * bound,
{
    assert(0 <= x * x <= bound * bound) by (nonlinear_arith)
        requires
            -bound <= x <= bound,
            bound >= 0,
    ;
}

/// The channel-wise product of two colours with channels in [0, 1).
fn color_product_exec(a: Vec3, b: Vec3) -> (c: Vec3)
    requires
        unit_color(a),
        unit_color(b),
    ensures
        c == color_product(a, b),
{
    proof {
        lemma_unit_product(a.x, b.x);
        lemma_unit_product(a.y, b.y);
        lemma_unit_product(a.z, b.z);
    }
    Vec3::new(a.x * b.x / UNIT, a.y * b.y / UNIT, a.z * b.z / UNIT)
}

/// The product of two values in [0, 1) is below one unit squared.
proof fn lemma_unit_product(a: i64, b: i64)
    requires
        unit_fraction(a),
        unit_fraction(b),
    ensures
        0 <= a * b < UNIT * UNIT,
{
    assert(0 <= a * b < UNIT * UNIT) by (nonlinear_arith)
        requires
            0 <= a < UNIT,
            0 <= b < UNIT,
    ;
}

/// The material of a small ball.
fn ball_material_exec(d: &BallDraw) -> (m: Material)
    requires
        ball_draw_in_range(*d),
    ensures
        m.deep_view() == ball_material(*d),
{
    if d.material < 16 {
        Material::lambertian_solid(color_product_exec(d.color_a, d.color_b))
    } else if d.material < 19 {
        let a = d.color_a;
        Material::Metal { albedo: Vec3::new(UNIT / 2 + a.x / 2, UNIT / 2 + a.y / 2, UNIT / 2 + a.z / 2), fuzz: d.fuzz }
    } else {
        Material::Dielectric { refraction_index: 1_500_000 }
    }
}

/// Builds the first scene from the draws of the 23 by 23 grid of small
/// balls, cell by cell (a from -11 to 11, then b from -11 to 11).
pub fn build_scattered_balls(draws: &Vec<BallDraw>, image_width: u32, samples_per_pixel: u32) -> (s: Scene)
    requires
        ball_draws(draws@),
    ensures
        s.deep_view() == scattered_balls_scene(draws@, image_width, samples_per_pixel),
{
    let ground = Primitive::Sphere {
        center: Vec3::new(0, -1000 * UNIT, 0),
        radius: 1000 * UNIT,
        material: Material::Lambertian(
            Texture::checker(320_000, Vec3::new(200_000, 300_000, 100_000), Vec3::new(900_000, 900_000, 900_000)),
        ),
    };
    let mut world: Vec<Object> = Vec::new();
    world.push(Object::plain(ground));
    let ghost head = seq![plain(checkered_ground())];
    assert(world.deep_view() =~= head + small_balls(draws@, 0).map_values(|p: PrimitiveModel| plain(p)));

    let mut a: i64 = -11;
    while a <= 11
        invariant
            -11 <= a <= 12,
            ball_draws(draws@),
            world.deep_view() =~= head + small_balls(draws@, ((a + 11) * 23) as nat).map_values(
                |p: PrimitiveModel| plain(p),
            ),
        decreases 12 - a,
    {
        let mut b: i64 = -11;
        while b <= 11
            invariant
                -11 <= a <= 11,
                -11 <= b <= 12,
                ball_draws(draws@),
                world.deep_view() =~= head + small_balls(draws@, ((a + 11) * 23 + b + 11) as nat).map_values(
                    |p: PrimitiveModel| plain(p),
                ),
            decreases 12 - b,
        {
            let k: usize = ((a + 11) * 23 + (b + 11)) as usize;
            let d = &draws[k];
            proof {
                lemma_grid_cell(a + 11, b + 11, 23);
                assert(ball_draw_in_range(draws@[k as int]));
            }
            let center = Vec3::new(a * UNIT + 9 * d.jitter_x / 10, 200_000, b * UNIT + 9 * d.jitter_z / 10);
            let dx = center.x - 4 * UNIT;
            let dy = center.y - 200_000;
            let dz = center.z;
            proof {
                assert(dy == 0);
                lemma_square_bound(dx as int, 16 * UNIT);
                lemma_square_bound(dz as int, 12 * UNIT);
            }
            let ghost before = world.deep_view();
            assert(center == ball_center(k as int, draws@[k as int]));
            if dx * dx + dy * dy + dz * dz > 900_000 * 900_000 {
                let ball = Primitive::Sphere { center, radius: 200_000, material: ball_material_exec(d) };
                let ghost ball_model = ball.deep_view();
                world.push(Object::plain(ball));
                assert(small_balls(draws@, (k + 1) as nat) == small_balls(draws@, k as nat).push(ball_model));
                assert(world.deep_view() =~= before.push(plain(ball_model)));
            } else {
                assert(small_balls(draws@, (k + 1) as nat) == small_balls(draws@, k as nat));
            }
            b = b + 1;
        }
        a = a + 1;
    }

    world.push(Object::plain(glass_sphere(Vec3::new(0, UNIT, 0), UNIT)));
    world.push(Object::plain(Primitive::Sphere {
        center: Vec3::new(-4 * UNIT, UNIT, 0),
        radius: UNIT,
        material: Material::lambertian_solid(Vec3::new(400_000, 200_000, 100_000)),
    }));
    world.push(Object::plain(Primitive::Sphere {
        center: Vec3::new(4 * UNIT, UNIT, 0),
        radius: UNIT,
        material: Material::Metal { albedo: Vec3::new(700_000, 600_000, 500_000), fuzz: 100_000 },
    }));

    let camera = Camera::new(
        16,  // aspect ratio 16:9
        9,
        image_width,  // image width
        samples_per_pixel,  // samples per pixel
        50,  // max depth
        20 * UNIT,  // fov
        Vec3::new(13 * UNIT, 2 * UNIT, 3 * UNIT),  // look from
        Vec3::new(0, 0, 0),  // look at
        Vec3::new(0, UNIT, 0),  // camera up
        Vec3::new(700_000, 800_000, UNIT),  // background color
        600_000,  // defocus angle
        10 * UNIT,  // focus distance
    );
    let s = Scene { world: World { objects: world, bvh: true }, camera, output_path: "output/render.png".to_string() };
    assert(s.world.deep_view().objects =~= scattered_balls_scene(draws@, image_width, samples_per_pixel).world.objects);
    s
}

/// A colour with each channel drawn uniformly from [0, 1).
fn random_color() -> (c: Vec3)
    ensures
        unit_color(c),
{
    Vec3::new(random_in_range(0, UNIT), random_in_range(0, UNIT), random_in_range(0, UNIT))
}

/// Sets up the first scene: draws, for each cell of the grid, a material
/// chooser from 0..20, two jitters and two colours from [0, 1) and a fuzz from
/// [0, 0.5), then builds the scene from them.
pub fn setup_scattered_balls(image_width: u32, samples_per_pixel: u32) -> (s: Scene)
    ensures
        exists|draws: Seq<BallDraw>|
            ball_draws(draws) && s.deep_view() == scattered_balls_scene(draws, image_width, samples_per_pixel),
{
    let mut draws: Vec<BallDraw> = Vec::new();
    while draws.len() < 529
        invariant
            draws.len() <= 529,
            forall|k: int| 0 <= k < draws.len() ==> ball_draw_in_range(#[trigger] draws@[k]),
        decreases 529 - draws.len(),
    {
        let material = random_in_range(0, 20);
        let jitter_x = random_in_range(0, UNIT);
        let jitter_z = random_in_range(0, UNIT);
        let color_a = random_color();
        let color_b = random_color();
        let fuzz = random_in_range(0, UNIT / 2);
        draws.push(BallDraw { material, jitter_x, jitter_z, color_a, color_b, fuzz });
    }
    build_scattered_balls(&draws, image_width, samples_per_pixel)
}

/// Every small ball of the first scene is a sphere of radius 0.2 standing
/// farther than 0.9 from (4, 0.2, 0), and there is at most one per cell.
pub proof fn lemma_small_balls_clear(draws: Seq<BallDraw>, n: nat)
    ensures
        small_balls(draws, n).len() <= n,
        forall|i: int|
            0 <= i < small_balls(draws, n).len() ==> {
                let b = #[trigger] small_balls(draws, n)[i];
                &&& b is Sphere
                &&& b->Sphere_radius == 200_000
                &&& ball_placed(b->Sphere_center)
            },
    decreases n,
{
    if n > 0 {
        lemma_small_balls_clear(draws, (n - 1) as nat);
    }
}

/// The ground boxes of the final scene stand on the ground, each of the
/// height drawn for it, and two different boxes cover disjoint squares of the
/// ground.
pub proof fn lemma_ground_boxes_disjoint(heights: Seq<i64>, k1: int, k2: int)
    requires
        0 <= k1 < 400,
        0 <= k2 < 400,
        k1 != k2,
    ensures
        ({
            let b1 = ground_boxes(heights)[k1];
            let b2 = ground_boxes(heights)[k2];
            &&& b1 is Cuboid && b2 is Cuboid
            &&& b1->Cuboid_a.y == 0 && b1->Cuboid_b.y == heights[k1]
            &&& b1->Cuboid_b.x - b1->Cuboid_a.x == u(100)
            &&& b1->Cuboid_b.z - b1->Cuboid_a.z == u(100)
            &&& b1->Cuboid_b.x <= b2->Cuboid_a.x || b2->Cuboid_b.x <= b1->Cuboid_a.x
                || b1->Cuboid_b.z <= b2->Cuboid_a.z || b2->Cuboid_b.z <= b1->Cuboid_a.z
        }),
{
    let (i1, j1, i2, j2) = (k1 / 20, k1 % 20, k2 / 20, k2 % 20);
    vstd::arithmetic::div_mod::lemma_fundamental_div_mod(k1, 20);
    vstd::arithmetic::div_mod::lemma_fundamental_div_mod(k2, 20);
    assert(0 <= i1 < 20 && 0 <= i2 < 20 && 0 <= j1 < 20 && 0 <= j2 < 20);
    assert(i1 != i2 || j1 != j2);
}

/// The scene numbered `choice` with the image size and sampling the program
/// renders it at: 1 the random balls (400 wide, 50 samples), 2 the quads,
/// 3 the globe, 4 the Cornell box (300 wide, 2000 samples), 5 the final scene
/// (200 wide, 100 samples); any other number is no scene.
pub fn setup_scene(choice: u32) -> (s: Option<Scene>)
    ensures
        choice == 1 ==> (s matches Some(sc) && exists|draws: Seq<BallDraw>|
            ball_draws(draws) && sc.deep_view() == scattered_balls_scene(draws, 400, 50)),
        choice == 2 ==> (s matches Some(sc) && sc.deep_view() == quads_scene()),
        choice == 3 ==> (s matches Some(sc) && sc.deep_view() == earth_scene()),
        choice == 4 ==> (s matches Some(sc) && sc.deep_view() == cornell_box_scene(300, 2000)),
        choice == 5 ==> (s matches Some(sc) && exists|heights: Seq<i64>, centers: Seq<Vec3>|
            spheres_and_boxes_draws(heights, centers) && sc.deep_view() == spheres_and_boxes_scene(
                heights,
                centers,
                200,
                100,
            )),
        !(1 <= choice <= 5) ==> s is None,
{
    match choice {
        1 => Some(setup_scattered_balls(400, 50)),
        2 => Some(setup_quads()),
        3 => Some(setup_earth()),
        4 => Some(setup_cornell_box(300, 2000)),
        5 => Some(setup_spheres_and_boxes(200, 100)),
        _ => None,
    }
}

} // verus!

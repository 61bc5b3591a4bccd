use raytracer::geometry::{Rotation, Vec3, UNIT};
use raytracer::material::{Material, Texture};
use raytracer::scene::{Object, Primitive, Shape};
use raytracer::scenes::{
    build_scattered_balls, build_spheres_and_boxes, setup_cornell_box, setup_earth, setup_quads,
    setup_scattered_balls, setup_spheres_and_boxes, BallDraw,
};

fn sphere(o: &Object) -> (Vec3, i64, &Material) {
    match &o.shape {
        Shape::Single(Primitive::Sphere { center, radius, material }) => (*center, *radius, material),
        other => panic!("not a sphere: {:?}", other),
    }
}

fn is_plain(o: &Object) -> bool {
    o.rotation.is_none() && o.offset.is_none() && o.fog.is_none()
}

#[test]
fn earth_scene() {
    let s = setup_earth();
    assert_eq!(s.output_path, "output/render.png");
    assert!(!s.world.bvh);
    assert_eq!(s.world.objects.len(), 1);
    let (c, r, m) = sphere(&s.world.objects[0]);
    assert_eq!(c, Vec3::new(0, 0, 0));
    assert_eq!(r, 2 * UNIT);
    assert_eq!(*m, Material::Lambertian(Texture::Image("assets/earthmap.jpg".to_string())));
    assert_eq!(s.camera.image_width, 1200);
    assert_eq!(s.camera.image_height, 675);
    assert_eq!(s.camera.samples_per_pixel, 100);
    assert_eq!(s.camera.max_depth, 50);
    assert_eq!(s.camera.lookfrom, Vec3::new(-4 * UNIT, 12 * UNIT, 5 * UNIT));
    assert_eq!(s.camera.fov, 20 * UNIT);
    assert_eq!(s.camera.defocus_angle, 0);
}

#[test]
fn quads_scene() {
    let s = setup_quads();
    assert_eq!(s.world.objects.len(), 6);
    assert!(s.world.objects.iter().all(is_plain));
    match &s.world.objects[0].shape {
        Shape::Single(Primitive::Quad { q, u, v, material }) => {
            assert_eq!(*q, Vec3::new(-3 * UNIT, -2 * UNIT, 5 * UNIT));
            assert_eq!(*u, Vec3::new(0, 0, -4 * UNIT));
            assert_eq!(*v, Vec3::new(0, 4 * UNIT, 0));
            assert_eq!(*material, Material::Lambertian(Texture::Solid(Vec3::new(UNIT, 200_000, 200_000))));
        }
        other => panic!("not a quad: {:?}", other),
    }
    let (c, r, _) = sphere(&s.world.objects[5]);
    assert_eq!(c, Vec3::new(0, 0, 0));
    assert_eq!(r, 2_250_000);
    assert_eq!(s.camera.image_height, 600);
    assert_eq!(s.camera.fov, 70 * UNIT);
}

#[test]
fn cornell_box_scene() {
    let s = setup_cornell_box(300, 2000);
    assert!(s.world.bvh);
    assert_eq!(s.world.objects.len(), 8);
    assert!(s.world.objects[..6].iter().all(is_plain));
    match &s.world.objects[2].shape {
        Shape::Single(Primitive::Quad { material, .. }) => {
            assert_eq!(*material, Material::DiffuseLight(Texture::Solid(Vec3::new(15 * UNIT, 15 * UNIT, 15 * UNIT))));
        }
        other => panic!("not a quad: {:?}", other),
    }
    let smoke = &s.world.objects[6];
    assert_eq!(smoke.rotation, Some(Rotation::AboutY { degrees: 15 * UNIT }));
    assert_eq!(smoke.offset, Some(Vec3::new(265 * UNIT, 0, 295 * UNIT)));
    let fog = smoke.fog.as_ref().unwrap();
    assert_eq!(fog.density, 10_000);
    assert_eq!(fog.albedo, Texture::Solid(Vec3::new(0, 0, 0)));
    assert_eq!(s.world.objects[7].rotation, Some(Rotation::AboutY { degrees: -18 * UNIT }));
    assert_eq!(s.camera.image_width, 300);
    assert_eq!(s.camera.image_height, 300);
    assert_eq!(s.camera.samples_per_pixel, 2000);
    assert_eq!(s.camera.background, Vec3::new(0, 0, 0));
}

fn draw(material: i64, jitter: i64) -> BallDraw {
    BallDraw {
        material,
        jitter_x: jitter,
        jitter_z: jitter,
        color_a: Vec3::new(500_000, 200_000, 0),
        color_b: Vec3::new(500_000, 500_000, 999_999),
        fuzz: 250_000,
    }
}

#[test]
fn scattered_balls_from_fixed_draws() {
    // cell k = (a + 11) * 23 + (b + 11)
    let mut draws: Vec<BallDraw> = (0..529).map(|_| draw(0, 0)).collect();
    draws[0] = draw(17, 500_000); // a = -11, b = -11: metal
    draws[1] = draw(19, 0); // a = -11, b = -10: glass
    let s = build_scattered_balls(&draws, 400, 50);
    assert!(s.world.bvh);
    // cell a = 4, b = 0 puts its ball at (4, 0.2, 0): too close to the big metal sphere
    let n_small = s.world.objects.len() - 4;
    assert_eq!(n_small, 528);
    let (c0, r0, m0) = sphere(&s.world.objects[1]);
    assert_eq!(c0, Vec3::new(-11 * UNIT + 450_000, 200_000, -11 * UNIT + 450_000));
    assert_eq!(r0, 200_000);
    assert_eq!(*m0, Material::Metal { albedo: Vec3::new(750_000, 600_000, 500_000), fuzz: 250_000 });
    let (_, _, m1) = sphere(&s.world.objects[2]);
    assert_eq!(*m1, Material::Dielectric { refraction_index: 1_500_000 });
    let (_, _, m2) = sphere(&s.world.objects[3]);
    assert_eq!(*m2, Material::Lambertian(Texture::Solid(Vec3::new(250_000, 100_000, 0))));
    let (ground_c, ground_r, ground_m) = sphere(&s.world.objects[0]);
    assert_eq!(ground_c, Vec3::new(0, -1000 * UNIT, 0));
    assert_eq!(ground_r, 1000 * UNIT);
    assert!(matches!(ground_m, Material::Lambertian(Texture::Checker { scale: 320_000, .. })));
    let (c_last, _, m_last) = sphere(&s.world.objects[s.world.objects.len() - 1]);
    assert_eq!(c_last, Vec3::new(4 * UNIT, UNIT, 0));
    assert_eq!(*m_last, Material::Metal { albedo: Vec3::new(700_000, 600_000, 500_000), fuzz: 100_000 });
    assert_eq!(s.camera.image_height, 225);
    assert_eq!(s.camera.defocus_angle, 600_000);
}

#[test]
fn scattered_balls_keep_clear_of_the_big_metal_sphere() {
    let s = setup_scattered_balls(400, 50);
    let n = s.world.objects.len();
    assert!(n >= 4 && n <= 1 + 529 + 3);
    for o in &s.world.objects[1..n - 3] {
        let (c, r, m) = sphere(o);
        assert_eq!(r, 200_000);
        assert_eq!(c.y, 200_000);
        let dx = (c.x - 4 * UNIT) as i128;
        let dz = c.z as i128;
        assert!(dx * dx + dz * dz > 900_000 * 900_000);
        match m {
            Material::Lambertian(Texture::Solid(col)) => {
                assert!(col.x >= 0 && col.x < UNIT && col.y >= 0 && col.y < UNIT && col.z >= 0 && col.z < UNIT)
            }
            Material::Metal { albedo, fuzz } => {
                assert!(albedo.x >= UNIT / 2 && albedo.x < UNIT);
                assert!(*fuzz >= 0 && *fuzz < UNIT / 2);
            }
            Material::Dielectric { refraction_index } => assert_eq!(*refraction_index, 1_500_000),
            other => panic!("unexpected material {:?}", other),
        }
    }
}

#[test]
fn spheres_and_boxes_from_fixed_draws() {
    let heights: Vec<i64> = (0..400).map(|k| UNIT + k as i64 * 1000).collect();
    let centers: Vec<Vec3> = (0..1000).map(|k| Vec3::new(165 * k as i64, 0, 165)).collect();
    let s = build_spheres_and_boxes(&heights, &centers, 200, 100);
    assert_eq!(s.output_path, "output/idkstuff.png");
    assert!(!s.world.bvh);
    assert_eq!(s.world.objects.len(), 10);
    match &s.world.objects[0].shape {
        Shape::Bvh(boxes) => {
            assert_eq!(boxes.len(), 400);
            // row 1, column 2
            match &boxes[22] {
                Primitive::Cuboid { a, b, .. } => {
                    assert_eq!(*a, Vec3::new(-900 * UNIT, 0, -800 * UNIT));
                    assert_eq!(*b, Vec3::new(-800 * UNIT, UNIT + 22_000, -700 * UNIT));
                }
                other => panic!("not a box: {:?}", other),
            }
        }
        other => panic!("not a bvh: {:?}", other),
    }
    let cluster = &s.world.objects[9];
    assert_eq!(cluster.rotation, Some(Rotation::EulerYxz { y: 15 * UNIT, x: 25 * UNIT, z: 0 }));
    assert_eq!(cluster.offset, Some(Vec3::new(0, 270 * UNIT, 395 * UNIT)));
    match &cluster.shape {
        Shape::Bvh(spheres) => {
            assert_eq!(spheres.len(), 1000);
            match &spheres[7] {
                Primitive::Sphere { center, radius, .. } => {
                    assert_eq!(*center, Vec3::new(165 * 7, 0, 165));
                    assert_eq!(*radius, 10 * UNIT);
                }
                other => panic!("not a sphere: {:?}", other),
            }
        }
        other => panic!("not a bvh: {:?}", other),
    }
    assert_eq!(s.world.objects[7].fog.as_ref().unwrap().density, 100);
    assert_eq!(s.camera.lookfrom, Vec3::new(478 * UNIT, 278 * UNIT, -600 * UNIT));
}

#[test]
fn spheres_and_boxes_random_values_stay_in_range() {
    let s = setup_spheres_and_boxes(200, 100);
    let heights: Vec<i64> = match &s.world.objects[0].shape {
        Shape::Bvh(boxes) => boxes
            .iter()
            .map(|b| match b {
                Primitive::Cuboid { b, .. } => b.y,
                other => panic!("not a box: {:?}", other),
            })
            .collect(),
        other => panic!("not a bvh: {:?}", other),
    };
    assert_eq!(heights.len(), 400);
    assert!(heights.iter().all(|h| *h >= UNIT && *h < 101 * UNIT));
    // random draws: not all the same
    assert!(heights.iter().any(|h| *h != heights[0]));
    match &s.world.objects[9].shape {
        Shape::Bvh(spheres) => {
            for p in spheres {
                match p {
                    Primitive::Sphere { center, .. } => {
                        for c in [center.x, center.y, center.z] {
                            assert!(c >= 0 && c < 165 * UNIT && c % 165 == 0);
                        }
                    }
                    other => panic!("not a sphere: {:?}", other),
                }
            }
        }
        other => panic!("not a bvh: {:?}", other),
    }
}

#[test]
fn ground_boxes_do_not_overlap() {
    let heights: Vec<i64> = (0..400).map(|_| 50 * UNIT).collect();
    let centers: Vec<Vec3> = (0..1000).map(|_| Vec3::new(0, 0, 0)).collect();
    let s = build_spheres_and_boxes(&heights, &centers, 10, 1);
    let boxes: Vec<(Vec3, Vec3)> = match &s.world.objects[0].shape {
        Shape::Bvh(boxes) => boxes
            .iter()
            .map(|p| match p {
                Primitive::Cuboid { a, b, .. } => (*a, *b),
                other => panic!("not a box: {:?}", other),
            })
            .collect(),
        other => panic!("not a bvh: {:?}", other),
    };
    for (i, (a1, b1)) in boxes.iter().enumerate() {
        assert_eq!(a1.y, 0);
        assert_eq!(b1.x - a1.x, 100 * UNIT);
        for (a2, b2) in boxes.iter().skip(i + 1) {
            assert!(b1.x <= a2.x || b2.x <= a1.x || b1.z <= a2.z || b2.z <= a1.z);
        }
    }
}

#[test]
fn scene_choice() {
    assert!(raytracer::scenes::setup_scene(0).is_none());
    assert!(raytracer::scenes::setup_scene(6).is_none());
    let earth = raytracer::scenes::setup_scene(3).unwrap();
    assert_eq!(earth.camera.image_width, 1200);
    let cornell = raytracer::scenes::setup_scene(4).unwrap();
    assert_eq!(cornell.camera.samples_per_pixel, 2000);
    let last = raytracer::scenes::setup_scene(5).unwrap();
    assert_eq!(last.output_path, "output/idkstuff.png");
    let first = raytracer::scenes::setup_scene(1).unwrap();
    assert_eq!(first.camera.image_width, 400);
}

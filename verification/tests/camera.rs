use raytracer::camera::{Camera, RayAction, RayEvent};
use raytracer::geometry::{Vec3, UNIT};

fn camera(aspect_width: u32, aspect_height: u32, width: u32, defocus: i64) -> Camera {
    let o = Vec3::new(0, 0, 0);
    Camera::new(aspect_width, aspect_height, width, 10, 50, 20 * UNIT, o, o, Vec3::new(0, UNIT, 0), o, defocus, 10 * UNIT)
}

#[test]
fn image_height_follows_aspect_ratio() {
    assert_eq!(camera(16, 9, 400, 0).image_height, 225);
    assert_eq!(camera(16, 9, 1200, 0).image_height, 675);
    assert_eq!(camera(1, 1, 600, 0).image_height, 600);
    // 401 * 9 / 16 = 225.56..., rounded down
    assert_eq!(camera(16, 9, 401, 0).image_height, 225);
}

#[test]
fn image_height_is_at_least_one() {
    assert_eq!(camera(16, 9, 1, 0).image_height, 1);
    assert_eq!(camera(16, 9, 0, 0).image_height, 1);
    assert_eq!(camera(1, 0, 500, 0).image_height, 1);
}

#[test]
fn image_height_saturates() {
    assert_eq!(camera(1, 2, u32::MAX, 0).image_height, u32::MAX);
}

#[test]
fn new_keeps_its_arguments() {
    let c = Camera::new(
        16,
        9,
        400,
        50,
        40,
        20 * UNIT,
        Vec3::new(13 * UNIT, 2 * UNIT, 3 * UNIT),
        Vec3::new(0, 0, 0),
        Vec3::new(0, UNIT, 0),
        Vec3::new(700_000, 800_000, UNIT),
        600_000,
        10 * UNIT,
    );
    assert_eq!(c.image_width, 400);
    assert_eq!(c.samples_per_pixel, 50);
    assert_eq!(c.max_depth, 40);
    assert_eq!(c.fov, 20 * UNIT);
    assert_eq!(c.lookfrom, Vec3::new(13 * UNIT, 2 * UNIT, 3 * UNIT));
    assert_eq!(c.background, Vec3::new(700_000, 800_000, UNIT));
    assert_eq!(c.defocus_angle, 600_000);
    assert_eq!(c.focus_distance, 10 * UNIT);
}

#[test]
fn total_samples_counts_every_sample_of_every_pixel() {
    let mut c = camera(1, 1, 300, 0);
    c.samples_per_pixel = 2000;
    assert_eq!(c.total_samples(), 300 * 300 * 2000);
    let c = camera(16, 9, 400, 0);
    assert_eq!(c.total_samples(), 400 * 225 * 10);
}

#[test]
fn defocus_only_with_positive_angle() {
    assert!(camera(1, 1, 10, 600_000).defocus_enabled());
    assert!(!camera(1, 1, 10, 0).defocus_enabled());
    assert!(!camera(1, 1, 10, -1).defocus_enabled());
}

#[test]
fn ray_step_decisions() {
    assert_eq!(Camera::ray_step(0, RayEvent::Start), RayAction::Black);
    assert_eq!(Camera::ray_step(50, RayEvent::Start), RayAction::QueryWorld);
    assert_eq!(Camera::ray_step(50, RayEvent::Missed), RayAction::Background);
    assert_eq!(Camera::ray_step(50, RayEvent::Absorbed), RayAction::Emitted);
    assert_eq!(Camera::ray_step(50, RayEvent::Scattered), RayAction::EmittedPlusBounce { depth: 49 });
    assert_eq!(Camera::ray_step(1, RayEvent::Scattered), RayAction::EmittedPlusBounce { depth: 0 });
}

#[test]
fn a_ray_that_always_scatters_stops_after_max_depth_bounces() {
    let mut depth = 50;
    let mut bounces = 0;
    loop {
        match Camera::ray_step(depth, RayEvent::Start) {
            RayAction::Black => break,
            RayAction::QueryWorld => match Camera::ray_step(depth, RayEvent::Scattered) {
                RayAction::EmittedPlusBounce { depth: d } => {
                    depth = d;
                    bounces += 1;
                }
                other => panic!("unexpected {:?}", other),
            },
            other => panic!("unexpected {:?}", other),
        }
    }
    assert_eq!(bounces, 50);
}

#[test]
fn zero_aspect_ratio() {
    // width / 0 is infinite: the height saturates
    assert_eq!(camera(0, 9, 400, 0).image_height, u32::MAX);
    // 0 / 0 and 400 / (0 / 0) are undefined: one pixel
    assert_eq!(camera(0, 9, 0, 0).image_height, 1);
    assert_eq!(camera(0, 0, 400, 0).image_height, 1);
    let c = camera(0, 9, 400, 0);
    assert_eq!(c.aspect_width, 0);
    assert_eq!(c.aspect_height, 9);
    assert_eq!(c.image_width, 400);
}

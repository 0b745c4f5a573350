//! The tracer's decisions held against real double arithmetic done here
//! in the tests: root selection, normal orientation, nearest-hit
//! resolution, the dielectric branch, the trace control, and the frame
//! buffer layout.

use raytrace::geometry::discriminant_misses;
use raytrace::geometry::first_intersection;
use raytrace::geometry::orient_intersection;
use raytrace::geometry::select_root;
use raytrace::geometry::Intersectable;
use raytrace::geometry::Intersection;
use raytrace::geometry::Sphere;
use raytrace::linalg::Vec3D;
use raytrace::materials::fuzzy_reflection_absorbed;
use raytrace::materials::refraction_choice;
use raytrace::materials::select_index_ratio;
use raytrace::materials::Material;
use raytrace::materials::RefractionChoice;
use raytrace::materials::Surface;
use raytrace::render::pixel_index;
use raytrace::scalar::Scalar;
use raytrace::tracer::trace_step;
use raytrace::tracer::TraceEvent;
use raytrace::tracer::TraceStep;

fn key(x: f64) -> u64 {
    let b = x.to_bits();
    if b & 0x8000_0000_0000_0000 == 0 {
        b | 0x8000_0000_0000_0000
    } else {
        !b
    }
}

fn scalar(x: f64) -> Scalar {
    Scalar { key: key(x) }
}

fn double(s: Scalar) -> f64 {
    if s.key & 0x8000_0000_0000_0000 != 0 {
        f64::from_bits(s.key & 0x7FFF_FFFF_FFFF_FFFF)
    } else {
        f64::from_bits(!s.key)
    }
}

fn vec3(x: f64, y: f64, z: f64) -> Vec3D {
    Vec3D(scalar(x), scalar(y), scalar(z))
}

fn hit_at(distance: f64) -> Intersection {
    Intersection {
        point: vec3(0.0, 0.0, 0.0),
        distance: scalar(distance),
        local_normal: vec3(0.0, 1.0, 0.0),
        inside: false,
    }
}

#[test]
fn negative_discriminant_misses_the_sphere() {
    // Ray from (0,0,-3) along +x past the unit sphere at the origin:
    // h = 0, c = 8, so the discriminant is -8 and the ray misses.
    let discriminant: f64 = 0.0 - 1.0 * 8.0;
    assert!(discriminant_misses(scalar(discriminant)));
    assert!(!discriminant_misses(scalar(0.0)));
    assert!(!discriminant_misses(scalar(2.25)));
}

#[test]
fn select_root_prefers_the_smaller_valid_root() {
    assert_eq!(select_root(scalar(2.0), scalar(5.0)), Some(scalar(2.0)));
}

#[test]
fn select_root_skips_a_root_below_epsilon() {
    assert_eq!(select_root(scalar(0.005), scalar(3.0)), Some(scalar(3.0)));
}

#[test]
fn select_root_rejects_both_roots_below_epsilon() {
    assert_eq!(select_root(scalar(0.0099), scalar(0.005)), None);
    assert_eq!(select_root(scalar(-2.0), scalar(-1.0)), None);
}

#[test]
fn epsilon_boundary_root_counts_as_a_hit() {
    assert_eq!(select_root(scalar(0.01), scalar(5.0)), Some(scalar(0.01)));
}

#[test]
fn normal_kept_when_ray_starts_outside() {
    // Ray from (0,0,-3) along +z against the unit sphere at the origin:
    // hit point (0,0,-1), outward normal (0,0,-1), dot with direction -1.
    let direction = (0.0, 0.0, 1.0);
    let normal = (0.0, 0.0, -1.0);
    let dot = direction.0 * normal.0 + direction.1 * normal.1 + direction.2 * normal.2;
    let i = orient_intersection(
        vec3(0.0, 0.0, -1.0),
        scalar(2.0),
        vec3(normal.0, normal.1, normal.2),
        scalar(dot),
    );
    assert!(!i.inside);
    assert_eq!(i.local_normal, vec3(0.0, 0.0, -1.0));
}

#[test]
fn normal_flipped_when_ray_starts_inside() {
    // Ray from the centre of the unit sphere along +z: hit point (0,0,1),
    // outward normal (0,0,1), dot with direction +1, so the ray was inside
    // and the normal is flipped to oppose it.
    let direction = (0.0, 0.0, 1.0);
    let normal = (0.0, 0.0, 1.0);
    let dot = direction.0 * normal.0 + direction.1 * normal.1 + direction.2 * normal.2;
    let i = orient_intersection(
        vec3(0.0, 0.0, 1.0),
        scalar(1.0),
        vec3(normal.0, normal.1, normal.2),
        scalar(dot),
    );
    assert!(i.inside);
    assert_eq!(double(i.local_normal.2), -1.0);
}

#[test]
fn oriented_normal_opposes_the_ray() {
    let directions = [(0.0, 0.0, 1.0), (0.3, -0.4, 0.5), (-1.0, 2.0, -2.0)];
    let normals = [(0.0, 0.0, 1.0), (0.6, 0.0, -0.8), (-0.577, -0.577, -0.577)];
    for &d in &directions {
        for &n in &normals {
            let dot = d.0 * n.0 + d.1 * n.1 + d.2 * n.2;
            let i = orient_intersection(vec3(0.0, 0.0, 0.0), scalar(1.0), vec3(n.0, n.1, n.2), scalar(dot));
            let ln = (double(i.local_normal.0), double(i.local_normal.1), double(i.local_normal.2));
            let oriented_dot = d.0 * ln.0 + d.1 * ln.1 + d.2 * ln.2;
            assert!(oriented_dot <= 0.0, "dot {} for direction {:?} normal {:?}", oriented_dot, d, n);
        }
    }
}

#[test]
fn nearest_hit_takes_the_minimum_distance() {
    let hits = vec![Some(hit_at(3.0)), None, Some(hit_at(1.0)), Some(hit_at(2.0))];
    let (hit, index) = first_intersection(&hits).unwrap();
    assert_eq!(index, 2);
    assert_eq!(double(hit.distance), 1.0);
}

#[test]
fn nearest_hit_tie_falls_to_the_first_seen() {
    let hits = vec![None, Some(hit_at(2.0)), Some(hit_at(2.0))];
    let (_, index) = first_intersection(&hits).unwrap();
    assert_eq!(index, 1);
}

#[test]
fn nearest_hit_is_none_only_when_all_tests_miss() {
    let all_miss: Vec<Option<Intersection>> = vec![None, None, None];
    assert!(first_intersection(&all_miss).is_none());
    let empty: Vec<Option<Intersection>> = vec![];
    assert!(first_intersection(&empty).is_none());
    let one_hit: Vec<Option<Intersection>> = vec![None, Some(hit_at(9.0))];
    assert!(first_intersection(&one_hit).is_some());
}

#[test]
fn index_ratio_follows_the_inside_flag() {
    let index = scalar(1.5);
    let inverse = scalar(1.0 / 1.5);
    assert_eq!(select_index_ratio(true, index, inverse), index);
    assert_eq!(select_index_ratio(false, index, inverse), inverse);
}

#[test]
fn normal_incidence_into_denser_medium_never_forces_reflection() {
    // Entering glass from air: index ratio 1/1.5 < 1; at normal incidence
    // cos_theta1 = 1 so sin_theta1 = 0, and the ratio-sine product is 0.
    let index_ratio: f64 = 1.0 / 1.5;
    let cos_theta1: f64 = 1.0;
    let sin_theta1 = (1.0 - cos_theta1 * cos_theta1).sqrt();
    let ratio_sin = index_ratio * sin_theta1;
    let r0 = ((1.0 - index_ratio) / (1.0 + index_ratio)).powi(2);
    let reflectivity = r0 + (1.0 - r0) * (1.0 - cos_theta1).powi(5);
    // any roll at or above the reflectivity refracts: reflection is never forced
    for &roll in &[reflectivity, 0.5, 0.99] {
        let c = refraction_choice(scalar(ratio_sin), scalar(reflectivity), scalar(roll));
        assert_eq!(c, RefractionChoice::Refract);
    }
}

#[test]
fn grazing_exit_total_internally_reflects() {
    // Leaving glass at a grazing angle: index ratio 1.5 > 1 and
    // sin_theta1 = 0.9 > 1/1.5, so the ratio-sine product exceeds one and
    // reflection is forced whatever the roll.
    let index_ratio: f64 = 1.5;
    let sin_theta1: f64 = 0.9;
    let ratio_sin = index_ratio * sin_theta1;
    assert!(sin_theta1 > 1.0 / index_ratio);
    for &roll in &[0.0, 0.5, 0.999999] {
        let c = refraction_choice(scalar(ratio_sin), scalar(0.04), scalar(roll));
        assert_eq!(c, RefractionChoice::Reflect);
    }
}

#[test]
fn fresnel_roll_below_reflectivity_reflects() {
    let c = refraction_choice(scalar(0.5), scalar(0.3), scalar(0.2));
    assert_eq!(c, RefractionChoice::Reflect);
    let c2 = refraction_choice(scalar(0.5), scalar(0.3), scalar(0.3));
    assert_eq!(c2, RefractionChoice::Refract);
}

#[test]
fn fuzzy_bounce_into_the_surface_is_absorbed() {
    assert!(fuzzy_reflection_absorbed(scalar(-0.2)));
    assert!(fuzzy_reflection_absorbed(scalar(0.0)));
    assert!(!fuzzy_reflection_absorbed(scalar(0.2)));
}

#[test]
fn exhausted_depth_budget_shades_black() {
    assert_eq!(trace_step(0, TraceEvent::Miss), TraceStep::Black);
    let event = TraceEvent::Hit { surface: Surface::Diffuse, scatter_dot_normal: scalar(1.0) };
    assert_eq!(trace_step(0, event), TraceStep::Black);
}

#[test]
fn empty_world_shades_the_background_at_any_depth() {
    let world: Vec<Option<Intersection>> = vec![];
    assert!(first_intersection(&world).is_none());
    assert_eq!(trace_step(50, TraceEvent::Miss), TraceStep::Background);
    assert_eq!(trace_step(1, TraceEvent::Miss), TraceStep::Background);
}

#[test]
fn fuzzy_absorption_short_circuits_the_recursion() {
    let absorbed = TraceEvent::Hit {
        surface: Surface::FuzzyReflective(scalar(0.3)),
        scatter_dot_normal: scalar(-0.2),
    };
    assert_eq!(trace_step(10, absorbed), TraceStep::Absorbed);
    let kept = TraceEvent::Hit {
        surface: Surface::FuzzyReflective(scalar(0.3)),
        scatter_dot_normal: scalar(0.2),
    };
    assert_eq!(trace_step(10, kept), TraceStep::Bounce);
}

#[test]
fn ordinary_hits_bounce() {
    for surface in [Surface::Diffuse, Surface::Reflective, Surface::Refractive(scalar(1.5))] {
        let event = TraceEvent::Hit { surface, scatter_dot_normal: scalar(-1.0) };
        assert_eq!(trace_step(50, event), TraceStep::Bounce);
    }
}

#[test]
fn sphere_material_is_returned_by_the_primitive() {
    let material = Material { color: vec3(0.8, 0.6, 0.2), surface: Surface::Reflective };
    let sphere = Intersectable::Sphere(Sphere {
        origin: vec3(0.0, 0.0, -1.0),
        radius: scalar(0.5),
        material,
    });
    assert_eq!(sphere.material(), material);
}

#[test]
fn pixel_index_is_row_major() {
    assert_eq!(pixel_index(0, 0, 5), 0);
    assert_eq!(pixel_index(0, 4, 5), 4);
    assert_eq!(pixel_index(2, 3, 5), 13);
    assert_eq!(pixel_index(3, 0, 5), 15);
}

#[test]
fn pixels_occupy_distinct_cells() {
    let rows = 3;
    let cols = 4;
    let mut seen = vec![false; rows * cols];
    for row in 0..rows {
        for col in 0..cols {
            let i = pixel_index(row, col, cols);
            assert!(!seen[i], "cell {} written twice", i);
            seen[i] = true;
        }
    }
    assert!(seen.iter().all(|&s| s));
}

use ccgeom::{Complex, Geometry, Geometry3, Hyperbolic3, Mapping, Moebius, Poincare3, Poincare3Normal, Quaternion, Vector};
use rand::distributions::Uniform;
use rand::{Rng, SeedableRng};
use rand_xorshift::XorShiftRng;
use std::f64::consts::PI;
use vecmat::distr::Normal;

type Hy3 = Hyperbolic3<f64>;

const SAMPLE_ATTEMPTS: usize = 256;
const EPS: f64 = 1e-14;

fn sample_point(rng: &mut XorShiftRng) -> Quaternion<f64> {
    Poincare3Normal.sample(rng)
}

fn close(a: Quaternion<f64>, b: Quaternion<f64>, eps: f64) -> bool {
    (a.w - b.w).abs() <= eps
        && (a.x - b.x).abs() <= eps
        && (a.y - b.y).abs() <= eps
        && (a.z - b.z).abs() <= eps
}

fn close_complex(a: Complex<f64>, b: Complex<f64>, eps: f64) -> bool {
    (a.re - b.re).abs() <= eps && (a.im - b.im).abs() <= eps
}

fn close_matrix(a: Moebius<f64>, b: Moebius<f64>, eps: f64) -> bool {
    close_complex(a.a, b.a, eps)
        && close_complex(a.b, b.b, eps)
        && close_complex(a.c, b.c, eps)
        && close_complex(a.d, b.d, eps)
}

fn point(x: f64, y: f64, z: f64) -> Quaternion<f64> {
    Quaternion { w: x, x: y, y: z, z: 0.0 }
}

fn complex(re: f64, im: f64) -> Complex<f64> {
    Complex { re, im }
}

#[test]
fn tests_distance_invariance() {
    let elems: Vec<Box<dyn Fn(&mut XorShiftRng) -> Moebius<f64>>> = vec![
        Box::new(|rng| Hy3::rotate_y(rng.sample(&Uniform::from(0.0..(2.0 * PI))))),
        Box::new(|rng| Hy3::rotate_z(rng.sample(&Uniform::from(0.0..(2.0 * PI))))),
        Box::new(|rng| Hy3::shift_z(rng.sample(&Normal))),
    ];

    let mut rng = XorShiftRng::seed_from_u64(0xCCA);
    for _ in 0..SAMPLE_ATTEMPTS {
        let a = sample_point(&mut rng);
        let b = sample_point(&mut rng);

        let mut m = Moebius::identity();
        let uniform = Uniform::from(0..3);
        for _ in 0..8 {
            m = m.chain(elems[rng.sample(uniform)](&mut rng));
        }

        let dist_before = Hy3::distance(a, b);
        let dist_after = Hy3::distance(m.apply_pos(a), m.apply_pos(b));

        assert!((dist_before - dist_after).abs() <= EPS);
    }
}

#[test]
fn tests_look_at_the_point() {
    let mut rng = XorShiftRng::seed_from_u64(0xCCA);
    for _ in 0..SAMPLE_ATTEMPTS {
        let q = sample_point(&mut rng);

        let p = Hy3::look_at_pos(q).apply_pos(q);
        assert!(close_complex(p.hxy(), complex(0.0, 0.0), EPS.sqrt()));
    }
}

#[test]
fn rotation_of_derivative() {
    let mut rng = XorShiftRng::seed_from_u64(0xCCA);
    for _ in 0..SAMPLE_ATTEMPTS {
        let q = sample_point(&mut rng).normalize();
        let phi = -q.hy().atan2(q.hx());
        let theta = -q.hxy().norm().atan2(q.hz());

        let c = Hy3::rotate_y(theta).chain(Hy3::rotate_z(phi));

        assert!(close(c.apply_dir(Quaternion::j(), q), Quaternion::j(), EPS));
    }
}

#[test]
fn tests_move_at_the_point() {
    let mut rng = XorShiftRng::seed_from_u64(0xCCA);
    for _ in 0..SAMPLE_ATTEMPTS {
        let p = sample_point(&mut rng);
        let q = sample_point(&mut rng);

        let a = Hy3::move_at_pos(p);
        assert!(close(a.apply_pos(p), Hy3::origin(), EPS));

        let b = Hy3::move_at_pos(q).inv().chain(a);
        assert!(close(b.apply_pos(p), q, EPS.sqrt()));
    }
}

#[test]
fn hyperbolic_distance_of_the_origin_to_itself() {
    let origin = Hy3::origin();
    assert_eq!(origin, Quaternion { w: 0.0, x: 0.0, y: 1.0, z: 0.0 });
    assert_eq!(Hy3::default_dir(), Quaternion { w: 0.0, x: 0.0, y: 1.0, z: 0.0 });
    assert_eq!(Hy3::distance(origin, origin), 0.0);
    assert_eq!(Hy3::length(origin), 0.0);
}

#[test]
fn hyperbolic_distance_formula() {
    let a = point(1.0, 2.0, 0.5);
    let b = point(-1.0, 0.0, 4.0);
    // |a - b|^2 = 4 + 4 + 12.25, 2 hz(a) hz(b) = 4
    let x: f64 = 1.0 + 20.25 / 4.0;
    let expected = (x + (x * x - 1.0).sqrt()).ln();
    assert_eq!(Hy3::distance(a, b), expected);
    assert_eq!(Hy3::distance(b, a), expected);
    assert!((expected - x.acosh()).abs() <= EPS);
}

#[test]
fn hyperbolic_distance_along_the_vertical_axis() {
    let e = 1.0_f64.exp();
    assert!((Hy3::distance(point(0.0, 0.0, 1.0), point(0.0, 0.0, e)) - 1.0).abs() <= 1e-15);
    assert!((Hy3::length(point(0.0, 0.0, e * e)) - 2.0).abs() <= 1e-15);
    assert!((Hy3::length(point(0.0, 0.0, 1.0 / e)) - 1.0).abs() <= 1e-15);
}

#[test]
fn hyperbolic_length_is_the_distance_to_the_origin() {
    let mut rng = XorShiftRng::seed_from_u64(0xCCA);
    for _ in 0..SAMPLE_ATTEMPTS {
        let a = sample_point(&mut rng);
        assert_eq!(Hy3::length(a), Hy3::distance(a, Hy3::origin()));
    }
}

#[test]
fn hyperbolic_local_directions() {
    let p = point(0.1, 0.2, 0.3);
    let d = point(3.0, 4.0, 5.0);
    assert_eq!(Hy3::dir_to_local(p, d), Vector { data: [3.0, 4.0, 5.0] });
    assert_eq!(Hy3::dir_from_local(p, Vector { data: [3.0, 4.0, 5.0] }), d);
    let odd = Quaternion { w: 3.0, x: 4.0, y: 5.0, z: 6.0 };
    assert_eq!(Hy3::dir_to_local(p, odd), Vector { data: [3.0, 4.0, 5.0] });
}

#[test]
fn hyperbolic_dir_when_moved_at_pos_formula() {
    let r = Hy3::dir_when_moved_at_pos(point(1.0, 2.0, 2.0), point(3.0, 4.0, 5.0), point(1.0, 2.0, 4.0));
    assert_eq!(r, point(6.0, 8.0, 5.0));
    let r = Hy3::dir_when_moved_at_pos(point(0.0, 0.0, 2.0), point(0.6, 0.8, 0.5), point(3.0, 4.0, 1.0));
    assert_eq!(r, point(0.3, 0.4, -2.0));
}

#[test]
fn hyperbolic_horosphere() {
    let m = Hy3::horosphere(complex(0.5, -2.0));
    assert_eq!(m, Moebius { a: complex(1.0, 0.0), b: complex(0.5, -2.0), c: complex(0.0, 0.0), d: complex(1.0, 0.0) });
    assert_eq!(m.apply_pos(Hy3::origin()), point(0.5, -2.0, 1.0));
    assert_eq!(m.apply_pos(point(1.0, 1.0, 3.0)), point(1.5, -1.0, 3.0));
}

#[test]
fn hyperbolic_shift_matrices() {
    let d: f64 = 1.5;
    let (c, s, e) = ((d / 2.0).cosh(), (d / 2.0).sinh(), (d / 2.0).exp());
    assert_eq!(Hy3::shift_x(d), Moebius { a: complex(c, 0.0), b: complex(s, 0.0), c: complex(s, 0.0), d: complex(c, 0.0) });
    assert_eq!(Hy3::shift_y(d), Moebius { a: complex(c, 0.0), b: complex(0.0, s), c: complex(-0.0, -s), d: complex(c, 0.0) });
    assert_eq!(Hy3::shift_z(d), Moebius { a: complex(e, 0.0), b: complex(0.0, 0.0), c: complex(0.0, 0.0), d: complex(1.0 / e, 0.0) });
}

#[test]
fn hyperbolic_rotation_matrices() {
    let t: f64 = 0.75;
    let (c, s) = ((t / 2.0).cos(), (t / 2.0).sin());
    assert_eq!(Hy3::rotate_x(t), Moebius { a: complex(c, 0.0), b: complex(0.0, s), c: complex(0.0, s), d: complex(c, 0.0) });
    assert_eq!(Hy3::rotate_y(t), Moebius { a: complex(c, 0.0), b: complex(-s, -0.0), c: complex(s, 0.0), d: complex(c, 0.0) });
    assert_eq!(Hy3::rotate_z(t), Moebius { a: complex(c, s), b: complex(0.0, 0.0), c: complex(0.0, 0.0), d: complex(c, -s) });
}

#[test]
fn hyperbolic_shifts_move_the_origin_by_the_distance() {
    for d in [-2.0_f64, -0.5, 0.25, 1.0, 3.0] {
        let x = Hy3::shift_x(d).apply_pos(Hy3::origin());
        let y = Hy3::shift_y(d).apply_pos(Hy3::origin());
        let z = Hy3::shift_z(d).apply_pos(Hy3::origin());
        assert!(close(x, point(d.tanh(), 0.0, 1.0 / d.cosh()), EPS));
        assert!(close(y, point(0.0, d.tanh(), 1.0 / d.cosh()), EPS));
        assert!(close(z, point(0.0, 0.0, d.exp()), 1e-13));
        assert!((Hy3::length(x) - d.abs()).abs() <= 1e-13);
        assert!((Hy3::length(y) - d.abs()).abs() <= 1e-13);
        assert!((Hy3::length(z) - d.abs()).abs() <= 1e-13);
    }
}

#[test]
fn hyperbolic_rotations_keep_the_origin() {
    for t in [-2.0_f64, 0.3, 1.0, PI] {
        assert!(close(Hy3::rotate_x(t).apply_pos(Hy3::origin()), Hy3::origin(), EPS));
        assert!(close(Hy3::rotate_y(t).apply_pos(Hy3::origin()), Hy3::origin(), EPS));
        assert!(close(Hy3::rotate_z(t).apply_pos(Hy3::origin()), Hy3::origin(), EPS));
    }
    let quarter = PI / 2.0;
    assert!(close(Hy3::rotate_z(quarter).apply_pos(point(1.0, 0.0, 2.0)), point(0.0, 1.0, 2.0), EPS));
}

#[test]
fn hyperbolic_look_at_dir_brings_the_direction_upright() {
    let d = point(0.3, -0.4, 0.5).normalize();
    let m = Hy3::look_at_dir(d);
    assert!(close(m.apply_dir(Hy3::origin(), d), Hy3::default_dir(), EPS));
    assert!(close(m.apply_normal(Hy3::origin(), d), Hy3::default_dir(), EPS));
    let phi = -d.hy().atan2(d.hx());
    let theta = -d.hxy().norm().atan2(d.hz());
    assert_eq!(m, Hy3::rotate_y(theta).chain(Hy3::rotate_z(phi)));
}

#[test]
fn hyperbolic_look_at_pos_is_two_rotations() {
    let q = point(0.3, -0.7, 1.9);
    let phi = -q.hy().atan2(q.hx());
    let theta = -(2.0 * q.hxy().norm()).atan2(q.norm_sqr() - 1.0);
    assert_eq!(Hy3::look_at_pos(q), Hy3::rotate_y(theta).chain(Hy3::rotate_z(phi)));
}

#[test]
fn hyperbolic_move_is_a_conjugated_vertical_shift() {
    let q = point(0.3, -0.7, 1.9);
    let a = Hy3::look_at_pos(q);
    let b = Hy3::shift_z(-Hy3::length(q));
    assert_eq!(Hy3::move_at_pos(q), a.inv().chain(b).chain(a));

    let d = point(0.3, -0.4, 0.5).normalize();
    let a = Hy3::look_at_dir(d);
    let b = Hy3::shift_z(-1.25);
    assert_eq!(Hy3::move_at_dir(d, 1.25), a.inv().chain(b).chain(a));
}

#[test]
fn hyperbolic_move_at_dir_reaches_the_origin() {
    let start = Hy3::shift_x(1.25).apply_pos(Hy3::origin());
    let m = Hy3::move_at_dir(point(1.0, 0.0, 0.0), 1.25);
    assert!(close(m.apply_pos(start), Hy3::origin(), EPS));
}

#[test]
fn hyperbolic_identity_law() {
    let id = <Moebius<f64> as Mapping<f64, Quaternion<f64>>>::identity();
    assert_eq!(id, Moebius { a: complex(1.0, 0.0), b: complex(0.0, 0.0), c: complex(0.0, 0.0), d: complex(1.0, 0.0) });
    let mut rng = XorShiftRng::seed_from_u64(0xCCA);
    for _ in 0..SAMPLE_ATTEMPTS {
        let p = sample_point(&mut rng);
        assert_eq!(id.apply_pos(p), p);
    }
}

#[test]
fn hyperbolic_inverse_law() {
    let mut rng = XorShiftRng::seed_from_u64(0xCCA);
    for _ in 0..SAMPLE_ATTEMPTS {
        let mut m = Moebius::identity();
        for _ in 0..8 {
            let g = match rng.sample(Uniform::from(0..3)) {
                0 => Hy3::rotate_y(rng.sample(&Uniform::from(0.0..(2.0 * PI)))),
                1 => Hy3::rotate_z(rng.sample(&Uniform::from(0.0..(2.0 * PI)))),
                _ => Hy3::shift_z(rng.sample(&Normal)),
            };
            m = m.chain(g);
        }
        let p = sample_point(&mut rng);
        // 1e-14 of the size of the point
        let eps = EPS * p.norm_sqr().sqrt().max(1.0);
        assert!(close(m.chain(m.inv()).apply_pos(p), p, eps));
        assert!(close(m.inv().chain(m).apply_pos(p), p, eps));
    }
}

#[test]
fn hyperbolic_inverse_of_each_generator() {
    let p = point(0.3, -0.7, 1.9);
    let maps = [
        Hy3::shift_x(0.7),
        Hy3::shift_y(-1.1),
        Hy3::shift_z(0.4),
        Hy3::rotate_x(0.9),
        Hy3::rotate_y(2.0),
        Hy3::rotate_z(-1.3),
        Hy3::look_at_pos(p),
        Hy3::move_at_pos(p),
        Hy3::horosphere(complex(0.5, -2.0)),
    ];
    for m in maps {
        assert!(close(m.chain(m.inv()).apply_pos(p), p, EPS));
        assert!(close(m.inv().chain(m).apply_pos(p), p, EPS));
        assert!(close(m.inv().apply_pos(m.apply_pos(p)), p, EPS));
    }
}

#[test]
fn hyperbolic_chain_applies_the_second_first() {
    let up = Hy3::shift_z(1.0);
    let side = Hy3::horosphere(complex(1.0, 0.0));
    let p = Hy3::origin();
    assert!(close(up.chain(side).apply_pos(p), up.apply_pos(side.apply_pos(p)), EPS));
    assert!(close(up.chain(side).apply_pos(p), point(1.0_f64.exp(), 0.0, 1.0_f64.exp()), EPS));
    assert!(close(side.chain(up).apply_pos(p), point(1.0, 0.0, 1.0_f64.exp()), EPS));
}

#[test]
fn hyperbolic_shift_round_trip() {
    let id = <Moebius<f64> as Mapping<f64, Quaternion<f64>>>::identity();
    for d in [-3.5, -1.0, 0.0, 0.25, 1.0, 7.0] {
        assert!(close_matrix(Hy3::shift_z(d).chain(Hy3::shift_z(-d)), id, EPS));
    }
}

#[test]
fn hyperbolic_generators_keep_distances() {
    let a = point(0.3, -0.7, 1.9);
    let b = point(-1.0, 0.2, 0.4);
    let before = Hy3::distance(a, b);
    let maps = [
        Hy3::shift_x(0.7),
        Hy3::shift_y(-1.1),
        Hy3::shift_z(0.4),
        Hy3::rotate_x(0.9),
        Hy3::rotate_y(2.0),
        Hy3::rotate_z(-1.3),
        Hy3::look_at_pos(a),
        Hy3::look_at_dir(b.normalize()),
        Hy3::move_at_pos(a),
        Hy3::move_at_dir(b.normalize(), 0.6),
        Hy3::horosphere(complex(0.5, -2.0)),
    ];
    for m in maps {
        let after = Hy3::distance(m.apply_pos(a), m.apply_pos(b));
        assert!((before - after).abs() <= 1e-13);
    }
}

#[test]
fn poincare_coordinates() {
    let q = Quaternion { w: 1.0, x: 2.0, y: 3.0, z: 4.0 };
    assert_eq!(q.hx(), 1.0);
    assert_eq!(q.hy(), 2.0);
    assert_eq!(q.hz(), 3.0);
    assert_eq!(q.hxy(), complex(1.0, 2.0));
}

#[test]
fn poincare_normal_point_of() {
    let q = Poincare3Normal::point_of(0.5_f64, -1.5, 2.0);
    assert_eq!(q, point(0.5, -1.5, 2.0_f64.exp()));
}

#[test]
fn poincare_normal_sample_draws_three_numbers() {
    let mut rng = XorShiftRng::seed_from_u64(0xCCA);
    let mut twin = XorShiftRng::seed_from_u64(0xCCA);
    for _ in 0..SAMPLE_ATTEMPTS {
        let q: Quaternion<f64> = Poincare3Normal.sample(&mut rng);
        let x: f64 = twin.sample(&Normal);
        let y: f64 = twin.sample(&Normal);
        let z: f64 = twin.sample(&Normal);
        assert_eq!(q, point(x, y, z.exp()));
        assert!(q.hz() > 0.0);
        assert_eq!(q.z, 0.0);
    }
}

#[test]
fn hyperbolic_single_precision() {
    let origin = Hyperbolic3::<f32>::origin();
    assert_eq!(origin, Quaternion { w: 0.0, x: 0.0, y: 1.0, z: 0.0 });
    assert_eq!(Hyperbolic3::<f32>::distance(origin, origin), 0.0);
    let up = Hyperbolic3::<f32>::shift_z(2.0).apply_pos(origin);
    assert!((Hyperbolic3::<f32>::length(up) - 2.0).abs() <= 1e-6);
}

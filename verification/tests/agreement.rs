use ccgeom::euclidean::mapping::{no_rotation, rotation, zero_vector};
use ccgeom::{Complex, Homogenous3, Mapping, Moebius, Quaternion, Vector};
use rand::{Rng, SeedableRng};
use rand_xorshift::XorShiftRng;
use vecmat::distr::{Normal, Uniform};
use vecmat::transform::{Chain, Directional, Rotation3, Shift};
use vecmat::Transform;

type VmChain = Chain<Shift<f64, 3>, Rotation3<f64>, vecmat::Vector<f64, 3>>;
type VmMoebius = vecmat::complex::Moebius<vecmat::Complex<f64>>;

const SAMPLE_ATTEMPTS: usize = 64;

fn complex_of(c: vecmat::Complex<f64>) -> Complex<f64> {
    Complex { re: c.re(), im: c.im() }
}

fn quaternion_of(q: vecmat::Quaternion<f64>) -> Quaternion<f64> {
    Quaternion { w: q.w(), x: q.x(), y: q.y(), z: q.z() }
}

fn vector_of(v: vecmat::Vector<f64, 3>) -> Vector<f64, 3> {
    Vector { data: v.into_array() }
}

fn moebius_of(m: VmMoebius) -> Moebius<f64> {
    Moebius { a: complex_of(m.a()), b: complex_of(m.b()), c: complex_of(m.c()), d: complex_of(m.d()) }
}

fn motion_of(m: VmChain) -> Homogenous3<f64> {
    Homogenous3 {
        shift: vector_of(m.outer().into_vector()),
        rotation: quaternion_of(m.inner().into_quaternion()),
    }
}

fn sample_moebius(rng: &mut XorShiftRng) -> VmMoebius {
    VmMoebius::new(rng.sample(&Normal), rng.sample(&Normal), rng.sample(&Normal), rng.sample(&Normal))
}

fn sample_motion(rng: &mut XorShiftRng) -> VmChain {
    Chain::new(rng.sample(&Normal), rng.sample(&Uniform))
}

#[test]
fn constants_agree_with_vecmat() {
    assert_eq!(Complex::zero(), complex_of(num_traits::Zero::zero()));
    assert_eq!(Complex::one(), complex_of(num_traits::One::one()));
    assert_eq!(Quaternion::j(), quaternion_of(vecmat::Quaternion::j()));
    assert_eq!(Moebius::identity(), moebius_of(VmMoebius::identity()));
    assert_eq!(zero_vector(), vector_of(num_traits::Zero::zero()));
    assert_eq!(zero_vector(), vector_of(Shift::<f64, 3>::identity().into_vector()));
    assert_eq!(no_rotation(), quaternion_of(Rotation3::<f64>::identity().into_quaternion()));
    let id: Homogenous3<f64> = Mapping::identity();
    assert_eq!(id, motion_of(<VmChain as Transform<vecmat::Vector<f64, 3>>>::identity()));
}

#[test]
fn complex_agrees_with_vecmat() {
    let mut rng = XorShiftRng::seed_from_u64(0xC0);
    for _ in 0..SAMPLE_ATTEMPTS {
        let a: vecmat::Complex<f64> = rng.sample(&Normal);
        let b: vecmat::Complex<f64> = rng.sample(&Normal);
        assert_eq!(complex_of(a).neg(), complex_of(-a));
        assert_eq!(complex_of(a).sub(complex_of(b)), complex_of(a - b));
        assert_eq!(complex_of(a).norm(), a.norm());
    }
}

#[test]
fn quaternion_agrees_with_vecmat() {
    let mut rng = XorShiftRng::seed_from_u64(0xC1);
    for _ in 0..SAMPLE_ATTEMPTS {
        let a: vecmat::Quaternion<f64> = rng.sample(&Normal);
        let b: vecmat::Quaternion<f64> = rng.sample(&Normal);
        assert_eq!(quaternion_of(a).sub(quaternion_of(b)), quaternion_of(a - b));
        assert_eq!(quaternion_of(a).norm_sqr(), a.norm_sqr());
        assert_eq!(quaternion_of(a).normalize(), quaternion_of(a.normalize()));
    }
}

#[test]
fn vector_agrees_with_vecmat() {
    let mut rng = XorShiftRng::seed_from_u64(0xC2);
    for _ in 0..SAMPLE_ATTEMPTS {
        let a: vecmat::Vector<f64, 3> = rng.sample(&Normal);
        let b: vecmat::Vector<f64, 3> = rng.sample(&Normal);
        let k: f64 = rng.sample(&Normal);
        assert_eq!(vector_of(a).neg(), vector_of(-a));
        assert_eq!(vector_of(a).add(vector_of(b)), vector_of(a + b));
        assert!(!vector_of(a).is_null());
        assert_eq!(vector_of(a).sub(vector_of(b)), vector_of(a - b));
        assert_eq!(vector_of(a).scale(k), vector_of(a * k));
        assert_eq!(vector_of(a).length(), a.length());
        assert_eq!(vector_of(a).normalize(), vector_of(a.normalize()));
    }
}

#[test]
fn moebius_agrees_with_vecmat() {
    let mut rng = XorShiftRng::seed_from_u64(0xC3);
    for _ in 0..SAMPLE_ATTEMPTS {
        let m = sample_moebius(&mut rng);
        let n = sample_moebius(&mut rng);
        let p: vecmat::Quaternion<f64> = rng.sample(&Normal);
        let v: vecmat::Quaternion<f64> = rng.sample(&Normal);
        let (lm, ln, lp, lv) = (moebius_of(m), moebius_of(n), quaternion_of(p), quaternion_of(v));
        assert_eq!(lm.apply(lp), quaternion_of(m.apply(p)));
        assert_eq!(lm.deriv_dir(lp, lv), quaternion_of(m.deriv_dir(p, v)));
        assert_eq!(lm.chain(ln), moebius_of(m.chain(n)));
        assert_eq!(ln.chain(lm), moebius_of(n.chain(m)));
        assert_eq!(lm.inv(), moebius_of(m.inv()));
        assert_eq!(lm.apply_pos(lp), quaternion_of(Transform::apply(&m, p)));
        assert_eq!(lm.apply_dir(lp, lv), quaternion_of(Directional::apply_dir(&m, p, v)));
        assert_eq!(lm.apply_normal(lp, lv), quaternion_of(Directional::apply_normal(&m, p, v)));
    }
}

#[test]
fn rotations_agree_with_vecmat() {
    let mut rng = XorShiftRng::seed_from_u64(0xC4);
    for _ in 0..SAMPLE_ATTEMPTS {
        let axis: vecmat::Vector<f64, 3> = rng.sample(&Normal);
        let angle: f64 = rng.sample(&Normal);
        assert_eq!(rotation(vector_of(axis), angle), quaternion_of(Rotation3::new(axis, angle).into_quaternion()));
    }
}

#[test]
fn motions_agree_with_vecmat() {
    let mut rng = XorShiftRng::seed_from_u64(0xC5);
    for _ in 0..SAMPLE_ATTEMPTS {
        let m = sample_motion(&mut rng);
        let n = sample_motion(&mut rng);
        let p: vecmat::Vector<f64, 3> = rng.sample(&Normal);
        let v: vecmat::Vector<f64, 3> = rng.sample(&Normal);
        let (lm, ln, lp, lv) = (motion_of(m), motion_of(n), vector_of(p), vector_of(v));
        assert_eq!(lm.apply_pos(lp), vector_of(m.apply(p)));
        assert_eq!(lm.apply_dir(lp, lv), vector_of(m.apply_dir(p, v)));
        assert_eq!(lm.apply_normal(lp, lv), vector_of(m.apply_normal(p, v)));
        assert_eq!(lm.chain(ln), motion_of(m.chain(n)));
        assert_eq!(ln.chain(lm), motion_of(n.chain(m)));
        assert_eq!(lm.inv(), motion_of(m.inv()));
    }
}

use tiny_uom::Unit;
use tiny_uom::units;

#[test]
fn inv_is_involutive() {
    let u = units::kg()
        .mul(units::m())
        .div(units::s().mul(units::s()));
    assert_eq!(u.inv().inv(), u);
    assert_eq!(units::mol().inv().inv(), units::mol());
}

#[test]
fn inv_negates_exponents() {
    assert_eq!(units::s().inv(), Unit::new(0, 0, -1, 0, 0, 0, 0));
    let newton = units::kg().mul(units::m()).div(units::s().mul(units::s()));
    assert_eq!(newton.inv(), Unit::new(-1, -1, 2, 0, 0, 0, 0));
}

#[test]
fn mul_adds_exponents() {
    assert_eq!(units::m().mul(units::m()), Unit::new(2, 0, 0, 0, 0, 0, 0));
    assert_eq!(
        units::m().mul(units::kg()),
        Unit::new(1, 1, 0, 0, 0, 0, 0)
    );
}

#[test]
fn mul_is_commutative() {
    let a = units::m().div(units::s());
    let b = units::kg().mul(units::K());
    assert_eq!(a.mul(b), b.mul(a));
}

#[test]
fn div_is_mul_by_inverse() {
    let a = units::m().mul(units::mol());
    let b = units::s().mul(units::s()).mul(units::A());
    assert_eq!(a.div(b), a.mul(b.inv()));
}

#[test]
fn none_is_identity_of_mul() {
    let u = units::cd().mul(units::kg()).inv();
    assert_eq!(u.mul(units::none()), u);
    assert_eq!(units::none().mul(u), u);
}

#[test]
fn div_by_self_is_none() {
    let u = units::A().mul(units::m()).div(units::s());
    assert_eq!(u.div(u), units::none());
    assert_eq!(units::K().div(units::K()), units::none());
}

#[test]
fn new_lists_exponents_in_fixed_order() {
    let accel = units::m().div(units::s().mul(units::s()));
    assert_eq!(accel, Unit::new(1, 0, -2, 0, 0, 0, 0));
    assert_eq!(
        Unit::new(0, 0, 0, 0, 0, 0, 0),
        units::none()
    );
}

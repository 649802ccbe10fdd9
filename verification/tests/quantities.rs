use tiny_uom::Quantity;
use tiny_uom::units;

#[test]
fn add_then_sub_returns_the_first_operand() {
    // Exact binary fractions, so the payload arithmetic loses nothing.
    let q1 = Quantity::new(4.0_f64, units::m());
    let q2 = Quantity::new(1.5_f64, units::m());
    let sum = q1.add(q2, q1.value + q2.value);
    assert_eq!(sum.value, 5.5);
    assert_eq!(sum.unit, units::m());
    let back = sum.sub(q2, sum.value - q2.value);
    assert_eq!(back.value, q1.value);
    assert_eq!(back.unit, q1.unit);
}

#[test]
fn velocity_from_length_over_time() {
    let distance = Quantity::new(10.0_f64, units::m());
    let time = Quantity::new(2.0_f64, units::s());
    let velocity = distance.div(time, distance.value / time.value);
    assert_eq!(velocity.value, 5.0);
    assert_eq!(velocity.unit, units::m().div(units::s()));
    let back = velocity.mul(time, velocity.value * time.value);
    assert_eq!(back.value, 10.0);
    assert_eq!(back.unit, units::m());
}

#[test]
fn scaling_preserves_the_unit_tag() {
    let mass = Quantity::new(5.0_f64, units::kg());
    let scaled = mass.scale(3.0 * mass.value);
    assert_eq!(scaled.value, 15.0);
    assert_eq!(scaled.unit, units::kg());
}

#[test]
fn in_place_add_and_sub_keep_the_tag() {
    let mut q = Quantity::new(2.5_f64, units::s());
    let step = Quantity::new(0.25_f64, units::s());
    q.add_assign(step, q.value + step.value);
    assert_eq!(q.value, 2.75);
    q.sub_assign(step, q.value - step.value);
    assert_eq!(q.value, 2.5);
    assert_eq!(q.unit, units::s());
}

#[test]
fn in_place_division_divides() {
    let mut q = Quantity::new(10.0_f64, units::m());
    q.scale_assign(q.value / 4.0);
    assert_eq!(q.value, 2.5);
    assert_eq!(q.unit, units::m());
}

#[test]
fn reciprocal_inverts_the_unit() {
    let time = Quantity::new(2.0_f64, units::s());
    let rate = time.recip(1.0 / time.value);
    assert_eq!(rate.value, 0.5);
    assert_eq!(rate.unit, units::s().inv());
}

#[test]
fn product_of_quantities_multiplies_units() {
    let current = Quantity::new(3.0_f64, units::A());
    let time = Quantity::new(2.0_f64, units::s());
    let charge = current.mul(time, current.value * time.value);
    assert_eq!(charge.value, 6.0);
    assert_eq!(charge.unit, units::A().mul(units::s()));
}

use tiny_uom::{Quantity, Unit};
use tiny_uom::units;

#[test]
fn length_renders_as_bare_symbol() {
    assert_eq!(units::m().render(), "m");
    assert_eq!(units::kg().render(), "kg");
    assert_eq!(units::mol().render(), "mol");
}

#[test]
fn acceleration_renders_with_caret_exponent() {
    let accel = units::m().div(units::s().mul(units::s()));
    assert_eq!(accel.render(), "m * s^-2");
}

#[test]
fn quantity_renders_payload_then_unit() {
    let accel = units::m().div(units::s().mul(units::s()));
    let q = Quantity::new(5.0_f64, accel);
    assert_eq!(q.render(&format!("{}", q.value)), "5 * m * s^-2");
}

#[test]
fn dimensionless_renders_empty() {
    assert_eq!(units::none().render(), "");
    assert_eq!(units::K().div(units::K()).render(), "");
}

#[test]
fn exponent_one_is_omitted_and_others_shown() {
    assert_eq!(units::m().mul(units::m()).render(), "m^2");
    assert_eq!(units::s().inv().render(), "s^-1");
}

#[test]
fn factors_follow_the_fixed_order() {
    let all = Unit::new(1, 1, 1, 1, 1, 1, 1);
    assert_eq!(all.render(), "m * kg * s * A * K * mol * cd");
    let mix = Unit::new(0, 2, -1, 0, 0, 0, 3);
    assert_eq!(mix.render(), "kg^2 * s^-1 * cd^3");
}

#[test]
fn multi_digit_exponents_render_in_decimal() {
    assert_eq!(Unit::new(12, 0, 0, 0, 0, 0, 0).render(), "m^12");
    assert_eq!(Unit::new(0, -13, 0, 0, 0, 0, 0).render(), "kg^-13");
    assert_eq!(Unit::new(0, 0, 100, 0, 0, 0, 0).render(), "s^100");
}

#[test]
fn fractional_payload_renders_before_unit() {
    let q = Quantity::new(2.5_f64, units::kg());
    assert_eq!(q.render(&format!("{}", q.value)), "2.5 * kg");
}

use vector3d::render::render_components;

#[test]
fn renders_two_decimal_components() {
    let x = format!("{:.2}", 1.0f64);
    let y = format!("{:.2}", 2.0f64);
    let z = format!("{:.2}", 3.0f64);
    assert_eq!(render_components(&x, &y, &z), "(1.00, 2.00, 3.00)");
}

#[test]
fn renders_negative_and_rounded_components() {
    let x = format!("{:.2}", -0.5f64);
    let y = format!("{:.2}", 2.0f64 / 3.0);
    let z = format!("{:.2}", 10.0f64);
    assert_eq!(render_components(&x, &y, &z), "(-0.50, 0.67, 10.00)");
}

#[test]
fn renders_empty_components() {
    assert_eq!(render_components("", "", ""), "(, , )");
}

#[test]
fn keeps_component_order() {
    assert_eq!(render_components("a", "bc", "def"), "(a, bc, def)");
}

use deferred::lights::{light_radius_factor, light_radius_factors, RadiusFactor, NUM_LIGHTS};
use deferred::terrain::{calculate_color, Color};

#[test]
fn snow_above_snow_line() {
    assert_eq!(calculate_color(8001), Color { r: 9, g: 9, b: 9 });
    assert_eq!(calculate_color(25000), Color { r: 9, g: 9, b: 9 });
}

#[test]
fn rock_between_snow_and_sea() {
    assert_eq!(calculate_color(8000), Color { r: 7, g: 7, b: 7 });
    assert_eq!(calculate_color(1), Color { r: 7, g: 7, b: 7 });
}

#[test]
fn grass_between_sea_and_floor() {
    assert_eq!(calculate_color(0), Color { r: 2, g: 7, b: 2 });
    assert_eq!(calculate_color(-4999), Color { r: 2, g: 7, b: 2 });
}

#[test]
fn water_below_floor() {
    assert_eq!(calculate_color(-5000), Color { r: 2, g: 2, b: 7 });
    assert_eq!(calculate_color(-25000), Color { r: 2, g: 2, b: 7 });
}

#[test]
fn first_light_sits_on_the_rim() {
    let f = light_radius_factor(0, NUM_LIGHTS);
    assert_eq!(f, RadiusFactor { num: 62500, den: 62500 });
}

#[test]
fn last_light_sits_at_the_center() {
    let f = light_radius_factor(NUM_LIGHTS, NUM_LIGHTS);
    assert_eq!(f, RadiusFactor { num: 0, den: 62500 });
}

#[test]
fn radius_factor_matches_formula() {
    // 1 - 100^2/250^2 = (62500 - 10000) / 62500
    let f = light_radius_factor(100, NUM_LIGHTS);
    assert_eq!(f, RadiusFactor { num: 52500, den: 62500 });
    let g = light_radius_factor(2, 3);
    assert_eq!(g, RadiusFactor { num: 5, den: 9 });
}

#[test]
fn radius_factors_wind_inward() {
    let v = light_radius_factors(NUM_LIGHTS);
    assert_eq!(v.len(), NUM_LIGHTS);
    for w in v.windows(2) {
        assert!(w[1].num < w[0].num);
        assert_eq!(w[0].den, w[1].den);
    }
}

#[test]
fn radius_factors_of_three_lights() {
    let v = light_radius_factors(3);
    assert_eq!(
        v,
        vec![
            RadiusFactor { num: 9, den: 9 },
            RadiusFactor { num: 8, den: 9 },
            RadiusFactor { num: 5, den: 9 },
        ]
    );
}

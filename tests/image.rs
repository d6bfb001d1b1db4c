use pathtracer::image::{encode_ppm, pixel_position, push_decimal};
use pathtracer::path::{
    emission_rule, roulette, roulette_for_draw, samples_lights, EmissionRule, Roulette, DEPTH_LIMIT,
    DEPTH_MIN,
};
use pathtracer::reflection::Reflection;

#[test]
fn pixel_positions_count_rows_from_the_bottom() {
    assert_eq!(pixel_position(0, 4, 3), (0, 2));
    assert_eq!(pixel_position(3, 4, 3), (3, 2));
    assert_eq!(pixel_position(4, 4, 3), (0, 1));
    assert_eq!(pixel_position(11, 4, 3), (3, 0));
}

#[test]
fn decimal_digits() {
    let mut out = b"x".to_vec();
    push_decimal(&mut out, 0);
    push_decimal(&mut out, 7);
    push_decimal(&mut out, 255);
    push_decimal(&mut out, 640);
    assert_eq!(out, b"x07255640".to_vec());
}

#[test]
fn ppm_encoding() {
    let bytes = encode_ppm(2, 1, &vec![(255, 255, 255), (0, 12, 128)]);
    assert_eq!(String::from_utf8(bytes).unwrap(), "P3\n2 1\n255\n255 255 255\n0 12 128\n");
    let empty = encode_ppm(0, 0, &vec![]);
    assert_eq!(String::from_utf8(empty).unwrap(), "P3\n0 0\n255\n");
}

#[test]
fn roulette_policy() {
    for depth in 0..DEPTH_MIN {
        assert_eq!(roulette_for_draw(depth, false), Roulette::Continue { boost: 1 });
        assert_eq!(roulette_for_draw(depth, true), Roulette::Continue { boost: 1 });
        assert_eq!(roulette(depth), Roulette::Continue { boost: 1 });
    }
    assert_eq!(roulette_for_draw(DEPTH_MIN, true), Roulette::Continue { boost: 2 });
    assert_eq!(roulette_for_draw(DEPTH_MIN, false), Roulette::Stop);
    assert_eq!(roulette_for_draw(DEPTH_LIMIT - 1, true), Roulette::Continue { boost: 2 });
    assert_eq!(roulette_for_draw(DEPTH_LIMIT, true), Roulette::Stop);
    assert_eq!(roulette(DEPTH_LIMIT), Roulette::Stop);
}

fn weight(r: Roulette) -> u32 {
    match r {
        Roulette::Continue { boost } => boost,
        Roulette::Stop => 0,
    }
}

#[test]
fn roulette_is_unbiased() {
    for depth in 0..DEPTH_LIMIT {
        assert_eq!(weight(roulette_for_draw(depth, true)) + weight(roulette_for_draw(depth, false)), 2);
    }
    // a fair coin keeps the mean factor near one
    let depth = DEPTH_MIN + 3;
    let trials = 20000;
    let total: u32 = (0..trials).map(|_| weight(roulette(depth))).sum();
    let mean = total as f64 / trials as f64;
    assert!((mean - 1.0).abs() < 0.05);
}

#[test]
fn emission_rules() {
    assert!(samples_lights(true, &Reflection::Diffuse));
    assert!(!samples_lights(false, &Reflection::Diffuse));
    assert!(!samples_lights(true, &Reflection::Specular));
    assert_eq!(emission_rule(false, true), EmissionRule::Ignore);
    assert_eq!(emission_rule(true, true), EmissionRule::MisWeighted);
    assert_eq!(emission_rule(true, false), EmissionRule::Full);
}

use pathtracer::color::Color;
use pathtracer::figure::{Figure, Sphere};
use pathtracer::material::Material;
use pathtracer::reflection::{Lobe, PhongParameter, Reflection};
use pathtracer::scene::{Object, Scene};
use pathtracer::scenes::{cornell_box, mis_example};
use pathtracer::vec::V3;

fn ball(emission: Color) -> Object {
    Object {
        figure: Figure::Sphere(Sphere { center: V3::new(0, 0, 0), radius: 100 }),
        emission,
        color: Color::new(50, 50, 50),
        reflection: Reflection::Diffuse,
    }
}

#[test]
fn light_index_lists_emitters_in_order() {
    let scene = Scene::new(vec![
        ball(Color::black()),
        ball(Color::new(100, 0, 0)),
        ball(Color::black()),
        ball(Color::new(0, 0, 1)),
    ]);
    assert_eq!(scene.lights(), &vec![1, 3]);
    assert_eq!(scene.objects().len(), 4);
}

#[test]
fn scene_without_lights() {
    let scene = Scene::new(vec![ball(Color::black()), ball(Color::black())]);
    assert!(scene.lights().is_empty());
    assert_eq!(scene.choose_light(), None);
    assert_eq!(scene.light_for_draw(5), None);
    let empty = Scene::new(vec![]);
    assert_eq!(empty.choose_light(), None);
}

#[test]
fn light_choice() {
    let scene = Scene::new(vec![
        ball(Color::new(1, 1, 1)),
        ball(Color::black()),
        ball(Color::new(2, 2, 2)),
    ]);
    assert_eq!(scene.light_for_draw(0), Some(0));
    assert_eq!(scene.light_for_draw(1), Some(2));
    assert_eq!(scene.light_for_draw(4), Some(0));
    for _ in 0..50 {
        let i = scene.choose_light().unwrap();
        assert!(i == 0 || i == 2);
    }
}

#[test]
fn cornell_box_has_one_lamp() {
    let scene = cornell_box();
    assert_eq!(scene.objects().len(), 10);
    assert_eq!(scene.lights(), &vec![9]);
    assert_eq!(scene.objects()[9].emission, Color::new(5000, 5000, 5000));
    assert!(scene.objects().iter().all(|o| o.is_well_formed()));
}

#[test]
fn mis_example_has_four_lamps() {
    let scene = mis_example();
    assert_eq!(scene.objects().len(), 9);
    assert_eq!(scene.lights(), &vec![5, 6, 7, 8]);
}

#[test]
fn nee_targets() {
    let phong = Reflection::Phong(PhongParameter {
        diffuse_reflectivity: 25,
        specular_reflectivity: 50,
        exponent: 50,
    });
    assert!(Reflection::Diffuse.is_nee_target());
    assert!(phong.is_nee_target());
    assert!(!Reflection::Specular.is_nee_target());
    assert!(!Reflection::Refraction.is_nee_target());
    assert!(!Reflection::Glossy(10).is_nee_target());
}

#[test]
fn phong_weights_must_not_exceed_one() {
    let ok = PhongParameter { diffuse_reflectivity: 40, specular_reflectivity: 60, exponent: 10 };
    let too_much = PhongParameter { diffuse_reflectivity: 60, specular_reflectivity: 50, exponent: 10 };
    let negative = PhongParameter { diffuse_reflectivity: -1, specular_reflectivity: 50, exponent: 10 };
    assert!(ok.is_well_formed());
    assert!(!too_much.is_well_formed());
    assert!(!negative.is_well_formed());
    assert!(!Reflection::Phong(too_much).is_well_formed());
    let mut obj = ball(Color::black());
    obj.reflection = Reflection::Phong(too_much);
    assert!(!obj.is_well_formed());
}

#[test]
fn phong_lobe_split() {
    let p = PhongParameter { diffuse_reflectivity: 25, specular_reflectivity: 50, exponent: 50 };
    assert_eq!(p.lobe_for_draw(0), Lobe::Diffuse);
    assert_eq!(p.lobe_for_draw(24), Lobe::Diffuse);
    assert_eq!(p.lobe_for_draw(25), Lobe::Specular);
    assert_eq!(p.lobe_for_draw(74), Lobe::Specular);
    assert_eq!(p.lobe_for_draw(75), Lobe::Absorbed);
    assert_eq!(p.lobe_for_draw(99), Lobe::Absorbed);
    let mirror = PhongParameter { diffuse_reflectivity: 0, specular_reflectivity: 100, exponent: 5 };
    for _ in 0..50 {
        assert_eq!(mirror.choose_lobe(), Lobe::Specular);
    }
}

#[test]
fn defaults() {
    assert_eq!(Material::default(), Material::Diffuse);
    assert_eq!(Reflection::default(), Reflection::Diffuse);
    assert!(Color::default().is_black());
    assert!(!Color::new(0, 1, 0).is_black());
}

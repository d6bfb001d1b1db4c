use vstd::prelude::*;

use crate::color::Color;
use crate::figure::{Figure, Rhombus, Sphere};
use crate::reflection::{PhongParameter, Reflection};
use crate::scene::{light_indices, Object, Scene};
use crate::vec::V3;

verus! {

fn surface(figure: Figure, color: Color, reflection: Reflection) -> (r: Object)
    ensures
        r == (Object { figure, emission: Color { r: 0, g: 0, b: 0 }, color, reflection }),
{
    Object { figure, emission: Color::black(), color, reflection }
}

fn lamp(figure: Figure, emission: Color) -> (r: Object)
    ensures
        r == (Object {
            figure,
            emission,
            color: Color { r: 0, g: 0, b: 0 },
            reflection: Reflection::Diffuse,
        }),
{
    Object { figure, emission, color: Color::black(), reflection: Reflection::Diffuse }
}

fn rhombus(origin: V3, a: V3, b: V3) -> (r: Figure)
    ensures
        r == Figure::Rhombus(Rhombus { origin, a, b }),
{
    Figure::Rhombus(Rhombus { origin, a, b })
}

fn sphere(center: V3, radius: i64) -> (r: Figure)
    ensures
        r == Figure::Sphere(Sphere { center, radius }),
{
    Figure::Sphere(Sphere { center, radius })
}

fn phong(diffuse_reflectivity: i64, specular_reflectivity: i64, exponent: i32) -> (r: Reflection)
    ensures
        r == Reflection::Phong(
            PhongParameter { diffuse_reflectivity, specular_reflectivity, exponent },
        ),
{
    Reflection::Phong(PhongParameter { diffuse_reflectivity, specular_reflectivity, exponent })
}

/// A closed room with red and blue side walls, a glossy front wall, a
/// diffuse, a mirror and a glass ball, lit by one square lamp in the
/// ceiling.
pub fn cornell_box() -> (r: Scene)
    ensures
        r.well_formed(),
        r.spec_objects().len() == 10,
        r.spec_lights() == seq![9usize],
        r.spec_objects()[2].reflection is Phong,
        r.spec_objects()[7].reflection is Specular,
        r.spec_objects()[8].reflection is Refraction,
{
    let width: i64 = 10000;
    let height: i64 = 8200;
    let depth: i64 = 25000;
    let white = Color::new(75, 75, 75);
    let objects = vec![
        // left
        surface(
            rhombus(V3::new(0, 0, 0), V3::new(0, 0, depth), V3::new(0, height, 0)),
            Color::new(75, 25, 25),
            Reflection::Diffuse,
        ),
        // right
        surface(
            rhombus(V3::new(width, 0, 0), V3::new(0, 0, depth), V3::new(0, height, 0)),
            Color::new(25, 25, 75),
            Reflection::Diffuse,
        ),
        // front
        surface(
            rhombus(V3::new(0, 0, 0), V3::new(width, 0, 0), V3::new(0, height, 0)),
            white,
            phong(25, 50, 50),
        ),
        // back
        surface(
            rhombus(V3::new(0, 0, depth), V3::new(width, 0, 0), V3::new(0, height, 0)),
            white,
            Reflection::Diffuse,
        ),
        // bottom
        surface(
            rhombus(V3::new(0, height, 0), V3::new(width, 0, 0), V3::new(0, 0, depth)),
            white,
            Reflection::Diffuse,
        ),
        // top
        surface(
            rhombus(V3::new(0, 0, 0), V3::new(width, 0, 0), V3::new(0, 0, depth)),
            white,
            Reflection::Diffuse,
        ),
        surface(sphere(V3::new(6500, 2000, 2000), 2000), Color::new(25, 75, 25), Reflection::Diffuse),
        surface(sphere(V3::new(2700, 1650, 4700), 1650), Color::new(99, 99, 99), Reflection::Specular),
        surface(
            sphere(V3::new(7700, 1650, 7800), 1650),
            Color::new(99, 99, 99),
            Reflection::Refraction,
        ),
        // lamp
        lamp(
            rhombus(V3::new(4250, height - 100, 7410), V3::new(1500, 0, 0), V3::new(0, 0, 1500)),
            Color::new(5000, 5000, 5000),
        ),
    ];
    proof {
        reveal_with_fuel(light_indices, 11);
        assert(light_indices(objects@, 10) =~= seq![9usize]);
    }
    Scene::new(objects)
}

/// Four glossy plates of rising sharpness above a large diffuse ball, under
/// four round lamps of different sizes and colours: a scene where light
/// sampling and surface sampling each win somewhere.
pub fn mis_example() -> (r: Scene)
    ensures
        r.well_formed(),
        r.spec_objects().len() == 9,
        r.spec_lights() == seq![5usize, 6usize, 7usize, 8usize],
{
    let grey = Color::new(75, 75, 75);
    let objects = vec![
        surface(sphere(V3::new(0, 0, 0), 500000), grey, Reflection::Diffuse),
        surface(
            rhombus(V3::new(-10000, 9000, -10000), V3::new(30000, 0, 0), V3::new(0, -2500, 1000)),
            grey,
            phong(0, 100, 1000),
        ),
        surface(
            rhombus(V3::new(-10000, 6000, -10000), V3::new(30000, 0, 0), V3::new(0, -2000, 1500)),
            grey,
            phong(0, 100, 250),
        ),
        surface(
            rhombus(V3::new(-10000, 2000, -10000), V3::new(30000, 0, 0), V3::new(0, -1500, 2000)),
            grey,
            phong(0, 100, 100),
        ),
        surface(
            rhombus(V3::new(-10000, -2000, -8000), V3::new(30000, 0, 0), V3::new(0, -1000, 2500)),
            grey,
            phong(0, 100, 15),
        ),
        lamp(sphere(V3::new(-4000, 11000, -1000), 50), Color::new(900000, 50, 50)),
        lamp(sphere(V3::new(1000, 11000, -1000), 200), Color::new(10000, 10000, 50)),
        lamp(sphere(V3::new(7000, 11000, -1000), 1000), Color::new(100, 200, 100)),
        lamp(sphere(V3::new(15000, 11000, -1000), 2500), Color::new(100, 300, 400)),
    ];
    proof {
        reveal_with_fuel(light_indices, 10);
        assert(light_indices(objects@, 9) =~= seq![5usize, 6usize, 7usize, 8usize]);
    }
    Scene::new(objects)
}

} // verus!

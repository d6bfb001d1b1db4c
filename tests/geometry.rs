use pathtracer::figure::{Figure, Rhombus, Sphere};
use pathtracer::vec::V3;

fn cross_is_perpendicular(ax: i32, ay: i32, az: i32, bx: i32, by: i32, bz: i32) -> bool {
    let a = V3::new(ax as i64, ay as i64, az as i64);
    let b = V3::new(bx as i64, by as i64, bz as i64);
    let c = a.cross(b);
    c.dot(&a) == 0 && c.dot(&b) == 0
}

#[test]
fn cross_product_perpendicularity() {
    quickcheck::quickcheck(cross_is_perpendicular as fn(i32, i32, i32, i32, i32, i32) -> bool);
}

#[test]
fn cross_product_example() {
    let c = V3::new(1, 0, 0).cross(V3::new(0, 1, 0));
    assert_eq!(c, V3::new(0, 0, 1));
    assert_eq!(V3::new(2, 3, 4).cross(V3::new(5, 6, 7)), V3::new(-3, 6, -3));
}

#[test]
fn vector_arithmetic() {
    let a = V3::new(1, -2, 3);
    let b = V3::new(4, 5, -6);
    assert_eq!(a.add(b), V3::new(5, 3, -3));
    assert_eq!(a.sub(b), V3::new(-3, -7, 9));
    assert_eq!(a.scale(3), V3::new(3, -6, 9));
    assert_eq!(a.multiply(b), V3::new(4, -10, -18));
    assert_eq!(a.dot(&b), 4 - 10 - 18);
    assert_eq!(a.len_square(), 14);
    assert_eq!(V3::zero(), V3::new(0, 0, 0));
    assert_eq!((a.x(), a.y(), a.z()), (1, -2, 3));
}

fn example_rhombus() -> Rhombus {
    Rhombus {
        origin: V3::new(0, 500, 0),
        a: V3::new(1000, 0, 0),
        b: V3::new(0, 0, 2000),
    }
}

#[test]
fn rhombus_polygon_corners() {
    assert_eq!(
        example_rhombus().polygon(),
        [
            V3::new(0, 500, 0),
            V3::new(1000, 500, 0),
            V3::new(0, 500, 2000),
            V3::new(1000, 500, 2000),
        ]
    );
}

#[test]
fn rhombus_contains_interior_points_only() {
    let rect = example_rhombus();
    assert!(rect.has(&V3::new(500, 500, 1000)));
    assert!(rect.has(&V3::new(800, 500, 500)));
    assert!(!rect.has(&V3::new(1200, 500, 500)));
    assert!(!rect.has(&V3::new(500, 500, 3700)));
    assert!(!rect.has(&V3::new(-1, 500, 1000)));
    // the boundary is not inside
    assert!(!rect.has(&V3::new(0, 500, 1000)));
    assert!(!rect.has(&V3::new(1000, 500, 2000)));
}

#[test]
fn rhombus_contains_its_interior_samples() {
    let rect = Rhombus {
        origin: V3::new(-300, 200, 700),
        a: V3::new(400, 100, 0),
        b: V3::new(-50, 300, 250),
    };
    let d: i64 = 16;
    let scaled = Rhombus {
        origin: rect.origin.scale(d),
        a: rect.a.scale(d),
        b: rect.b.scale(d),
    };
    for u in 1..d {
        for v in 1..d {
            let p = rect.origin.scale(d).add(rect.a.scale(u)).add(rect.b.scale(v));
            assert!(scaled.has(&p));
        }
    }
}

#[test]
fn parallelepiped_has_six_faces() {
    let o = V3::new(1, 2, 3);
    let a = V3::new(10, 0, 0);
    let b = V3::new(0, 20, 0);
    let c = V3::new(0, 0, 30);
    match Figure::parallelepiped(o, a, b, c) {
        Figure::Figures(faces) => {
            assert_eq!(faces.len(), 6);
            let origins: Vec<V3> = faces
                .iter()
                .map(|f| match f {
                    Figure::Rhombus(r) => r.origin,
                    _ => panic!("a face is not a parallelogram"),
                })
                .collect();
            assert_eq!(
                origins,
                vec![o, o, o, V3::new(11, 2, 3), V3::new(1, 22, 3), V3::new(1, 2, 33)]
            );
            match &faces[3] {
                Figure::Rhombus(r) => {
                    assert_eq!(r.a, b);
                    assert_eq!(r.b, c);
                }
                _ => panic!("a face is not a parallelogram"),
            }
        }
        _ => panic!("a box is a group of faces"),
    }
}

#[test]
fn well_formed_figures() {
    let ball = Figure::Sphere(Sphere { center: V3::new(0, 0, 0), radius: 100 });
    assert!(Figure::check_well_formed(&ball));
    assert!(!Figure::check_well_formed(&Figure::Figures(vec![])));
    let nested = Figure::Figures(vec![Figure::Figures(vec![]), ball]);
    assert!(!Figure::check_well_formed(&nested));
}

#[test]
fn choose_primitive_picks_a_part() {
    let o = V3::new(0, 0, 0);
    let a = V3::new(10, 0, 0);
    let b = V3::new(0, 10, 0);
    let c = V3::new(0, 0, 10);
    let cube = Figure::parallelepiped(o, a, b, c);
    for _ in 0..50 {
        match cube.choose_primitive() {
            Figure::Rhombus(_) => {}
            _ => panic!("a cube is made of parallelograms"),
        }
    }
    let parts = vec![
        Figure::Sphere(Sphere { center: o, radius: 1 }),
        Figure::Sphere(Sphere { center: a, radius: 2 }),
        Figure::Sphere(Sphere { center: b, radius: 3 }),
    ];
    match Figure::part_for_draw(&parts, 7) {
        Figure::Sphere(s) => assert_eq!(s.radius, 2),
        _ => panic!("wrong part"),
    }
    match Figure::part_for_draw(&parts, 9) {
        Figure::Sphere(s) => assert_eq!(s.radius, 1),
        _ => panic!("wrong part"),
    }
}

use capnp_study::text::{age_description, to_decimal};
use capnp_study::{CircleImpl, Color, RectangleImpl, RoseImpl, Shape};

#[test]
fn circle_and_rectangle_hold_their_sizes() {
    assert_eq!(CircleImpl::new(7).get_radius(), 7);
    let r = RectangleImpl::new(13, 19);
    assert_eq!(r.get_width(), 13);
    assert_eq!(r.get_height(), 19);
}

#[test]
fn rose_of_even_depth_is_a_circle() {
    match RoseImpl::new(4).shape() {
        Shape::Circle(c) => assert_eq!(c.get_radius(), 7),
        Shape::Rectangle(_) => panic!("expected a circle"),
    }
    assert!(matches!(RoseImpl::new(0).shape(), Shape::Circle(_)));
}

#[test]
fn rose_of_odd_depth_is_a_rectangle() {
    match RoseImpl::new(3).shape() {
        Shape::Rectangle(r) => {
            assert_eq!(r.get_width(), 13);
            assert_eq!(r.get_height(), 19);
        }
        Shape::Circle(_) => panic!("expected a rectangle"),
    }
}

#[test]
fn rose_shapes_alternate_with_depth() {
    for d in 0..10u16 {
        let a = matches!(RoseImpl::new(d).shape(), Shape::Circle(_));
        let b = matches!(RoseImpl::new(d + 1).shape(), Shape::Circle(_));
        assert_ne!(a, b);
    }
}

#[test]
fn rose_colors_cycle() {
    assert_eq!(RoseImpl::new(0).color(), Color::Red);
    assert_eq!(RoseImpl::new(1).color(), Color::Green);
    assert_eq!(RoseImpl::new(2).color(), Color::Blue);
    assert_eq!(RoseImpl::new(3).color(), Color::Red);
    assert_eq!(RoseImpl::new(u16::MAX).color(), Color::Red);
    for d in 0..20u16 {
        assert_eq!(RoseImpl::new(d).color(), RoseImpl::new(d + 3).color());
    }
}

#[test]
fn rose_name_and_age() {
    let rose = RoseImpl::new(3);
    assert_eq!(rose.get_name(), "name3");
    assert_eq!(rose.get_age(), 6);
    assert_eq!(RoseImpl::new(0).get_name(), "name0");
    assert_eq!(RoseImpl::new(1020).get_name(), "name1020");
    assert_eq!(RoseImpl::new(u16::MAX).get_name(), "name65535");
    assert_eq!(RoseImpl::new(32767).get_age(), 65534);
}

#[test]
fn rose_names_differ_by_depth() {
    let names: Vec<String> = (0..200u16).map(|d| RoseImpl::new(d).get_name()).collect();
    for i in 0..names.len() {
        for j in (i + 1)..names.len() {
            assert_ne!(names[i], names[j]);
        }
    }
}

#[test]
fn decimal_matches_std_formatting() {
    for n in [0u16, 7, 9, 10, 99, 100, 305, 4321, 10000, u16::MAX] {
        assert_eq!(to_decimal(n), n.to_string());
    }
}

#[test]
fn age_descriptions() {
    assert_eq!(age_description(0), "Child");
    assert_eq!(age_description(17), "Child");
    assert_eq!(age_description(18), "Adult");
    assert_eq!(age_description(u16::MAX), "Adult");
}

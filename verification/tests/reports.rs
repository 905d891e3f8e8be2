use capnp_study::report::{
    describe_rose, describe_shape, next_rose_request, RoseRequest, ShapeReply,
};
use capnp_study::Color;

fn plan(circle: bool) -> Vec<RoseRequest> {
    let mut out = Vec::new();
    let mut last = None;
    while let Some(r) = next_rose_request(last, circle) {
        out.push(r);
        last = Some(r);
    }
    out
}

#[test]
fn requests_for_a_circle_rose() {
    assert_eq!(
        plan(true),
        vec![
            RoseRequest::Shape,
            RoseRequest::Color,
            RoseRequest::Name,
            RoseRequest::Age,
            RoseRequest::Sub,
            RoseRequest::Radius,
        ]
    );
}

#[test]
fn requests_for_a_rectangle_rose() {
    assert_eq!(
        plan(false),
        vec![
            RoseRequest::Shape,
            RoseRequest::Color,
            RoseRequest::Name,
            RoseRequest::Age,
            RoseRequest::Sub,
            RoseRequest::Width,
            RoseRequest::Height,
        ]
    );
}

#[test]
fn shape_texts() {
    assert_eq!(describe_shape(ShapeReply::Circle { r: 7 }), "Circle: r = 7");
    assert_eq!(
        describe_shape(ShapeReply::Rectangle { w: 13, h: 19 }),
        "Rectangle: w = 13, h = 19"
    );
    assert_eq!(describe_shape(ShapeReply::Circle { r: 0 }), "Circle: r = 0");
}

#[test]
fn rose_texts() {
    assert_eq!(
        describe_rose("name3", 6, Color::Red, "Rectangle: w = 13, h = 19"),
        "Rose: name3(6) color: Red, shape: Rectangle: w = 13, h = 19"
    );
    assert_eq!(
        describe_rose("", 0, Color::Blue, ""),
        "Rose: (0) color: Blue, shape: "
    );
    assert_eq!(describe_rose("x", 65535, Color::Green, "s"), "Rose: x(65535) color: Green, shape: s");
}

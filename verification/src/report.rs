//! What the client asks a rose, in which order, and the text it reports.
use vstd::prelude::*;

use crate::rose::Color;
use crate::text::{all_digits, decimal, decimal_value, lemma_decimal_reads_back, push_decimal};

verus! {

/// The requests the client sends to a rose and to its shape.
#[derive(Debug, Clone, Copy, PartialEq, Eq, Structural)]
pub enum RoseRequest {
    Shape,
    Color,
    Name,
    Age,
    Sub,
    Radius,
    Width,
    Height,
}

/// The requests for one rose, in order: shape, color, name, age and sub-roses
/// of the rose, then the radius of a circle, or the width and then the height
/// of a rectangle.
pub open spec fn rose_requests(circle: bool) -> Seq<RoseRequest> {
    seq![
        RoseRequest::Shape,
        RoseRequest::Color,
        RoseRequest::Name,
        RoseRequest::Age,
        RoseRequest::Sub,
    ] + if circle {
        seq![RoseRequest::Radius]
    } else {
        seq![RoseRequest::Width, RoseRequest::Height]
    }
}

/// The request that follows `last` (`None`: the first one) for a rose whose
/// shape is a circle or not; `None` once all are sent. Before the shape is
/// known, `circle` may be either value: the first five requests are the same.
pub fn next_rose_request(last: Option<RoseRequest>, circle: bool) -> (next: Option<
    RoseRequest,
>)
    requires
        last matches Some(q) ==> rose_requests(circle).contains(q),
    ensures
        last is None ==> next == Some(rose_requests(circle)[0]),
        forall|i: int|
            0 <= i < rose_requests(circle).len() && last == Some(#[trigger] rose_requests(
                circle,
            )[i]) ==> next == (if i + 1 < rose_requests(circle).len() {
                Some(rose_requests(circle)[i + 1])
            } else {
                None
            }),
{
    match last {
        None => Some(RoseRequest::Shape),
        Some(RoseRequest::Shape) => Some(RoseRequest::Color),
        Some(RoseRequest::Color) => Some(RoseRequest::Name),
        Some(RoseRequest::Name) => Some(RoseRequest::Age),
        Some(RoseRequest::Age) => Some(RoseRequest::Sub),
        Some(RoseRequest::Sub) => if circle {
            Some(RoseRequest::Radius)
        } else {
            Some(RoseRequest::Width)
        },
        Some(RoseRequest::Width) => Some(RoseRequest::Height),
        Some(RoseRequest::Radius) => None,
        Some(RoseRequest::Height) => None,
    }
}

/// The sizes the client reads of a rose's shape.
#[derive(Debug, Clone, Copy, PartialEq, Eq, Structural)]
pub enum ShapeReply {
    Circle { r: u16 },
    Rectangle { w: u16, h: u16 },
}

/// "Circle: r = R" or "Rectangle: w = W, h = H", the numbers in decimal.
pub open spec fn shape_text(s: ShapeReply) -> Seq<char> {
    match s {
        ShapeReply::Circle { r } => "Circle: r = "@ + decimal(r as nat),
        ShapeReply::Rectangle { w, h } => "Rectangle: w = "@ + decimal(w as nat) + ", h = "@
            + decimal(h as nat),
    }
}

/// The name of a colour: "Red", "Green" or "Blue".
pub open spec fn color_name(c: Color) -> Seq<char> {
    match c {
        Color::Red => "Red"@,
        Color::Green => "Green"@,
        Color::Blue => "Blue"@,
    }
}

/// The line that reports a rose: "Rose: NAME(AGE) color: COLOR, shape: SHAPE".
pub open spec fn rose_text(name: Seq<char>, age: u16, color: Color, shape: Seq<char>) -> Seq<
    char,
> {
    "Rose: "@ + name + "("@ + decimal(age as nat) + ") color: "@ + color_name(color)
        + ", shape: "@ + shape
}

/// The text for a circle is "Circle: r = " and then digits that read back as
/// the radius.
pub proof fn lemma_circle_text(r: u16)
    ensures
        exists|a: Seq<char>|
            #![trigger decimal_value(a)]
            all_digits(a) && decimal_value(a) == r && shape_text(ShapeReply::Circle { r })
                == "Circle: r = "@ + a,
{
    lemma_decimal_reads_back(r as nat);
    let a = decimal(r as nat);
    assert(decimal_value(a) == r);
}

/// The text for a rectangle is "Rectangle: w = ", digits that read back as the
/// width, ", h = ", and digits that read back as the height: the width first,
/// the height second, whichever is larger.
pub proof fn lemma_rectangle_text(w: u16, h: u16)
    ensures
        exists|a: Seq<char>, b: Seq<char>|
            #![trigger decimal_value(a), decimal_value(b)]
            all_digits(a) && all_digits(b) && decimal_value(a) == w && decimal_value(b) == h
                && shape_text(ShapeReply::Rectangle { w, h }) == "Rectangle: w = "@ + a + ", h = "@
                + b,
{
    lemma_decimal_reads_back(w as nat);
    lemma_decimal_reads_back(h as nat);
    let a = decimal(w as nat);
    let b = decimal(h as nat);
    assert(decimal_value(a) == w && decimal_value(b) == h);
}

/// The report line holds the whole name between "Rose: " and "(", then
/// digits that read back as the age, ") color: ", the colour's word,
/// ", shape: ", and the whole shape text.
pub proof fn lemma_rose_text(name: Seq<char>, age: u16, color: Color, shape: Seq<char>)
    ensures
        exists|d: Seq<char>|
            #![trigger decimal_value(d)]
            all_digits(d) && decimal_value(d) == age && rose_text(name, age, color, shape)
                == "Rose: "@ + name + "("@ + d + ") color: "@ + (if color == Color::Red {
                "Red"@
            } else if color == Color::Green {
                "Green"@
            } else {
                "Blue"@
            }) + ", shape: "@ + shape,
{
    lemma_decimal_reads_back(age as nat);
    let d = decimal(age as nat);
    assert(decimal_value(d) == age);
}

/// The text that reports a shape.
pub fn describe_shape(s: ShapeReply) -> (t: String)
    ensures
        t@ == shape_text(s),
{
    let mut t = String::new();
    match s {
        ShapeReply::Circle { r } => {
            t.append("Circle: r = ");
            push_decimal(&mut t, r);
        },
        ShapeReply::Rectangle { w, h } => {
            t.append("Rectangle: w = ");
            push_decimal(&mut t, w);
            t.append(", h = ");
            push_decimal(&mut t, h);
        },
    }
    assert(t@ =~= shape_text(s));
    t
}

/// The line that reports a rose.
pub fn describe_rose(name: &str, age: u16, color: Color, shape: &str) -> (t: String)
    ensures
        t@ == rose_text(name@, age, color, shape@),
{
    let mut t = String::new();
    t.append("Rose: ");
    t.append(name);
    t.append("(");
    push_decimal(&mut t, age);
    t.append(") color: ");
    match color {
        Color::Red => t.append("Red"),
        Color::Green => t.append("Green"),
        Color::Blue => t.append("Blue"),
    }
    t.append(", shape: ");
    t.append(shape);
    assert(t@ =~= rose_text(name@, age, color, shape@));
    t
}

} // verus!

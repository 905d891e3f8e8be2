//! A rose of a given depth, and the shapes it is drawn with.
use vstd::prelude::*;

use crate::text::{
    all_digits, decimal, decimal_value, lemma_decimal_injective, lemma_decimal_reads_back,
    push_decimal,
};

verus! {

/// The three colours of a rose.
#[derive(Debug, Clone, Copy, PartialEq, Eq, Structural)]
pub enum Color {
    Red,
    Green,
    Blue,
}

/// The colour of a rose of depth `depth`: it cycles red, green, blue.
pub open spec fn color_of(depth: int) -> Color {
    if depth % 3 == 0 {
        Color::Red
    } else if depth % 3 == 1 {
        Color::Green
    } else {
        Color::Blue
    }
}

/// Whether a rose of depth `depth` is drawn as a circle (else as a rectangle).
pub open spec fn shape_is_circle(depth: int) -> bool {
    depth % 2 == 0
}

/// The name of a rose of depth `depth`: "name" and the depth in decimal.
pub open spec fn rose_name(depth: u16) -> Seq<char> {
    seq!['n', 'a', 'm', 'e'] + decimal(depth as nat)
}

/// Roses of consecutive depths are drawn with different shapes.
pub proof fn lemma_shape_alternates(depth: int)
    requires
        depth >= 0,
    ensures
        shape_is_circle(depth) != shape_is_circle(depth + 1),
{
}

/// The colour repeats every three depths, and three consecutive depths
/// have three different colours.
pub proof fn lemma_color_cycle(depth: int)
    requires
        depth >= 0,
    ensures
        color_of(depth + 3) == color_of(depth),
        color_of(depth) != color_of(depth + 1),
        color_of(depth + 1) != color_of(depth + 2),
        color_of(depth) != color_of(depth + 2),
{
}

/// Roses of different depths have different names.
pub proof fn lemma_rose_names_differ(d1: u16, d2: u16)
    requires
        d1 != d2,
    ensures
        rose_name(d1) != rose_name(d2),
{
    if rose_name(d1) == rose_name(d2) {
        assert(rose_name(d1).skip(4) =~= decimal(d1 as nat));
        assert(rose_name(d2).skip(4) =~= decimal(d2 as nat));
        lemma_decimal_injective(d1 as nat, d2 as nat);
    }
}

/// Every rose name starts with "name", and what follows is a string of
/// digits that reads back as the rose's depth.
pub proof fn lemma_rose_name_reads_back(depth: u16)
    ensures
        rose_name(depth).len() >= 5,
        rose_name(depth).subrange(0, 4) == seq!['n', 'a', 'm', 'e'],
        all_digits(rose_name(depth).skip(4)),
        decimal_value(rose_name(depth).skip(4)) == depth,
{
    lemma_decimal_reads_back(depth as nat);
    assert(rose_name(depth).subrange(0, 4) =~= seq!['n', 'a', 'm', 'e']);
    assert(rose_name(depth).skip(4) =~= decimal(depth as nat));
}

/// Radius of the circle that a rose of even depth is drawn with.
pub const ROSE_RADIUS: u16 = 7;

/// Width of the rectangle that a rose of odd depth is drawn with.
pub const ROSE_WIDTH: u16 = 13;

/// Height of the rectangle that a rose of odd depth is drawn with.
pub const ROSE_HEIGHT: u16 = 19;

/// A circle of a given radius.
pub struct CircleImpl {
    r: u16,
}

impl CircleImpl {
    /// The radius it was made with.
    pub closed spec fn radius(&self) -> u16 {
        self.r
    }

    pub fn new(r: u16) -> (circle: Self)
        ensures
            circle.radius() == r,
    {
        CircleImpl { r }
    }

    pub fn get_radius(&self) -> (r: u16)
        ensures
            r == self.radius(),
    {
        self.r
    }
}

/// A rectangle of a given width and height.
pub struct RectangleImpl {
    w: u16,
    h: u16,
}

impl RectangleImpl {
    /// The width it was made with.
    pub closed spec fn width(&self) -> u16 {
        self.w
    }

    /// The height it was made with.
    pub closed spec fn height(&self) -> u16 {
        self.h
    }

    pub fn new(w: u16, h: u16) -> (rectangle: Self)
        ensures
            rectangle.width() == w,
            rectangle.height() == h,
    {
        RectangleImpl { w, h }
    }

    pub fn get_width(&self) -> (w: u16)
        ensures
            w == self.width(),
    {
        self.w
    }

    pub fn get_height(&self) -> (h: u16)
        ensures
            h == self.height(),
    {
        self.h
    }
}

/// The shape a rose is drawn with.
pub enum Shape {
    Circle(CircleImpl),
    Rectangle(RectangleImpl),
}

/// A rose of a given depth.
pub struct RoseImpl {
    depth: u16,
}

impl RoseImpl {
    /// The depth it was made with.
    pub closed spec fn depth(&self) -> u16 {
        self.depth
    }

    pub fn new(depth: u16) -> (rose: Self)
        ensures
            rose.depth() == depth,
    {
        RoseImpl { depth }
    }

    /// The depth it was made with.
    pub fn get_depth(&self) -> (depth: u16)
        ensures
            depth == self.depth(),
    {
        self.depth
    }

    /// A circle of radius 7 at even depth, a 13 by 19 rectangle at odd depth.
    pub fn shape(&self) -> (s: Shape)
        ensures
            shape_is_circle(self.depth() as int) ==> (s matches Shape::Circle(c) && c.radius()
                == ROSE_RADIUS),
            !shape_is_circle(self.depth() as int) ==> (s matches Shape::Rectangle(r) && r.width()
                == ROSE_WIDTH && r.height() == ROSE_HEIGHT),
    {
        if self.depth % 2 == 0 {
            Shape::Circle(CircleImpl::new(ROSE_RADIUS))
        } else {
            Shape::Rectangle(RectangleImpl::new(ROSE_WIDTH, ROSE_HEIGHT))
        }
    }

    /// Red, green or blue as the depth is 0, 1 or 2 modulo 3.
    pub fn color(&self) -> (c: Color)
        ensures
            c == color_of(self.depth() as int),
    {
        let m = self.depth % 3;
        if m == 0 {
            Color::Red
        } else if m == 1 {
            Color::Green
        } else {
            Color::Blue
        }
    }

    /// "name" followed by the depth in decimal.
    pub fn get_name(&self) -> (name: String)
        ensures
            name@ == rose_name(self.depth()),
    {
        let mut name = String::new();
        proof {
            reveal_strlit("name");
        }
        name.append("name");
        push_decimal(&mut name, self.depth);
        name
    }

    /// Twice the depth.
    pub fn get_age(&self) -> (age: u16)
        requires
            self.depth() * 2 <= u16::MAX,
        ensures
            age == self.depth() * 2,
    {
        self.depth * 2
    }
}

} // verus!

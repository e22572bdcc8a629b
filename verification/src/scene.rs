//! The frame: the drawing primitives and the fixed list of them that is shown.

use vstd::prelude::*;
use crate::color::Rgb565;
use crate::geometry::Point;

verus! {

/// The two strings that the frame shows.
#[derive(Clone, Copy, Debug, PartialEq, Eq, Structural)]
pub enum Caption {
    Hello,
    World,
}

impl Caption {
    /// The characters of the caption.
    pub open spec fn chars(self) -> Seq<char> {
        match self {
            Caption::Hello => seq!['H', 'e', 'l', 'l', 'o'],
            Caption::World => seq!['W', 'o', 'r', 'l', 'd'],
        }
    }

    /// The caption as a string.
    pub fn as_str(self) -> (s: &'static str)
        ensures
            s@ == self.chars(),
    {
        proof {
            reveal_strlit("Hello");
            reveal_strlit("World");
        }
        match self {
            Caption::Hello => {
                assert("Hello"@ =~= self.chars());
                "Hello"
            },
            Caption::World => {
                assert("World"@ =~= self.chars());
                "World"
            },
        }
    }
}

/// The fonts that text can be set in.
#[derive(Clone, Copy, Debug, PartialEq, Eq, Structural)]
pub enum Font {
    /// A monospace font with glyphs 9 pixels wide and 18 pixels high.
    Mono9x18,
}

/// How a run of text is drawn. A style is a value: changing it after a text was
/// drawn with it does not change that text.
#[derive(Clone, Copy, Debug, PartialEq, Eq)]
pub struct TextStyle {
    pub font: Font,
    /// The colour of the glyphs; `None` draws no glyph pixels.
    pub text_color: Option<Rgb565>,
}

impl TextStyle {
    /// A style that draws `font` in `color`.
    pub fn new(font: Font, color: Rgb565) -> (style: TextStyle)
        ensures
            style == (TextStyle { font, text_color: Some(color) }),
    {
        TextStyle { font, text_color: Some(color) }
    }

    /// Changes the colour of the glyphs and leaves the font as it is.
    pub fn set_text_color(&mut self, color: Option<Rgb565>)
        ensures
            *final(self) == (TextStyle { font: old(self).font, text_color: color }),
    {
        self.text_color = color;
    }
}

/// One call on the drawing surface.
#[derive(Clone, Copy, Debug, PartialEq, Eq)]
pub enum DrawOp {
    /// Fill the whole surface with one colour.
    Clear { color: Rgb565 },
    /// Draw a caption; `position` is where its first glyph is anchored.
    Text { caption: Caption, position: Point, style: TextStyle },
    /// Fill the circle inscribed in the square of side `diameter` whose top left
    /// corner is `top_left`.
    FilledCircle { top_left: Point, diameter: u32, fill: Rgb565 },
    /// Fill the triangle with the corners `a`, `b` and `c`.
    FilledTriangle { a: Point, b: Point, c: Point, fill: Rgb565 },
}

impl DrawOp {
    /// The colour that the call puts on the surface, if it puts any.
    pub open spec fn ink(self) -> Option<Rgb565> {
        match self {
            DrawOp::Clear { color } => Some(color),
            DrawOp::Text { style, .. } => style.text_color,
            DrawOp::FilledCircle { fill, .. } => Some(fill),
            DrawOp::FilledTriangle { fill, .. } => Some(fill),
        }
    }
}

/// Side of the square that holds one eye.
pub const EYE_DIAMETER: u32 = 40;

/// Number of calls that draw the face.
pub const SMILEY_LEN: usize = 4;

/// Number of calls in the whole frame.
pub const FRAME_LEN: usize = 7;

/// The face: two white eyes, a red mouth, and a black triangle over the upper
/// part of the mouth. The order matters: the black triangle is drawn last and
/// hides what the red one drew beneath it.
pub open spec fn smiley() -> Seq<DrawOp> {
    seq![
        DrawOp::FilledCircle {
            top_left: Point { x: 50, y: 100 },
            diameter: 40,
            fill: Rgb565::spec_white(),
        },
        DrawOp::FilledCircle {
            top_left: Point { x: 140, y: 100 },
            diameter: 40,
            fill: Rgb565::spec_white(),
        },
        DrawOp::FilledTriangle {
            a: Point { x: 90, y: 150 },
            b: Point { x: 140, y: 150 },
            c: Point { x: 115, y: 180 },
            fill: Rgb565::spec_red(),
        },
        DrawOp::FilledTriangle {
            a: Point { x: 90, y: 140 },
            b: Point { x: 140, y: 140 },
            c: Point { x: 115, y: 170 },
            fill: Rgb565::spec_black(),
        },
    ]
}

/// What comes before the face: a black background and the two captions, the first
/// in white, the second in blue, both in the same font.
pub open spec fn preamble() -> Seq<DrawOp> {
    seq![
        DrawOp::Clear { color: Rgb565::spec_black() },
        DrawOp::Text {
            caption: Caption::Hello,
            position: Point { x: 5, y: 10 },
            style: TextStyle { font: Font::Mono9x18, text_color: Some(Rgb565::spec_white()) },
        },
        DrawOp::Text {
            caption: Caption::World,
            position: Point { x: 160, y: 26 },
            style: TextStyle { font: Font::Mono9x18, text_color: Some(Rgb565::spec_blue()) },
        },
    ]
}

/// The whole frame, in the order in which it is drawn.
pub open spec fn frame() -> Seq<DrawOp> {
    preamble() + smiley()
}

/// The calls that draw the face.
pub fn smiley_ops() -> (ops: Vec<DrawOp>)
    ensures
        ops@ == smiley(),
{
    let mut ops: Vec<DrawOp> = Vec::new();
    ops.push(
        DrawOp::FilledCircle {
            top_left: Point::new(50, 100),
            diameter: EYE_DIAMETER,
            fill: Rgb565::white(),
        },
    );
    ops.push(
        DrawOp::FilledCircle {
            top_left: Point::new(140, 100),
            diameter: EYE_DIAMETER,
            fill: Rgb565::white(),
        },
    );
    ops.push(
        DrawOp::FilledTriangle {
            a: Point::new(90, 150),
            b: Point::new(140, 150),
            c: Point::new(115, 180),
            fill: Rgb565::red(),
        },
    );
    ops.push(
        DrawOp::FilledTriangle {
            a: Point::new(90, 140),
            b: Point::new(140, 140),
            c: Point::new(115, 170),
            fill: Rgb565::black(),
        },
    );
    assert(ops@ =~= smiley());
    ops
}

/// The calls that draw the whole frame. The second caption is drawn with the
/// style of the first after its colour was changed.
pub fn frame_ops() -> (ops: Vec<DrawOp>)
    ensures
        ops@ == frame(),
{
    let mut ops: Vec<DrawOp> = Vec::new();
    ops.push(DrawOp::Clear { color: Rgb565::black() });
    let mut style = TextStyle::new(Font::Mono9x18, Rgb565::white());
    ops.push(DrawOp::Text { caption: Caption::Hello, position: Point::new(5, 10), style });
    style.set_text_color(Some(Rgb565::blue()));
    ops.push(DrawOp::Text { caption: Caption::World, position: Point::new(160, 26), style });
    assert(ops@ =~= preamble());
    let mut face = smiley_ops();
    ops.append(&mut face);
    ops
}

/// The call at place `index` of the frame.
pub fn frame_op(index: usize) -> (op: DrawOp)
    requires
        index < FRAME_LEN,
    ensures
        op == frame()[index as int],
{
    let ops = frame_ops();
    ops[index]
}

/// The frame has seven calls, the face the last four of them.
pub proof fn frame_shape()
    ensures
        frame().len() == FRAME_LEN,
        smiley().len() == SMILEY_LEN,
        frame().subrange(FRAME_LEN - SMILEY_LEN, FRAME_LEN as int) == smiley(),
{
    assert(frame().subrange(FRAME_LEN - SMILEY_LEN, FRAME_LEN as int) =~= smiley());
}

/// Every colour in the frame fits the panel's format.
pub proof fn frame_colors_valid(index: int)
    requires
        0 <= index < frame().len(),
    ensures
        match frame()[index].ink() {
            Some(color) => color.is_valid(),
            None => false,
        },
{
}

} // verus!

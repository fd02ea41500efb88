//! The editable fields of a shape.

use vstd::prelude::*;

verus! {

/// Names one scalar field of a shape.
#[derive(Clone, Copy, Debug, PartialEq, Eq, Hash, Structural)]
pub enum FieldTag {
    Width,
    Height,
    Red,
    Green,
    Blue,
    BorderRadius,
    StrokeThickness,
    StrokeRed,
    StrokeGreen,
    StrokeBlue,
}

impl FieldTag {
    /// True for the six colour channels, which the user edits as a level from
    /// 0 to 255 and the document stores normalised; false for the four geometry
    /// fields, which are stored as they are entered.
    pub open spec fn color(self) -> bool {
        match self {
            FieldTag::Red | FieldTag::Green | FieldTag::Blue => true,
            FieldTag::StrokeRed | FieldTag::StrokeGreen | FieldTag::StrokeBlue => true,
            _ => false,
        }
    }

    /// The name under which the field is known to the widgets and to the
    /// renderer.
    pub open spec fn name_text(self) -> Seq<char> {
        match self {
            FieldTag::Width => "width"@,
            FieldTag::Height => "height"@,
            FieldTag::Red => "red"@,
            FieldTag::Green => "green"@,
            FieldTag::Blue => "blue"@,
            FieldTag::BorderRadius => "border_radius"@,
            FieldTag::StrokeThickness => "stroke_thickness"@,
            FieldTag::StrokeRed => "stroke_red"@,
            FieldTag::StrokeGreen => "stroke_green"@,
            FieldTag::StrokeBlue => "stroke_blue"@,
        }
    }

    /// The name of the field.
    pub fn name(&self) -> (name: &'static str)
        ensures
            name@ == self.name_text(),
    {
        match self {
            FieldTag::Width => "width",
            FieldTag::Height => "height",
            FieldTag::Red => "red",
            FieldTag::Green => "green",
            FieldTag::Blue => "blue",
            FieldTag::BorderRadius => "border_radius",
            FieldTag::StrokeThickness => "stroke_thickness",
            FieldTag::StrokeRed => "stroke_red",
            FieldTag::StrokeGreen => "stroke_green",
            FieldTag::StrokeBlue => "stroke_blue",
        }
    }

    /// Whether the field is a colour channel.
    pub fn is_color(&self) -> (b: bool)
        ensures
            b == self.color(),
    {
        match self {
            FieldTag::Red | FieldTag::Green | FieldTag::Blue => true,
            FieldTag::StrokeRed | FieldTag::StrokeGreen | FieldTag::StrokeBlue => true,
            _ => false,
        }
    }
}

} // verus!

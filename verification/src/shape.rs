//! Shapes and their scalar fields.

use vstd::prelude::*;
use crate::field::FieldTag;
use crate::ident::ShapeId;
use crate::value::RawValue;

verus! {

/// Four normalised colour channels.
#[derive(Clone, Copy, Debug, PartialEq, Eq, Structural)]
pub struct Color {
    pub red: RawValue,
    pub green: RawValue,
    pub blue: RawValue,
    pub alpha: RawValue,
}

/// The outline of a shape.
#[derive(Clone, Copy, Debug, PartialEq, Eq, Structural)]
pub struct Stroke {
    pub fill: Color,
    pub thickness: RawValue,
}

/// A document entity: identity, display name, geometry and colours.
#[derive(Clone, Debug, PartialEq, Eq)]
pub struct Shape {
    pub id: ShapeId,
    pub name: String,
    pub width: RawValue,
    pub height: RawValue,
    pub border_radius: RawValue,
    pub fill: Color,
    pub stroke: Stroke,
}

impl Shape {
    /// The stored value of field `tag`.
    pub open spec fn field(self, tag: FieldTag) -> RawValue {
        match tag {
            FieldTag::Width => self.width,
            FieldTag::Height => self.height,
            FieldTag::Red => self.fill.red,
            FieldTag::Green => self.fill.green,
            FieldTag::Blue => self.fill.blue,
            FieldTag::BorderRadius => self.border_radius,
            FieldTag::StrokeThickness => self.stroke.thickness,
            FieldTag::StrokeRed => self.stroke.fill.red,
            FieldTag::StrokeGreen => self.stroke.fill.green,
            FieldTag::StrokeBlue => self.stroke.fill.blue,
        }
    }

    /// The shape with field `tag` replaced by `value` and everything else kept.
    pub open spec fn with_field(self, tag: FieldTag, value: RawValue) -> Shape {
        match tag {
            FieldTag::Width => Shape { width: value, ..self },
            FieldTag::Height => Shape { height: value, ..self },
            FieldTag::Red => Shape { fill: Color { red: value, ..self.fill }, ..self },
            FieldTag::Green => Shape { fill: Color { green: value, ..self.fill }, ..self },
            FieldTag::Blue => Shape { fill: Color { blue: value, ..self.fill }, ..self },
            FieldTag::BorderRadius => Shape { border_radius: value, ..self },
            FieldTag::StrokeThickness => Shape {
                stroke: Stroke { thickness: value, ..self.stroke },
                ..self
            },
            FieldTag::StrokeRed => Shape {
                stroke: Stroke { fill: Color { red: value, ..self.stroke.fill }, ..self.stroke },
                ..self
            },
            FieldTag::StrokeGreen => Shape {
                stroke: Stroke { fill: Color { green: value, ..self.stroke.fill }, ..self.stroke },
                ..self
            },
            FieldTag::StrokeBlue => Shape {
                stroke: Stroke { fill: Color { blue: value, ..self.stroke.fill }, ..self.stroke },
                ..self
            },
        }
    }

    /// Reads field `tag`.
    pub fn get(&self, tag: FieldTag) -> (value: RawValue)
        ensures
            value == self.field(tag),
    {
        match tag {
            FieldTag::Width => self.width,
            FieldTag::Height => self.height,
            FieldTag::Red => self.fill.red,
            FieldTag::Green => self.fill.green,
            FieldTag::Blue => self.fill.blue,
            FieldTag::BorderRadius => self.border_radius,
            FieldTag::StrokeThickness => self.stroke.thickness,
            FieldTag::StrokeRed => self.stroke.fill.red,
            FieldTag::StrokeGreen => self.stroke.fill.green,
            FieldTag::StrokeBlue => self.stroke.fill.blue,
        }
    }

    /// Writes field `tag`; identity, name and the other fields stay.
    pub fn set(&mut self, tag: FieldTag, value: RawValue)
        ensures
            *final(self) == old(self).with_field(tag, value),
    {
        match tag {
            FieldTag::Width => { self.width = value; },
            FieldTag::Height => { self.height = value; },
            FieldTag::Red => { self.fill.red = value; },
            FieldTag::Green => { self.fill.green = value; },
            FieldTag::Blue => { self.fill.blue = value; },
            FieldTag::BorderRadius => { self.border_radius = value; },
            FieldTag::StrokeThickness => { self.stroke.thickness = value; },
            FieldTag::StrokeRed => { self.stroke.fill.red = value; },
            FieldTag::StrokeGreen => { self.stroke.fill.green = value; },
            FieldTag::StrokeBlue => { self.stroke.fill.blue = value; },
        }
    }
}

/// Writing a field and reading it back gives the written value; the other
/// fields and the identity are as before.
pub proof fn lemma_with_field(shape: Shape, tag: FieldTag, value: RawValue, other: FieldTag)
    ensures
        shape.with_field(tag, value).field(tag) == value,
        other != tag ==> shape.with_field(tag, value).field(other) == shape.field(other),
        shape.with_field(tag, value).id == shape.id,
        shape.with_field(tag, value).name == shape.name,
{
}

/// Writing a field twice leaves only the second value; writing back what a
/// field holds changes nothing.
pub proof fn lemma_with_field_twice(shape: Shape, tag: FieldTag, first: RawValue, second: RawValue)
    ensures
        shape.with_field(tag, first).with_field(tag, second) == shape.with_field(tag, second),
        shape.with_field(tag, shape.field(tag)) == shape,
{
}

} // verus!

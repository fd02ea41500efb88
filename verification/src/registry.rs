//! The registry of display cells: for each field of each shape that a widget is
//! bound to, the text that the widget shows.

use std::collections::HashMap;
use vstd::prelude::*;
use crate::error::EditError;
use crate::field::FieldTag;
use crate::ident::ShapeId;

verus! {

broadcast use vstd::std_specs::hash::group_hash_axioms;

/// Names a display cell: a field of a shape.
#[derive(Clone, Copy, Debug, PartialEq, Eq, Structural)]
pub struct SignalKey {
    pub field: FieldTag,
    pub shape: ShapeId,
}

/// An observable cell: the holder of the text that a bound widget shows. The
/// edit engine sets it; the user interface reads it.
#[derive(Clone, Debug, PartialEq, Eq)]
pub struct DisplayCell {
    pub text: String,
}

impl DisplayCell {
    /// A cell that shows `text`.
    pub fn new(text: String) -> (cell: DisplayCell)
        ensures
            cell.text == text,
    {
        DisplayCell { text }
    }

    /// Replaces the text shown.
    pub fn set(&mut self, text: String)
        ensures
            final(self).text == text,
    {
        self.text = text;
    }

    /// The text shown.
    pub fn get(&self) -> (text: &String)
        ensures
            *text == self.text,
    {
        &self.text
    }
}

/// The cells of one shape, one place for each field.
struct ShapeCells {
    width: Option<DisplayCell>,
    height: Option<DisplayCell>,
    red: Option<DisplayCell>,
    green: Option<DisplayCell>,
    blue: Option<DisplayCell>,
    border_radius: Option<DisplayCell>,
    stroke_thickness: Option<DisplayCell>,
    stroke_red: Option<DisplayCell>,
    stroke_green: Option<DisplayCell>,
    stroke_blue: Option<DisplayCell>,
}

impl ShapeCells {
    spec fn slot(self, tag: FieldTag) -> Option<DisplayCell> {
        match tag {
            FieldTag::Width => self.width,
            FieldTag::Height => self.height,
            FieldTag::Red => self.red,
            FieldTag::Green => self.green,
            FieldTag::Blue => self.blue,
            FieldTag::BorderRadius => self.border_radius,
            FieldTag::StrokeThickness => self.stroke_thickness,
            FieldTag::StrokeRed => self.stroke_red,
            FieldTag::StrokeGreen => self.stroke_green,
            FieldTag::StrokeBlue => self.stroke_blue,
        }
    }

    fn empty() -> (cells: ShapeCells)
        ensures
            forall|tag: FieldTag| cells.slot(tag).is_none(),
    {
        ShapeCells {
            width: None,
            height: None,
            red: None,
            green: None,
            blue: None,
            border_radius: None,
            stroke_thickness: None,
            stroke_red: None,
            stroke_green: None,
            stroke_blue: None,
        }
    }

    fn get(&self, tag: FieldTag) -> (cell: &Option<DisplayCell>)
        ensures
            *cell == self.slot(tag),
    {
        match tag {
            FieldTag::Width => &self.width,
            FieldTag::Height => &self.height,
            FieldTag::Red => &self.red,
            FieldTag::Green => &self.green,
            FieldTag::Blue => &self.blue,
            FieldTag::BorderRadius => &self.border_radius,
            FieldTag::StrokeThickness => &self.stroke_thickness,
            FieldTag::StrokeRed => &self.stroke_red,
            FieldTag::StrokeGreen => &self.stroke_green,
            FieldTag::StrokeBlue => &self.stroke_blue,
        }
    }

    fn put(&mut self, tag: FieldTag, cell: DisplayCell)
        ensures
            final(self).slot(tag) == Some(cell),
            forall|other: FieldTag| other != tag ==> final(self).slot(other) == old(self).slot(other),
    {
        match tag {
            FieldTag::Width => { self.width = Some(cell); },
            FieldTag::Height => { self.height = Some(cell); },
            FieldTag::Red => { self.red = Some(cell); },
            FieldTag::Green => { self.green = Some(cell); },
            FieldTag::Blue => { self.blue = Some(cell); },
            FieldTag::BorderRadius => { self.border_radius = Some(cell); },
            FieldTag::StrokeThickness => { self.stroke_thickness = Some(cell); },
            FieldTag::StrokeRed => { self.stroke_red = Some(cell); },
            FieldTag::StrokeGreen => { self.stroke_green = Some(cell); },
            FieldTag::StrokeBlue => { self.stroke_blue = Some(cell); },
        }
    }
}

/// The table from (field, shape) to display cell. Its view maps each
/// registered key to the text that its cell shows.
pub struct ObservableRegistry {
    cells: HashMap<ShapeId, ShapeCells>,
}

impl View for ObservableRegistry {
    type V = Map<SignalKey, Seq<char>>;

    closed spec fn view(&self) -> Map<SignalKey, Seq<char>> {
        Map::new(
            |key: SignalKey|
                self.cells@.contains_key(key.shape) && self.cells@[key.shape].slot(
                    key.field,
                ).is_some(),
            |key: SignalKey| self.cells@[key.shape].slot(key.field).unwrap().text@,
        )
    }
}

impl ObservableRegistry {
    /// A registry without cells.
    pub fn new() -> (registry: ObservableRegistry)
        ensures
            registry@ == Map::<SignalKey, Seq<char>>::empty(),
    {
        let registry = ObservableRegistry { cells: HashMap::new() };
        assert(registry@ =~= Map::<SignalKey, Seq<char>>::empty());
        registry
    }

    /// Registers `cell` as the display cell of field `field` of shape
    /// `shape_id`. A cell registered before under the same key is replaced.
    pub fn register(&mut self, field: FieldTag, shape_id: ShapeId, cell: DisplayCell)
        ensures
            final(self)@ == old(self)@.insert(SignalKey { field, shape: shape_id }, cell.text@),
    {
        let ghost text = cell.text@;
        let mut cells = match self.cells.remove(&shape_id) {
            Some(cells) => cells,
            None => ShapeCells::empty(),
        };
        cells.put(field, cell);
        self.cells.insert(shape_id, cells);
        assert(self@ =~= old(self)@.insert(SignalKey { field, shape: shape_id }, text));
    }

    /// Whether a cell is registered for field `field` of shape `shape_id`.
    pub fn contains(&self, field: FieldTag, shape_id: ShapeId) -> (found: bool)
        ensures
            found == self@.contains_key(SignalKey { field, shape: shape_id }),
    {
        match self.cells.get(&shape_id) {
            Some(cells) => cells.get(field).is_some(),
            None => false,
        }
    }

    /// The cell registered for field `field` of shape `shape_id`, if any.
    pub fn lookup(&self, field: FieldTag, shape_id: ShapeId) -> (found: Option<&DisplayCell>)
        ensures
            match found {
                Some(cell) => self@.contains_key(SignalKey { field, shape: shape_id })
                    && cell.text@ == self@[SignalKey { field, shape: shape_id }],
                None => !self@.contains_key(SignalKey { field, shape: shape_id }),
            },
    {
        match self.cells.get(&shape_id) {
            Some(cells) => cells.get(field).as_ref(),
            None => None,
        }
    }

    /// Sets the text of the cell of field `field` of shape `shape_id`. Fails
    /// with `MissingSignal` exactly when no cell is registered under that key,
    /// and then changes nothing.
    pub fn write(&mut self, field: FieldTag, shape_id: ShapeId, text: String) -> (result: Result<
        (),
        EditError,
    >)
        ensures
            old(self)@.contains_key(SignalKey { field, shape: shape_id }) ==> result == Ok::<
                (),
                EditError,
            >(()) && final(self)@ == old(self)@.insert(
                SignalKey { field, shape: shape_id },
                text@,
            ),
            !old(self)@.contains_key(SignalKey { field, shape: shape_id }) ==> result == Err::<
                (),
                EditError,
            >(EditError::MissingSignal) && final(self)@ == old(self)@,
    {
        if !self.contains(field, shape_id) {
            return Err(EditError::MissingSignal);
        }
        self.register(field, shape_id, DisplayCell::new(text));
        Ok(())
    }
}

} // verus!

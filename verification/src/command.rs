//! The property-edit command: one field of one shape, with the value it had
//! and the value it gets.

use vstd::prelude::*;
use crate::document::{Document, DocumentView, GeometryUpdate};
use crate::error::EditError;
use crate::field::FieldTag;
use crate::ident::ShapeId;
use crate::registry::{ObservableRegistry, SignalKey};
use crate::parse::{parse_number, parse_text};
use crate::text::{format_level, format_value, nat_text, value_text};
use crate::units::{canonical_micros, canonical_to_human, human_level, human_to_canonical};
use crate::value::RawValue;

verus! {

/// A field together with a value for it, in the unit in which the user edits
/// the field: a geometry field carries the value as it is stored, a colour
/// channel carries a level from 0 to 255.
#[derive(Clone, Copy, Debug, PartialEq, Eq, Structural)]
pub enum PolygonProperty {
    Width(RawValue),
    Height(RawValue),
    Red(u8),
    Green(u8),
    Blue(u8),
    BorderRadius(RawValue),
    StrokeThickness(RawValue),
    StrokeRed(u8),
    StrokeGreen(u8),
    StrokeBlue(u8),
}

impl PolygonProperty {
    /// The field that the value is for.
    pub open spec fn tag(self) -> FieldTag {
        match self {
            PolygonProperty::Width(_) => FieldTag::Width,
            PolygonProperty::Height(_) => FieldTag::Height,
            PolygonProperty::Red(_) => FieldTag::Red,
            PolygonProperty::Green(_) => FieldTag::Green,
            PolygonProperty::Blue(_) => FieldTag::Blue,
            PolygonProperty::BorderRadius(_) => FieldTag::BorderRadius,
            PolygonProperty::StrokeThickness(_) => FieldTag::StrokeThickness,
            PolygonProperty::StrokeRed(_) => FieldTag::StrokeRed,
            PolygonProperty::StrokeGreen(_) => FieldTag::StrokeGreen,
            PolygonProperty::StrokeBlue(_) => FieldTag::StrokeBlue,
        }
    }

    /// The value as the document stores it: a geometry value unchanged, a colour
    /// level normalised.
    pub open spec fn canonical(self) -> RawValue {
        match self {
            PolygonProperty::Width(v) => v,
            PolygonProperty::Height(v) => v,
            PolygonProperty::BorderRadius(v) => v,
            PolygonProperty::StrokeThickness(v) => v,
            PolygonProperty::Red(level) => RawValue { micros: canonical_micros(level as int) as i64 },
            PolygonProperty::Green(level) => RawValue {
                micros: canonical_micros(level as int) as i64,
            },
            PolygonProperty::Blue(level) => RawValue { micros: canonical_micros(level as int) as i64 },
            PolygonProperty::StrokeRed(level) => RawValue {
                micros: canonical_micros(level as int) as i64,
            },
            PolygonProperty::StrokeGreen(level) => RawValue {
                micros: canonical_micros(level as int) as i64,
            },
            PolygonProperty::StrokeBlue(level) => RawValue {
                micros: canonical_micros(level as int) as i64,
            },
        }
    }

    /// The text that the display cell of the field shows for the value.
    pub open spec fn display(self) -> Seq<char> {
        match self {
            PolygonProperty::Width(v) => value_text(v.micros as int),
            PolygonProperty::Height(v) => value_text(v.micros as int),
            PolygonProperty::BorderRadius(v) => value_text(v.micros as int),
            PolygonProperty::StrokeThickness(v) => value_text(v.micros as int),
            PolygonProperty::Red(level) => nat_text(level as nat),
            PolygonProperty::Green(level) => nat_text(level as nat),
            PolygonProperty::Blue(level) => nat_text(level as nat),
            PolygonProperty::StrokeRed(level) => nat_text(level as nat),
            PolygonProperty::StrokeGreen(level) => nat_text(level as nat),
            PolygonProperty::StrokeBlue(level) => nat_text(level as nat),
        }
    }

    /// The stored value `value` of field `tag`, in the unit in which the user
    /// edits the field: a geometry value unchanged, a colour channel as the
    /// nearest level.
    pub open spec fn of_stored(tag: FieldTag, value: RawValue) -> PolygonProperty {
        match tag {
            FieldTag::Width => PolygonProperty::Width(value),
            FieldTag::Height => PolygonProperty::Height(value),
            FieldTag::BorderRadius => PolygonProperty::BorderRadius(value),
            FieldTag::StrokeThickness => PolygonProperty::StrokeThickness(value),
            FieldTag::Red => PolygonProperty::Red(human_level(value.micros as int) as u8),
            FieldTag::Green => PolygonProperty::Green(human_level(value.micros as int) as u8),
            FieldTag::Blue => PolygonProperty::Blue(human_level(value.micros as int) as u8),
            FieldTag::StrokeRed => PolygonProperty::StrokeRed(human_level(value.micros as int) as u8),
            FieldTag::StrokeGreen => PolygonProperty::StrokeGreen(
                human_level(value.micros as int) as u8,
            ),
            FieldTag::StrokeBlue => PolygonProperty::StrokeBlue(
                human_level(value.micros as int) as u8,
            ),
        }
    }

    /// The level `level` for the colour channel `tag`.
    pub open spec fn of_level(tag: FieldTag, level: u8) -> PolygonProperty {
        match tag {
            FieldTag::Green => PolygonProperty::Green(level),
            FieldTag::Blue => PolygonProperty::Blue(level),
            FieldTag::StrokeRed => PolygonProperty::StrokeRed(level),
            FieldTag::StrokeGreen => PolygonProperty::StrokeGreen(level),
            FieldTag::StrokeBlue => PolygonProperty::StrokeBlue(level),
            _ => PolygonProperty::Red(level),
        }
    }

    /// The value that the number of `micros` millionths, entered by the user,
    /// gives field `tag`. A geometry field takes any number. A colour channel
    /// takes a whole number from 0 to 255 and nothing else.
    pub open spec fn of_input(tag: FieldTag, micros: int) -> Option<PolygonProperty> {
        if !tag.color() {
            Some(PolygonProperty::of_stored(tag, RawValue { micros: micros as i64 }))
        } else if 0 <= micros <= 255_000_000 && micros % 1_000_000 == 0 {
            Some(PolygonProperty::of_level(tag, (micros / 1_000_000) as u8))
        } else {
            None
        }
    }

    /// The field that the value is for.
    pub fn field(&self) -> (tag: FieldTag)
        ensures
            tag == self.tag(),
    {
        match self {
            PolygonProperty::Width(_) => FieldTag::Width,
            PolygonProperty::Height(_) => FieldTag::Height,
            PolygonProperty::Red(_) => FieldTag::Red,
            PolygonProperty::Green(_) => FieldTag::Green,
            PolygonProperty::Blue(_) => FieldTag::Blue,
            PolygonProperty::BorderRadius(_) => FieldTag::BorderRadius,
            PolygonProperty::StrokeThickness(_) => FieldTag::StrokeThickness,
            PolygonProperty::StrokeRed(_) => FieldTag::StrokeRed,
            PolygonProperty::StrokeGreen(_) => FieldTag::StrokeGreen,
            PolygonProperty::StrokeBlue(_) => FieldTag::StrokeBlue,
        }
    }

    /// The value as the document stores it.
    pub fn to_canonical(&self) -> (value: RawValue)
        ensures
            value == self.canonical(),
    {
        match self {
            PolygonProperty::Width(v) => *v,
            PolygonProperty::Height(v) => *v,
            PolygonProperty::BorderRadius(v) => *v,
            PolygonProperty::StrokeThickness(v) => *v,
            PolygonProperty::Red(level) => human_to_canonical(*level),
            PolygonProperty::Green(level) => human_to_canonical(*level),
            PolygonProperty::Blue(level) => human_to_canonical(*level),
            PolygonProperty::StrokeRed(level) => human_to_canonical(*level),
            PolygonProperty::StrokeGreen(level) => human_to_canonical(*level),
            PolygonProperty::StrokeBlue(level) => human_to_canonical(*level),
        }
    }

    /// The text that the display cell of the field shows for the value.
    pub fn display_text(&self) -> (text: String)
        ensures
            text@ == self.display(),
    {
        match self {
            PolygonProperty::Width(v) => format_value(*v),
            PolygonProperty::Height(v) => format_value(*v),
            PolygonProperty::BorderRadius(v) => format_value(*v),
            PolygonProperty::StrokeThickness(v) => format_value(*v),
            PolygonProperty::Red(level) => format_level(*level),
            PolygonProperty::Green(level) => format_level(*level),
            PolygonProperty::Blue(level) => format_level(*level),
            PolygonProperty::StrokeRed(level) => format_level(*level),
            PolygonProperty::StrokeGreen(level) => format_level(*level),
            PolygonProperty::StrokeBlue(level) => format_level(*level),
        }
    }

    /// The value that the number `value`, entered by the user, gives field
    /// `tag`. Fails with `ParseError` exactly when the field is a colour channel
    /// and the number is no whole number from 0 to 255.
    pub fn from_input(tag: FieldTag, value: RawValue) -> (result: Result<PolygonProperty, EditError>)
        ensures
            match PolygonProperty::of_input(tag, value.micros as int) {
                Some(property) => result == Ok::<PolygonProperty, EditError>(property)
                    && property.tag() == tag,
                None => result == Err::<PolygonProperty, EditError>(EditError::ParseError),
            },
    {
        if !tag.is_color() {
            return Ok(PolygonProperty::from_stored(tag, value));
        }
        if value.micros < 0 || value.micros > 255_000_000 || value.micros % 1_000_000 != 0 {
            return Err(EditError::ParseError);
        }
        let level: u8 = (value.micros / 1_000_000) as u8;
        Ok(
            match tag {
                FieldTag::Green => PolygonProperty::Green(level),
                FieldTag::Blue => PolygonProperty::Blue(level),
                FieldTag::StrokeRed => PolygonProperty::StrokeRed(level),
                FieldTag::StrokeGreen => PolygonProperty::StrokeGreen(level),
                FieldTag::StrokeBlue => PolygonProperty::StrokeBlue(level),
                _ => PolygonProperty::Red(level),
            },
        )
    }

    /// The stored value `value` of field `tag`, in the unit in which the user
    /// edits the field.
    pub fn from_stored(tag: FieldTag, value: RawValue) -> (property: PolygonProperty)
        ensures
            property == PolygonProperty::of_stored(tag, value),
            property.tag() == tag,
    {
        match tag {
            FieldTag::Width => PolygonProperty::Width(value),
            FieldTag::Height => PolygonProperty::Height(value),
            FieldTag::BorderRadius => PolygonProperty::BorderRadius(value),
            FieldTag::StrokeThickness => PolygonProperty::StrokeThickness(value),
            FieldTag::Red => PolygonProperty::Red(canonical_to_human(value)),
            FieldTag::Green => PolygonProperty::Green(canonical_to_human(value)),
            FieldTag::Blue => PolygonProperty::Blue(canonical_to_human(value)),
            FieldTag::StrokeRed => PolygonProperty::StrokeRed(canonical_to_human(value)),
            FieldTag::StrokeGreen => PolygonProperty::StrokeGreen(canonical_to_human(value)),
            FieldTag::StrokeBlue => PolygonProperty::StrokeBlue(canonical_to_human(value)),
        }
    }
}

/// What commands act on: the document and the registry of display cells.
pub struct RecordState {
    pub editor: Document,
    pub value_signals: ObservableRegistry,
}

/// What a `RecordState` holds, as mathematics.
pub struct RecordStateView {
    pub document: DocumentView,
    pub signals: Map<SignalKey, Seq<char>>,
}

impl View for RecordState {
    type V = RecordStateView;

    open spec fn view(&self) -> RecordStateView {
        RecordStateView { document: self.editor@, signals: self.value_signals@ }
    }
}

impl RecordStateView {
    /// What becomes of the state, and what is reported, when `value` is written
    /// to field `tag` of shape `id` and `text` is shown for it: first the
    /// document is written, then the display cell.
    ///
    /// - Without the shape: `MissingEntity`, and nothing changes.
    /// - With the shape but without a cell for the field: the document holds the
    ///   value, the cells are as before, and `MissingSignal` is reported.
    /// - With both: the document holds the value and the cell shows the text.
    pub open spec fn write(self, id: ShapeId, tag: FieldTag, value: RawValue, text: Seq<char>) -> (
        RecordStateView,
        Result<(), EditError>,
    ) {
        let key = SignalKey { field: tag, shape: id };
        if !self.document.shapes.contains_key(id) {
            (self, Err(EditError::MissingEntity))
        } else {
            let document = self.document.set_field(id, tag, value);
            if !self.signals.contains_key(key) {
                (RecordStateView { document, signals: self.signals }, Err(EditError::MissingSignal))
            } else {
                (RecordStateView { document, signals: self.signals.insert(key, text) }, Ok(()))
            }
        }
    }
}

impl RecordState {
    /// An empty document and an empty registry.
    pub fn new() -> (state: RecordState)
        ensures
            state@.document.wf(),
            state@.document.shapes == Map::<ShapeId, crate::shape::Shape>::empty(),
            state@.document.order == Seq::<ShapeId>::empty(),
            state@.document.geometry_updates == Seq::<GeometryUpdate>::empty(),
            state@.signals == Map::<SignalKey, Seq<char>>::empty(),
    {
        RecordState { editor: Document::new(), value_signals: ObservableRegistry::new() }
    }

    /// Writes `value` to field `tag` of shape `id` and shows `text` in the
    /// display cell of the field, as `RecordStateView::write` says.
    pub fn write(&mut self, id: ShapeId, tag: FieldTag, value: RawValue, text: String) -> (result:
        Result<(), EditError>)
        requires
            old(self)@.document.wf(),
        ensures
            final(self)@.document.wf(),
            (final(self)@, result) == old(self)@.write(id, tag, value, text@),
    {
        match self.editor.set_field(id, tag, value) {
            Ok(()) => {},
            Err(e) => {
                return Err(e);
            },
        }
        let result = self.value_signals.write(tag, id, text);
        proof {
            let key = SignalKey { field: tag, shape: id };
            let expected = old(self)@.write(id, tag, value, text@);
            assert(self@.document == old(self)@.document.set_field(id, tag, value));
            if old(self)@.signals.contains_key(key) {
                assert(self@.signals == old(self)@.signals.insert(key, text@));
                assert(self@ == expected.0);
            } else {
                assert(self@.signals == old(self)@.signals);
                assert(self@ == expected.0);
            }
        }
        result
    }
}

/// A reversible edit of one field of one shape.
///
/// The command holds its target, the value that the user entered, and what the
/// field held when the command was made: once as it was stored, to put it back
/// exactly, and once in the unit in which the user edits the field, to show it.
#[derive(Clone, Copy, Debug, PartialEq, Eq, Structural)]
pub struct PolygonEdit {
    /// The shape that the command edits.
    pub polygon_id: ShapeId,
    /// What the field held, in the unit in which it is edited and displayed.
    pub old_value: PolygonProperty,
    /// What the user entered, in the unit in which the field is edited.
    pub new_value: PolygonProperty,
    /// What the field held, as the document stored it.
    pub old_stored: RawValue,
}

impl PolygonEdit {
    /// The command that the text `text`, entered for field `tag` of shape `id`,
    /// asks for in state `target`.
    ///
    /// The text is read first: text that denotes no number of the field's domain
    /// gives `ParseError`. Then the value that the field holds now is read from
    /// the document, which gives `MissingEntity` without the shape. The command
    /// keeps that value as stored, and converted to a level for a colour
    /// channel; the number entered is kept as entered.
    pub open spec fn planned(target: RecordStateView, id: ShapeId, tag: FieldTag, text: Seq<char>)
        -> Result<PolygonEdit, EditError> {
        match parse_text(text) {
            None => Err(EditError::ParseError),
            Some(micros) => match PolygonProperty::of_input(tag, micros) {
                None => Err(EditError::ParseError),
                Some(new_value) => match target.document.field(id, tag) {
                    None => Err(EditError::MissingEntity),
                    Some(stored) => Ok(
                        PolygonEdit {
                            polygon_id: id,
                            old_value: PolygonProperty::of_stored(tag, stored),
                            new_value,
                            old_stored: stored,
                        },
                    ),
                },
            },
        }
    }

    /// What becomes of `target` when the command is applied: the new value,
    /// converted to stored units, is written to the field, and its text is
    /// shown.
    pub open spec fn applied(self, target: RecordStateView) -> (
        RecordStateView,
        Result<(), EditError>,
    ) {
        target.write(
            self.polygon_id,
            self.new_value.tag(),
            self.new_value.canonical(),
            self.new_value.display(),
        )
    }

    /// What becomes of `target` when the command is taken back: the value that
    /// the field held is written back as it was stored, and the text of the old
    /// value is shown.
    pub open spec fn reverted(self, target: RecordStateView) -> (
        RecordStateView,
        Result<(), EditError>,
    ) {
        target.write(
            self.polygon_id,
            self.old_value.tag(),
            self.old_stored,
            self.old_value.display(),
        )
    }

    /// Makes the command that `text`, entered for field `field` of shape
    /// `polygon_id`, asks for, as `planned` says. Nothing is changed.
    pub fn new(target: &RecordState, polygon_id: ShapeId, field: FieldTag, text: &str) -> (result:
        Result<PolygonEdit, EditError>)
        ensures
            result == PolygonEdit::planned(target@, polygon_id, field, text@),
            result matches Ok(command) ==> command.old_value.tag() == field
                && command.new_value.tag() == field,
    {
        let entered = match parse_number(text) {
            Ok(value) => value,
            Err(e) => {
                return Err(e);
            },
        };
        let new_value = match PolygonProperty::from_input(field, entered) {
            Ok(property) => property,
            Err(e) => {
                return Err(e);
            },
        };
        let stored = match target.editor.get_field(polygon_id, field) {
            Ok(value) => value,
            Err(e) => {
                return Err(e);
            },
        };
        Ok(
            PolygonEdit {
                polygon_id,
                old_value: PolygonProperty::from_stored(field, stored),
                new_value,
                old_stored: stored,
            },
        )
    }

    /// Applies the edit, as `applied` says: writes the new value to the target
    /// shape and shows it in the display cell. Fails with `MissingEntity` without
    /// the shape and with `MissingSignal` without the cell.
    pub fn edit(&self, target: &mut RecordState) -> (result: Result<(), EditError>)
        requires
            old(target)@.document.wf(),
        ensures
            final(target)@.document.wf(),
            (final(target)@, result) == self.applied(old(target)@),
    {
        target.write(
            self.polygon_id,
            self.new_value.field(),
            self.new_value.to_canonical(),
            self.new_value.display_text(),
        )
    }

    /// Takes the edit back, as `reverted` says: writes the old value back as it
    /// was stored and shows it in the display cell. Fails with `MissingEntity`
    /// without the shape and with `MissingSignal` without the cell.
    pub fn undo(&self, target: &mut RecordState) -> (result: Result<(), EditError>)
        requires
            old(target)@.document.wf(),
        ensures
            final(target)@.document.wf(),
            (final(target)@, result) == self.reverted(old(target)@),
    {
        target.write(
            self.polygon_id,
            self.old_value.field(),
            self.old_stored,
            self.old_value.display_text(),
        )
    }
}

} // verus!

//! The editing session: the document with its display cells, the history, and
//! the selected shape, with one entry point for each bound input field.

use vstd::prelude::*;
use crate::command::{PolygonEdit, PolygonProperty, RecordState, RecordStateView};
use crate::document::Document;
use crate::error::EditError;
use crate::field::FieldTag;
use crate::history::{lemma_commit_undo_restores, HistoryStack, HistoryStep, HistoryView};
use crate::ident::{nil_shape_id, ShapeId};
use crate::parse::{lemma_shown_value_reads_back, parse_text};
use crate::registry::{DisplayCell, ObservableRegistry, SignalKey};
use crate::shape::lemma_with_field_twice;
use crate::text::value_text;
use crate::value::{RawValue, MAX_MICROS};

verus! {

/// The state of one editing session.
pub struct EditorState {
    /// The undo/redo history.
    pub record: HistoryStack,
    /// What the commands of the history act on.
    pub record_state: RecordState,
    /// Whether a shape is selected.
    pub polygon_selected: bool,
    /// The selected shape; the nil identifier when none is selected.
    pub selected_polygon_id: ShapeId,
}

/// What an editing session holds, as mathematics.
pub struct EditorView {
    pub target: RecordStateView,
    pub history: HistoryView,
    pub polygon_selected: bool,
    pub selected_polygon_id: ShapeId,
}

impl View for EditorState {
    type V = EditorView;

    open spec fn view(&self) -> EditorView {
        EditorView {
            target: self.record_state@,
            history: self.record@,
            polygon_selected: self.polygon_selected,
            selected_polygon_id: self.selected_polygon_id,
        }
    }
}

impl EditorView {
    /// The display cell of field `tag` of the selected shape.
    pub open spec fn selected_key(self, tag: FieldTag) -> SignalKey {
        SignalKey { field: tag, shape: self.selected_polygon_id }
    }

    /// The session after the input field bound to field `tag` of shape `id` was
    /// finalised with `text`: the command that the text asks for is made and
    /// committed. Where no command can be made, nothing changes.
    pub open spec fn edit(self, id: ShapeId, tag: FieldTag, text: Seq<char>) -> (
        EditorView,
        Result<(), EditError>,
    ) {
        match PolygonEdit::planned(self.target, id, tag, text) {
            Err(e) => (self, Err(e)),
            Ok(command) => {
                let (target, history, result) = self.history.commit(self.target, command);
                (EditorView { target, history, ..self }, result)
            },
        }
    }

    /// The session after the input field bound to field `tag` of the selected
    /// shape was finalised with `text`.
    pub open spec fn update(self, tag: FieldTag, text: Seq<char>) -> (
        EditorView,
        Result<(), EditError>,
    ) {
        self.edit(self.selected_polygon_id, tag, text)
    }

    /// The session after one step back in the history.
    pub open spec fn undo(self) -> (EditorView, Result<HistoryStep, EditError>) {
        let (target, history, result) = self.history.undo(self.target);
        (EditorView { target, history, ..self }, result)
    }

    /// The session after one step forward in the history.
    pub open spec fn redo(self) -> (EditorView, Result<HistoryStep, EditError>) {
        let (target, history, result) = self.history.redo(self.target);
        (EditorView { target, history, ..self }, result)
    }
}

impl EditorState {
    /// A session on the document `editor`: no display cells, an empty history,
    /// nothing selected.
    pub fn new(editor: Document) -> (state: EditorState)
        requires
            editor@.wf(),
        ensures
            state@.target.document == editor@,
            state@.target.signals == Map::<SignalKey, Seq<char>>::empty(),
            state@.history.undo == Seq::<PolygonEdit>::empty(),
            state@.history.redo == Seq::<PolygonEdit>::empty(),
            !state@.polygon_selected,
            state@.selected_polygon_id == 0,
    {
        EditorState {
            record: HistoryStack::new(),
            record_state: RecordState { editor, value_signals: ObservableRegistry::new() },
            polygon_selected: false,
            selected_polygon_id: nil_shape_id(),
        }
    }

    /// Registers `signal` as the display cell of field `field` of the selected
    /// shape. A cell registered before for that field of that shape is replaced.
    pub fn register_signal(&mut self, field: FieldTag, signal: DisplayCell)
        ensures
            final(self)@ == (EditorView {
                target: RecordStateView {
                    signals: old(self)@.target.signals.insert(
                        old(self)@.selected_key(field),
                        signal.text@,
                    ),
                    ..old(self)@.target
                },
                ..old(self)@
            }),
    {
        self.record_state.value_signals.register(field, self.selected_polygon_id, signal);
    }

    /// Selects shape `id`: the input fields now edit its fields.
    pub fn select_polygon(&mut self, id: ShapeId)
        ensures
            final(self)@ == (EditorView {
                polygon_selected: true,
                selected_polygon_id: id,
                ..old(self)@
            }),
    {
        self.polygon_selected = true;
        self.selected_polygon_id = id;
    }

    /// Selects nothing: the selected identifier is the nil identifier again.
    pub fn clear_selection(&mut self)
        ensures
            final(self)@ == (EditorView {
                polygon_selected: false,
                selected_polygon_id: 0,
                ..old(self)@
            }),
    {
        self.polygon_selected = false;
        self.selected_polygon_id = nil_shape_id();
    }

    /// The input field bound to field `field` of shape `shape_id` was finalised
    /// with `raw_text`. The text is read, the command is made from it and from
    /// the value that the field holds, and the command is committed, as
    /// `EditorView::edit` says.
    ///
    /// - Text that is no number of the field's domain: `ParseError`, nothing
    ///   changes.
    /// - No such shape in the document: `MissingEntity`, nothing changes.
    /// - No display cell registered for the field: `MissingSignal`; the document
    ///   holds the new value, cells and history are as before.
    /// - Otherwise the document holds the new value, the cell shows it, the
    ///   command is on top of the undo stack and the redo stack is empty.
    pub fn edit_field(&mut self, shape_id: ShapeId, field: FieldTag, raw_text: &str) -> (result:
        Result<(), EditError>)
        requires
            old(self)@.target.document.wf(),
        ensures
            final(self)@.target.document.wf(),
            (final(self)@, result) == old(self)@.edit(shape_id, field, raw_text@),
            result.is_err() ==> final(self)@.history == old(self)@.history,
    {
        let command = match PolygonEdit::new(&self.record_state, shape_id, field, raw_text) {
            Ok(command) => command,
            Err(e) => {
                return Err(e);
            },
        };
        self.record.commit(&mut self.record_state, command)
    }

    /// The input field bound to field `field` of the selected shape was
    /// finalised with `text`: `edit_field` for the selected shape.
    pub fn update_field(&mut self, field: FieldTag, text: &str) -> (result: Result<(), EditError>)
        requires
            old(self)@.target.document.wf(),
        ensures
            final(self)@.target.document.wf(),
            (final(self)@, result) == old(self)@.update(field, text@),
            result.is_err() ==> final(self)@.history == old(self)@.history,
    {
        self.edit_field(self.selected_polygon_id, field, text)
    }

    /// The width field was finalised with `new_width_str`.
    pub fn update_width(&mut self, new_width_str: &str) -> (result: Result<(), EditError>)
        requires
            old(self)@.target.document.wf(),
        ensures
            final(self)@.target.document.wf(),
            (final(self)@, result) == old(self)@.update(FieldTag::Width, new_width_str@),
    {
        self.update_field(FieldTag::Width, new_width_str)
    }

    /// The height field was finalised with `new_height_str`.
    pub fn update_height(&mut self, new_height_str: &str) -> (result: Result<(), EditError>)
        requires
            old(self)@.target.document.wf(),
        ensures
            final(self)@.target.document.wf(),
            (final(self)@, result) == old(self)@.update(FieldTag::Height, new_height_str@),
    {
        self.update_field(FieldTag::Height, new_height_str)
    }

    /// The red field of the fill was finalised with `new_red_str`.
    pub fn update_red(&mut self, new_red_str: &str) -> (result: Result<(), EditError>)
        requires
            old(self)@.target.document.wf(),
        ensures
            final(self)@.target.document.wf(),
            (final(self)@, result) == old(self)@.update(FieldTag::Red, new_red_str@),
    {
        self.update_field(FieldTag::Red, new_red_str)
    }

    /// The green field of the fill was finalised with `new_green_str`.
    pub fn update_green(&mut self, new_green_str: &str) -> (result: Result<(), EditError>)
        requires
            old(self)@.target.document.wf(),
        ensures
            final(self)@.target.document.wf(),
            (final(self)@, result) == old(self)@.update(FieldTag::Green, new_green_str@),
    {
        self.update_field(FieldTag::Green, new_green_str)
    }

    /// The blue field of the fill was finalised with `new_blue_str`.
    pub fn update_blue(&mut self, new_blue_str: &str) -> (result: Result<(), EditError>)
        requires
            old(self)@.target.document.wf(),
        ensures
            final(self)@.target.document.wf(),
            (final(self)@, result) == old(self)@.update(FieldTag::Blue, new_blue_str@),
    {
        self.update_field(FieldTag::Blue, new_blue_str)
    }

    /// The border-radius field was finalised with `new_border_radius_str`.
    pub fn update_border_radius(&mut self, new_border_radius_str: &str) -> (result: Result<
        (),
        EditError,
    >)
        requires
            old(self)@.target.document.wf(),
        ensures
            final(self)@.target.document.wf(),
            (final(self)@, result) == old(self)@.update(
                FieldTag::BorderRadius,
                new_border_radius_str@,
            ),
    {
        self.update_field(FieldTag::BorderRadius, new_border_radius_str)
    }

    /// The stroke-thickness field was finalised with `new_stroke_thickness_str`.
    pub fn update_stroke_thickness(&mut self, new_stroke_thickness_str: &str) -> (result: Result<
        (),
        EditError,
    >)
        requires
            old(self)@.target.document.wf(),
        ensures
            final(self)@.target.document.wf(),
            (final(self)@, result) == old(self)@.update(
                FieldTag::StrokeThickness,
                new_stroke_thickness_str@,
            ),
    {
        self.update_field(FieldTag::StrokeThickness, new_stroke_thickness_str)
    }

    /// The red field of the stroke was finalised with `new_stroke_red_str`.
    pub fn update_stroke_red(&mut self, new_stroke_red_str: &str) -> (result: Result<(), EditError>)
        requires
            old(self)@.target.document.wf(),
        ensures
            final(self)@.target.document.wf(),
            (final(self)@, result) == old(self)@.update(FieldTag::StrokeRed, new_stroke_red_str@),
    {
        self.update_field(FieldTag::StrokeRed, new_stroke_red_str)
    }

    /// The green field of the stroke was finalised with `new_stroke_green_str`.
    pub fn update_stroke_green(&mut self, new_stroke_green_str: &str) -> (result: Result<
        (),
        EditError,
    >)
        requires
            old(self)@.target.document.wf(),
        ensures
            final(self)@.target.document.wf(),
            (final(self)@, result) == old(self)@.update(
                FieldTag::StrokeGreen,
                new_stroke_green_str@,
            ),
    {
        self.update_field(FieldTag::StrokeGreen, new_stroke_green_str)
    }

    /// The blue field of the stroke was finalised with `new_stroke_blue_str`.
    pub fn update_stroke_blue(&mut self, new_stroke_blue_str: &str) -> (result: Result<
        (),
        EditError,
    >)
        requires
            old(self)@.target.document.wf(),
        ensures
            final(self)@.target.document.wf(),
            (final(self)@, result) == old(self)@.update(FieldTag::StrokeBlue, new_stroke_blue_str@),
    {
        self.update_field(FieldTag::StrokeBlue, new_stroke_blue_str)
    }

    /// One step back in the history, as `EditorView::undo` says. With nothing to
    /// undo, nothing changes and `NothingToDo` is returned.
    pub fn undo(&mut self) -> (result: Result<HistoryStep, EditError>)
        requires
            old(self)@.target.document.wf(),
        ensures
            final(self)@.target.document.wf(),
            (final(self)@, result) == old(self)@.undo(),
            old(self)@.history.undo.len() == 0 ==> result == Ok::<HistoryStep, EditError>(
                HistoryStep::NothingToDo,
            ) && final(self)@ == old(self)@,
    {
        self.record.undo(&mut self.record_state)
    }

    /// One step forward in the history, as `EditorView::redo` says. With nothing
    /// to redo, nothing changes and `NothingToDo` is returned.
    pub fn redo(&mut self) -> (result: Result<HistoryStep, EditError>)
        requires
            old(self)@.target.document.wf(),
        ensures
            final(self)@.target.document.wf(),
            (final(self)@, result) == old(self)@.redo(),
            old(self)@.history.redo.len() == 0 ==> result == Ok::<HistoryStep, EditError>(
                HistoryStep::NothingToDo,
            ) && final(self)@ == old(self)@,
    {
        self.record.redo(&mut self.record_state)
    }
}

/// An edit, undone, restores the field exactly.
///
/// Where the selected shape is in the document and a display cell is
/// registered for field `tag`, finalising the field with text that denotes a
/// number of the field's domain and then undoing succeeds both times and leaves
/// the field, and every shape, as stored before the edit.
pub proof fn lemma_update_undo_restores(state: EditorView, tag: FieldTag, text: Seq<char>)
    requires
        parse_text(text) matches Some(micros) && PolygonProperty::of_input(tag, micros).is_some(),
        state.target.document.shapes.contains_key(state.selected_polygon_id),
        state.target.signals.contains_key(state.selected_key(tag)),
    ensures
        ({
            let (edited, committed) = state.update(tag, text);
            let (restored, undone) = edited.undo();
            &&& committed == Ok::<(), EditError>(())
            &&& undone matches Ok(HistoryStep::Done(command)) && command.polygon_id
                == state.selected_polygon_id && command.new_value.tag() == tag
            &&& restored.target.document.field(state.selected_polygon_id, tag)
                == state.target.document.field(state.selected_polygon_id, tag)
            &&& restored.target.document.shapes == state.target.document.shapes
            &&& restored.target.document.order == state.target.document.order
            &&& restored.history.undo == state.history.undo
        }),
{
    let planned = PolygonEdit::planned(state.target, state.selected_polygon_id, tag, text);
    assert(planned.is_ok());
    let command = planned.unwrap();
    assert(command.captured_from(state.target));
    lemma_commit_undo_restores(state.target, state.history, command);
}

/// An edit of a geometry field, undone, restores the field exactly, whatever
/// number the text denotes.
pub proof fn lemma_update_undo_restores_geometry(state: EditorView, tag: FieldTag, text: Seq<char>)
    requires
        !tag.color(),
        parse_text(text).is_some(),
        state.target.document.shapes.contains_key(state.selected_polygon_id),
        state.target.signals.contains_key(state.selected_key(tag)),
    ensures
        ({
            let (edited, committed) = state.update(tag, text);
            let (restored, undone) = edited.undo();
            &&& committed == Ok::<(), EditError>(())
            &&& undone.is_ok()
            &&& restored.target.document.field(state.selected_polygon_id, tag)
                == state.target.document.field(state.selected_polygon_id, tag)
        }),
{
    lemma_update_undo_restores(state, tag, text);
}

/// An edit of a shape that the document does not hold fails with
/// `MissingEntity` and leaves the session, its undo stack included, as it was.
pub proof fn lemma_update_without_shape(state: EditorView, tag: FieldTag, text: Seq<char>)
    requires
        parse_text(text) matches Some(micros) && PolygonProperty::of_input(tag, micros).is_some(),
        !state.target.document.shapes.contains_key(state.selected_polygon_id),
    ensures
        state.update(tag, text) == (state, Err::<(), EditError>(EditError::MissingEntity)),
{
}

/// Finalising a geometry field with the text that its cell shows for the
/// stored value stores that value again: display and document agree.
pub proof fn lemma_edit_with_shown_text_keeps_value(state: EditorView, id: ShapeId, tag: FieldTag)
    requires
        !tag.color(),
        state.target.document.shapes.contains_key(id),
        state.target.signals.contains_key(SignalKey { field: tag, shape: id }),
        -MAX_MICROS <= state.target.document.shapes[id].field(tag).micros <= MAX_MICROS,
    ensures
        ({
            let stored = state.target.document.shapes[id].field(tag);
            let shown = value_text(stored.micros as int);
            let (edited, committed) = state.edit(id, tag, shown);
            &&& committed == Ok::<(), EditError>(())
            &&& edited.target.document.shapes == state.target.document.shapes
            &&& edited.target.signals == state.target.signals.insert(
                SignalKey { field: tag, shape: id },
                shown,
            )
        }),
{
    let shape = state.target.document.shapes[id];
    let stored = shape.field(tag);
    let shown = value_text(stored.micros as int);
    lemma_shown_value_reads_back(stored.micros as int);
    assert(RawValue { micros: stored.micros } == stored);
    let (edited, committed) = state.edit(id, tag, shown);
    lemma_with_field_twice(shape, tag, stored, stored);
    assert(edited.target.document.shapes =~= state.target.document.shapes);
}

/// An edit with text that denotes no number of the field's domain fails with
/// `ParseError` and leaves the session as it was: the document, the display
/// cells and both stacks.
pub proof fn lemma_edit_with_bad_text(state: EditorView, id: ShapeId, tag: FieldTag, text: Seq<char>)
    requires
        parse_text(text) matches Some(micros) ==> PolygonProperty::of_input(tag, micros).is_none(),
    ensures
        state.edit(id, tag, text) == (state, Err::<(), EditError>(EditError::ParseError)),
{
}

} // verus!

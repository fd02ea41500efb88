use canvas_editor::command::{PolygonEdit, PolygonProperty, RecordState};
use canvas_editor::document::Document;
use canvas_editor::editor_state::EditorState;
use canvas_editor::error::EditError;
use canvas_editor::field::FieldTag;
use canvas_editor::history::{HistoryStack, HistoryStep};
use canvas_editor::registry::DisplayCell;
use canvas_editor::shape::{Color, Shape, Stroke};
use canvas_editor::value::RawValue;
use uuid::Uuid;

const ALL_FIELDS: [FieldTag; 10] = [
    FieldTag::Width,
    FieldTag::Height,
    FieldTag::Red,
    FieldTag::Green,
    FieldTag::Blue,
    FieldTag::BorderRadius,
    FieldTag::StrokeThickness,
    FieldTag::StrokeRed,
    FieldTag::StrokeGreen,
    FieldTag::StrokeBlue,
];

const GEOMETRY_FIELDS: [FieldTag; 4] =
    [FieldTag::Width, FieldTag::Height, FieldTag::BorderRadius, FieldTag::StrokeThickness];

fn micros(m: i64) -> RawValue {
    RawValue { micros: m }
}

fn shape(id: u128) -> Shape {
    Shape {
        id,
        name: "Polygon".to_string(),
        width: micros(100_000_000),
        height: micros(80_000_000),
        border_radius: micros(5_000_000),
        fill: Color {
            red: micros(500_000),
            green: micros(250_000),
            blue: micros(1_000_000),
            alpha: micros(1_000_000),
        },
        stroke: Stroke {
            fill: Color {
                red: micros(0),
                green: micros(333_333),
                blue: micros(750_000),
                alpha: micros(1_000_000),
            },
            thickness: micros(2_500_000),
        },
    }
}

fn session(id: u128) -> EditorState {
    let mut doc = Document::new();
    assert!(doc.insert_shape(shape(id)));
    let mut state = EditorState::new(doc);
    state.select_polygon(id);
    for field in ALL_FIELDS {
        state.register_signal(field, DisplayCell::new(String::new()));
    }
    state
}

fn update(state: &mut EditorState, field: FieldTag, text: &str) -> Result<(), EditError> {
    match field {
        FieldTag::Width => state.update_width(text),
        FieldTag::Height => state.update_height(text),
        FieldTag::Red => state.update_red(text),
        FieldTag::Green => state.update_green(text),
        FieldTag::Blue => state.update_blue(text),
        FieldTag::BorderRadius => state.update_border_radius(text),
        FieldTag::StrokeThickness => state.update_stroke_thickness(text),
        FieldTag::StrokeRed => state.update_stroke_red(text),
        FieldTag::StrokeGreen => state.update_stroke_green(text),
        FieldTag::StrokeBlue => state.update_stroke_blue(text),
    }
}

fn stored(state: &EditorState, id: u128, field: FieldTag) -> RawValue {
    state.record_state.editor.get_field(id, field).expect("the shape is in the document")
}

fn shown(state: &EditorState, id: u128, field: FieldTag) -> String {
    state.record_state.value_signals.lookup(field, id).expect("registered").get().clone()
}

#[test]
fn a_new_session_selects_the_nil_identifier() {
    let state = EditorState::new(Document::new());
    assert_eq!(state.selected_polygon_id, Uuid::nil().as_u128());
    assert_eq!(Uuid::from_u128(state.selected_polygon_id), Uuid::nil());
    assert_eq!(state.selected_polygon_id, 0);
    assert!(!state.polygon_selected);
    assert_eq!(state.record.undo_len(), 0);
    assert_eq!(state.record.redo_len(), 0);
    assert_eq!(state.record_state.editor.len(), 0);
}

#[test]
fn clearing_the_selection_selects_the_nil_identifier() {
    let id = Uuid::from_u128(0xfeed_beef).as_u128();
    let mut state = session(id);
    assert!(state.polygon_selected);
    assert_eq!(state.selected_polygon_id, id);
    state.clear_selection();
    assert!(!state.polygon_selected);
    assert_eq!(state.selected_polygon_id, Uuid::nil().as_u128());
}

#[test]
fn undo_restores_every_geometry_field_exactly() {
    for field in GEOMETRY_FIELDS {
        for text in ["150", "-3.25", "0", "+.5", "999999999999.999999", " 007 "] {
            let mut state = session(9);
            let before = stored(&state, 9, field);
            assert_eq!(update(&mut state, field, text), Ok(()));
            assert!(matches!(state.undo(), Ok(HistoryStep::Done(_))));
            assert_eq!(stored(&state, 9, field), before);
            for other in ALL_FIELDS {
                assert_eq!(stored(&state, 9, other), shape(9).get(other));
            }
        }
    }
}

#[test]
fn undo_restores_every_colour_channel_exactly() {
    for field in [
        FieldTag::Red,
        FieldTag::Green,
        FieldTag::Blue,
        FieldTag::StrokeRed,
        FieldTag::StrokeGreen,
        FieldTag::StrokeBlue,
    ] {
        let mut state = session(9);
        let before = stored(&state, 9, field);
        assert_eq!(update(&mut state, field, "17"), Ok(()));
        assert_eq!(stored(&state, 9, field), micros(66_667));
        assert_eq!(shown(&state, 9, field), "17");
        assert!(matches!(state.undo(), Ok(HistoryStep::Done(_))));
        assert_eq!(stored(&state, 9, field), before);
    }
}

#[test]
fn redo_after_undo_reproduces_the_value() {
    for field in ALL_FIELDS {
        let mut state = session(9);
        assert_eq!(update(&mut state, field, "42"), Ok(()));
        let written = stored(&state, 9, field);
        let text = shown(&state, 9, field);
        assert_eq!(text, "42");
        assert!(matches!(state.undo(), Ok(HistoryStep::Done(_))));
        assert_ne!(stored(&state, 9, field), written);
        assert!(matches!(state.redo(), Ok(HistoryStep::Done(_))));
        assert_eq!(stored(&state, 9, field), written);
        assert_eq!(shown(&state, 9, field), "42");
        assert_eq!(state.record.undo_len(), 1);
        assert_eq!(state.record.redo_len(), 0);
    }
}

#[test]
fn a_new_edit_after_undo_clears_the_redo_stack() {
    let mut state = session(9);
    assert_eq!(state.update_width("150"), Ok(()));
    assert_eq!(state.update_width("175"), Ok(()));
    assert!(matches!(state.undo(), Ok(HistoryStep::Done(_))));
    assert_eq!(state.record.redo_len(), 1);
    assert_eq!(state.update_height("60"), Ok(()));
    assert_eq!(state.record.redo_len(), 0);
    assert_eq!(state.record.undo_len(), 2);
    assert_eq!(state.redo(), Ok(HistoryStep::NothingToDo));
    assert_eq!(stored(&state, 9, FieldTag::Width), micros(150_000_000));
    assert_eq!(stored(&state, 9, FieldTag::Height), micros(60_000_000));
}

#[test]
fn undo_and_redo_on_empty_stacks_do_nothing() {
    let mut state = session(9);
    assert_eq!(state.undo(), Ok(HistoryStep::NothingToDo));
    assert_eq!(state.redo(), Ok(HistoryStep::NothingToDo));
    assert_eq!(state.record.undo_len(), 0);
    assert_eq!(state.record.redo_len(), 0);
    for field in ALL_FIELDS {
        assert_eq!(stored(&state, 9, field), shape(9).get(field));
        assert_eq!(shown(&state, 9, field), "");
    }
    assert_eq!(state.update_width("1"), Ok(()));
    assert_eq!(state.redo(), Ok(HistoryStep::NothingToDo));
    assert!(matches!(state.undo(), Ok(HistoryStep::Done(_))));
    assert_eq!(state.undo(), Ok(HistoryStep::NothingToDo));
}

#[test]
fn history_is_linear_and_unbounded() {
    let mut state = session(9);
    for i in 0..300 {
        assert_eq!(state.update_width(&i.to_string()), Ok(()));
    }
    assert_eq!(state.record.undo_len(), 300);
    for i in (0..300).rev() {
        assert_eq!(stored(&state, 9, FieldTag::Width), micros(i * 1_000_000));
        assert!(matches!(state.undo(), Ok(HistoryStep::Done(_))));
    }
    assert_eq!(stored(&state, 9, FieldTag::Width), micros(100_000_000));
    assert_eq!(state.record.redo_len(), 300);
    assert_eq!(state.undo(), Ok(HistoryStep::NothingToDo));
}

#[test]
fn a_parse_error_changes_nothing() {
    let mut state = session(9);
    assert_eq!(state.update_width("12a"), Err(EditError::ParseError));
    assert_eq!(state.update_height(""), Err(EditError::ParseError));
    assert_eq!(state.update_border_radius("7-"), Err(EditError::ParseError));
    assert_eq!(state.update_stroke_thickness("-"), Err(EditError::ParseError));
    assert_eq!(state.update_stroke_green("abc"), Err(EditError::ParseError));
    assert_eq!(state.update_stroke_red(" "), Err(EditError::ParseError));
    assert_eq!(state.update_stroke_blue("1e2"), Err(EditError::ParseError));
    assert_eq!(state.update_red("256"), Err(EditError::ParseError));
    assert_eq!(state.update_green("1.5"), Err(EditError::ParseError));
    assert_eq!(state.update_blue("-1"), Err(EditError::ParseError));
    assert_eq!(state.record.undo_len(), 0);
    assert_eq!(state.record.redo_len(), 0);
    for field in ALL_FIELDS {
        assert_eq!(stored(&state, 9, field), shape(9).get(field));
        assert_eq!(shown(&state, 9, field), "");
    }
    assert!(state.record_state.editor.take_geometry_updates().is_empty());
}

#[test]
fn a_parse_error_keeps_the_redo_stack() {
    let mut state = session(9);
    assert_eq!(state.update_stroke_green("40"), Ok(()));
    assert!(matches!(state.undo(), Ok(HistoryStep::Done(_))));
    let before = stored(&state, 9, FieldTag::StrokeGreen);
    let text = shown(&state, 9, FieldTag::StrokeGreen);
    assert_eq!(state.update_stroke_green("abc"), Err(EditError::ParseError));
    assert_eq!(stored(&state, 9, FieldTag::StrokeGreen), before);
    assert_eq!(shown(&state, 9, FieldTag::StrokeGreen), text);
    assert_eq!(state.record.undo_len(), 0);
    assert_eq!(state.record.redo_len(), 1);
}

#[test]
fn a_new_record_state_is_empty() {
    let mut target = RecordState::new();
    assert_eq!(target.editor.len(), 0);
    assert!(target.editor.take_geometry_updates().is_empty());
    assert!(target.value_signals.lookup(FieldTag::Width, 0).is_none());
}

#[test]
fn a_parse_error_comes_before_a_missing_shape() {
    let mut state = EditorState::new(Document::new());
    state.select_polygon(5);
    assert_eq!(state.update_width("x1"), Err(EditError::ParseError));
    assert_eq!(state.update_width("1"), Err(EditError::MissingEntity));
    assert_eq!(state.edit_field(6, FieldTag::Height, "1"), Err(EditError::MissingEntity));
}

#[test]
fn a_missing_cell_is_reported_after_the_document_was_written() {
    let mut doc = Document::new();
    assert!(doc.insert_shape(shape(9)));
    let mut state = EditorState::new(doc);
    state.select_polygon(9);
    assert_eq!(state.update_width("150"), Err(EditError::MissingSignal));
    assert_eq!(stored(&state, 9, FieldTag::Width), micros(150_000_000));
    assert_eq!(state.record.undo_len(), 0);
    assert_eq!(state.record.redo_len(), 0);
    assert!(state.record_state.value_signals.lookup(FieldTag::Width, 9).is_none());
}

#[test]
fn a_failed_undo_drops_the_command() {
    let mut state = session(9);
    assert_eq!(state.update_width("150"), Ok(()));
    assert_eq!(state.update_height("60"), Ok(()));
    assert!(state.record_state.editor.remove_shape(9).is_some());
    assert_eq!(state.undo(), Err(EditError::MissingEntity));
    assert_eq!(state.record.undo_len(), 1);
    assert_eq!(state.record.redo_len(), 0);
    assert_eq!(shown(&state, 9, FieldTag::Height), "60");
}

#[test]
fn a_failed_redo_drops_the_command() {
    let mut state = session(9);
    assert_eq!(state.update_width("150"), Ok(()));
    assert!(matches!(state.undo(), Ok(HistoryStep::Done(_))));
    assert!(state.record_state.editor.remove_shape(9).is_some());
    assert_eq!(state.redo(), Err(EditError::MissingEntity));
    assert_eq!(state.record.undo_len(), 0);
    assert_eq!(state.record.redo_len(), 0);
    assert_eq!(state.redo(), Ok(HistoryStep::NothingToDo));
}

#[test]
fn commands_keep_what_the_field_held() {
    let state = session(9);
    let made = PolygonEdit::new(&state.record_state, 9, FieldTag::Red, " 200 ");
    assert_eq!(
        made,
        Ok(PolygonEdit {
            polygon_id: 9,
            old_value: PolygonProperty::Red(128),
            new_value: PolygonProperty::Red(200),
            old_stored: micros(500_000),
        })
    );
    let made = PolygonEdit::new(&state.record_state, 9, FieldTag::StrokeThickness, "3.5");
    assert_eq!(
        made,
        Ok(PolygonEdit {
            polygon_id: 9,
            old_value: PolygonProperty::StrokeThickness(micros(2_500_000)),
            new_value: PolygonProperty::StrokeThickness(micros(3_500_000)),
            old_stored: micros(2_500_000),
        })
    );
    assert_eq!(
        PolygonEdit::new(&state.record_state, 10, FieldTag::Width, "1"),
        Err(EditError::MissingEntity)
    );
    assert_eq!(
        PolygonEdit::new(&state.record_state, 10, FieldTag::Width, "one1"),
        Err(EditError::ParseError)
    );
}

#[test]
fn commands_apply_and_revert_on_their_own() {
    let mut target = RecordState::new();
    assert!(target.editor.insert_shape(shape(3)));
    target.value_signals.register(FieldTag::Blue, 3, DisplayCell::new("255".to_string()));
    let command = PolygonEdit::new(&target, 3, FieldTag::Blue, "0").expect("valid");
    assert_eq!(command.edit(&mut target), Ok(()));
    assert_eq!(target.editor.get_field(3, FieldTag::Blue), Ok(micros(0)));
    assert_eq!(target.value_signals.lookup(FieldTag::Blue, 3).unwrap().get(), "0");
    assert_eq!(command.undo(&mut target), Ok(()));
    assert_eq!(target.editor.get_field(3, FieldTag::Blue), Ok(micros(1_000_000)));
    assert_eq!(target.value_signals.lookup(FieldTag::Blue, 3).unwrap().get(), "255");

    let mut history = HistoryStack::new();
    assert_eq!(history.commit(&mut target, command), Ok(()));
    assert_eq!(history.undo(&mut target), Ok(HistoryStep::Done(command)));
    assert_eq!(history.redo(&mut target), Ok(HistoryStep::Done(command)));
    assert_eq!(history.undo_len(), 1);
    assert_eq!(history.redo_len(), 0);
}

struct Recorded(PolygonEdit);

impl undo::Edit for Recorded {
    type Target = RecordState;
    type Output = Result<(), EditError>;

    fn edit(&mut self, target: &mut RecordState) -> Result<(), EditError> {
        self.0.edit(target)
    }

    fn undo(&mut self, target: &mut RecordState) -> Result<(), EditError> {
        self.0.undo(target)
    }
}

#[test]
fn successful_steps_agree_with_a_linear_record() {
    let fields = [FieldTag::Width, FieldTag::Red, FieldTag::StrokeThickness, FieldTag::Width];
    let texts = ["150", "200", "0.5", "175"];

    let mut state = session(9);
    let mut target = RecordState::new();
    assert!(target.editor.insert_shape(shape(9)));
    for field in ALL_FIELDS {
        target.value_signals.register(field, 9, DisplayCell::new(String::new()));
    }
    let mut record: undo::Record<Recorded> = undo::Record::new();

    let same = |state: &EditorState, target: &RecordState| {
        for field in ALL_FIELDS {
            assert_eq!(stored(state, 9, field), target.editor.get_field(9, field).unwrap());
            assert_eq!(
                &shown(state, 9, field),
                target.value_signals.lookup(field, 9).unwrap().get()
            );
        }
    };

    for (field, text) in fields.iter().zip(texts) {
        let command = PolygonEdit::new(&target, 9, *field, text).expect("valid");
        assert_eq!(record.edit(&mut target, Recorded(command)), Ok(()));
        assert_eq!(update(&mut state, *field, text), Ok(()));
        same(&state, &target);
    }
    for _ in 0..3 {
        assert_eq!(record.undo(&mut target), Some(Ok(())));
        assert!(matches!(state.undo(), Ok(HistoryStep::Done(_))));
        same(&state, &target);
    }
    assert_eq!(record.redo(&mut target), Some(Ok(())));
    assert!(matches!(state.redo(), Ok(HistoryStep::Done(_))));
    same(&state, &target);

    let command = PolygonEdit::new(&target, 9, FieldTag::Height, "33").expect("valid");
    assert_eq!(record.edit(&mut target, Recorded(command)), Ok(()));
    assert_eq!(state.update_height("33"), Ok(()));
    same(&state, &target);
    assert_eq!(record.redo(&mut target), None);
    assert_eq!(state.redo(), Ok(HistoryStep::NothingToDo));
    assert_eq!(record.head(), state.record.undo_len());
    assert_eq!(record.len() - record.head(), state.record.redo_len());

    while record.undo(&mut target).is_some() {
        assert!(matches!(state.undo(), Ok(HistoryStep::Done(_))));
        same(&state, &target);
    }
    assert_eq!(state.undo(), Ok(HistoryStep::NothingToDo));
    for field in ALL_FIELDS {
        assert_eq!(stored(&state, 9, field), shape(9).get(field));
    }
}

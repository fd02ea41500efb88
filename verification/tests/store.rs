use canvas_editor::document::{position_in, Document, GeometryUpdate};
use canvas_editor::error::EditError;
use canvas_editor::field::FieldTag;
use canvas_editor::icons::create_icon;
use canvas_editor::registry::{DisplayCell, ObservableRegistry};
use canvas_editor::shape::{Color, Shape, Stroke};
use canvas_editor::value::RawValue;

fn micros(m: i64) -> RawValue {
    RawValue { micros: m }
}

fn grey() -> Color {
    Color {
        red: micros(500_000),
        green: micros(500_000),
        blue: micros(500_000),
        alpha: micros(1_000_000),
    }
}

fn shape(id: u128, name: &str) -> Shape {
    Shape {
        id,
        name: name.to_string(),
        width: micros(100_000_000),
        height: micros(50_000_000),
        border_radius: micros(0),
        fill: grey(),
        stroke: Stroke { fill: grey(), thickness: micros(1_000_000) },
    }
}

fn document(ids: &[u128]) -> Document {
    let mut doc = Document::new();
    for id in ids {
        assert!(doc.insert_shape(shape(*id, "Shape")));
    }
    doc
}

#[test]
fn shapes_stack_in_the_order_of_insertion() {
    let doc = document(&[30, 10, 20]);
    assert_eq!(doc.len(), 3);
    assert_eq!(doc.layer_order(), &vec![30, 10, 20]);
    assert_eq!(doc.position_of(30), Some(0));
    assert_eq!(doc.position_of(20), Some(2));
    assert_eq!(doc.position_of(40), None);
    assert!(doc.contains(10));
    assert!(!doc.contains(11));
    assert_eq!(doc.shape(10).map(|s| s.name.as_str()), Some("Shape"));
    assert!(doc.shape(11).is_none());
}

#[test]
fn a_second_shape_with_the_same_identifier_is_refused() {
    let mut doc = document(&[1, 2]);
    let mut other = shape(1, "Other");
    other.width = micros(1);
    assert!(!doc.insert_shape(other));
    assert_eq!(doc.len(), 2);
    assert_eq!(doc.layer_order(), &vec![1, 2]);
    assert_eq!(doc.get_field(1, FieldTag::Width), Ok(micros(100_000_000)));
    assert_eq!(doc.shape(1).map(|s| s.name.as_str()), Some("Shape"));
}

#[test]
fn removing_a_shape_takes_it_out_of_the_order() {
    let mut doc = document(&[1, 2, 3]);
    let removed = doc.remove_shape(2).expect("held");
    assert_eq!(removed.id, 2);
    assert_eq!(doc.layer_order(), &vec![1, 3]);
    assert!(!doc.contains(2));
    assert!(doc.remove_shape(2).is_none());
    assert_eq!(doc.layer_order(), &vec![1, 3]);
    assert_eq!(doc.get_field(2, FieldTag::Width), Err(EditError::MissingEntity));
    assert!(doc.insert_shape(removed));
    assert_eq!(doc.layer_order(), &vec![1, 3, 2]);
}

#[test]
fn every_field_is_written_and_read_on_its_own() {
    let fields = [
        FieldTag::Width,
        FieldTag::Height,
        FieldTag::Red,
        FieldTag::Green,
        FieldTag::Blue,
        FieldTag::BorderRadius,
        FieldTag::StrokeThickness,
        FieldTag::StrokeRed,
        FieldTag::StrokeGreen,
        FieldTag::StrokeBlue,
    ];
    for (i, field) in fields.iter().enumerate() {
        let mut doc = document(&[1, 2]);
        let written = micros(1_000 + i as i64);
        assert_eq!(doc.set_field(1, *field, written), Ok(()));
        for other in fields {
            let expected = if other == *field { written } else { shape(1, "Shape").get(other) };
            assert_eq!(doc.get_field(1, other), Ok(expected));
            assert_eq!(doc.get_field(2, other), Ok(shape(2, "Shape").get(other)));
        }
        assert_eq!(doc.len(), 2);
        assert_eq!(doc.layer_order(), &vec![1, 2]);
        assert_eq!(doc.shape(1).map(|s| (s.id, s.name.as_str())), Some((1, "Shape")));
        assert_eq!(doc.shape(1).map(|s| s.fill.alpha), Some(micros(1_000_000)));
    }
}

#[test]
fn writing_to_a_missing_shape_changes_nothing() {
    let mut doc = document(&[1]);
    assert_eq!(doc.set_field(2, FieldTag::Width, micros(5)), Err(EditError::MissingEntity));
    assert_eq!(doc.get_field(1, FieldTag::Width), Ok(micros(100_000_000)));
    assert_eq!(doc.len(), 1);
    assert!(doc.take_geometry_updates().is_empty());
}

#[test]
fn geometry_writes_request_an_update_and_colour_writes_do_not() {
    let mut doc = document(&[1, 2]);
    assert_eq!(doc.set_field(1, FieldTag::Width, micros(7)), Ok(()));
    assert_eq!(doc.set_field(1, FieldTag::Red, micros(8)), Ok(()));
    assert_eq!(doc.set_field(2, FieldTag::StrokeThickness, micros(9)), Ok(()));
    assert_eq!(doc.set_field(2, FieldTag::StrokeBlue, micros(10)), Ok(()));
    assert_eq!(doc.set_field(1, FieldTag::BorderRadius, micros(11)), Ok(()));
    assert_eq!(doc.set_field(1, FieldTag::Height, micros(12)), Ok(()));
    assert_eq!(
        doc.take_geometry_updates(),
        vec![
            GeometryUpdate { shape: 1, field: FieldTag::Width, value: micros(7) },
            GeometryUpdate { shape: 2, field: FieldTag::StrokeThickness, value: micros(9) },
            GeometryUpdate { shape: 1, field: FieldTag::BorderRadius, value: micros(11) },
            GeometryUpdate { shape: 1, field: FieldTag::Height, value: micros(12) },
        ]
    );
    assert!(doc.take_geometry_updates().is_empty());
    assert_eq!(doc.get_field(1, FieldTag::Width), Ok(micros(7)));
}

#[test]
fn reorder_moves_one_identifier_and_keeps_the_others_in_order() {
    let mut doc = document(&[1, 2, 3, 4, 5]);
    assert_eq!(doc.reorder(0, 4), Ok(()));
    assert_eq!(doc.layer_order(), &vec![2, 3, 4, 5, 1]);
    assert_eq!(doc.reorder(4, 0), Ok(()));
    assert_eq!(doc.layer_order(), &vec![1, 2, 3, 4, 5]);
    assert_eq!(doc.reorder(1, 3), Ok(()));
    assert_eq!(doc.layer_order(), &vec![1, 3, 4, 2, 5]);
    assert_eq!(doc.reorder(3, 1), Ok(()));
    assert_eq!(doc.layer_order(), &vec![1, 2, 3, 4, 5]);
    assert_eq!(doc.reorder(2, 2), Ok(()));
    assert_eq!(doc.layer_order(), &vec![1, 2, 3, 4, 5]);
    assert_eq!(doc.len(), 5);
    for id in 1..=5u128 {
        assert!(doc.contains(id));
    }
}

#[test]
fn reorder_outside_the_order_is_refused() {
    let mut doc = document(&[1, 2, 3]);
    assert_eq!(doc.reorder(3, 0), Err(EditError::OutOfRange));
    assert_eq!(doc.reorder(0, 3), Err(EditError::OutOfRange));
    assert_eq!(doc.reorder(usize::MAX, usize::MAX), Err(EditError::OutOfRange));
    assert_eq!(doc.layer_order(), &vec![1, 2, 3]);
    let mut empty = Document::new();
    assert_eq!(empty.reorder(0, 0), Err(EditError::OutOfRange));
}

#[test]
fn the_first_position_is_found() {
    assert_eq!(position_in(&vec![5, 6, 5, 7], 5), Some(0));
    assert_eq!(position_in(&vec![5, 6, 5, 7], 7), Some(3));
    assert_eq!(position_in(&vec![5, 6, 5, 7], 8), None);
    assert_eq!(position_in(&vec![], 8), None);
}

#[test]
fn cells_are_registered_read_and_written() {
    let mut registry = ObservableRegistry::new();
    assert!(!registry.contains(FieldTag::Width, 1));
    assert!(registry.lookup(FieldTag::Width, 1).is_none());
    registry.register(FieldTag::Width, 1, DisplayCell::new("100".to_string()));
    registry.register(FieldTag::Height, 1, DisplayCell::new("50".to_string()));
    registry.register(FieldTag::Width, 2, DisplayCell::new("7".to_string()));
    assert!(registry.contains(FieldTag::Width, 1));
    assert!(!registry.contains(FieldTag::Red, 1));
    assert!(!registry.contains(FieldTag::Height, 2));
    assert_eq!(registry.lookup(FieldTag::Width, 1).unwrap().get(), "100");
    assert_eq!(registry.lookup(FieldTag::Height, 1).unwrap().get(), "50");
    assert_eq!(registry.lookup(FieldTag::Width, 2).unwrap().get(), "7");

    assert_eq!(registry.write(FieldTag::Width, 1, "150".to_string()), Ok(()));
    assert_eq!(registry.lookup(FieldTag::Width, 1).unwrap().get(), "150");
    assert_eq!(registry.lookup(FieldTag::Height, 1).unwrap().get(), "50");
    assert_eq!(registry.lookup(FieldTag::Width, 2).unwrap().get(), "7");

    registry.register(FieldTag::Width, 1, DisplayCell::new("again".to_string()));
    assert_eq!(registry.lookup(FieldTag::Width, 1).unwrap().get(), "again");
}

#[test]
fn writing_to_an_unregistered_cell_is_a_missing_signal() {
    let mut registry = ObservableRegistry::new();
    registry.register(FieldTag::Width, 1, DisplayCell::new("100".to_string()));
    assert_eq!(registry.write(FieldTag::Height, 1, "5".to_string()), Err(EditError::MissingSignal));
    assert_eq!(registry.write(FieldTag::Width, 2, "5".to_string()), Err(EditError::MissingSignal));
    assert!(!registry.contains(FieldTag::Height, 1));
    assert!(!registry.contains(FieldTag::Width, 2));
    assert_eq!(registry.lookup(FieldTag::Width, 1).unwrap().get(), "100");
}

#[test]
fn every_field_has_a_cell_of_its_own() {
    let fields = [
        FieldTag::Width,
        FieldTag::Height,
        FieldTag::Red,
        FieldTag::Green,
        FieldTag::Blue,
        FieldTag::BorderRadius,
        FieldTag::StrokeThickness,
        FieldTag::StrokeRed,
        FieldTag::StrokeGreen,
        FieldTag::StrokeBlue,
    ];
    let mut registry = ObservableRegistry::new();
    for (i, field) in fields.iter().enumerate() {
        registry.register(*field, 4, DisplayCell::new(i.to_string()));
    }
    for (i, field) in fields.iter().enumerate() {
        assert_eq!(registry.lookup(*field, 4).unwrap().get(), &i.to_string());
    }
}

#[test]
fn a_cell_holds_the_text_it_was_given() {
    let mut cell = DisplayCell::new("a".to_string());
    assert_eq!(cell.get(), "a");
    cell.set("b".to_string());
    assert_eq!(cell.get(), "b");
}

#[test]
fn icons_are_found_by_name() {
    assert_eq!(create_icon("plus"), "assets/plus-thin.svg");
    assert_eq!(create_icon("minus"), "assets/minus-thin.svg");
    assert_eq!(create_icon("windmill"), "assets/windmill-thin.svg");
    assert_eq!(create_icon("gear"), "assets/gear-six-thin.svg");
    assert_eq!(create_icon("brush"), "assets/paint-brush-thin.svg");
    assert_eq!(create_icon("shapes"), "assets/shapes-thin.svg");
    assert_eq!(create_icon("arrow-left"), "assets/arrow-left-thin.svg");
    assert_eq!(create_icon("triangle"), "");
    assert_eq!(create_icon(""), "");
    assert_eq!(create_icon("Plus"), "");
    assert_eq!(create_icon("plus "), "");
}

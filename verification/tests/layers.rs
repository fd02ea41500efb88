use canvas_editor::document::Document;
use canvas_editor::error::EditError;
use canvas_editor::layers::{
    layer_position, DragOutcome, DragState, Layer, LayerKind, LayerOrderSynchronizer,
};
use canvas_editor::shape::{Color, Shape, Stroke};
use canvas_editor::value::RawValue;

fn unit() -> RawValue {
    RawValue { micros: 1_000_000 }
}

fn shape(id: u128, name: &str) -> Shape {
    let white = Color { red: unit(), green: unit(), blue: unit(), alpha: unit() };
    Shape {
        id,
        name: name.to_string(),
        width: unit(),
        height: unit(),
        border_radius: unit(),
        fill: white,
        stroke: Stroke { fill: white, thickness: unit() },
    }
}

fn layer(id: u128, name: &str) -> Layer {
    Layer { instance_id: id, instance_name: name.to_string(), instance_kind: LayerKind::Polygon }
}

fn setup(ids: &[u128]) -> (LayerOrderSynchronizer, Document) {
    let mut doc = Document::new();
    for id in ids {
        assert!(doc.insert_shape(shape(*id, &format!("shape {id}"))));
    }
    let mut sync = LayerOrderSynchronizer::new();
    sync.refresh(&doc);
    (sync, doc)
}

fn ids(sync: &LayerOrderSynchronizer) -> Vec<u128> {
    sync.layers.iter().map(|layer| layer.instance_id).collect()
}

#[test]
fn a_layer_shows_the_identifier_and_name_of_its_shape() {
    let made = Layer::from_polygon_config(&shape(77, "Square"));
    assert_eq!(made, layer(77, "Square"));
    assert_eq!(made.instance_kind, LayerKind::Polygon);
}

#[test]
fn refresh_lists_the_shapes_in_stacking_order() {
    let (mut sync, mut doc) = setup(&[3, 1, 2]);
    assert_eq!(sync.layers, vec![layer(3, "shape 3"), layer(1, "shape 1"), layer(2, "shape 2")]);
    assert_eq!(sync.drag, DragState::Idle);
    assert_eq!(doc.reorder(0, 2), Ok(()));
    assert!(doc.remove_shape(2).is_some());
    sync.drag_start(1);
    sync.refresh(&doc);
    assert_eq!(ids(&sync), vec![1, 3]);
    assert_eq!(sync.drag, DragState::Dragging(1));
}

#[test]
fn a_new_synchronizer_is_empty_and_idle() {
    let sync = LayerOrderSynchronizer::new();
    assert!(sync.layers.is_empty());
    assert_eq!(sync.drag, DragState::Idle);
}

#[test]
fn drag_over_without_a_drag_does_nothing() {
    let (mut sync, mut doc) = setup(&[1, 2, 3]);
    assert_eq!(sync.drag_over(&mut doc, 3), Ok(DragOutcome::Unchanged));
    assert_eq!(sync.drag_over(&mut doc, 99), Ok(DragOutcome::Unchanged));
    assert_eq!(ids(&sync), vec![1, 2, 3]);
    assert_eq!(doc.layer_order(), &vec![1, 2, 3]);
}

#[test]
fn each_drag_over_moves_at_once() {
    let (mut sync, mut doc) = setup(&[1, 2, 3, 4]);
    sync.drag_start(4);
    assert_eq!(sync.drag_over(&mut doc, 3), Ok(DragOutcome::Moved { from: 3, to: 2 }));
    assert_eq!(ids(&sync), vec![1, 2, 4, 3]);
    assert_eq!(doc.layer_order(), &vec![1, 2, 4, 3]);
    assert_eq!(sync.drag_over(&mut doc, 1), Ok(DragOutcome::Moved { from: 2, to: 0 }));
    assert_eq!(ids(&sync), vec![4, 1, 2, 3]);
    assert_eq!(doc.layer_order(), &vec![4, 1, 2, 3]);
    assert_eq!(sync.drag_over(&mut doc, 2), Ok(DragOutcome::Moved { from: 0, to: 2 }));
    assert_eq!(ids(&sync), vec![1, 2, 4, 3]);
    assert_eq!(doc.layer_order(), &vec![1, 2, 4, 3]);
    assert_eq!(sync.drag, DragState::Dragging(4));
    sync.drag_end();
    assert_eq!(sync.drag_over(&mut doc, 1), Ok(DragOutcome::Unchanged));
    assert_eq!(doc.layer_order(), &vec![1, 2, 4, 3]);
    assert!(doc.take_geometry_updates().is_empty());
}

#[test]
fn an_unknown_identifier_skips_the_step() {
    let (mut sync, mut doc) = setup(&[1, 2, 3]);
    sync.drag_start(1);
    assert_eq!(sync.drag_over(&mut doc, 9), Err(EditError::OutOfRange));
    sync.drag_start(9);
    assert_eq!(sync.drag_over(&mut doc, 1), Err(EditError::OutOfRange));
    assert_eq!(ids(&sync), vec![1, 2, 3]);
    assert_eq!(doc.layer_order(), &vec![1, 2, 3]);
}

#[test]
fn lists_out_of_step_are_left_alone() {
    let (mut sync, mut doc) = setup(&[1, 2, 3]);
    assert_eq!(doc.reorder(0, 2), Ok(()));
    assert_eq!(doc.layer_order(), &vec![2, 3, 1]);
    sync.drag_start(1);
    assert_eq!(sync.drag_over(&mut doc, 2), Err(EditError::OutOfRange));
    assert_eq!(ids(&sync), vec![1, 2, 3]);
    assert_eq!(doc.layer_order(), &vec![2, 3, 1]);

    assert!(doc.remove_shape(1).is_some());
    assert_eq!(sync.drag_over(&mut doc, 3), Err(EditError::OutOfRange));
    assert_eq!(ids(&sync), vec![1, 2, 3]);
    assert_eq!(doc.layer_order(), &vec![2, 3]);

    sync.refresh(&doc);
    sync.drag_start(3);
    assert_eq!(sync.drag_over(&mut doc, 2), Ok(DragOutcome::Moved { from: 1, to: 0 }));
    assert_eq!(ids(&sync), vec![3, 2]);
    assert_eq!(doc.layer_order(), &vec![3, 2]);
}

#[test]
fn the_first_layer_with_an_identifier_is_found() {
    let layers = vec![layer(1, "a"), layer(2, "b"), layer(1, "c")];
    assert_eq!(layer_position(&layers, 1), Some(0));
    assert_eq!(layer_position(&layers, 2), Some(1));
    assert_eq!(layer_position(&layers, 3), None);
}

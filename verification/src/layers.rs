//! The layer list of the user interface, kept in step with the stacking order
//! of the document while an entry is dragged.

use vstd::prelude::*;
use crate::document::{moved, Document, DocumentView};
use crate::error::EditError;
use crate::ident::ShapeId;
use crate::shape::Shape;

verus! {

/// What kind of entity a layer shows.
#[derive(Debug, Copy, Clone, PartialEq, Eq, Structural)]
pub enum LayerKind {
    Polygon,
}

/// One entry of the layer list.
#[derive(Clone, Debug, PartialEq, Eq)]
pub struct Layer {
    pub instance_id: ShapeId,
    pub instance_name: String,
    pub instance_kind: LayerKind,
}

impl Layer {
    /// The layer entry that shows `config`: its identifier and its name.
    pub fn from_polygon_config(config: &Shape) -> (layer: Layer)
        ensures
            layer.instance_id == config.id,
            layer.instance_name == config.name,
            layer.instance_kind == LayerKind::Polygon,
    {
        Layer {
            instance_id: config.id,
            instance_name: config.name.clone(),
            instance_kind: LayerKind::Polygon,
        }
    }
}

/// The identifiers of the entries of a layer list, in the order of the list.
pub open spec fn layer_ids(layers: Seq<Layer>) -> Seq<ShapeId> {
    layers.map_values(|layer: Layer| layer.instance_id)
}

/// Where a drag gesture stands.
#[derive(Clone, Copy, Debug, PartialEq, Eq, Structural)]
pub enum DragState {
    /// No entry is being dragged.
    Idle,
    /// The entry with this identifier is being dragged.
    Dragging(ShapeId),
}

/// What a drag-over event did.
#[derive(Clone, Copy, Debug, PartialEq, Eq, Structural)]
pub enum DragOutcome {
    /// Nothing is being dragged, or the dragged entry hovers over itself:
    /// nothing moved.
    Unchanged,
    /// The dragged entry was taken from position `from` and put at position `to`,
    /// in the layer list and in the stacking order alike.
    Moved { from: usize, to: usize },
}

/// The positions at which a drag of `dragged` over `target` moves: the first
/// position of each in the layer list, given that both occur there and that the
/// stacking order holds the same two identifiers at the same two positions.
pub open spec fn drag_positions(
    ids: Seq<ShapeId>,
    order: Seq<ShapeId>,
    dragged: ShapeId,
    target: ShapeId,
) -> Option<(int, int)> {
    match (ids.index_of_first(dragged), ids.index_of_first(target)) {
        (Some(from), Some(to)) => if from < order.len() && to < order.len() && order[from]
            == dragged && order[to] == target {
            Some((from, to))
        } else {
            None
        },
        _ => None,
    }
}

/// Moving an entry of a layer list moves its identifier in the list of
/// identifiers in the same way.
pub proof fn lemma_layer_ids_moved(layers: Seq<Layer>, from: int, to: int)
    requires
        0 <= from < layers.len(),
        0 <= to < layers.len(),
    ensures
        layer_ids(moved(layers, from, to)) == moved(layer_ids(layers), from, to),
{
    assert(layer_ids(moved(layers, from, to)) =~= moved(layer_ids(layers), from, to));
}

/// The layer list and the state of the drag gesture.
pub struct LayerOrderSynchronizer {
    pub layers: Vec<Layer>,
    pub drag: DragState,
}

impl LayerOrderSynchronizer {
    /// An empty layer list with no drag under way.
    pub fn new() -> (sync: LayerOrderSynchronizer)
        ensures
            sync.layers@ == Seq::<Layer>::empty(),
            sync.drag == DragState::Idle,
    {
        LayerOrderSynchronizer { layers: Vec::new(), drag: DragState::Idle }
    }

    /// Rebuilds the layer list from the document: one entry for each shape, in
    /// stacking order. Afterwards the list and the order are in step.
    pub fn refresh(&mut self, doc: &Document)
        requires
            doc@.wf(),
        ensures
            final(self).drag == old(self).drag,
            layer_ids(final(self).layers@) == doc@.order,
            forall|i: int|
                0 <= i < doc@.order.len() ==> (#[trigger] final(self).layers@[i]).instance_name
                    == doc@.shapes[doc@.order[i]].name && final(self).layers@[i].instance_kind
                    == LayerKind::Polygon,
    {
        let order = doc.layer_order();
        let mut layers: Vec<Layer> = Vec::new();
        let mut i: usize = 0;
        while i < order.len()
            invariant
                doc@.wf(),
                order@ == doc@.order,
                i <= order.len(),
                layers@.len() == i,
                forall|j: int|
                    0 <= j < i ==> (#[trigger] layers@[j]).instance_id == order@[j] && layers@[j].instance_name
                        == doc@.shapes[order@[j]].name && layers@[j].instance_kind
                        == LayerKind::Polygon,
            decreases order.len() - i,
        {
            let id: ShapeId = order[i];
            assert(doc@.order.contains(id));
            assert(doc@.shapes.contains_key(id));
            match doc.shape(id) {
                Some(shape) => {
                    assert(shape.id == id);
                    layers.push(Layer::from_polygon_config(shape));
                },
                None => {},
            }
            i += 1;
        }
        assert(layer_ids(layers@) =~= doc@.order);
        self.layers = layers;
    }

    /// A drag begins: remembers which entry is dragged.
    pub fn drag_start(&mut self, dragged: ShapeId)
        ensures
            final(self).drag == DragState::Dragging(dragged),
            final(self).layers == old(self).layers,
    {
        self.drag = DragState::Dragging(dragged);
    }

    /// The drag ends. Nothing moves.
    pub fn drag_end(&mut self)
        ensures
            final(self).drag == DragState::Idle,
            final(self).layers == old(self).layers,
    {
        self.drag = DragState::Idle;
    }

    /// The dragged entry hovers over the entry `target`.
    ///
    /// With no drag under way, or over the dragged entry itself, nothing happens.
    /// Otherwise the dragged entry is taken out of the layer list and out of the
    /// stacking order of `doc` and put back, in both, at the position of `target`.
    /// If one of the two identifiers is not in the layer list, or the stacking
    /// order does not hold them at the same positions, the step fails with
    /// `OutOfRange` and neither list changes. A list and an order that were in
    /// step are in step afterwards.
    pub fn drag_over(&mut self, doc: &mut Document, target: ShapeId) -> (result: Result<
        DragOutcome,
        EditError,
    >)
        requires
            old(doc)@.wf(),
        ensures
            final(doc)@.wf(),
            final(self).drag == old(self).drag,
            final(doc)@.shapes == old(doc)@.shapes,
            final(doc)@.geometry_updates == old(doc)@.geometry_updates,
            match old(self).drag {
                DragState::Idle => unchanged(*old(self), *final(self), old(doc)@, final(doc)@)
                    && result == Ok::<DragOutcome, EditError>(DragOutcome::Unchanged),
                DragState::Dragging(dragged) => if dragged == target {
                    unchanged(*old(self), *final(self), old(doc)@, final(doc)@) && result == Ok::<
                        DragOutcome,
                        EditError,
                    >(DragOutcome::Unchanged)
                } else {
                    match drag_positions(
                        layer_ids(old(self).layers@),
                        old(doc)@.order,
                        dragged,
                        target,
                    ) {
                        Some((from, to)) => {
                            &&& result == Ok::<DragOutcome, EditError>(
                                DragOutcome::Moved { from: from as usize, to: to as usize },
                            )
                            &&& final(self).layers@ == moved(old(self).layers@, from, to)
                            &&& final(doc)@.order == moved(old(doc)@.order, from, to)
                        },
                        None => unchanged(*old(self), *final(self), old(doc)@, final(doc)@)
                            && result == Err::<DragOutcome, EditError>(EditError::OutOfRange),
                    }
                },
            },
            layer_ids(old(self).layers@) == old(doc)@.order ==> layer_ids(final(self).layers@)
                == final(doc)@.order,
    {
        let dragged: ShapeId = match self.drag {
            DragState::Idle => {
                return Ok(DragOutcome::Unchanged);
            },
            DragState::Dragging(id) => id,
        };
        if dragged == target {
            return Ok(DragOutcome::Unchanged);
        }
        let from: usize = match layer_position(&self.layers, dragged) {
            Some(i) => i,
            None => {
                return Err(EditError::OutOfRange);
            },
        };
        let to: usize = match layer_position(&self.layers, target) {
            Some(i) => i,
            None => {
                return Err(EditError::OutOfRange);
            },
        };
        proof {
            layer_ids(self.layers@).index_of_first_ensures(dragged);
            layer_ids(self.layers@).index_of_first_ensures(target);
        }
        let order = doc.layer_order();
        if from >= order.len() || to >= order.len() || order[from] != dragged || order[to]
            != target {
            return Err(EditError::OutOfRange);
        }
        match doc.reorder(from, to) {
            Ok(()) => {
                let item: Layer = self.layers.remove(from);
                self.layers.insert(to, item);
                proof {
                    lemma_layer_ids_moved(old(self).layers@, from as int, to as int);
                }
                Ok(DragOutcome::Moved { from, to })
            },
            Err(e) => Err(e),
        }
    }
}

/// Neither the layer list nor the stacking order changed.
pub open spec fn unchanged(
    before: LayerOrderSynchronizer,
    after: LayerOrderSynchronizer,
    doc_before: DocumentView,
    doc_after: DocumentView,
) -> bool {
    after.layers@ == before.layers@ && doc_after == doc_before
}

/// The first position in `layers` of the entry with identifier `id`.
pub fn layer_position(layers: &Vec<Layer>, id: ShapeId) -> (found: Option<usize>)
    ensures
        match found {
            Some(i) => layer_ids(layers@).index_of_first(id) == Some(i as int),
            None => layer_ids(layers@).index_of_first(id).is_none(),
        },
{
    let mut i: usize = 0;
    while i < layers.len()
        invariant
            i <= layers.len(),
            forall|j: int| 0 <= j < i ==> layer_ids(layers@)[j] != id,
        decreases layers.len() - i,
    {
        if layers[i].instance_id == id {
            proof {
                assert(layer_ids(layers@)[i as int] == id);
                layer_ids(layers@).index_of_first_ensures(id);
            }
            return Some(i);
        }
        i += 1;
    }
    proof {
        layer_ids(layers@).index_of_first_ensures(id);
    }
    None
}

} // verus!

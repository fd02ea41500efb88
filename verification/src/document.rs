//! The document store: the shapes and their stacking order.

use std::collections::HashMap;
use vstd::prelude::*;
use crate::error::EditError;
use crate::field::FieldTag;
use crate::ident::ShapeId;
use crate::shape::Shape;
use crate::value::RawValue;

verus! {

broadcast use vstd::std_specs::hash::group_hash_axioms;

/// A request to rebuild the geometry of a shape after one of its geometry
/// fields was written. The store records the request at the moment of the
/// write; whoever draws the shapes takes the requests and carries them out.
#[derive(Clone, Copy, Debug, PartialEq, Eq, Structural)]
pub struct GeometryUpdate {
    pub shape: ShapeId,
    pub field: FieldTag,
    pub value: RawValue,
}

/// What a document holds, as mathematics: the shapes by identifier, the
/// identifiers from the bottom of the stack to the top, and the geometry
/// updates that were requested and not yet taken.
pub struct DocumentView {
    pub shapes: Map<ShapeId, Shape>,
    pub order: Seq<ShapeId>,
    pub geometry_updates: Seq<GeometryUpdate>,
}

impl DocumentView {
    /// The stacking order is a permutation of the identifiers of the shapes:
    /// no identifier occurs twice, every ordered identifier has its shape, every
    /// shape is ordered, and every shape is filed under its own identifier.
    pub open spec fn wf(self) -> bool {
        &&& self.order.no_duplicates()
        &&& forall|id: ShapeId| #[trigger] self.shapes.contains_key(id) <==> self.order.contains(id)
        &&& forall|id: ShapeId|
            self.shapes.contains_key(id) ==> (#[trigger] self.shapes[id]).id == id
    }

    /// The stored value of field `tag` of shape `id`, if there is such a shape.
    pub open spec fn field(self, id: ShapeId, tag: FieldTag) -> Option<RawValue> {
        if self.shapes.contains_key(id) {
            Some(self.shapes[id].field(tag))
        } else {
            None
        }
    }

    /// The document after field `tag` of shape `id` was set to `value`: the one
    /// field is replaced, and for a geometry field one update is requested.
    pub open spec fn set_field(self, id: ShapeId, tag: FieldTag, value: RawValue) -> DocumentView {
        DocumentView {
            shapes: self.shapes.insert(id, self.shapes[id].with_field(tag, value)),
            order: self.order,
            geometry_updates: if tag.color() {
                self.geometry_updates
            } else {
                self.geometry_updates.push(GeometryUpdate { shape: id, field: tag, value })
            },
        }
    }

    /// The document after the identifier at position `from` was taken out of the
    /// order and put back at position `to`.
    pub open spec fn reorder(self, from: int, to: int) -> DocumentView {
        DocumentView { order: moved(self.order, from, to), ..self }
    }

    /// The document after `shape` was added on top of the stack.
    pub open spec fn insert_shape(self, shape: Shape) -> DocumentView {
        DocumentView {
            shapes: self.shapes.insert(shape.id, shape),
            order: self.order.push(shape.id),
            ..self
        }
    }

    /// The document after shape `id` was taken out.
    pub open spec fn remove_shape(self, id: ShapeId) -> DocumentView {
        DocumentView {
            shapes: self.shapes.remove(id),
            order: self.order.remove_value(id),
            ..self
        }
    }
}

/// The sequence after the entry at position `from` was removed and inserted
/// again at position `to`; the other entries keep their relative order.
pub open spec fn moved<T>(s: Seq<T>, from: int, to: int) -> Seq<T> {
    s.remove(from).insert(to, s[from])
}

/// Moving an entry keeps the length, puts the entry at its new position, and
/// neither adds, drops nor repeats anything.
pub proof fn lemma_moved<T>(s: Seq<T>, from: int, to: int)
    requires
        0 <= from < s.len(),
        0 <= to < s.len(),
    ensures
        moved(s, from, to).len() == s.len(),
        moved(s, from, to)[to] == s[from],
        forall|x: T| moved(s, from, to).contains(x) <==> s.contains(x),
        s.no_duplicates() ==> moved(s, from, to).no_duplicates(),
        moved(s, from, to).remove(to) == s.remove(from),
{
    let r = s.remove(from);
    let m = moved(s, from, to);
    let x0 = s[from];
    assert(m.len() == s.len());
    assert(m[to] == x0);
    assert(m.remove(to) =~= r);
    assert forall|x: T| m.contains(x) <==> s.contains(x) by {
        if m.contains(x) {
            let k = choose|k: int| 0 <= k < m.len() && m[k] == x;
            if k < to {
                assert(r[k] == x);
                assert(s[if k < from { k } else { k + 1 }] == x);
            } else if k == to {
                assert(s[from] == x);
            } else {
                assert(r[k - 1] == x);
                assert(s[if k - 1 < from { k - 1 } else { k }] == x);
            }
        }
        if s.contains(x) {
            let k = choose|k: int| 0 <= k < s.len() && s[k] == x;
            if k == from {
                assert(m[to] == x);
            } else {
                let j = if k < from { k } else { k - 1 };
                assert(r[j] == x);
                assert(m[if j < to { j } else { j + 1 }] == x);
            }
        }
    }
    if s.no_duplicates() {
        assert forall|i: int, j: int| 0 <= i < m.len() && 0 <= j < m.len() && i != j implies m[i]
            != m[j] by {
            let si = if i == to { from } else {
                let ri = if i < to { i } else { i - 1 };
                if ri < from { ri } else { ri + 1 }
            };
            let sj = if j == to { from } else {
                let rj = if j < to { j } else { j - 1 };
                if rj < from { rj } else { rj + 1 }
            };
            assert(m[i] == s[si]);
            assert(m[j] == s[sj]);
            assert(si != sj);
        }
    }
}

/// The canonical store of shapes and of their stacking order. It is changed
/// only through the operations below, each of which keeps the order a
/// permutation of the identifiers of the shapes it holds.
pub struct Document {
    shapes: HashMap<ShapeId, Shape>,
    layer_list: Vec<ShapeId>,
    geometry_updates: Vec<GeometryUpdate>,
}

impl View for Document {
    type V = DocumentView;

    closed spec fn view(&self) -> DocumentView {
        DocumentView {
            shapes: self.shapes@,
            order: self.layer_list@,
            geometry_updates: self.geometry_updates@,
        }
    }
}

impl Document {
    /// A document without shapes.
    pub fn new() -> (doc: Document)
        ensures
            doc@.wf(),
            doc@.shapes == Map::<ShapeId, Shape>::empty(),
            doc@.order == Seq::<ShapeId>::empty(),
            doc@.geometry_updates == Seq::<GeometryUpdate>::empty(),
    {
        let doc = Document {
            shapes: HashMap::new(),
            layer_list: Vec::new(),
            geometry_updates: Vec::new(),
        };
        assert(doc@.order.no_duplicates());
        doc
    }

    /// Number of shapes.
    pub fn len(&self) -> (n: usize)
        ensures
            n == self@.order.len(),
    {
        self.layer_list.len()
    }

    /// Whether the document holds shape `id`.
    pub fn contains(&self, id: ShapeId) -> (found: bool)
        ensures
            found == self@.shapes.contains_key(id),
    {
        self.shapes.contains_key(&id)
    }

    /// The shape with identifier `id`, if the document holds it.
    pub fn shape(&self, id: ShapeId) -> (found: Option<&Shape>)
        ensures
            match found {
                Some(shape) => self@.shapes.contains_key(id) && *shape == self@.shapes[id],
                None => !self@.shapes.contains_key(id),
            },
    {
        self.shapes.get(&id)
    }

    /// The identifiers from the bottom of the stack to the top.
    pub fn layer_order(&self) -> (order: &Vec<ShapeId>)
        ensures
            order@ == self@.order,
    {
        &self.layer_list
    }

    /// The position of shape `id` in the stacking order.
    pub fn position_of(&self, id: ShapeId) -> (found: Option<usize>)
        ensures
            match found {
                Some(i) => self@.order.index_of_first(id) == Some(i as int),
                None => self@.order.index_of_first(id).is_none(),
            },
    {
        position_in(&self.layer_list, id)
    }

    /// Reads the stored value of field `tag` of shape `id`. Fails with
    /// `MissingEntity` exactly when the document holds no such shape.
    pub fn get_field(&self, id: ShapeId, tag: FieldTag) -> (result: Result<RawValue, EditError>)
        ensures
            match self@.field(id, tag) {
                Some(value) => result == Ok::<RawValue, EditError>(value),
                None => result == Err::<RawValue, EditError>(EditError::MissingEntity),
            },
    {
        match self.shapes.get(&id) {
            Some(shape) => Ok(shape.get(tag)),
            None => Err(EditError::MissingEntity),
        }
    }

    /// Writes `value` into field `tag` of shape `id`, and for a geometry field
    /// records the request to rebuild the shape's geometry. Fails with
    /// `MissingEntity` exactly when the document holds no such shape, and then
    /// changes nothing. The shapes, their identifiers and their order stay.
    pub fn set_field(&mut self, id: ShapeId, tag: FieldTag, value: RawValue) -> (result: Result<
        (),
        EditError,
    >)
        requires
            old(self)@.wf(),
        ensures
            final(self)@.wf(),
            final(self)@.order == old(self)@.order,
            final(self)@.shapes.dom() == old(self)@.shapes.dom(),
            old(self)@.shapes.contains_key(id) ==> result == Ok::<(), EditError>(())
                && final(self)@ == old(self)@.set_field(id, tag, value),
            !old(self)@.shapes.contains_key(id) ==> result == Err::<(), EditError>(
                EditError::MissingEntity,
            ) && final(self)@ == old(self)@,
    {
        match self.shapes.remove(&id) {
            Some(shape) => {
                let mut shape = shape;
                shape.set(tag, value);
                self.shapes.insert(id, shape);
                if !tag.is_color() {
                    self.geometry_updates.push(GeometryUpdate { shape: id, field: tag, value });
                }
                proof {
                    let before = old(self)@;
                    let after = before.set_field(id, tag, value);
                    assert(self@.shapes =~= after.shapes);
                    assert(self@.shapes.dom() =~= before.shapes.dom());
                    assert(self@.geometry_updates =~= after.geometry_updates);
                    assert forall|k: ShapeId| #[trigger]
                        self@.shapes.contains_key(k) <==> self@.order.contains(k) by {
                        assert(before.shapes.contains_key(k) <==> before.order.contains(k));
                    }
                    assert forall|k: ShapeId| self@.shapes.contains_key(k) implies (
                    #[trigger] self@.shapes[k]).id == k by {
                        assert(before.shapes.contains_key(k));
                        assert(before.shapes[k].id == k);
                    }
                }
                Ok(())
            },
            None => {
                assert(self@.shapes =~= old(self)@.shapes);
                Err(EditError::MissingEntity)
            },
        }
    }

    /// Takes the identifier at position `old_index` out of the stacking order and
    /// puts it back at position `new_index`; all other identifiers keep their
    /// relative order. Fails with `OutOfRange` exactly when one of the positions
    /// is not a position of the order, and then changes nothing.
    pub fn reorder(&mut self, old_index: usize, new_index: usize) -> (result: Result<(), EditError>)
        requires
            old(self)@.wf(),
        ensures
            final(self)@.wf(),
            old_index < old(self)@.order.len() && new_index < old(self)@.order.len()
                ==> result == Ok::<(), EditError>(()) && final(self)@ == old(self)@.reorder(
                old_index as int,
                new_index as int,
            ),
            !(old_index < old(self)@.order.len() && new_index < old(self)@.order.len())
                ==> result == Err::<(), EditError>(EditError::OutOfRange) && final(self)@ == old(
                self,
            )@,
    {
        let n: usize = self.layer_list.len();
        if old_index >= n || new_index >= n {
            return Err(EditError::OutOfRange);
        }
        let id: ShapeId = self.layer_list.remove(old_index);
        self.layer_list.insert(new_index, id);
        proof {
            let before = old(self)@;
            lemma_moved(before.order, old_index as int, new_index as int);
            assert(self@.order == moved(before.order, old_index as int, new_index as int));
            assert(self@.shapes == before.shapes);
            assert forall|k: ShapeId| #[trigger]
                self@.shapes.contains_key(k) <==> self@.order.contains(k) by {
                assert(before.shapes.contains_key(k) <==> before.order.contains(k));
                assert(moved(before.order, old_index as int, new_index as int).contains(k)
                    <==> before.order.contains(k));
            }
        }
        Ok(())
    }

    /// Adds `shape` on top of the stack. A shape whose identifier the document
    /// already holds is refused: the result is `false` and nothing changes.
    pub fn insert_shape(&mut self, shape: Shape) -> (added: bool)
        requires
            old(self)@.wf(),
        ensures
            final(self)@.wf(),
            added == !old(self)@.shapes.contains_key(shape.id),
            added ==> final(self)@ == old(self)@.insert_shape(shape),
            !added ==> final(self)@ == old(self)@,
    {
        let id: ShapeId = shape.id;
        if self.shapes.contains_key(&id) {
            return false;
        }
        self.shapes.insert(id, shape);
        self.layer_list.push(id);
        proof {
            let before = old(self)@;
            assert(!before.shapes.contains_key(id));
            assert(!before.order.contains(id));
            assert forall|k: ShapeId| #[trigger]
                self@.shapes.contains_key(k) <==> self@.order.contains(k) by {
                assert(before.shapes.contains_key(k) <==> before.order.contains(k));
                if before.order.contains(k) {
                    let i = choose|i: int| 0 <= i < before.order.len() && before.order[i] == k;
                    assert(self@.order[i] == k);
                }
                if k == id {
                    assert(self@.order[before.order.len() as int] == k);
                }
            }
            assert forall|k: ShapeId| self@.shapes.contains_key(k) implies (
            #[trigger] self@.shapes[k]).id == k by {
                if k != id {
                    assert(before.shapes.contains_key(k));
                    assert(before.shapes[k].id == k);
                }
            }
        }
        true
    }

    /// Takes shape `id` out of the document and out of the stacking order, and
    /// hands it back. Without such a shape nothing changes.
    pub fn remove_shape(&mut self, id: ShapeId) -> (removed: Option<Shape>)
        requires
            old(self)@.wf(),
        ensures
            final(self)@.wf(),
            match removed {
                Some(shape) => old(self)@.shapes.contains_key(id) && shape == old(self)@.shapes[id]
                    && final(self)@ == old(self)@.remove_shape(id),
                None => !old(self)@.shapes.contains_key(id) && final(self)@ == old(self)@,
            },
    {
        match position_in(&self.layer_list, id) {
            Some(i) => {
                proof {
                    old(self)@.order.index_of_first_ensures(id);
                }
                let removed = self.shapes.remove(&id);
                self.layer_list.remove(i);
                proof {
                    let before = old(self)@;
                    assert(before.order.remove_value(id) == before.order.remove(i as int));
                    assert forall|k: ShapeId| #[trigger]
                        self@.shapes.contains_key(k) <==> self@.order.contains(k) by {
                        assert(before.shapes.contains_key(k) <==> before.order.contains(k));
                        if k != id && before.order.contains(k) {
                            let j = choose|j: int| 0 <= j < before.order.len() && before.order[j] == k;
                            assert(self@.order[if j < i { j } else { j - 1 }] == k);
                        }
                        if self@.order.contains(k) {
                            let j = choose|j: int| 0 <= j < self@.order.len() && self@.order[j] == k;
                            assert(before.order[if j < i { j } else { j + 1 }] == k);
                        }
                    }
                    assert forall|k: ShapeId| self@.shapes.contains_key(k) implies (
                    #[trigger] self@.shapes[k]).id == k by {
                        assert(before.shapes.contains_key(k));
                        assert(before.shapes[k].id == k);
                    }
                }
                removed
            },
            None => {
                proof {
                    old(self)@.order.index_of_first_ensures(id);
                }
                None
            },
        }
    }

    /// Hands over the geometry updates requested since the last call, oldest
    /// first, and forgets them.
    pub fn take_geometry_updates(&mut self) -> (updates: Vec<GeometryUpdate>)
        ensures
            updates@ == old(self)@.geometry_updates,
            final(self)@ == (DocumentView {
                geometry_updates: Seq::<GeometryUpdate>::empty(),
                ..old(self)@
            }),
    {
        let mut updates: Vec<GeometryUpdate> = Vec::new();
        std::mem::swap(&mut updates, &mut self.geometry_updates);
        updates
    }
}

/// The first position of `id` in `list`.
pub fn position_in(list: &Vec<ShapeId>, id: ShapeId) -> (found: Option<usize>)
    ensures
        match found {
            Some(i) => list@.index_of_first(id) == Some(i as int),
            None => list@.index_of_first(id).is_none(),
        },
{
    let mut i: usize = 0;
    while i < list.len()
        invariant
            i <= list.len(),
            forall|j: int| 0 <= j < i ==> list@[j] != id,
        decreases list.len() - i,
    {
        if list[i] == id {
            proof {
                list@.index_of_first_ensures(id);
            }
            return Some(i);
        }
        i += 1;
    }
    proof {
        list@.index_of_first_ensures(id);
    }
    None
}

} // verus!

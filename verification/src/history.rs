//! The linear undo/redo history of property edits.

use vstd::prelude::*;
use crate::command::{PolygonEdit, PolygonProperty, RecordState, RecordStateView};
use crate::error::EditError;
use crate::registry::SignalKey;
use crate::shape::lemma_with_field_twice;

verus! {

/// What a call of `undo` or `redo` did.
#[derive(Clone, Copy, Debug, PartialEq, Eq, Structural)]
pub enum HistoryStep {
    /// The stack was empty: nothing was there to undo or to redo.
    NothingToDo,
    /// This command was taken back (by `undo`) or applied again (by `redo`).
    Done(PolygonEdit),
}

/// The two stacks, as mathematics; the most recent command is last in each.
pub struct HistoryView {
    pub undo: Seq<PolygonEdit>,
    pub redo: Seq<PolygonEdit>,
}

impl HistoryView {
    /// A new edit: the command is applied once. If that succeeds it is pushed
    /// on the undo stack and the redo stack is emptied; if it fails, both stacks
    /// stay as they are and the failure is reported.
    pub open spec fn commit(self, target: RecordStateView, command: PolygonEdit) -> (
        RecordStateView,
        HistoryView,
        Result<(), EditError>,
    ) {
        let (after, result) = command.applied(target);
        match result {
            Ok(_) => (
                after,
                HistoryView { undo: self.undo.push(command), redo: Seq::<PolygonEdit>::empty() },
                Ok(()),
            ),
            Err(e) => (after, self, Err(e)),
        }
    }

    /// One step back: with an empty undo stack nothing happens. Otherwise the
    /// top command leaves the undo stack and is taken back; if that succeeds it
    /// is pushed on the redo stack, and if it fails it is dropped and the failure
    /// is reported.
    pub open spec fn undo(self, target: RecordStateView) -> (
        RecordStateView,
        HistoryView,
        Result<HistoryStep, EditError>,
    ) {
        if self.undo.len() == 0 {
            (target, self, Ok(HistoryStep::NothingToDo))
        } else {
            let command = self.undo.last();
            let (after, result) = command.reverted(target);
            match result {
                Ok(_) => (
                    after,
                    HistoryView { undo: self.undo.drop_last(), redo: self.redo.push(command) },
                    Ok(HistoryStep::Done(command)),
                ),
                Err(e) => (
                    after,
                    HistoryView { undo: self.undo.drop_last(), redo: self.redo },
                    Err(e),
                ),
            }
        }
    }

    /// One step forward: with an empty redo stack nothing happens. Otherwise the
    /// top command leaves the redo stack and is applied again; if that succeeds
    /// it is pushed on the undo stack, and if it fails it is dropped and the
    /// failure is reported.
    pub open spec fn redo(self, target: RecordStateView) -> (
        RecordStateView,
        HistoryView,
        Result<HistoryStep, EditError>,
    ) {
        if self.redo.len() == 0 {
            (target, self, Ok(HistoryStep::NothingToDo))
        } else {
            let command = self.redo.last();
            let (after, result) = command.applied(target);
            match result {
                Ok(_) => (
                    after,
                    HistoryView { undo: self.undo.push(command), redo: self.redo.drop_last() },
                    Ok(HistoryStep::Done(command)),
                ),
                Err(e) => (
                    after,
                    HistoryView { undo: self.undo, redo: self.redo.drop_last() },
                    Err(e),
                ),
            }
        }
    }
}

/// The undo stack and the redo stack of one editing session.
pub struct HistoryStack {
    undo_stack: Vec<PolygonEdit>,
    redo_stack: Vec<PolygonEdit>,
}

impl View for HistoryStack {
    type V = HistoryView;

    closed spec fn view(&self) -> HistoryView {
        HistoryView { undo: self.undo_stack@, redo: self.redo_stack@ }
    }
}

impl HistoryStack {
    /// A history without commands.
    pub fn new() -> (history: HistoryStack)
        ensures
            history@.undo == Seq::<PolygonEdit>::empty(),
            history@.redo == Seq::<PolygonEdit>::empty(),
    {
        HistoryStack { undo_stack: Vec::new(), redo_stack: Vec::new() }
    }

    /// Number of commands that can be undone.
    pub fn undo_len(&self) -> (n: usize)
        ensures
            n == self@.undo.len(),
    {
        self.undo_stack.len()
    }

    /// Number of commands that can be redone.
    pub fn redo_len(&self) -> (n: usize)
        ensures
            n == self@.redo.len(),
    {
        self.redo_stack.len()
    }

    /// Applies `command` to `target` and records it, as `HistoryView::commit`
    /// says. After a success the redo stack is empty.
    pub fn commit(&mut self, target: &mut RecordState, command: PolygonEdit) -> (result: Result<
        (),
        EditError,
    >)
        requires
            old(target)@.document.wf(),
        ensures
            final(target)@.document.wf(),
            (final(target)@, final(self)@, result) == old(self)@.commit(old(target)@, command),
            result.is_ok() ==> final(self)@.redo.len() == 0,
            result.is_err() ==> final(self)@ == old(self)@,
    {
        match command.edit(target) {
            Ok(()) => {
                self.undo_stack.push(command);
                self.redo_stack.clear();
                Ok(())
            },
            Err(e) => Err(e),
        }
    }

    /// Takes the most recent command back, as `HistoryView::undo` says. With
    /// nothing to undo, nothing changes and `NothingToDo` is returned: that is
    /// no failure.
    pub fn undo(&mut self, target: &mut RecordState) -> (result: Result<HistoryStep, EditError>)
        requires
            old(target)@.document.wf(),
        ensures
            final(target)@.document.wf(),
            (final(target)@, final(self)@, result) == old(self)@.undo(old(target)@),
            old(self)@.undo.len() == 0 ==> result == Ok::<HistoryStep, EditError>(
                HistoryStep::NothingToDo,
            ) && final(self)@ == old(self)@ && final(target)@ == old(target)@,
    {
        match self.undo_stack.pop() {
            None => Ok(HistoryStep::NothingToDo),
            Some(command) => match command.undo(target) {
                Ok(()) => {
                    self.redo_stack.push(command);
                    Ok(HistoryStep::Done(command))
                },
                Err(e) => Err(e),
            },
        }
    }

    /// Applies the most recently undone command again, as `HistoryView::redo`
    /// says. With nothing to redo, nothing changes and `NothingToDo` is returned:
    /// that is no failure.
    pub fn redo(&mut self, target: &mut RecordState) -> (result: Result<HistoryStep, EditError>)
        requires
            old(target)@.document.wf(),
        ensures
            final(target)@.document.wf(),
            (final(target)@, final(self)@, result) == old(self)@.redo(old(target)@),
            old(self)@.redo.len() == 0 ==> result == Ok::<HistoryStep, EditError>(
                HistoryStep::NothingToDo,
            ) && final(self)@ == old(self)@ && final(target)@ == old(target)@,
    {
        match self.redo_stack.pop() {
            None => Ok(HistoryStep::NothingToDo),
            Some(command) => match command.edit(target) {
                Ok(()) => {
                    self.undo_stack.push(command);
                    Ok(HistoryStep::Done(command))
                },
                Err(e) => Err(e),
            },
        }
    }
}

impl PolygonEdit {
    /// The display cell that the command writes.
    pub open spec fn key(self) -> SignalKey {
        SignalKey { field: self.new_value.tag(), shape: self.polygon_id }
    }

    /// The command can be applied and taken back without failure: both of its
    /// values are for the same field, the document holds its shape, and a
    /// display cell is registered for its field.
    pub open spec fn applies_to(self, target: RecordStateView) -> bool {
        &&& self.old_value.tag() == self.new_value.tag()
        &&& target.document.shapes.contains_key(self.polygon_id)
        &&& target.signals.contains_key(self.key())
    }

    /// The command holds as its old value what the target stores now: the state
    /// in which a command is when it has just been made for this target.
    pub open spec fn captured_from(self, target: RecordStateView) -> bool {
        &&& self.applies_to(target)
        &&& self.old_stored == target.document.shapes[self.polygon_id].field(self.new_value.tag())
        &&& self.old_value == PolygonProperty::of_stored(self.new_value.tag(), self.old_stored)
    }
}

/// Undo after commit restores the field exactly.
///
/// A command that was made for the target and committed, and then undone,
/// leaves every shape as it was stored before the commit, whether the field is
/// a geometry field or a colour channel. The display cell shows the text of the
/// restored value, and the command waits on the redo stack.
pub proof fn lemma_commit_undo_restores(
    target: RecordStateView,
    history: HistoryView,
    command: PolygonEdit,
)
    requires
        command.captured_from(target),
    ensures
        ({
            let (t1, h1, r1) = history.commit(target, command);
            let (t2, h2, r2) = h1.undo(t1);
            &&& r1 == Ok::<(), EditError>(())
            &&& r2 == Ok::<HistoryStep, EditError>(HistoryStep::Done(command))
            &&& t2.document.field(command.polygon_id, command.new_value.tag())
                == target.document.field(command.polygon_id, command.new_value.tag())
            &&& t2.document.shapes == target.document.shapes
            &&& t2.document.order == target.document.order
            &&& t2.signals == target.signals.insert(command.key(), command.old_value.display())
            &&& h2.undo == history.undo
            &&& h2.redo == seq![command]
        }),
{
    let id = command.polygon_id;
    let tag = command.new_value.tag();
    let shape = target.document.shapes[id];
    let (t1, h1, r1) = history.commit(target, command);
    let (t2, h2, r2) = h1.undo(t1);
    assert(h1.undo.last() == command);
    assert(h1.undo.drop_last() =~= history.undo);
    lemma_with_field_twice(shape, tag, command.new_value.canonical(), shape.field(tag));
    assert(t2.document.shapes =~= target.document.shapes);
    assert(t2.signals =~= target.signals.insert(command.key(), command.old_value.display()));
    assert(h2.redo =~= seq![command]);
}

/// Redo after undo reproduces what undo took away.
///
/// In a state in which the field of the top command holds the value that the
/// command wrote, undo followed at once by redo leaves every shape, the order
/// and both stacks as they were before the undo, and the display cell shows the
/// text of the command's new value.
pub proof fn lemma_undo_redo_reproduces(target: RecordStateView, history: HistoryView)
    requires
        history.undo.len() > 0,
        history.undo.last().applies_to(target),
        target.document.field(
            history.undo.last().polygon_id,
            history.undo.last().new_value.tag(),
        ) == Some(history.undo.last().new_value.canonical()),
    ensures
        ({
            let command = history.undo.last();
            let (t1, h1, r1) = history.undo(target);
            let (t2, h2, r2) = h1.redo(t1);
            &&& r1 == Ok::<HistoryStep, EditError>(HistoryStep::Done(command))
            &&& r2 == Ok::<HistoryStep, EditError>(HistoryStep::Done(command))
            &&& t2.document.field(command.polygon_id, command.new_value.tag())
                == target.document.field(command.polygon_id, command.new_value.tag())
            &&& t2.document.shapes == target.document.shapes
            &&& t2.document.order == target.document.order
            &&& t2.signals == target.signals.insert(command.key(), command.new_value.display())
            &&& h2 == history
        }),
{
    let command = history.undo.last();
    let id = command.polygon_id;
    let tag = command.new_value.tag();
    let shape = target.document.shapes[id];
    let (t1, h1, r1) = history.undo(target);
    let (t2, h2, r2) = h1.redo(t1);
    assert(h1.redo.last() == command);
    lemma_with_field_twice(shape, tag, command.old_stored, command.new_value.canonical());
    assert(t2.document.shapes =~= target.document.shapes);
    assert(t2.signals =~= target.signals.insert(command.key(), command.new_value.display()));
    assert(h2.undo =~= history.undo);
    assert(h2.redo =~= history.redo);
}

/// Redo after undo of a command that was just committed reproduces the value
/// that the commit wrote.
pub proof fn lemma_commit_undo_redo(
    target: RecordStateView,
    history: HistoryView,
    command: PolygonEdit,
)
    requires
        command.applies_to(target),
    ensures
        ({
            let (t1, h1, r1) = history.commit(target, command);
            let (t2, h2, r2) = h1.undo(t1);
            let (t3, h3, r3) = h2.redo(t2);
            &&& r1 == Ok::<(), EditError>(())
            &&& r2 == Ok::<HistoryStep, EditError>(HistoryStep::Done(command))
            &&& r3 == Ok::<HistoryStep, EditError>(HistoryStep::Done(command))
            &&& t3.document.shapes == t1.document.shapes
            &&& t3.document.field(command.polygon_id, command.new_value.tag()) == Some(
                command.new_value.canonical(),
            )
            &&& t3.signals == t1.signals
            &&& h3 == h1
        }),
{
    let (t1, h1, r1) = history.commit(target, command);
    assert(h1.undo.last() == command);
    lemma_undo_redo_reproduces(t1, h1);
    let (t2, h2, r2) = h1.undo(t1);
    let (t3, h3, r3) = h2.redo(t2);
    assert(t3.signals =~= t1.signals);
}

/// A new edit after an undo leaves nothing to redo.
///
/// Whatever undo did, a commit that succeeds afterwards empties the redo stack,
/// and a redo that follows changes nothing and reports `NothingToDo`.
pub proof fn lemma_commit_after_undo_clears_redo(
    target: RecordStateView,
    history: HistoryView,
    command: PolygonEdit,
)
    requires
        history.undo(target).1.commit(history.undo(target).0, command).2.is_ok(),
    ensures
        ({
            let (t1, h1, r1) = history.undo(target);
            let (t2, h2, r2) = h1.commit(t1, command);
            &&& h2.redo == Seq::<PolygonEdit>::empty()
            &&& h2.redo(t2) == (t2, h2, Ok::<HistoryStep, EditError>(HistoryStep::NothingToDo))
        }),
{
}

/// Undo on an empty undo stack, and redo on an empty redo stack, change nothing
/// and report `NothingToDo`, never a failure.
pub proof fn lemma_empty_stack_is_idle(target: RecordStateView, history: HistoryView)
    ensures
        history.undo.len() == 0 ==> history.undo(target) == (
            target,
            history,
            Ok::<HistoryStep, EditError>(HistoryStep::NothingToDo),
        ),
        history.redo.len() == 0 ==> history.redo(target) == (
            target,
            history,
            Ok::<HistoryStep, EditError>(HistoryStep::NothingToDo),
        ),
{
}

/// A failed commit leaves both stacks as they were.
pub proof fn lemma_failed_commit_keeps_history(
    target: RecordStateView,
    history: HistoryView,
    command: PolygonEdit,
)
    ensures
        history.commit(target, command).2.is_err() ==> history.commit(target, command).1
            == history,
        !target.document.shapes.contains_key(command.polygon_id) ==> history.commit(target, command)
            == (target, history, Err::<(), EditError>(EditError::MissingEntity)),
{
}

} // verus!

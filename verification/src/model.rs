//! The operation history: snapshot-diff undo/redo over an abstract document,
//! plus the selection state of the editor canvas.

use vstd::prelude::*;
use vstd::string::StringExecFns;

verus! {

/// Which object, if any, is selected on the canvas.
#[derive(Clone, Debug)]
pub enum SelectionState {
    Empty,
    Single(u64),
}

impl SelectionState {
    pub fn is_empty(&self) -> (r: bool)
        ensures
            r == (*self is Empty),
    {
        matches!(self, SelectionState::Empty)
    }

    pub fn single_id(&self) -> (r: Option<u64>)
        ensures
            match *self {
                SelectionState::Empty => r is None,
                SelectionState::Single(id) => r == Some(id),
            },
    {
        match self {
            SelectionState::Empty => None,
            SelectionState::Single(id) => Some(*id),
        }
    }

    pub fn is_selected(&self, id: u64) -> (r: bool)
        ensures
            r == (*self matches SelectionState::Single(current) && current == id),
    {
        match self {
            SelectionState::Empty => false,
            SelectionState::Single(current) => *current == id,
        }
    }

    pub fn select(&mut self, id: u64)
        ensures
            *final(self) == SelectionState::Single(id),
    {
        *self = SelectionState::Single(id);
    }

    pub fn clear(&mut self)
        ensures
            *final(self) is Empty,
    {
        *self = SelectionState::Empty;
    }
}

/// An abstract document snapshot: its pixel extent and an ordered list of
/// element descriptors.
#[derive(Debug)]
pub struct EditorDocument {
    pub width: u32,
    pub height: u32,
    pub elements: Vec<String>,
}

/// Snapshot equality: same extent and the same element descriptors.
pub open spec fn spec_doc_eq(a: EditorDocument, b: EditorDocument) -> bool {
    &&& a.width == b.width
    &&& a.height == b.height
    &&& a.elements@.len() == b.elements@.len()
    &&& forall|i: int| 0 <= i < a.elements@.len() ==> (#[trigger] a.elements@[i])@
        == b.elements@[i]@
}

impl Clone for EditorDocument {
    fn clone(&self) -> (r: Self)
        ensures
            spec_doc_eq(r, *self),
            r.elements@.len() == self.elements@.len(),
            forall|i: int| 0 <= i < self.elements@.len() ==> (#[trigger] r.elements@[i])
                == self.elements@[i],
    {
        EditorDocument { width: self.width, height: self.height, elements: self.elements.clone() }
    }
}

impl PartialEq for EditorDocument {
    fn eq(&self, other: &Self) -> (r: bool)
        ensures
            r == spec_doc_eq(*self, *other),
    {
        if self.width != other.width || self.height != other.height {
            return false;
        }
        let n = self.elements.len();
        if n != other.elements.len() {
            return false;
        }
        let mut i: usize = 0;
        while i < n
            invariant
                n == self.elements@.len(),
                n == other.elements@.len(),
                i <= n,
                forall|j: int| 0 <= j < i ==> (#[trigger] self.elements@[j])@
                    == other.elements@[j]@,
            decreases n - i,
        {
            if !self.elements[i].eq(&other.elements[i]) {
                return false;
            }
            i += 1;
        }
        true
    }
}

impl vstd::std_specs::cmp::PartialEqSpecImpl for EditorDocument {
    open spec fn obeys_eq_spec() -> bool {
        true
    }

    open spec fn eq_spec(&self, other: &EditorDocument) -> bool {
        spec_doc_eq(*self, *other)
    }
}

impl Default for EditorDocument {
    fn default() -> (r: Self)
        ensures
            r.width == 0 && r.height == 0 && r.elements@ == Seq::<String>::empty(),
    {
        EditorDocument { width: 0, height: 0, elements: Vec::new() }
    }
}

impl EditorDocument {
    pub fn new(width: u32, height: u32) -> (r: Self)
        ensures
            r.width == width && r.height == height && r.elements@ == Seq::<String>::empty(),
    {
        EditorDocument { width, height, elements: Vec::new() }
    }

    pub fn add_element(&mut self, name: &str)
        ensures
            *final(self) == (EditorDocument { elements: final(self).elements, ..*old(self) }),
            final(self).elements@.len() == old(self).elements@.len() + 1,
            final(self).elements@.last()@ == name@,
            forall|i: int|
                0 <= i < old(self).elements@.len() ==> (#[trigger] final(self).elements@[i]) == old(
                    self,
                ).elements@[i],
    {
        self.elements.push(name.to_owned());
    }

    pub fn remove_last_element(&mut self) -> (r: Option<String>)
        ensures
            old(self).elements@.len() == 0 ==> r is None && *final(self) == *old(self),
            old(self).elements@.len() > 0 ==> {
                &&& r == Some(old(self).elements@.last())
                &&& *final(self) == (EditorDocument {
                    elements: final(self).elements,
                    ..*old(self)
                })
                &&& final(self).elements@ == old(self).elements@.drop_last()
            },
    {
        if self.elements.is_empty() {
            return None;
        }
        self.elements.pop()
    }
}

/// Operation equality up to the abstract content of the snapshots.
pub open spec fn spec_op_eq(a: EditorOperation, b: EditorOperation) -> bool {
    &&& a.id == b.id
    &&& a.summary@ == b.summary@
    &&& spec_doc_eq(a.before, b.before)
    &&& spec_doc_eq(a.after, b.after)
}

/// Elementwise operation equality of two recorded stacks.
pub open spec fn spec_ops_eq(a: Seq<EditorOperation>, b: Seq<EditorOperation>) -> bool {
    a.len() == b.len() && forall|i: int| 0 <= i < a.len() ==> spec_op_eq(#[trigger] a[i], b[i])
}

/// One recorded operation: a before/after snapshot pair with a sequential id
/// and a human-readable summary.
#[derive(Debug)]
pub struct EditorOperation {
    pub id: u64,
    pub summary: String,
    pub before: EditorDocument,
    pub after: EditorDocument,
}

impl Clone for EditorOperation {
    fn clone(&self) -> (r: Self)
        ensures
            spec_op_eq(r, *self),
    {
        EditorOperation {
            id: self.id,
            summary: self.summary.clone(),
            before: self.before.clone(),
            after: self.after.clone(),
        }
    }
}

impl EditorOperation {
    pub fn id(&self) -> (r: u64)
        ensures
            r == self.id,
    {
        self.id
    }

    pub fn summary(&self) -> (r: &str)
        ensures
            r@ == self.summary@,
    {
        self.summary.as_str()
    }

    pub fn before_snapshot(&self) -> (r: &EditorDocument)
        ensures
            *r == self.before,
    {
        &self.before
    }

    pub fn after_snapshot(&self) -> (r: &EditorDocument)
        ensures
            *r == self.after,
    {
        &self.after
    }
}

/// The undo/redo model: the current document plus an undo stack and a redo
/// stack of recorded operations.
#[derive(Debug)]
pub struct EditorOperationModel {
    pub undo_stack: Vec<EditorOperation>,
    pub redo_stack: Vec<EditorOperation>,
    pub current: EditorDocument,
    pub next_operation_id: u64,
}

/// The relation a committing step establishes: an unchanged document commits
/// nothing; otherwise the diff pair is pushed and the redo stack cleared.
pub open spec fn spec_committed(
    pre: EditorOperationModel,
    post: EditorOperationModel,
    summary: Seq<char>,
    after: EditorDocument,
) -> bool {
    if spec_doc_eq(pre.current, after) {
        post == pre
    } else {
        &&& post.undo_stack@.len() == pre.undo_stack@.len() + 1
        &&& post.undo_stack@ == pre.undo_stack@.push(post.undo_stack@.last())
        &&& post.undo_stack@.last().id == pre.next_operation_id
        &&& post.undo_stack@.last().summary@ == summary
        &&& spec_doc_eq(post.undo_stack@.last().before, pre.current)
        &&& spec_doc_eq(post.undo_stack@.last().after, after)
        &&& post.current == after
        &&& post.redo_stack@ == Seq::<EditorOperation>::empty()
        &&& post.next_operation_id == pre.next_operation_id + 1
    }
}

/// The relation an undo step establishes.
pub open spec fn spec_undone(
    pre: EditorOperationModel,
    post: EditorOperationModel,
    r: Option<EditorOperation>,
) -> bool {
    if pre.undo_stack@.len() == 0 {
        post == pre && r is None
    } else {
        let op = pre.undo_stack@.last();
        &&& r == Some(op)
        &&& post.undo_stack@ == pre.undo_stack@.drop_last()
        &&& post.redo_stack@.len() == pre.redo_stack@.len() + 1
        &&& post.redo_stack@.drop_last() == pre.redo_stack@
        &&& spec_op_eq(post.redo_stack@.last(), op)
        &&& spec_doc_eq(post.current, op.before)
        &&& post.next_operation_id == pre.next_operation_id
    }
}

/// The relation a redo step establishes.
pub open spec fn spec_redone(
    pre: EditorOperationModel,
    post: EditorOperationModel,
    r: Option<EditorOperation>,
) -> bool {
    if pre.redo_stack@.len() == 0 {
        post == pre && r is None
    } else {
        let op = pre.redo_stack@.last();
        &&& r == Some(op)
        &&& post.redo_stack@ == pre.redo_stack@.drop_last()
        &&& post.undo_stack@.len() == pre.undo_stack@.len() + 1
        &&& post.undo_stack@.drop_last() == pre.undo_stack@
        &&& spec_op_eq(post.undo_stack@.last(), op)
        &&& spec_doc_eq(post.current, op.after)
        &&& post.next_operation_id == pre.next_operation_id
    }
}

impl Default for EditorOperationModel {
    fn default() -> (r: Self)
        ensures
            r.undo_stack@ == Seq::<EditorOperation>::empty(),
            r.redo_stack@ == Seq::<EditorOperation>::empty(),
            r.current.width == 0 && r.current.height == 0 && r.current.elements@ == Seq::<
                String,
            >::empty(),
            r.next_operation_id == 1,
    {
        EditorOperationModel {
            undo_stack: Vec::new(),
            redo_stack: Vec::new(),
            current: EditorDocument::default(),
            next_operation_id: 1,
        }
    }
}

impl EditorOperationModel {
    pub fn new(document: EditorDocument) -> (r: Self)
        ensures
            r.undo_stack@ == Seq::<EditorOperation>::empty(),
            r.redo_stack@ == Seq::<EditorOperation>::empty(),
            r.current == document,
            r.next_operation_id == 1,
    {
        EditorOperationModel {
            undo_stack: Vec::new(),
            redo_stack: Vec::new(),
            current: document,
            next_operation_id: 1,
        }
    }

    pub fn current(&self) -> (r: &EditorDocument)
        ensures
            *r == self.current,
    {
        &self.current
    }

    pub fn current_document(&self) -> (r: &EditorDocument)
        ensures
            *r == self.current,
    {
        self.current()
    }

    /// Forget all recorded operations, keeping the current document.
    pub fn clear(&mut self)
        ensures
            final(self).undo_stack@ == Seq::<EditorOperation>::empty(),
            final(self).redo_stack@ == Seq::<EditorOperation>::empty(),
            final(self).current == old(self).current,
            final(self).next_operation_id == 1,
    {
        self.undo_stack.clear();
        self.redo_stack.clear();
        self.next_operation_id = 1;
    }

    pub fn can_undo(&self) -> (r: bool)
        ensures
            r == (self.undo_stack@.len() > 0),
    {
        !self.undo_stack.is_empty()
    }

    pub fn can_redo(&self) -> (r: bool)
        ensures
            r == (self.redo_stack@.len() > 0),
    {
        !self.redo_stack.is_empty()
    }

    pub fn undo_len(&self) -> (r: usize)
        ensures
            r == self.undo_stack@.len(),
    {
        self.undo_stack.len()
    }

    pub fn redo_len(&self) -> (r: usize)
        ensures
            r == self.redo_stack@.len(),
    {
        self.redo_stack.len()
    }

    pub fn operation_count(&self) -> (r: usize)
        requires
            self.undo_stack@.len() + self.redo_stack@.len() <= usize::MAX,
        ensures
            r == self.undo_stack@.len() + self.redo_stack@.len(),
    {
        self.undo_stack.len() + self.redo_stack.len()
    }

    /// Commit an already-computed next document: a no-op when it equals the
    /// current one, otherwise recorded as an undoable operation.
    pub fn commit_with(&mut self, summary: &str, after: EditorDocument)
        requires
            old(self).next_operation_id < u64::MAX,
        ensures
            spec_committed(*old(self), *final(self), summary@, after),
    {
        if self.current.eq(&after) {
            return;
        }
        let before = self.current.clone();
        let operation = EditorOperation {
            id: self.next_operation_id,
            summary: summary.to_owned(),
            before,
            after: after.clone(),
        };
        self.next_operation_id = self.next_operation_id + 1;
        self.current = after;
        self.undo_stack.push(operation);
        self.redo_stack.clear();
    }

    /// Commit the document that `mutator` builds from the current one.
    pub fn commit<F: FnOnce(&EditorDocument) -> EditorDocument>(&mut self, summary: &str, mutator: F)
        requires
            old(self).next_operation_id < u64::MAX,
            call_requires(mutator, (&old(self).current,)),
        ensures
            exists|after: EditorDocument|
                #[trigger] call_ensures(mutator, (&old(self).current,), after) && spec_committed(
                    *old(self),
                    *final(self),
                    summary@,
                    after,
                ),
    {
        let after = mutator(&self.current);
        self.commit_with(summary, after);
    }

    /// `record` is a synonym for `commit`.
    pub fn record<F: FnOnce(&EditorDocument) -> EditorDocument>(&mut self, summary: &str, mutator: F)
        requires
            old(self).next_operation_id < u64::MAX,
            call_requires(mutator, (&old(self).current,)),
        ensures
            exists|after: EditorDocument|
                #[trigger] call_ensures(mutator, (&old(self).current,), after) && spec_committed(
                    *old(self),
                    *final(self),
                    summary@,
                    after,
                ),
    {
        self.commit(summary, mutator);
    }

    /// Undo the most recent operation, restoring its "before" snapshot.
    pub fn undo(&mut self) -> (r: Option<EditorOperation>)
        ensures
            spec_undone(*old(self), *final(self), r),
    {
        if self.undo_stack.is_empty() {
            return None;
        }
        let operation = match self.undo_stack.pop() {
            Some(op) => op,
            None => {
                proof {
                    assert(false);
                }
                return None;
            },
        };
        self.current = operation.before.clone();
        self.redo_stack.push(operation.clone());
        proof {
            assert(self.redo_stack@.drop_last() =~= old(self).redo_stack@);
        }
        Some(operation)
    }

    /// Redo the most recently undone operation, restoring its "after"
    /// snapshot.
    pub fn redo(&mut self) -> (r: Option<EditorOperation>)
        ensures
            spec_redone(*old(self), *final(self), r),
    {
        if self.redo_stack.is_empty() {
            return None;
        }
        let operation = match self.redo_stack.pop() {
            Some(op) => op,
            None => {
                proof {
                    assert(false);
                }
                return None;
            },
        };
        self.current = operation.after.clone();
        self.undo_stack.push(operation.clone());
        proof {
            assert(self.undo_stack@.drop_last() =~= old(self).undo_stack@);
        }
        Some(operation)
    }
}

/// Law: a commit followed by an undo restores exactly the document the
/// commit started from, and leaves the undo stack as it was.
pub proof fn lemma_commit_then_undo(
    pre: EditorOperationModel,
    mid: EditorOperationModel,
    post: EditorOperationModel,
    summary: Seq<char>,
    after: EditorDocument,
    r: Option<EditorOperation>,
)
    requires
        !spec_doc_eq(pre.current, after),
        spec_committed(pre, mid, summary, after),
        spec_undone(mid, post, r),
    ensures
        spec_doc_eq(post.current, pre.current),
        post.undo_stack@ == pre.undo_stack@,
        r matches Some(op) && spec_doc_eq(op.after, after) && spec_doc_eq(op.before, pre.current),
{
    assert(mid.undo_stack@.len() > 0);
    assert(post.undo_stack@ =~= pre.undo_stack@);
}

/// Law: an undo followed by a redo restores exactly the state the undo
/// started from, provided that state's last recorded operation ended in its
/// current document (as every committed state does).
pub proof fn lemma_undo_then_redo(
    pre: EditorOperationModel,
    mid: EditorOperationModel,
    post: EditorOperationModel,
    r1: Option<EditorOperation>,
    r2: Option<EditorOperation>,
)
    requires
        pre.undo_stack@.len() > 0,
        spec_doc_eq(pre.undo_stack@.last().after, pre.current),
        spec_undone(pre, mid, r1),
        spec_redone(mid, post, r2),
    ensures
        spec_doc_eq(post.current, pre.current),
        spec_ops_eq(post.undo_stack@, pre.undo_stack@),
        post.redo_stack@ == pre.redo_stack@,
        r1 matches Some(a) && (r2 matches Some(b) && spec_op_eq(b, a)),
{
    let op = pre.undo_stack@.last();
    assert(mid.redo_stack@.len() > 0);
    let op2 = mid.redo_stack@.last();
    assert(spec_op_eq(op2, op));
    assert(post.redo_stack@ =~= pre.redo_stack@);
    assert(post.undo_stack@.drop_last() == mid.undo_stack@);
    assert forall|i: int| 0 <= i < post.undo_stack@.len() implies spec_op_eq(
        #[trigger] post.undo_stack@[i],
        pre.undo_stack@[i],
    ) by {
        if i < post.undo_stack@.len() - 1 {
            assert(post.undo_stack@.drop_last()[i] == post.undo_stack@[i]);
            assert(mid.undo_stack@[i] == pre.undo_stack@[i]);
        } else {
            assert(post.undo_stack@[i] == post.undo_stack@.last());
        }
    }
}

/// Law: any commit that records an operation leaves the redo stack empty,
/// and leaves the recorded operation ending in the current document — the
/// very condition the undo/redo round trip starts from.
pub proof fn lemma_commit_clears_redo(
    pre: EditorOperationModel,
    post: EditorOperationModel,
    summary: Seq<char>,
    after: EditorDocument,
)
    requires
        !spec_doc_eq(pre.current, after),
        spec_committed(pre, post, summary, after),
    ensures
        post.redo_stack@.len() == 0,
        post.undo_stack@.len() > 0,
        spec_doc_eq(post.undo_stack@.last().after, post.current),
{
}

} // verus!

//! Trees of chained errors and stack-safe queries over them.
//!
//! A tree is walked depth first with an explicit stack, never by
//! recursion, so that chains of thousands of wrapped errors are safe to
//! query. The walk visits the children of a frame last child first; the
//! queries do not depend on the order.

use vstd::prelude::*;
use smallvec::SmallVec;
use crate::error::Error;
use crate::status::ErrorStatus;

verus! {

/// One node of a tree of chained errors: a payload, which may or may not
/// be an [`Error`], and the frames that it was raised over, in order.
#[derive(Debug)]
pub struct Frame {
    error: Option<Error>,
    children: Vec<Frame>,
}

/// The largest number of frames that a tree may have for the queries:
/// the explicit stack has to be able to hold all of them. A frame takes
/// more than 32 bytes, so every tree that fits in memory stays below;
/// [`within_limit`] tests it.
pub open spec fn max_frames() -> nat {
    (usize::MAX / 32) as nat
}

impl Frame {
    /// The payload of the frame, where it is an error.
    pub closed spec fn payload(&self) -> Option<Error> {
        self.error
    }

    /// The child frames, in order.
    pub closed spec fn child_frames(&self) -> Seq<Frame> {
        self.children@
    }

    /// Every frame of the tree: the root, then the frames of each child
    /// tree in turn.
    pub open spec fn frames(&self) -> Seq<Frame>
        decreases self,
    {
        seq![*self] + all_frames(self.child_frames())
    }

    /// Whether the payload is an error with the given status.
    pub open spec fn holds_status(&self, status: ErrorStatus) -> bool {
        self.payload() matches Some(e) && e@.status == status
    }

    /// Whether the payload is an error that is not retryable.
    pub open spec fn holds_unretryable(&self) -> bool {
        self.payload() matches Some(e) && e@.status != ErrorStatus::Temporary
    }

    /// A frame with the given payload and children.
    pub fn new(error: Option<Error>, children: Vec<Frame>) -> (res: Self)
        ensures
            res.payload() == error,
            res.child_frames() == children@,
    {
        Frame { error, children }
    }

    /// Raises a new error over this tree: the result is a frame that holds
    /// `error` and has this tree as its only child.
    pub fn raise(self, error: Error) -> (res: Self)
        ensures
            res.payload() == Some(error),
            res.child_frames() == seq![self],
            res.frames() == seq![res] + self.frames(),
    {
        let mut children: Vec<Frame> = Vec::new();
        children.push(self);
        let res = Frame { error: Some(error), children };
        proof {
            lemma_all_frames_single(self);
        }
        res
    }

    /// The payload, where it is an error.
    pub fn error(&self) -> (res: Option<&Error>)
        ensures
            res is Some == self.payload() is Some,
            res matches Some(e) ==> self.payload() == Some(*e),
    {
        self.error.as_ref()
    }

    /// The child frames, in order.
    pub fn children(&self) -> (res: &[Frame])
        ensures
            res@ == self.child_frames(),
    {
        self.children.as_slice()
    }
}

impl Error {
    /// Raises the error as the root of a new tree: a frame that holds the
    /// error and has no children.
    pub fn raise(self) -> (res: Frame)
        ensures
            res.payload() == Some(self),
            res.child_frames() == Seq::<Frame>::empty(),
            res.frames() == seq![res],
    {
        Frame { error: Some(self), children: Vec::new() }
    }
}

/// Every frame of the trees, tree by tree.
pub open spec fn all_frames(trees: Seq<Frame>) -> Seq<Frame>
    decreases trees,
{
    if trees.len() == 0 {
        Seq::empty()
    } else {
        trees[0].frames() + all_frames(trees.drop_first())
    }
}

/// Whether one of the frames holds an error with the given status.
pub open spec fn any_with_status(frames: Seq<Frame>, status: ErrorStatus) -> bool {
    exists|i: int| 0 <= i < frames.len() && (#[trigger] frames[i]).holds_status(status)
}

/// Whether one of the frames holds an error that is not retryable.
pub open spec fn any_unretryable(frames: Seq<Frame>) -> bool {
    exists|i: int| 0 <= i < frames.len() && (#[trigger] frames[i]).holds_unretryable()
}

/// What a walk looks for in a frame.
#[derive(Clone, Copy)]
enum Query {
    /// An error with the given status.
    Status(ErrorStatus),
    /// An error that is not retryable.
    Unretryable,
}

impl Query {
    spec fn hit(self, frame: Frame) -> bool {
        match self {
            Query::Status(status) => frame.holds_status(status),
            Query::Unretryable => frame.holds_unretryable(),
        }
    }

    spec fn any(self, frames: Seq<Frame>) -> bool {
        exists|i: int| 0 <= i < frames.len() && self.hit(#[trigger] frames[i])
    }

    fn hits(self, frame: &Frame) -> (res: bool)
        ensures
            res == self.hit(*frame),
    {
        match frame.error() {
            None => false,
            Some(e) => match self {
                Query::Status(ErrorStatus::Temporary) => e.is_retryable(),
                Query::Status(ErrorStatus::Permanent) => e.is_permanent(),
                Query::Status(ErrorStatus::Persistent) => !e.is_retryable() && !e.is_permanent(),
                Query::Unretryable => !e.is_retryable(),
            },
        }
    }
}

/// The stack of a walk: a `smallvec::SmallVec` that holds sixteen frames
/// inline and spills to the heap beyond that. What it holds is known
/// through [`stack_frames`] alone.
#[verifier::external_body]
pub struct FrameStack<'a> {
    items: SmallVec<[&'a Frame; 16]>,
}

/// The frames that a stack holds, the top last.
pub uninterp spec fn stack_frames(stack: FrameStack) -> Seq<Frame>;

/// `SmallVec::new`: a stack that holds nothing.
#[verifier::external_body]
fn stack_new<'a>() -> (stack: FrameStack<'a>)
    ensures
        stack_frames(stack) == Seq::<Frame>::empty(),
{
    FrameStack { items: SmallVec::new() }
}

/// `SmallVec::push`: the frame goes on top. The push panics where the
/// stack has to grow and the new capacity in bytes would pass
/// `isize::MAX`, which the bound on the number of frames held rules out.
#[verifier::external_body]
fn stack_push<'a>(stack: &mut FrameStack<'a>, frame: &'a Frame)
    requires
        stack_frames(*old(stack)).len() < max_frames(),
    ensures
        stack_frames(*final(stack)) == stack_frames(*old(stack)).push(*frame),
{
    stack.items.push(frame)
}

/// `SmallVec::pop`: takes the top frame off, or returns `None` and leaves
/// the stack as it is where it holds nothing.
#[verifier::external_body]
fn stack_pop<'a>(stack: &mut FrameStack<'a>) -> (res: Option<&'a Frame>)
    ensures
        stack_frames(*old(stack)).len() == 0 ==> res is None && stack_frames(*final(stack))
            == stack_frames(*old(stack)),
        stack_frames(*old(stack)).len() > 0 ==> res == Some(&stack_frames(*old(stack)).last())
            && stack_frames(*final(stack)) == stack_frames(*old(stack)).drop_last(),
{
    stack.items.pop()
}

/// A depth-first walk over a tree of frames.
struct FrameIter<'a> {
    stack: FrameStack<'a>,
}

impl<'a> FrameIter<'a> {
    /// The roots of the trees that are still to be walked, the next one
    /// last.
    spec fn pending(&self) -> Seq<Frame> {
        stack_frames(self.stack)
    }

    /// The frames that are still to be visited.
    spec fn remaining(&self) -> Seq<Frame> {
        all_frames(self.pending())
    }

    fn new(root: &'a Frame) -> (it: Self)
        ensures
            it.pending() == seq![*root],
            it.remaining() == root.frames(),
    {
        let mut stack = stack_new();
        stack_push(&mut stack, root);
        proof {
            lemma_all_frames_single(*root);
        }
        FrameIter { stack }
    }

    /// Visits the next frame: takes it off the stack and puts its children
    /// there instead. The frame leaves the frames to be visited, and
    /// nothing else changes among them but the order.
    fn next(&mut self) -> (res: Option<&'a Frame>)
        requires
            old(self).remaining().len() <= max_frames(),
        ensures
            res is None ==> old(self).remaining().len() == 0 && final(self).remaining().len() == 0,
            res matches Some(frame) ==> exists|head: Seq<Frame>, tail: Seq<Frame>|
                #![trigger head + seq![*frame] + tail]
                {
                    &&& old(self).remaining() == head + seq![*frame] + tail
                    &&& final(self).remaining() == head + tail
                },
    {
        let ghost before = self.pending();
        match stack_pop(&mut self.stack) {
            None => {
                proof {
                    lemma_all_frames_len(before);
                }
                None
            },
            Some(frame) => {
                let ghost rest = before.drop_last();
                let children = frame.children();
                proof {
                    assert(before =~= rest.push(*frame));
                    lemma_all_frames_concat(rest, seq![*frame]);
                    assert(rest.push(*frame) =~= rest + seq![*frame]);
                    lemma_all_frames_single(*frame);
                    lemma_all_frames_len(rest);
                    lemma_all_frames_len(children@);
                }
                let mut i: usize = 0;
                while i < children.len()
                    invariant
                        i <= children@.len(),
                        children@ == frame.child_frames(),
                        self.pending() == rest + children@.take(i as int),
                        rest.len() + children@.len() < max_frames(),
                    decreases children@.len() - i,
                {
                    stack_push(&mut self.stack, &children[i]);
                    i += 1;
                }
                proof {
                    assert(children@.take(i as int) =~= children@);
                    lemma_all_frames_concat(rest, children@);
                    let head = all_frames(rest);
                    let tail = all_frames(children@);
                    assert(old(self).remaining() =~= head + seq![*frame] + tail);
                }
                Some(frame)
            },
        }
    }
}

/// The frames of a single tree, taken as a list of trees.
proof fn lemma_all_frames_single(tree: Frame)
    ensures
        all_frames(seq![tree]) == tree.frames(),
{
    assert(all_frames(seq![tree].drop_first()) =~= Seq::<Frame>::empty());
}

/// The frames of two lists of trees, one behind the other.
proof fn lemma_all_frames_concat(a: Seq<Frame>, b: Seq<Frame>)
    ensures
        all_frames(a + b) == all_frames(a) + all_frames(b),
    decreases a.len(),
{
    if a.len() > 0 {
        assert((a + b).drop_first() =~= a.drop_first() + b);
        lemma_all_frames_concat(a.drop_first(), b);
    }
}

/// Every tree has at least its root among its frames.
proof fn lemma_all_frames_len(trees: Seq<Frame>)
    ensures
        trees.len() <= all_frames(trees).len(),
    decreases trees.len(),
{
    if trees.len() > 0 {
        lemma_all_frames_len(trees.drop_first());
        assert(trees[0].frames().len() >= 1);
    }
}

/// Walks the tree until a frame answers the query.
fn any_frame(root: &Frame, query: Query) -> (res: bool)
    requires
        root.frames().len() <= max_frames(),
    ensures
        res == query.any(root.frames()),
{
    let mut it = FrameIter::new(root);
    loop
        invariant
            it.remaining().len() <= max_frames(),
            query.any(root.frames()) == query.any(it.remaining()),
        decreases it.remaining().len(),
    {
        let ghost before = it.remaining();
        match it.next() {
            None => {
                return false;
            },
            Some(frame) => {
                let found = query.hits(frame);
                proof {
                    let (head, tail) = choose|head: Seq<Frame>, tail: Seq<Frame>|
                        #![trigger head + seq![*frame] + tail]
                        before == head + seq![*frame] + tail && it.remaining() == head + tail;
                    lemma_any_split(query, head, *frame, tail);
                }
                if found {
                    return true;
                }
            },
        }
    }
}

/// A query finds something among frames exactly if it finds it in a
/// chosen one of them or among the others.
proof fn lemma_any_split(query: Query, head: Seq<Frame>, frame: Frame, tail: Seq<Frame>)
    ensures
        query.any(head + seq![frame] + tail) == (query.hit(frame) || query.any(head + tail)),
        (head + seq![frame] + tail).len() == (head + tail).len() + 1,
{
    let whole = head + seq![frame] + tail;
    let others = head + tail;
    assert(whole[head.len() as int] == frame);
    if query.any(whole) {
        let i = choose|i: int| 0 <= i < whole.len() && query.hit(#[trigger] whole[i]);
        if i < head.len() {
            assert(others[i] == whole[i]);
        } else if i > head.len() {
            assert(others[i - 1] == whole[i]);
        }
    }
    if query.any(others) {
        let i = choose|i: int| 0 <= i < others.len() && query.hit(#[trigger] others[i]);
        if i < head.len() {
            assert(whole[i] == others[i]);
        } else {
            assert(whole[i + 1] == others[i]);
        }
    }
}

/// The root of a tree is the first of its frames.
pub proof fn lemma_frames_start_with_root(root: Frame)
    ensures
        root.frames().len() >= 1,
        root.frames()[0] == root,
{
}

/// Every frame of a child tree is a frame of the tree.
pub proof fn lemma_frames_hold_child_frames(root: Frame, child: int, frame: Frame)
    requires
        0 <= child < root.child_frames().len(),
        root.child_frames()[child].frames().contains(frame),
    ensures
        root.frames().contains(frame),
{
    let children = root.child_frames();
    let before = children.take(child);
    let after = children.skip(child + 1);
    let tree = children[child];
    assert(children =~= before + seq![tree] + after);
    lemma_all_frames_concat(before + seq![tree], after);
    lemma_all_frames_concat(before, seq![tree]);
    lemma_all_frames_single(tree);
    let i = choose|i: int| 0 <= i < tree.frames().len() && tree.frames()[i] == frame;
    let at = 1 + all_frames(before).len() + i;
    assert(root.frames()[at] == frame);
}

/// A tree in which every error is temporary is all retryable, and a single
/// frame with an error of another status, anywhere in the tree, makes it
/// not all retryable.
pub proof fn lemma_all_retryable(root: Frame)
    ensures
        (forall|i: int|
            0 <= i < root.frames().len() ==> (#[trigger] root.frames()[i].payload() matches Some(e)
                ==> e@.status == ErrorStatus::Temporary)) <==> !any_unretryable(root.frames()),
        forall|frame: Frame|
            root.frames().contains(frame) && frame.holds_status(ErrorStatus::Permanent)
                ==> any_unretryable(root.frames()),
{
    let frames = root.frames();
    if any_unretryable(frames) {
        let i = choose|i: int| 0 <= i < frames.len() && (#[trigger] frames[i]).holds_unretryable();
        assert(frames[i].payload() is Some);
    }
    assert forall|frame: Frame|
        frames.contains(frame) && frame.holds_status(
            ErrorStatus::Permanent,
        ) implies any_unretryable(frames) by {
        let i = choose|i: int| 0 <= i < frames.len() && frames[i] == frame;
        assert(frames[i].holds_unretryable());
    }
}

/// A tree holds a retryable error exactly if its root does or one of its
/// child trees does, and likewise for every other status.
pub proof fn lemma_any_with_status_unfolds(root: Frame, status: ErrorStatus)
    ensures
        any_with_status(root.frames(), status) == (root.holds_status(status) || exists|child: int|
            0 <= child < root.child_frames().len() && any_with_status(
                #[trigger] root.child_frames()[child].frames(),
                status,
            )),
{
    let frames = root.frames();
    let children = root.child_frames();
    if any_with_status(frames, status) && !root.holds_status(status) {
        let i = choose|i: int| 0 <= i < frames.len() && (#[trigger] frames[i]).holds_status(status);
        assert(i >= 1);
        let rest = all_frames(children);
        assert(rest[i - 1] == frames[i]);
        lemma_all_frames_origin(children, i - 1);
        let (child, j) = choose|child: int, j: int|
            0 <= child < children.len() && 0 <= j < children[child].frames().len()
                && #[trigger] children[child].frames()[j] == rest[i - 1];
        assert(children[child].frames()[j].holds_status(status));
        assert(any_with_status(children[child].frames(), status));
    }
    if root.holds_status(status) {
        assert(frames[0] == root);
    }
    if exists|child: int|
        0 <= child < children.len() && any_with_status(
            #[trigger] children[child].frames(),
            status,
        ) {
        let child = choose|child: int|
            0 <= child < children.len() && any_with_status(
                #[trigger] children[child].frames(),
                status,
            );
        let tree = children[child].frames();
        let j = choose|j: int| 0 <= j < tree.len() && (#[trigger] tree[j]).holds_status(status);
        assert(tree.contains(tree[j]));
        lemma_frames_hold_child_frames(root, child, tree[j]);
        let i = choose|i: int| 0 <= i < frames.len() && frames[i] == tree[j];
        assert(frames[i].holds_status(status));
    }
}

/// Every frame of a list of trees is a frame of one of the trees.
proof fn lemma_all_frames_origin(trees: Seq<Frame>, i: int)
    requires
        0 <= i < all_frames(trees).len(),
    ensures
        exists|tree: int, j: int|
            0 <= tree < trees.len() && 0 <= j < trees[tree].frames().len()
                && #[trigger] trees[tree].frames()[j] == all_frames(trees)[i],
    decreases trees.len(),
{
    let first = trees[0].frames();
    if i < first.len() {
        assert(trees[0].frames()[i] == all_frames(trees)[i]);
    } else {
        let rest = trees.drop_first();
        lemma_all_frames_origin(rest, i - first.len());
        let (tree, j) = choose|tree: int, j: int|
            0 <= tree < rest.len() && 0 <= j < rest[tree].frames().len()
                && #[trigger] rest[tree].frames()[j] == all_frames(rest)[i - first.len()];
        assert(rest[tree] == trees[tree + 1]);
        assert(trees[tree + 1].frames()[j] == all_frames(trees)[i]);
    }
}

/// Whether the tree is small enough for the queries: whether it has at most
/// [`max_frames`] frames. The walk stops as soon as it knows of more.
pub fn within_limit(root: &Frame) -> (res: bool)
    ensures
        res == (root.frames().len() <= max_frames()),
{
    let limit: usize = usize::MAX / 32;
    let mut stack = stack_new();
    stack_push(&mut stack, root);
    let mut held: usize = 1;
    let mut seen: usize = 0;
    proof {
        lemma_all_frames_single(*root);
    }
    loop
        invariant
            limit == max_frames(),
            held == stack_frames(stack).len(),
            seen + held <= limit,
            seen + all_frames(stack_frames(stack)).len() == root.frames().len(),
        decreases all_frames(stack_frames(stack)).len(),
    {
        let ghost before = stack_frames(stack);
        match stack_pop(&mut stack) {
            None => {
                proof {
                    lemma_all_frames_len(before);
                }
                return true;
            },
            Some(frame) => {
                let ghost rest = before.drop_last();
                let children = frame.children();
                proof {
                    assert(before =~= rest + seq![*frame]);
                    lemma_all_frames_concat(rest, seq![*frame]);
                    lemma_all_frames_single(*frame);
                    lemma_all_frames_len(rest);
                    lemma_all_frames_len(children@);
                }
                if children.len() > limit - seen - held {
                    return false;
                }
                seen += 1;
                held -= 1;
                let mut i: usize = 0;
                while i < children.len()
                    invariant
                        i <= children@.len(),
                        limit == max_frames(),
                        held == rest.len() + i,
                        seen + rest.len() + children@.len() <= limit,
                        stack_frames(stack) == rest + children@.take(i as int),
                    decreases children@.len() - i,
                {
                    stack_push(&mut stack, &children[i]);
                    held += 1;
                    i += 1;
                }
                proof {
                    assert(children@.take(i as int) =~= children@);
                    lemma_all_frames_concat(rest, children@);
                }
            },
        }
    }
}

/// The number of frames in the tree, the root included.
pub fn count_frames(root: &Frame) -> (res: usize)
    requires
        root.frames().len() <= max_frames(),
    ensures
        res == root.frames().len(),
{
    let mut it = FrameIter::new(root);
    let mut count: usize = 0;
    loop
        invariant
            root.frames().len() <= max_frames(),
            count + it.remaining().len() == root.frames().len(),
        decreases it.remaining().len(),
    {
        let ghost before = it.remaining();
        match it.next() {
            None => {
                return count;
            },
            Some(frame) => {
                proof {
                    let (head, tail) = choose|head: Seq<Frame>, tail: Seq<Frame>|
                        #![trigger head + seq![*frame] + tail]
                        before == head + seq![*frame] + tail && it.remaining() == head + tail;
                    assert(before.len() == it.remaining().len() + 1);
                }
                count += 1;
            },
        }
    }
}

/// The number of errors in the tree: every frame counts, as in
/// [`count_frames`].
pub fn count_errors(root: &Frame) -> (res: usize)
    requires
        root.frames().len() <= max_frames(),
    ensures
        res == root.frames().len(),
{
    count_frames(root)
}

/// Whether a frame of the tree holds a retryable error.
pub fn has_retryable(root: &Frame) -> (res: bool)
    requires
        root.frames().len() <= max_frames(),
    ensures
        res == any_with_status(root.frames(), ErrorStatus::Temporary),
{
    any_frame(root, Query::Status(ErrorStatus::Temporary))
}

/// Whether a frame of the tree holds a permanent error.
pub fn has_permanent(root: &Frame) -> (res: bool)
    requires
        root.frames().len() <= max_frames(),
    ensures
        res == any_with_status(root.frames(), ErrorStatus::Permanent),
{
    any_frame(root, Query::Status(ErrorStatus::Permanent))
}

/// Whether every error in the tree is retryable. A frame whose payload is
/// not an error does not stand in the way.
pub fn is_all_retryable(root: &Frame) -> (res: bool)
    requires
        root.frames().len() <= max_frames(),
    ensures
        res == !any_unretryable(root.frames()),
{
    !any_frame(root, Query::Unretryable)
}

} // verus!

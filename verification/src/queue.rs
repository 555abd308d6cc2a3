//! The work queue: filled once, in order, then drained item by item.

use vstd::prelude::*;
use crossbeam_queue::SegQueue;
use crate::path::PathItem;

verus! {

/// `crossbeam_queue::SegQueue`: an unbounded queue that several threads can
/// share.
#[verifier::external_type_specification]
#[verifier::external_body]
#[verifier::reject_recursive_types(T)]
pub struct ExSegQueue<T>(SegQueue<T>);

/// The paths that a queue holds, head first.
pub uninterp spec fn queue_items(q: SegQueue<PathItem>) -> Seq<Seq<Seq<char>>>;

/// `SegQueue::new`: an empty queue.
#[verifier::external_body]
fn queue_new() -> (q: SegQueue<PathItem>)
    ensures
        queue_items(q) == Seq::<Seq<Seq<char>>>::empty(),
{
    SegQueue::new()
}

/// `SegQueue::push`: the item joins the queue at its tail.
#[verifier::external_body]
fn queue_push(q: &mut SegQueue<PathItem>, item: PathItem)
    ensures
        queue_items(*final(q)) == queue_items(*old(q)).push(item@),
{
    q.push(item)
}

/// `SegQueue::pop`: the head leaves the queue and is returned; an empty
/// queue gives `None` and stays as it is.
#[verifier::external_body]
fn queue_pop(q: &mut SegQueue<PathItem>) -> (r: Option<PathItem>)
    ensures
        match r {
            Some(item) => {
                &&& queue_items(*old(q)).len() > 0
                &&& item@ == queue_items(*old(q)).first()
                &&& queue_items(*final(q)) == queue_items(*old(q)).drop_first()
            },
            None => {
                &&& queue_items(*old(q)).len() == 0
                &&& queue_items(*final(q)) == queue_items(*old(q))
            },
        },
{
    q.pop()
}

/// `SegQueue::is_empty`: whether the queue holds nothing.
#[verifier::external_body]
fn queue_is_empty(q: &SegQueue<PathItem>) -> (b: bool)
    ensures
        b == (queue_items(*q).len() == 0),
{
    q.is_empty()
}

/// The views of a list of paths.
pub open spec fn paths(v: Seq<PathItem>) -> Seq<Seq<Seq<char>>> {
    v.map_values(|p: PathItem| p@)
}

/// The paths that wait to be processed, in the order in which they are handed
/// out. Each item is handed out once. What is stated of a call holds for the
/// caller that has the queue to itself for that call: workers that share a
/// queue take turns.
pub struct WorkQueue {
    inner: SegQueue<PathItem>,
}

impl View for WorkQueue {
    type V = Seq<Seq<Seq<char>>>;

    closed spec fn view(&self) -> Seq<Seq<Seq<char>>> {
        queue_items(self.inner)
    }
}

impl WorkQueue {
    /// An empty queue.
    pub fn new() -> (q: WorkQueue)
        ensures
            q@ == Seq::<Seq<Seq<char>>>::empty(),
    {
        WorkQueue { inner: queue_new() }
    }

    /// A queue that holds `files`, the first of them at its head.
    pub fn filled(files: &Vec<PathItem>) -> (q: WorkQueue)
        ensures
            q@ == paths(files@),
    {
        let mut q = WorkQueue::new();
        let mut i: usize = 0;
        while i < files.len()
            invariant
                i <= files@.len(),
                q@ =~= paths(files@).subrange(0, i as int),
            decreases files@.len() - i,
        {
            q.push(files[i].duplicate());
            i = i + 1;
        }
        q
    }

    /// Adds `item` at the tail.
    pub fn push(&mut self, item: PathItem)
        ensures
            final(self)@ == old(self)@.push(item@),
    {
        queue_push(&mut self.inner, item);
    }

    /// Hands out the head, where there is one. The queue never blocks: an
    /// empty queue answers `None` at once.
    pub fn try_pop(&mut self) -> (r: Option<PathItem>)
        ensures
            match r {
                Some(item) => {
                    &&& old(self)@.len() > 0
                    &&& item@ == old(self)@.first()
                    &&& final(self)@ == old(self)@.drop_first()
                },
                None => old(self)@.len() == 0 && final(self)@ == old(self)@,
            },
    {
        queue_pop(&mut self.inner)
    }

    /// Tells whether nothing is left.
    pub fn is_empty(&self) -> (b: bool)
        ensures
            b == (self@.len() == 0),
    {
        queue_is_empty(&self.inner)
    }
}

} // verus!

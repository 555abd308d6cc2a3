//! Compression of a whole directory tree: the settings, the work queue and
//! what a worker does with each item it takes.

use vstd::prelude::*;
use vstd::string::*;
use vstd::seq_lib::*;
use crate::compressor::name_or_empty;
use crate::compressor::Compressor;
use crate::compressor::target_path;
use crate::compressor::jpg_name;
use crate::factor::CalFunc;
use crate::factor::DefaultCalFunc;
use crate::path::spec_parent;
use crate::path::spec_strip_prefix;
use crate::path::starts_with;
use crate::path::PathItem;
use crate::queue::WorkQueue;
use crate::error::CompressError;
use crate::text::join2;
use crate::text::join3;
use crate::text::decimal;
use crate::text::to_decimal;

verus! {

/// What a worker does next.
#[derive(Debug)]
pub enum WorkerStep {
    /// The queue is empty: the worker ends.
    Finished,
    /// The item cannot be placed under the destination: report and go on.
    Skipped { message: String },
    /// Compress `input` into `dest_dir`, creating that directory if missing.
    Job { input: PathItem, dest_dir: PathItem },
}

/// A worker's step as plain values.
pub enum WorkerStepView {
    Finished,
    Skipped { message: Seq<char> },
    Job { input: Seq<Seq<char>>, dest_dir: Seq<Seq<char>> },
}

impl View for WorkerStep {
    type V = WorkerStepView;

    open spec fn view(&self) -> WorkerStepView {
        match self {
            WorkerStep::Finished => WorkerStepView::Finished,
            WorkerStep::Skipped { message } => WorkerStepView::Skipped { message: message@ },
            WorkerStep::Job { input, dest_dir } => WorkerStepView::Job {
                input: input@,
                dest_dir: dest_dir@,
            },
        }
    }
}

/// The directory under `dest` that mirrors the directory of `item` under
/// `root`, where `item` lies under `root`.
pub open spec fn mirrored_dir(
    item: Seq<Seq<char>>,
    root: Seq<Seq<char>>,
    dest: Seq<Seq<char>>,
) -> Option<Seq<Seq<char>>> {
    match spec_parent(item) {
        Some(parent) => match spec_strip_prefix(parent, root) {
            Some(relative) => Some(dest + relative),
            None => None,
        },
        None => None,
    }
}

/// What is done with `item`: it is compressed into the mirrored directory,
/// or skipped where there is none.
pub open spec fn plan(item: Seq<Seq<char>>, root: Seq<Seq<char>>, dest: Seq<Seq<char>>)
    -> WorkerStepView {
    match spec_parent(item) {
        Some(parent) => match spec_strip_prefix(parent, root) {
            Some(relative) => WorkerStepView::Job { input: item, dest_dir: dest + relative },
            None => WorkerStepView::Skipped {
                message: "Cannot strip the prefix of file "@ + name_or_empty(item),
            },
        },
        None => WorkerStepView::Skipped {
            message: "Cannot find the parent directory of file "@ + name_or_empty(item),
        },
    }
}

/// The output file planned for `item`, where it is not skipped.
pub open spec fn planned_output(
    item: Seq<Seq<char>>,
    root: Seq<Seq<char>>,
    dest: Seq<Seq<char>>,
) -> Option<Seq<Seq<char>>> {
    match plan(item, root, dest) {
        WorkerStepView::Job { input, dest_dir } => Some(target_path(input, dest_dir)),
        _ => None,
    }
}

/// The output files planned for a list of items.
pub open spec fn planned_outputs(
    items: Seq<Seq<Seq<char>>>,
    root: Seq<Seq<char>>,
    dest: Seq<Seq<char>>,
) -> Set<Seq<Seq<char>>> {
    Set::new(
        |out: Seq<Seq<char>>|
            exists|i: int|
                0 <= i < items.len() && planned_output(#[trigger] items[i], root, dest) == Some(
                    out,
                ),
    )
}

/// Every planned output lies in the directory that mirrors the input's own,
/// under the name made of the input's stem and `.jpg`: the destination root,
/// then the input's directory relative to the origin root, then that name.
pub proof fn lemma_output_mirrors_input(
    item: Seq<Seq<char>>,
    root: Seq<Seq<char>>,
    dest: Seq<Seq<char>>,
)
    ensures
        planned_output(item, root, dest) == match mirrored_dir(item, root, dest) {
            Some(dir) => Some(dir.push(jpg_name(name_or_empty(item)))),
            None => None,
        },
        match mirrored_dir(item, root, dest) {
            Some(dir) => {
                &&& item.len() > 0
                &&& starts_with(item.drop_last(), root)
                &&& dir == dest + item.drop_last().subrange(root.len() as int, item.len() - 1)
            },
            None => item.len() == 0 || !starts_with(item.drop_last(), root),
        },
{
}

/// The planned outputs depend on which items are queued, not on the order in
/// which they are taken, nor on how many workers take them.
pub proof fn lemma_outputs_order_free(
    first: Seq<Seq<Seq<char>>>,
    second: Seq<Seq<Seq<char>>>,
    root: Seq<Seq<char>>,
    dest: Seq<Seq<char>>,
)
    requires
        first.to_multiset() == second.to_multiset(),
    ensures
        planned_outputs(first, root, dest) == planned_outputs(second, root, dest),
{
    first.to_multiset_ensures();
    second.to_multiset_ensures();
    assert forall|out: Seq<Seq<char>>|
        planned_outputs(first, root, dest).contains(out) implies planned_outputs(
        second,
        root,
        dest,
    ).contains(out) by {
        let i = choose|i: int|
            0 <= i < first.len() && planned_output(#[trigger] first[i], root, dest) == Some(out);
        assert(second.to_multiset().count(first[i]) > 0);
    }
    assert forall|out: Seq<Seq<char>>|
        planned_outputs(second, root, dest).contains(out) implies planned_outputs(
        first,
        root,
        dest,
    ).contains(out) by {
        let i = choose|i: int|
            0 <= i < second.len() && planned_output(#[trigger] second[i], root, dest) == Some(
                out,
            );
        assert(first.to_multiset().count(second[i]) > 0);
    }
}

/// The output files planned for the items that `worker` takes, where
/// `takers` tells for each item of the queue which worker takes it.
pub open spec fn worker_outputs(
    items: Seq<Seq<Seq<char>>>,
    takers: Seq<nat>,
    worker: nat,
    root: Seq<Seq<char>>,
    dest: Seq<Seq<char>>,
) -> Set<Seq<Seq<char>>> {
    Set::new(
        |out: Seq<Seq<char>>|
            exists|i: int|
                0 <= i < items.len() && takers[i] == worker && planned_output(
                    #[trigger] items[i],
                    root,
                    dest,
                ) == Some(out),
    )
}

/// The output files planned by `workers` workers together.
pub open spec fn pool_outputs(
    items: Seq<Seq<Seq<char>>>,
    takers: Seq<nat>,
    workers: nat,
    root: Seq<Seq<char>>,
    dest: Seq<Seq<char>>,
) -> Set<Seq<Seq<char>>> {
    Set::new(
        |out: Seq<Seq<char>>|
            exists|worker: nat|
                worker < workers && #[trigger] worker_outputs(
                    items,
                    takers,
                    worker,
                    root,
                    dest,
                ).contains(out),
    )
}

/// However many workers there are and whichever of them takes which item,
/// together they plan the same outputs: those of the queue. One worker and
/// eight workers give the same set.
pub proof fn lemma_outputs_worker_free(
    items: Seq<Seq<Seq<char>>>,
    takers: Seq<nat>,
    workers: nat,
    root: Seq<Seq<char>>,
    dest: Seq<Seq<char>>,
)
    requires
        takers.len() == items.len(),
        forall|i: int| 0 <= i < takers.len() ==> takers[i] < workers,
    ensures
        pool_outputs(items, takers, workers, root, dest) == planned_outputs(items, root, dest),
{
    assert forall|out: Seq<Seq<char>>|
        planned_outputs(items, root, dest).contains(out) implies pool_outputs(
        items,
        takers,
        workers,
        root,
        dest,
    ).contains(out) by {
        let i = choose|i: int|
            0 <= i < items.len() && planned_output(#[trigger] items[i], root, dest) == Some(out);
        assert(worker_outputs(items, takers, takers[i], root, dest).contains(out));
    }
    assert(pool_outputs(items, takers, workers, root, dest) =~= planned_outputs(
        items,
        root,
        dest,
    ));
}

/// Compressor for a directory tree, with `R` as the rule that picks quality
/// and scale.
pub struct FolderCompressor<R: CalFunc> {
    calculate_quality_and_size: R,
    original_path: PathItem,
    destination_path: PathItem,
    thread_count: u32,
}

impl FolderCompressor<DefaultCalFunc> {
    /// A compressor from `origin_path` to `dest_path` with the default rule
    /// and one thread.
    pub fn new(origin_path: PathItem, dest_path: PathItem) -> (c: FolderCompressor<DefaultCalFunc>)
        ensures
            c.spec_original_path() == origin_path@,
            c.spec_destination_path() == dest_path@,
            c.spec_thread_count() == 1,
            c.spec_rule() == DefaultCalFunc,
    {
        FolderCompressor {
            calculate_quality_and_size: DefaultCalFunc,
            original_path: origin_path,
            destination_path: dest_path,
            thread_count: 1,
        }
    }
}

impl<R: CalFunc> FolderCompressor<R> {
    /// The root of the inputs.
    pub closed spec fn spec_original_path(&self) -> Seq<Seq<char>> {
        self.original_path@
    }

    /// The root of the outputs.
    pub closed spec fn spec_destination_path(&self) -> Seq<Seq<char>> {
        self.destination_path@
    }

    /// The number of worker threads.
    pub closed spec fn spec_thread_count(&self) -> u32 {
        self.thread_count
    }

    /// The rule that picks quality and scale.
    pub closed spec fn spec_rule(&self) -> R {
        self.calculate_quality_and_size
    }

    /// The same compressor with `cal_func` as its rule: from now on every
    /// factor is the answer of `cal_func`.
    pub fn set_cal_func<F: CalFunc>(self, cal_func: F) -> (c: FolderCompressor<F>)
        ensures
            c.spec_rule() == cal_func,
            c.spec_original_path() == self.spec_original_path(),
            c.spec_destination_path() == self.spec_destination_path(),
            c.spec_thread_count() == self.spec_thread_count(),
    {
        FolderCompressor {
            calculate_quality_and_size: cal_func,
            original_path: self.original_path,
            destination_path: self.destination_path,
            thread_count: self.thread_count,
        }
    }

    /// Sets the number of worker threads.
    pub fn set_thread_count(&mut self, thread_count: u32)
        ensures
            final(self).spec_thread_count() == thread_count,
            final(self).spec_original_path() == old(self).spec_original_path(),
            final(self).spec_destination_path() == old(self).spec_destination_path(),
            final(self).spec_rule() == old(self).spec_rule(),
    {
        self.thread_count = thread_count;
    }

    /// The number of worker threads.
    pub fn thread_count(&self) -> (n: u32)
        ensures
            n == self.spec_thread_count(),
    {
        self.thread_count
    }

    /// The root of the inputs.
    pub fn original_path(&self) -> (p: &PathItem)
        ensures
            p@ == self.spec_original_path(),
    {
        &self.original_path
    }

    /// The root of the outputs.
    pub fn destination_path(&self) -> (p: &PathItem)
        ensures
            p@ == self.spec_destination_path(),
    {
        &self.destination_path
    }

    /// The rule that picks quality and scale.
    pub fn rule(&self) -> (r: &R)
        ensures
            *r == self.spec_rule(),
    {
        &self.calculate_quality_and_size
    }

    /// The compressor of one file of this tree: it writes into `dest_dir`
    /// and picks quality and scale by this tree's rule.
    pub fn compressor_for(&self, input: PathItem, dest_dir: PathItem) -> (c: Compressor<'_, R>)
        ensures
            c.spec_input() == input@,
            c.spec_dest() == dest_dir@,
            c.spec_rule() == self.spec_rule(),
    {
        Compressor::new(input, dest_dir, &self.calculate_quality_and_size)
    }

    /// Takes the next item from the queue and says what to do with it.
    pub fn next_job(&self, queue: &mut WorkQueue) -> (r: WorkerStep)
        ensures
            old(queue)@.len() == 0 ==> r@ == WorkerStepView::Finished && final(queue)@ == old(
                queue,
            )@,
            old(queue)@.len() > 0 ==> r@ == plan(
                old(queue)@.first(),
                self.spec_original_path(),
                self.spec_destination_path(),
            ) && final(queue)@ == old(queue)@.drop_first(),
    {
        match queue.try_pop() {
            None => WorkerStep::Finished,
            Some(file) => {
                let file_name = match file.file_name() {
                    Some(n) => n,
                    None => String::new(),
                };
                match file.parent() {
                    Some(parent) => match parent.strip_prefix(&self.original_path) {
                        Some(relative) => {
                            let dest_dir = self.destination_path.join(&relative);
                            WorkerStep::Job { input: file, dest_dir }
                        },
                        None => WorkerStep::Skipped {
                            message: join2("Cannot strip the prefix of file ", file_name.as_str()),
                        },
                    },
                    None => WorkerStep::Skipped {
                        message: join2(
                            "Cannot find the parent directory of file ",
                            file_name.as_str(),
                        ),
                    },
                }
            },
        }
    }
}

/// The message that opens a batch of `count` files.
pub fn total_count_message(count: usize) -> (m: String)
    ensures
        m@ == "Total file count: "@ + decimal(count as nat),
{
    let n = to_decimal(count as u64);
    join2("Total file count: ", n.as_str())
}

/// The message for a file whose output `output` is in place.
pub fn file_complete_message(output: &PathItem) -> (m: String)
    ensures
        m@ == "Compress complete! File: "@ + name_or_empty(output@),
{
    let name = match output.file_name() {
        Some(n) => n,
        None => String::new(),
    };
    join2("Compress complete! File: ", name.as_str())
}

/// The line for a file that could not be compressed, for a worker that
/// prints what it does.
pub fn file_failure_message(input: &PathItem, error: &CompressError) -> (m: String)
    ensures
        m@ == "Cannot compress image file "@ + name_or_empty(input@) + " : "@ + error.message@,
{
    let name = match input.file_name() {
        Some(n) => n,
        None => String::new(),
    };
    let head = join3("Cannot compress image file ", name.as_str(), " : ");
    join2(head.as_str(), error.message.as_str())
}

/// The message for an input whose destination directory could not be made.
pub fn dir_failure_message(input: &PathItem) -> (m: String)
    ensures
        m@ == "Cannot create the parent directory of file "@ + name_or_empty(input@),
{
    let name = match input.file_name() {
        Some(n) => n,
        None => String::new(),
    };
    join2("Cannot create the parent directory of file ", name.as_str())
}

/// The message that closes a batch.
pub fn batch_complete_message() -> (m: String)
    ensures
        m@ == "Compress complete!"@,
{
    String::from_str("Compress complete!")
}

} // verus!

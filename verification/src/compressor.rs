//! The per-file pipeline: what to ask of the file system and the codec for
//! one input, step by step, and what each answer leads to.

use vstd::prelude::*;
use vstd::string::*;
use image::DynamicImage;
use crate::codec::convert_image;
use crate::codec::decoded_as;
use crate::codec::decodes_as;
use crate::codec::image_as_jpeg;
use crate::codec::resizable;
use crate::codec::writes_as_jpeg;
use crate::codec::CONVERT_QUALITY;
use crate::codec::image_height;
use crate::codec::image_width;
use crate::codec::decode_image;
use crate::codec::image_size;
use crate::codec::resized_from;
use crate::codec::resize_image;
use crate::codec::RawImage;
use crate::codec::RawImageView;
use crate::error::CompressError;
use crate::error::FailureKind;
use crate::factor::CalFunc;
use crate::factor::Factor;
use crate::path::extension;
use crate::path::spec_extension;
use crate::path::spec_file_name;
use crate::path::spec_parent;
use crate::path::spec_stem;
use crate::path::stem;
use crate::path::PathItem;
use crate::queue::paths;
use crate::text::join2;
use crate::text::join3;

verus! {

/// The name a path ends in; empty where it has none.
pub open spec fn name_or_empty(p: Seq<Seq<char>>) -> Seq<char> {
    match spec_file_name(p) {
        Some(n) => n,
        None => Seq::empty(),
    }
}

/// The name of the JPEG made from a file called `name`: its stem and `.jpg`.
pub open spec fn jpg_name(name: Seq<char>) -> Seq<char> {
    spec_stem(name) + ".jpg"@
}

/// The output file for `input` in the directory `dest`.
pub open spec fn target_path(input: Seq<Seq<char>>, dest: Seq<Seq<char>>) -> Seq<Seq<char>> {
    dest.push(jpg_name(name_or_empty(input)))
}

/// The file in `dest` that carries the input's own name.
pub open spec fn same_name_path(input: Seq<Seq<char>>, dest: Seq<Seq<char>>) -> Seq<Seq<char>> {
    dest.push(name_or_empty(input))
}

/// The directory that holds `input`.
pub open spec fn dir_of(input: Seq<Seq<char>>) -> Seq<Seq<char>> {
    if input.len() == 0 {
        input
    } else {
        input.drop_last()
    }
}

/// Where the JPEG conversion of `input` is kept until the output is written:
/// beside the input.
pub open spec fn converted_path(input: Seq<Seq<char>>) -> Seq<Seq<char>> {
    dir_of(input).push(jpg_name(name_or_empty(input)))
}

/// The extension of the input's name; empty where it has none.
pub open spec fn input_extension(input: Seq<Seq<char>>) -> Seq<char> {
    match spec_extension(name_or_empty(input)) {
        Some(e) => e,
        None => Seq::empty(),
    }
}

/// An input is converted first unless its extension is `jpg` or `jpeg`,
/// spelled exactly so.
pub open spec fn needs_conversion(input: Seq<Seq<char>>) -> bool {
    let e = spec_extension(name_or_empty(input));
    e != Some("jpg"@) && e != Some("jpeg"@)
}

/// Index of the first entry equal to `item`, or `-1` where none is.
pub open spec fn first_match(entries: Seq<Seq<Seq<char>>>, item: Seq<Seq<char>>) -> int
    decreases entries.len(),
{
    if entries.len() == 0 {
        -1
    } else if first_match(entries.drop_last(), item) >= 0 {
        first_match(entries.drop_last(), item)
    } else if entries.last() == item {
        entries.len() - 1
    } else {
        -1
    }
}

/// `first_match` answers with an index of the listing, or `-1`.
pub proof fn lemma_first_match_bound(entries: Seq<Seq<Seq<char>>>, item: Seq<Seq<char>>)
    ensures
        -1 <= first_match(entries, item) < entries.len(),
    decreases entries.len(),
{
    if entries.len() > 0 {
        lemma_first_match_bound(entries.drop_last(), item);
    }
}

/// Entry `i` of a listing counts as a sibling of `temp`: it is not the
/// listing's first mention of `temp` itself, it lies in the same directory,
/// and it has the same stem.
pub open spec fn is_sibling(entries: Seq<Seq<Seq<char>>>, temp: Seq<Seq<char>>, i: int) -> bool {
    &&& 0 <= i < entries.len()
    &&& i != first_match(entries, temp)
    &&& spec_parent(entries[i]) == spec_parent(temp)
    &&& spec_stem(name_or_empty(entries[i])) == spec_stem(name_or_empty(temp))
}

/// Some entry of the listing, other than `temp` itself, shares its stem.
pub open spec fn stem_shared(entries: Seq<Seq<Seq<char>>>, temp: Seq<Seq<char>>) -> bool {
    exists|i: int| is_sibling(entries, temp, i)
}

/// Where a file stands in the pipeline.
#[derive(Debug)]
pub enum PipelineState {
    /// Waiting to learn what the destination already holds.
    FormatCheck,
    /// Waiting for the conversion to JPEG.
    ConvertThenCompress,
    /// The conversion failed; waiting for the verbatim copy.
    AbortToCopy { reason: String },
    /// Waiting for the decoded and resized image.
    Resize { converted: bool },
    /// Waiting for the encoded image.
    Encode { converted: bool },
    /// Waiting for the output to be written.
    Write { converted: bool },
    /// Waiting for the listing of the converted file's directory.
    CleanupTemp,
    /// Waiting for the converted file to be deleted.
    DeleteTemp,
    /// The output is in place.
    Done,
    /// The file was given up.
    Failed { error: CompressError },
}

/// What the pipeline asks for next.
#[derive(Debug)]
pub enum Action {
    /// Tell whether `same_name` or `target` exists as a file.
    CheckDestination { same_name: PathItem, target: PathItem },
    /// Read `source`, convert it to a JPEG file and write that at `temp`.
    Convert { source: PathItem, temp: PathItem },
    /// Copy `source` to `dest` as it is.
    CopyOriginal { source: PathItem, dest: PathItem },
    /// Read `source`, take the size in bytes of `size_of`, and resize.
    Resize { source: PathItem, size_of: PathItem },
    /// Encode `image` as a JPEG at its quality.
    Encode { image: RawImage },
    /// Create the directory of `path` if needed and write `data` there.
    WriteOutput { path: PathItem, data: Vec<u8> },
    /// List the files in `dir`.
    ListSiblings { dir: PathItem },
    /// Delete the file `path`.
    DeleteTemp { path: PathItem },
    /// Nothing: the pipeline has ended.
    Finish,
}

/// What happened to the last action.
#[derive(Debug)]
pub enum Event {
    DestinationChecked { same_name_exists: bool, target_exists: bool },
    Converted,
    ConvertFailed { reason: String },
    Copied,
    Resized { image: RawImage },
    Encoded { data: Vec<u8> },
    /// Decoding, resizing or encoding failed.
    CodecFailed { error: CompressError },
    Written,
    Siblings { entries: Vec<PathItem> },
    Deleted,
    /// Reading, writing, copying, listing or deleting failed.
    IoFailed { reason: String },
}

/// A pipeline state as plain values.
pub enum StateView {
    FormatCheck,
    ConvertThenCompress,
    AbortToCopy { reason: Seq<char> },
    Resize { converted: bool },
    Encode { converted: bool },
    Write { converted: bool },
    CleanupTemp,
    DeleteTemp,
    Done,
    Failed { kind: FailureKind, message: Seq<char> },
}

/// An action as plain values.
pub enum ActionView {
    CheckDestination { same_name: Seq<Seq<char>>, target: Seq<Seq<char>> },
    Convert { source: Seq<Seq<char>>, temp: Seq<Seq<char>> },
    CopyOriginal { source: Seq<Seq<char>>, dest: Seq<Seq<char>> },
    Resize { source: Seq<Seq<char>>, size_of: Seq<Seq<char>> },
    Encode { image: RawImageView },
    WriteOutput { path: Seq<Seq<char>>, data: Seq<u8> },
    ListSiblings { dir: Seq<Seq<char>> },
    DeleteTemp { path: Seq<Seq<char>> },
    Finish,
}

/// An event as plain values.
pub enum EventView {
    DestinationChecked { same_name_exists: bool, target_exists: bool },
    Converted,
    ConvertFailed { reason: Seq<char> },
    Copied,
    Resized { image: RawImageView },
    Encoded { data: Seq<u8> },
    CodecFailed { kind: FailureKind, message: Seq<char> },
    Written,
    Siblings { entries: Seq<Seq<Seq<char>>> },
    Deleted,
    IoFailed { reason: Seq<char> },
}

impl View for PipelineState {
    type V = StateView;

    open spec fn view(&self) -> StateView {
        match self {
            PipelineState::FormatCheck => StateView::FormatCheck,
            PipelineState::ConvertThenCompress => StateView::ConvertThenCompress,
            PipelineState::AbortToCopy { reason } => StateView::AbortToCopy { reason: reason@ },
            PipelineState::Resize { converted } => StateView::Resize { converted: *converted },
            PipelineState::Encode { converted } => StateView::Encode { converted: *converted },
            PipelineState::Write { converted } => StateView::Write { converted: *converted },
            PipelineState::CleanupTemp => StateView::CleanupTemp,
            PipelineState::DeleteTemp => StateView::DeleteTemp,
            PipelineState::Done => StateView::Done,
            PipelineState::Failed { error } => StateView::Failed {
                kind: error.kind,
                message: error.message@,
            },
        }
    }
}

impl View for Action {
    type V = ActionView;

    open spec fn view(&self) -> ActionView {
        match self {
            Action::CheckDestination { same_name, target } => ActionView::CheckDestination {
                same_name: same_name@,
                target: target@,
            },
            Action::Convert { source, temp } => ActionView::Convert {
                source: source@,
                temp: temp@,
            },
            Action::CopyOriginal { source, dest } => ActionView::CopyOriginal {
                source: source@,
                dest: dest@,
            },
            Action::Resize { source, size_of } => ActionView::Resize {
                source: source@,
                size_of: size_of@,
            },
            Action::Encode { image } => ActionView::Encode { image: image@ },
            Action::WriteOutput { path, data } => ActionView::WriteOutput {
                path: path@,
                data: data@,
            },
            Action::ListSiblings { dir } => ActionView::ListSiblings { dir: dir@ },
            Action::DeleteTemp { path } => ActionView::DeleteTemp { path: path@ },
            Action::Finish => ActionView::Finish,
        }
    }
}

impl View for Event {
    type V = EventView;

    open spec fn view(&self) -> EventView {
        match self {
            Event::DestinationChecked { same_name_exists, target_exists } => {
                EventView::DestinationChecked {
                    same_name_exists: *same_name_exists,
                    target_exists: *target_exists,
                }
            },
            Event::Converted => EventView::Converted,
            Event::ConvertFailed { reason } => EventView::ConvertFailed { reason: reason@ },
            Event::Copied => EventView::Copied,
            Event::Resized { image } => EventView::Resized { image: image@ },
            Event::Encoded { data } => EventView::Encoded { data: data@ },
            Event::CodecFailed { error } => EventView::CodecFailed {
                kind: error.kind,
                message: error.message@,
            },
            Event::Written => EventView::Written,
            Event::Siblings { entries } => EventView::Siblings { entries: paths(entries@) },
            Event::Deleted => EventView::Deleted,
            Event::IoFailed { reason } => EventView::IoFailed { reason: reason@ },
        }
    }
}

/// The pipeline ends in failure.
pub open spec fn fail(kind: FailureKind, message: Seq<char>) -> (StateView, ActionView) {
    (StateView::Failed { kind, message }, ActionView::Finish)
}

/// An answer that does not fit the question asked ends the pipeline.
pub open spec fn unexpected() -> (StateView, ActionView) {
    fail(FailureKind::Io, "unexpected event"@)
}

/// The first step for `input` with `dest` as its destination directory.
pub open spec fn spec_begin(input: Seq<Seq<char>>, dest: Seq<Seq<char>>) -> (
    StateView,
    ActionView,
) {
    (
        StateView::FormatCheck,
        ActionView::CheckDestination {
            same_name: same_name_path(input, dest),
            target: target_path(input, dest),
        },
    )
}

/// After the check of the destination: nothing is overwritten, ever.
pub open spec fn after_format_check(
    input: Seq<Seq<char>>,
    same_name_exists: bool,
    target_exists: bool,
) -> (StateView, ActionView) {
    if same_name_exists {
        fail(
            FailureKind::AlreadyExists,
            "The file is already existed! file: "@ + name_or_empty(input),
        )
    } else if target_exists {
        fail(
            FailureKind::AlreadyExists,
            "The compressed file is already existed! file: "@ + jpg_name(name_or_empty(input)),
        )
    } else if needs_conversion(input) {
        (
            StateView::ConvertThenCompress,
            ActionView::Convert { source: input, temp: converted_path(input) },
        )
    } else {
        (
            StateView::Resize { converted: false },
            ActionView::Resize { source: input, size_of: input },
        )
    }
}

/// The text reported for an input that was copied because it could not be
/// converted.
pub open spec fn copy_reason(input: Seq<Seq<char>>, reason: Seq<char>) -> Seq<char> {
    "Cannot convert file "@ + name_or_empty(input) + " to jpg. Just copy it. : "@ + reason
}

/// The text reported for a converted file that was kept.
pub open spec fn keep_reason(input: Seq<Seq<char>>) -> Seq<char> {
    "Cannot delete! The file "@ + jpg_name(name_or_empty(input))
        + " can be the original file. "@
}

/// The pipeline's rule: the state and the action that follow `event` in
/// `state`, for `input` with `dest` as its destination directory.
pub open spec fn spec_step(
    input: Seq<Seq<char>>,
    dest: Seq<Seq<char>>,
    state: StateView,
    event: EventView,
) -> (StateView, ActionView) {
    match state {
        StateView::FormatCheck => match event {
            EventView::DestinationChecked { same_name_exists, target_exists } => {
                after_format_check(input, same_name_exists, target_exists)
            },
            EventView::IoFailed { reason } => fail(FailureKind::Io, reason),
            _ => unexpected(),
        },
        StateView::ConvertThenCompress => match event {
            EventView::Converted => (
                StateView::Resize { converted: true },
                ActionView::Resize { source: converted_path(input), size_of: input },
            ),
            EventView::ConvertFailed { reason } => (
                StateView::AbortToCopy { reason: copy_reason(input, reason) },
                ActionView::CopyOriginal { source: input, dest: same_name_path(input, dest) },
            ),
            _ => unexpected(),
        },
        StateView::AbortToCopy { reason } => match event {
            EventView::Copied => fail(FailureKind::ConvertFailed, reason),
            EventView::IoFailed { reason: io_reason } => fail(FailureKind::Io, io_reason),
            _ => unexpected(),
        },
        StateView::Resize { converted } => match event {
            EventView::Resized { image } => (
                StateView::Encode { converted },
                ActionView::Encode { image },
            ),
            EventView::CodecFailed { kind, message } => fail(kind, message),
            EventView::IoFailed { reason } => fail(FailureKind::Io, reason),
            _ => unexpected(),
        },
        StateView::Encode { converted } => match event {
            EventView::Encoded { data } => (
                StateView::Write { converted },
                ActionView::WriteOutput { path: target_path(input, dest), data },
            ),
            EventView::CodecFailed { kind, message } => fail(kind, message),
            _ => unexpected(),
        },
        StateView::Write { converted } => match event {
            EventView::Written => if converted {
                (StateView::CleanupTemp, ActionView::ListSiblings { dir: dir_of(input) })
            } else {
                (StateView::Done, ActionView::Finish)
            },
            EventView::IoFailed { reason } => fail(FailureKind::Io, reason),
            _ => unexpected(),
        },
        StateView::CleanupTemp => match event {
            EventView::Siblings { entries } => if stem_shared(entries, converted_path(input)) {
                (StateView::DeleteTemp, ActionView::DeleteTemp { path: converted_path(input) })
            } else {
                fail(FailureKind::NotFound, keep_reason(input))
            },
            EventView::IoFailed { reason } => fail(FailureKind::Io, reason),
            _ => unexpected(),
        },
        StateView::DeleteTemp => match event {
            EventView::Deleted => (StateView::Done, ActionView::Finish),
            EventView::IoFailed { reason } => fail(FailureKind::Io, reason),
            _ => unexpected(),
        },
        StateView::Done => (StateView::Done, ActionView::Finish),
        StateView::Failed { kind, message } => (state, ActionView::Finish),
    }
}

/// The state after the answers `events`, given in order from the start.
pub open spec fn run_state(
    input: Seq<Seq<char>>,
    dest: Seq<Seq<char>>,
    events: Seq<EventView>,
) -> StateView
    decreases events.len(),
{
    if events.len() == 0 {
        spec_begin(input, dest).0
    } else {
        spec_step(input, dest, run_state(input, dest, events.drop_last()), events.last()).0
    }
}

/// The action asked for after the answers `events`.
pub open spec fn run_action(
    input: Seq<Seq<char>>,
    dest: Seq<Seq<char>>,
    events: Seq<EventView>,
) -> ActionView {
    if events.len() == 0 {
        spec_begin(input, dest).1
    } else {
        spec_step(input, dest, run_state(input, dest, events.drop_last()), events.last()).1
    }
}

/// Nothing is overwritten: once the destination is reported to hold the
/// output, or a file of the input's name, the run has failed with
/// `AlreadyExists` and asks for nothing more, whatever is answered after.
pub proof fn lemma_existing_output_is_kept(
    input: Seq<Seq<char>>,
    dest: Seq<Seq<char>>,
    events: Seq<EventView>,
)
    requires
        events.len() > 0,
        events[0] matches EventView::DestinationChecked { same_name_exists, target_exists }
            && (same_name_exists || target_exists),
    ensures
        run_state(input, dest, events) matches StateView::Failed { kind, .. } && kind
            == FailureKind::AlreadyExists,
        run_action(input, dest, events) == ActionView::Finish,
    decreases events.len(),
{
    if events.len() > 1 {
        lemma_existing_output_is_kept(input, dest, events.drop_last());
    }
}

/// The destination holds neither the output nor a file of the input's name.
pub open spec fn destination_free(event: EventView) -> bool {
    event == (EventView::DestinationChecked { same_name_exists: false, target_exists: false })
}

/// A run is past its first state only after a first answer, and it is at
/// work or done only if that answer found the destination free.
pub proof fn lemma_progress_needs_free_destination(
    input: Seq<Seq<char>>,
    dest: Seq<Seq<char>>,
    events: Seq<EventView>,
)
    ensures
        run_state(input, dest, events) is FormatCheck <==> events.len() == 0,
        !(run_state(input, dest, events) is FormatCheck) && !(run_state(input, dest, events)
            is Failed) ==> events.len() > 0 && destination_free(events[0]),
    decreases events.len(),
{
    if events.len() > 0 {
        lemma_progress_needs_free_destination(input, dest, events.drop_last());
    }
}

/// Nothing is written or copied into the destination unless the run began
/// with the answer that the destination is free.
pub proof fn lemma_write_needs_free_destination(
    input: Seq<Seq<char>>,
    dest: Seq<Seq<char>>,
    events: Seq<EventView>,
)
    requires
        run_action(input, dest, events) is WriteOutput || run_action(input, dest, events)
            is CopyOriginal,
    ensures
        events.len() > 0,
        destination_free(events[0]),
{
    lemma_progress_needs_free_destination(input, dest, events.drop_last());
}

/// The file that a run asks about before anything else is the file that it
/// writes at the end: a second run over the same input finds the first
/// run's output.
pub proof fn lemma_checked_file_is_written(
    input: Seq<Seq<char>>,
    dest: Seq<Seq<char>>,
    converted: bool,
    data: Seq<u8>,
)
    ensures
        spec_begin(input, dest).1 == (ActionView::CheckDestination {
            same_name: same_name_path(input, dest),
            target: target_path(input, dest),
        }),
        spec_step(
            input,
            dest,
            StateView::Encode { converted },
            EventView::Encoded { data },
        ).1 == (ActionView::WriteOutput { path: target_path(input, dest), data }),
{
}

/// Only an encoded image leads to a write, and only to the planned output.
pub proof fn lemma_write_only_after_compress(
    input: Seq<Seq<char>>,
    dest: Seq<Seq<char>>,
    state: StateView,
    event: EventView,
)
    requires
        spec_step(input, dest, state, event).1 is WriteOutput,
    ensures
        state is Encode,
        event is Encoded,
        spec_step(input, dest, state, event).1->WriteOutput_path == target_path(input, dest),
{
}

/// What `rule` gives for the image `img` of a file of `file_size` bytes.
pub open spec fn rule_answer<R: CalFunc>(rule: R, img: DynamicImage, file_size: u64) -> Factor {
    rule.spec_factor(image_width(img) as u32, image_height(img) as u32, file_size)
}

/// Compresses one file: the input, the directory that takes the output, and
/// the rule that picks quality and scale.
pub struct Compressor<'a, R: CalFunc> {
    calculate_quality_and_size: &'a R,
    original_dir: PathItem,
    destination_dir: PathItem,
}

impl<'a, R: CalFunc> Compressor<'a, R> {
    /// The input file.
    pub closed spec fn spec_input(&self) -> Seq<Seq<char>> {
        self.original_dir@
    }

    /// The directory that takes the output.
    pub closed spec fn spec_dest(&self) -> Seq<Seq<char>> {
        self.destination_dir@
    }

    /// The rule that picks quality and scale.
    pub closed spec fn spec_rule(&self) -> R {
        *self.calculate_quality_and_size
    }

    /// A compressor for the file `origin_dir`, writing into `dest_dir`, with
    /// `calculator` as the rule that picks quality and scale.
    pub fn new(origin_dir: PathItem, dest_dir: PathItem, calculator: &'a R) -> (c: Compressor<
        'a,
        R,
    >)
        ensures
            c.spec_input() == origin_dir@,
            c.spec_dest() == dest_dir@,
            c.spec_rule() == *calculator,
    {
        Compressor {
            calculate_quality_and_size: calculator,
            original_dir: origin_dir,
            destination_dir: dest_dir,
        }
    }

    /// The input's file name; empty where it has none.
    pub fn file_name(&self) -> (name: String)
        ensures
            name@ == name_or_empty(self.spec_input()),
    {
        match self.original_dir.file_name() {
            Some(n) => n,
            None => String::new(),
        }
    }

    /// The name of the output file.
    pub fn target_name(&self) -> (name: String)
        ensures
            name@ == jpg_name(name_or_empty(self.spec_input())),
    {
        let name = self.file_name();
        let s = stem(name.as_str());
        join2(s.as_str(), ".jpg")
    }

    /// The output file.
    pub fn target_file(&self) -> (p: PathItem)
        ensures
            p@ == target_path(self.spec_input(), self.spec_dest()),
    {
        let name = self.target_name();
        self.destination_dir.join_name(name.as_str())
    }

    /// The file in the destination that carries the input's own name.
    pub fn same_name_file(&self) -> (p: PathItem)
        ensures
            p@ == same_name_path(self.spec_input(), self.spec_dest()),
    {
        let name = self.file_name();
        self.destination_dir.join_name(name.as_str())
    }

    /// The directory that holds the input.
    pub fn input_dir(&self) -> (p: PathItem)
        ensures
            p@ == dir_of(self.spec_input()),
    {
        match self.original_dir.parent() {
            Some(p) => p,
            None => self.original_dir.duplicate(),
        }
    }

    /// Where the JPEG conversion of the input is kept.
    pub fn converted_file(&self) -> (p: PathItem)
        ensures
            p@ == converted_path(self.spec_input()),
    {
        let name = self.target_name();
        self.input_dir().join_name(name.as_str())
    }

    /// Tells whether the input has to be converted to JPEG first.
    pub fn needs_conversion(&self) -> (b: bool)
        ensures
            b == needs_conversion(self.spec_input()),
    {
        let name = self.file_name();
        match extension(name.as_str()) {
            Some(e) => {
                let jpg = String::from_str("jpg");
                let jpeg = String::from_str("jpeg");
                e != jpg && e != jpeg
            },
            None => true,
        }
    }

    /// The first state and the first question.
    pub fn begin(&self) -> (r: (PipelineState, Action))
        ensures
            (r.0@, r.1@) == spec_begin(self.spec_input(), self.spec_dest()),
    {
        (
            PipelineState::FormatCheck,
            Action::CheckDestination {
                same_name: self.same_name_file(),
                target: self.target_file(),
            },
        )
    }

    /// Decides, from a listing of the converted file's directory, whether the
    /// converted file may be deleted: only if another entry shares its stem.
    pub fn may_delete_converted(&self, entries: &Vec<PathItem>) -> (b: bool)
        ensures
            b == stem_shared(paths(entries@), converted_path(self.spec_input())),
    {
        let temp = self.converted_file();
        let temp_name = match temp.file_name() {
            Some(n) => n,
            None => String::new(),
        };
        let temp_stem = stem(temp_name.as_str());
        let temp_dir = temp.parent();
        let ghost listing = paths(entries@);
        let mut first: Option<usize> = None;
        let mut shared: Option<usize> = None;
        let mut i: usize = 0;
        while i < entries.len()
            invariant
                i <= entries@.len(),
                listing == paths(entries@),
                temp@ == converted_path(self.spec_input()),
                temp_stem@ == spec_stem(name_or_empty(temp@)),
                match temp_dir {
                    Some(d) => spec_parent(temp@) == Some(d@),
                    None => spec_parent(temp@).is_none(),
                },
                match first {
                    Some(k) => first_match(listing.subrange(0, i as int), temp@) == k,
                    None => first_match(listing.subrange(0, i as int), temp@) == -1,
                },
                match shared {
                    Some(k) => k < i && k as int != first_match(listing.subrange(0, i as int), temp@)
                        && spec_parent(listing[k as int]) == spec_parent(temp@) && spec_stem(
                        name_or_empty(listing[k as int]),
                    ) == temp_stem@,
                    None => forall|j: int|
                        0 <= j < i && j != first_match(listing.subrange(0, i as int), temp@)
                            && spec_parent(#[trigger] listing[j]) == spec_parent(temp@)
                            ==> spec_stem(name_or_empty(listing[j])) != temp_stem@,
                },
            decreases entries@.len() - i,
        {
            proof {
                let next = listing.subrange(0, i + 1);
                assert(next.drop_last() =~= listing.subrange(0, i as int));
                lemma_first_match_bound(listing.subrange(0, i as int), temp@);
            }
            let entry = &entries[i];
            if first.is_none() && entry.same_as(&temp) {
                first = Some(i);
            } else if shared.is_none() && same_dir(&entry.parent(), &temp_dir) {
                let name = match entry.file_name() {
                    Some(n) => n,
                    None => String::new(),
                };
                let s = stem(name.as_str());
                if s == temp_stem {
                    shared = Some(i);
                }
            }
            i = i + 1;
        }
        proof {
            assert(listing.subrange(0, entries@.len() as int) =~= listing);
            match shared {
                Some(k) => {
                    assert(is_sibling(listing, temp@, k as int));
                },
                None => {
                    assert(forall|j: int| !is_sibling(listing, temp@, j));
                },
            }
        }
        shared.is_some()
    }

    /// Converts the input, held in memory, to a JPEG file: decodes it as the
    /// format that the input's extension stands for and writes it anew.
    pub fn convert_to_jpg(&self, bytes: &[u8]) -> (r: Result<Vec<u8>, CompressError>)
        ensures
            r is Ok <==> decodes_as(bytes@, input_extension(self.spec_input()))
                && writes_as_jpeg(
                decoded_as(bytes@, input_extension(self.spec_input())),
                CONVERT_QUALITY as int,
            ),
            r matches Ok(out) ==> out@ == image_as_jpeg(
                decoded_as(bytes@, input_extension(self.spec_input())),
                CONVERT_QUALITY as int,
            ),
            r matches Err(e) ==> e.kind == (if decodes_as(
                bytes@,
                input_extension(self.spec_input()),
            ) {
                FailureKind::Encode
            } else {
                FailureKind::Decode
            }),
    {
        let name = self.file_name();
        let ext = match extension(name.as_str()) {
            Some(e) => e,
            None => String::new(),
        };
        convert_image(bytes, ext.as_str())
    }

    /// Decodes a JPEG file held in memory, asks the rule for quality and
    /// scale, and resizes with the triangle filter. `file_size` is the size
    /// in bytes of the original file.
    ///
    /// Bytes that do not decode as JPEG are told as a failure of decoding,
    /// and an image that cannot be resized as a failure of resizing.
    /// Otherwise an image comes out: the decoded image resized by the factor
    /// that the rule gives for the decoded width and height and `file_size`,
    /// with that factor's quality to encode at.
    pub fn resize(&self, bytes: &[u8], file_size: u64) -> (r: Result<RawImage, CompressError>)
        ensures
            match r {
                Ok(image) => decodes_as(bytes@, "jpg"@) && resized_from(
                    decoded_as(bytes@, "jpg"@),
                    rule_answer(
                        self.spec_rule(),
                        decoded_as(bytes@, "jpg"@),
                        file_size,
                    ).spec_quality(),
                    rule_answer(
                        self.spec_rule(),
                        decoded_as(bytes@, "jpg"@),
                        file_size,
                    ).spec_scale(),
                    image@,
                ),
                Err(e) => if decodes_as(bytes@, "jpg"@) {
                    e.kind == FailureKind::Resize && !resizable(
                        image_width(decoded_as(bytes@, "jpg"@)),
                        image_height(decoded_as(bytes@, "jpg"@)),
                        rule_answer(
                            self.spec_rule(),
                            decoded_as(bytes@, "jpg"@),
                            file_size,
                        ).spec_scale(),
                    )
                } else {
                    e.kind == FailureKind::Decode
                },
            },
    {
        let img = match decode_image(bytes, "jpg") {
            Ok(img) => img,
            Err(e) => {
                return Err(e);
            },
        };
        let (width, height) = image_size(&img);
        let factor = self.calculate_quality_and_size.factor(width, height, file_size);
        resize_image(&img, &factor)
    }

    /// The state and the action that follow `event` in `state`.
    pub fn step(&self, state: PipelineState, event: Event) -> (r: (PipelineState, Action))
        ensures
            (r.0@, r.1@) == spec_step(self.spec_input(), self.spec_dest(), state@, event@),
    {
        match state {
            PipelineState::FormatCheck => match event {
                Event::DestinationChecked { same_name_exists, target_exists } => {
                    if same_name_exists {
                        let name = self.file_name();
                        failed(
                            FailureKind::AlreadyExists,
                            join2("The file is already existed! file: ", name.as_str()),
                        )
                    } else if target_exists {
                        let name = self.target_name();
                        failed(
                            FailureKind::AlreadyExists,
                            join2("The compressed file is already existed! file: ", name.as_str()),
                        )
                    } else if self.needs_conversion() {
                        (
                            PipelineState::ConvertThenCompress,
                            Action::Convert {
                                source: self.original_dir.duplicate(),
                                temp: self.converted_file(),
                            },
                        )
                    } else {
                        (
                            PipelineState::Resize { converted: false },
                            Action::Resize {
                                source: self.original_dir.duplicate(),
                                size_of: self.original_dir.duplicate(),
                            },
                        )
                    }
                },
                Event::IoFailed { reason } => failed(FailureKind::Io, reason),
                _ => failed_unexpected(),
            },
            PipelineState::ConvertThenCompress => match event {
                Event::Converted => (
                    PipelineState::Resize { converted: true },
                    Action::Resize {
                        source: self.converted_file(),
                        size_of: self.original_dir.duplicate(),
                    },
                ),
                Event::ConvertFailed { reason } => {
                    let name = self.file_name();
                    let head = join3("Cannot convert file ", name.as_str(), " to jpg. Just copy it. : ");
                    let text = join2(head.as_str(), reason.as_str());
                    (
                        PipelineState::AbortToCopy { reason: text },
                        Action::CopyOriginal {
                            source: self.original_dir.duplicate(),
                            dest: self.same_name_file(),
                        },
                    )
                },
                _ => failed_unexpected(),
            },
            PipelineState::AbortToCopy { reason } => match event {
                Event::Copied => failed(FailureKind::ConvertFailed, reason),
                Event::IoFailed { reason: io_reason } => failed(FailureKind::Io, io_reason),
                _ => failed_unexpected(),
            },
            PipelineState::Resize { converted } => match event {
                Event::Resized { image } => (
                    PipelineState::Encode { converted },
                    Action::Encode { image },
                ),
                Event::CodecFailed { error } => (PipelineState::Failed { error }, Action::Finish),
                Event::IoFailed { reason } => failed(FailureKind::Io, reason),
                _ => failed_unexpected(),
            },
            PipelineState::Encode { converted } => match event {
                Event::Encoded { data } => (
                    PipelineState::Write { converted },
                    Action::WriteOutput { path: self.target_file(), data },
                ),
                Event::CodecFailed { error } => (PipelineState::Failed { error }, Action::Finish),
                _ => failed_unexpected(),
            },
            PipelineState::Write { converted } => match event {
                Event::Written => {
                    if converted {
                        (
                            PipelineState::CleanupTemp,
                            Action::ListSiblings { dir: self.input_dir() },
                        )
                    } else {
                        (PipelineState::Done, Action::Finish)
                    }
                },
                Event::IoFailed { reason } => failed(FailureKind::Io, reason),
                _ => failed_unexpected(),
            },
            PipelineState::CleanupTemp => match event {
                Event::Siblings { entries } => {
                    if self.may_delete_converted(&entries) {
                        (
                            PipelineState::DeleteTemp,
                            Action::DeleteTemp { path: self.converted_file() },
                        )
                    } else {
                        let name = self.target_name();
                        failed(
                            FailureKind::NotFound,
                            join3(
                                "Cannot delete! The file ",
                                name.as_str(),
                                " can be the original file. ",
                            ),
                        )
                    }
                },
                Event::IoFailed { reason } => failed(FailureKind::Io, reason),
                _ => failed_unexpected(),
            },
            PipelineState::DeleteTemp => match event {
                Event::Deleted => (PipelineState::Done, Action::Finish),
                Event::IoFailed { reason } => failed(FailureKind::Io, reason),
                _ => failed_unexpected(),
            },
            PipelineState::Done => (PipelineState::Done, Action::Finish),
            PipelineState::Failed { error } => (PipelineState::Failed { error }, Action::Finish),
        }
    }
}

fn same_dir(a: &Option<PathItem>, b: &Option<PathItem>) -> (r: bool)
    ensures
        r == (match (*a, *b) {
            (Some(x), Some(y)) => x@ == y@,
            (None, None) => true,
            _ => false,
        }),
{
    match (a, b) {
        (Some(x), Some(y)) => x.same_as(y),
        (None, None) => true,
        _ => false,
    }
}

fn failed(kind: FailureKind, message: String) -> (r: (PipelineState, Action))
    ensures
        (r.0@, r.1@) == fail(kind, message@),
{
    (PipelineState::Failed { error: CompressError::new(kind, message) }, Action::Finish)
}

fn failed_unexpected() -> (r: (PipelineState, Action))
    ensures
        (r.0@, r.1@) == unexpected(),
{
    failed(FailureKind::Io, String::from_str("unexpected event"))
}

} // verus!

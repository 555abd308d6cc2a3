//! Archiving of output directories with the external 7z program: which
//! program to run, with which arguments, and when not to run it.

use vstd::prelude::*;
use vstd::string::*;
use crate::error::CompressError;
use crate::error::FailureKind;
use crate::path::names;
use crate::path::spec_file_name;
use crate::path::spec_strip_prefix;
use crate::path::PathItem;
use crate::queue::paths;
use crate::text::join2;
use crate::text::decimal;
use crate::text::to_decimal;

verus! {

/// The 7z program for an operating system, where there is one.
pub open spec fn executable_for(os: Seq<char>) -> Option<Seq<char>> {
    if os == "macos"@ {
        Some("./7zz"@)
    } else if os == "windows"@ {
        Some("7z.exe"@)
    } else if os == "linux"@ {
        Some("./7zzs"@)
    } else {
        None
    }
}

/// The 7z program to run on the operating system called `os`.
pub fn get_7z_executable_path(os: &str) -> (r: Result<String, CompressError>)
    ensures
        match r {
            Ok(program) => executable_for(os@) == Some(program@),
            Err(e) => {
                &&& executable_for(os@).is_none()
                &&& e.kind == FailureKind::NotFound
                &&& e.message@ == "Cannot find the 7z executable!"@
            },
        },
{
    let name = String::from_str(os);
    if name == String::from_str("macos") {
        Ok(String::from_str("./7zz"))
    } else if name == String::from_str("windows") {
        Ok(String::from_str("7z.exe"))
    } else if name == String::from_str("linux") {
        Ok(String::from_str("./7zzs"))
    } else {
        Err(
            CompressError::new(
                FailureKind::NotFound,
                String::from_str("Cannot find the 7z executable!"),
            ),
        )
    }
}

/// `path` with `.7z` added to its last name.
pub open spec fn with_7z_suffix(path: Seq<Seq<char>>) -> Seq<Seq<char>> {
    if path.len() == 0 {
        seq![".7z"@]
    } else {
        path.drop_last().push(path.last() + ".7z"@)
    }
}

/// Where the archive of the directory `origin` goes: under `dest`, at the
/// place that `origin` has under `root`, under the directory's name with
/// `.7z` added; a directory outside `root` keeps its whole path.
pub open spec fn spec_archive_path(
    origin: Seq<Seq<char>>,
    dest: Seq<Seq<char>>,
    root: Seq<Seq<char>>,
) -> Seq<Seq<char>> {
    match spec_strip_prefix(origin, root) {
        Some(relative) => with_7z_suffix(dest + relative),
        None => with_7z_suffix(dest + origin),
    }
}

/// Where the archive of the directory `origin` goes.
pub fn archive_path(origin: &PathItem, dest: &PathItem, root: &PathItem) -> (p: PathItem)
    ensures
        p@ == spec_archive_path(origin@, dest@, root@),
{
    let place = match origin.strip_prefix(root) {
        Some(relative) => dest.join(&relative),
        None => dest.join(origin),
    };
    let n: usize = place.len();
    if n == 0 {
        let p = PathItem::new().join_name(".7z");
        assert(p@ =~= seq![".7z"@]);
        p
    } else {
        let name = join2(place.components[n - 1].as_str(), ".7z");
        let p = place.prefix(n - 1).join_name(name.as_str());
        assert(place@.subrange(0, n - 1) =~= place@.drop_last());
        p
    }
}

/// One run of the 7z program.
#[derive(Debug)]
pub struct ArchiveCommand {
    pub program: String,
    pub options: Vec<String>,
    pub archive: PathItem,
    pub source: PathItem,
}

/// The options of every run: add, strongest compression, 7z format.
pub open spec fn archive_options() -> Seq<Seq<char>> {
    seq!["a"@, "-mx=9"@, "-t7z"@]
}

/// Plans the archiving of the directory `origin`. `is_file` and `is_dir`
/// say whether the archive's path already exists as a file or as a
/// directory: in either case nothing is run, whatever else holds.
pub fn compress_a_dir_to_7z(
    origin: &PathItem,
    dest: &PathItem,
    root: &PathItem,
    os: &str,
    is_file: bool,
    is_dir: bool,
) -> (r: Result<ArchiveCommand, CompressError>)
    ensures
        match r {
            Ok(command) => {
                &&& executable_for(os@) == Some(command.program@)
                &&& !is_file
                &&& !is_dir
                &&& names(command.options@) == archive_options()
                &&& command.archive@ == spec_archive_path(origin@, dest@, root@)
                &&& command.source@ == origin@
            },
            Err(e) => {
                if is_file {
                    e.kind == FailureKind::AlreadyExists && e.message@
                        == "The 7z archive file already exists!"@
                } else if is_dir {
                    e.kind == FailureKind::AlreadyExists && e.message@
                        == "The 7z file is already existed! Abort archiving."@
                } else {
                    executable_for(os@).is_none() && e.kind == FailureKind::NotFound
                        && e.message@ == "Cannot find the 7z executable!"@
                }
            },
        },
{
    if is_file {
        return Err(
            CompressError::new(
                FailureKind::AlreadyExists,
                String::from_str("The 7z archive file already exists!"),
            ),
        );
    }
    if is_dir {
        return Err(
            CompressError::new(
                FailureKind::AlreadyExists,
                String::from_str("The 7z file is already existed! Abort archiving."),
            ),
        );
    }
    let program = match get_7z_executable_path(os) {
        Ok(p) => p,
        Err(e) => {
            return Err(e);
        },
    };
    let zip_path = archive_path(origin, dest, root);
    let mut options: Vec<String> = Vec::new();
    options.push(String::from_str("a"));
    options.push(String::from_str("-mx=9"));
    options.push(String::from_str("-t7z"));
    Ok(ArchiveCommand { program, options, archive: zip_path, source: origin.duplicate() })
}

/// The directories among `dirs` that are called `name`, in their order.
pub open spec fn same_named(name: Seq<char>, dirs: Seq<Seq<Seq<char>>>) -> Seq<Seq<Seq<char>>>
    decreases dirs.len(),
{
    if dirs.len() == 0 {
        Seq::empty()
    } else if spec_file_name(dirs.last()) == Some(name) {
        same_named(name, dirs.drop_last()).push(dirs.last())
    } else {
        same_named(name, dirs.drop_last())
    }
}

/// For each directory of `origins` in turn, the directories of `outputs`
/// that carry its name. A directory without a name matches nothing.
pub open spec fn spec_dirs_to_archive(
    origins: Seq<Seq<Seq<char>>>,
    outputs: Seq<Seq<Seq<char>>>,
) -> Seq<Seq<Seq<char>>>
    decreases origins.len(),
{
    if origins.len() == 0 {
        Seq::empty()
    } else {
        spec_dirs_to_archive(origins.drop_last(), outputs) + match spec_file_name(origins.last()) {
            Some(name) => same_named(name, outputs),
            None => Seq::empty(),
        }
    }
}

/// The output directories to archive: those that carry the name of a
/// directory of the origin.
pub fn dirs_to_archive(origins: &Vec<PathItem>, outputs: &Vec<PathItem>) -> (r: Vec<PathItem>)
    ensures
        paths(r@) == spec_dirs_to_archive(paths(origins@), paths(outputs@)),
{
    let mut found: Vec<PathItem> = Vec::new();
    let ghost from = paths(origins@);
    let ghost to = paths(outputs@);
    let mut i: usize = 0;
    while i < origins.len()
        invariant
            i <= origins@.len(),
            from == paths(origins@),
            to == paths(outputs@),
            paths(found@) == spec_dirs_to_archive(from.subrange(0, i as int), to),
        decreases origins@.len() - i,
    {
        let ghost done = paths(found@);
        proof {
            let next = from.subrange(0, i + 1);
            assert(next.drop_last() =~= from.subrange(0, i as int));
        }
        match origins[i].file_name() {
            Some(name) => {
                let mut j: usize = 0;
                while j < outputs.len()
                    invariant
                        j <= outputs@.len(),
                        to == paths(outputs@),
                        paths(found@) == done + same_named(name@, to.subrange(0, j as int)),
                    decreases outputs@.len() - j,
                {
                    proof {
                        let next = to.subrange(0, j + 1);
                        assert(next.drop_last() =~= to.subrange(0, j as int));
                    }
                    let same = match outputs[j].file_name() {
                        Some(other) => other == name,
                        None => false,
                    };
                    if same {
                        let ghost before = found@;
                        found.push(outputs[j].duplicate());
                        proof {
                            assert(paths(found@) =~= paths(before).push(outputs@[j as int]@));
                            assert(paths(found@) =~= done + same_named(
                                name@,
                                to.subrange(0, j as int),
                            ).push(outputs@[j as int]@));
                        }
                    }
                    j = j + 1;
                }
                assert(to.subrange(0, outputs@.len() as int) =~= to);
            },
            None => {},
        }
        i = i + 1;
    }
    assert(from.subrange(0, origins@.len() as int) =~= from);
    found
}

/// The message that opens the archiving of `count` directories.
pub fn archive_total_message(count: usize) -> (m: String)
    ensures
        m@ == "Total archive directory count: "@ + decimal(count as nat),
{
    let n = to_decimal(count as u64);
    join2("Total archive directory count: ", n.as_str())
}

/// The message for an archive that was written at `archive`.
pub fn archive_complete_message(archive: &str) -> (m: String)
    ensures
        m@ == "7z archiving complete: "@ + archive@,
{
    join2("7z archiving complete: ", archive)
}

/// The message for a directory that could not be archived.
pub fn archive_error_message(error: &CompressError) -> (m: String)
    ensures
        m@ == "7z archiving error occured!: "@ + error.message@,
{
    join2("7z archiving error occured!: ", error.message.as_str())
}

/// The message that closes the archiving.
pub fn archiving_complete_message() -> (m: String)
    ensures
        m@ == "Archiving Complete!"@,
{
    String::from_str("Archiving Complete!")
}

} // verus!

//! The program's settings: what the user chose, how it is restored from the
//! stored values and written back to them.

use vstd::prelude::*;
use vstd::string::*;
use crate::file_io::DataType;
use crate::file_io::DataValue;
use crate::file_io::ProgramData;
use crate::text::join2;

verus! {

pub const ORIGIN_DIR_KEY: &'static str = "origin_dir";

pub const DESTINATION_DIR_KEY: &'static str = "destination_dir";

pub const ARCHIVE_DIR_KEY: &'static str = "archive_dir";

pub const TO_ZIP_KEY: &'static str = "to_zip";

pub const THREAD_COUNT_KEY: &'static str = "thread_count";

pub const DELETE_ORIGIN_KEY: &'static str = "delete_origin";

pub const ARCHIVE_FORMAT_KEY: &'static str = "archive_format";

pub const DEFAULT_SAVE_FILE_PATH: &'static str = "data/history.json";

/// The kind of archive that is made of each output directory.
#[derive(Clone, Copy, Debug, PartialEq, Eq, Structural)]
pub enum ArchiveFormat {
    Zip,
    Xz,
    SevenZ,
}

/// The format that a stored text stands for: `xz`, `7z`, and `zip` for
/// anything else.
pub open spec fn format_of(text: Seq<char>) -> ArchiveFormat {
    if text == "xz"@ {
        ArchiveFormat::Xz
    } else if text == "7z"@ {
        ArchiveFormat::SevenZ
    } else {
        ArchiveFormat::Zip
    }
}

/// The text that a format is stored as.
pub open spec fn format_text(format: ArchiveFormat) -> Seq<char> {
    match format {
        ArchiveFormat::Zip => "zip"@,
        ArchiveFormat::Xz => "xz"@,
        ArchiveFormat::SevenZ => "7z"@,
    }
}

impl ArchiveFormat {
    /// The format that `text` stands for.
    pub fn from_text(text: &str) -> (f: ArchiveFormat)
        ensures
            f == format_of(text@),
    {
        let t = String::from_str(text);
        if t == String::from_str("xz") {
            ArchiveFormat::Xz
        } else if t == String::from_str("7z") {
            ArchiveFormat::SevenZ
        } else {
            ArchiveFormat::Zip
        }
    }

    /// The text that this format is stored as.
    pub fn to_text(&self) -> (t: &'static str)
        ensures
            t@ == format_text(*self),
    {
        match self {
            ArchiveFormat::Zip => "zip",
            ArchiveFormat::Xz => "xz",
            ArchiveFormat::SevenZ => "7z",
        }
    }
}

/// The directory stored under `key`; empty where none is stored.
pub open spec fn stored_dir(data: Map<Seq<char>, DataValue>, key: Seq<char>) -> Seq<char> {
    if data.contains_key(key) {
        match data[key] {
            DataValue::Directory(Some(p)) => p,
            _ => Seq::empty(),
        }
    } else {
        Seq::empty()
    }
}

/// The flag stored under `key`; `false` where none is stored.
pub open spec fn stored_flag(data: Map<Seq<char>, DataValue>, key: Seq<char>) -> bool {
    if data.contains_key(key) {
        match data[key] {
            DataValue::Boolean(Some(b)) => b,
            _ => false,
        }
    } else {
        false
    }
}

/// The thread count stored under `key`; 1 where none is stored.
pub open spec fn stored_thread_count(data: Map<Seq<char>, DataValue>, key: Seq<char>) -> u32 {
    if data.contains_key(key) {
        match data[key] {
            DataValue::Number(Some(n)) => n as u32,
            _ => 1,
        }
    } else {
        1
    }
}

/// The archive format stored under `key`; zip where none is stored.
pub open spec fn stored_format(data: Map<Seq<char>, DataValue>, key: Seq<char>) -> ArchiveFormat {
    if data.contains_key(key) {
        match data[key] {
            DataValue::Text(Some(t)) => format_of(t),
            _ => ArchiveFormat::Zip,
        }
    } else {
        ArchiveFormat::Zip
    }
}

/// The text of an optional directory; empty where there is none.
pub open spec fn dir_text(dir: Option<String>) -> Seq<char> {
    match dir {
        Some(p) => p@,
        None => Seq::empty(),
    }
}

/// The lines of a log, newest first, each followed by a line break.
pub open spec fn log_text(lines: Seq<String>) -> Seq<char>
    decreases lines.len(),
{
    if lines.len() == 0 {
        Seq::empty()
    } else {
        lines.last()@ + "\n"@ + log_text(lines.drop_last())
    }
}

/// The values that leaving the program stores, on top of `data`.
pub open spec fn stored_settings(app: App, data: Map<Seq<char>, DataValue>) -> Map<
    Seq<char>,
    DataValue,
> {
    data.insert(ORIGIN_DIR_KEY@, DataValue::Directory(Some(dir_text(app.origin_dir)))).insert(
        DESTINATION_DIR_KEY@,
        DataValue::Directory(Some(dir_text(app.dest_dir))),
    ).insert(ARCHIVE_DIR_KEY@, DataValue::Directory(Some(dir_text(app.archive_dir)))).insert(
        TO_ZIP_KEY@,
        DataValue::Boolean(Some(app.to_zip)),
    ).insert(THREAD_COUNT_KEY@, DataValue::Number(Some(app.thread_count as i32))).insert(
        DELETE_ORIGIN_KEY@,
        DataValue::Boolean(Some(app.to_del_origin_files)),
    ).insert(ARCHIVE_FORMAT_KEY@, DataValue::Text(Some(format_text(app.archive_format))))
}

/// What the user chose and what the program has reported so far.
pub struct App {
    pub program_data: ProgramData,
    pub origin_dir: Option<String>,
    pub dest_dir: Option<String>,
    pub archive_dir: Option<String>,
    pub is_ui_enable: bool,
    pub thread_count: u32,
    pub to_zip: bool,
    pub to_del_origin_files: bool,
    pub complete_file_list: Vec<String>,
    pub archive_format: ArchiveFormat,
}

fn dir_or_empty(dir: &Option<String>) -> (p: String)
    ensures
        p@ == dir_text(*dir),
{
    match dir {
        Some(p) => p.clone(),
        None => String::new(),
    }
}

fn chosen(dir: &Option<String>) -> (b: bool)
    ensures
        b == (dir_text(*dir).len() > 0),
{
    match dir {
        Some(p) => p.as_str().unicode_len() > 0,
        None => false,
    }
}

impl App {
    /// Restores the settings from the stored values, or from nothing where
    /// none could be loaded, and reports which of the two it was.
    pub fn setup(&mut self, loaded: Option<ProgramData>)
        ensures
            final(self).program_data@ == match loaded {
                Some(data) => data@,
                None => Map::<Seq<char>, DataValue>::empty(),
            },
            final(self).origin_dir matches Some(p) && p@ == stored_dir(
                final(self).program_data@,
                ORIGIN_DIR_KEY@,
            ),
            final(self).dest_dir matches Some(p) && p@ == stored_dir(
                final(self).program_data@,
                DESTINATION_DIR_KEY@,
            ),
            final(self).archive_dir matches Some(p) && p@ == stored_dir(
                final(self).program_data@,
                ARCHIVE_DIR_KEY@,
            ),
            final(self).to_zip == stored_flag(final(self).program_data@, TO_ZIP_KEY@),
            final(self).thread_count == stored_thread_count(
                final(self).program_data@,
                THREAD_COUNT_KEY@,
            ),
            final(self).to_del_origin_files == stored_flag(
                final(self).program_data@,
                DELETE_ORIGIN_KEY@,
            ),
            final(self).archive_format == stored_format(
                final(self).program_data@,
                ARCHIVE_FORMAT_KEY@,
            ),
            final(self).is_ui_enable,
            final(self).complete_file_list@.len() == old(self).complete_file_list@.len() + 1,
            final(self).complete_file_list@.drop_last() == old(self).complete_file_list@,
            final(self).complete_file_list@.last()@ == if loaded is Some {
                "Loading directory history complete!"@
            } else {
                "Cannot load directory save file!\nSet save file path with default."@
            },
    {
        self.is_ui_enable = true;
        let data = match loaded {
            Some(data) => {
                self.complete_file_list.push(
                    String::from_str("Loading directory history complete!"),
                );
                data
            },
            None => {
                self.complete_file_list.push(
                    String::from_str(
                        "Cannot load directory save file!\nSet save file path with default.",
                    ),
                );
                ProgramData::new()
            },
        };
        self.origin_dir = Some(
            match data.get_data(ORIGIN_DIR_KEY) {
                Some(DataType::Directory(Some(p))) => p.clone(),
                _ => String::new(),
            },
        );
        self.dest_dir = Some(
            match data.get_data(DESTINATION_DIR_KEY) {
                Some(DataType::Directory(Some(p))) => p.clone(),
                _ => String::new(),
            },
        );
        self.archive_dir = Some(
            match data.get_data(ARCHIVE_DIR_KEY) {
                Some(DataType::Directory(Some(p))) => p.clone(),
                _ => String::new(),
            },
        );
        self.to_zip = match data.get_data(TO_ZIP_KEY) {
            Some(DataType::Boolean(Some(z))) => *z,
            _ => false,
        };
        self.thread_count = match data.get_data(THREAD_COUNT_KEY) {
            Some(DataType::Number(Some(n))) => *n as u32,
            _ => 1,
        };
        self.to_del_origin_files = match data.get_data(DELETE_ORIGIN_KEY) {
            Some(DataType::Boolean(Some(b))) => *b,
            _ => false,
        };
        self.archive_format = match data.get_data(ARCHIVE_FORMAT_KEY) {
            Some(DataType::String(Some(t))) => ArchiveFormat::from_text(t.as_str()),
            _ => ArchiveFormat::Zip,
        };
        self.program_data = data;
    }

    /// Writes the settings back to the stored values. The program may then
    /// close: the answer is always `true`.
    pub fn on_exit_event(&mut self) -> (close: bool)
        ensures
            close,
            final(self).program_data@ == stored_settings(*old(self), old(self).program_data@),
            final(self).origin_dir == old(self).origin_dir,
            final(self).dest_dir == old(self).dest_dir,
            final(self).archive_dir == old(self).archive_dir,
            final(self).thread_count == old(self).thread_count,
            final(self).to_zip == old(self).to_zip,
            final(self).to_del_origin_files == old(self).to_del_origin_files,
            final(self).archive_format == old(self).archive_format,
            final(self).complete_file_list == old(self).complete_file_list,
    {
        let origin = dir_or_empty(&self.origin_dir);
        let dest = dir_or_empty(&self.dest_dir);
        let archive = dir_or_empty(&self.archive_dir);
        let format = String::from_str(self.archive_format.to_text());
        self.program_data.set_data(ORIGIN_DIR_KEY, DataType::Directory(Some(origin)));
        self.program_data.set_data(DESTINATION_DIR_KEY, DataType::Directory(Some(dest)));
        self.program_data.set_data(ARCHIVE_DIR_KEY, DataType::Directory(Some(archive)));
        self.program_data.set_data(TO_ZIP_KEY, DataType::Boolean(Some(self.to_zip)));
        self.program_data.set_data(
            THREAD_COUNT_KEY,
            DataType::Number(Some(self.thread_count as i32)),
        );
        self.program_data.set_data(
            DELETE_ORIGIN_KEY,
            DataType::Boolean(Some(self.to_del_origin_files)),
        );
        self.program_data.set_data(ARCHIVE_FORMAT_KEY, DataType::String(Some(format)));
        true
    }

    /// The program's name.
    pub fn name(&self) -> (n: &'static str)
        ensures
            n@ == "Image Compressor"@,
    {
        "Image Compressor"
    }

    /// Records a progress message.
    pub fn receive(&mut self, message: String)
        ensures
            final(self).complete_file_list@ == old(self).complete_file_list@.push(message),
            final(self).program_data == old(self).program_data,
            final(self).origin_dir == old(self).origin_dir,
            final(self).dest_dir == old(self).dest_dir,
            final(self).archive_dir == old(self).archive_dir,
            final(self).is_ui_enable == old(self).is_ui_enable,
            final(self).thread_count == old(self).thread_count,
            final(self).to_zip == old(self).to_zip,
            final(self).to_del_origin_files == old(self).to_del_origin_files,
            final(self).archive_format == old(self).archive_format,
    {
        self.complete_file_list.push(message);
    }

    /// Compression can start once an origin and a destination are chosen,
    /// and an archive directory too where archives are asked for.
    pub fn can_compress(&self) -> (b: bool)
        ensures
            b == (dir_text(self.origin_dir).len() > 0 && dir_text(self.dest_dir).len() > 0 && (
            self.to_zip ==> dir_text(self.archive_dir).len() > 0)),
    {
        chosen(&self.origin_dir) && chosen(&self.dest_dir) && (!self.to_zip || chosen(
            &self.archive_dir,
        ))
    }

    /// The progress messages as one text, newest first.
    pub fn status_text(&self) -> (t: String)
        ensures
            t@ == log_text(self.complete_file_list@),
    {
        let mut t = String::new();
        let n: usize = self.complete_file_list.len();
        let mut i: usize = n;
        let ghost lines = self.complete_file_list@;
        assert(lines.subrange(0, n as int) =~= lines);
        while i > 0
            invariant
                i <= n,
                n == lines.len(),
                lines == self.complete_file_list@,
                t@ + log_text(lines.subrange(0, i as int)) == log_text(lines),
            decreases i,
        {
            i = i - 1;
            proof {
                let head = lines.subrange(0, i + 1);
                assert(head.drop_last() =~= lines.subrange(0, i as int));
                assert(t@ + (lines[i as int]@ + "\n"@ + log_text(lines.subrange(0, i as int)))
                    =~= t@ + lines[i as int]@ + "\n"@ + log_text(lines.subrange(0, i as int)));
            }
            t.append(self.complete_file_list[i].as_str());
            t.append("\n");
        }
        t
    }
}

impl Default for App {
    fn default() -> (app: App)
        ensures
            app.program_data@ == Map::<Seq<char>, DataValue>::empty(),
            app.origin_dir is None,
            app.dest_dir is None,
            app.archive_dir is None,
            !app.is_ui_enable,
            app.thread_count == 0,
            !app.to_zip,
            !app.to_del_origin_files,
            app.complete_file_list@.len() == 0,
            app.archive_format == ArchiveFormat::Zip,
    {
        App {
            program_data: ProgramData::new(),
            origin_dir: None,
            dest_dir: None,
            archive_dir: None,
            is_ui_enable: false,
            thread_count: 0,
            to_zip: false,
            to_del_origin_files: false,
            complete_file_list: Vec::new(),
            archive_format: ArchiveFormat::Zip,
        }
    }
}

} // verus!

//! Parallel batch compression of an image tree into size-reduced JPEG copies:
//! work planning, the quality heuristic, the per-file pipeline and the
//! bookkeeping around it.

pub mod archive;
pub mod codec;
pub mod compressor;
pub mod error;
pub mod factor;
pub mod file_io;
pub mod folder;
pub mod path;
pub mod queue;
pub mod settings;
pub mod text;

pub use factor::Factor;
pub use folder::FolderCompressor;
pub use settings::App;

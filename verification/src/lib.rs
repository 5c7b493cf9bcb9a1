pub mod alias;
pub mod driver;
pub mod environment;
pub mod error;
pub mod host;
pub mod launch;
pub mod metadata;
pub mod paths;
pub mod text;
pub mod trace;
pub mod writer;

pub use crate::alias::{Alias, CmdlinkExecutable, ProgramKind};
pub use crate::driver::run;
pub use crate::error::Error;
pub use crate::launch::{Event, Phase, Request, SpawnRequest};
pub use crate::metadata::Metadata;
pub use crate::writer::MetadataWriter;

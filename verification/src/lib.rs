//! A verified tag-transformation engine for batch-editing the metadata of
//! flac files: strategies that normalize single field values, an editor
//! that applies them to a tag block with change detection, a renamer that
//! derives file names from metadata, an entry processor that runs the
//! configured operations over one file's tag, and the chunking and
//! reporting logic of the batch driver. All file and terminal I/O stays
//! with the caller: the library decides, reports, and mutates tag blocks
//! in memory only.

pub mod batch;
pub mod config;
pub mod editor;
pub mod laws;
pub mod message;
pub mod outside;
pub mod process;
pub mod rename;
pub mod strategy;
pub mod tag;
pub mod text;

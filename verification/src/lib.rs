//! A personal task journal: short text tasks kept in order, each with the
//! second it was created at, stored as one JSON array in a single file.
//!
//! The library holds the rules of the journal and proves them: what a stored
//! document looks like, what adding and completing a task do to it, and how a
//! journal is listed. Opening, reading and writing the file is left to the
//! caller, who hands over the content of the file with what it decoded to,
//! and writes back the text that an operation returns. That text is always
//! a whole document: it is made in memory before anything is written, and
//! it replaces all that the file held.
//!
//! The file is not locked. Two programs that change one journal at the same
//! time can lose each other's changes or leave a file that is no document.

pub mod decimal;
pub mod document;
pub mod laws;
pub mod line;
pub mod tasks;
pub mod timestamp;

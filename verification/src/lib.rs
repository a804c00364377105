//! Traits for generic, Unix-style filesystems that rely on no particular
//! architecture or operating system.
//!
//! A backend implements [`Fs`] and, with it, [`File`], [`Dir`] and
//! [`DirEntry`]; callers configure what they ask for with [`OpenOptions`] and
//! [`DirOptions`]. No backend lives here.
//!
//! Every operation carries a contract. The contracts of the traits speak of a
//! model that the backend defines beside its operations: what each path
//! names, which node a file is open on, where it stands. They treat the value
//! that implements a trait as the whole of the state it models, so whatever
//! may change that state takes the value by exclusive reference: a read
//! moves the file, and an open may create or truncate one.
//!
//! A write changes a file of the filesystem without the filesystem at hand.
//! The model keeps to what it can say: the bytes written are in the model of
//! the file, a path names the node that the file is open on, and of a node
//! that a file was opened on for writing no query is held to a length or to
//! bytes. What one file does to the node of another is in no model. The
//! module [`laws`] states what follows where several operations are taken
//! together.

pub mod dir;
pub mod error;
pub mod file;
pub mod filesystem;
pub mod laws;
pub mod options;
pub mod seek;

pub use dir::{Dir, DirEntry};
pub use error::ErrorKind;
pub use file::File;
pub use filesystem::Fs;
pub use options::{DirOptions, DirOptionsView, OpenOptions, OpenOptionsView};
pub use seek::SeekFrom;

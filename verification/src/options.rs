//! Builders that say how a file is to be opened and how a directory is to be
//! created.
//!
//! A builder is plain data. No setter checks anything: how the flags combine
//! is decided where they are consumed, by [`Fs::open`](crate::Fs::open) and
//! [`Fs::create_dir`](crate::Fs::create_dir). A backend reads there what was
//! set through the accessors.

use vstd::prelude::*;

verus! {

/// What an [`OpenOptions`] holds.
pub struct OpenOptionsView<Permissions> {
    /// The file is to be readable.
    pub read: bool,
    /// The file is to be writable.
    pub write: bool,
    /// Every write is to go to the end of the file.
    pub append: bool,
    /// An existing file is to be cut to length 0.
    pub truncate: bool,
    /// A missing file is to be created.
    pub create: bool,
    /// The file is to be created, and must not exist yet.
    pub create_new: bool,
    /// The permissions that a new file gets.
    pub mode: Permissions,
    /// Flags that only the backend gives a meaning to.
    pub flags: u32,
}

impl<Permissions> OpenOptionsView<Permissions> {
    /// The file is opened for changing it: `append` alone grants as much as
    /// `write` and `append` together.
    pub open spec fn writes(self) -> bool {
        self.write || self.append
    }

    /// A file may come into being: `create_new` does what `create` does, and
    /// more.
    pub open spec fn creates(self) -> bool {
        self.create || self.create_new
    }

    /// An existing file is cut to length 0: `truncate` counts only together
    /// with `write`, and `create_new` overrides it.
    pub open spec fn truncates(self) -> bool {
        self.truncate && self.write && !self.create_new
    }
}

/// Options and flags which configure how a file is opened.
///
/// Start from [`OpenOptions::new`], chain the setters, and hand the result to
/// [`Fs::open`](crate::Fs::open). The same value can serve any number of
/// calls.
#[derive(Debug, PartialEq, Eq, Hash)]
pub struct OpenOptions<Permissions> {
    read: bool,
    write: bool,
    append: bool,
    truncate: bool,
    create: bool,
    create_new: bool,
    mode: Permissions,
    flags: u32,
}

impl<Permissions> View for OpenOptions<Permissions> {
    type V = OpenOptionsView<Permissions>;

    closed spec fn view(&self) -> OpenOptionsView<Permissions> {
        OpenOptionsView {
            read: self.read,
            write: self.write,
            append: self.append,
            truncate: self.truncate,
            create: self.create,
            create_new: self.create_new,
            mode: self.mode,
            flags: self.flags,
        }
    }
}

impl<Permissions: Clone> Clone for OpenOptions<Permissions> {
    /// A copy with the same flags, and with a clone of `mode`.
    fn clone(&self) -> (r: Self)
        ensures
            cloned::<Permissions>(self@.mode, r@.mode),
            r@ == (OpenOptionsView { mode: r@.mode, ..self@ }),
    {
        OpenOptions {
            read: self.read,
            write: self.write,
            append: self.append,
            truncate: self.truncate,
            create: self.create,
            create_new: self.create_new,
            mode: self.mode.clone(),
            flags: self.flags,
        }
    }
}

impl<Permissions: Default> Default for OpenOptions<Permissions> {
    /// The blank set of options: see [`OpenOptions::new`].
    fn default() -> (r: Self)
        ensures
            !r@.read,
            !r@.write,
            !r@.append,
            !r@.truncate,
            !r@.create,
            !r@.create_new,
            call_ensures(Permissions::default, (), r@.mode),
            r@.flags == 0,
    {
        OpenOptions {
            read: false,
            write: false,
            append: false,
            truncate: false,
            create: false,
            create_new: false,
            mode: Permissions::default(),
            flags: 0,
        }
    }
}

impl<Permissions: Default> OpenOptions<Permissions> {
    /// Creates a blank set of options ready for configuration: every flag is
    /// `false`, the custom flags are 0, and `mode` is a default value of the
    /// permission type.
    pub fn new() -> (r: Self)
        ensures
            !r@.read,
            !r@.write,
            !r@.append,
            !r@.truncate,
            !r@.create,
            !r@.create_new,
            call_ensures(Permissions::default, (), r@.mode),
            r@.flags == 0,
    {
        OpenOptions::default()
    }

    /// Sets the option for read access, and leaves the others as they are.
    pub fn read(&mut self, read: bool) -> (r: &mut Self)
        ensures
            r@ == (OpenOptionsView { read, ..old(self)@ }),
            *final(self) == *final(r),
    {
        self.read = read;
        self
    }

    /// Sets the option for write access, and leaves the others as they are.
    ///
    /// Writes to a file that exists overwrite its contents and do not
    /// truncate it.
    pub fn write(&mut self, write: bool) -> (r: &mut Self)
        ensures
            r@ == (OpenOptionsView { write, ..old(self)@ }),
            *final(self) == *final(r),
    {
        self.write = write;
        self
    }

    /// Sets the option for the append mode, and leaves the others as they
    /// are.
    ///
    /// In append mode every write goes to the end of the file, wherever a
    /// seek has left the position. The option does not create a missing
    /// file: see [`create`](Self::create).
    pub fn append(&mut self, append: bool) -> (r: &mut Self)
        ensures
            r@ == (OpenOptionsView { append, ..old(self)@ }),
            *final(self) == *final(r),
    {
        self.append = append;
        self
    }

    /// Sets the option for truncating a previous file, and leaves the others
    /// as they are.
    ///
    /// The file must be opened with write access for truncate to work.
    pub fn truncate(&mut self, truncate: bool) -> (r: &mut Self)
        ensures
            r@ == (OpenOptionsView { truncate, ..old(self)@ }),
            *final(self) == *final(r),
    {
        self.truncate = truncate;
        self
    }

    /// Sets the option for creating a file that does not exist yet, and
    /// leaves the others as they are.
    ///
    /// For the file to be created, write or append access must be asked for
    /// as well.
    pub fn create(&mut self, create: bool) -> (r: &mut Self)
        ensures
            r@ == (OpenOptionsView { create, ..old(self)@ }),
            *final(self) == *final(r),
    {
        self.create = create;
        self
    }

    /// Sets the option to always create a new file, and leaves the others as
    /// they are.
    ///
    /// Nothing may exist at the target, not even a dangling symlink. The
    /// check and the creation are one step, so no other party can create the
    /// file in between. With this option set, `create` and `truncate` are
    /// ignored. Write or append access must be asked for as well.
    pub fn create_new(&mut self, create_new: bool) -> (r: &mut Self)
        ensures
            r@ == (OpenOptionsView { create_new, ..old(self)@ }),
            *final(self) == *final(r),
    {
        self.create_new = create_new;
        self
    }

    /// Sets the mode bits that a new file will be created with, and leaves
    /// the other options as they are.
    pub fn mode(&mut self, mode: Permissions) -> (r: &mut Self)
        ensures
            r@ == (OpenOptionsView { mode, ..old(self)@ }),
            *final(self) == *final(r),
    {
        self.mode = mode;
        self
    }

    /// Sets the custom flags that the backend passes on when it opens the
    /// file, and leaves the other options as they are.
    pub fn custom_flags(&mut self, flags: u32) -> (r: &mut Self)
        ensures
            r@ == (OpenOptionsView { flags, ..old(self)@ }),
            *final(self) == *final(r),
    {
        self.flags = flags;
        self
    }
}

impl<Permissions> OpenOptions<Permissions> {
    /// Whether read access is asked for.
    pub fn is_read(&self) -> (r: bool)
        ensures
            r == self@.read,
    {
        self.read
    }

    /// Whether write access is asked for.
    pub fn is_write(&self) -> (r: bool)
        ensures
            r == self@.write,
    {
        self.write
    }

    /// Whether the append mode is asked for.
    pub fn is_append(&self) -> (r: bool)
        ensures
            r == self@.append,
    {
        self.append
    }

    /// Whether truncating a previous file is asked for.
    pub fn is_truncate(&self) -> (r: bool)
        ensures
            r == self@.truncate,
    {
        self.truncate
    }

    /// Whether creating a missing file is asked for.
    pub fn is_create(&self) -> (r: bool)
        ensures
            r == self@.create,
    {
        self.create
    }

    /// Whether creating a file that must not exist yet is asked for.
    pub fn is_create_new(&self) -> (r: bool)
        ensures
            r == self@.create_new,
    {
        self.create_new
    }

    /// The mode bits that a new file is created with.
    pub fn get_mode(&self) -> (r: &Permissions)
        ensures
            *r == self@.mode,
    {
        &self.mode
    }

    /// The custom flags for the backend.
    pub fn get_custom_flags(&self) -> (r: u32)
        ensures
            r == self@.flags,
    {
        self.flags
    }
}

/// What a [`DirOptions`] holds.
pub struct DirOptionsView<Permissions> {
    /// Missing parent directories are to be created too.
    pub recursive: bool,
    /// The permissions that a new directory gets.
    pub mode: Permissions,
    /// Flags that only the backend gives a meaning to.
    pub flags: u32,
}

/// A builder that says in which manner a directory is created.
#[derive(Debug, PartialEq, Eq, Hash)]
pub struct DirOptions<Permissions> {
    recursive: bool,
    mode: Permissions,
    flags: u32,
}

impl<Permissions> View for DirOptions<Permissions> {
    type V = DirOptionsView<Permissions>;

    closed spec fn view(&self) -> DirOptionsView<Permissions> {
        DirOptionsView { recursive: self.recursive, mode: self.mode, flags: self.flags }
    }
}

impl<Permissions: Clone> Clone for DirOptions<Permissions> {
    /// A copy with the same flags, and with a clone of `mode`.
    fn clone(&self) -> (r: Self)
        ensures
            cloned::<Permissions>(self@.mode, r@.mode),
            r@ == (DirOptionsView { mode: r@.mode, ..self@ }),
    {
        DirOptions { recursive: self.recursive, mode: self.mode.clone(), flags: self.flags }
    }
}

impl<Permissions: Default> Default for DirOptions<Permissions> {
    /// The options of [`DirOptions::new`].
    fn default() -> (r: Self)
        ensures
            !r@.recursive,
            call_ensures(Permissions::default, (), r@.mode),
            r@.flags == 0,
    {
        DirOptions { recursive: false, mode: Permissions::default(), flags: 0 }
    }
}

impl<Permissions: Default> DirOptions<Permissions> {
    /// Creates a set of options that is not recursive, with custom flags 0
    /// and a default value of the permission type as `mode`.
    pub fn new() -> (r: Self)
        ensures
            !r@.recursive,
            call_ensures(Permissions::default, (), r@.mode),
            r@.flags == 0,
    {
        DirOptions::default()
    }

    /// Says whether missing parent directories are to be created as well,
    /// with the same permissions. Leaves the other options as they are.
    pub fn recursive(&mut self, recursive: bool) -> (r: &mut Self)
        ensures
            r@ == (DirOptionsView { recursive, ..old(self)@ }),
            *final(self) == *final(r),
    {
        self.recursive = recursive;
        self
    }

    /// Sets the mode to create new directories with, and leaves the other
    /// options as they are.
    pub fn mode(&mut self, mode: Permissions) -> (r: &mut Self)
        ensures
            r@ == (DirOptionsView { mode, ..old(self)@ }),
            *final(self) == *final(r),
    {
        self.mode = mode;
        self
    }

    /// Sets the custom flags that the backend passes on when it creates the
    /// directory, and leaves the other options as they are.
    pub fn custom_flags(&mut self, flags: u32) -> (r: &mut Self)
        ensures
            r@ == (DirOptionsView { flags, ..old(self)@ }),
            *final(self) == *final(r),
    {
        self.flags = flags;
        self
    }
}

impl<Permissions> DirOptions<Permissions> {
    /// Whether missing parent directories are to be created as well.
    pub fn is_recursive(&self) -> (r: bool)
        ensures
            r == self@.recursive,
    {
        self.recursive
    }

    /// The mode that new directories are created with.
    pub fn get_mode(&self) -> (r: &Permissions)
        ensures
            *r == self@.mode,
    {
        &self.mode
    }

    /// The custom flags for the backend.
    pub fn get_custom_flags(&self) -> (r: u32)
        ensures
            r == self@.flags,
    {
        self.flags
    }
}

} // verus!

//! The file manager: one file's format, lock strategy and access mode, and
//! the decisions that reading, writing and initializing the file take.
use vstd::prelude::*;
use core::marker::PhantomData;
use crate::error::{Error, IoError, IoErrorKind};
use crate::format::FileFormat;
use crate::lock::{FileLock, LockKind};
use crate::mode::{open_options, plan_write, write_ops, FileMode, ModeKind, OpenOptions, Reading, WritePlan, Writing};

verus! {

/// Manages a single file through a format, a lock strategy and an access
/// mode. The handle itself is held by whoever performs the operations; the
/// manager decides what they are and what their results mean.
#[derive(Debug)]
pub struct FileManager<Format, Lock, Mode> {
    format: Format,
    lock: PhantomData<Lock>,
    mode: PhantomData<Mode>,
}

/// How a file is to be initialized, given what opening it for reading gave.
#[derive(Debug)]
pub enum Initialize<T, FE> {
    /// The file exists and held this value.
    Existing(T),
    /// The file is absent: create it, perform the plan, and keep this value.
    Create(T, WritePlan<FE>),
}

/// The permissions with which a file is created before its first write.
pub fn create_options(truncate: bool) -> (r: OpenOptions)
    ensures
        r == (OpenOptions { read: false, write: true, create: true, truncate }),
{
    OpenOptions { read: false, write: true, create: true, truncate }
}

impl<Format, Lock: FileLock, Mode: FileMode> FileManager<Format, Lock, Mode> {
    /// A manager of a file in `format`.
    pub fn new(format: Format) -> (r: Self)
        ensures
            r.format() == format,
    {
        FileManager { format, lock: PhantomData, mode: PhantomData }
    }

    /// The format of the managed file.
    pub closed spec fn format(&self) -> Format {
        self.format
    }

    /// Returns a reference to the format of the managed file.
    pub fn format_ref(&self) -> (r: &Format)
        ensures
            *r == self.format(),
    {
        &self.format
    }

    /// Closes this manager, returning its format.
    pub fn into_inner(self) -> (r: Format)
        ensures
            r == self.format(),
    {
        self.format
    }

    /// The permissions with which the managed file is opened: for reading,
    /// and for writing unless the mode is read-only. The file must exist.
    pub fn open_options() -> (r: OpenOptions)
        ensures
            r == (OpenOptions { read: true, write: Mode::spec_kind() != ModeKind::Readonly, create: false, truncate: false }),
    {
        open_options(Mode::kind())
    }

    /// The advisory lock held on the file while it is managed.
    pub fn lock_kind() -> (r: LockKind)
        ensures
            r == Lock::spec_kind(),
    {
        Lock::kind()
    }

    /// Reads a value from the file's contents. On success the cursor is to be
    /// moved back to the start of the file.
    pub fn read<T>(&self, contents: &[u8]) -> (r: Result<T, Error<Format::FormatError>>)
        where Format: FileFormat<T>, Mode: Reading,
        ensures
            r is Ok <==> self.format().decodable(contents@),
            r is Ok ==> self.format().decodes(contents@, r->Ok_0),
            r is Err ==> r->Err_0 is Format,
    {
        match self.format.from_buffer(contents) {
            Ok(v) => Ok(v),
            Err(e) => Err(Error::Format(e)),
        }
    }

    /// Plans writing a value to the file.
    pub fn write<T>(&self, value: &T) -> (r: WritePlan<Format::FormatError>)
        where Format: FileFormat<T>, Mode: Writing,
        ensures
            r.ops_view() == write_ops(Mode::spec_kind(), self.format(), *value),
            r.format_error is None <==> self.format().encoding(*value) is Some,
    {
        proof {
            Mode::lemma_writes();
        }
        plan_write(Mode::kind(), &self.format, value)
    }

    /// Plans replacing the file's contents with `value`, whatever they were:
    /// the file is created or truncated, then written in place.
    pub fn create_overwrite<T>(&self, value: &T) -> (r: WritePlan<Format::FormatError>)
        where Format: FileFormat<T>,
        ensures
            r.ops_view() == write_ops(ModeKind::Writable, self.format(), *value),
            r.format_error is None <==> self.format().encoding(*value) is Some,
    {
        plan_write(ModeKind::Writable, &self.format, value)
    }

    /// Decides how to initialize the file from the outcome of opening it for
    /// reading: an existing file is decoded and `init` is not called; an
    /// absent one is created holding `init()`; any other failure is returned.
    pub fn read_or_write<T, C: FnOnce() -> T>(&self, existing: Result<Vec<u8>, IoError>, init: C) -> (r: Result<
        Initialize<T, Format::FormatError>,
        Error<Format::FormatError>,
    >)
        where Format: FileFormat<T>,
        requires
            existing is Err && existing->Err_0.kind == IoErrorKind::NotFound ==> init.requires(()),
        ensures
            match existing {
                Ok(bytes) => match r {
                    Ok(Initialize::Existing(v)) => self.format().decodes(bytes@, v),
                    Ok(Initialize::Create(_, _)) => false,
                    Err(e) => e is Format && !self.format().decodable(bytes@),
                },
                Err(io) => if io.kind == IoErrorKind::NotFound {
                    match r {
                        Ok(Initialize::Create(v, plan)) => init.ensures((), v)
                            && plan.ops_view() == write_ops(ModeKind::Writable, self.format(), v)
                            && (plan.format_error is None <==> self.format().encoding(v) is Some),
                        _ => false,
                    }
                } else {
                    r == Err::<Initialize<T, Format::FormatError>, Error<Format::FormatError>>(Error::Io(io))
                },
            },
            existing is Ok ==> (r is Ok <==> self.format().decodable(existing->Ok_0@)),
    {
        match existing {
            Ok(bytes) => match self.format.from_buffer(bytes.as_slice()) {
                Ok(v) => Ok(Initialize::Existing(v)),
                Err(e) => Err(Error::Format(e)),
            },
            Err(io) => {
                if io.is_not_found() {
                    let v = init();
                    let plan = plan_write(ModeKind::Writable, &self.format, &v);
                    Ok(Initialize::Create(v, plan))
                } else {
                    Err(Error::Io(io))
                }
            },
        }
    }
}

} // verus!

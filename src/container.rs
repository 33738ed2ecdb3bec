//! The single-owner container: a value in memory paired with the manager of
//! the file that persists it.
use vstd::prelude::*;
use crate::error::{Error, IoError, IoErrorKind, UserError};
use crate::format::FileFormat;
use crate::lock::FileLock;
use crate::manager::{FileManager, Initialize};
use crate::mode::{apply_op, apply_ops, lemma_write_then_read, write_ops, FileImage, FileMode, FileOpSpec, ModeKind, Reading, WritePlan, Writing};

verus! {

/// An owned container of a value and the manager of its file.
///
/// Right after it is opened, created, refreshed, committed or overwritten,
/// the value in memory is what the file decodes to; in between, the value may
/// be changed freely and nothing is written until the next commit.
#[derive(Debug)]
pub struct Container<T, Manager> {
    value: T,
    manager: Manager,
}

impl<T, Manager> Container<T, Manager> {
    /// The value held in memory.
    pub closed spec fn value(&self) -> T {
        self.value
    }

    /// The manager of the file.
    pub closed spec fn spec_manager(&self) -> Manager {
        self.manager
    }

    /// Creates a container from a value and a manager.
    pub fn new(value: T, manager: Manager) -> (r: Self)
        ensures
            r.value() == value,
            r.spec_manager() == manager,
    {
        Container { value, manager }
    }

    /// Extracts the value.
    pub fn into_value(self) -> (r: T)
        ensures
            r == self.value(),
    {
        self.value
    }

    /// Extracts the manager.
    pub fn into_manager(self) -> (r: Manager)
        ensures
            r == self.spec_manager(),
    {
        self.manager
    }

    /// Returns a reference to the manager.
    pub fn manager(&self) -> (r: &Manager)
        ensures
            *r == self.spec_manager(),
    {
        &self.manager
    }

    /// Returns a reference to the value.
    pub fn get(&self) -> (r: &T)
        ensures
            *r == self.value(),
    {
        &self.value
    }

    /// Returns a mutable reference to the value; changing it writes nothing.
    pub fn get_mut(&mut self) -> (r: &mut T)
        ensures
            *r == old(self).value(),
            final(self).value() == *final(r),
            final(self).spec_manager() == old(self).spec_manager(),
    {
        &mut self.value
    }
}

impl<T, Format: FileFormat<T>, Lock: FileLock, Mode: FileMode> Container<T, FileManager<Format, Lock, Mode>> {
    /// The format of the managed file.
    pub open spec fn format(&self) -> Format {
        self.spec_manager().format()
    }

    /// Opens a container on a file that holds `contents`.
    pub fn open(manager: FileManager<Format, Lock, Mode>, contents: &[u8]) -> (r: Result<Self, Error<Format::FormatError>>)
        where Mode: Reading,
        ensures
            r is Ok <==> manager.format().decodable(contents@),
            r is Ok ==> r->Ok_0.spec_manager() == manager && manager.format().decodes(contents@, r->Ok_0.value()),
            r is Err ==> r->Err_0 is Format,
    {
        match manager.read(contents) {
            Ok(value) => Ok(Container { value, manager }),
            Err(e) => Err(e),
        }
    }

    /// Creates a container holding `value`, with the plan that replaces the
    /// file's contents by it.
    pub fn create_overwrite(manager: FileManager<Format, Lock, Mode>, value: T) -> (r: (Self, WritePlan<Format::FormatError>))
        ensures
            r.0.value() == value,
            r.0.spec_manager() == manager,
            r.1.ops_view() == write_ops(ModeKind::Writable, manager.format(), value),
            r.1.format_error is None <==> manager.format().encoding(value) is Some,
    {
        let plan = manager.create_overwrite(&value);
        (Container { value, manager }, plan)
    }

    /// Creates a container from the outcome of opening its file for reading:
    /// an existing file's value is kept and `init` is not called; an absent
    /// file is to be created holding `init()`, by the returned plan.
    pub fn create_or_else<C: FnOnce() -> T>(
        manager: FileManager<Format, Lock, Mode>,
        existing: Result<Vec<u8>, IoError>,
        init: C,
    ) -> (r: Result<(Self, Option<WritePlan<Format::FormatError>>), Error<Format::FormatError>>)
        requires
            existing is Err && existing->Err_0.kind == IoErrorKind::NotFound ==> init.requires(()),
        ensures
            r is Ok ==> r->Ok_0.0.spec_manager() == manager,
            match existing {
                Ok(bytes) => (r is Ok <==> manager.format().decodable(bytes@)) && match r {
                    Ok((c, plan)) => plan is None && manager.format().decodes(bytes@, c.value()),
                    Err(e) => e is Format,
                },
                Err(io) => if io.kind == IoErrorKind::NotFound {
                    match r {
                        Ok((c, Some(plan))) => init.ensures((), c.value())
                            && plan.ops_view() == write_ops(ModeKind::Writable, manager.format(), c.value())
                            && (plan.format_error is None <==> manager.format().encoding(c.value()) is Some),
                        _ => false,
                    }
                } else {
                    r == Err::<(Self, Option<WritePlan<Format::FormatError>>), Error<Format::FormatError>>(Error::Io(io))
                },
            },
    {
        match manager.read_or_write(existing, init) {
            Ok(Initialize::Existing(value)) => Ok((Container { value, manager }, None)),
            Ok(Initialize::Create(value, plan)) => Ok((Container { value, manager }, Some(plan))),
            Err(e) => Err(e),
        }
    }

    /// Creates a container from the outcome of opening its file for reading,
    /// creating an absent file holding `value`.
    pub fn create_or(
        manager: FileManager<Format, Lock, Mode>,
        existing: Result<Vec<u8>, IoError>,
        value: T,
    ) -> (r: Result<(Self, Option<WritePlan<Format::FormatError>>), Error<Format::FormatError>>)
        ensures
            r is Ok ==> r->Ok_0.0.spec_manager() == manager,
            match existing {
                Ok(bytes) => (r is Ok <==> manager.format().decodable(bytes@)) && match r {
                    Ok((c, plan)) => plan is None && manager.format().decodes(bytes@, c.value()),
                    Err(e) => e is Format,
                },
                Err(io) => if io.kind == IoErrorKind::NotFound {
                    match r {
                        Ok((c, Some(plan))) => c.value() == value
                            && plan.ops_view() == write_ops(ModeKind::Writable, manager.format(), value)
                            && (plan.format_error is None <==> manager.format().encoding(value) is Some),
                        _ => false,
                    }
                } else {
                    r == Err::<(Self, Option<WritePlan<Format::FormatError>>), Error<Format::FormatError>>(Error::Io(io))
                },
            },
    {
        let init = || -> (v: T)
            ensures
                v == value,
        { value };
        Self::create_or_else(manager, existing, init)
    }

    /// Creates a container from the outcome of opening its file for reading,
    /// creating an absent file holding `T::default()`.
    pub fn create_or_default(
        manager: FileManager<Format, Lock, Mode>,
        existing: Result<Vec<u8>, IoError>,
    ) -> (r: Result<(Self, Option<WritePlan<Format::FormatError>>), Error<Format::FormatError>>)
        where T: Default,
        ensures
            r is Ok ==> r->Ok_0.0.spec_manager() == manager,
            match existing {
                Ok(bytes) => (r is Ok <==> manager.format().decodable(bytes@)) && match r {
                    Ok((c, plan)) => plan is None && manager.format().decodes(bytes@, c.value()),
                    Err(e) => e is Format,
                },
                Err(io) => if io.kind == IoErrorKind::NotFound {
                    match r {
                        Ok((c, Some(plan))) => plan.ops_view() == write_ops(ModeKind::Writable, manager.format(), c.value())
                            && (plan.format_error is None <==> manager.format().encoding(c.value()) is Some),
                        _ => false,
                    }
                } else {
                    r == Err::<(Self, Option<WritePlan<Format::FormatError>>), Error<Format::FormatError>>(Error::Io(io))
                },
            },
    {
        let init = || -> (v: T) { T::default() };
        Self::create_or_else(manager, existing, init)
    }

    /// Replaces the value in memory by what the file's current `contents`
    /// decode to, returning the previous value. On failure the value in
    /// memory is untouched.
    pub fn refresh(&mut self, contents: &[u8]) -> (r: Result<T, Error<Format::FormatError>>)
        where Mode: Reading,
        ensures
            final(self).spec_manager() == old(self).spec_manager(),
            r is Ok <==> old(self).format().decodable(contents@),
            r is Ok ==> r->Ok_0 == old(self).value() && old(self).format().decodes(contents@, final(self).value()),
            r is Err ==> final(self).value() == old(self).value() && r->Err_0 is Format,
    {
        match self.manager.read(contents) {
            Ok(v) => {
                let mut previous = v;
                core::mem::swap(&mut self.value, &mut previous);
                Ok(previous)
            },
            Err(e) => Err(e),
        }
    }

    /// Plans writing the value in memory, unchanged, to the file.
    pub fn commit(&self) -> (r: WritePlan<Format::FormatError>)
        where Mode: Writing,
        ensures
            r.ops_view() == write_ops(Mode::spec_kind(), self.format(), self.value()),
            r.format_error is None <==> self.format().encoding(self.value()) is Some,
    {
        self.manager.write(&self.value)
    }

    /// Replaces the value in memory by `value` and plans writing it. The
    /// value stays replaced even if the write then fails.
    pub fn overwrite(&mut self, value: T) -> (r: WritePlan<Format::FormatError>)
        where Mode: Writing,
        ensures
            final(self).value() == value,
            final(self).spec_manager() == old(self).spec_manager(),
            r.ops_view() == write_ops(Mode::spec_kind(), old(self).format(), value),
            r.format_error is None <==> old(self).format().encoding(value) is Some,
    {
        self.value = value;
        self.manager.write(&self.value)
    }

    /// After a caller's operation on the value: plans the commit if it
    /// succeeded, and otherwise writes nothing and returns its error.
    pub fn commit_if_ok<R, U>(&self, outcome: Result<R, U>) -> (r: Result<
        (R, WritePlan<Format::FormatError>),
        UserError<Format::FormatError, U>,
    >)
        where Mode: Writing,
        ensures
            match outcome {
                Ok(v) => r is Ok && r->Ok_0.0 == v
                    && r->Ok_0.1.ops_view() == write_ops(Mode::spec_kind(), self.format(), self.value())
                    && (r->Ok_0.1.format_error is None <==> self.format().encoding(self.value()) is Some),
                Err(u) => r == Err::<(R, WritePlan<Format::FormatError>), UserError<Format::FormatError, U>>(UserError::User(u)),
            },
    {
        match outcome {
            Ok(v) => Ok((v, self.commit())),
            Err(u) => Err(UserError::User(u)),
        }
    }

    /// Closes the container, given how unlocking and syncing the file went,
    /// returning the value on success.
    pub fn close(self, closed: Result<(), IoError>) -> (r: Result<T, IoError>)
        ensures
            match closed {
                Ok(()) => r == Ok::<T, IoError>(self.value()),
                Err(e) => r == Err::<T, IoError>(e),
            },
    {
        match closed {
            Ok(()) => Ok(self.value),
            Err(e) => Err(e),
        }
    }
}

/// After a successful commit from the start of the file, the file holds
/// exactly the encoding of the committed value; so reopening it yields that
/// value wherever the format decodes the value's encoding back to it alone.
pub proof fn lemma_commit_then_open<T, F: FileFormat<T>>(
    kind: ModeKind,
    format: F,
    value: T,
    file: FileImage,
    reopened: T,
)
    requires
        kind != ModeKind::Readonly,
        format.encoding(value) is Some,
        forall|w: T| #[trigger] format.decodes(format.encoding(value)->0, w) ==> w == value,
        file.pos == 0,
        format.decodes(apply_ops(file, write_ops(kind, format, value)).data, reopened),
    ensures
        apply_ops(file, write_ops(kind, format, value)) == (FileImage { data: format.encoding(value)->0, pos: 0 }),
        reopened == value,
{
    lemma_write_then_read(kind, format, value, file);
}

/// Initializing a fresh file with its default value, then initializing it
/// again, yields the value the first call wrote rather than a new default:
/// the second call finds the file holding the default's encoding.
pub proof fn lemma_create_or_default_idempotent<T, F: FileFormat<T>>(format: F, default: T, second: T)
    requires
        format.encoding(default) is Some,
        forall|w: T| #[trigger] format.decodes(format.encoding(default)->0, w) ==> w == default,
        format.decodes(
            apply_ops(FileImage { data: Seq::empty(), pos: 0 }, write_ops(ModeKind::Writable, format, default)).data,
            second,
        ),
    ensures
        second == default,
{
    lemma_write_then_read(ModeKind::Writable, format, default, FileImage { data: Seq::empty(), pos: 0 });
}

/// The operations of a run of commits, one after another, of `values` in
/// order.
pub open spec fn commit_run<T, F: FileFormat<T>>(kind: ModeKind, format: F, values: Seq<T>) -> Seq<FileOpSpec>
    decreases values.len(),
{
    if values.len() == 0 {
        Seq::empty()
    } else {
        commit_run(kind, format, values.drop_last()) + write_ops(kind, format, values.last())
    }
}

proof fn lemma_apply_ops_concat(f: FileImage, a: Seq<FileOpSpec>, b: Seq<FileOpSpec>)
    ensures
        apply_ops(f, a + b) == apply_ops(apply_ops(f, a), b),
    decreases a.len(),
{
    if a.len() == 0 {
        assert(a + b =~= b);
    } else {
        assert((a + b)[0] == a[0]);
        assert((a + b).drop_first() =~= a.drop_first() + b);
        lemma_apply_ops_concat(apply_op(f, a[0]), a.drop_first(), b);
    }
}

/// Commits that follow one another, each finished before the next begins
/// (as holding the container's write guard ensures), leave the file holding
/// exactly the encoding of the last committed value, with the cursor at the
/// start: no commit leaves a trace in another's output.
pub proof fn lemma_serialized_commits<T, F: FileFormat<T>>(kind: ModeKind, format: F, values: Seq<T>, file: FileImage)
    requires
        kind != ModeKind::Readonly,
        values.len() > 0,
        forall|i: int| 0 <= i < values.len() ==> (#[trigger] format.encoding(values[i])) is Some,
        file.pos == 0,
    ensures
        apply_ops(file, commit_run(kind, format, values)) == (FileImage { data: format.encoding(values.last())->0, pos: 0 }),
    decreases values.len(),
{
    let init = values.drop_last();
    let last = values.last();
    assert(format.encoding(values[values.len() - 1]) is Some);
    lemma_apply_ops_concat(file, commit_run(kind, format, init), write_ops(kind, format, last));
    if init.len() == 0 {
        assert(commit_run(kind, format, init) =~= Seq::<FileOpSpec>::empty());
        lemma_write_then_read(kind, format, last, file);
    } else {
        assert forall|i: int| 0 <= i < init.len() implies (#[trigger] format.encoding(init[i])) is Some by {
            assert(init[i] == values[i]);
        }
        lemma_serialized_commits(kind, format, init, file);
        lemma_write_then_read(kind, format, last, apply_ops(file, commit_run(kind, format, init)));
    }
}

} // verus!

//! Access modes: which operations a manager may perform on its file, and the
//! file operations that a write consists of under each mode.
use vstd::prelude::*;
use crate::error::{Error, IoError};
use crate::format::FileFormat;

verus! {

/// One of the three ways a file may be accessed.
#[derive(Clone, Copy, Debug, PartialEq, Eq, Structural)]
pub enum ModeKind {
    /// Reading only.
    Readonly,
    /// Reading, and writing in place: a failing encoder leaves the file
    /// truncated or partly written.
    Writable,
    /// Reading, and writing through a buffer: the file is touched only once
    /// the whole encoding is known.
    Atomic,
}

/// Describes a mode by which a manager can access a file.
pub trait FileMode {
    /// The kind of this mode.
    spec fn spec_kind() -> ModeKind;

    /// Returns the kind of this mode.
    fn kind() -> (k: ModeKind)
        ensures
            k == Self::spec_kind(),
    ;
}

/// A mode that allows reading.
pub trait Reading: FileMode {
}

/// A mode that allows writing.
pub trait Writing: FileMode {
    /// A writing mode is never the read-only one.
    proof fn lemma_writes()
        ensures
            Self::spec_kind() != ModeKind::Readonly,
    ;
}

/// A file mode that only allows reading.
#[derive(Clone, Copy, Debug, Default)]
pub struct Readonly;

/// A file mode that allows reading and writing in place.
#[derive(Clone, Copy, Debug, Default)]
pub struct Writable;

/// A file mode that allows reading, and writing only once the whole encoding
/// is buffered, so that a failing encoder leaves the file untouched. It does
/// not guard against two writers racing.
#[derive(Clone, Copy, Debug, Default)]
pub struct Atomic;

impl FileMode for Readonly {
    open spec fn spec_kind() -> ModeKind {
        ModeKind::Readonly
    }

    fn kind() -> (k: ModeKind) {
        ModeKind::Readonly
    }
}

impl Reading for Readonly {
}

impl FileMode for Writable {
    open spec fn spec_kind() -> ModeKind {
        ModeKind::Writable
    }

    fn kind() -> (k: ModeKind) {
        ModeKind::Writable
    }
}

impl Reading for Writable {
}

impl Writing for Writable {
    proof fn lemma_writes() {
    }
}

impl FileMode for Atomic {
    open spec fn spec_kind() -> ModeKind {
        ModeKind::Atomic
    }

    fn kind() -> (k: ModeKind) {
        ModeKind::Atomic
    }
}

impl Reading for Atomic {
}

impl Writing for Atomic {
    proof fn lemma_writes() {
    }
}

/// The permissions with which a file is to be opened.
#[derive(Clone, Copy, Debug, PartialEq, Eq, Structural)]
pub struct OpenOptions {
    pub read: bool,
    pub write: bool,
    pub create: bool,
    pub truncate: bool,
}

/// The permissions with which a manager of the given mode opens an existing
/// file: always for reading, and for writing unless the mode is read-only.
pub fn open_options(kind: ModeKind) -> (r: OpenOptions)
    ensures
        r == (OpenOptions {
            read: true,
            write: kind != ModeKind::Readonly,
            create: false,
            truncate: false,
        }),
{
    OpenOptions { read: true, write: !matches!(kind, ModeKind::Readonly), create: false, truncate: false }
}

/// One operation on an open file handle.
#[derive(Debug)]
pub enum FileOp {
    /// Set the file's length to zero; the cursor stays where it is.
    Truncate,
    /// Write all of these bytes at the cursor, moving it past them.
    WriteAll(Vec<u8>),
    /// Move the cursor to the start of the file.
    Rewind,
    /// Flush the file's contents to durable storage.
    SyncAll,
}

/// The model of a file operation.
pub enum FileOpSpec {
    Truncate,
    WriteAll(Seq<u8>),
    Rewind,
    SyncAll,
}

impl View for FileOp {
    type V = FileOpSpec;

    open spec fn view(&self) -> FileOpSpec {
        match self {
            FileOp::Truncate => FileOpSpec::Truncate,
            FileOp::WriteAll(b) => FileOpSpec::WriteAll(b@),
            FileOp::Rewind => FileOpSpec::Rewind,
            FileOp::SyncAll => FileOpSpec::SyncAll,
        }
    }
}

/// The model of an open file: its contents and the handle's cursor.
pub struct FileImage {
    pub data: Seq<u8>,
    pub pos: nat,
}

/// The contents after writing `b` at `pos`: a gap past the end reads as
/// zeros, and bytes beyond the written range are kept.
pub open spec fn write_at(data: Seq<u8>, pos: nat, b: Seq<u8>) -> Seq<u8> {
    let filled = if pos <= data.len() {
        data
    } else {
        data + Seq::new((pos - data.len()) as nat, |i: int| 0u8)
    };
    let end = pos + b.len();
    filled.subrange(0, pos as int) + b + if end < filled.len() {
        filled.subrange(end as int, filled.len() as int)
    } else {
        Seq::empty()
    }
}

/// The effect of one operation on a file.
pub open spec fn apply_op(f: FileImage, op: FileOpSpec) -> FileImage {
    match op {
        FileOpSpec::Truncate => FileImage { data: Seq::empty(), pos: f.pos },
        FileOpSpec::WriteAll(b) => FileImage { data: write_at(f.data, f.pos, b), pos: f.pos + b.len() },
        FileOpSpec::Rewind => FileImage { data: f.data, pos: 0 },
        FileOpSpec::SyncAll => f,
    }
}

/// The effect of a sequence of operations, performed in order.
pub open spec fn apply_ops(f: FileImage, ops: Seq<FileOpSpec>) -> FileImage
    decreases ops.len(),
{
    if ops.len() == 0 {
        f
    } else {
        apply_ops(apply_op(f, ops[0]), ops.drop_first())
    }
}

/// The operations of a write, and the format's error if encoding failed.
///
/// Whoever performs the operations stops at the first one that fails.
#[derive(Debug)]
pub struct WritePlan<FE> {
    pub ops: Vec<FileOp>,
    pub format_error: Option<FE>,
}

impl<FE> WritePlan<FE> {
    /// The model of the operations.
    pub open spec fn ops_view(&self) -> Seq<FileOpSpec> {
        self.ops@.map_values(|o: FileOp| o@)
    }

    /// The outcome of a write, given how performing its operations went: a
    /// filesystem failure first, then the format's failure.
    pub fn finish(self, performed: Result<(), IoError>) -> (r: Result<(), Error<FE>>)
        ensures
            match performed {
                Err(e) => r == Err::<(), Error<FE>>(Error::Io(e)),
                Ok(()) => match self.format_error {
                    Some(fe) => r == Err::<(), Error<FE>>(Error::Format(fe)),
                    None => r is Ok,
                },
            },
    {
        match performed {
            Err(e) => Err(Error::Io(e)),
            Ok(()) => match self.format_error {
                Some(fe) => Err(Error::Format(fe)),
                None => Ok(()),
            },
        }
    }
}

/// The operations that writing `value` performs under a writing mode.
///
/// In place: truncate, then stream the encoder's output; on success rewind
/// and sync. Atomic: nothing where encoding fails; otherwise truncate, write
/// the whole encoding, rewind and sync.
pub open spec fn write_ops<T, F: FileFormat<T>>(kind: ModeKind, format: F, value: T) -> Seq<FileOpSpec> {
    let enc = format.encoding(value);
    if kind == ModeKind::Atomic {
        if enc is Some {
            seq![FileOpSpec::Truncate, FileOpSpec::WriteAll(enc->0), FileOpSpec::Rewind, FileOpSpec::SyncAll]
        } else {
            Seq::empty()
        }
    } else {
        if enc is Some {
            seq![FileOpSpec::Truncate, FileOpSpec::WriteAll(enc->0), FileOpSpec::Rewind, FileOpSpec::SyncAll]
        } else {
            seq![FileOpSpec::Truncate, FileOpSpec::WriteAll(format.emitted(value))]
        }
    }
}

/// Plans the write of `value` under a writing mode (`Writable` or `Atomic`).
pub fn plan_write<T, F: FileFormat<T>>(kind: ModeKind, format: &F, value: &T) -> (r: WritePlan<F::FormatError>)
    requires
        kind != ModeKind::Readonly,
    ensures
        r.ops_view() == write_ops(kind, *format, *value),
        r.format_error is None <==> format.encoding(*value) is Some,
{
    let mut ops: Vec<FileOp> = Vec::new();
    match kind {
        ModeKind::Atomic => {
            match format.to_buffer(value) {
                Ok(buf) => {
                    ops.push(FileOp::Truncate);
                    ops.push(FileOp::WriteAll(buf));
                    ops.push(FileOp::Rewind);
                    ops.push(FileOp::SyncAll);
                    let r = WritePlan { ops, format_error: None };
                    assert(r.ops_view() =~= write_ops(kind, *format, *value));
                    r
                },
                Err(e) => {
                    let r = WritePlan { ops, format_error: Some(e) };
                    assert(r.ops_view() =~= write_ops(kind, *format, *value));
                    r
                },
            }
        },
        _ => {
            let mut out: Vec<u8> = Vec::new();
            let res = format.to_writer(&mut out, value);
            assert(out@ =~= format.emitted(*value));
            ops.push(FileOp::Truncate);
            ops.push(FileOp::WriteAll(out));
            match res {
                Ok(()) => {
                    ops.push(FileOp::Rewind);
                    ops.push(FileOp::SyncAll);
                    let r = WritePlan { ops, format_error: None };
                    assert(r.ops_view() =~= write_ops(kind, *format, *value));
                    r
                },
                Err(e) => {
                    let r = WritePlan { ops, format_error: Some(e) };
                    assert(r.ops_view() =~= write_ops(kind, *format, *value));
                    r
                },
            }
        },
    }
}

proof fn lemma_write_at_start(b: Seq<u8>)
    ensures
        write_at(Seq::empty(), 0, b) == b,
{
    assert(write_at(Seq::empty(), 0, b) =~= b);
}

/// A successful write, started with the cursor at the start of the file,
/// leaves exactly the value's encoding in the file and the cursor back at
/// the start, under either writing mode.
pub proof fn lemma_write_then_read<T, F: FileFormat<T>>(kind: ModeKind, format: F, value: T, file: FileImage)
    requires
        kind != ModeKind::Readonly,
        format.encoding(value) is Some,
        file.pos == 0,
    ensures
        apply_ops(file, write_ops(kind, format, value)) == (FileImage { data: format.encoding(value)->0, pos: 0 }),
{
    let ops = write_ops(kind, format, value);
    let e = format.encoding(value)->0;
    let ops1 = ops.drop_first();
    let ops2 = ops1.drop_first();
    let ops3 = ops2.drop_first();
    let ops4 = ops3.drop_first();
    assert(ops[0] == FileOpSpec::Truncate);
    assert(ops1[0] == FileOpSpec::WriteAll(e));
    assert(ops2[0] == FileOpSpec::Rewind);
    assert(ops3[0] == FileOpSpec::SyncAll);
    assert(ops4 =~= Seq::<FileOpSpec>::empty());
    let f1 = apply_op(file, ops[0]);
    lemma_write_at_start(e);
    let f2 = apply_op(f1, ops1[0]);
    assert(f2.data == e);
    let f3 = apply_op(f2, ops2[0]);
    let f4 = apply_op(f3, ops3[0]);
    assert(apply_ops(f4, ops4) == f4);
    assert(apply_ops(f3, ops3) == apply_ops(f4, ops4));
    assert(apply_ops(f2, ops2) == apply_ops(f3, ops3));
    assert(apply_ops(f1, ops1) == apply_ops(f2, ops2));
    assert(apply_ops(file, ops) == apply_ops(f1, ops1));
}

/// Under the atomic mode, a write whose encoding fails performs no operation,
/// so the file keeps its prior contents byte for byte.
pub proof fn lemma_atomic_write_failure_keeps_file<T, F: FileFormat<T>>(format: F, value: T, file: FileImage)
    requires
        format.encoding(value) is None,
    ensures
        apply_ops(file, write_ops(ModeKind::Atomic, format, value)) == file,
{
}

/// Under the writable mode, a write whose encoding fails leaves in the file
/// only what the encoder emitted before failing, whatever the file held.
pub proof fn lemma_writable_write_failure_leaves_partial<T, F: FileFormat<T>>(format: F, value: T, file: FileImage)
    requires
        format.encoding(value) is None,
        file.pos == 0,
    ensures
        apply_ops(file, write_ops(ModeKind::Writable, format, value)).data == format.emitted(value),
{
    let ops = write_ops(ModeKind::Writable, format, value);
    let e = format.emitted(value);
    let ops1 = ops.drop_first();
    let ops2 = ops1.drop_first();
    assert(ops[0] == FileOpSpec::Truncate);
    assert(ops1[0] == FileOpSpec::WriteAll(e));
    assert(ops2 =~= Seq::<FileOpSpec>::empty());
    let f1 = apply_op(file, ops[0]);
    lemma_write_at_start(e);
    let f2 = apply_op(f1, ops1[0]);
    assert(apply_ops(f2, ops2) == f2);
    assert(apply_ops(f1, ops1) == apply_ops(f2, ops2));
    assert(apply_ops(file, ops) == apply_ops(f1, ops1));
}

} // verus!

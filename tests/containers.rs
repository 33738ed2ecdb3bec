use singlefile::compression::{BZip2, Compressed};
use singlefile::container::Container;
use singlefile::format::{PlainBytes, PlainUtf8};
use singlefile::lock::{ExclusiveLock, LockKind, LockTable, NoLock, SharedLock};
use singlefile::manager::{create_options, FileManager, Initialize};
use singlefile::mode::{open_options, Atomic, FileOp, ModeKind, Readonly, WritePlan, Writable};
use singlefile::utils;
use singlefile::{Error, IoError, IoErrorKind, UserError};

/// A file held in memory: its contents and a cursor.
struct MemFile {
    data: Vec<u8>,
    pos: usize,
}

impl MemFile {
    fn holding(bytes: &[u8]) -> MemFile {
        MemFile { data: bytes.to_vec(), pos: 0 }
    }

    fn perform<FE>(&mut self, plan: WritePlan<FE>) -> Result<(), Error<FE>> {
        for op in plan.ops.iter() {
            match op {
                FileOp::Truncate => self.data.clear(),
                FileOp::WriteAll(b) => {
                    if self.data.len() < self.pos {
                        self.data.resize(self.pos, 0);
                    }
                    let end = self.pos + b.len();
                    if self.data.len() < end {
                        self.data.resize(end, 0);
                    }
                    self.data[self.pos..end].copy_from_slice(b);
                    self.pos = end;
                },
                FileOp::Rewind => self.pos = 0,
                FileOp::SyncAll => {},
            }
        }
        plan.finish(Ok(()))
    }
}

fn not_found() -> IoError {
    IoError::new(IoErrorKind::NotFound, String::from("no such file"))
}

type TextManager<Mode> = FileManager<PlainUtf8, NoLock, Mode>;

#[test]
fn create_or_default_is_idempotent() {
    let mut file = MemFile::holding(b"");
    let (c, plan) = Container::<String, TextManager<Writable>>::create_or_default(FileManager::new(PlainUtf8), Err(not_found()))
        .unwrap();
    assert_eq!(c.get(), "");
    file.perform(plan.unwrap()).unwrap();
    let (c2, plan2) = Container::<String, TextManager<Writable>>::create_or_default(FileManager::new(PlainUtf8), Ok(file.data.clone()))
        .unwrap();
    assert!(plan2.is_none());
    assert_eq!(c2.get(), c.get());
}

#[test]
fn create_or_keeps_existing_contents() {
    let mut file = MemFile::holding(b"");
    let (c, plan) = Container::<String, TextManager<Writable>>::create_or(FileManager::new(PlainUtf8), Err(not_found()), String::from("first"))
        .unwrap();
    assert_eq!(c.get(), "first");
    file.perform(plan.unwrap()).unwrap();
    assert_eq!(file.data, b"first".to_vec());
    let (c2, plan2) = Container::<String, TextManager<Writable>>::create_or(FileManager::new(PlainUtf8), Ok(file.data.clone()), String::from("second"))
        .unwrap();
    assert!(plan2.is_none());
    assert_eq!(c2.get(), "first");
}

#[test]
fn create_or_else_calls_closure_only_when_absent() {
    let existing = Container::<String, TextManager<Readonly>>::create_or_else(FileManager::new(PlainUtf8), Ok(b"kept".to_vec()), || String::from("made"))
        .unwrap();
    assert_eq!(existing.0.get(), "kept");
    assert!(existing.1.is_none());
    let created = Container::<String, TextManager<Readonly>>::create_or_else(FileManager::new(PlainUtf8), Err(not_found()), || String::from("made"))
        .unwrap();
    assert_eq!(created.0.get(), "made");
    assert!(created.1.is_some());
}

#[test]
fn create_or_propagates_other_errors() {
    let denied = IoError::new(IoErrorKind::PermissionDenied, String::from("denied"));
    let r = Container::<String, TextManager<Writable>>::create_or(FileManager::new(PlainUtf8), Err(denied), String::from("x"));
    assert!(matches!(r, Err(Error::Io(IoError { kind: IoErrorKind::PermissionDenied, .. }))));
    let r = Container::<String, TextManager<Writable>>::create_or(FileManager::new(PlainUtf8), Ok(vec![0xff]), String::from("x"));
    assert!(matches!(r, Err(Error::Format(_))));
}

#[test]
fn refresh_returns_previous_value() {
    let mut c = Container::<String, TextManager<Writable>>::open(FileManager::new(PlainUtf8), b"on disk").unwrap();
    *c.get_mut() = String::from("in memory");
    let old = c.refresh(b"on disk").unwrap();
    assert_eq!(old, "in memory");
    assert_eq!(c.get(), "on disk");
    let failed = c.refresh(&[0xc3]);
    assert!(matches!(failed, Err(Error::Format(_))));
    assert_eq!(c.get(), "on disk");
}

#[test]
fn commit_then_open_yields_committed_value() {
    let mut file = MemFile::holding(b"an older and longer value");
    let mut c = Container::<String, TextManager<Writable>>::open(FileManager::new(PlainUtf8), &file.data.clone()).unwrap();
    *c.get_mut() = String::from("new");
    file.perform(c.commit()).unwrap();
    assert_eq!(file.pos, 0);
    let reopened = Container::<String, TextManager<Readonly>>::open(FileManager::new(PlainUtf8), &file.data).unwrap();
    assert_eq!(reopened.get(), "new");
}

#[test]
fn overwrite_replaces_value_and_file() {
    let mut file = MemFile::holding(b"abc");
    let mut c = Container::<String, TextManager<Atomic>>::open(FileManager::new(PlainUtf8), b"abc").unwrap();
    let plan = c.overwrite(String::from("xyz!"));
    assert_eq!(c.get(), "xyz!");
    file.perform(plan).unwrap();
    assert_eq!(file.data, b"xyz!".to_vec());
    assert_eq!(c.close(Ok(())).unwrap(), "xyz!");
}

type FailingFormat = Compressed<BZip2, PlainBytes>;

#[test]
fn atomic_write_failure_keeps_file() {
    let before = b"precious contents".to_vec();
    let mut file = MemFile::holding(&before);
    let c = Container::new(vec![1u8, 2, 3], FileManager::<FailingFormat, NoLock, Atomic>::new(Compressed::with_level(PlainBytes, BZip2, 0)));
    let plan = c.commit();
    assert!(plan.ops.is_empty());
    let r = file.perform(plan);
    assert!(matches!(r, Err(Error::Format(_))));
    assert_eq!(file.data, before);
}

#[test]
fn writable_write_failure_may_truncate() {
    let before = b"precious contents".to_vec();
    let mut file = MemFile::holding(&before);
    let c = Container::new(vec![1u8, 2, 3], FileManager::<FailingFormat, NoLock, Writable>::new(Compressed::with_level(PlainBytes, BZip2, 0)));
    let r = file.perform(c.commit());
    assert!(matches!(r, Err(Error::Format(_))));
    assert_ne!(file.data, before);
    assert!(file.data.is_empty());
}

#[test]
fn counter_commits_converge() {
    let mut file = MemFile::holding(b"0");
    let mut c = Container::<String, TextManager<Writable>>::open(FileManager::new(PlainUtf8), b"0").unwrap();
    for _ in 0..3 {
        let n: u32 = c.get().parse().unwrap();
        *c.get_mut() = (n + 1).to_string();
        let (unit, plan) = c.commit_if_ok(Ok::<(), ()>(())).unwrap();
        assert_eq!(unit, ());
        file.perform(plan).unwrap();
    }
    assert_eq!(file.data, b"3".to_vec());
    let skipped = c.commit_if_ok(Err::<(), &str>("refused"));
    assert!(matches!(skipped, Err(UserError::User("refused"))));
}

#[test]
fn exclusive_lock_excludes_second_manager() {
    let mut table = LockTable::new();
    assert!(table.try_lock(FileManager::<PlainUtf8, ExclusiveLock, Writable>::lock_kind()).is_ok());
    let second = table.try_lock(LockKind::Exclusive);
    assert_eq!(second.unwrap_err().kind, IoErrorKind::LockContended);
    assert!(table.try_lock(LockKind::Shared).is_err());
    table.unlock(LockKind::Exclusive);
    assert!(table.try_lock(LockKind::Shared).is_ok());
    assert!(table.try_lock(FileManager::<PlainUtf8, SharedLock, Readonly>::lock_kind()).is_ok());
    assert_eq!(table.shared, 2);
    assert!(table.try_lock(LockKind::Exclusive).is_err());
    assert!(table.try_lock(LockKind::Unlocked).is_ok());
}

#[test]
fn open_options_follow_mode() {
    let ro = FileManager::<PlainUtf8, NoLock, Readonly>::open_options();
    assert!(ro.read && !ro.write && !ro.create);
    let rw = FileManager::<PlainUtf8, NoLock, Atomic>::open_options();
    assert!(rw.read && rw.write && !rw.truncate);
    assert_eq!(open_options(ModeKind::Writable), rw);
    let c = create_options(true);
    assert!(c.write && c.create && c.truncate && !c.read);
}

#[test]
fn create_overwrite_plans_in_place_write() {
    let mut file = MemFile::holding(b"old contents here");
    let (c, plan) = Container::<String, TextManager<Readonly>>::create_overwrite(FileManager::new(PlainUtf8), String::from("new"));
    assert_eq!(c.get(), "new");
    file.perform(plan).unwrap();
    assert_eq!(file.data, b"new".to_vec());
}

#[test]
fn read_or_write_decisions() {
    let m = FileManager::<PlainUtf8, NoLock, Writable>::new(PlainUtf8);
    let r: Initialize<String, IoError> = m.read_or_write(Ok(b"there".to_vec()), || String::from("unused")).unwrap();
    assert!(matches!(r, Initialize::Existing(ref s) if s == "there"));
    let r: Initialize<String, IoError> = m.read_or_write(Err(not_found()), || String::from("fresh")).unwrap();
    assert!(matches!(r, Initialize::Create(ref s, _) if s == "fresh"));
}

#[test]
fn container_accessors() {
    let c = Container::new(5u32, FileManager::<PlainUtf8, NoLock, Readonly>::new(PlainUtf8));
    assert_eq!(*c.get(), 5);
    assert_eq!(*c.manager().format_ref(), PlainUtf8);
    let m = Container::new(1u8, PlainBytes).into_manager();
    assert_eq!(m, PlainBytes);
    assert_eq!(Container::new(7u8, ()).into_value(), 7);
    assert_eq!(FileManager::<PlainUtf8, NoLock, Readonly>::new(PlainUtf8).into_inner(), PlainUtf8);
}

#[test]
fn close_reports_failure() {
    let c = Container::new(String::from("v"), FileManager::<PlainUtf8, NoLock, Readonly>::new(PlainUtf8));
    let e = c.close(Err(IoError::new(IoErrorKind::Other, String::from("sync failed")))).unwrap_err();
    assert_eq!(e.kind, IoErrorKind::Other);
}

#[test]
fn write_plan_finish_orders_errors() {
    let plan: WritePlan<&str> = WritePlan { ops: vec![], format_error: Some("bad") };
    let r = plan.finish(Err(IoError::lock_contended()));
    assert!(matches!(r, Err(Error::Io(IoError { kind: IoErrorKind::LockContended, .. }))));
    let plan: WritePlan<&str> = WritePlan { ops: vec![], format_error: Some("bad") };
    assert!(matches!(plan.finish(Ok(())), Err(Error::Format("bad"))));
}

#[test]
fn utils_read_and_write() {
    let (bytes, r) = utils::write(PlainUtf8, &String::from("text"));
    assert!(r.is_ok());
    assert_eq!(bytes, b"text".to_vec());
    let back: String = utils::read(&bytes, PlainUtf8).unwrap();
    assert_eq!(back, "text");
    let (bytes, r) = utils::write(Compressed::with_level(PlainBytes, BZip2, 0), &vec![1u8]);
    assert!(bytes.is_empty());
    assert!(matches!(r, Err(Error::Format(_))));
}

#[derive(Debug, PartialEq)]
enum AppError {
    Core(String),
    Mine(u8),
}

impl From<Error<&'static str>> for AppError {
    fn from(e: Error<&'static str>) -> AppError {
        match e {
            Error::Format(s) => AppError::Core(s.to_string()),
            Error::Io(io) => AppError::Core(io.message),
        }
    }
}

#[test]
fn user_error_map_into() {
    let u: UserError<&'static str, u8> = UserError::User(4);
    assert_eq!(u.map_into(AppError::Mine), AppError::Mine(4));
    let f: UserError<&'static str, u8> = UserError::Format("broken");
    assert_eq!(f.map_into(AppError::Mine), AppError::Core(String::from("broken")));
    let e: Error<&'static str> = Error::Io(IoError::new(IoErrorKind::Other, String::from("io")));
    let w: UserError<&'static str, u8> = e.into_user();
    assert!(matches!(w, UserError::Io(IoError { kind: IoErrorKind::Other, .. })));
    assert!(not_found().is_not_found());
}

#[test]
fn error_conversions() {
    let e: Error<&'static str> = Error::Format("f");
    let u: UserError<&'static str, u8> = UserError::from(e);
    assert!(matches!(u, UserError::Format("f")));
    let e: Error<&'static str> = Error::from(IoError::lock_contended());
    assert!(matches!(e, Error::Io(IoError { kind: IoErrorKind::LockContended, .. })));
    let u: UserError<&'static str, u8> = UserError::from(not_found());
    assert!(matches!(u, UserError::Io(IoError { kind: IoErrorKind::NotFound, .. })));
}

use filesystem_provider::backend::Backend;
use filesystem_provider::fs::entity::Type;
use filesystem_provider::fs::ops;
use filesystem_provider::guard::check_path;
use filesystem_provider::sandbox::FileSystem;
use filesystem_provider::sandbox::OpenEntityError;

#[derive(Debug, PartialEq, Eq, Clone, Copy)]
enum MockError {
    NotFound,
    AlreadyExists,
}

/// An in-memory storage backend: a flat list of entities keyed by path,
/// compared component-wise, plus a counter of open calls.
#[derive(Clone)]
struct MockBackend {
    entries: Vec<(std::path::PathBuf, Type, u64)>,
    open_calls: usize,
}

impl MockBackend {
    fn with_entries(entries: &[(&str, Type, u64)]) -> MockBackend {
        MockBackend {
            entries: entries
                .iter()
                .map(|(p, t, s)| (std::path::PathBuf::from(p), *t, *s))
                .collect(),
            open_calls: 0,
        }
    }

    fn find(&self, path: &str) -> Option<(Type, u64)> {
        let want = std::path::PathBuf::from(path);
        self.entries
            .iter()
            .find(|(p, _, _)| *p == want)
            .map(|(_, t, s)| (*t, *s))
    }
}

impl Backend for MockBackend {
    type FileHandle = u32;
    type E = MockError;

    fn stat(&self, path: &str) -> Result<(Type, u64), MockError> {
        self.find(path).ok_or(MockError::NotFound)
    }

    fn open_read(&mut self, path: &str) -> Result<(u32, Type, u64), MockError> {
        self.open_calls += 1;
        match self.find(path) {
            Some((t, s)) => Ok((0, t, s)),
            None => Err(MockError::NotFound),
        }
    }

    fn create_file(&mut self, path: &str) -> Result<(u32, Type, u64), MockError> {
        let want = std::path::PathBuf::from(path);
        if let Some(entry) = self.entries.iter_mut().find(|(p, _, _)| *p == want) {
            entry.2 = 0;
        } else {
            self.entries.push((want, Type::File, 0));
        }
        Ok((0, Type::File, 0))
    }

    fn create_file_new(&mut self, path: &str) -> Result<(u32, Type, u64), MockError> {
        if self.find(path).is_some() {
            return Err(MockError::AlreadyExists);
        }
        self.entries
            .push((std::path::PathBuf::from(path), Type::File, 0));
        Ok((0, Type::File, 0))
    }

    fn create_dir_all(&mut self, path: &str) -> Result<(), MockError> {
        if self.find(path).is_none() {
            self.entries
                .push((std::path::PathBuf::from(path), Type::Dir, 0));
        }
        Ok(())
    }

    fn create_dir_new(&mut self, path: &str) -> Result<(), MockError> {
        if self.find(path).is_some() {
            return Err(MockError::AlreadyExists);
        }
        self.entries
            .push((std::path::PathBuf::from(path), Type::Dir, 0));
        Ok(())
    }

    fn remove_file(&self, path: &str) -> Result<(), MockError> {
        self.find(path).map(|_| ()).ok_or(MockError::NotFound)
    }

    fn remove_dir_all(&self, path: &str) -> Result<(), MockError> {
        self.find(path).map(|_| ()).ok_or(MockError::NotFound)
    }

    fn read_dir(&self, path: &str) -> Result<Vec<Result<(String, Type, u64), MockError>>, MockError> {
        let dir = std::path::PathBuf::from(path);
        match self.find(path) {
            Some((Type::Dir, _)) => Ok(self
                .entries
                .iter()
                .filter(|(p, _, _)| p.parent() == Some(dir.as_path()))
                .map(|(p, t, s)| Ok((p.to_string_lossy().into_owned(), *t, *s)))
                .collect()),
            _ => Err(MockError::NotFound),
        }
    }
}

fn source_tree() -> MockBackend {
    MockBackend::with_entries(&[
        (".", Type::Dir, 0),
        ("./src", Type::Dir, 0),
        ("./src/fs.rs", Type::File, 1024),
    ])
}

#[test]
fn llegal_subpath_start_with_current() {
    let mut filesystem = FileSystem::new(String::from("."), source_tree());

    let sub = ".";
    match ops::OpenFile::open(&mut filesystem, sub) {
        Err(OpenEntityError::AccessError(_)) => unreachable!(),
        _ => (),
    }
}

#[test]
fn llegal_subpath_start_with_normal() {
    let mut filesystem = FileSystem::new(String::from("."), source_tree());

    let sub = "src";
    match ops::OpenFile::open(&mut filesystem, sub) {
        Err(OpenEntityError::AccessError(_)) => unreachable!(),
        _ => (),
    }
}

#[test]
fn illegal_subpath() {
    let mut filesystem = FileSystem::new(String::from("."), source_tree());

    let sub = "..";
    match ops::OpenFile::open(&mut filesystem, sub).err().unwrap() {
        OpenEntityError::AccessError(path) => assert_eq!(
            std::path::Path::new(&path),
            std::path::Path::new(".").join("..")
        ),
        _ => unreachable!(),
    }
}

#[test]
fn illegal_subpath2() {
    let mut filesystem = FileSystem::new(String::from("."), source_tree());

    let sub = "././..";
    match ops::OpenFile::open(&mut filesystem, sub).err().unwrap() {
        OpenEntityError::AccessError(path) => assert_eq!(
            std::path::Path::new(&path),
            std::path::Path::new(".").join(".").join("..")
        ),
        _ => unreachable!(),
    }
}

#[test]
fn open_file() {
    let mut filesystem = FileSystem::new(String::from("."), source_tree());

    let sub = "./src/fs.rs";
    assert!(ops::OpenFile::open(&mut filesystem, sub).is_ok());
}

#[test]
fn open_dir() {
    let mut filesystem = FileSystem::new(String::from("."), source_tree());

    let sub = "./src";
    assert!(ops::OpenDir::open(&mut filesystem, sub).is_ok());
}

#[test]
fn guard_accepts_and_rejects_by_final_level() {
    assert!(check_path("."));
    assert!(check_path("a/b"));
    assert!(!check_path(".."));
    assert!(!check_path("./.."));
    assert!(!check_path("./a/../.."));
    assert!(check_path("a/../b"));
    assert!(!check_path(""));
    assert!(!check_path("/a"));
    assert!(!check_path("../a/b"));
    assert!(check_path("././."));
    assert!(check_path("a//b"));
    assert!(check_path("a/"));
}

#[test]
fn boundary_rejection_reaches_no_backend() {
    let mut filesystem = FileSystem::new(String::from("."), source_tree());

    match ops::OpenFile::open(&mut filesystem, "..") {
        Err(OpenEntityError::AccessError(_)) => (),
        _ => unreachable!(),
    }
    assert_eq!(filesystem.backend().open_calls, 0);

    assert!(ops::OpenFile::open(&mut filesystem, "./src/fs.rs").is_ok());
    assert_eq!(filesystem.backend().open_calls, 1);
}

use filesystem_provider::backend::Backend;
use filesystem_provider::fs;
use filesystem_provider::fs::entity::Type;
use filesystem_provider::provider::make::Make;
use filesystem_provider::provider::Provider;
use filesystem_provider::sandbox;

#[derive(Debug, PartialEq, Eq, Clone, Copy)]
enum MockError {
    NotFound,
    AlreadyExists,
}

/// An in-memory storage backend holding one root directory.
#[derive(Clone)]
struct MockBackend {
    entries: Vec<(std::path::PathBuf, Type, u64)>,
}

impl MockBackend {
    fn rooted() -> MockBackend {
        MockBackend {
            entries: vec![(std::path::PathBuf::from("."), Type::Dir, 0)],
        }
    }

    fn find(&self, path: &str) -> Option<(Type, u64)> {
        let want = std::path::PathBuf::from(path);
        self.entries
            .iter()
            .find(|(p, _, _)| *p == want)
            .map(|(_, t, s)| (*t, *s))
    }
}

impl Backend for MockBackend {
    type FileHandle = u32;
    type E = MockError;

    fn stat(&self, path: &str) -> Result<(Type, u64), MockError> {
        self.find(path).ok_or(MockError::NotFound)
    }

    fn open_read(&mut self, path: &str) -> Result<(u32, Type, u64), MockError> {
        match self.find(path) {
            Some((t, s)) => Ok((0, t, s)),
            None => Err(MockError::NotFound),
        }
    }

    fn create_file(&mut self, path: &str) -> Result<(u32, Type, u64), MockError> {
        let want = std::path::PathBuf::from(path);
        if let Some(entry) = self.entries.iter_mut().find(|(p, _, _)| *p == want) {
            entry.2 = 0;
        } else {
            self.entries.push((want, Type::File, 0));
        }
        Ok((0, Type::File, 0))
    }

    fn create_file_new(&mut self, path: &str) -> Result<(u32, Type, u64), MockError> {
        if self.find(path).is_some() {
            return Err(MockError::AlreadyExists);
        }
        self.entries
            .push((std::path::PathBuf::from(path), Type::File, 0));
        Ok((0, Type::File, 0))
    }

    fn create_dir_all(&mut self, path: &str) -> Result<(), MockError> {
        if self.find(path).is_none() {
            self.entries
                .push((std::path::PathBuf::from(path), Type::Dir, 0));
        }
        Ok(())
    }

    fn create_dir_new(&mut self, path: &str) -> Result<(), MockError> {
        if self.find(path).is_some() {
            return Err(MockError::AlreadyExists);
        }
        self.entries
            .push((std::path::PathBuf::from(path), Type::Dir, 0));
        Ok(())
    }

    fn remove_file(&self, path: &str) -> Result<(), MockError> {
        self.find(path).map(|_| ()).ok_or(MockError::NotFound)
    }

    fn remove_dir_all(&self, path: &str) -> Result<(), MockError> {
        self.find(path).map(|_| ()).ok_or(MockError::NotFound)
    }

    fn read_dir(&self, path: &str) -> Result<Vec<Result<(String, Type, u64), MockError>>, MockError> {
        let dir = std::path::PathBuf::from(path);
        match self.find(path) {
            Some((Type::Dir, _)) => Ok(self
                .entries
                .iter()
                .filter(|(p, _, _)| p.parent() == Some(dir.as_path()))
                .map(|(p, t, s)| Ok((p.to_string_lossy().into_owned(), *t, *s)))
                .collect()),
            _ => Err(MockError::NotFound),
        }
    }
}

fn inspect<F: fs::Introspect>(_: &F) {}

fn filesystem<F: fs::FileSystem<MetadataE = MockError>>(_: &F) {}

fn open_file_bound<
    F: fs::ops::OpenFile<
        E = sandbox::OpenEntityError<MockError>,
        File = sandbox::File<u32>,
    >,
>(
    _: &F,
) {
}

fn open_dir_bound<
    F: fs::ops::OpenDir<E = sandbox::OpenEntityError<MockError>, Dir = sandbox::Dir<MockBackend>>,
>(
    _: &F,
) {
}

fn create_file_bound<
    F: fs::ops::CreateFile<
        E = sandbox::CreateEntityError<MockError>,
        File = sandbox::File<u32>,
    >,
>(
    _: &F,
) {
}

fn create_dir_bound<
    F: fs::ops::CreateDir<
        E = sandbox::CreateEntityError<MockError>,
        Dir = sandbox::Dir<MockBackend>,
    >,
>(
    _: &F,
) {
}

fn remove_file_bound<F: fs::ops::RemoveFile<E = sandbox::RemoveEntityError<MockError>>>(_: &F) {}

fn remove_dir_bound<F: fs::ops::RemoveDir<E = sandbox::RemoveEntityError<MockError>>>(_: &F) {}

#[test]
fn provider_it_works() {
    let provider = Provider::new(MockBackend::rooted());
    let made = Make::make(provider, String::from("."));

    inspect(&made);

    assert!(fs::Introspect::is_readable(&made));
    assert!(fs::Introspect::is_writable(&made));
    assert!(fs::Introspect::is_appendable(&made));
    assert!(fs::Introspect::is_truncatable(&made));
    assert!(fs::Introspect::is_removable(&made));

    filesystem(&made);

    open_file_bound(&made);
    open_dir_bound(&made);
    create_file_bound(&made);
    create_dir_bound(&made);
    remove_file_bound(&made);
    remove_dir_bound(&made);
}

#[test]
fn restricted_capabilities_are_reported() {
    let made = sandbox::FileSystem::with_capabilities(
        String::from("."),
        MockBackend::rooted(),
        true,
        false,
        false,
        true,
        false,
    );

    assert!(fs::Introspect::is_readable(&made));
    assert!(!fs::Introspect::is_writable(&made));
    assert!(!fs::Introspect::is_appendable(&made));
    assert!(fs::Introspect::is_truncatable(&made));
    assert!(!fs::Introspect::is_removable(&made));
}

#[test]
fn lib_it_works() {
    assert_eq!(2 + 2, 4);
}

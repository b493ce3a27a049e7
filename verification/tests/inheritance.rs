use cap_tempfile::{ambient_authority, TempDir};
use dir_view::{DirView, DirViewUtf8, OpenOptions, ViewError, ViewKind};
use std::io::{ErrorKind, Read};
use std::path::Path;

fn populated() -> TempDir {
    let temp_dir = TempDir::new(ambient_authority()).unwrap();
    temp_dir.write("hello", "hello, world").unwrap();
    temp_dir.create_dir_all("sub/inner").unwrap();
    temp_dir
}

fn view_of(temp_dir: &TempDir, kind: ViewKind) -> DirView {
    DirView::from_dir(temp_dir.open_dir(".").unwrap(), kind)
}

#[test]
fn from_dir_keeps_the_policy_given() {
    let temp_dir = populated();
    assert_eq!(
        view_of(&temp_dir, ViewKind::Full).view_kind(),
        ViewKind::Full
    );
    assert_eq!(
        view_of(&temp_dir, ViewKind::Readonly).view_kind(),
        ViewKind::Readonly
    );
}

#[test]
fn child_view_inherits_the_policy() {
    let temp_dir = populated();

    let readonly = view_of(&temp_dir, ViewKind::Readonly);
    let child = readonly.open_dir(Path::new("sub")).unwrap();
    assert_eq!(child.view_kind(), ViewKind::Readonly);
    assert!(matches!(
        child.create_dir(Path::new("new")),
        Err(ViewError::ReadOnly)
    ));
    let grandchild = child.open_dir(Path::new("inner")).unwrap();
    assert_eq!(grandchild.view_kind(), ViewKind::Readonly);
    assert!(matches!(
        grandchild.write(Path::new("file"), b"x"),
        Err(ViewError::ReadOnly)
    ));

    let full = view_of(&temp_dir, ViewKind::Full);
    let child = full.open_dir(Path::new("sub")).unwrap();
    assert_eq!(child.view_kind(), ViewKind::Full);
    child.create_dir(Path::new("new")).unwrap();
    assert!(full.is_dir(Path::new("sub/new")));
}

#[test]
fn clone_has_the_same_policy() {
    let temp_dir = populated();
    let readonly = view_of(&temp_dir, ViewKind::Readonly);
    let clone = readonly.try_clone().unwrap();
    assert_eq!(clone.view_kind(), ViewKind::Readonly);
    assert!(matches!(
        clone.remove_file(Path::new("hello")),
        Err(ViewError::ReadOnly)
    ));
    assert_eq!(clone.read(Path::new("hello")).unwrap(), b"hello, world");

    let full = view_of(&temp_dir, ViewKind::Full);
    let clone = full.try_clone().unwrap();
    assert_eq!(clone.view_kind(), ViewKind::Full);
    clone.remove_file(Path::new("hello")).unwrap();
    assert!(!full.path_exists(Path::new("hello")));
}

#[test]
fn parent_view_takes_the_policy_given() {
    let temp_dir = populated();
    let readonly = view_of(&temp_dir, ViewKind::Readonly);
    let child = readonly.open_dir(Path::new("sub")).unwrap();

    let parent = child
        .open_parent_dir(ViewKind::Full, ambient_authority())
        .unwrap();
    assert_eq!(parent.view_kind(), ViewKind::Full);
    parent.create_dir(Path::new("made_by_parent")).unwrap();
    assert!(readonly.is_dir(Path::new("made_by_parent")));

    let full = view_of(&temp_dir, ViewKind::Full);
    let child = full.open_dir(Path::new("sub")).unwrap();
    let parent = child
        .open_parent_dir(ViewKind::Readonly, ambient_authority())
        .unwrap();
    assert_eq!(parent.view_kind(), ViewKind::Readonly);
    assert!(matches!(
        parent.create_dir(Path::new("refused")),
        Err(ViewError::ReadOnly)
    ));
    assert!(parent.is_file(Path::new("hello")));
}

#[test]
fn ambient_view_takes_the_policy_given() {
    let here = Path::new(".");

    let readonly =
        DirView::open_ambient_dir(here, ViewKind::Readonly, ambient_authority()).unwrap();
    assert_eq!(readonly.view_kind(), ViewKind::Readonly);
    assert!(matches!(
        readonly.create_dir(Path::new("refused_by_the_view")),
        Err(ViewError::ReadOnly)
    ));
    assert!(!readonly.path_exists(Path::new("refused_by_the_view")));

    let full = DirView::open_ambient_dir(here, ViewKind::Full, ambient_authority()).unwrap();
    assert_eq!(full.view_kind(), ViewKind::Full);

    assert_eq!(
        DirView::open_ambient_dir(
            Path::new("/no/such/directory/anywhere"),
            ViewKind::Full,
            ambient_authority()
        )
        .unwrap_err()
        .kind(),
        ErrorKind::NotFound
    );
}

#[test]
fn reopened_view_takes_the_policy_given() {
    let temp_dir = populated();
    let dir = temp_dir.open_dir(".").unwrap();

    let readonly = DirView::reopen_dir(&dir, ViewKind::Readonly).unwrap();
    assert_eq!(readonly.view_kind(), ViewKind::Readonly);
    assert!(matches!(
        readonly.create_dir(Path::new("refused")),
        Err(ViewError::ReadOnly)
    ));
    assert_eq!(readonly.read(Path::new("hello")).unwrap(), b"hello, world");

    let full = DirView::reopen_dir(&dir, ViewKind::Full).unwrap();
    assert_eq!(full.view_kind(), ViewKind::Full);
    full.create_dir(Path::new("made")).unwrap();
    assert!(dir.is_dir("made"));
}

#[test]
fn adopt_wraps_a_directory_and_carries_a_failure() {
    let temp_dir = populated();
    let view = DirView::adopt(Ok(temp_dir.open_dir("sub").unwrap()), ViewKind::Readonly).unwrap();
    assert_eq!(view.view_kind(), ViewKind::Readonly);
    assert!(view.is_dir(Path::new("inner")));

    let failed = DirView::adopt(
        Err(std::io::Error::new(ErrorKind::NotFound, "gone")),
        ViewKind::Full,
    );
    match failed {
        Err(ViewError::Io(e)) => {
            assert_eq!(e.kind(), ErrorKind::NotFound);
            assert_eq!(e.to_string(), "gone");
        }
        _ => panic!("a failure of the handle must be carried as it is"),
    }
}

#[test]
fn entries_of_a_readonly_view_refuse_mutation() {
    let temp_dir = populated();
    let readonly = view_of(&temp_dir, ViewKind::Readonly);

    let mut listing = readonly.entries().unwrap();
    assert_eq!(listing.view_kind(), ViewKind::Readonly);
    let mut seen = Vec::new();
    while let Some(entry) = listing.next() {
        let entry = entry.unwrap();
        assert_eq!(entry.view_kind(), ViewKind::Readonly);
        assert_eq!(
            entry.remove_file().unwrap_err().kind(),
            ErrorKind::PermissionDenied
        );
        assert_eq!(
            entry.remove_dir().unwrap_err().kind(),
            ErrorKind::PermissionDenied
        );
        assert!(matches!(entry.remove_file(), Err(ViewError::ReadOnly)));
        assert!(matches!(entry.remove_dir(), Err(ViewError::ReadOnly)));
        seen.push(entry.file_name());
    }
    assert!(listing.next().is_none());
    seen.sort();
    assert_eq!(seen, vec![Path::new("hello"), Path::new("sub")]);
    assert!(readonly.is_file(Path::new("hello")));
    assert!(readonly.is_dir(Path::new("sub")));
}

#[test]
fn entries_of_a_full_view_can_be_removed() {
    let temp_dir = populated();
    temp_dir.create_dir("empty").unwrap();
    let full = view_of(&temp_dir, ViewKind::Full);

    let mut listing = full.read_dir(Path::new(".")).unwrap();
    assert_eq!(listing.view_kind(), ViewKind::Full);
    while let Some(entry) = listing.next() {
        let entry = entry.unwrap();
        assert_eq!(entry.view_kind(), ViewKind::Full);
        let name = entry.file_name();
        if name == Path::new("hello") {
            entry.remove_file().unwrap();
        } else if name == Path::new("empty") {
            entry.remove_dir().unwrap();
        } else {
            // A directory that is not empty: the handle fails, the view
            // does not refuse.
            assert!(matches!(entry.remove_dir(), Err(ViewError::Io(_))));
        }
    }
    assert!(!full.path_exists(Path::new("hello")));
    assert!(!full.path_exists(Path::new("empty")));
    assert!(full.is_dir(Path::new("sub")));
}

#[test]
fn entries_can_be_read_under_both_policies() {
    let temp_dir = populated();
    for kind in [ViewKind::Full, ViewKind::Readonly] {
        let view = view_of(&temp_dir, kind);
        let mut listing = view.entries().unwrap();
        let mut files = 0;
        let mut dirs = 0;
        while let Some(entry) = listing.next() {
            let entry = entry.unwrap();
            let metadata = entry.metadata().unwrap();
            assert_eq!(entry.file_type().unwrap(), metadata.file_type());
            assert_eq!(
                entry.full_metadata().unwrap().file_type(),
                metadata.file_type()
            );
            assert_eq!(
                entry.ino(),
                cap_std::fs::MetadataExt::ino(&view.metadata(&entry.file_name()).unwrap())
            );
            if metadata.is_file() {
                files += 1;
                assert_eq!(entry.file_name(), Path::new("hello"));
                let mut text = String::new();
                entry.open().unwrap().read_to_string(&mut text).unwrap();
                assert_eq!(text, "hello, world");
                assert_eq!(entry.open_dir().unwrap_err().kind(), ErrorKind::NotADirectory);
            } else {
                dirs += 1;
                assert_eq!(entry.file_name(), Path::new("sub"));
                let child = entry.open_dir().unwrap();
                assert_eq!(child.view_kind(), kind);
                assert!(child.is_dir(Path::new("inner")));
                assert_eq!(
                    matches!(
                        child.create_dir(Path::new("new")),
                        Err(ViewError::ReadOnly)
                    ),
                    kind == ViewKind::Readonly
                );
            }
        }
        assert_eq!((files, dirs), (1, 1));
    }
}

#[test]
fn entry_open_with_is_downgraded_under_readonly() {
    let temp_dir = TempDir::new(ambient_authority()).unwrap();
    temp_dir.write("hello", "hello, world").unwrap();

    let mut options = OpenOptions::new();
    options.read(true).write(true).truncate(true);

    let readonly = view_of(&temp_dir, ViewKind::Readonly);
    let entry = readonly.entries().unwrap().next().unwrap().unwrap();
    let mut file = entry.open_with(&options).unwrap();
    let mut text = String::new();
    file.read_to_string(&mut text).unwrap();
    assert_eq!(text, "hello, world");
    assert!(std::io::Write::write_all(&mut file, b"more").is_err());

    let full = view_of(&temp_dir, ViewKind::Full);
    let entry = full.entries().unwrap().next().unwrap().unwrap();
    let mut file = entry.open_with(&options).unwrap();
    std::io::Write::write_all(&mut file, b"new").unwrap();
    assert_eq!(full.read(Path::new("hello")).unwrap(), b"new");
}

#[test]
fn utf8_views_hand_the_policy_down() {
    let temp_dir = populated();
    let utf8 = |kind| {
        DirViewUtf8::from_dir(
            cap_std::fs_utf8::Dir::from_cap_std(temp_dir.open_dir(".").unwrap()),
            kind,
        )
    };

    let readonly = utf8(ViewKind::Readonly);
    assert_eq!(readonly.view_kind(), ViewKind::Readonly);
    assert_eq!(readonly.open_dir("sub").unwrap().view_kind(), ViewKind::Readonly);
    assert_eq!(readonly.try_clone().unwrap().view_kind(), ViewKind::Readonly);
    assert_eq!(
        readonly
            .open_dir("sub")
            .unwrap()
            .open_parent_dir(ViewKind::Full, ambient_authority())
            .unwrap()
            .view_kind(),
        ViewKind::Full
    );
    let mut listing = readonly.entries().unwrap();
    assert_eq!(listing.view_kind(), ViewKind::Readonly);
    let mut names = Vec::new();
    while let Some(entry) = listing.next() {
        let entry = entry.unwrap();
        assert_eq!(entry.view_kind(), ViewKind::Readonly);
        assert!(matches!(entry.remove_file(), Err(ViewError::ReadOnly)));
        assert!(matches!(entry.remove_dir(), Err(ViewError::ReadOnly)));
        names.push(entry.file_name().unwrap());
    }
    names.sort();
    assert_eq!(names, vec!["hello", "sub"]);

    let full = utf8(ViewKind::Full);
    let mut listing = full.read_dir("sub").unwrap();
    let entry = listing.next().unwrap().unwrap();
    assert_eq!(entry.file_name().unwrap(), "inner");
    assert_eq!(entry.open_dir().unwrap().view_kind(), ViewKind::Full);
    entry.remove_dir().unwrap();
    assert!(!full.path_exists("sub/inner"));
}

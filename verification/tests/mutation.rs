use cap_tempfile::{ambient_authority, TempDir};
use dir_view::{DirView, ViewError, ViewKind};
use std::io::ErrorKind;
use std::path::Path;

fn view_of(temp_dir: &TempDir, kind: ViewKind) -> DirView {
    DirView::from_dir(temp_dir.open_dir(".").unwrap(), kind)
}

fn names_in(view: &DirView) -> Vec<String> {
    let mut listing = view.entries().unwrap();
    let mut names = Vec::new();
    while let Some(entry) = listing.next() {
        names.push(entry.unwrap().file_name().to_str().unwrap().to_string());
    }
    names.sort();
    names
}

#[test]
fn readonly_view_refuses_every_mutation() {
    let temp_dir = TempDir::new(ambient_authority()).unwrap();
    let full = view_of(&temp_dir, ViewKind::Full);
    full.write(Path::new("hello"), b"contents").unwrap();
    full.create_dir(Path::new("sub")).unwrap();

    let readonly = view_of(&temp_dir, ViewKind::Readonly);
    let hello = Path::new("hello");
    let builder = cap_std::fs::DirBuilder::new();
    let perm = full.metadata(hello).unwrap().permissions();

    assert!(matches!(readonly.create(hello), Err(ViewError::ReadOnly)));
    assert!(matches!(
        readonly.create(Path::new("create")),
        Err(ViewError::ReadOnly)
    ));
    assert!(matches!(
        readonly.create_dir(Path::new("create_dir")),
        Err(ViewError::ReadOnly)
    ));
    assert!(matches!(
        readonly.create_dir_all(Path::new("a/b/c")),
        Err(ViewError::ReadOnly)
    ));
    assert!(matches!(
        readonly.create_dir_with(Path::new("with"), &builder),
        Err(ViewError::ReadOnly)
    ));
    assert!(matches!(
        readonly.copy(hello, &readonly, Path::new("copy")),
        Err(ViewError::ReadOnly)
    ));
    assert!(matches!(
        readonly.hard_link(hello, &readonly, Path::new("hard_link")),
        Err(ViewError::ReadOnly)
    ));
    assert!(matches!(
        readonly.rename(hello, &readonly, Path::new("to")),
        Err(ViewError::ReadOnly)
    ));
    assert!(matches!(
        readonly.remove_file(hello),
        Err(ViewError::ReadOnly)
    ));
    assert!(matches!(
        readonly.remove_dir(Path::new("sub")),
        Err(ViewError::ReadOnly)
    ));
    assert!(matches!(
        readonly.remove_dir(Path::new(".")),
        Err(ViewError::ReadOnly)
    ));
    assert!(matches!(
        readonly.remove_dir_all(Path::new("sub")),
        Err(ViewError::ReadOnly)
    ));
    assert!(matches!(
        readonly.set_permissions(hello, perm),
        Err(ViewError::ReadOnly)
    ));
    assert!(matches!(
        readonly.write(hello, b"other"),
        Err(ViewError::ReadOnly)
    ));
    assert!(matches!(
        readonly.symlink(hello, Path::new("symlink")),
        Err(ViewError::ReadOnly)
    ));

    // Nothing was created, removed or changed.
    assert_eq!(names_in(&readonly), vec!["hello", "sub"]);
    assert_eq!(readonly.read(hello).unwrap(), b"contents");
    assert!(readonly.is_dir(Path::new("sub")));
}

#[test]
fn scenario_leaves_hello_in_place() {
    let temp_dir = TempDir::new(ambient_authority()).unwrap();
    let full = view_of(&temp_dir, ViewKind::Full);
    full.create(Path::new("hello")).unwrap();

    let readonly = view_of(&temp_dir, ViewKind::Readonly);
    let hello = Path::new("hello");
    assert_eq!(
        readonly.create(hello).unwrap_err().kind(),
        ErrorKind::PermissionDenied
    );
    assert_eq!(
        readonly
            .create_dir(Path::new("create_dir"))
            .unwrap_err()
            .kind(),
        ErrorKind::PermissionDenied
    );
    assert_eq!(
        readonly
            .rename(hello, &readonly, Path::new("to"))
            .unwrap_err()
            .kind(),
        ErrorKind::PermissionDenied
    );
    assert_eq!(
        readonly.remove_file(hello).unwrap_err().kind(),
        ErrorKind::PermissionDenied
    );
    assert_eq!(
        readonly.remove_dir(Path::new(".")).unwrap_err().kind(),
        ErrorKind::PermissionDenied
    );
    assert_eq!(
        readonly
            .symlink(hello, Path::new("symlink"))
            .unwrap_err()
            .kind(),
        ErrorKind::PermissionDenied
    );
    assert_eq!(
        readonly
            .hard_link(hello, &readonly, Path::new("hard_link"))
            .unwrap_err()
            .kind(),
        ErrorKind::PermissionDenied
    );

    assert!(readonly.path_exists(hello));
    assert!(readonly.is_file(hello));
    assert_eq!(readonly.read(hello).unwrap(), b"");
    assert_eq!(names_in(&readonly), vec!["hello"]);
}

#[test]
fn readonly_view_refuses_to_remove_itself() {
    let temp_dir = TempDir::new(ambient_authority()).unwrap();
    let full = view_of(&temp_dir, ViewKind::Full);
    full.create_dir(Path::new("one")).unwrap();
    full.create_dir(Path::new("two")).unwrap();

    let readonly = view_of(&temp_dir, ViewKind::Readonly);
    let one = readonly.open_dir(Path::new("one")).unwrap();
    assert_eq!(one.view_kind(), ViewKind::Readonly);
    assert!(matches!(one.remove_open_dir(), Err(ViewError::ReadOnly)));

    let two = DirView::from_dir(temp_dir.open_dir("two").unwrap(), ViewKind::Readonly);
    assert!(matches!(
        two.remove_open_dir_all(),
        Err(ViewError::ReadOnly)
    ));

    assert!(full.is_dir(Path::new("one")));
    assert!(full.is_dir(Path::new("two")));
}

#[test]
fn full_view_does_what_the_handle_does() {
    let temp_dir = TempDir::new(ambient_authority()).unwrap();
    let full = view_of(&temp_dir, ViewKind::Full);
    let plain = temp_dir.open_dir(".").unwrap();

    full.create(Path::new("created")).unwrap();
    assert!(plain.is_file("created"));

    full.write(Path::new("hello"), b"hello, world").unwrap();
    assert_eq!(plain.read("hello").unwrap(), b"hello, world");

    full.create_dir(Path::new("sub")).unwrap();
    assert!(plain.is_dir("sub"));

    full.create_dir_all(Path::new("a/b/c")).unwrap();
    assert!(plain.is_dir("a/b/c"));

    let mut builder = cap_std::fs::DirBuilder::new();
    builder.recursive(true);
    full.create_dir_with(Path::new("x/y"), &builder).unwrap();
    assert!(plain.is_dir("x/y"));

    assert_eq!(
        full.copy(Path::new("hello"), &full, Path::new("copy"))
            .unwrap(),
        12
    );
    assert_eq!(plain.read("copy").unwrap(), b"hello, world");

    full.hard_link(Path::new("hello"), &full, Path::new("link"))
        .unwrap();
    assert_eq!(plain.read("link").unwrap(), b"hello, world");

    full.rename(Path::new("copy"), &full, Path::new("sub/moved"))
        .unwrap();
    assert!(!plain.exists("copy"));
    assert_eq!(plain.read("sub/moved").unwrap(), b"hello, world");

    full.symlink(Path::new("hello"), Path::new("symlink"))
        .unwrap();
    assert_eq!(plain.read_link("symlink").unwrap(), Path::new("hello"));

    let mut perm = plain.metadata("hello").unwrap().permissions();
    perm.set_readonly(true);
    full.set_permissions(Path::new("hello"), perm).unwrap();
    assert!(plain.metadata("hello").unwrap().permissions().readonly());

    full.remove_file(Path::new("link")).unwrap();
    assert!(!plain.exists("link"));

    full.remove_dir(Path::new("x/y")).unwrap();
    assert!(!plain.exists("x/y"));

    full.remove_dir_all(Path::new("a")).unwrap();
    assert!(!plain.exists("a"));
}

#[test]
fn full_view_removes_itself() {
    let temp_dir = TempDir::new(ambient_authority()).unwrap();
    let full = view_of(&temp_dir, ViewKind::Full);
    full.create_dir(Path::new("empty")).unwrap();
    full.create_dir_all(Path::new("tree/branch")).unwrap();
    full.write(Path::new("tree/branch/leaf"), b"leaf").unwrap();

    let empty = full.open_dir(Path::new("empty")).unwrap();
    empty.remove_open_dir().unwrap();
    assert!(!full.path_exists(Path::new("empty")));

    let tree = full.open_dir(Path::new("tree")).unwrap();
    tree.remove_open_dir_all().unwrap();
    assert!(!full.path_exists(Path::new("tree")));
}

#[test]
fn full_view_carries_the_failure_of_the_handle() {
    let temp_dir = TempDir::new(ambient_authority()).unwrap();
    let full = view_of(&temp_dir, ViewKind::Full);
    full.create_dir(Path::new("sub")).unwrap();

    match full.create_dir(Path::new("sub")) {
        Err(ViewError::Io(e)) => assert_eq!(e.kind(), ErrorKind::AlreadyExists),
        _ => panic!("the handle fails on a directory that is there"),
    }
    match full.remove_file(Path::new("missing")) {
        Err(ViewError::Io(e)) => assert_eq!(e.kind(), ErrorKind::NotFound),
        _ => panic!("the handle fails on a file that is missing"),
    }
    let error = full.remove_file(Path::new("missing")).unwrap_err();
    assert!(!error.is_read_only());
    assert_eq!(error.kind(), ErrorKind::NotFound);
}

#[test]
fn two_view_operations_need_both_views_full() {
    let temp_dir = TempDir::new(ambient_authority()).unwrap();
    let full = view_of(&temp_dir, ViewKind::Full);
    let readonly = view_of(&temp_dir, ViewKind::Readonly);
    let hello = Path::new("hello");
    full.write(hello, b"hello").unwrap();

    // Readonly source, full destination.
    assert!(matches!(
        readonly.copy(hello, &full, Path::new("c1")),
        Err(ViewError::ReadOnly)
    ));
    assert!(matches!(
        readonly.hard_link(hello, &full, Path::new("h1")),
        Err(ViewError::ReadOnly)
    ));
    assert!(matches!(
        readonly.rename(hello, &full, Path::new("r1")),
        Err(ViewError::ReadOnly)
    ));

    // Full source, readonly destination.
    assert!(matches!(
        full.copy(hello, &readonly, Path::new("c2")),
        Err(ViewError::ReadOnly)
    ));
    assert!(matches!(
        full.hard_link(hello, &readonly, Path::new("h2")),
        Err(ViewError::ReadOnly)
    ));
    assert!(matches!(
        full.rename(hello, &readonly, Path::new("r2")),
        Err(ViewError::ReadOnly)
    ));

    // Both readonly.
    assert!(matches!(
        readonly.copy(hello, &readonly, Path::new("c3")),
        Err(ViewError::ReadOnly)
    ));
    assert!(matches!(
        readonly.hard_link(hello, &readonly, Path::new("h3")),
        Err(ViewError::ReadOnly)
    ));
    assert!(matches!(
        readonly.rename(hello, &readonly, Path::new("r3")),
        Err(ViewError::ReadOnly)
    ));
    assert_eq!(names_in(&full), vec!["hello"]);

    // Both full.
    let other = view_of(&temp_dir, ViewKind::Full);
    assert_eq!(full.copy(hello, &other, Path::new("c4")).unwrap(), 5);
    full.hard_link(hello, &other, Path::new("h4")).unwrap();
    full.rename(hello, &other, Path::new("r4")).unwrap();
    assert_eq!(names_in(&full), vec!["c4", "h4", "r4"]);
}

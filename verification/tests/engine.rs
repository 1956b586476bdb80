use mega_fuse::dispatch::FetchRequest;
use mega_fuse::dispatch::FsError;
use mega_fuse::dispatch::InitError;
use mega_fuse::dispatch::MegaFUSE;
use mega_fuse::inode::ContentType;
use mega_fuse::inode::Inode;
use mega_fuse::inode::InodeAttributes;
use mega_fuse::inode::Object;
use mega_fuse::inode::Objects;
use mega_fuse::inode::ROOT_INO;

fn entry(id: &str, name: &str, path: &str, kind: ContentType, date: &str) -> Object {
    Object {
        id: id.to_string(),
        name: name.to_string(),
        path: path.to_string(),
        content_type: kind,
        commit_date: date.to_string(),
        under_repo: true,
        commit_msg: String::new(),
        commit_id: String::new(),
    }
}

/// The base tree of the scenario: one file `deny.toml` and one directory
/// `.github` at the root.
fn base_tree() -> Objects {
    Objects {
        data: vec![
            entry(
                "d2c73088bc71e8b6ce07ec2e95087b57c42286d4",
                "deny.toml",
                "/projects/fuser/deny.toml",
                ContentType::File,
                "1701057603",
            ),
            entry(
                "75db394838a7ef17741a7cc5247763b9dea095b9",
                ".github",
                "/projects/fuser/.github",
                ContentType::Dir,
                "1701057603",
            ),
        ],
    }
}

/// Materialize the scenario tree and return the ready filesystem.
fn scenario_fs() -> MegaFUSE {
    let mut fs = MegaFUSE::from("fuser".to_string());
    fs.init_begin(1_701_057_700);
    assert!(fs.has_pending());
    assert!(matches!(fs.next_fetch(), FetchRequest::BaseTree));
    fs.init_step(base_tree()).unwrap();
    // the directory's children are fetched via a second exchange keyed by
    // its own remote id
    assert!(fs.has_pending());
    match fs.next_fetch() {
        FetchRequest::SubTree { remote_id } => {
            assert_eq!(remote_id, "75db394838a7ef17741a7cc5247763b9dea095b9");
        }
        FetchRequest::BaseTree => panic!("expected a subtree fetch"),
    }
    fs.init_step(Objects { data: vec![] }).unwrap();
    assert!(!fs.has_pending());
    fs.init_finish();
    fs
}

#[test]
fn scenario_base_tree_listing_order() {
    let fs = scenario_fs();
    let rows = fs.list_directory(ROOT_INO, 0).unwrap();
    let names: Vec<&str> = rows.iter().map(|r| r.name.as_str()).collect();
    assert_eq!(names, vec![".", "..", "deny.toml", ".github"]);
    assert_eq!(rows[0].ino, ROOT_INO);
    assert_eq!(rows[1].ino, ROOT_INO);
    assert_eq!(rows[2].ino, 2);
    assert_eq!(rows[3].ino, 3);
    assert!(matches!(rows[2].kind, ContentType::File));
    assert!(matches!(rows[3].kind, ContentType::Dir));
}

#[test]
fn listing_resumes_from_offset() {
    let fs = scenario_fs();
    let rows = fs.list_directory(ROOT_INO, 3).unwrap();
    assert_eq!(rows.len(), 1);
    assert_eq!(rows[0].name, ".github");
    let rows = fs.list_directory(ROOT_INO, 4).unwrap();
    assert!(rows.is_empty());
    let rows = fs.list_directory(ROOT_INO, 100).unwrap();
    assert!(rows.is_empty());
}

#[test]
fn listing_unknown_inode_not_found() {
    let fs = scenario_fs();
    assert_eq!(fs.list_directory(99, 0), Err(FsError::NotFound));
}

#[test]
fn scenario_resolve_nonexistent_not_found() {
    let fs = scenario_fs();
    assert_eq!(fs.resolve_name(ROOT_INO, "nonexistent"), Err(FsError::NotFound));
}

#[test]
fn scenario_resolve_overlong_name_too_long() {
    let fs = scenario_fs();
    let long_name: String = std::iter::repeat('a').take(256).collect();
    assert_eq!(
        fs.resolve_name(ROOT_INO, &long_name),
        Err(FsError::NameTooLong)
    );
    // rejected before the store is consulted: even an unknown parent
    // reports the length first
    assert_eq!(fs.resolve_name(99, &long_name), Err(FsError::NameTooLong));
}

#[test]
fn resolve_finds_children() {
    let fs = scenario_fs();
    assert_eq!(fs.resolve_name(ROOT_INO, "deny.toml"), Ok(2));
    assert_eq!(fs.resolve_name(ROOT_INO, ".github"), Ok(3));
    assert_eq!(fs.lookup_name(ROOT_INO, "deny.toml"), Some(2));
    assert_eq!(fs.lookup_name(ROOT_INO, "zzz"), None);
}

#[test]
fn inode_ids_unique_and_increasing() {
    let fs = scenario_fs();
    let inos: Vec<u64> = fs.store.inodes.iter().map(|i| i.ino).collect();
    assert_eq!(inos, vec![1, 2, 3]);
    // every identifier above the reserved root, allocated in strictly
    // increasing order, the root never reassigned
    assert_eq!(fs.store.inodes[0].ino, ROOT_INO);
    assert!(inos.windows(2).all(|w| w[0] < w[1]));
}

#[test]
fn materialized_parents_match() {
    let fs = scenario_fs();
    for inode in fs.store.inodes.iter() {
        if inode.ino == ROOT_INO {
            assert_eq!(inode.parent_ino, ROOT_INO);
        } else {
            assert_eq!(inode.parent_ino, ROOT_INO);
            let parent = &fs.store.inodes[(inode.parent_ino - 1) as usize];
            assert_eq!(
                parent
                    .children_ino
                    .iter()
                    .filter(|c| **c == inode.ino)
                    .count(),
                1
            );
        }
    }
}

#[test]
fn deeper_tree_is_walked_breadth_first() {
    let mut fs = MegaFUSE::from("fuser".to_string());
    fs.init_begin(0);
    fs.init_step(base_tree()).unwrap();
    // the pending directory is `.github`; its listing adds a file and a
    // directory, in that order
    let sub = Objects {
        data: vec![
            entry(
                "aaaa",
                "ci.yml",
                "/projects/fuser/.github/ci.yml",
                ContentType::File,
                "1701057604",
            ),
            entry(
                "bbbb",
                "workflows",
                "/projects/fuser/.github/workflows",
                ContentType::Dir,
                "1701057605",
            ),
        ],
    };
    fs.init_step(sub).unwrap();
    // one directory left: `workflows`, expanded after everything shallower
    match fs.next_fetch() {
        FetchRequest::SubTree { remote_id } => assert_eq!(remote_id, "bbbb"),
        FetchRequest::BaseTree => panic!("expected a subtree fetch"),
    }
    fs.init_step(Objects { data: vec![] }).unwrap();
    fs.init_finish();
    // identifiers in breadth order: root 1, then the base entries, then
    // `.github`'s entries
    assert_eq!(fs.resolve_name(ROOT_INO, "deny.toml"), Ok(2));
    assert_eq!(fs.resolve_name(ROOT_INO, ".github"), Ok(3));
    assert_eq!(fs.resolve_name(3, "ci.yml"), Ok(4));
    assert_eq!(fs.resolve_name(3, "workflows"), Ok(5));
    let rows = fs.list_directory(3, 0).unwrap();
    let names: Vec<&str> = rows.iter().map(|r| r.name.as_str()).collect();
    assert_eq!(names, vec![".", "..", "ci.yml", "workflows"]);
    // the stored relative path kept the part below the repository
    assert_eq!(fs.store.inodes[3].attr.path, ".github/ci.yml");
    assert_eq!(fs.store.inodes[3].parent_ino, 3);
    assert_eq!(fs.store.inodes[4].parent_ino, 3);
}

#[test]
fn init_step_rejects_bad_timestamp() {
    let mut fs = MegaFUSE::from("fuser".to_string());
    fs.init_begin(0);
    let bad = Objects {
        data: vec![entry(
            "abc",
            "x",
            "/projects/fuser/x",
            ContentType::File,
            "not-a-number",
        )],
    };
    assert_eq!(fs.init_step(bad), Err(InitError::InvalidTimestamp));
    // untouched: the root is still pending
    assert!(fs.has_pending());
    assert_eq!(fs.store.inodes.len(), 1);
}

#[test]
fn attributes_projected() {
    let fs = scenario_fs();
    let attr = fs.get_attributes(2, 501, 20).unwrap();
    assert_eq!(attr.ino, 2);
    assert_eq!(attr.size, 0);
    assert_eq!(attr.blocks, 0);
    assert_eq!(attr.mtime, 1_701_057_603);
    assert_eq!(attr.ctime, 1_701_057_603);
    assert_eq!(attr.perm, 0o644);
    assert_eq!(attr.uid, 501);
    assert_eq!(attr.gid, 20);
    assert_eq!(attr.nlink, 1);
    assert_eq!(attr.blksize, 4096);
    let dir_attr = fs.get_attributes(3, 0, 0).unwrap();
    assert_eq!(dir_attr.perm, 0o755);
    assert_eq!(dir_attr.size, 4096);
    assert_eq!(dir_attr.blocks, 1);
    assert_eq!(fs.get_attributes(42, 0, 0), Err(FsError::NotFound));
}

#[test]
fn open_fetches_once_then_reads_cache() {
    let mut fs = scenario_fs();
    // before any open, the content must be fetched
    let need = fs.open_begin(2).unwrap();
    assert_eq!(
        need.as_deref(),
        Some("d2c73088bc71e8b6ce07ec2e95087b57c42286d4")
    );
    fs.open_finish(2, b"hello world".to_vec()).unwrap();
    // afterwards the cache answers
    assert_eq!(fs.open_begin(2).unwrap(), None);
    assert_eq!(fs.get_attributes(2, 0, 0).unwrap().size, 11);
    assert_eq!(fs.open_begin(99), Err(FsError::NotFound));
    assert_eq!(fs.open_finish(99, vec![]), Err(FsError::NotFound));
}

#[test]
fn read_returns_window() {
    let mut fs = scenario_fs();
    fs.open_finish(2, b"hello world".to_vec()).unwrap();
    assert_eq!(fs.read(2, 0, 5).unwrap(), b"hello".to_vec());
    assert_eq!(fs.read(2, 6, 5).unwrap(), b"world".to_vec());
    assert_eq!(fs.read(2, 0, 100).unwrap(), b"hello world".to_vec());
}

#[test]
fn read_is_idempotent() {
    let mut fs = scenario_fs();
    fs.open_finish(2, b"hello world".to_vec()).unwrap();
    let first = fs.read(2, 3, 4).unwrap();
    let second = fs.read(2, 3, 4).unwrap();
    assert_eq!(first, second);
}

#[test]
fn read_past_end_is_empty_and_clipped() {
    let mut fs = scenario_fs();
    fs.open_finish(2, b"hello world".to_vec()).unwrap();
    // offset at or past the size: empty content
    assert_eq!(fs.read(2, 11, 4).unwrap(), Vec::<u8>::new());
    assert_eq!(fs.read(2, 100, 4).unwrap(), Vec::<u8>::new());
    // offset + length beyond the size: exactly size - offset bytes
    assert_eq!(fs.read(2, 6, 100).unwrap().len(), 5);
}

#[test]
fn read_without_open_not_found() {
    let fs = scenario_fs();
    assert_eq!(fs.read(2, 0, 4), Err(FsError::NotFound));
    assert_eq!(fs.read(99, 0, 4), Err(FsError::NotFound));
}

#[test]
fn attributes_path_round_trip() {
    let ob = entry(
        "id",
        "b.txt",
        "/projects/mega/a/b.txt",
        ContentType::File,
        "1701057603",
    );
    let attr = InodeAttributes::from_object(ob).unwrap();
    assert_eq!(attr.path, "a/b.txt");
    assert_eq!(attr.name, "b.txt");
    assert_eq!(attr.mtime, 1_701_057_603);
}

#[test]
fn attributes_from_bad_timestamp() {
    let ob = entry("id", "x", "/projects/mega/x", ContentType::File, "12a");
    assert!(InodeAttributes::from_object(ob).is_none());
    let ob = entry("id", "x", "/projects/mega/x", ContentType::File, "");
    assert!(InodeAttributes::from_object(ob).is_none());
    // a value beyond what the clock field holds
    let ob = entry(
        "id",
        "x",
        "/projects/mega/x",
        ContentType::File,
        "99999999999999999999",
    );
    assert!(InodeAttributes::from_object(ob).is_none());
}

#[test]
fn insert_and_remove_child() {
    let attr = InodeAttributes::from_object(entry(
        "id",
        "d",
        "/projects/mega/d",
        ContentType::Dir,
        "7",
    ))
    .unwrap();
    let mut inode = Inode::new(5, ROOT_INO, attr);
    assert_eq!(inode.ino, 5);
    assert_eq!(inode.parent_ino, ROOT_INO);
    inode.insert_child(10);
    inode.insert_child(11);
    inode.insert_child(10);
    assert_eq!(inode.children_ino, vec![10, 11, 10]);
    // the first occurrence goes
    inode.remove_child(10);
    assert_eq!(inode.children_ino, vec![11, 10]);
    inode.remove_child(10);
    assert_eq!(inode.children_ino, vec![11]);
}

#[test]
fn root_node_shape() {
    let root = Inode::root_node("mega", 42);
    assert_eq!(root.ino, ROOT_INO);
    assert_eq!(root.parent_ino, ROOT_INO);
    assert_eq!(root.attr.name, "mega");
    assert_eq!(root.attr.path, "");
    assert_eq!(root.attr.size, 4096);
    assert_eq!(root.attr.mtime, 42);
    assert_eq!(root.attr.permissions, 0o755);
    assert!(root.children_ino.is_empty());
    assert!(root.content.is_none());
}

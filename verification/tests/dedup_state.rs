//! The dedup semaphore, the layout of the screen, panel entries and their order.

use dedcom::assoc::Assoc;
use dedcom::canvas::{centered, visible_window, ListState, Rect};
use dedcom::dedup::{
    DedupCache, DedupStatus, DirDedup, DirTrust, GroupId, LiveDirSignature, PanelData, PanelFile,
    PanelFileStatus, PanelMiss,
};
use dedcom::entries::{sort_entries, EntryKind, Mark, PanelEntry, PanelView, SortKey};
use dedcom::layout::{board_regions, max_panels, panel_rects, regions, split_three, split_two};
use dedcom::panels::{apply_panel_load, read_panel_dir, Panel, RawEntry};
use dedcom::path::FilePath;
use dedcom::sizes::{is_pseudo_fs, SizeWalk, SizedKind};
use dedcom::snapshots::{run_source_snapshots, snapshot_targets};
use dedcom::state::{WatchEmpty, WatchEntry};

fn path(text: &str) -> FilePath {
    FilePath::from_text(text)
}

fn gid(rank: i64) -> GroupId {
    GroupId { scan_id: 1, rank, generation: 1 }
}

#[test]
fn the_semaphore_is_derived_from_membership() {
    assert_eq!(
        DedupStatus::from_membership(&PanelFileStatus::NotInScan),
        DedupStatus::NotInScan
    );
    assert_eq!(
        DedupStatus::from_membership(&PanelFileStatus::NotHashed),
        DedupStatus::Unhashed
    );
    assert_eq!(
        DedupStatus::from_membership(&PanelFileStatus::LikelyBySizeMtime { peers: 2 }),
        DedupStatus::LikelyDuplicate
    );
    assert_eq!(
        DedupStatus::from_membership(&PanelFileStatus::InGroup {
            id: gid(0),
            members: 2,
            distinct_devices: 1
        }),
        DedupStatus::VerifiedDup
    );
    assert_eq!(
        DedupStatus::from_membership(&PanelFileStatus::InGroup {
            id: gid(0),
            members: 2,
            distinct_devices: 2
        }),
        DedupStatus::DangerousDup
    );
    assert_eq!(
        DedupStatus::from_membership(&PanelFileStatus::NotGrouped),
        DedupStatus::HashedUnique
    );
    assert_eq!(DedupStatus::HashedUnique.glyph(), '-');
    assert_eq!(
        DedupStatus::from_membership(&PanelFileStatus::Unavailable(PanelMiss::Unknown)),
        DedupStatus::Unavailable
    );
    assert_eq!(
        DirDedup::default().status_for(&path("/none")),
        DedupStatus::NotInScan
    );
}

#[test]
fn a_locally_computed_hash_is_a_candidate_signal_only() {
    let mut cache = DedupCache::default();
    cache.insert_hash(path("/d/x"), [9u8; 32]);
    assert_eq!(
        cache.dir(&path("/d")).unwrap().status_for(&path("/d/x")),
        DedupStatus::HashedUnique
    );
    cache.insert_hash(path("/d/y"), [9u8; 32]);
    let dir = cache.dir(&path("/d")).unwrap();
    assert_eq!(
        dir.status_for(&path("/d/x")),
        DedupStatus::LikelyDuplicate,
        "a same-directory digest match is a candidate, not a published group"
    );
    assert_eq!(dir.status_for(&path("/d/y")), DedupStatus::LikelyDuplicate);
    assert_eq!(dir.hash_for(&path("/d/x")), dir.hash_for(&path("/d/y")));
    assert!(
        dir.group_of(&path("/d/x")).is_none(),
        "and it carries no identity, so it cannot enter exact matching"
    );
}

#[test]
fn prune_drops_unkept_cwds() {
    let mut cache = DedupCache::default();
    cache.insert_dir(path("/a"), Ok(DirDedup::default()));
    cache.insert_dir(path("/b"), Ok(DirDedup::default()));
    let mut keep: Assoc<FilePath, ()> = Assoc::new();
    keep.insert(path("/a"), ());
    cache.prune(&keep);
    assert!(cache.dir(&path("/a")).is_some());
    assert!(cache.dir(&path("/b")).is_none());
}

#[test]
fn a_failed_load_is_an_error_not_an_empty_directory() {
    let mut cache = DedupCache::default();
    cache.mark_pending(path("/a"));
    cache.insert_dir(path("/a"), Err("boom".to_string()));
    assert!(cache.dir(&path("/a")).is_none(), "fail-closed");
    assert!(!cache.covered(&path("/a")));
    assert!(!cache.is_pending(&path("/a")));
    assert_eq!(cache.error(&path("/a")), Some("boom"));
    cache.insert_hash(path("/a/x"), [9u8; 32]);
    assert!(cache.error(&path("/a")).is_none());
    assert!(cache.dir(&path("/a")).is_some());
}

#[test]
fn only_a_trusted_signature_feeds_exact_matching() {
    let mut dir = DirDedup::default();
    dir.dir_signatures.insert(
        path("/d/trusted"),
        LiveDirSignature { signature: "aa".to_string(), trust: DirTrust::Trusted },
    );
    dir.dir_signatures.insert(
        path("/d/unknown"),
        LiveDirSignature { signature: "bb".to_string(), trust: DirTrust::Untrusted },
    );
    assert_eq!(dir.trusted_dir_signature(&path("/d/trusted")), Some("aa"));
    assert_eq!(
        dir.trusted_dir_signature(&path("/d/unknown")),
        None,
        "an untrusted signature must never enter a match set"
    );
    assert_eq!(
        dir.dir_signature_state(&path("/d/unknown")),
        Some(("bb", DirTrust::Untrusted)),
        "but it stays inspectable, with its trust beside it"
    );
}

/// A whole directory's answer: states, hashes and identities all come from it.
#[test]
fn a_directory_is_built_from_its_answer() {
    let mut dir_sizes: Assoc<FilePath, u64> = Assoc::new();
    dir_sizes.insert(path("/d/sub"), 77);
    let data = PanelData {
        files: vec![
            (
                path("/d/a"),
                PanelFile {
                    status: PanelFileStatus::InGroup {
                        id: gid(3),
                        members: 2,
                        distinct_devices: 1,
                    },
                    hash_text: Some("ff".to_string()),
                },
            ),
            (path("/d/b"), PanelFile { status: PanelFileStatus::NotHashed, hash_text: None }),
        ],
        dir_sizes,
        dir_signatures: Assoc::new(),
    };
    let dir = DirDedup::from_panel(data);
    assert_eq!(dir.status_for(&path("/d/a")), DedupStatus::VerifiedDup);
    assert_eq!(dir.status_for(&path("/d/b")), DedupStatus::Unhashed);
    assert_eq!(dir.hash_for(&path("/d/a")), Some("ff"));
    assert_eq!(dir.group_of(&path("/d/a")), Some(gid(3)));
    assert_eq!(dir.group_of(&path("/d/b")), None);
    assert_eq!(dir.dir_size(&path("/d/sub")), Some(77));
}

#[test]
fn max_panels_scales_with_width() {
    assert_eq!(max_panels(30), 1);
    assert_eq!(max_panels(80), 2);
    assert_eq!(max_panels(120), 3);
    assert_eq!(max_panels(200), 4);
}

#[test]
fn board_regions_center_wider_with_stacked_sides() {
    let r = board_regions(Rect { x: 0, y: 0, width: 200, height: 50 });
    assert!(r.left_top.x < r.center.x);
    assert!(r.center.x < r.right_top.x);
    assert!(r.center.width > r.left_top.width);
    assert!(r.center.width > r.right_top.width);
    assert_eq!(r.left_top.width, r.left_bot.width);
    assert_eq!(r.right_top.width, r.right_bot.width);
    assert_eq!(r.left_bot.y, r.left_top.y + r.left_top.height);
    assert_eq!(r.right_bot.y, r.right_top.y + r.right_top.height);
    assert_eq!(r.center.height, 50);
}

/// Where the lengths fit, the solver gives each strip exactly its length.
#[test]
fn strips_that_fit_get_their_lengths() {
    let area = Rect { x: 3, y: 2, width: 80, height: 24 };
    let at = split_three(area, 3, 3, 4);
    assert_eq!((at.top.y, at.top.height), (2, 3));
    assert_eq!((at.middle.y, at.middle.height), (5, 17));
    assert_eq!((at.bottom.y, at.bottom.height), (22, 4));
    let panes = split_two(area, 52);
    assert_eq!((panes.left.x, panes.left.width), (3, 52));
    assert_eq!((panes.right.x, panes.right.width), (55, 28));
    let whole = regions(Rect { x: 0, y: 0, width: 80, height: 24 });
    assert_eq!(
        whole.header.height + whole.panels.height + whole.status.height + whole.fkeys.height,
        24
    );
    let rects = panel_rects(whole.panels, 2);
    assert_eq!(rects.len(), 2);
    assert_eq!((rects[0].width, rects[1].width), (40, 40));
}

#[test]
fn a_centered_box_is_cut_to_its_screen() {
    let screen = Rect { x: 0, y: 0, width: 100, height: 30 };
    assert_eq!(centered(screen, 64, 7), Rect { x: 18, y: 11, width: 64, height: 7 });
    assert_eq!(centered(screen, 640, 70), screen);
}

#[test]
fn the_window_keeps_the_cursor_in_view() {
    let mut state = ListState { selected: Some(50), offset: 0 };
    assert_eq!(visible_window(&mut state, 100, 10), (41, Some(9)));
    assert_eq!(state.offset, 41);
    state.select(Some(45));
    assert_eq!(visible_window(&mut state, 100, 10), (41, Some(4)));
    state.select(Some(3));
    assert_eq!(visible_window(&mut state, 100, 10), (3, Some(0)));
    assert_eq!(visible_window(&mut state, 5, 10), (0, Some(3)));
    assert_eq!(visible_window(&mut state, 0, 10), (0, None));
}

fn entry(name: &str, kind: EntryKind, size: u64, mtime: i64) -> PanelEntry {
    PanelEntry {
        path: path(name),
        name: name.to_string(),
        kind,
        size,
        mtime,
        device: 0,
        inode: 0,
    }
}

fn names(entries: &[PanelEntry]) -> Vec<&str> {
    entries.iter().map(|e| e.name.as_str()).collect()
}

#[test]
fn sort_entries_keeps_parent_then_dirs_then_files() {
    let mut entries = vec![
        entry("file_b.txt", EntryKind::File, 10, 1),
        entry("dir_b", EntryKind::Dir, 0, 0),
        entry("..", EntryKind::Parent, 0, 0),
        entry("file_a.txt", EntryKind::File, 99, 2),
        entry("dir_a", EntryKind::Dir, 0, 0),
    ];
    sort_entries(&mut entries, SortKey::Name);
    assert_eq!(names(&entries), ["..", "dir_a", "dir_b", "file_a.txt", "file_b.txt"]);
}

#[test]
fn sort_entries_by_size_is_descending_within_files() {
    let mut entries = vec![
        entry("..", EntryKind::Parent, 0, 0),
        entry("small.txt", EntryKind::File, 10, 0),
        entry("big.txt", EntryKind::File, 999, 0),
        entry("mid.txt", EntryKind::File, 100, 0),
    ];
    sort_entries(&mut entries, SortKey::Size);
    assert_eq!(names(&entries), ["..", "big.txt", "mid.txt", "small.txt"]);
}

#[test]
fn entries_of_equal_rank_keep_their_order() {
    let mut entries = vec![
        entry("b.txt", EntryKind::File, 5, 0),
        entry("a.rs", EntryKind::File, 5, 0),
        entry("c.rs", EntryKind::File, 5, 9),
    ];
    sort_entries(&mut entries, SortKey::Size);
    assert_eq!(names(&entries), ["a.rs", "b.txt", "c.rs"], "names break the tie");
    sort_entries(&mut entries, SortKey::Type);
    assert_eq!(names(&entries), ["a.rs", "c.rs", "b.txt"]);
    sort_entries(&mut entries, SortKey::Date);
    assert_eq!(names(&entries)[0], "c.rs", "the newest first");
}

#[test]
fn watch_empty_default_is_no_source() {
    assert_eq!(WatchEmpty::default(), WatchEmpty::NoSource);
}

#[test]
fn watch_entry_default_has_no_source_empty() {
    let entry = WatchEntry::default();
    assert!(entry.key.is_none());
    assert!(entry.result.is_none());
    assert_eq!(entry.empty, WatchEmpty::NoSource);
}

/// A listing becomes a panel: directories and regular entries, and the way up.
#[test]
fn a_directory_listing_becomes_entries() {
    let found = vec![
        RawEntry { name: b"sub".to_vec(), mode: 0o040755, size: 4096, mtime: 1, device: 2, inode: 3 },
        RawEntry { name: b"a.txt".to_vec(), mode: 0o100644, size: 10, mtime: 2, device: 2, inode: 4 },
        RawEntry { name: vec![0x80], mode: 0o100644, size: 7, mtime: 3, device: 2, inode: 5 },
    ];
    let entries = read_panel_dir(&path("/d"), &found);
    assert_eq!(entries[0].kind, EntryKind::Parent);
    assert_eq!(entries[1].name, "sub");
    assert_eq!(entries[1].kind, EntryKind::Dir);
    assert_eq!(entries[2].name, "a.txt");
    assert_eq!(entries[2].size, 10);
    assert_eq!(entries[3].name, "\u{fffd}", "what is not UTF-8 is shown replaced");
    assert!(entries[3].path.same(&path("/d").child(&vec![0x80])), "and kept as it is");
    assert_eq!(read_panel_dir(&path("/"), &found).len(), 3, "the root has no way up");
}

/// An answer for an older reading of the directory changes nothing.
#[test]
fn a_stale_listing_is_ignored() {
    let mut panel = Panel::empty(path("/d"));
    panel.generation = 5;
    apply_panel_load(&mut panel, 4, vec![entry("x", EntryKind::File, 1, 1)], None);
    assert!(panel.entries.is_empty());
    apply_panel_load(
        &mut panel,
        5,
        vec![entry("x", EntryKind::File, 1, 1), entry("y", EntryKind::File, 1, 1)],
        Some(path("y")),
    );
    assert_eq!(panel.entries.len(), 2);
    assert_eq!(panel.selected().unwrap().name, "y", "the cursor is back where it was");
}

#[test]
fn marks_and_views_have_their_own_signs() {
    let marks = [Mark::Selected, Mark::Keeper, Mark::Delete, Mark::Hardlink, Mark::Reflink];
    for (i, a) in marks.iter().enumerate() {
        for b in &marks[i + 1..] {
            assert_ne!(a.glyph(), b.glyph());
        }
    }
    let mut view = PanelView::Files;
    let mut seen = vec![view];
    loop {
        view = view.next();
        if view == PanelView::Files {
            break;
        }
        seen.push(view);
    }
    assert_eq!(seen.len(), 7, "the views go round");
}

#[test]
fn the_size_of_a_tree_is_the_sum_of_its_files() {
    let mut walk = SizeWalk::new(path("/d"));
    let (dir, depth) = walk.todo.pop().unwrap();
    walk.count(
        &dir,
        depth,
        &vec![
            (b"a".to_vec(), SizedKind::File(10)),
            (b"sub".to_vec(), SizedKind::Dir),
            (b"link".to_vec(), SizedKind::Other),
        ],
    );
    assert_eq!(walk.total, 10);
    let (dir, depth) = walk.todo.pop().unwrap();
    assert!(dir.same(&path("/d/sub")));
    walk.count(&dir, depth, &vec![(b"b".to_vec(), SizedKind::File(5))]);
    assert_eq!(walk.total, 15);
    assert!(walk.todo.is_empty(), "a link is not followed");
    assert!(is_pseudo_fs(&path("/proc")));
    assert!(is_pseudo_fs(&path("/sys/kernel")));
    assert!(!is_pseudo_fs(&path("/process")));
}

#[test]
fn aborts_on_first_failure_and_marks_only_successes() {
    let mut already: Assoc<String, ()> = Assoc::new();
    let attempted: std::cell::RefCell<Vec<String>> = std::cell::RefCell::new(Vec::new());
    let targets = vec!["pool/a".to_string(), "pool/b".to_string(), "pool/c".to_string()];
    let res = run_source_snapshots(&targets, &mut already, |ds: &str| {
        attempted.borrow_mut().push(ds.to_string());
        if ds == "pool/b" {
            Err("zfs snapshot failed".to_string())
        } else {
            Ok(format!("{ds}@snap"))
        }
    });
    assert!(
        res.is_err(),
        "a snapshot failure must return Err (the move is cancelled)"
    );
    assert_eq!(
        *attempted.borrow(),
        ["pool/a", "pool/b"],
        "stop on the first failure, did not reach c"
    );
    assert!(
        already.contains(&"pool/a".to_string()),
        "the successful snapshot is marked"
    );
    assert!(!already.contains(&"pool/b".to_string()), "the failed one is NOT marked");
}

#[test]
fn empty_targets_is_ok_without_calling_create() {
    let mut already: Assoc<String, ()> = Assoc::new();
    let res = run_source_snapshots(&Vec::new(), &mut already, |_: &str| -> Result<String, String> {
        panic!("create must not be called with empty targets")
    });
    assert!(res.is_ok());
}

#[test]
fn already_snapshotted_dataset_is_skipped() {
    let mut already: Assoc<String, ()> = Assoc::new();
    already.insert("pool/a".to_string(), ());
    let calls = std::cell::Cell::new(0usize);
    let targets = vec!["pool/a".to_string()];
    let res = run_source_snapshots(&targets, &mut already, |_: &str| {
        calls.set(calls.get() + 1);
        Ok("x".to_string())
    });
    assert!(res.is_ok());
    assert_eq!(
        calls.get(),
        0,
        "we do not touch again a dataset already snapshotted within the run"
    );
}

#[test]
fn a_source_off_the_pool_has_no_dataset() {
    let datasets = vec![
        dedcom::app::Dataset { name: "tank".to_string(), device_id: Some(1) },
        dedcom::app::Dataset { name: "tank/home".to_string(), device_id: Some(2) },
    ];
    assert_eq!(
        snapshot_targets(&datasets, &vec![Some(2), Some(2), None, Some(9)]),
        vec!["tank/home".to_string()]
    );
}

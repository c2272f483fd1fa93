use fuc_engine::path::as_nul_terminated;
use fuc_engine::remove::{
    PATH_MAX, RemoveEntryPlan, RemoveOp, RemoveRootPlan, TreeNode, plan_remove_entry,
    plan_remove_root, preflight_remove_root, remove, unlink_chain,
};
use fuc_engine::{Error, FileKind};

#[test]
fn non_existent_file_no_force() {
    let stripped = b"/tmp/work/file".to_vec();
    let e = plan_remove_root(&stripped, false, None).unwrap_err();
    match e {
        Error::NotFound { file } => assert_eq!(file, stripped),
        _ => panic!("expected NotFound"),
    }
}

#[test]
fn non_existent_file_force() {
    let stripped = b"/tmp/work/file".to_vec();
    let plan = plan_remove_root(&stripped, true, None).unwrap();
    assert!(matches!(plan, RemoveRootPlan::Skip));
}

#[test]
fn remove_one_file() {
    let stripped = b"/tmp/work/file".to_vec();
    let plan = plan_remove_root(&stripped, false, Some(FileKind::Regular)).unwrap();
    assert!(matches!(plan, RemoveRootPlan::UnlinkRoot));
}

#[test]
fn remove_one_dir() {
    let stripped = b"/tmp/work/dir".to_vec();
    let plan = plan_remove_root(&stripped, false, Some(FileKind::Directory)).unwrap();
    assert!(matches!(plan, RemoveRootPlan::EnqueueDir));
}

#[test]
fn delete_one_file() {
    // A root whose kind is anything but a directory is unlinked directly.
    let plan = plan_remove_root(&b"file".to_vec(), true, Some(FileKind::Other)).unwrap();
    assert!(matches!(plan, RemoveRootPlan::UnlinkRoot));
}

#[test]
fn delete_one_dir() {
    // A directory root is handed to the engine even under force.
    let plan = plan_remove_root(&b"dir".to_vec(), true, Some(FileKind::Directory)).unwrap();
    assert!(matches!(plan, RemoveRootPlan::EnqueueDir));
}

#[test]
fn symbolic_link_delete_link() {
    // A symlink root is unlinked itself, never followed.
    let plan = plan_remove_root(&b"/tmp/work/file".to_vec(), false, Some(FileKind::Symlink))
        .unwrap();
    assert!(matches!(plan, RemoveRootPlan::UnlinkRoot));
}

#[test]
fn symbolic_link_delete_dir() {
    // A symlink met inside a directory is unlinked in place, never recursed.
    let parent = as_nul_terminated(b"/tmp/work/dir".to_vec()).unwrap();
    let plan = plan_remove_entry(&parent, &b"file".to_vec(), FileKind::Symlink);
    assert!(matches!(plan, RemoveEntryPlan::UnlinkFile));
}

#[test]
fn preserve_root_refused() {
    let e = preflight_remove_root(b"/".to_vec(), true).unwrap_err();
    assert!(matches!(e, Error::PreserveRoot));
    let e = preflight_remove_root(b"//".to_vec(), true).unwrap_err();
    assert!(matches!(e, Error::PreserveRoot));
}

#[test]
fn preserve_root_disabled_passes_preflight() {
    let stripped = preflight_remove_root(b"/".to_vec(), false).unwrap();
    assert_eq!(stripped, b"/".to_vec());
}

#[test]
fn preflight_strips_one_trailing_separator() {
    let stripped = preflight_remove_root(b"/tmp/work/dir/".to_vec(), true).unwrap();
    assert_eq!(stripped, b"/tmp/work/dir".to_vec());
}

#[test]
fn dot_entries_skipped() {
    let parent = as_nul_terminated(b"/tmp".to_vec()).unwrap();
    assert!(matches!(
        plan_remove_entry(&parent, &b".".to_vec(), FileKind::Directory),
        RemoveEntryPlan::Skip
    ));
    assert!(matches!(
        plan_remove_entry(&parent, &b"..".to_vec(), FileKind::Directory),
        RemoveEntryPlan::Skip
    ));
    assert!(matches!(
        plan_remove_entry(&parent, &b"...".to_vec(), FileKind::Regular),
        RemoveEntryPlan::UnlinkFile
    ));
}

#[test]
fn subdirectory_becomes_child_task() {
    let parent = as_nul_terminated(b"/tmp/work".to_vec()).unwrap();
    let plan = plan_remove_entry(&parent, &b"sub".to_vec(), FileKind::Directory);
    match plan {
        RemoveEntryPlan::Recurse { child } => {
            assert_eq!(child.as_bytes().as_slice(), b"/tmp/work/sub\0");
        }
        _ => panic!("expected Recurse"),
    }
}

#[test]
fn extremely_long_file_name() {
    // The fallback fires exactly when the parent's stored path (terminator
    // included) plus the entry name exceeds PATH_MAX bytes.
    let parent_body_len = PATH_MAX - 102;
    let parent = as_nul_terminated(vec![b'p'; parent_body_len]).unwrap();
    assert_eq!(parent.as_bytes().len(), PATH_MAX - 101);

    let name = vec![b'x'; 101];
    match plan_remove_entry(&parent, &name, FileKind::Directory) {
        RemoveEntryPlan::Recurse { child } => {
            assert_eq!(child.as_bytes().len(), PATH_MAX + 1);
        }
        _ => panic!("expected Recurse at the limit"),
    }

    let longer = vec![b'x'; 102];
    let plan = plan_remove_entry(&parent, &longer, FileKind::Directory);
    assert!(matches!(plan, RemoveEntryPlan::LongPathFallback));
}

#[test]
fn unlink_chain_runs_leaf_to_root() {
    let root = TreeNode::root(as_nul_terminated(b"/tmp/a".to_vec()).unwrap());
    let child = root.child(&b"b".to_vec());
    let grandchild = child.child(&b"c".to_vec());
    let chain = unlink_chain(grandchild);
    let paths: Vec<&[u8]> = chain.iter().map(|p| p.as_bytes().as_slice()).collect();
    assert_eq!(paths, vec![&b"/tmp/a/b/c\0"[..], &b"/tmp/a/b\0"[..], &b"/tmp/a\0"[..]]);
}

#[test]
fn remove_op_defaults_and_assembly() {
    let op = RemoveOp::builder().build();
    assert!(op.files.is_empty());
    assert!(!op.force);
    assert!(op.preserve_root);

    let op = remove(vec![b"a".to_vec(), b"b".to_vec()], true, false);
    assert_eq!(op.files, vec![b"a".to_vec(), b"b".to_vec()]);
    assert!(op.force);
    assert!(!op.preserve_root);
}

use fuc_engine::cli::plan_copy_args;
use fuc_engine::remove::remove;

#[test]
fn verify_app() {
    // The copy front end's argument handling, end to end over the planner.

    // `a b`: copy to the destination name; only b's parent chain is made
    // (here the current directory, the empty parent).
    let plan = plan_copy_args(vec![b"a".to_vec()], b"b".to_vec(), false);
    assert_eq!(plan.create_dir, Some(b"".to_vec()));
    assert_eq!(plan.to, b"b".to_vec());
    assert_eq!(plan.pairs, vec![(b"a".to_vec(), b"b".to_vec())]);

    // `a c/b`: the destination's parent is made.
    let plan = plan_copy_args(vec![b"a".to_vec()], b"c/b".to_vec(), false);
    assert_eq!(plan.create_dir, Some(b"c".to_vec()));
    assert_eq!(plan.pairs, vec![(b"a".to_vec(), b"c/b".to_vec())]);

    // `a b/`: copy into b under a's basename; b itself is made.
    let plan = plan_copy_args(vec![b"a".to_vec()], b"b/".to_vec(), false);
    assert_eq!(plan.create_dir, Some(b"b/".to_vec()));
    assert_eq!(plan.pairs, vec![(b"a".to_vec(), b"b/a".to_vec())]);

    // `x/y .`: into the current directory.
    let plan = plan_copy_args(vec![b"x/y".to_vec()], b".".to_vec(), false);
    assert_eq!(plan.create_dir, Some(b".".to_vec()));
    assert_eq!(plan.pairs, vec![(b"x/y".to_vec(), b"./y".to_vec())]);

    // `a b c d`: several sources always go into the destination.
    let plan = plan_copy_args(
        vec![b"a".to_vec(), b"b".to_vec(), b"c".to_vec()],
        b"d".to_vec(),
        false,
    );
    assert_eq!(plan.create_dir, Some(b"d".to_vec()));
    assert_eq!(
        plan.pairs,
        vec![
            (b"a".to_vec(), b"d/a".to_vec()),
            (b"b".to_vec(), b"d/b".to_vec()),
            (b"c".to_vec(), b"d/c".to_vec()),
        ]
    );

    // A source without a basename is copied onto the destination itself.
    let plan = plan_copy_args(vec![b"a".to_vec(), b"..".to_vec()], b"d".to_vec(), false);
    assert_eq!(plan.pairs[1], (b"..".to_vec(), b"d".to_vec()));

    // `-t b a` reverses the first source and the destination.
    let plan = plan_copy_args(vec![b"b".to_vec()], b"a".to_vec(), true);
    assert_eq!(plan.to, b"b".to_vec());
    assert_eq!(plan.pairs, vec![(b"a".to_vec(), b"b".to_vec())]);

    // A destination that is `..` is still "into".
    let plan = plan_copy_args(vec![b"a".to_vec()], b"..".to_vec(), false);
    assert_eq!(plan.create_dir, Some(b"..".to_vec()));
    assert_eq!(plan.pairs, vec![(b"a".to_vec(), b"../a".to_vec())]);

    // An empty destination has nothing to create.
    let plan = plan_copy_args(vec![b"a".to_vec()], b"".to_vec(), false);
    assert_eq!(plan.create_dir, None);
}

#[test]
fn main_verify_app() {
    // The remove front end hands its arguments through unchanged.
    let op = remove(vec![b"x".to_vec()], false, true);
    assert_eq!(op.files, vec![b"x".to_vec()]);
    assert!(!op.force);
    assert!(op.preserve_root);

    let op = remove(vec![b"/".to_vec(), b"y/".to_vec()], true, false);
    assert_eq!(op.files, vec![b"/".to_vec(), b"y/".to_vec()]);
    assert!(op.force);
    assert!(!op.preserve_root);
}

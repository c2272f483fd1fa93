use fuc_engine::Error;

#[test]
fn errno_maps_to_io_error() {
    let e = Error::from_errno(rustix::io::Errno::NOENT, String::from("open it"));
    match e {
        Error::Io { code, context } => {
            // ENOENT is 2 on Linux.
            assert_eq!(code, Some(2));
            assert_eq!(context, "open it");
        }
        _ => panic!("expected Io"),
    }

    let e = Error::from_errno(rustix::io::Errno::XDEV, String::from("copy it"));
    match e {
        Error::Io { code, context } => {
            // EXDEV is 18 on Linux.
            assert_eq!(code, Some(18));
            assert_eq!(context, "copy it");
        }
        _ => panic!("expected Io"),
    }
}

#[test]
fn every_variant_is_distinguishable() {
    let all = vec![
        Error::Io { code: None, context: String::from("x") },
        Error::PreserveRoot,
        Error::Join,
        Error::BadPath,
        Error::AlreadyExists { file: b"b".to_vec() },
        Error::NotFound { file: b"f".to_vec() },
        Error::Internal,
    ];
    let mut seen = [false; 7];
    for e in &all {
        let i = match e {
            Error::Io { .. } => 0,
            Error::PreserveRoot => 1,
            Error::Join => 2,
            Error::BadPath => 3,
            Error::AlreadyExists { .. } => 4,
            Error::NotFound { .. } => 5,
            Error::Internal => 6,
        };
        assert!(!seen[i]);
        seen[i] = true;
    }
    assert!(seen.iter().all(|s| *s));
}

use remotefs::{Metadata, UnixPex};

#[test]
fn default_metadata_is_zeroed() {
    let metadata = Metadata::default();
    assert_eq!(metadata.size, 0);
    assert_eq!(metadata.accessed, None);
    assert_eq!(metadata.created, None);
    assert_eq!(metadata.modified, None);
    assert_eq!(metadata.uid, None);
    assert_eq!(metadata.gid, None);
    assert_eq!(metadata.mode, None);
    assert_eq!(metadata.symlink, None);
}

#[test]
fn metadata_equality_is_field_wise() {
    let filled = Metadata {
        size: 1024,
        accessed: Some(1_700_000_000),
        created: Some(1_600_000_000),
        modified: Some(1_650_000_000),
        uid: Some(1000),
        gid: Some(1000),
        mode: Some(UnixPex::from_mode(0o644)),
        symlink: None,
    };
    assert_eq!(filled.clone(), filled);
    assert_ne!(filled, Metadata::default());
    let mut other = filled.clone();
    other.size = 1025;
    assert_ne!(filled, other);
}

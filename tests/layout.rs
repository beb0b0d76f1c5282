use cedar::error::BuildError;
use cedar::layout::{join, layout_paths, manifest_path, validate_layout};

#[test]
fn required_paths_in_order() {
    assert_eq!(
        layout_paths("/p"),
        vec![
            "/p/cedar.toml".to_string(),
            "/p/src".to_string(),
            "/p/include".to_string(),
            "/p/build".to_string()
        ]
    );
    assert_eq!(manifest_path("r"), "r/cedar.toml");
    assert_eq!(join("a", "b"), "a/b");
}

#[test]
fn complete_layout_is_valid() {
    assert!(validate_layout(&vec![true, true, true, true]).is_ok());
}

#[test]
fn any_missing_path_is_invalid_directory() {
    for i in 0..4 {
        let mut found = vec![true; 4];
        found[i] = false;
        assert!(matches!(validate_layout(&found), Err(BuildError::InvalidDirectory)));
    }
    assert!(matches!(validate_layout(&vec![false; 4]), Err(BuildError::InvalidDirectory)));
    assert!(matches!(validate_layout(&vec![true; 3]), Err(BuildError::InvalidDirectory)));
}

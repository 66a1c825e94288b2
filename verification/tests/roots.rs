use pylon::providers::roots::{default_root, get_root_paths, root_candidates, RootProbe};

#[test]
fn candidates_lie_under_the_home_directory() {
    assert_eq!(
        root_candidates(Some("/home/me".to_string())),
        vec!["/home/me/code/pylon".to_string(), "/home/me/code/onyx".to_string()]
    );
    assert_eq!(
        root_candidates(None),
        vec![
            "/home/atlantispleb/code/pylon".to_string(),
            "/home/atlantispleb/code/onyx".to_string()
        ]
    );
}

#[test]
fn only_directories_serve_as_roots() {
    let probe = |path: &str, is_directory: bool| RootProbe { path: path.to_string(), is_directory };
    assert_eq!(
        get_root_paths(vec![probe("/a", false), probe("/b", true), probe("/c", true)]),
        vec!["/b".to_string(), "/c".to_string()]
    );
    assert!(get_root_paths(vec![probe("/a", false)]).is_empty());
    assert!(get_root_paths(vec![]).is_empty());
}

#[test]
fn the_first_root_is_served() {
    assert_eq!(default_root(&vec!["/b".to_string(), "/c".to_string()]), "/b");
    assert_eq!(default_root(&vec![]), ".");
}

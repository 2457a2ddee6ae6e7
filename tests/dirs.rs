use atuin_common::{git_dir_path, git_walk_step, Walk, config_dir, data_dir, get_current_dir, home_dir, in_git_repo, path_join, DirError};

#[test]
fn test_dirs() {
    assert_eq!(
        config_dir(Some("/home/user/custom_config"), None),
        Ok(String::from("/home/user/custom_config/atuin"))
    );
    assert_eq!(config_dir(None, Some("/home/user")), Ok(String::from("/home/user/.config/atuin")));
    assert_eq!(
        data_dir(Some("/home/user/custom_data"), None),
        Ok(String::from("/home/user/custom_data/atuin"))
    );
    assert_eq!(data_dir(None, Some("/home/user")), Ok(String::from("/home/user/.local/share/atuin")));
}

#[test]
fn override_wins_over_home() {
    assert_eq!(config_dir(Some("/nowhere/at/all"), Some("/home/user")), Ok(String::from("/nowhere/at/all/atuin")));
    assert_eq!(data_dir(Some("/x/"), Some("/home/user")), Ok(String::from("/x/atuin")));
}

#[test]
fn missing_home_is_an_error() {
    assert_eq!(home_dir(None), Err(DirError::MissingHomeEnvironment));
    assert_eq!(home_dir(Some("")), Err(DirError::MissingHomeEnvironment));
    assert_eq!(config_dir(None, None), Err(DirError::MissingHomeEnvironment));
    assert_eq!(data_dir(None, None), Err(DirError::MissingHomeEnvironment));
    assert_eq!(home_dir(Some("/home/u")), Ok(String::from("/home/u")));
}

#[test]
fn join_edges() {
    assert_eq!(path_join("", "atuin"), "atuin");
    assert_eq!(path_join("/", "atuin"), "/atuin");
    assert_eq!(path_join("/a", "b"), "/a/b");
}

#[test]
fn current_dir_order() {
    assert_eq!(get_current_dir(Some("/p"), Some("/c")), "/p");
    assert_eq!(get_current_dir(None, Some("/c")), "/c");
    assert_eq!(get_current_dir(None, None), "");
}

#[test]
fn git_detection_on_missing_tree() {
    assert_eq!(in_git_repo("/definitely/not/a/real/place"), None);
}

#[test]
fn git_dir_path_ignores_trailing_slash() {
    assert_eq!(git_dir_path("/home/u/proj"), "/home/u/proj/.git");
    assert_eq!(git_dir_path("/home/u/proj/"), "/home/u/proj/.git");
    assert_eq!(git_dir_path(""), ".git");
}

#[test]
fn walk_step_decisions() {
    assert_eq!(git_walk_step("/", None, true), Walk::NotFound);
    assert_eq!(git_walk_step("/a/b", Some("/a"), true), Walk::Found(String::from("/a/b")));
    assert_eq!(git_walk_step("/a/b", Some("/a"), false), Walk::Up(String::from("/a")));
}

#[test]
fn walk_picks_nearest_repository() {
    // repositories at /home/u/proj and /home/u/proj/sub
    let holds_git = |d: &str| d == "/home/u/proj" || d == "/home/u/proj/sub";
    let parent = |d: &str| std::path::Path::new(d).parent().map(|p| p.to_str().unwrap().to_string());
    let mut cur = String::from("/home/u/proj/sub/src/lib");
    let found = loop {
        let p = parent(&cur);
        let here = p.is_some() && holds_git(&cur);
        match git_walk_step(&cur, p.as_deref(), here) {
            Walk::NotFound => break None,
            Walk::Found(d) => break Some(d),
            Walk::Up(next) => cur = next,
        }
    };
    assert_eq!(found, Some(String::from("/home/u/proj/sub")));
}

#[test]
fn root_and_empty_are_never_repositories() {
    assert_eq!(in_git_repo("/"), None);
    assert_eq!(in_git_repo(""), None);
}

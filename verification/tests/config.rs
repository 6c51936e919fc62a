use admin_core::config::{get_content_path, get_project_root, Config};

#[test]
fn content_path_defaults_to_the_blog() {
    assert_eq!(get_content_path(None), "../blog/src/content/blog");
}

#[test]
fn content_path_is_the_configured_one() {
    assert_eq!(get_content_path(Some("/srv/posts".to_string())), "/srv/posts");
    assert_eq!(get_content_path(Some(String::new())), "");
}

#[test]
fn project_root_defaults_to_the_parent() {
    assert_eq!(get_project_root(None), "..");
}

#[test]
fn project_root_is_the_configured_one() {
    assert_eq!(get_project_root(Some("/srv".to_string())), "/srv");
}

#[test]
fn config_resolves_each_setting_by_itself() {
    assert_eq!(
        Config::resolve(Some("/posts".to_string()), None),
        Config { content_path: "/posts".to_string(), project_root: "..".to_string() }
    );
    assert_eq!(
        Config::resolve(None, Some("/root".to_string())),
        Config { content_path: "../blog/src/content/blog".to_string(), project_root: "/root".to_string() }
    );
}

use spatial_browser::paths::{go_up_path, path_to_breadcrumbs, safe_child, watch_path};

#[test]
fn going_up() {
    assert_eq!(go_up_path("/home/user"), Some("/home".to_string()));
    assert_eq!(go_up_path("/home"), Some("/".to_string()));
    assert_eq!(go_up_path("/"), None);
    assert_eq!(go_up_path(""), None);
    assert_eq!(go_up_path("docs"), Some("".to_string()));
}

#[test]
fn children_must_lie_inside() {
    assert_eq!(safe_child("/home/user", "/home/user/docs"), Some("/home/user/docs".to_string()));
    assert_eq!(safe_child("/home/user", "/home/user"), Some("/home/user".to_string()));
    assert_eq!(safe_child("/home/user", "/home/username"), None);
    assert_eq!(safe_child("/home/user", "/etc"), None);
}

#[test]
fn breadcrumbs_per_component() {
    assert_eq!(
        path_to_breadcrumbs("/home/user"),
        vec!["> /".to_string(), "> home".to_string(), "> user".to_string()]
    );
    assert!(path_to_breadcrumbs("").is_empty());
    watch_path("/tmp");
}

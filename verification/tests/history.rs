use spatial_browser::navigation::{default_favorites, NavigationState};

fn nav(start: &str) -> NavigationState {
    NavigationState::new(start.to_string(), Vec::new())
}

#[test]
fn new_history_is_empty() {
    let n = nav("/a");
    assert_eq!(n.current_path, "/a");
    assert!(n.back_stack.is_empty());
    assert!(n.forward_stack.is_empty());
}

#[test]
fn visit_then_back_then_forward() {
    let mut n = nav("/a");
    n.visit("/b".to_string(), "/a".to_string());
    assert_eq!(n.current_path, "/b");
    assert_eq!(n.back_stack, vec!["/a".to_string()]);
    assert_eq!(n.back(), Some("/a".to_string()));
    assert_eq!(n.current_path, "/a");
    assert_eq!(n.forward_stack, vec!["/b".to_string()]);
    assert_eq!(n.forward(), Some("/b".to_string()));
    assert_eq!(n.current_path, "/b");
    assert_eq!(n.back_stack, vec!["/a".to_string()]);
    assert!(n.forward_stack.is_empty());
}

#[test]
fn visit_clears_forward() {
    let mut n = nav("/a");
    n.visit("/b".to_string(), "/a".to_string());
    n.back();
    n.visit("/c".to_string(), "/a".to_string());
    assert!(n.forward_stack.is_empty());
    assert_eq!(n.forward(), None);
    assert_eq!(n.current_path, "/c");
}

#[test]
fn back_and_forward_on_empty_stacks_do_nothing() {
    let mut n = nav("/a");
    assert_eq!(n.back(), None);
    assert_eq!(n.forward(), None);
    assert_eq!(n.current_path, "/a");
    assert!(n.back_stack.is_empty() && n.forward_stack.is_empty());
}

#[test]
fn favorites_with_and_without_home() {
    let f = default_favorites(Some("/home/u".to_string()));
    let labels: Vec<&str> = f.iter().map(|x| x.label.as_str()).collect();
    assert_eq!(labels, vec!["Desktop", "Documents", "Downloads", "Pictures", "This PC"]);
    assert_eq!(f[0].path, "/home/u/Desktop");
    assert_eq!(f[3].path, "/home/u/Pictures");
    assert_eq!(f[4].path, "C:\\");
    let g = default_favorites(None);
    assert_eq!(g.len(), 1);
    assert_eq!(g[0].label, "This PC");
}

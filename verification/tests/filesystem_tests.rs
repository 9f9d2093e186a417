use rsh::filesystem::{FSEntry, VirtualFS};

fn fs() -> VirtualFS {
    VirtualFS::new()
}

#[test]
fn get_root_is_directory() {
    let fs = fs();
    match fs.get("~") {
        Some(FSEntry::Directory { children }) => {
            assert_eq!(children.len(), 9);
            assert_eq!(children[0], ".profile");
            assert_eq!(children[8], "downloads");
        }
        _ => panic!("root must be a directory"),
    }
}

#[test]
fn get_missing_path_is_none() {
    let fs = fs();
    assert!(fs.get("~/nope").is_none());
    assert!(fs.get("").is_none());
    assert!(fs.get("blog").is_none());
}

#[test]
fn get_is_exact_key_lookup() {
    let fs = fs();
    assert!(fs.get("~/blog").is_some());
    assert!(fs.get("~/blog/").is_none());
}

#[test]
fn resolve_absolute_paths_stand() {
    let fs = fs();
    assert_eq!(fs.resolve_path("~", "~/blog"), "~");
    assert_eq!(fs.resolve_path("~/downloads", "~/blog"), "~/downloads");
}

#[test]
fn resolve_relative_paths_append() {
    let fs = fs();
    assert_eq!(fs.resolve_path("blog", "~"), "~/blog");
    assert_eq!(fs.resolve_path("./blog", "~"), "~/blog");
    assert_eq!(fs.resolve_path("2026", "~/blog"), "~/blog/2026");
}

#[test]
fn resolve_dot_and_dotdot() {
    let fs = fs();
    assert_eq!(fs.resolve_path(".", "~/blog"), "~/blog");
    assert_eq!(fs.resolve_path("..", "~/blog/2026"), "~/blog");
    assert_eq!(fs.resolve_path("..", "~/blog"), "~");
    assert_eq!(fs.resolve_path("..", "~"), "~");
}

#[test]
fn resolve_is_independent_of_cwd_for_home_paths() {
    let fs = fs();
    assert_eq!(fs.resolve_path("~/x", "~"), fs.resolve_path("~/x", "~/blog"));
}

#[test]
fn list_dir_keeps_declared_order() {
    let fs = fs();
    let listing = fs.list_dir("~").expect("root lists");
    let names: Vec<&str> = listing.iter().map(|(n, _)| n.as_str()).collect();
    assert_eq!(
        names,
        vec![
            ".profile",
            ".secret",
            "README.md",
            "about",
            "dashboard",
            "resume",
            "contact",
            "blog",
            "downloads"
        ]
    );
}

#[test]
fn list_dir_skips_dangling_children() {
    let fs = fs();
    // "~/blog" declares "2025" as a child but stores no entry for it.
    let listing = fs.list_dir("~/blog").expect("blog lists");
    let names: Vec<&str> = listing.iter().map(|(n, _)| n.as_str()).collect();
    assert_eq!(names, vec!["2026"]);
    // "~/downloads" declares two children, neither stored.
    let downloads = fs.list_dir("~/downloads").expect("downloads lists");
    assert!(downloads.is_empty());
}

#[test]
fn list_dir_rejects_files_and_missing_paths() {
    let fs = fs();
    assert!(fs.list_dir("~/README.md").is_none());
    assert!(fs.list_dir("~/about").is_none());
    assert!(fs.list_dir("~/nope").is_none());
}

#[test]
fn complete_empty_input_at_root_offers_everything_sorted() {
    let fs = fs();
    let cands = fs.complete("", "~");
    assert!(cands.len() > 1);
    assert!(cands.contains(&"./about".to_string()));
    assert!(cands.contains(&"./resume".to_string()));
    assert!(cands.contains(&"./contact".to_string()));
    assert!(cands.contains(&"./dashboard".to_string()));
    assert!(cands.contains(&"README.md".to_string()));
    assert!(cands.contains(&"blog/".to_string()));
    let mut sorted = cands.clone();
    sorted.sort();
    assert_eq!(cands, sorted);
}

#[test]
fn complete_matches_display_form_and_bare_name() {
    let fs = fs();
    // "ab" matches the bare name "about" even though it displays as "./about".
    let cands = fs.complete("ab", "~");
    assert_eq!(cands, vec!["./about".to_string()]);
    // "./ab" matches the display form.
    let cands = fs.complete("./ab", "~");
    assert_eq!(cands, vec!["./about".to_string()]);
}

#[test]
fn complete_keeps_the_prefix_before_the_last_space() {
    let fs = fs();
    let cands = fs.complete("cat RE", "~");
    assert_eq!(cands, vec!["cat README.md".to_string()]);
}

#[test]
fn complete_with_no_match_is_empty() {
    let fs = fs();
    assert!(fs.complete("zzz", "~").is_empty());
    assert!(fs.complete("x", "~/README.md").is_empty());
}

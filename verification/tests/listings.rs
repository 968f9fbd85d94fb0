use fileserve::listing::Entry;
use fileserve::listing::render_listing;
use fileserve::filter::is_excluded;
use fileserve::paths::resolve_dir_path;
use fileserve::strutil::collapse_double_slashes;
use fileserve::strutil::str_ends_with;

fn entry(name: &str, is_dir: bool) -> Entry {
    Entry { name: String::from(name), is_dir }
}

#[test]
fn listing_root_scenario() {
    let entries = vec![
        entry("notes.txt", false),
        entry("docs", true),
        entry("image.png", false),
    ];
    let r = render_listing("", &entries);
    assert_eq!(r.status, 200);
    assert_eq!(r.content_type.as_deref(), Some("text/html; charset=utf-8"));
    assert_eq!(
        r.body,
        "<html><body><h1>File List</h1><ul>\
         <li><a href=\"/notes.txt\">notes.txt</a></li>\
         <li><a href=\"/docs/\">docs</a></li>\
         </ul></body></html>"
    );
}

#[test]
fn listing_empty_directory() {
    let entries: Vec<Entry> = Vec::new();
    let r = render_listing("", &entries);
    assert_eq!(r.status, 200);
    assert_eq!(r.body, "<html><body><h1>File List</h1><ul></ul></body></html>");
}

#[test]
fn listing_dir_links_end_in_slash() {
    let entries = vec![entry("sub", true), entry("plain", false)];
    let r = render_listing("top", &entries);
    assert!(r.body.contains("<li><a href=\"/topsub/\">sub</a></li>"));
    assert!(r.body.contains("<li><a href=\"/topplain\">plain</a></li>"));
}

#[test]
fn listing_href_collapses_double_slashes() {
    let entries = vec![entry("file.rs", false)];
    let r = render_listing("a//b/", &entries);
    assert!(r.body.contains("<a href=\"/a/b/file.rs\">file.rs</a>"));
}

#[test]
fn listing_filter_is_case_insensitive() {
    let entries = vec![
        entry("IMAGE.PNG", false),
        entry("Cargo.LOCK", false),
        entry("kept.txt", false),
    ];
    let r = render_listing("", &entries);
    assert!(!r.body.contains("IMAGE.PNG"));
    assert!(!r.body.contains("Cargo.LOCK"));
    assert!(r.body.contains("<li><a href=\"/kept.txt\">kept.txt</a></li>"));
}

#[test]
fn excluded_each_suffix() {
    let suffixes = [
        ".exe", ".lock", ".toml", ".dll", ".msi", ".md", ".png", ".jpg", ".jpeg", ".gif",
        ".webp", ".csv", ".xlsx", ".xls", ".docx", ".doc", ".pptx", ".ppt", ".pdf", ".xml",
        ".bat", ".vbs", ".git", ".gitignore",
    ];
    for suf in suffixes {
        let name = format!("some.file{}", suf);
        assert!(is_excluded(&name), "{} should be hidden", name);
    }
    assert!(is_excluded(".gitignore"));
    assert!(!is_excluded("notes.txt"));
    assert!(!is_excluded("archive.tar.gz"));
    assert!(!is_excluded("png"));
    assert!(!is_excluded("exe.file"));
}

#[test]
fn resolve_dir_path_cases() {
    assert_eq!(resolve_dir_path(""), ".");
    assert_eq!(resolve_dir_path("docs"), "./docs");
    assert_eq!(resolve_dir_path("./docs"), "./docs");
    assert_eq!(resolve_dir_path("././docs"), "././docs");
    assert_eq!(resolve_dir_path("a/b"), "./a/b");
    assert_eq!(resolve_dir_path("."), "./.");
    assert_eq!(resolve_dir_path("a//b"), "./a//b");
}

#[test]
fn collapse_double_slash_cases() {
    assert_eq!(collapse_double_slashes(""), "");
    assert_eq!(collapse_double_slashes("a//b"), "a/b");
    assert_eq!(collapse_double_slashes("///"), "//");
    assert_eq!(collapse_double_slashes("a///b"), "a//b");
    assert_eq!(collapse_double_slashes("//a//"), "/a/");
    assert_eq!(collapse_double_slashes("no slashes"), "no slashes");
}

#[test]
fn str_ends_with_cases() {
    assert!(str_ends_with("file.png", ".png"));
    assert!(str_ends_with("x", ""));
    assert!(!str_ends_with("", ".png"));
    assert!(!str_ends_with("png", ".png"));
    assert!(str_ends_with("grüße.md", ".md"));
    assert!(!str_ends_with("file.pngx", ".png"));
}

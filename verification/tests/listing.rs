use marklight::listing::build_listing;
use marklight::listing::has_markdown_extension;
use marklight::listing::RawEntry;

fn entry(name: &str, path: &str, is_dir: bool) -> RawEntry {
    RawEntry { name: name.to_string(), path: path.to_string(), is_dir }
}

#[test]
fn listing_orders_dirs_first_then_caseless_names() {
    let entries = vec![
        entry("b.md", "/notes/b.md", false),
        entry("A", "/notes/A", true),
        entry("a.txt", "/notes/a.txt", false),
    ];
    let r = build_listing(entries);
    assert_eq!(r.len(), 3);

    assert_eq!(r[0].name.as_str(), "A");
    assert_eq!(r[0].path.as_str(), "/notes/A");
    assert!(r[0].is_dir);
    assert!(!r[0].is_md);

    assert_eq!(r[1].name.as_str(), "a.txt");
    assert_eq!(r[1].path.as_str(), "/notes/a.txt");
    assert!(!r[1].is_dir);
    assert!(!r[1].is_md);

    assert_eq!(r[2].name.as_str(), "b.md");
    assert_eq!(r[2].path.as_str(), "/notes/b.md");
    assert!(!r[2].is_dir);
    assert!(r[2].is_md);
}

#[test]
fn listing_of_nothing_is_empty() {
    let r = build_listing(Vec::new());
    assert_eq!(r.len(), 0);
}

#[test]
fn listing_compares_names_case_insensitively() {
    let entries = vec![
        entry("Beta.md", "/d/Beta.md", false),
        entry("alpha.txt", "/d/alpha.txt", false),
        entry("GAMMA.md", "/d/GAMMA.md", false),
    ];
    let r = build_listing(entries);
    assert_eq!(r[0].name.as_str(), "alpha.txt");
    assert_eq!(r[1].name.as_str(), "Beta.md");
    assert_eq!(r[2].name.as_str(), "GAMMA.md");
}

#[test]
fn listing_puts_every_directory_before_every_file() {
    let entries = vec![
        entry("aaa.md", "/d/aaa.md", false),
        entry("zzz", "/d/zzz", true),
        entry("mmm", "/d/mmm", true),
    ];
    let r = build_listing(entries);
    assert_eq!(r[0].name.as_str(), "mmm");
    assert!(r[0].is_dir);
    assert_eq!(r[1].name.as_str(), "zzz");
    assert!(r[1].is_dir);
    assert_eq!(r[2].name.as_str(), "aaa.md");
    assert!(!r[2].is_dir);
}

#[test]
fn listing_keeps_entries_with_equal_names() {
    let entries = vec![
        entry("same.md", "/a/same.md", false),
        entry("same.md", "/b/same.md", false),
    ];
    let r = build_listing(entries);
    assert_eq!(r.len(), 2);
    assert_eq!(r[0].name.as_str(), "same.md");
    assert_eq!(r[1].name.as_str(), "same.md");
    let mut paths: Vec<&str> = vec![r[0].path.as_str(), r[1].path.as_str()];
    paths.sort();
    assert_eq!(paths, vec!["/a/same.md", "/b/same.md"]);
}

#[test]
fn markdown_extensions_are_md_and_markdown() {
    assert!(has_markdown_extension("note.md"));
    assert!(has_markdown_extension("note.markdown"));
    assert!(has_markdown_extension("a.b.md"));
    assert!(!has_markdown_extension("note.txt"));
    assert!(!has_markdown_extension("note.mdx"));
    assert!(!has_markdown_extension("note"));
    assert!(!has_markdown_extension("md"));
}

#[test]
fn markdown_extension_is_case_sensitive() {
    assert!(!has_markdown_extension("NOTE.MD"));
    assert!(!has_markdown_extension("note.Markdown"));
}

#[test]
fn leading_dot_is_no_extension() {
    assert!(!has_markdown_extension(".md"));
    assert!(!has_markdown_extension(".markdown"));
    assert!(has_markdown_extension(".hidden.md"));
}

#[test]
fn directory_named_like_markdown_is_tagged_too() {
    let entries = vec![entry("docs.md", "/d/docs.md", true)];
    let r = build_listing(entries);
    assert!(r[0].is_dir);
    assert!(r[0].is_md);
}

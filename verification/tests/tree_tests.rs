use grump::file_tree::{should_ignore, without_first, Directory, File, FileSystemItem};

fn md_file(path: &str, output_exists: bool) -> File {
    File::new(path.to_string(), 0, output_exists)
}

#[test]
fn hidden_file_drops_leading_dot() {
    let f = File::new("/site/.gitignore".to_string(), 5, false);
    assert!(f.hidden);
    assert_eq!(f.name, "gitignore");
    assert_eq!(f.extension, "");
    assert_eq!(f.path, "/site/.gitignore");
    assert_eq!(f.last_modified, 5);
}

#[test]
fn visible_file_keeps_name_and_extension() {
    let f = md_file("/site/notes.md", false);
    assert!(!f.hidden);
    assert_eq!(f.name, "notes.md");
    assert_eq!(f.extension, "md");
}

#[test]
fn dotted_file_with_extension() {
    let f = File::new("/site/.draft.md".to_string(), 0, false);
    assert!(f.hidden);
    assert_eq!(f.name, "draft.md");
    assert_eq!(f.extension, "md");
}

#[test]
fn hidden_directory_drops_leading_dot() {
    let d = Directory::new("/site/.git".to_string(), Vec::new());
    assert!(d.hidden);
    assert_eq!(d.name, "git");
}

#[test]
fn filesystem_root_is_named_dot_and_not_hidden() {
    let d = Directory::new("/".to_string(), Vec::new());
    assert!(!d.hidden);
    assert_eq!(d.name, ".");
}

#[test]
fn without_first_drops_one_character() {
    assert_eq!(without_first("hello"), "ello");
    assert_eq!(without_first("h"), "");
    assert_eq!(without_first(""), "");
}

#[test]
fn ignore_pattern_matches_path() {
    let patterns = vec!["*.tmp".to_string()];
    assert!(should_ignore("/site/cache.tmp", &patterns));
    assert!(!should_ignore("/site/notes.md", &patterns));
}

#[test]
fn ignore_with_no_patterns_matches_nothing() {
    let patterns: Vec<String> = Vec::new();
    assert!(!should_ignore("/site/notes.md", &patterns));
}

#[test]
fn ignore_patterns_are_ored() {
    let patterns = vec!["*.tmp".to_string(), "*.bak".to_string()];
    assert!(should_ignore("/site/old.bak", &patterns));
    assert!(should_ignore("/site/cache.tmp", &patterns));
    assert!(!should_ignore("/site/notes.md", &patterns));
}

#[test]
fn submenu_lists_unrendered_markdown_under_its_output_link() {
    let f = md_file("/site/notes.md", false);
    let item = FileSystemItem::FileEntry(f);
    let entry = item.generate_submenu(&Vec::new(), "/site");
    assert_eq!(
        entry,
        Some("<li class=\"file\"><a href=\"/notes.html\">notes</a></li>".to_string())
    );
}

#[test]
fn submenu_skips_markdown_whose_output_exists() {
    let f = md_file("/site/notes.md", true);
    let item = FileSystemItem::FileEntry(f);
    assert_eq!(item.generate_submenu(&Vec::new(), "/site"), None);
}

#[test]
fn submenu_skips_markdown_whose_output_is_ignored() {
    let f = md_file("/site/notes.md", false);
    let item = FileSystemItem::FileEntry(f);
    let patterns = vec!["*.html".to_string()];
    assert_eq!(item.generate_submenu(&patterns, "/site"), None);
}

#[test]
fn submenu_lists_html_file_without_extension() {
    let f = File::new("/site/about.html".to_string(), 0, false);
    let item = FileSystemItem::FileEntry(f);
    let entry = item.generate_submenu(&Vec::new(), "/site");
    assert_eq!(
        entry,
        Some("<li class=\"file\"><a href=\"/about.html\">about</a></li>".to_string())
    );
}

#[test]
fn submenu_skips_index_html() {
    let f = File::new("/site/index.html".to_string(), 0, false);
    let item = FileSystemItem::FileEntry(f);
    assert_eq!(item.generate_submenu(&Vec::new(), "/site"), None);
}

#[test]
fn submenu_skips_other_file_kinds() {
    let f = File::new("/site/data.txt".to_string(), 0, false);
    let item = FileSystemItem::FileEntry(f);
    assert_eq!(item.generate_submenu(&Vec::new(), "/site"), None);
}

#[test]
fn submenu_falls_back_to_root_link_outside_the_root() {
    let f = File::new("/other/x.html".to_string(), 0, false);
    let item = FileSystemItem::FileEntry(f);
    let entry = item.generate_submenu(&Vec::new(), "/site");
    assert_eq!(
        entry,
        Some("<li class=\"file\"><a href=\"/\">x</a></li>".to_string())
    );
}

#[test]
fn submenu_prunes_hidden_directory_with_its_subtree() {
    let child = FileSystemItem::FileEntry(md_file("/site/.git/child.md", false));
    let d = Directory::new("/site/.git".to_string(), vec![child]);
    let item = FileSystemItem::DirEntry(d);
    assert_eq!(item.generate_submenu(&Vec::new(), "/site"), None);
}

#[test]
fn submenu_prunes_ignored_directory_with_its_subtree() {
    let child = FileSystemItem::FileEntry(md_file("/site/drafts/child.md", false));
    let d = Directory::new("/site/drafts".to_string(), vec![child]);
    let item = FileSystemItem::DirEntry(d);
    let patterns = vec!["*drafts*".to_string()];
    assert_eq!(item.generate_submenu(&patterns, "/site"), None);
}

#[test]
fn submenu_nests_directory_children() {
    let a = FileSystemItem::FileEntry(md_file("/site/docs/a.md", false));
    let docs = Directory::new("/site/docs".to_string(), vec![a]);
    let item = FileSystemItem::DirEntry(docs);
    let entry = item.generate_submenu(&Vec::new(), "/site");
    assert_eq!(
        entry,
        Some(
            "<li class=\"dir\"><a href=\"/docs\">docs</a><ul>\
             <li class=\"file\"><a href=\"/docs/a.html\">a</a></li>\
             </ul></li>"
                .to_string()
        )
    );
}

#[test]
fn html_menu_wraps_entries_with_home_link() {
    let notes = FileSystemItem::FileEntry(md_file("/site/notes.md", false));
    let root = Directory::new("/site".to_string(), vec![notes]);
    let menu = root.generate_html_menu(&Vec::new());
    assert_eq!(
        menu,
        "</div><nav><div><a href=\"/\">Home</a></div><ul>\
         <li class=\"file\"><a href=\"/notes.html\">notes</a></li>\
         </ul></nav><div class=\"main\">"
    );
}

#[test]
fn html_menu_has_no_entry_under_ignored_directory() {
    let child = FileSystemItem::FileEntry(md_file("/site/drafts/secret.md", false));
    let drafts = Directory::new("/site/drafts".to_string(), vec![child]);
    let notes = FileSystemItem::FileEntry(md_file("/site/notes.md", false));
    let root = Directory::new(
        "/site".to_string(),
        vec![FileSystemItem::DirEntry(drafts), notes],
    );
    let patterns = vec!["*drafts*".to_string()];
    let menu = root.generate_html_menu(&patterns);
    assert!(!menu.contains("drafts"));
    assert!(!menu.contains("secret"));
    assert!(menu.contains("notes"));
}

#[test]
fn directory_menu_lists_children_one_level_deep() {
    let docs = FileSystemItem::DirEntry(Directory::new("/site/docs".to_string(), Vec::new()));
    let a = FileSystemItem::FileEntry(md_file("/site/a.md", false));
    let b = FileSystemItem::FileEntry(File::new("/site/b.html".to_string(), 0, false));
    let c = FileSystemItem::FileEntry(File::new("/site/c.txt".to_string(), 0, false));
    let idx = FileSystemItem::FileEntry(File::new("/site/index.html".to_string(), 0, false));
    let hid = FileSystemItem::FileEntry(File::new("/site/.h.md".to_string(), 0, false));
    let root = Directory::new("/site".to_string(), vec![docs, a, b, c, idx, hid]);
    let listing = root.generate_directory_menu();
    assert_eq!(
        listing,
        "<ul>\
         <li><a href=\"docs\">docs</a></li>\
         <li><a href=\"a.html\">a</a></li>\
         <li><a href=\"b.html\">b</a></li>\
         <li><a href=\"c.txt\">c.txt</a></li>\
         </ul>"
    );
}

#[test]
fn directory_menu_skips_markdown_whose_output_exists() {
    let a = FileSystemItem::FileEntry(md_file("/site/a.md", true));
    let root = Directory::new("/site".to_string(), vec![a]);
    assert_eq!(root.generate_directory_menu(), "<ul></ul>");
}

#[test]
fn directory_menu_does_not_consult_ignore_patterns() {
    // The flat listing has no ignore parameter at all: a file that the
    // sitewide menu would drop still appears here.
    let a = FileSystemItem::FileEntry(md_file("/site/a.md", false));
    let root = Directory::new("/site".to_string(), vec![a]);
    let listing = root.generate_directory_menu();
    assert!(listing.contains("a.html"));
}

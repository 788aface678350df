use grump::file_tree::{Directory, File, FileSystemItem};
use grump::{build_default_index, build_item, build_site, process_markdown_file, BuildAction,
    Config};

fn md_file(path: &str, output_exists: bool) -> File {
    File::new(path.to_string(), 0, output_exists)
}

fn bare_config() -> Config {
    Config {
        include_style: false,
        style_path: "/style.css".to_string(),
        include_script: false,
        script_path: "/script.js".to_string(),
        menu: String::new(),
        ignore: Vec::new(),
        site_name: "site".to_string(),
    }
}

fn action_path(a: &BuildAction) -> String {
    match a {
        BuildAction::WriteIndex { path, .. } => path.clone(),
        BuildAction::RenderMarkdown { file } => file.path.clone(),
    }
}

#[test]
fn markdown_page_renders_body_inside_skeleton() {
    let f = md_file("/site/notes.md", false);
    let config = bare_config();
    let (path, content) = process_markdown_file(f, &config, "# Title\n\nHello **world**");
    assert_eq!(path, "/site/notes.html");
    assert!(content.starts_with("<!-- grump --><!DOCTYPE html><html><head><meta charset='utf-8'>"));
    assert!(content.contains("<title>site</title>"));
    assert!(content.contains("<h1>Title</h1>"));
    assert!(content.contains("<strong>world</strong>"));
    assert!(!content.contains("**world**"));
    assert!(content.ends_with("</div></body></html>"));
}

#[test]
fn markdown_page_includes_style_and_script_when_configured() {
    let f = md_file("/site/notes.md", false);
    let mut config = bare_config();
    config.include_style = true;
    config.include_script = true;
    config.menu = "<nav></nav>".to_string();
    let (_, content) = process_markdown_file(f, &config, "hello");
    assert!(content.contains(" <link rel=\"stylesheet\" type=\"text/css\" href=\"/style.css\">"));
    assert!(content.contains("<script type = \"text/javascript\" src = \"/script.js\" ></script>"));
    assert!(content.contains("<body><div class=\"main\"><nav></nav>"));
}

#[test]
fn default_index_wraps_heading_and_listing() {
    let a = FileSystemItem::FileEntry(md_file("/site/docs/a.md", false));
    let docs = Directory::new("/site/docs".to_string(), vec![a]);
    let config = bare_config();
    let (path, content) = build_default_index(&docs, &config);
    assert_eq!(path, "/site/docs/index.html");
    assert!(content.contains("<h1>docs</h1>"));
    assert!(content.contains("<ul><li><a href=\"a.html\">a</a></li></ul>"));
    assert!(content.ends_with("</div></body></html>"));
}

#[test]
fn config_new_uses_defaults_and_tree_menu() {
    let notes = FileSystemItem::FileEntry(md_file("/site/notes.md", false));
    let root = Directory::new("/site".to_string(), vec![notes]);
    let config = Config::new(&root);
    assert!(config.include_style);
    assert_eq!(config.style_path, "/style.css");
    assert!(config.include_script);
    assert_eq!(config.script_path, "/script.js");
    assert_eq!(config.site_name, "site");
    assert!(config.ignore.is_empty());
    assert!(config.menu.starts_with("<nav><ul></div><nav>"));
    assert!(config.menu.ends_with("</ul></nav>"));
    assert!(config.menu.contains("/notes.html"));
}

#[test]
fn plan_renders_markdown_and_synthesizes_indexes() {
    let a = FileSystemItem::FileEntry(md_file("/site/docs/a.md", false));
    let docs = Directory::new("/site/docs".to_string(), vec![a]);
    let root = Directory::new(
        "/site".to_string(),
        vec![FileSystemItem::DirEntry(docs)],
    );
    let plan = build_site(root);
    let paths: Vec<String> = plan.iter().map(action_path).collect();
    assert_eq!(
        paths,
        vec![
            "/site/index.html".to_string(),
            "/site/docs/index.html".to_string(),
            "/site/docs/a.md".to_string(),
        ]
    );
    match &plan[1] {
        BuildAction::WriteIndex { content, .. } => {
            // The listing links to the output computed for a.md even though
            // that output does not exist yet at generation time.
            assert!(content.contains("<li><a href=\"a.html\">a</a></li>"));
        }
        _ => panic!("expected an index write for the docs directory"),
    }
}

#[test]
fn plan_never_synthesizes_index_beside_index_md() {
    let idx = FileSystemItem::FileEntry(md_file("/site/index.md", false));
    let root = Directory::new("/site".to_string(), vec![idx]);
    let plan = build_site(root);
    for action in &plan {
        if let BuildAction::WriteIndex { path, .. } = action {
            assert_ne!(path, "/site/index.html");
        }
    }
    // The index.md file itself is still rendered.
    let paths: Vec<String> = plan.iter().map(action_path).collect();
    assert_eq!(paths, vec!["/site/index.md".to_string()]);
}

#[test]
fn plan_still_renders_markdown_under_hidden_directories() {
    let child = FileSystemItem::FileEntry(md_file("/site/.git/containing/child.md", false));
    let containing = Directory::new("/site/.git/containing".to_string(), vec![child]);
    let git = Directory::new(
        "/site/.git".to_string(),
        vec![FileSystemItem::DirEntry(containing)],
    );
    let root = Directory::new(
        "/site".to_string(),
        vec![FileSystemItem::DirEntry(git)],
    );
    let menu = {
        let config = Config::new(&root);
        config.menu
    };
    assert!(!menu.contains(".git"));
    assert!(!menu.contains("child"));
    let plan = build_site(root);
    let paths: Vec<String> = plan.iter().map(action_path).collect();
    // No index is synthesized inside the hidden directory itself, but the
    // walk still descends: the visible directory below it gets its index and
    // the markdown file below it is rendered.
    assert!(paths.contains(&"/site/.git/containing/child.md".to_string()));
    assert!(paths.contains(&"/site/.git/containing/index.html".to_string()));
    assert!(!paths.contains(&"/site/.git/index.html".to_string()));
}

#[test]
fn plan_skips_index_for_ignored_directory_but_still_descends() {
    let child = FileSystemItem::FileEntry(md_file("/site/drafts/child.md", false));
    let drafts = Directory::new("/site/drafts".to_string(), vec![child]);
    let root = Directory::new(
        "/site".to_string(),
        vec![FileSystemItem::DirEntry(drafts)],
    );
    let mut config = bare_config();
    config.ignore = vec!["*drafts*".to_string()];
    let plan = build_item(FileSystemItem::DirEntry(root), &config);
    let paths: Vec<String> = plan.iter().map(action_path).collect();
    assert!(paths.contains(&"/site/index.html".to_string()));
    assert!(!paths.contains(&"/site/drafts/index.html".to_string()));
    assert!(paths.contains(&"/site/drafts/child.md".to_string()));
}

#[test]
fn plan_has_no_entry_for_non_markdown_files() {
    let tmp = FileSystemItem::FileEntry(File::new("/site/cache.tmp".to_string(), 0, false));
    let root = Directory::new("/site".to_string(), vec![tmp]);
    let mut config = bare_config();
    config.ignore = vec!["*.tmp".to_string()];
    let menu = {
        let rebuilt = Directory::new("/site".to_string(), vec![
            FileSystemItem::FileEntry(File::new("/site/cache.tmp".to_string(), 0, false)),
        ]);
        rebuilt.generate_html_menu(&config.ignore)
    };
    assert!(!menu.contains("cache.tmp"));
    let plan = build_item(FileSystemItem::DirEntry(root), &config);
    for action in &plan {
        assert!(!action_path(action).contains("cache.tmp"));
    }
}

#[test]
fn rebuild_is_not_byte_identical_once_outputs_exist() {
    // Flat listings consult the on-disk outputs seen at scan time, so a
    // second run over the same sources, after the first run has written
    // a.html, produces a different index page. That difference is expected
    // behaviour, not an error.
    let config = bare_config();
    let first = {
        let a = FileSystemItem::FileEntry(md_file("/site/docs/a.md", false));
        let docs = Directory::new("/site/docs".to_string(), vec![a]);
        build_default_index(&docs, &config)
    };
    let second = {
        let a = FileSystemItem::FileEntry(md_file("/site/docs/a.md", true));
        let docs = Directory::new("/site/docs".to_string(), vec![a]);
        build_default_index(&docs, &config)
    };
    assert_eq!(first.0, second.0);
    assert_ne!(first.1, second.1);
    assert!(first.1.contains("a.html"));
    assert!(!second.1.contains("a.html"));
}

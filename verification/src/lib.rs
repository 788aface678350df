//! grump: a static site generator library.
//!
//! A directory tree is modelled as [`file_tree::FileSystemItem`]: nested
//! directories and files with canonical paths, visibility flags and
//! extensions. From that tree the library derives navigation markup
//! (a sitewide nested menu and per-directory flat listings) and a build
//! plan: which `index.html` pages to synthesize and which markdown files
//! to render. Filesystem scanning and writing live outside the library;
//! callers hand in the scanned tree and carry out the planned writes.
//!
//! Every generated page shares one skeleton: doctype and charset, a title,
//! an optional stylesheet link and script tag, and a body whose main
//! division opens with the sitewide menu. The menu is always inserted by
//! concatenation at that fixed position.
pub mod file_tree;
pub mod globs;
pub mod markdown;
pub mod text;

use vstd::prelude::*;

use crate::file_tree::{base_name_of, dir_wf, file_wf, item_wf, items_wf, lemma_items_wf_index,
    lemma_name_longer_than_extension, md_output_path, patterns_view, should_ignore, spec_base_name,
    spec_directory_menu, spec_html_menu, spec_ignored, spec_md_output, Directory, File,
    FileSystemItem};
use crate::markdown::{markdown_html, render_markdown};
use crate::text::str_eq;

verus! {

/// What the site builder is configured with: the page skeleton's optional
/// style and script references, the precomputed sitewide menu markup, the
/// ignore patterns and the site's display name.
pub struct Config {
    pub include_style: bool,
    pub style_path: String,
    pub include_script: bool,
    pub script_path: String,
    pub menu: String,
    pub ignore: Vec<String>,
    pub site_name: String,
}

/// The head of every generated page: doctype, charset, the site name as the
/// title, and the optional stylesheet link and script tag.
pub open spec fn spec_head(
    site_name: Seq<char>,
    include_style: bool,
    style: Seq<char>,
    include_script: bool,
    script: Seq<char>,
) -> Seq<char> {
    "<!-- grump --><!DOCTYPE html><html><head><meta charset='utf-8'>"@ + "<title>"@ + site_name
        + "</title>"@ + (if include_style {
        " <link rel=\"stylesheet\" type=\"text/css\" href=\""@ + style + "\">"@
    } else {
        Seq::empty()
    }) + (if include_script {
        "<script type = \"text/javascript\" src = \""@ + script + "\" ></script>"@
    } else {
        Seq::empty()
    }) + "</head>"@
}

/// The head of a page generated under `config`.
pub open spec fn spec_config_head(c: Config) -> Seq<char> {
    spec_head(c.site_name@, c.include_style, c.style_path@, c.include_script, c.script_path@)
}

/// Everything that precedes a page's own content: the head, the opening of
/// the body's main division, and the sitewide menu, inserted here by
/// concatenation on every page.
pub open spec fn spec_page_prefix(c: Config) -> Seq<char> {
    spec_config_head(c) + "<body><div class=\"main\">"@ + c.menu@
}

/// A rendered markdown page: the shared prefix, the rendered fragment, and
/// the closing of the skeleton.
pub open spec fn spec_md_page(prefix: Seq<char>, input: Seq<char>) -> Seq<char> {
    prefix + markdown_html(input) + "</div></body></html>"@
}

/// A synthesized default index page: the shared prefix, the directory's name
/// as a heading, its flat listing, and the closing of the skeleton.
pub open spec fn spec_index_page(d: Directory, prefix: Seq<char>) -> Seq<char> {
    prefix + "<h1>"@ + d.name@ + "</h1>"@ + spec_directory_menu(d) + "</div></body></html>"@
}

/// The shared page prefix, built from the configuration.
fn page_prefix(config: &Config) -> (r: String)
    ensures
        r@ == spec_page_prefix(*config),
{
    let mut out = "<!-- grump --><!DOCTYPE html><html><head><meta charset='utf-8'>".to_owned();
    out.append("<title>");
    out.append(config.site_name.as_str());
    out.append("</title>");
    if config.include_style {
        out.append(" <link rel=\"stylesheet\" type=\"text/css\" href=\"");
        out.append(config.style_path.as_str());
        out.append("\">");
    }
    if config.include_script {
        out.append("<script type = \"text/javascript\" src = \"");
        out.append(config.script_path.as_str());
        out.append("\" ></script>");
    }
    out.append("</head>");
    out.append("<body><div class=\"main\">");
    out.append(config.menu.as_str());
    proof {
        assert(out@ =~= spec_page_prefix(*config));
    }
    out
}

/// Render one markdown file into a full page. Returns the output path (the
/// file's path with its `md` extension rewritten to `html`) and the page:
/// the shared skeleton around the rendered fragment.
pub fn process_markdown_file(file: File, config: &Config, input: &str) -> (r: (String, String))
    requires
        file_wf(&file),
        file.extension@ == "md"@,
    ensures
        r.0@ == spec_md_output(file.path@),
        r.1@ == spec_md_page(spec_page_prefix(*config), input@),
{
    proof {
        reveal_strlit("md");
        lemma_name_longer_than_extension(&file);
    }
    let output_path = md_output_path(file.path.as_str());
    let mut out = page_prefix(config);
    let rendered = render_markdown(input);
    out.append(rendered.as_str());
    out.append("</div></body></html>");
    (output_path, out)
}

/// Compose the default index page of a directory. Returns the page's path
/// (`index.html` inside the directory) and its content: the shared skeleton
/// around a heading and the directory's flat listing.
pub fn build_default_index(item: &Directory, config: &Config) -> (r: (String, String))
    requires
        dir_wf(item),
    ensures
        r.0@ == item.path@ + "/index.html"@,
        r.1@ == spec_index_page(*item, spec_page_prefix(*config)),
{
    let mut out = page_prefix(config);
    out.append("<h1>");
    out.append(item.name.as_str());
    out.append("</h1>");
    let listing = item.generate_directory_menu();
    out.append(listing.as_str());
    out.append("</div></body></html>");
    let mut path = item.path.clone();
    path.append("/index.html");
    (path, out)
}

/// One step of a build: write a synthesized index page, or render one
/// markdown file (the caller reads the file, renders it through
/// [`process_markdown_file`] and writes the result).
pub enum BuildAction {
    WriteIndex { path: String, content: String },
    RenderMarkdown { file: File },
}

/// The mathematical shape of a build step.
pub enum ActionView {
    WriteIndex { path: Seq<char>, content: Seq<char> },
    RenderMarkdown { file: File },
}

impl View for BuildAction {
    type V = ActionView;

    open spec fn view(&self) -> ActionView {
        match self {
            BuildAction::WriteIndex { path, content } => ActionView::WriteIndex {
                path: path@,
                content: content@,
            },
            BuildAction::RenderMarkdown { file } => ActionView::RenderMarkdown { file: *file },
        }
    }
}

/// The views of a list of build steps.
pub open spec fn plan_view(plan: Seq<BuildAction>) -> Seq<ActionView> {
    plan.map_values(|a: BuildAction| a@)
}

/// Whether an item is a visible file named `index.md`.
pub open spec fn spec_is_index_md(item: FileSystemItem) -> bool {
    match item {
        FileSystemItem::FileEntry(f) => !f.hidden && f.name@ == "index.md"@,
        FileSystemItem::DirEntry(_) => false,
    }
}

/// Whether a directory brings its own index: a visible `index.md` among its
/// children.
pub open spec fn spec_has_index_md(items: Seq<FileSystemItem>) -> bool {
    exists|i: int| 0 <= i < items.len() && spec_is_index_md(items[i])
}

/// Whether a default index page is synthesized for a directory: only when it
/// is neither hidden nor ignore-matched and has no `index.md` of its own.
pub open spec fn spec_wants_index(d: Directory, ignore: Seq<Seq<char>>) -> bool {
    !d.hidden && !spec_ignored(d.path@, ignore) && !spec_has_index_md(d.children@)
}

/// The build plan of a tree, in depth-first order, each directory before its
/// children:
/// - a markdown file becomes a render step; any other file contributes
///   nothing;
/// - a directory that wants a default index contributes a write step for
///   `index.html` inside it, and then, in every case, the plans of all of
///   its children. Hidden or ignored status suppresses index synthesis, not
///   traversal: markdown files under a hidden or ignored directory are still
///   rendered.
pub open spec fn spec_plan(item: FileSystemItem, ignore: Seq<Seq<char>>, prefix: Seq<char>) -> Seq<
    ActionView,
>
    decreases item,
{
    match item {
        FileSystemItem::FileEntry(f) => {
            if f.extension@ == "md"@ {
                seq![ActionView::RenderMarkdown { file: f }]
            } else {
                Seq::empty()
            }
        },
        FileSystemItem::DirEntry(d) => {
            let rest = spec_plan_children(d.children@, ignore, prefix);
            if spec_wants_index(d, ignore) {
                seq![
                    ActionView::WriteIndex {
                        path: d.path@ + "/index.html"@,
                        content: spec_index_page(d, prefix),
                    },
                ] + rest
            } else {
                rest
            }
        },
    }
}

/// The concatenated build plans of a sequence of nodes, in order.
pub open spec fn spec_plan_children(
    items: Seq<FileSystemItem>,
    ignore: Seq<Seq<char>>,
    prefix: Seq<char>,
) -> Seq<ActionView>
    decreases items,
{
    if items.len() == 0 {
        Seq::empty()
    } else {
        spec_plan_children(items.drop_last(), ignore, prefix) + spec_plan(
            items.last(),
            ignore,
            prefix,
        )
    }
}

/// Whether the children contain a visible file named `index.md`.
fn has_index_md(children: &Vec<FileSystemItem>) -> (r: bool)
    ensures
        r == spec_has_index_md(children@),
{
    let mut i: usize = 0;
    while i < children.len()
        invariant
            i <= children@.len(),
            forall|j: int| 0 <= j < i ==> !spec_is_index_md(children@[j]),
        decreases children@.len() - i,
    {
        match &children[i] {
            FileSystemItem::FileEntry(f) => {
                if !f.hidden && str_eq(f.name.as_str(), "index.md") {
                    assert(spec_is_index_md(children@[i as int]));
                    return true;
                }
            },
            FileSystemItem::DirEntry(_) => (),
        }
        i = i + 1;
    }
    false
}

/// Process one node of the tree: plan a default index for a directory that
/// wants one, then the plans of all of its children; plan a render for a
/// markdown file. The node is consumed; the tree is walked exactly once.
pub fn build_item(root: FileSystemItem, config: &Config) -> (plan: Vec<BuildAction>)
    requires
        item_wf(&root),
    ensures
        plan_view(plan@) == spec_plan(root, patterns_view(config.ignore@), spec_page_prefix(
            *config,
        )),
    decreases root,
{
    let ghost root0 = root;
    let ghost ign = patterns_view(config.ignore@);
    let ghost pfx = spec_page_prefix(*config);
    match root {
        FileSystemItem::FileEntry(f) => {
            let mut plan: Vec<BuildAction> = Vec::new();
            if str_eq(f.extension.as_str(), "md") {
                let ghost fv = f;
                plan.push(BuildAction::RenderMarkdown { file: f });
                proof {
                    assert(plan_view(plan@) =~= seq![ActionView::RenderMarkdown { file: fv }]);
                }
            } else {
                proof {
                    assert(plan_view(plan@) =~= Seq::<ActionView>::empty());
                }
            }
            plan
        },
        FileSystemItem::DirEntry(d) => {
            let mut plan: Vec<BuildAction> = Vec::new();
            if !d.hidden && !should_ignore(d.path.as_str(), &config.ignore) && !has_index_md(
                &d.children,
            ) {
                let (path, content) = build_default_index(&d, config);
                let ghost pv = path@;
                let ghost cv = content@;
                plan.push(BuildAction::WriteIndex { path, content });
                proof {
                    assert(plan_view(plan@) =~= seq![
                        ActionView::WriteIndex { path: pv, content: cv },
                    ]);
                }
            } else {
                proof {
                    assert(plan_view(plan@) =~= Seq::<ActionView>::empty());
                }
            }
            let ghost d0 = d;
            let ghost idx_part = plan_view(plan@);
            let mut children = d.children;
            let ghost cs = children@;
            #[verifier::loop_isolation(false)]
            while children.len() > 0
                invariant
                    children@.len() <= cs.len(),
                    children@ == cs.skip(cs.len() - children@.len()),
                    plan_view(plan@) == idx_part + spec_plan_children(
                        cs.take(cs.len() - children@.len()),
                        ign,
                        pfx,
                    ),
                decreases children@.len(),
            {
                let ghost done = cs.len() - children@.len();
                let child = children.remove(0);
                proof {
                    assert(child == cs[done]);
                    assert(children@ =~= cs.skip(done + 1));
                    lemma_items_wf_index(cs, done);
                    assert(decreases_to!(root0 => child));
                }
                let mut sub = build_item(child, config);
                proof {
                    assert(plan_view(plan@ + sub@) =~= plan_view(plan@) + plan_view(sub@));
                }
                plan.append(&mut sub);
                proof {
                    assert(cs.take(done + 1).drop_last() =~= cs.take(done));
                    assert(cs.take(done + 1).last() == cs[done]);
                }
            }
            proof {
                assert(cs.take(cs.len() as int) =~= cs);
            }
            plan
        },
    }
}

impl Config {
    /// The configuration of a bare build: default style and script
    /// references, no ignore patterns, the site named after the target
    /// directory, and the sitewide menu generated from the target tree.
    pub fn new(target: &Directory) -> (c: Config)
        requires
            dir_wf(target),
        ensures
            c.include_style,
            c.style_path@ == "/style.css"@,
            c.include_script,
            c.script_path@ == "/script.js"@,
            c.ignore@ == Seq::<String>::empty(),
            c.site_name@ == spec_base_name(target.path@),
            c.menu@ == "<nav><ul>"@ + spec_html_menu(*target, Seq::empty()) + "</ul></nav>"@,
    {
        let none: Vec<String> = Vec::new();
        let inner = target.generate_html_menu(&none);
        proof {
            assert(patterns_view(none@) =~= Seq::<Seq<char>>::empty());
        }
        let mut menu = "<nav><ul>".to_owned();
        menu.append(inner.as_str());
        menu.append("</ul></nav>");
        let site_name = base_name_of(target.path.as_str());
        Config {
            include_style: true,
            style_path: "/style.css".to_owned(),
            include_script: true,
            script_path: "/script.js".to_owned(),
            menu,
            ignore: Vec::new(),
            site_name,
        }
    }
}

/// The page prefix of a bare build of `d`: the default head, the opening of
/// the main division, and the sitewide menu generated from `d`.
pub open spec fn spec_default_prefix(d: Directory) -> Seq<char> {
    spec_head(spec_base_name(d.path@), true, "/style.css"@, true, "/script.js"@)
        + "<body><div class=\"main\">"@ + ("<nav><ul>"@ + spec_html_menu(d, Seq::empty())
        + "</ul></nav>"@)
}

/// Build a whole site from its scanned tree under the bare configuration,
/// consuming the tree: the returned plan lists every write of the build, in
/// depth-first order.
pub fn build_site(root: Directory) -> (plan: Vec<BuildAction>)
    requires
        dir_wf(&root),
    ensures
        plan_view(plan@) == spec_plan(
            FileSystemItem::DirEntry(root),
            Seq::empty(),
            spec_default_prefix(root),
        ),
{
    let config = Config::new(&root);
    proof {
        assert(patterns_view(config.ignore@) =~= Seq::<Seq<char>>::empty());
        assert(spec_page_prefix(config) =~= spec_default_prefix(root));
    }
    build_item(FileSystemItem::DirEntry(root), &config)
}

/// A render step targets a well-formed markdown file; an index write needs
/// nothing of the file.
pub open spec fn spec_render_target_ok(a: ActionView) -> bool {
    match a {
        ActionView::RenderMarkdown { file } => file_wf(&file) && file.extension@ == "md"@,
        ActionView::WriteIndex { .. } => true,
    }
}

/// Every render step of the plan of a well-formed tree targets a well-formed
/// markdown file, so the caller that carries the plan out always satisfies
/// what [`process_markdown_file`] requires.
pub proof fn lemma_plan_renders_only_markdown(
    item: FileSystemItem,
    ignore: Seq<Seq<char>>,
    prefix: Seq<char>,
)
    requires
        item_wf(&item),
    ensures
        forall|i: int|
            0 <= i < spec_plan(item, ignore, prefix).len() ==> spec_render_target_ok(
                #[trigger] spec_plan(item, ignore, prefix)[i],
            ),
    decreases item,
{
    let plan = spec_plan(item, ignore, prefix);
    match item {
        FileSystemItem::FileEntry(f) => {
            if f.extension@ == "md"@ {
                assert forall|i: int| 0 <= i < plan.len() implies spec_render_target_ok(
                    plan[i],
                ) by {
                    assert(plan[i] == ActionView::RenderMarkdown { file: f });
                }
            }
        },
        FileSystemItem::DirEntry(d) => {
            lemma_plan_children_renders_only_markdown(d.children@, ignore, prefix);
            let rest = spec_plan_children(d.children@, ignore, prefix);
            assert forall|i: int| 0 <= i < plan.len() implies spec_render_target_ok(plan[i]) by {
                if spec_wants_index(d, ignore) {
                    if i > 0 {
                        assert(plan[i] == rest[i - 1]);
                    }
                } else {
                    assert(plan[i] == rest[i]);
                }
            }
        },
    }
}

/// Every render step of the plans of a well-formed sequence of nodes targets
/// a well-formed markdown file.
pub proof fn lemma_plan_children_renders_only_markdown(
    items: Seq<FileSystemItem>,
    ignore: Seq<Seq<char>>,
    prefix: Seq<char>,
)
    requires
        items_wf(items),
    ensures
        forall|i: int|
            0 <= i < spec_plan_children(items, ignore, prefix).len() ==> spec_render_target_ok(
                #[trigger] spec_plan_children(items, ignore, prefix)[i],
            ),
    decreases items,
{
    if items.len() > 0 {
        lemma_plan_children_renders_only_markdown(items.drop_last(), ignore, prefix);
        lemma_plan_renders_only_markdown(items.last(), ignore, prefix);
        let left = spec_plan_children(items.drop_last(), ignore, prefix);
        let right = spec_plan(items.last(), ignore, prefix);
        let whole = spec_plan_children(items, ignore, prefix);
        assert forall|i: int| 0 <= i < whole.len() implies spec_render_target_ok(whole[i]) by {
            if i < left.len() {
                assert(whole[i] == left[i]);
            } else {
                assert(whole[i] == right[i - left.len()]);
            }
        }
    }
}

/// A directory that brings its own `index.md` never has a default index
/// synthesized: its plan is exactly the plans of its children.
pub proof fn lemma_index_md_suppresses_default_index(
    d: Directory,
    ignore: Seq<Seq<char>>,
    prefix: Seq<char>,
)
    requires
        spec_has_index_md(d.children@),
    ensures
        spec_plan(FileSystemItem::DirEntry(d), ignore, prefix) == spec_plan_children(
            d.children@,
            ignore,
            prefix,
        ),
{
}

/// Hidden or ignored status suppresses index synthesis only, never
/// traversal: the plan of a hidden or ignore-matched directory is exactly
/// the plans of its children, so markdown files beneath it are still
/// rendered.
pub proof fn lemma_traversal_is_unconditional(
    d: Directory,
    ignore: Seq<Seq<char>>,
    prefix: Seq<char>,
)
    requires
        d.hidden || spec_ignored(d.path@, ignore),
    ensures
        spec_plan(FileSystemItem::DirEntry(d), ignore, prefix) == spec_plan_children(
            d.children@,
            ignore,
            prefix,
        ),
{
}

} // verus!

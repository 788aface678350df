//! The content tree: directories and files with canonical paths, visibility
//! derived from leading-dot names, and the navigation markup derived from
//! the tree.
use vstd::prelude::*;

use crate::globs::{glob_match, glob_matches};
use crate::text::{find_last, head_to, last_index_of, lemma_last_index_of, starts_with, str_eq,
    tail_from};

verus! {

/// The views of a list of glob pattern strings.
pub open spec fn patterns_view(ps: Seq<String>) -> Seq<Seq<char>> {
    ps.map_values(|p: String| p@)
}

/// A path is ignored when any of the glob patterns matches it.
pub open spec fn spec_ignored(path: Seq<char>, ignore: Seq<Seq<char>>) -> bool {
    exists|i: int| 0 <= i < ignore.len() && glob_match(ignore[i], path)
}

/// A filesystem entry is hidden when its raw name starts with a `.` and is
/// not the bare name `.` itself.
pub open spec fn spec_hidden(raw: Seq<char>) -> bool {
    raw.len() >= 2 && raw[0] == '.'
}

/// The display name of an entry: the raw name with the leading dot stripped
/// when the entry is hidden.
pub open spec fn spec_visible_name(raw: Seq<char>) -> Seq<char> {
    if spec_hidden(raw) {
        raw.skip(1)
    } else {
        raw
    }
}

/// The final segment of a path: everything after the last `/`, or `.` when
/// that segment is empty.
pub open spec fn spec_base_name(path: Seq<char>) -> Seq<char> {
    let seg = path.skip(last_index_of(path, '/') + 1);
    if seg.len() == 0 {
        seq!['.']
    } else {
        seg
    }
}

/// The extension of a raw entry name: the part after the last dot, empty
/// when there is no dot or the only dot is the leading one.
pub open spec fn spec_extension(raw: Seq<char>) -> Seq<char> {
    let j = last_index_of(raw, '.');
    if j >= 1 {
        raw.skip(j + 1)
    } else {
        Seq::empty()
    }
}

/// A file in the content tree.
///
/// `path` is the canonical absolute path of the file; `name`, `hidden` and
/// `extension` are derived from the path's final segment. `output_exists`
/// records whether a sibling output file (same path with the extension
/// rewritten to `html`) was present when the tree was scanned.
pub struct File {
    pub name: String,
    pub path: String,
    pub hidden: bool,
    pub extension: String,
    pub last_modified: u64,
    pub output_exists: bool,
}

/// A directory in the content tree. `children` holds the entries that were
/// successfully scanned, in enumeration order; nothing guarantees a sorted
/// order.
pub struct Directory {
    pub name: String,
    pub path: String,
    pub children: Vec<FileSystemItem>,
    pub hidden: bool,
}

/// A node of the content tree: either a directory or a file.
pub enum FileSystemItem {
    DirEntry(Directory),
    FileEntry(File),
}

/// The derived fields of a file agree with its path.
pub open spec fn file_wf(f: &File) -> bool {
    let raw = spec_base_name(f.path@);
    &&& f.hidden == spec_hidden(raw)
    &&& f.name@ == spec_visible_name(raw)
    &&& f.extension@ == spec_extension(raw)
}

/// The derived fields of a directory agree with its path, and all of its
/// descendants are well formed.
pub open spec fn dir_wf(d: &Directory) -> bool
    decreases d,
{
    let raw = spec_base_name(d.path@);
    &&& d.hidden == spec_hidden(raw)
    &&& d.name@ == spec_visible_name(raw)
    &&& items_wf(d.children@)
}

/// All items of a sequence are well formed.
pub open spec fn items_wf(items: Seq<FileSystemItem>) -> bool
    decreases items,
{
    items.len() == 0 || (items_wf(items.drop_last()) && item_wf(&items.last()))
}

/// A tree node is well formed.
pub open spec fn item_wf(item: &FileSystemItem) -> bool
    decreases item,
{
    match item {
        FileSystemItem::DirEntry(d) => dir_wf(d),
        FileSystemItem::FileEntry(f) => file_wf(f),
    }
}

/// Every element of a well-formed sequence of items is well formed.
pub proof fn lemma_items_wf_index(items: Seq<FileSystemItem>, i: int)
    requires
        items_wf(items),
        0 <= i < items.len(),
    ensures
        item_wf(&items[i]),
    decreases items.len(),
{
    if i == items.len() - 1 {
    } else {
        lemma_items_wf_index(items.drop_last(), i);
    }
}

/// The string minus its first character; empty when the string has fewer
/// than two characters.
pub fn without_first(string: &str) -> (r: String)
    ensures
        string@.len() == 0 ==> r@.len() == 0,
        string@.len() >= 1 ==> r@ == string@.skip(1),
{
    let n = string.unicode_len();
    if n == 0 {
        String::new()
    } else {
        tail_from(string, 1)
    }
}

/// The final segment of a path, or `.` when that segment is empty.
pub fn base_name_of(path: &str) -> (r: String)
    ensures
        r@ == spec_base_name(path@),
{
    let _len = path.unicode_len();
    let seg = match find_last(path, '/') {
        Some(i) => tail_from(path, i + 1),
        None => path.to_owned(),
    };
    proof {
        lemma_last_index_of(path@, '/');
    }
    if seg.unicode_len() == 0 {
        let dot = ".".to_owned();
        proof {
            reveal_strlit(".");
            assert(dot@ =~= seq!['.']);
        }
        dot
    } else {
        seg
    }
}

/// The extension of a raw entry name.
pub fn extension_of(raw: &str) -> (r: String)
    ensures
        r@ == spec_extension(raw@),
{
    let len = raw.unicode_len();
    match find_last(raw, '.') {
        Some(i) => {
            if i >= 1 && i < len {
                tail_from(raw, i + 1)
            } else {
                String::new()
            }
        },
        None => String::new(),
    }
}

/// Whether any of the glob patterns matches the path.
pub fn should_ignore(path: &str, ignore: &Vec<String>) -> (r: bool)
    ensures
        r == spec_ignored(path@, patterns_view(ignore@)),
{
    let mut i: usize = 0;
    while i < ignore.len()
        invariant
            i <= ignore@.len(),
            forall|j: int| 0 <= j < i ==> !glob_match(ignore@[j]@, path@),
        decreases ignore@.len() - i,
    {
        if glob_matches(ignore[i].as_str(), path) {
            assert(glob_match(patterns_view(ignore@)[i as int], path@));
            return true;
        }
        i = i + 1;
    }
    assert(forall|j: int| 0 <= j < ignore@.len() ==> patterns_view(ignore@)[j] == ignore@[j]@);
    false
}

/// The path of a markdown file's rendered output: the final `md` replaced by
/// `html`. Meaningful for a path whose final segment ends in `.md`.
pub open spec fn spec_md_output(path: Seq<char>) -> Seq<char> {
    path.take(path.len() - 2) + "html"@
}

/// The rendered-output path of a markdown file.
pub fn md_output_path(path: &str) -> (r: String)
    requires
        path@.len() >= 2,
    ensures
        r@ == spec_md_output(path@),
{
    let n = path.unicode_len();
    let stem = head_to(path, n - 2);
    stem.concat("html")
}

/// The path made relative to `root`: the characters after `root` and its
/// trailing separator when `path` lies under `root`, and empty otherwise
/// (the caller then falls back to a root link).
pub open spec fn spec_rel(path: Seq<char>, root: Seq<char>) -> Seq<char> {
    if path.len() > root.len() && path.take(root.len() as int) == root {
        if root.len() > 0 && root.last() == '/' {
            path.skip(root.len() as int)
        } else if path[root.len() as int] == '/' {
            path.skip(root.len() as int + 1)
        } else {
            Seq::empty()
        }
    } else {
        Seq::empty()
    }
}

/// A root-relative link: `/` followed by the path made relative to `root`.
pub fn rel_link(path: &str, root: &str) -> (r: String)
    ensures
        r@ == seq!['/'] + spec_rel(path@, root@),
{
    let rest = rel_link_bare(path, root);
    let mut out = "/".to_owned();
    proof {
        reveal_strlit("/");
        assert(out@ =~= seq!['/']);
    }
    out.append(rest.as_str());
    out
}

/// The display name of a file: its name with the `.extension` suffix
/// removed.
pub open spec fn spec_stem(f: File) -> Seq<char> {
    f.name@.take(f.name@.len() - f.extension@.len() - 1)
}

/// In a well-formed file with an extension, the name is longer than the
/// extension, so the display name drops the extension and the dot before it.
pub proof fn lemma_name_longer_than_extension(f: &File)
    requires
        file_wf(f),
        f.extension@.len() > 0,
    ensures
        f.name@.len() > f.extension@.len(),
        f.path@.len() > f.extension@.len() + 1,
{
    let raw = spec_base_name(f.path@);
    let j = last_index_of(raw, '.');
    lemma_last_index_of(raw, '.');
    let i = last_index_of(f.path@, '/');
    lemma_last_index_of(f.path@, '/');
}

/// The display name of a file, its name minus the extension suffix.
pub fn stem_of(f: &File) -> (r: String)
    requires
        file_wf(f),
        f.extension@.len() > 0,
    ensures
        r@ == spec_stem(*f),
{
    proof {
        lemma_name_longer_than_extension(f);
    }
    let n = f.name.as_str().unicode_len();
    let e = f.extension.as_str().unicode_len();
    head_to(f.name.as_str(), n - e - 1)
}

impl File {
    /// Build a file entry from its canonical path: the name, hidden flag and
    /// extension are derived from the path's final segment.
    pub fn new(path: String, last_modified: u64, output_exists: bool) -> (f: File)
        ensures
            file_wf(&f),
            f.path == path,
            f.last_modified == last_modified,
            f.output_exists == output_exists,
    {
        let raw = base_name_of(path.as_str());
        let hidden = raw.as_str().unicode_len() >= 2 && raw.as_str().get_char(0) == '.';
        let name = if hidden {
            without_first(raw.as_str())
        } else {
            raw.clone()
        };
        let extension = extension_of(raw.as_str());
        File { name, path, hidden, extension, last_modified, output_exists }
    }
}

/// A sitewide-menu entry for a file: a list item with a root-relative link
/// and the file's display name.
pub open spec fn spec_file_entry(link: Seq<char>, name: Seq<char>) -> Seq<char> {
    "<li class=\"file\"><a href=\""@ + link + "\">"@ + name + "</a></li>"@
}

/// A sitewide-menu entry for a directory: a list item with a root-relative
/// link, the directory's display name, and the nested menu of its children.
pub open spec fn spec_dir_entry(link: Seq<char>, name: Seq<char>, inner: Seq<char>) -> Seq<char> {
    "<li class=\"dir\"><a href=\""@ + link + "\">"@ + name + "</a><ul>"@ + inner + "</ul></li>"@
}

/// The string of an optional menu entry; an absent entry contributes
/// nothing.
pub open spec fn opt_str(o: Option<Seq<char>>) -> Seq<char> {
    match o {
        Some(s) => s,
        None => Seq::empty(),
    }
}

/// The sitewide-menu entry of a tree node, or `None` when the node is
/// excluded:
/// - a markdown file is listed, under its future `html` output link, only
///   while that output does not yet exist and the output path is not
///   ignore-matched;
/// - an `html` file is listed unless it is hidden, ignore-matched or named
///   `index.html`;
/// - any other file is excluded;
/// - a directory is listed with the menu of its children nested inside it,
///   unless it is hidden or ignore-matched, in which case its whole subtree
///   is pruned.
pub open spec fn spec_submenu(item: FileSystemItem, ignore: Seq<Seq<char>>, root: Seq<char>) -> Option<
    Seq<char>,
>
    decreases item,
{
    match item {
        FileSystemItem::FileEntry(f) => {
            if f.extension@ == "md"@ {
                let site = spec_md_output(f.path@);
                if !f.output_exists && !spec_ignored(site, ignore) {
                    Some(spec_file_entry(seq!['/'] + spec_rel(site, root), spec_stem(f)))
                } else {
                    None
                }
            } else if !f.hidden && !spec_ignored(f.path@, ignore) && f.name@ != "index.html"@
                && f.extension@ == "html"@ {
                Some(spec_file_entry(seq!['/'] + spec_rel(f.path@, root), spec_stem(f)))
            } else {
                None
            }
        },
        FileSystemItem::DirEntry(d) => {
            if !d.hidden && !spec_ignored(d.path@, ignore) {
                Some(
                    spec_dir_entry(
                        seq!['/'] + spec_rel(d.path@, root),
                        d.name@,
                        spec_children_menu(d.children@, ignore, root),
                    ),
                )
            } else {
                None
            }
        },
    }
}

/// The concatenated sitewide-menu entries of a sequence of nodes, in order.
pub open spec fn spec_children_menu(
    items: Seq<FileSystemItem>,
    ignore: Seq<Seq<char>>,
    root: Seq<char>,
) -> Seq<char>
    decreases items,
{
    if items.len() == 0 {
        Seq::empty()
    } else {
        spec_children_menu(items.drop_last(), ignore, root) + opt_str(
            spec_submenu(items.last(), ignore, root),
        )
    }
}

/// The sitewide nested menu derived from a directory: a home link followed
/// by the nested entries of the tree, phrased so that it can be spliced into
/// a page's main content division.
pub open spec fn spec_html_menu(d: Directory, ignore: Seq<Seq<char>>) -> Seq<char> {
    "</div><nav><div><a href=\"/\">Home</a></div><ul>"@ + spec_children_menu(
        d.children@,
        ignore,
        d.path@,
    ) + "</ul></nav><div class=\"main\">"@
}

impl FileSystemItem {
    /// The sitewide-menu entry of this node, with links made relative to
    /// `root`; `None` when the node is excluded from the menu.
    pub fn generate_submenu(&self, ignore: &Vec<String>, root: &str) -> (r: Option<String>)
        requires
            item_wf(self),
        ensures
            match r {
                Some(x) => spec_submenu(*self, patterns_view(ignore@), root@) == Some(x@),
                None => spec_submenu(*self, patterns_view(ignore@), root@) is None,
            },
        decreases *self,
    {
        match self {
            FileSystemItem::FileEntry(x) => {
                if str_eq(x.extension.as_str(), "md") {
                    proof {
                        reveal_strlit("md");
                        lemma_name_longer_than_extension(x);
                    }
                    let possible_site = md_output_path(x.path.as_str());
                    if !x.output_exists && !should_ignore(possible_site.as_str(), ignore) {
                        let name = stem_of(x);
                        let link = rel_link(possible_site.as_str(), root);
                        let mut out = "<li class=\"file\"><a href=\"".to_owned();
                        out.append(link.as_str());
                        out.append("\">");
                        out.append(name.as_str());
                        out.append("</a></li>");
                        proof {
                            assert(out@ =~= spec_file_entry(link@, name@));
                        }
                        Some(out)
                    } else {
                        None
                    }
                } else if !x.hidden && !should_ignore(x.path.as_str(), ignore) && !str_eq(
                    x.name.as_str(),
                    "index.html",
                ) && str_eq(x.extension.as_str(), "html") {
                    proof {
                        reveal_strlit("html");
                        lemma_name_longer_than_extension(x);
                    }
                    let name = stem_of(x);
                    let link = rel_link(x.path.as_str(), root);
                    let mut out = "<li class=\"file\"><a href=\"".to_owned();
                    out.append(link.as_str());
                    out.append("\">");
                    out.append(name.as_str());
                    out.append("</a></li>");
                    proof {
                        assert(out@ =~= spec_file_entry(link@, name@));
                    }
                    Some(out)
                } else {
                    None
                }
            },
            FileSystemItem::DirEntry(x) => {
                if !x.hidden && !should_ignore(x.path.as_str(), ignore) {
                    let link = rel_link(x.path.as_str(), root);
                    let mut out = "<li class=\"dir\"><a href=\"".to_owned();
                    out.append(link.as_str());
                    out.append("\">");
                    out.append(x.name.as_str());
                    out.append("</a><ul>");
                    let ghost head = out@;
                    let mut i: usize = 0;
                    #[verifier::loop_isolation(false)]
                    while i < x.children.len()
                        invariant
                            i <= x.children@.len(),
                            out@ == head + spec_children_menu(
                                x.children@.take(i as int),
                                patterns_view(ignore@),
                                root@,
                            ),
                        decreases x.children@.len() - i,
                    {
                        proof {
                            lemma_items_wf_index(x.children@, i as int);
                        }
                        let child = &x.children[i];
                        proof {
                            assert(decreases_to!(*self => *child));
                        }
                        match child.generate_submenu(ignore, root) {
                            Some(s) => out.append(s.as_str()),
                            None => (),
                        }
                        proof {
                            assert(x.children@.take(i + 1).drop_last() =~= x.children@.take(
                                i as int,
                            ));
                            assert(x.children@.take(i + 1).last() == x.children@[i as int]);
                        }
                        i = i + 1;
                    }
                    proof {
                        assert(x.children@.take(x.children@.len() as int) =~= x.children@);
                    }
                    out.append("</ul></li>");
                    proof {
                        assert(out@ =~= spec_dir_entry(
                            link@,
                            x.name@,
                            spec_children_menu(x.children@, patterns_view(ignore@), root@),
                        ));
                    }
                    Some(out)
                } else {
                    None
                }
            },
        }
    }
}

impl Directory {
    /// Build a directory entry from its canonical path and its scanned
    /// children: the name and hidden flag are derived from the path's final
    /// segment.
    pub fn new(path: String, children: Vec<FileSystemItem>) -> (d: Directory)
        requires
            items_wf(children@),
        ensures
            dir_wf(&d),
            d.path == path,
            d.children == children,
    {
        let raw = base_name_of(path.as_str());
        let hidden = raw.as_str().unicode_len() >= 2 && raw.as_str().get_char(0) == '.';
        let name = if hidden {
            without_first(raw.as_str())
        } else {
            raw.clone()
        };
        Directory { name, path, children, hidden }
    }

    /// The sitewide nested menu of the tree rooted at this directory, with
    /// links made relative to this directory's path.
    pub fn generate_html_menu(&self, ignore: &Vec<String>) -> (r: String)
        requires
            dir_wf(self),
        ensures
            r@ == spec_html_menu(*self, patterns_view(ignore@)),
    {
        let mut out = "</div><nav><div><a href=\"/\">Home</a></div><ul>".to_owned();
        let ghost head = out@;
        let mut i: usize = 0;
        #[verifier::loop_isolation(false)]
        while i < self.children.len()
            invariant
                i <= self.children@.len(),
                out@ == head + spec_children_menu(
                    self.children@.take(i as int),
                    patterns_view(ignore@),
                    self.path@,
                ),
            decreases self.children@.len() - i,
        {
            proof {
                lemma_items_wf_index(self.children@, i as int);
            }
            let child = &self.children[i];
            match child.generate_submenu(ignore, self.path.as_str()) {
                Some(s) => out.append(s.as_str()),
                None => (),
            }
            proof {
                assert(self.children@.take(i + 1).drop_last() =~= self.children@.take(i as int));
                assert(self.children@.take(i + 1).last() == self.children@[i as int]);
            }
            i = i + 1;
        }
        proof {
            assert(self.children@.take(self.children@.len() as int) =~= self.children@);
        }
        out.append("</ul></nav><div class=\"main\">");
        proof {
            assert(out@ =~= spec_html_menu(*self, patterns_view(ignore@)));
        }
        out
    }

    /// The single-level listing of this directory's children, used when a
    /// default index page is synthesized for it.
    pub fn generate_directory_menu(&self) -> (r: String)
        requires
            dir_wf(self),
        ensures
            r@ == spec_directory_menu(*self),
    {
        let mut out = "<ul>".to_owned();
        let ghost head = out@;
        let mut i: usize = 0;
        #[verifier::loop_isolation(false)]
        while i < self.children.len()
            invariant
                i <= self.children@.len(),
                out@ == head + spec_flat_children(self.children@.take(i as int), self.path@),
            decreases self.children@.len() - i,
        {
            proof {
                lemma_items_wf_index(self.children@, i as int);
            }
            let entry = flat_entry(&self.children[i], self.path.as_str());
            out.append(entry.as_str());
            proof {
                assert(self.children@.take(i + 1).drop_last() =~= self.children@.take(i as int));
                assert(self.children@.take(i + 1).last() == self.children@[i as int]);
            }
            i = i + 1;
        }
        proof {
            assert(self.children@.take(self.children@.len() as int) =~= self.children@);
        }
        out.append("</ul>");
        proof {
            assert(out@ =~= spec_directory_menu(*self));
        }
        out
    }
}

/// The flat-listing entry of one child node, with links made relative to the
/// listed directory's path:
/// - hidden entries and a file named `index.html` contribute nothing;
/// - a markdown file is listed under its future output path only while that
///   output does not yet exist;
/// - an `html` file is listed under its own path, without its extension;
/// - any other file is listed verbatim;
/// - a directory is listed by name, without recursing into it.
///
/// Unlike the sitewide menu, the flat listing never consults the ignore
/// patterns.
pub open spec fn spec_flat_entry(item: FileSystemItem, parent: Seq<char>) -> Seq<char> {
    match item {
        FileSystemItem::DirEntry(c) => {
            if !c.hidden {
                "<li><a href=\""@ + c.name@ + "\">"@ + spec_rel(c.path@, parent) + "</a></li>"@
            } else {
                Seq::empty()
            }
        },
        FileSystemItem::FileEntry(f) => {
            if f.hidden {
                Seq::empty()
            } else if f.name@ == "index.html"@ {
                Seq::empty()
            } else if f.extension@ == "md"@ {
                if !f.output_exists {
                    "<li><a href=\""@ + spec_rel(spec_md_output(f.path@), parent) + "\">"@
                        + spec_stem(f) + "</a></li>"@
                } else {
                    Seq::empty()
                }
            } else if f.extension@ == "html"@ {
                "<li><a href=\""@ + spec_rel(f.path@, parent) + "\">"@ + spec_stem(f)
                    + "</a></li>"@
            } else {
                "<li><a href=\""@ + spec_rel(f.path@, parent) + "\">"@ + f.name@ + "</a></li>"@
            }
        },
    }
}

/// The concatenated flat-listing entries of a sequence of nodes, in order.
pub open spec fn spec_flat_children(items: Seq<FileSystemItem>, parent: Seq<char>) -> Seq<char>
    decreases items,
{
    if items.len() == 0 {
        Seq::empty()
    } else {
        spec_flat_children(items.drop_last(), parent) + spec_flat_entry(items.last(), parent)
    }
}

/// The flat listing of a directory: one list with an entry per child.
pub open spec fn spec_directory_menu(d: Directory) -> Seq<char> {
    "<ul>"@ + spec_flat_children(d.children@, d.path@) + "</ul>"@
}

/// The flat-listing entry of one node.
fn flat_entry(item: &FileSystemItem, parent: &str) -> (r: String)
    requires
        item_wf(item),
    ensures
        r@ == spec_flat_entry(*item, parent@),
{
    match item {
        FileSystemItem::DirEntry(c) => {
            if !c.hidden {
                let rel = rel_link_bare(c.path.as_str(), parent);
                let mut out = "<li><a href=\"".to_owned();
                out.append(c.name.as_str());
                out.append("\">");
                out.append(rel.as_str());
                out.append("</a></li>");
                out
            } else {
                String::new()
            }
        },
        FileSystemItem::FileEntry(f) => {
            if f.hidden {
                String::new()
            } else if str_eq(f.name.as_str(), "index.html") {
                String::new()
            } else if str_eq(f.extension.as_str(), "md") {
                if !f.output_exists {
                    proof {
                        reveal_strlit("md");
                        lemma_name_longer_than_extension(f);
                    }
                    let site = md_output_path(f.path.as_str());
                    let rel = rel_link_bare(site.as_str(), parent);
                    let name = stem_of(f);
                    let mut out = "<li><a href=\"".to_owned();
                    out.append(rel.as_str());
                    out.append("\">");
                    out.append(name.as_str());
                    out.append("</a></li>");
                    out
                } else {
                    String::new()
                }
            } else if str_eq(f.extension.as_str(), "html") {
                proof {
                    reveal_strlit("html");
                    lemma_name_longer_than_extension(f);
                }
                let rel = rel_link_bare(f.path.as_str(), parent);
                let name = stem_of(f);
                let mut out = "<li><a href=\"".to_owned();
                out.append(rel.as_str());
                out.append("\">");
                out.append(name.as_str());
                out.append("</a></li>");
                out
            } else {
                let rel = rel_link_bare(f.path.as_str(), parent);
                let mut out = "<li><a href=\"".to_owned();
                out.append(rel.as_str());
                out.append("\">");
                out.append(f.name.as_str());
                out.append("</a></li>");
                out
            }
        },
    }
}

/// An entry is hidden exactly when its raw filesystem name (the final
/// segment of its path) begins with a `.` and is not the bare name `.`;
/// the entry's display name is then that raw name without its leading dot,
/// and otherwise the raw name unchanged.
pub proof fn lemma_hidden_iff_leading_dot(raw: Seq<char>)
    ensures
        spec_hidden(raw) <==> (raw.len() > 0 && raw[0] == '.' && raw != seq!['.']),
        spec_hidden(raw) ==> spec_visible_name(raw) == raw.skip(1),
        !spec_hidden(raw) ==> spec_visible_name(raw) == raw,
{
    if raw.len() == 1 && raw[0] == '.' {
        assert(raw =~= seq!['.']);
    }
    if raw.len() >= 2 && raw[0] == '.' {
        assert(raw.len() != seq!['.'].len());
    }
}

/// The hidden flag of a well-formed file obeys the leading-dot rule, stated
/// over the raw name taken from its path.
pub proof fn lemma_file_hidden_law(f: &File)
    requires
        file_wf(f),
    ensures
        f.hidden <==> {
            let raw = spec_base_name(f.path@);
            raw.len() > 0 && raw[0] == '.' && raw != seq!['.']
        },
{
    lemma_hidden_iff_leading_dot(spec_base_name(f.path@));
}

/// The hidden flag of a well-formed directory obeys the leading-dot rule,
/// stated over the raw name taken from its path.
pub proof fn lemma_dir_hidden_law(d: &Directory)
    requires
        dir_wf(d),
    ensures
        d.hidden <==> {
            let raw = spec_base_name(d.path@);
            raw.len() > 0 && raw[0] == '.' && raw != seq!['.']
        },
{
    lemma_hidden_iff_leading_dot(spec_base_name(d.path@));
}

/// An ignore-matched node contributes nothing to the sitewide menu. A
/// matched directory is pruned together with its whole subtree, whose nodes
/// are never visited; an `html` file is matched on its own path; a markdown
/// file is matched on its output path, the path its menu link would point
/// at.
pub proof fn lemma_ignored_pruned_from_menu(
    item: FileSystemItem,
    ignore: Seq<Seq<char>>,
    root: Seq<char>,
)
    requires
        match item {
            FileSystemItem::DirEntry(d) => spec_ignored(d.path@, ignore),
            FileSystemItem::FileEntry(f) => if f.extension@ == "md"@ {
                spec_ignored(spec_md_output(f.path@), ignore)
            } else {
                spec_ignored(f.path@, ignore)
            },
        },
    ensures
        spec_submenu(item, ignore, root) is None,
{
}

/// A markdown file whose output does not exist yet, and whose output path is
/// not ignore-matched, is listed in the sitewide menu: the link is the
/// root-relative output path (extension rewritten to `html`) and the display
/// text is the file's name without its three-character `.md` suffix.
pub proof fn lemma_md_file_menu_entry(f: File, ignore: Seq<Seq<char>>, root: Seq<char>)
    requires
        file_wf(&f),
        f.extension@ == "md"@,
        !f.output_exists,
        !spec_ignored(spec_md_output(f.path@), ignore),
    ensures
        spec_submenu(FileSystemItem::FileEntry(f), ignore, root) == Some(
            spec_file_entry(
                seq!['/'] + spec_rel(spec_md_output(f.path@), root),
                f.name@.take(f.name@.len() - 3),
            ),
        ),
{
    reveal_strlit("md");
    assert(f.extension@.len() == 2);
}

/// The path made relative to `root`, without a leading separator.
fn rel_link_bare(path: &str, root: &str) -> (r: String)
    ensures
        r@ == spec_rel(path@, root@),
{
    let pn = path.unicode_len();
    let rn = root.unicode_len();
    if pn > rn && starts_with(path, root) {
        if rn > 0 && root.get_char(rn - 1) == '/' {
            tail_from(path, rn)
        } else if path.get_char(rn) == '/' {
            tail_from(path, rn + 1)
        } else {
            String::new()
        }
    } else {
        String::new()
    }
}

} // verus!

//! A fixed, in-memory virtual filesystem: a flat table from absolute path
//! strings (root is `"~"`) to entries, with lexical path resolution, listing,
//! and tab completion.

use vstd::prelude::*;
use vstd::multiset::Multiset;
use vstd::seq_lib::*;
use vstd::string::*;

use crate::text::{concat_strs, seq_starts_with, str_eq, str_starts_with};

verus! {

/// An entry of the virtual filesystem.
pub enum FSEntry {
    File { content: String, size: usize, permissions: String },
    Directory { children: Vec<String> },
    Executable { description: String, size: usize },
}

/// The mathematical value of an [`FSEntry`].
pub ghost enum FSEntryV {
    File { content: Seq<char>, size: nat, permissions: Seq<char> },
    Directory { children: Seq<Seq<char>> },
    Executable { description: Seq<char>, size: nat },
}

impl View for FSEntry {
    type V = FSEntryV;

    open spec fn view(&self) -> FSEntryV {
        match self {
            FSEntry::File { content, size, permissions } => FSEntryV::File {
                content: content@,
                size: *size as nat,
                permissions: permissions@,
            },
            FSEntry::Directory { children } => FSEntryV::Directory {
                children: children@.map_values(|c: String| c@),
            },
            FSEntry::Executable { description, size } => FSEntryV::Executable {
                description: description@,
                size: *size as nat,
            },
        }
    }
}

fn clone_string_vec(v: &Vec<String>) -> (r: Vec<String>)
    ensures
        r@.map_values(|c: String| c@) == v@.map_values(|c: String| c@),
{
    let mut r: Vec<String> = Vec::new();
    let mut i: usize = 0;
    while i < v.len()
        invariant
            i <= v.len(),
            r@.len() == i,
            forall|j: int| 0 <= j < i ==> r@[j]@ == v@[j]@,
        decreases v.len() - i,
    {
        r.push(v[i].clone());
        i += 1;
    }
    proof {
        assert(r@.map_values(|c: String| c@) =~= v@.map_values(|c: String| c@));
    }
    r
}

impl Clone for FSEntry {
    /// A copy with the same mathematical value.
    fn clone(&self) -> (res: Self)
        ensures
            res@ == self@,
    {
        match self {
            FSEntry::File { content, size, permissions } => FSEntry::File {
                content: content.clone(),
                size: *size,
                permissions: permissions.clone(),
            },
            FSEntry::Directory { children } => FSEntry::Directory {
                children: clone_string_vec(children),
            },
            FSEntry::Executable { description, size } => FSEntry::Executable {
                description: description.clone(),
                size: *size,
            },
        }
    }
}

/// The finite map described by parallel sequences of keys and values, where a
/// later pair overrides an earlier one with the same key.
pub open spec fn assoc_map(ps: Seq<Seq<char>>, es: Seq<FSEntryV>) -> Map<Seq<char>, FSEntryV>
    decreases ps.len(),
{
    if ps.len() == 0 || es.len() == 0 {
        Map::empty()
    } else {
        assoc_map(ps.drop_last(), es.drop_last()).insert(ps.last(), es.last())
    }
}

/// Looking up a key that no pair at index `i` or beyond binds is the same in
/// the full map and in the map of the first `i` pairs.
proof fn lemma_assoc_map_skip(ps: Seq<Seq<char>>, es: Seq<FSEntryV>, k: Seq<char>, i: int)
    requires
        ps.len() == es.len(),
        0 <= i <= ps.len(),
        forall|j: int| i <= j < ps.len() ==> ps[j] != k,
    ensures
        assoc_map(ps, es).contains_key(k) == assoc_map(ps.take(i), es.take(i)).contains_key(k),
        assoc_map(ps, es).contains_key(k) ==> assoc_map(ps, es)[k] == assoc_map(
            ps.take(i),
            es.take(i),
        )[k],
    decreases ps.len() - i,
{
    if i == ps.len() {
        assert(ps.take(i) =~= ps);
        assert(es.take(i) =~= es);
    } else {
        assert(ps.last() != k);
        lemma_assoc_map_skip(ps.drop_last(), es.drop_last(), k, i);
        assert(ps.drop_last().take(i) =~= ps.take(i));
        assert(es.drop_last().take(i) =~= es.take(i));
    }
}

/// The virtual filesystem: an immutable-after-construction table from
/// absolute path strings to entries.
pub struct VirtualFS {
    paths: Vec<String>,
    entries: Vec<FSEntry>,
}

impl View for VirtualFS {
    type V = Map<Seq<char>, FSEntryV>;

    closed spec fn view(&self) -> Map<Seq<char>, FSEntryV> {
        assoc_map(
            self.paths@.map_values(|p: String| p@),
            self.entries@.map_values(|e: FSEntry| e@),
        )
    }
}

impl VirtualFS {
    /// The internal tables stay aligned.
    pub closed spec fn wf(&self) -> bool {
        self.paths@.len() == self.entries@.len()
    }

    fn empty() -> (r: Self)
        ensures
            r.wf(),
            r@ == Map::<Seq<char>, FSEntryV>::empty(),
    {
        let r = VirtualFS { paths: Vec::new(), entries: Vec::new() };
        proof {
            assert(r.paths@.map_values(|p: String| p@) =~= Seq::<Seq<char>>::empty());
        }
        r
    }

    fn put(&mut self, path: &str, entry: FSEntry)
        requires
            old(self).wf(),
        ensures
            final(self).wf(),
            final(self)@ == old(self)@.insert(path@, entry@),
    {
        let ghost ps0 = self.paths@.map_values(|p: String| p@);
        let ghost es0 = self.entries@.map_values(|e: FSEntry| e@);
        self.paths.push(path.to_owned());
        self.entries.push(entry);
        proof {
            let ps1 = self.paths@.map_values(|p: String| p@);
            let es1 = self.entries@.map_values(|e: FSEntry| e@);
            assert(ps1 =~= ps0.push(path@));
            assert(es1 =~= es0.push(self.entries@.last()@));
            assert(ps1.drop_last() =~= ps0);
            assert(es1.drop_last() =~= es0);
        }
    }

    /// Exact-key lookup; no normalization.
    pub fn get(&self, path: &str) -> (r: Option<&FSEntry>)
        requires
            self.wf(),
        ensures
            match r {
                Some(e) => self@.contains_key(path@) && e@ == self@[path@],
                None => !self@.contains_key(path@),
            },
    {
        let ghost ps = self.paths@.map_values(|p: String| p@);
        let ghost es = self.entries@.map_values(|e: FSEntry| e@);
        let mut i: usize = self.paths.len();
        while i > 0
            invariant
                self.wf(),
                i <= self.paths@.len(),
                ps == self.paths@.map_values(|p: String| p@),
                es == self.entries@.map_values(|e: FSEntry| e@),
                forall|j: int| i <= j < ps.len() ==> ps[j] != path@,
            decreases i,
        {
            i -= 1;
            if str_eq(self.paths[i].as_str(), path) {
                proof {
                    lemma_assoc_map_skip(ps, es, path@, i + 1);
                    assert(ps.take(i + 1).last() == path@);
                    assert(ps.take(i + 1).drop_last() =~= ps.take(i as int));
                    assert(es.take(i + 1).drop_last() =~= es.take(i as int));
                    assert(assoc_map(ps.take(i + 1), es.take(i + 1))[path@] == es[i as int]);
                }
                return Some(&self.entries[i]);
            }
        }
        proof {
            lemma_assoc_map_skip(ps, es, path@, 0);
            assert(ps.take(0) =~= Seq::<Seq<char>>::empty());
        }
        None
    }
}

/// Index of the last occurrence of `c` in `s`, or `-1` if there is none.
pub open spec fn last_char_at(s: Seq<char>, c: char) -> int
    decreases s.len(),
{
    if s.len() == 0 {
        -1
    } else if s.last() == c {
        s.len() - 1
    } else {
        last_char_at(s.drop_last(), c)
    }
}

/// Index of the last `'/'` in `s`, or `-1` if there is none.
pub open spec fn last_slash(s: Seq<char>) -> int {
    last_char_at(s, '/')
}

/// The parent of `cwd`, computed lexically: everything before the last `'/'`;
/// the root `"~"` (and any path without a `'/'`) maps to `"~"`.
pub open spec fn parent_dir(cwd: Seq<char>) -> Seq<char> {
    if cwd == seq!['~'] {
        seq!['~']
    } else if last_slash(cwd) >= 0 {
        cwd.take(last_slash(cwd))
    } else {
        seq!['~']
    }
}

/// Lexical path resolution: `"~"` and `"~/..."` stand as given; `"./x"` and
/// plain names are appended to `cwd`; `".."` is the parent of `cwd`; `"."` is
/// `cwd`. No segment collapsing or canonicalization is done.
pub open spec fn resolve_path_spec(path: Seq<char>, cwd: Seq<char>) -> Seq<char> {
    if seq_starts_with(path, seq!['~', '/']) || path == seq!['~'] {
        path
    } else if seq_starts_with(path, seq!['.', '/']) {
        cwd + seq!['/'] + path.skip(2)
    } else if path == seq!['.', '.'] {
        parent_dir(cwd)
    } else if path == seq!['.'] {
        cwd
    } else {
        cwd + seq!['/'] + path
    }
}

fn find_last_char(s: &str, c: char) -> (r: Option<usize>)
    ensures
        match r {
            Some(i) => last_char_at(s@, c) == i && i < s@.len(),
            None => last_char_at(s@, c) == -1,
        },
{
    let n = s.unicode_len();
    proof {
        assert(s@.take(n as int) =~= s@);
    }
    let mut j: usize = n;
    while j > 0
        invariant
            n == s@.len(),
            j <= n,
            last_char_at(s@, c) == last_char_at(s@.take(j as int), c),
        decreases j,
    {
        j -= 1;
        if s.get_char(j) == c {
            proof {
                assert(s@.take(j + 1).last() == s@[j as int]);
            }
            return Some(j);
        }
        proof {
            assert(s@.take(j + 1).drop_last() =~= s@.take(j as int));
        }
    }
    proof {
        assert(s@.take(0) =~= Seq::<char>::empty());
    }
    None
}

/// The lexical parent of `cwd` (see [`parent_dir`]).
pub fn parent_of(cwd: &str) -> (r: String)
    ensures
        r@ == parent_dir(cwd@),
{
    proof {
        reveal_strlit("~");
        assert("~"@ =~= seq!['~']);
    }
    if str_eq(cwd, "~") {
        return "~".to_owned();
    }
    match find_last_char(cwd, '/') {
        Some(i) => {
            let p = cwd.substring_char(0, i);
            proof {
                assert(cwd@.subrange(0, i as int) =~= cwd@.take(i as int));
            }
            p.to_owned()
        },
        None => "~".to_owned(),
    }
}

/// The absolute path `"<dir>/<name>"`.
pub open spec fn child_path_spec(dir: Seq<char>, name: Seq<char>) -> Seq<char> {
    dir + seq!['/'] + name
}

/// The children of a directory entry; an empty sequence for other entries.
pub open spec fn dir_children(e: FSEntryV) -> Seq<Seq<char>> {
    match e {
        FSEntryV::Directory { children } => children,
        _ => Seq::empty(),
    }
}

/// The visible listing of `children` under `dir`: pairs of name and entry, in
/// declared order, silently omitting names whose full path has no entry.
pub open spec fn listing_of(
    m: Map<Seq<char>, FSEntryV>,
    dir: Seq<char>,
    children: Seq<Seq<char>>,
) -> Seq<(Seq<char>, FSEntryV)>
    decreases children.len(),
{
    if children.len() == 0 {
        Seq::empty()
    } else {
        let rest = listing_of(m, dir, children.drop_last());
        let name = children.last();
        if m.contains_key(child_path_spec(dir, name)) {
            rest.push((name, m[child_path_spec(dir, name)]))
        } else {
            rest
        }
    }
}

/// What `list_dir` returns: `None` unless `path` names a directory.
pub open spec fn list_dir_spec(m: Map<Seq<char>, FSEntryV>, path: Seq<char>) -> Option<
    Seq<(Seq<char>, FSEntryV)>,
> {
    if m.contains_key(path) && m[path] is Directory {
        Some(listing_of(m, path, dir_children(m[path])))
    } else {
        None
    }
}

impl VirtualFS {
    /// Resolve a (possibly relative) path against `cwd`. Pure: the result
    /// depends on the two arguments alone, never on the filesystem contents.
    pub fn resolve_path(&self, path: &str, cwd: &str) -> (r: String)
        ensures
            r@ == resolve_path_spec(path@, cwd@),
    {
        proof {
            reveal_strlit("~");
            reveal_strlit("~/");
            reveal_strlit("./");
            reveal_strlit("..");
            reveal_strlit(".");
            reveal_strlit("/");
            assert("~"@ =~= seq!['~']);
            assert("~/"@ =~= seq!['~', '/']);
            assert("./"@ =~= seq!['.', '/']);
            assert(".."@ =~= seq!['.', '.']);
            assert("."@ =~= seq!['.']);
            assert("/"@ =~= seq!['/']);
        }
        if str_starts_with(path, "~/") || str_eq(path, "~") {
            path.to_owned()
        } else if str_starts_with(path, "./") {
            let n = path.unicode_len();
            let rest = path.substring_char(2, n);
            let a = concat_strs(cwd, "/");
            let r = a.concat(rest);
            proof {
                assert(path@.subrange(2, n as int) =~= path@.skip(2));
                assert((cwd@ + "/"@) + path@.skip(2) =~= cwd@ + seq!['/'] + path@.skip(2));
            }
            r
        } else if str_eq(path, "..") {
            parent_of(cwd)
        } else if str_eq(path, ".") {
            cwd.to_owned()
        } else {
            let a = concat_strs(cwd, "/");
            let r = a.concat(path);
            proof {
                assert((cwd@ + "/"@) + path@ =~= cwd@ + seq!['/'] + path@);
            }
            r
        }
    }

    /// List a directory: its children in declared order, each with its entry,
    /// children without a stored entry silently omitted; `None` if `path` is
    /// not a directory.
    pub fn list_dir(&self, path: &str) -> (r: Option<Vec<(String, FSEntry)>>)
        requires
            self.wf(),
        ensures
            match r {
                Some(v) => list_dir_spec(self@, path@) matches Some(l) && v@.map_values(
                    |pr: (String, FSEntry)| (pr.0@, pr.1@),
                ) == l,
                None => list_dir_spec(self@, path@) is None,
            },
    {
        proof {
            reveal_strlit("/");
            assert("/"@ =~= seq!['/']);
        }
        match self.get(path) {
            Some(FSEntry::Directory { children }) => {
                let ghost m = self@;
                let ghost cviews = children@.map_values(|c: String| c@);
                proof {
                    assert(dir_children(m[path@]) == cviews);
                }
                let mut result: Vec<(String, FSEntry)> = Vec::new();
                let ghost mut lv: Seq<(Seq<char>, FSEntryV)> = Seq::empty();
                let mut i: usize = 0;
                while i < children.len()
                    invariant
                        self.wf(),
                        m == self@,
                        i <= children@.len(),
                        cviews == children@.map_values(|c: String| c@),
                        lv == listing_of(m, path@, cviews.take(i as int)),
                        result@.len() == lv.len(),
                        forall|j: int|
                            0 <= j < lv.len() ==> result@[j].0@ == lv[j].0 && result@[j].1@
                                == lv[j].1,
                    decreases children.len() - i,
                {
                    let cp = concat_strs(path, "/").concat(children[i].as_str());
                    proof {
                        reveal_strlit("/");
                        assert("/"@ =~= seq!['/']);
                        assert(cviews[i as int] == children@[i as int]@);
                        assert((path@ + "/"@) + children@[i as int]@ =~= child_path_spec(
                            path@,
                            cviews[i as int],
                        ));
                        assert(cviews.take(i + 1).drop_last() =~= cviews.take(i as int));
                        assert(cviews.take(i + 1).last() == cviews[i as int]);
                    }
                    match self.get(cp.as_str()) {
                        Some(e) => {
                            let pair = (children[i].clone(), e.clone());
                            result.push(pair);
                            proof {
                                lv = lv.push((cviews[i as int], m[cp@]));
                            }
                        },
                        None => {},
                    }
                    i += 1;
                }
                proof {
                    assert(cviews.take(children@.len() as int) =~= cviews);
                    assert(result@.map_values(|pr: (String, FSEntry)| (pr.0@, pr.1@)) =~= lv);
                }
                Some(result)
            },
            Some(_) => None,
            None => None,
        }
    }
}

fn file_entry(content: &str, size: usize, permissions: &str) -> (e: FSEntry)
    ensures
        e@ == (FSEntryV::File { content: content@, size: size as nat, permissions: permissions@ }),
{
    FSEntry::File { content: content.to_owned(), size, permissions: permissions.to_owned() }
}

fn exec_entry(description: &str, size: usize) -> (e: FSEntry)
    ensures
        e@ == (FSEntryV::Executable { description: description@, size: size as nat }),
{
    FSEntry::Executable { description: description.to_owned(), size }
}

fn dir_entry_2(a: &str, b: &str) -> (e: FSEntry)
    ensures
        e@ == (FSEntryV::Directory { children: seq![a@, b@] }),
{
    let mut v: Vec<String> = Vec::new();
    v.push(a.to_owned());
    v.push(b.to_owned());
    proof {
        assert(v@.map_values(|c: String| c@) =~= seq![a@, b@]);
    }
    FSEntry::Directory { children: v }
}

/// The static tree the shell presents, as a mathematical map.
pub open spec fn root_fs() -> Map<Seq<char>, FSEntryV> {
    Map::empty().insert(
        "~"@,
        FSEntryV::Directory {
            children: seq![
                ".profile"@,
                ".secret"@,
                "README.md"@,
                "about"@,
                "dashboard"@,
                "resume"@,
                "contact"@,
                "blog"@,
                "downloads"@,
            ],
        },
    ).insert(
        "~/.profile"@,
        FSEntryV::File {
            content: "# Uchindami's Shell Profile\nexport EDITOR=nvim\nexport LANG=en_US.UTF-8\n"@,
            size: 220,
            permissions: "-rw-r--r--"@,
        },
    ).insert(
        "~/.secret"@,
        FSEntryV::File {
            content: "You found a secret! Here's a cookie: \u{1f36a}\n\nP.S. Try running 'hack' or 'sudo rm -rf /' \u{1f609}"@,
            size: 180,
            permissions: "-rw-------"@,
        },
    ).insert(
        "~/README.md"@,
        FSEntryV::File { content: README_TEXT@, size: 3200, permissions: "-rw-r--r--"@ },
    ).insert(
        "~/about"@,
        FSEntryV::Executable { description: "About me TUI"@, size: 42000 },
    ).insert(
        "~/dashboard"@,
        FSEntryV::Executable { description: "Interactive dashboard"@, size: 38000 },
    ).insert(
        "~/resume"@,
        FSEntryV::Executable { description: "CV/Resume viewer"@, size: 45000 },
    ).insert(
        "~/contact"@,
        FSEntryV::Executable { description: "Contact card"@, size: 21000 },
    ).insert(
        "~/blog"@,
        FSEntryV::Directory { children: seq!["2026"@, "2025"@] },
    ).insert(
        "~/blog/2026"@,
        FSEntryV::Directory {
            children: seq!["building-portfolio-in-rust.md"@, "mastering-async-rust.md"@],
        },
    ).insert(
        "~/blog/2026/building-portfolio-in-rust.md"@,
        FSEntryV::File {
            content: "# Building a Portfolio in Rust\n\nComing soon..."@,
            size: 1200,
            permissions: "-rw-r--r--"@,
        },
    ).insert(
        "~/downloads"@,
        FSEntryV::Directory { children: seq!["resume.pdf"@, "resume.tex"@] },
    )
}

/// The text stored under `"~/README.md"`.
pub const README_TEXT: &'static str = "# Welcome to Uchindami's Portfolio! \u{1f44b}\n\nHey there! You've just connected to my interactive terminal portfolio.\nThis isn't your typical portfolio website - it's a fully functional\nshell environment where you can explore my work like a real filesystem.\n\n## Quick Start\n\n- `ls` - See all available commands\n- `./dashboard` - Launch the interactive dashboard\n- `./resume` - View my CV/resume\n- `./projects` - Browse my projects\n- `help` - Get detailed help\n\n## Easter Eggs \u{1f95a}\n\nI've hidden some fun surprises throughout. Try exploring different\ncommands and see what you find!\n\n## Tech Stack\n\nThis portfolio is built with:\n- Rust + Ratatui (TUI framework)\n- Hosted on Google Cloud Run\n- Accessible via web terminal (ttyd)\n\nEnjoy exploring!\n";

impl VirtualFS {
    /// The statically seeded filesystem: the tree in [`root_fs`].
    pub fn new() -> (r: Self)
        ensures
            r.wf(),
            r@ == root_fs(),
    {
        let mut fs = Self::empty();
        let mut root_children: Vec<String> = Vec::new();
        root_children.push(".profile".to_owned());
        root_children.push(".secret".to_owned());
        root_children.push("README.md".to_owned());
        root_children.push("about".to_owned());
        root_children.push("dashboard".to_owned());
        root_children.push("resume".to_owned());
        root_children.push("contact".to_owned());
        root_children.push("blog".to_owned());
        root_children.push("downloads".to_owned());
        proof {
            assert(root_children@.map_values(|c: String| c@) =~= seq![
                ".profile"@,
                ".secret"@,
                "README.md"@,
                "about"@,
                "dashboard"@,
                "resume"@,
                "contact"@,
                "blog"@,
                "downloads"@,
            ]);
        }
        fs.put("~", FSEntry::Directory { children: root_children });
        fs.put(
            "~/.profile",
            file_entry(
                "# Uchindami's Shell Profile\nexport EDITOR=nvim\nexport LANG=en_US.UTF-8\n",
                220,
                "-rw-r--r--",
            ),
        );
        fs.put(
            "~/.secret",
            file_entry(
                "You found a secret! Here's a cookie: \u{1f36a}\n\nP.S. Try running 'hack' or 'sudo rm -rf /' \u{1f609}",
                180,
                "-rw-------",
            ),
        );
        fs.put("~/README.md", file_entry(README_TEXT, 3200, "-rw-r--r--"));
        fs.put("~/about", exec_entry("About me TUI", 42000));
        fs.put("~/dashboard", exec_entry("Interactive dashboard", 38000));
        fs.put("~/resume", exec_entry("CV/Resume viewer", 45000));
        fs.put("~/contact", exec_entry("Contact card", 21000));
        fs.put("~/blog", dir_entry_2("2026", "2025"));
        fs.put(
            "~/blog/2026",
            dir_entry_2("building-portfolio-in-rust.md", "mastering-async-rust.md"),
        );
        fs.put(
            "~/blog/2026/building-portfolio-in-rust.md",
            file_entry("# Building a Portfolio in Rust\n\nComing soon...", 1200, "-rw-r--r--"),
        );
        fs.put("~/downloads", dir_entry_2("resume.pdf", "resume.tex"));
        fs
    }
}

/// Lexicographic order on character sequences, by code point.
pub open spec fn lex_leq(a: Seq<char>, b: Seq<char>) -> bool
    decreases a.len(),
{
    if a.len() == 0 {
        true
    } else if b.len() == 0 {
        false
    } else if a[0] == b[0] {
        lex_leq(a.skip(1), b.skip(1))
    } else {
        (a[0] as int) < (b[0] as int)
    }
}

/// `lex_leq` is total.
pub proof fn lemma_lex_total(a: Seq<char>, b: Seq<char>)
    ensures
        lex_leq(a, b) || lex_leq(b, a),
    decreases a.len(),
{
    if a.len() == 0 || b.len() == 0 {
    } else if a[0] == b[0] {
        lemma_lex_total(a.skip(1), b.skip(1));
    }
}

/// `lex_leq` is transitive.
pub proof fn lemma_lex_trans(a: Seq<char>, b: Seq<char>, c: Seq<char>)
    requires
        lex_leq(a, b),
        lex_leq(b, c),
    ensures
        lex_leq(a, c),
    decreases a.len(),
{
    if a.len() == 0 {
    } else {
        assert(b.len() > 0);
        assert(c.len() > 0);
        if a[0] == b[0] && b[0] == c[0] {
            lemma_lex_trans(a.skip(1), b.skip(1), c.skip(1));
        }
    }
}

/// `lex_leq` is reflexive.
pub proof fn lemma_lex_refl(a: Seq<char>)
    ensures
        lex_leq(a, a),
    decreases a.len(),
{
    if a.len() > 0 {
        lemma_lex_refl(a.skip(1));
    }
}

/// `lex_leq` is antisymmetric.
pub proof fn lemma_lex_antisym(a: Seq<char>, b: Seq<char>)
    requires
        lex_leq(a, b),
        lex_leq(b, a),
    ensures
        a == b,
    decreases a.len(),
{
    if a.len() == 0 {
        assert(b.len() == 0);
        assert(a =~= b);
    } else {
        assert(b.len() > 0);
        if a[0] == b[0] {
            lemma_lex_antisym(a.skip(1), b.skip(1));
            assert(a =~= seq![a[0]] + a.skip(1));
            assert(b =~= seq![b[0]] + b.skip(1));
        }
    }
}

/// `lex_leq` as a binary relation value.
pub open spec fn lex_leq_fn() -> spec_fn(Seq<char>, Seq<char>) -> bool {
    |a: Seq<char>, b: Seq<char>| lex_leq(a, b)
}

/// `lex_leq` is a total ordering.
pub proof fn lemma_lex_total_ordering()
    ensures
        vstd::relations::total_ordering(lex_leq_fn()),
{
    let leq = lex_leq_fn();
    assert forall|x: Seq<char>| #[trigger] leq(x, x) by {
        lemma_lex_refl(x);
    }
    assert forall|x: Seq<char>, y: Seq<char>| #[trigger] leq(x, y) && #[trigger] leq(y, x)
        implies x == y by {
        lemma_lex_antisym(x, y);
    }
    assert forall|x: Seq<char>, y: Seq<char>, z: Seq<char>|
        #[trigger] leq(x, y) && #[trigger] leq(y, z) implies leq(x, z) by {
        lemma_lex_trans(x, y, z);
    }
    assert forall|x: Seq<char>, y: Seq<char>| #[trigger] leq(x, y) || #[trigger] leq(y, x) by {
        lemma_lex_total(x, y);
    }
}

/// Non-decreasing under `lex_leq`.
pub open spec fn sorted_strs(s: Seq<Seq<char>>) -> bool {
    forall|p: int, q: int| 0 <= p < q < s.len() ==> lex_leq(s[p], s[q])
}

fn lex_le(a: &str, b: &str) -> (r: bool)
    ensures
        r == lex_leq(a@, b@),
{
    let na = a.unicode_len();
    let nb = b.unicode_len();
    proof {
        assert(a@.skip(0) =~= a@);
        assert(b@.skip(0) =~= b@);
    }
    let mut i: usize = 0;
    while i < na && i < nb
        invariant
            na == a@.len(),
            nb == b@.len(),
            i <= na,
            i <= nb,
            lex_leq(a@, b@) == lex_leq(a@.skip(i as int), b@.skip(i as int)),
        decreases na - i,
    {
        let ca = a.get_char(i);
        let cb = b.get_char(i);
        if ca != cb {
            proof {
                assert(ca as u32 as int == ca as int);
                assert(cb as u32 as int == cb as int);
            }
            return (ca as u32) < (cb as u32);
        }
        proof {
            assert(a@.skip(i as int).skip(1) =~= a@.skip(i + 1));
            assert(b@.skip(i as int).skip(1) =~= b@.skip(i + 1));
        }
        i += 1;
    }
    proof {
        if i == na {
            assert(a@.skip(i as int) =~= Seq::<char>::empty());
        } else {
            assert(b@.skip(i as int) =~= Seq::<char>::empty());
            assert(a@.skip(i as int).len() > 0);
        }
    }
    na <= nb
}

/// Sort strings lexicographically: the result is a sorted rearrangement of
/// the input.
fn sort_strings(v: &Vec<String>) -> (r: Vec<String>)
    ensures
        sorted_strs(r@.map_values(|s: String| s@)),
        r@.map_values(|s: String| s@).to_multiset() == v@.map_values(
            |s: String| s@,
        ).to_multiset(),
{
    broadcast use vstd::seq_lib::group_to_multiset_ensures;

    let ghost f = |s: String| s@;
    let ghost inviews = v@.map_values(|s: String| s@);
    let mut r: Vec<String> = Vec::new();
    let mut i: usize = 0;
    proof {
        assert(r@.map_values(|s: String| s@) =~= Seq::<Seq<char>>::empty());
        assert(inviews.take(0) =~= Seq::<Seq<char>>::empty());
        assert(Seq::<Seq<char>>::empty().to_multiset() =~= Multiset::<Seq<char>>::empty());
    }
    while i < v.len()
        invariant
            i <= v.len(),
            inviews == v@.map_values(|s: String| s@),
            sorted_strs(r@.map_values(|s: String| s@)),
            r@.map_values(|s: String| s@).to_multiset() == inviews.take(i as int).to_multiset(),
        decreases v.len() - i,
    {
        broadcast use vstd::seq_lib::group_to_multiset_ensures;

        let ghost rv = r@.map_values(|s: String| s@);
        let x = v[i].clone();
        let mut k: usize = 0;
        while k < r.len() && lex_le(r[k].as_str(), x.as_str())
            invariant
                rv == r@.map_values(|s: String| s@),
                x@ == inviews[i as int],
                k <= r@.len(),
                forall|p: int| 0 <= p < k ==> lex_leq(rv[p], x@),
            decreases r@.len() - k,
        {
            k += 1;
        }
        proof {
            if k < rv.len() {
                lemma_lex_total(rv[k as int], x@);
            }
            assert forall|q: int| k <= q < rv.len() implies lex_leq(x@, rv[q]) by {
                if q > k {
                    lemma_lex_trans(x@, rv[k as int], rv[q]);
                }
            }
        }
        r.insert(k, x);
        proof {
            let rv2 = r@.map_values(|s: String| s@);
            assert(rv2 =~= rv.insert(k as int, inviews[i as int]));
            assert(sorted_strs(rv2)) by {
                assert forall|p: int, q: int| 0 <= p < q < rv2.len() implies lex_leq(
                    rv2[p],
                    rv2[q],
                ) by {
                    if q < k {
                    } else if p < k && q == k {
                        assert(lex_leq(rv[p], x@));
                    } else if p < k && q > k {
                        assert(lex_leq(rv[p], rv[q - 1]));
                    } else if p == k {
                        assert(lex_leq(x@, rv[q - 1]));
                    } else {
                        assert(lex_leq(rv[p - 1], rv[q - 1]));
                    }
                }
            }
            assert(inviews.take(i + 1).drop_last() =~= inviews.take(i as int));
            assert(inviews.take(i + 1) =~= inviews.take(i as int).push(inviews[i as int]));
            assert(rv.insert(k as int, inviews[i as int]).to_multiset() == rv.to_multiset().insert(
                inviews[i as int],
            )) by {
                to_multiset_insert(rv, k as int, inviews[i as int]);
            }
        }
        i += 1;
    }
    proof {
        assert(inviews.take(inviews.len() as int) =~= inviews);
    }
    r
}

/// The part of the input before the token being completed (empty if the
/// input has no space).
pub open spec fn complete_prefix(input: Seq<char>) -> Seq<char> {
    if last_char_at(input, ' ') >= 0 {
        input.take(last_char_at(input, ' '))
    } else {
        Seq::empty()
    }
}

/// The token being completed: everything after the last space.
pub open spec fn complete_partial(input: Seq<char>) -> Seq<char> {
    if last_char_at(input, ' ') >= 0 {
        input.skip(last_char_at(input, ' ') + 1)
    } else {
        input
    }
}

/// How an entry is displayed while completing: directories get a trailing
/// `/`, executables a leading `./`, files stand bare.
pub open spec fn display_name(name: Seq<char>, e: FSEntryV) -> Seq<char> {
    match e {
        FSEntryV::Directory { .. } => name + seq!['/'],
        FSEntryV::Executable { .. } => seq!['.', '/'] + name,
        FSEntryV::File { .. } => name,
    }
}

/// The full completed line for one candidate.
pub open spec fn candidate_line(prefix: Seq<char>, disp: Seq<char>) -> Seq<char> {
    if prefix.len() == 0 {
        disp
    } else {
        prefix + seq![' '] + disp
    }
}

/// The unsorted candidate lines from a listing: one for each entry whose
/// display form or bare name starts with the partial token.
pub open spec fn candidates_of(
    l: Seq<(Seq<char>, FSEntryV)>,
    prefix: Seq<char>,
    partial: Seq<char>,
) -> Seq<Seq<char>>
    decreases l.len(),
{
    if l.len() == 0 {
        Seq::empty()
    } else {
        let rest = candidates_of(l.drop_last(), prefix, partial);
        let name = l.last().0;
        let disp = display_name(name, l.last().1);
        if seq_starts_with(disp, partial) || seq_starts_with(name, partial) {
            rest.push(candidate_line(prefix, disp))
        } else {
            rest
        }
    }
}

/// All completion candidates for `input` at `cwd`, before sorting.
pub open spec fn completions_of(
    m: Map<Seq<char>, FSEntryV>,
    input: Seq<char>,
    cwd: Seq<char>,
) -> Seq<Seq<char>> {
    match list_dir_spec(m, cwd) {
        Some(l) => candidates_of(l, complete_prefix(input), complete_partial(input)),
        None => Seq::empty(),
    }
}

/// The completion candidates, lexicographically sorted.
pub open spec fn sorted_completions(
    m: Map<Seq<char>, FSEntryV>,
    input: Seq<char>,
    cwd: Seq<char>,
) -> Seq<Seq<char>> {
    completions_of(m, input, cwd).sort_by(lex_leq_fn())
}

impl VirtualFS {
    /// Tab completion: the candidate lines for the token after the last
    /// space of `input`, matched against the listing of `cwd`, sorted
    /// lexicographically: exactly [`completions_of`], sorted by [`lex_leq`].
    pub fn complete(&self, input: &str, cwd: &str) -> (r: Vec<String>)
        requires
            self.wf(),
        ensures
            sorted_strs(r@.map_values(|s: String| s@)),
            r@.map_values(|s: String| s@).to_multiset() == completions_of(
                self@,
                input@,
                cwd@,
            ).to_multiset(),
            r@.map_values(|s: String| s@) == sorted_completions(self@, input@, cwd@),
    {
        let n = input.unicode_len();
        let (prefix, partial): (String, String) = match find_last_char(input, ' ') {
            Some(i) => {
                let p = input.substring_char(0, i).to_owned();
                let t = input.substring_char(i + 1, n).to_owned();
                proof {
                    assert(input@.subrange(0, i as int) =~= input@.take(i as int));
                    assert(input@.subrange(i + 1, n as int) =~= input@.skip(i + 1));
                }
                (p, t)
            },
            None => (String::new(), input.to_owned()),
        };
        let mut cands: Vec<String> = Vec::new();
        match self.list_dir(cwd) {
            Some(entries) => {
                let ghost l = entries@.map_values(|pr: (String, FSEntry)| (pr.0@, pr.1@));
                let ghost mut cv: Seq<Seq<char>> = Seq::empty();
                let mut i: usize = 0;
                while i < entries.len()
                    invariant
                        i <= entries@.len(),
                        l == entries@.map_values(|pr: (String, FSEntry)| (pr.0@, pr.1@)),
                        prefix@ == complete_prefix(input@),
                        partial@ == complete_partial(input@),
                        cv == candidates_of(l.take(i as int), prefix@, partial@),
                        cands@.len() == cv.len(),
                        forall|j: int| 0 <= j < cv.len() ==> cands@[j]@ == cv[j],
                    decreases entries@.len() - i,
                {
                    let name: &String = &entries[i].0;
                    let disp: String = match &entries[i].1 {
                        FSEntry::Directory { .. } => concat_strs(name.as_str(), "/"),
                        FSEntry::Executable { .. } => concat_strs("./", name.as_str()),
                        FSEntry::File { .. } => name.clone(),
                    };
                    proof {
                        reveal_strlit("/");
                        reveal_strlit("./");
                        assert("/"@ =~= seq!['/']);
                        assert("./"@ =~= seq!['.', '/']);
                        assert(l[i as int] == (entries@[i as int].0@, entries@[i as int].1@));
                        assert(disp@ == display_name(l[i as int].0, l[i as int].1));
                        assert(l.take(i + 1).drop_last() =~= l.take(i as int));
                        assert(l.take(i + 1).last() == l[i as int]);
                    }
                    if str_starts_with(disp.as_str(), partial.as_str()) || str_starts_with(
                        name.as_str(),
                        partial.as_str(),
                    ) {
                        let line: String = if prefix.as_str().is_empty() {
                            disp
                        } else {
                            let a = concat_strs(prefix.as_str(), " ");
                            let line = a.concat(disp.as_str());
                            proof {
                                reveal_strlit(" ");
                                assert(" "@ =~= seq![' ']);
                                assert((prefix@ + " "@) + disp@ =~= prefix@ + seq![' '] + disp@);
                            }
                            line
                        };
                        proof {
                            cv = cv.push(candidate_line(prefix@, display_name(
                                l[i as int].0,
                                l[i as int].1,
                            )));
                        }
                        cands.push(line);
                    }
                    i += 1;
                }
                proof {
                    assert(l.take(entries@.len() as int) =~= l);
                }
            },
            None => {},
        }
        let r = sort_strings(&cands);
        proof {
            assert(cands@.map_values(|s: String| s@) =~= completions_of(self@, input@, cwd@));
            let leq = lex_leq_fn();
            let rv = r@.map_values(|s: String| s@);
            let sc = sorted_completions(self@, input@, cwd@);
            lemma_lex_total_ordering();
            completions_of(self@, input@, cwd@).lemma_sort_by_ensures(leq);
            assert(vstd::relations::sorted_by(rv, leq)) by {
                assert forall|p: int, q: int| 0 <= p < q < rv.len() implies #[trigger] leq(
                    rv[p],
                    rv[q],
                ) by {
                    assert(lex_leq(rv[p], rv[q]));
                }
            }
            lemma_sorted_unique(rv, sc, leq);
        }
        r
    }
}

} // verus!

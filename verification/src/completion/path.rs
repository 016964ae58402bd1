//! Completion of file system paths.
//!
//! Reading the environment and the file system is left to the caller: the
//! steps here decide which directory to list, which entries match and what
//! text each completion inserts.
use vstd::prelude::*;
use vstd::string::*;
use crate::text::{chars_of, concat, has_prefix, last_index_of, rfind_char, starts_with_chars, string_of};
use super::{CompletionItem, CompletionSource, Replacement};

verus! {

broadcast use vstd::string::group_string_axioms;

/// Completes path prefixes relative to a working directory.
pub struct PathCompleter {
    cwd: String,
}

/// What to make canonical before the directory to list is known.
#[derive(Debug)]
pub enum CanonicalTarget {
    /// The whole path
    Whole(String),
    /// The parent directory; the file name is joined back afterwards
    Parent { parent: String, file_name: String },
    /// The working directory; the path is joined to it afterwards
    WorkingDir { path: String },
}

/// `~` expanded to `home`, when the path is `~` or starts with `~/`.
pub open spec fn expand_tilde_spec(path: Seq<char>, home: Seq<char>) -> Seq<char> {
    if path == seq!['~'] {
        home
    } else if has_prefix(path, seq!['~', '/']) {
        home + seq!['/'] + path.subrange(2, path.len() as int)
    } else {
        path
    }
}

/// `path` joined to `base` as `PathBuf::push` does on Unix: an absolute
/// `path` replaces `base`; otherwise a separator is put between them unless
/// `base` is empty or already ends with one.
pub open spec fn join_spec(base: Seq<char>, path: Seq<char>) -> Seq<char> {
    if path.len() > 0 && path[0] == '/' {
        path
    } else if base.len() == 0 || base.last() == '/' {
        base + path
    } else {
        base + seq!['/'] + path
    }
}

/// Whether the text ends with a slash.
pub open spec fn ends_in_slash(s: Seq<char>) -> bool {
    s.len() > 0 && s.last() == '/'
}

/// The text before the last slash (`/` when that is empty) and the text after it.
pub open spec fn split_last_slash(s: Seq<char>) -> Option<(Seq<char>, Seq<char>)> {
    match last_index_of(s, '/') {
        Some(pos) => Some((
            if pos == 0 { seq!['/'] } else { s.subrange(0, pos) },
            s.subrange(pos + 1, s.len() as int),
        )),
        None => None,
    }
}

/// The directory to search, the file name prefix to match and the display
/// prefix, for a typed `prefix` whose canonical path is `cpath`.
pub open spec fn parse_prefix_spec(prefix: Seq<char>, cpath: Seq<char>) -> (Seq<char>, Seq<char>, Seq<char>) {
    let (search, name) = if ends_in_slash(prefix) {
        (cpath, Seq::empty())
    } else {
        match split_last_slash(cpath) {
            Some((parent, file_name)) => (parent, file_name),
            None => (Seq::empty(), cpath),
        }
    };
    let display = match last_index_of(prefix, '/') {
        Some(pos) => prefix.subrange(0, pos + 1),
        None => Seq::empty(),
    };
    (search, name, display)
}

/// Whether a typed path prefix gets completions, given whether its canonical
/// path names an existing directory: `/et` completes to `/etc`, `/etc/` lists
/// that directory, and `/etc` itself gets none. A lone `~` counts as `~/`.
pub open spec fn offers_completions_spec(prefix: Seq<char>, target_is_dir: bool) -> bool {
    let p = if prefix == seq!['~'] { seq!['~', '/'] } else { prefix };
    ends_in_slash(p) || !target_is_dir
}

/// The completion for a directory entry named `file_name`, if it matches.
pub open spec fn entry_item_spec(file_name: Seq<char>, is_dir: bool, filename_prefix: Seq<char>, display_prefix: Seq<char>, item: Option<CompletionItem>) -> bool {
    if !has_prefix(file_name, filename_prefix) {
        item is None
    } else {
        let label = if is_dir { file_name + seq!['/'] } else { file_name };
        item matches Some(it) && {
            &&& it.label@ == label
            &&& it.replacement.text@ == display_prefix + label
            &&& it.replacement.range.start == usize::MAX
            &&& it.replacement.range.end == usize::MAX
            &&& it.source == CompletionSource::FileSystem
        }
    }
}

impl PathCompleter {
    pub closed spec fn spec_cwd(&self) -> Seq<char> {
        self.cwd@
    }

    pub fn new(cwd: String) -> (p: Self)
        ensures
            p.spec_cwd() == cwd@,
    {
        Self { cwd }
    }

    /// The home directory: the one the environment gives, else the working directory.
    pub fn home_dir(&self, env_home: Option<String>) -> (h: String)
        ensures
            h@ == match env_home { Some(e) => e@, None => self.spec_cwd() },
    {
        match env_home {
            Some(h) => h,
            None => self.cwd.clone(),
        }
    }

    /// `~` expanded to the home directory `home`.
    pub fn expand_tilde(&self, path: &str, home: &str) -> (r: String)
        ensures
            r@ == expand_tilde_spec(path@, home@),
    {
        let chars = chars_of(path);
        let n = chars.len();
        if n == 1 && chars[0] == '~' {
            assert(path@ =~= seq!['~']);
            return String::from_str(home);
        }
        if n >= 2 && chars[0] == '~' && chars[1] == '/' {
            assert(path@.subrange(0, 2) =~= seq!['~', '/']);
            let rest = string_of(path, 2, n);
            let with_slash = concat(home, "/");
            proof {
                reveal_strlit("/");
            }
            return concat(with_slash.as_str(), rest.as_str());
        }
        proof {
            if has_prefix(path@, seq!['~', '/']) {
                assert(path@.subrange(0, 2)[0] == '~');
                assert(path@.subrange(0, 2)[1] == '/');
            }
        }
        String::from_str(path)
    }

    /// `path` joined to `base` as `PathBuf::push` does on Unix.
    pub fn join(base: &str, path: &str) -> (r: String)
        ensures
            r@ == join_spec(base@, path@),
    {
        let pc = chars_of(path);
        let bc = chars_of(base);
        proof {
            reveal_strlit("/");
        }
        if pc.len() > 0 && pc[0] == '/' {
            String::from_str(path)
        } else if bc.len() == 0 || bc[bc.len() - 1] == '/' {
            concat(base, path)
        } else {
            let with_slash = concat(base, "/");
            concat(with_slash.as_str(), path)
        }
    }

    /// The path to complete in, before it is made canonical, and whether the
    /// typed prefix ends with a slash. A lone `~` counts as `~/`.
    pub fn search_path(&self, prefix: &str, home: &str) -> (r: (String, bool))
        ensures
            ({
                let p = if prefix@ == seq!['~'] { seq!['~', '/'] } else { prefix@ };
                &&& r.1 == ends_in_slash(p)
                &&& r.0@ == join_spec(self.spec_cwd(), expand_tilde_spec(p, home@))
            }),
    {
        let pc = chars_of(prefix);
        proof {
            reveal_strlit("~/");
        }
        let prefix: &str = if pc.len() == 1 && pc[0] == '~' {
            assert(prefix@ =~= seq!['~']);
            assert("~/"@ =~= seq!['~', '/']);
            "~/"
        } else {
            prefix
        };
        let pc = chars_of(prefix);
        let ends_with_slash = pc.len() > 0 && pc[pc.len() - 1] == '/';
        let expanded = self.expand_tilde(prefix, home);
        (Self::join(self.cwd.as_str(), expanded.as_str()), ends_with_slash)
    }

    /// What to make canonical: the whole path when it ends with a slash, else its
    /// parent (`/` for a top-level name), else the working directory.
    pub fn canonical_target(&self, path: &str, ends_with_slash: bool) -> (t: CanonicalTarget)
        ensures
            ends_with_slash ==> (t matches CanonicalTarget::Whole(p) && p@ == path@),
            !ends_with_slash ==> match split_last_slash(path@) {
                Some((parent, name)) => (t matches CanonicalTarget::Parent { parent: p, file_name: f }
                    && p@ == parent && f@ == name),
                None => (t matches CanonicalTarget::WorkingDir { path: p } && p@ == path@),
            },
    {
        if ends_with_slash {
            return CanonicalTarget::Whole(String::from_str(path));
        }
        let chars = chars_of(path);
        match rfind_char(&chars, '/') {
            Some(pos) => {
                let parent = if pos == 0 {
                    proof {
                        reveal_strlit("/");
                    }
                    assert("/"@ =~= seq!['/']);
                    String::from_str("/")
                } else {
                    string_of(path, 0, pos)
                };
                let n = chars.len();
                assert(pos < n);
                let file_name = string_of(path, pos + 1, n);
                CanonicalTarget::Parent { parent, file_name }
            },
            None => CanonicalTarget::WorkingDir { path: String::from_str(path) },
        }
    }

    /// Parse prefix into (search_directory, filename_prefix_to_match, display_prefix).
    /// display_prefix replaces the typed text in a completion; `cpath` is the
    /// canonical path of the prefix.
    ///
    /// Examples:
    /// - "/etc/" -> ("/etc", "", "/etc/")
    /// - "/et"   -> ("/", "et", "/")
    /// - "~/Doc" -> ("/home/user", "Doc", "~/")
    /// - "dir/"  -> ("<cwd>/dir", "", "dir/")
    /// - "foo"   -> ("<cwd>", "foo", "")
    pub fn parse_prefix(&self, prefix: &str, cpath: &str) -> (r: Option<(String, String, String)>)
        ensures
            r matches Some((a, b, c)) && (a@, b@, c@) == parse_prefix_spec(prefix@, cpath@),
    {
        let pc = chars_of(prefix);
        let cc = chars_of(cpath);
        let ends = pc.len() > 0 && pc[pc.len() - 1] == '/';
        let (search_path, fntm) = if ends {
            (String::from_str(cpath), String::new())
        } else {
            match rfind_char(&cc, '/') {
                Some(pos) => {
                    let parent = if pos == 0 {
                        proof {
                            reveal_strlit("/");
                        }
                        assert("/"@ =~= seq!['/']);
                        String::from_str("/")
                    } else {
                        string_of(cpath, 0, pos)
                    };
                    let n = cc.len();
                    assert(pos < n);
                    (parent, string_of(cpath, pos + 1, n))
                },
                None => (String::new(), String::from_str(cpath)),
            }
        };
        let display_prefix = match rfind_char(&pc, '/') {
            Some(pos) => string_of(prefix, 0, pos + 1),
            None => String::new(),
        };
        Some((search_path, fntm, display_prefix))
    }

    /// Whether a typed path prefix gets completions, given whether its
    /// canonical path names an existing directory: a directory named without
    /// a trailing slash gets none.
    pub fn offers_completions(prefix: &str, target_is_dir: bool) -> (b: bool)
        ensures
            b == offers_completions_spec(prefix@, target_is_dir),
    {
        let pc = chars_of(prefix);
        if pc.len() == 1 && pc[0] == '~' {
            assert(prefix@ =~= seq!['~']);
            return true;
        }
        proof {
            if prefix@ == seq!['~'] {
                assert(pc@.len() == 1);
            }
        }
        let ends = pc.len() > 0 && pc[pc.len() - 1] == '/';
        ends || !target_is_dir
    }

    /// The completion for a directory entry named `file_name`: none unless the
    /// name starts with `filename_prefix`; a directory's label ends with `/`, and
    /// the inserted text is the display prefix followed by the label.
    pub fn entry_item(file_name: &str, is_dir: bool, filename_prefix: &str, display_prefix: &str) -> (item: Option<CompletionItem>)
        ensures
            entry_item_spec(file_name@, is_dir, filename_prefix@, display_prefix@, item),
    {
        let name = chars_of(file_name);
        let pre = chars_of(filename_prefix);
        if !starts_with_chars(&name, &pre) {
            return None;
        }
        proof {
            reveal_strlit("/");
            reveal_strlit("");
        }
        let label = if is_dir { concat(file_name, "/") } else { concat(file_name, "") };
        assert(""@ =~= Seq::<char>::empty());
        assert("/"@ =~= seq!['/']);
        assert(file_name@ + ""@ =~= file_name@);
        let new_text = concat(display_prefix, label.as_str());
        Some(CompletionItem {
            label,
            replacement: Replacement::text_only(new_text),
            source: CompletionSource::FileSystem,
        })
    }
}

} // verus!

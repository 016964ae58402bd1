//! File types, for choosing an icon, and the unit a file size is shown in.
use vstd::prelude::*;
use crate::search_result_store::order::{components_of, file_name_of, path_components, PathComponent};
use crate::text::{last_index_of, lowercase, rfind_char, same_text, text_of_chars, to_lowercase};

verus! {

broadcast use vstd::string::group_string_axioms;

/// File type enumeration for icon mapping
#[derive(Debug, Clone, Copy, PartialEq, Eq, Structural)]
pub enum FileType {
    Pdf,
    Doc,
    Text,
    Markdown,
    Code,
    Generic,
}

/// The extensions of source code and configuration files.
pub open spec fn code_extensions() -> Seq<Seq<char>> {
    seq!["rs"@, "py"@, "js"@, "ts"@, "c"@, "cpp"@, "h"@, "hpp"@, "java"@, "go"@, "rb"@, "php"@,
        "swift"@, "kt"@, "scala"@, "sh"@, "bash"@, "zsh"@, "toml"@, "yaml"@, "yml"@, "json"@,
        "xml"@, "html"@, "css"@, "scss"@, "sass"@, "less"@]
}

/// The file type of a lowercased extension.
pub open spec fn file_type_of(lower: Seq<char>) -> FileType {
    if lower == "pdf"@ {
        FileType::Pdf
    } else if lower == "doc"@ || lower == "docx"@ {
        FileType::Doc
    } else if lower == "txt"@ {
        FileType::Text
    } else if lower == "md"@ || lower == "markdown"@ {
        FileType::Markdown
    } else if code_extensions().contains(lower) {
        FileType::Code
    } else {
        FileType::Generic
    }
}

/// The extension of a file name: the text after its last `.`, unless there is
/// no `.` or the only one starts the name (`Path::extension`).
pub open spec fn extension_of_name(name: Seq<char>) -> Option<Seq<char>> {
    match last_index_of(name, '.') {
        Some(i) => if i == 0 { None } else { Some(name.subrange(i + 1, name.len() as int)) },
        None => None,
    }
}

fn code_extension_list() -> (v: Vec<&'static str>)
    ensures
        v@.len() == code_extensions().len(),
        forall|i: int| 0 <= i < v@.len() ==> v@[i]@ == #[trigger] code_extensions()[i],
{
    vec!["rs", "py", "js", "ts", "c", "cpp", "h", "hpp", "java", "go", "rb", "php", "swift", "kt",
        "scala", "sh", "bash", "zsh", "toml", "yaml", "yml", "json", "xml", "html", "css", "scss",
        "sass", "less"]
}

impl FileType {
    /// Determine file type from file extension
    pub fn from_extension(ext: &str) -> (t: Self)
        ensures
            t == file_type_of(lowercase(ext@)),
    {
        let lower = to_lowercase(ext);
        let l = lower.as_str();
        if same_text(l, "pdf") {
            FileType::Pdf
        } else if same_text(l, "doc") || same_text(l, "docx") {
            FileType::Doc
        } else if same_text(l, "txt") {
            FileType::Text
        } else if same_text(l, "md") || same_text(l, "markdown") {
            FileType::Markdown
        } else {
            let list = code_extension_list();
            let mut i: usize = 0;
            while i < list.len()
                invariant
                    0 <= i <= list@.len() == code_extensions().len(),
                    forall|j: int| 0 <= j < list@.len() ==> list@[j]@ == #[trigger] code_extensions()[j],
                    forall|j: int| 0 <= j < i ==> code_extensions()[j] != l@,
                    l@ == lowercase(ext@),
                    !(l@ == "pdf"@ || l@ == "doc"@ || l@ == "docx"@ || l@ == "txt"@ || l@ == "md"@ || l@ == "markdown"@),
                decreases list@.len() - i,
            {
                if same_text(l, list[i]) {
                    assert(code_extensions()[i as int] == l@);
                    return FileType::Code;
                }
                i = i + 1;
            }
            FileType::Generic
        }
    }

    /// Get file type from a path
    pub fn from_path(path: &str) -> (t: Self)
        ensures
            t == match file_name_of(path_components(path@)) {
                Some(name) => match extension_of_name(name) {
                    Some(ext) => file_type_of(lowercase(ext)),
                    None => FileType::Generic,
                },
                None => FileType::Generic,
            },
    {
        let comps = components_of(path);
        let ghost cv = comps@.map_values(|c: PathComponent| c@);
        let n = comps.len();
        if n == 0 {
            return FileType::Generic;
        }
        assert(cv.last() == comps@[n - 1]@);
        match &comps[n - 1] {
            PathComponent::Normal(name) => {
                match rfind_char(name, '.') {
                    Some(i) => {
                        if i == 0 {
                            FileType::Generic
                        } else {
                            let len = name.len();
                            let mut ext: Vec<char> = Vec::new();
                            let mut k = i + 1;
                            while k < len
                                invariant
                                    i + 1 <= k <= len == name@.len(),
                                    ext@ == name@.subrange(i + 1, k as int),
                                decreases len - k,
                            {
                                ext.push(name[k]);
                                assert(ext@ =~= name@.subrange(i + 1, k + 1));
                                k = k + 1;
                            }
                            let s = text_of_chars(&ext);
                            Self::from_extension(s.as_str())
                        }
                    },
                    None => FileType::Generic,
                }
            },
            _ => FileType::Generic,
        }
    }

    /// Get display name for the file type
    pub fn display_name(&self) -> (s: &'static str)
        ensures
            s@ == match self {
                FileType::Pdf => "PDF"@,
                FileType::Doc => "Document"@,
                FileType::Text => "Text"@,
                FileType::Markdown => "Markdown"@,
                FileType::Code => "Code"@,
                FileType::Generic => "File"@,
            },
    {
        match self {
            FileType::Pdf => "PDF",
            FileType::Doc => "Document",
            FileType::Text => "Text",
            FileType::Markdown => "Markdown",
            FileType::Code => "Code",
            FileType::Generic => "File",
        }
    }
}

/// The unit a file size is shown in.
#[derive(Debug, Clone, Copy, PartialEq, Eq, Structural)]
pub enum SizeUnit {
    Bytes,
    KB,
    MB,
    GB,
}

/// The largest binary unit not above the size: bytes below 1 KiB, then KB, MB, GB.
pub fn file_size_unit(bytes: u64) -> (u: SizeUnit)
    ensures
        u == if bytes >= 1073741824 {
            SizeUnit::GB
        } else if bytes >= 1048576 {
            SizeUnit::MB
        } else if bytes >= 1024 {
            SizeUnit::KB
        } else {
            SizeUnit::Bytes
        },
{
    let kb: u64 = 1024;
    let mb: u64 = kb * 1024;
    let gb: u64 = mb * 1024;
    if bytes >= gb {
        SizeUnit::GB
    } else if bytes >= mb {
        SizeUnit::MB
    } else if bytes >= kb {
        SizeUnit::KB
    } else {
        SizeUnit::Bytes
    }
}

} // verus!

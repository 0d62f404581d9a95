//! What a walk yields: entries with their classification, and the failures
//! met on the way.

use vstd::prelude::*;
use vstd::string::*;

verus! {

/// The classification of a filesystem object, as the type filter sees it.
#[derive(Clone, Copy, Debug, PartialEq, Eq, Structural)]
pub enum EntryType {
    File,
    Dir,
    Link,
}

/// The type a command-line flag stands for: `f`, `d` or `l`.
pub open spec fn flag_type(flag: Seq<char>) -> Option<EntryType> {
    if flag == seq!['f'] {
        Some(EntryType::File)
    } else if flag == seq!['d'] {
        Some(EntryType::Dir)
    } else if flag == seq!['l'] {
        Some(EntryType::Link)
    } else {
        None
    }
}

/// The classification of an object from what its metadata says. The three
/// classes exclude each other: a symbolic link is a link whatever it points
/// to, and an object that is none of the three has no class.
pub open spec fn classification(is_symlink: bool, is_dir: bool, is_file: bool) -> Option<
    EntryType,
> {
    if is_symlink {
        Some(EntryType::Link)
    } else if is_dir {
        Some(EntryType::Dir)
    } else if is_file {
        Some(EntryType::File)
    } else {
        None
    }
}

impl EntryType {
    /// Reads a type flag; anything but `f`, `d` and `l` has no type.
    pub fn from_flag(flag: &str) -> (res: Option<EntryType>)
        ensures
            res == flag_type(flag@),
    {
        if flag.unicode_len() != 1 {
            return None;
        }
        let c = flag.get_char(0);
        assert(flag@ =~= seq![c]);
        if c == 'f' {
            Some(EntryType::File)
        } else if c == 'd' {
            Some(EntryType::Dir)
        } else if c == 'l' {
            Some(EntryType::Link)
        } else {
            None
        }
    }

    /// Classifies an object from the three answers of its metadata.
    pub fn classify(is_symlink: bool, is_dir: bool, is_file: bool) -> (res: Option<EntryType>)
        ensures
            res == classification(is_symlink, is_dir, is_file),
    {
        if is_symlink {
            Some(EntryType::Link)
        } else if is_dir {
            Some(EntryType::Dir)
        } else if is_file {
            Some(EntryType::File)
        } else {
            None
        }
    }
}

/// One filesystem object met during a walk.
pub struct Entry {
    /// The path as it is reported.
    pub path: String,
    /// The last component of the path, which the name filter reads.
    pub name: String,
    /// The number of directory boundaries between the root and this entry.
    pub depth: usize,
    /// File, directory or link; `None` for anything else.
    pub kind: Option<EntryType>,
    /// The size in bytes, as the metadata gave it when the entry was found.
    pub size: u64,
}

/// An entry as the filters see it.
pub struct EntryView {
    pub path: Seq<char>,
    pub name: Seq<char>,
    pub depth: nat,
    pub kind: Option<EntryType>,
    pub size: nat,
}

impl View for Entry {
    type V = EntryView;

    open spec fn view(&self) -> EntryView {
        EntryView {
            path: self.path@,
            name: self.name@,
            depth: self.depth as nat,
            kind: self.kind,
            size: self.size as nat,
        }
    }
}

/// A failure to read one path during a walk.
pub struct TraversalError {
    /// The path at which the walk failed.
    pub path: String,
    /// What went wrong there.
    pub cause: String,
}

/// What the program calls itself at the head of a diagnostic line.
pub open spec fn diagnostic_prefix() -> Seq<char> {
    seq!['r', 'f', 'i', 'n', 'd', ':', ' ']
}

/// The line that reports a traversal error: the program's name, the path,
/// and the cause.
pub open spec fn diagnostic_text(path: Seq<char>, cause: Seq<char>) -> Seq<char> {
    diagnostic_prefix() + path + seq![':', ' '] + cause
}

impl TraversalError {
    /// The diagnostic line for this error.
    pub fn diagnostic_line(&self) -> (line: String)
        ensures
            line@ == diagnostic_text(self.path@, self.cause@),
    {
        proof {
            reveal_strlit("rfind: ");
            reveal_strlit(": ");
        }
        let mut line = String::from_str("rfind: ");
        line.append(self.path.as_str());
        line.append(": ");
        line.append(self.cause.as_str());
        line
    }
}

} // verus!

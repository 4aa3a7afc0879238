//! Classification of directory entries: every entry read from a directory
//! stream is classified by its type tag and by its hidden, temporary and
//! dot-special flags, and the classifications are accumulated into counters.

use vstd::prelude::*;

verus! {

/// Represents the count of a single directory entry type.
pub type TypeCount = usize;

/// The byte of the `.` character, the prefix of hidden entry names.
pub const NAME_DOT: u8 = 46;

/// The byte of the `~` character, the suffix of temporary entry names.
pub const NAME_TILDE: u8 = 126;

/// The type tag a directory stream reports for a named pipe.
pub const TAG_FIFO: u8 = 1;

/// The type tag a directory stream reports for a character device.
pub const TAG_CHARACTER: u8 = 2;

/// The type tag a directory stream reports for a directory.
pub const TAG_DIRECTORY: u8 = 4;

/// The type tag a directory stream reports for a block device.
pub const TAG_BLOCK: u8 = 6;

/// The type tag a directory stream reports for a symbolic link.
pub const TAG_SYMLINK: u8 = 10;

/// The type tag a directory stream reports for a domain socket.
pub const TAG_SOCKET: u8 = 12;

/// Contains the possible entry types.
#[derive(Debug, Clone, Copy, PartialEq, Eq, Structural)]
pub enum EntryKind {
    /// Refers to a regular file.
    File,
    /// Refers to a directory.
    Directory,
    /// Refers to a domain socket.
    Socket,
    /// Refers to a named pipe (FIFO — first-in, first-out).
    Fifo,
    /// Refers to a block device.
    Block,
    /// Refers to a character device.
    Character,
    /// Refers to a symbolic link.
    Symlink,
}

/// The outcome of querying the platform's optional hidden-attribute bit for
/// one entry. On platforms without such an attribute every entry reports
/// `Clear`; where the query itself fails, the entry reports `Unknown`.
#[derive(Debug, Clone, Copy, PartialEq, Eq, Structural)]
pub enum HiddenAttribute {
    /// The platform reports no extra hidden signal for the entry.
    Clear,
    /// The platform marks the entry as hidden.
    Marked,
    /// The query failed; the entry's hidden status is unknown.
    Unknown,
}

/// One directory entry as the directory stream reports it: a name, a coarse
/// type tag, and the outcome of the optional hidden-attribute query.
#[derive(Debug, Clone)]
pub struct Entry {
    /// The bytes of the entry name, without any terminator.
    pub name: Vec<u8>,
    /// The type tag the directory stream supplied for the entry.
    pub type_tag: u8,
    /// The outcome of the platform hidden-attribute query for the entry.
    pub hidden_attribute: HiddenAttribute,
}

/// Whether a name is a special dot entry, either `.` (referring to the
/// current directory) or `..` (referring to the parent directory).
pub open spec fn spec_is_dot_special(name: Seq<u8>) -> bool {
    name == seq![NAME_DOT] || name == seq![NAME_DOT, NAME_DOT]
}

/// Whether a name marks a temporary entry, that is, it ends with `~`.
pub open spec fn spec_is_temporary(name: Seq<u8>) -> bool {
    name.len() > 0 && name.last() == NAME_TILDE
}

/// The hidden status of an entry: hidden when its name starts with `.` or the
/// platform attribute marks it hidden; unknown (`Err`) when the name gives no
/// answer and the attribute query failed.
pub open spec fn spec_is_hidden(name: Seq<u8>, attribute: HiddenAttribute) -> Result<bool, ()> {
    if name.len() > 0 && name[0] == NAME_DOT {
        Ok(true)
    } else {
        match attribute {
            HiddenAttribute::Marked => Ok(true),
            HiddenAttribute::Clear => Ok(false),
            HiddenAttribute::Unknown => Err(()),
        }
    }
}

/// The classification of a type tag; unrecognized tags classify as `File`.
pub open spec fn spec_classify(tag: u8) -> EntryKind {
    if tag == TAG_DIRECTORY {
        EntryKind::Directory
    } else if tag == TAG_SOCKET {
        EntryKind::Socket
    } else if tag == TAG_FIFO {
        EntryKind::Fifo
    } else if tag == TAG_BLOCK {
        EntryKind::Block
    } else if tag == TAG_CHARACTER {
        EntryKind::Character
    } else if tag == TAG_SYMLINK {
        EntryKind::Symlink
    } else {
        EntryKind::File
    }
}

impl Entry {
    /// Checks whether the entry is a special dot entry, either `.` or `..`.
    pub fn is_dot_special(&self) -> (r: bool)
        ensures
            r == spec_is_dot_special(self.name@),
    {
        if self.name.len() == 1 {
            let r = self.name[0] == NAME_DOT;
            proof {
                assert(self.name@ =~= seq![NAME_DOT] <==> self.name@[0] == NAME_DOT);
                assert(self.name@.len() != 2);
            }
            r
        } else if self.name.len() == 2 {
            let r = self.name[0] == NAME_DOT && self.name[1] == NAME_DOT;
            proof {
                assert(self.name@ =~= seq![NAME_DOT, NAME_DOT] <==> (self.name@[0] == NAME_DOT
                    && self.name@[1] == NAME_DOT));
                assert(self.name@.len() != 1);
            }
            r
        } else {
            proof {
                assert(self.name@.len() != 1 && self.name@.len() != 2);
            }
            false
        }
    }

    /// Checks whether the entry is a temporary entry, that is, its name ends
    /// with `~`. A name is a bounded sequence of bytes, so the check needs no
    /// terminator scan; an empty name is not temporary.
    pub fn is_temporary(&self) -> (r: bool)
        ensures
            r == spec_is_temporary(self.name@),
    {
        self.name.len() > 0 && self.name[self.name.len() - 1] == NAME_TILDE
    }

    /// Checks whether the entry is hidden, that is, its name starts with `.`
    /// or the platform attribute marks it hidden. Returns `Err` when the
    /// attribute query failed and the name alone gives no answer.
    pub fn is_hidden(&self) -> (r: Result<bool, ()>)
        ensures
            r == spec_is_hidden(self.name@, self.hidden_attribute),
    {
        if self.name.len() > 0 && self.name[0] == NAME_DOT {
            Ok(true)
        } else {
            match self.hidden_attribute {
                HiddenAttribute::Marked => Ok(true),
                HiddenAttribute::Clear => Ok(false),
                HiddenAttribute::Unknown => Err(()),
            }
        }
    }

    /// Gets the entry type, classifying the stream's type tag; unrecognized
    /// tags classify as `File`.
    pub fn kind(&self) -> (r: EntryKind)
        ensures
            r == spec_classify(self.type_tag),
    {
        if self.type_tag == TAG_DIRECTORY {
            EntryKind::Directory
        } else if self.type_tag == TAG_SOCKET {
            EntryKind::Socket
        } else if self.type_tag == TAG_FIFO {
            EntryKind::Fifo
        } else if self.type_tag == TAG_BLOCK {
            EntryKind::Block
        } else if self.type_tag == TAG_CHARACTER {
            EntryKind::Character
        } else if self.type_tag == TAG_SYMLINK {
            EntryKind::Symlink
        } else {
            EntryKind::File
        }
    }
}

/// The mathematical model of `TypeCounts`: one unbounded counter per field.
pub struct CountsModel {
    pub files: int,
    pub directories: int,
    pub sockets: int,
    pub fifos: int,
    pub blocks: int,
    pub characters: int,
    pub symlinks: int,
    pub hiddens: int,
    pub temporaries: int,
}

/// The model with every counter at zero.
pub open spec fn zero_counts() -> CountsModel {
    CountsModel {
        files: 0,
        directories: 0,
        sockets: 0,
        fifos: 0,
        blocks: 0,
        characters: 0,
        symlinks: 0,
        hiddens: 0,
        temporaries: 0,
    }
}

/// What one entry adds to the counters. A dot-special entry adds nothing.
/// Any other entry adds one to exactly one type counter; it adds one to the
/// temporary counter when its name ends in `~`, and one to the hidden counter
/// when its hidden status is known to be hidden.
pub open spec fn spec_add_entry(c: CountsModel, e: Entry) -> CountsModel {
    if spec_is_dot_special(e.name@) {
        c
    } else {
        let kind = spec_classify(e.type_tag);
        CountsModel {
            files: c.files + if kind == EntryKind::File {
                1int
            } else {
                0int
            },
            directories: c.directories + if kind == EntryKind::Directory {
                1int
            } else {
                0int
            },
            sockets: c.sockets + if kind == EntryKind::Socket {
                1int
            } else {
                0int
            },
            fifos: c.fifos + if kind == EntryKind::Fifo {
                1int
            } else {
                0int
            },
            blocks: c.blocks + if kind == EntryKind::Block {
                1int
            } else {
                0int
            },
            characters: c.characters + if kind == EntryKind::Character {
                1int
            } else {
                0int
            },
            symlinks: c.symlinks + if kind == EntryKind::Symlink {
                1int
            } else {
                0int
            },
            hiddens: c.hiddens + if spec_is_hidden(e.name@, e.hidden_attribute) == Ok::<
                bool,
                (),
            >(true) {
                1int
            } else {
                0int
            },
            temporaries: c.temporaries + if spec_is_temporary(e.name@) {
                1int
            } else {
                0int
            },
        }
    }
}

/// The counters a sequence of scanned entries accumulates.
pub open spec fn spec_counts(s: Seq<Entry>) -> CountsModel
    decreases s.len(),
{
    if s.len() == 0 {
        zero_counts()
    } else {
        spec_add_entry(spec_counts(s.drop_last()), s.last())
    }
}

/// Represents the count of all entry types inside of a directory.
#[derive(Debug, Clone, PartialEq, Eq, Structural)]
pub struct TypeCounts {
    /// The total of regular files.
    pub total_files: TypeCount,
    /// The total of directories.
    pub total_directories: TypeCount,
    /// The total of domain sockets.
    pub total_sockets: TypeCount,
    /// The total of named pipes (FIFO — first-in, first-out).
    pub total_fifos: TypeCount,
    /// The total of block devices.
    pub total_blocks: TypeCount,
    /// The total of character devices.
    pub total_characters: TypeCount,
    /// The total of symbolic links.
    pub total_symlinks: TypeCount,
    /// The total of hidden entries.
    pub total_hiddens: TypeCount,
    /// The total of temporary entries.
    pub total_temporaries: TypeCount,
}

impl View for TypeCounts {
    type V = CountsModel;

    open spec fn view(&self) -> CountsModel {
        CountsModel {
            files: self.total_files as int,
            directories: self.total_directories as int,
            sockets: self.total_sockets as int,
            fifos: self.total_fifos as int,
            blocks: self.total_blocks as int,
            characters: self.total_characters as int,
            symlinks: self.total_symlinks as int,
            hiddens: self.total_hiddens as int,
            temporaries: self.total_temporaries as int,
        }
    }
}

impl Default for TypeCounts {
    /// A count with every counter at zero.
    fn default() -> (r: Self)
        ensures
            r@ == zero_counts(),
    {
        TypeCounts {
            total_files: 0,
            total_directories: 0,
            total_sockets: 0,
            total_fifos: 0,
            total_blocks: 0,
            total_characters: 0,
            total_symlinks: 0,
            total_hiddens: 0,
            total_temporaries: 0,
        }
    }
}

/// Accumulates the type counts of a sequence of scanned directory entries.
/// Dot-special entries are skipped entirely; every other entry increments
/// exactly one type counter, the temporary counter when its name ends in `~`,
/// and the hidden counter when it is known to be hidden.
pub fn entry_type_counts(entries: &Vec<Entry>) -> (counts: TypeCounts)
    ensures
        counts@ == spec_counts(entries@),
{
    let mut counts = TypeCounts::default();
    let mut i: usize = 0;
    while i < entries.len()
        invariant
            i <= entries.len(),
            counts@ == spec_counts(entries@.take(i as int)),
            counts.total_files <= i,
            counts.total_directories <= i,
            counts.total_sockets <= i,
            counts.total_fifos <= i,
            counts.total_blocks <= i,
            counts.total_characters <= i,
            counts.total_symlinks <= i,
            counts.total_hiddens <= i,
            counts.total_temporaries <= i,
        decreases entries.len() - i,
    {
        proof {
            assert(entries@.take(i + 1).drop_last() =~= entries@.take(i as int));
            assert(entries@.take(i + 1).last() == entries@[i as int]);
        }
        let entry = &entries[i];
        if !entry.is_dot_special() {
            if entry.is_temporary() {
                counts.total_temporaries = counts.total_temporaries + 1;
            }
            match entry.is_hidden() {
                Ok(true) => {
                    counts.total_hiddens = counts.total_hiddens + 1;
                },
                _ => {},
            }
            match entry.kind() {
                EntryKind::File => {
                    counts.total_files = counts.total_files + 1;
                },
                EntryKind::Directory => {
                    counts.total_directories = counts.total_directories + 1;
                },
                EntryKind::Socket => {
                    counts.total_sockets = counts.total_sockets + 1;
                },
                EntryKind::Fifo => {
                    counts.total_fifos = counts.total_fifos + 1;
                },
                EntryKind::Block => {
                    counts.total_blocks = counts.total_blocks + 1;
                },
                EntryKind::Character => {
                    counts.total_characters = counts.total_characters + 1;
                },
                EntryKind::Symlink => {
                    counts.total_symlinks = counts.total_symlinks + 1;
                },
            }
        }
        i = i + 1;
    }
    proof {
        assert(entries@.take(entries@.len() as int) =~= entries@);
    }
    counts
}

/// How many entries of a sequence are scanned into the counters, that is,
/// are not dot-special.
pub open spec fn spec_scanned(s: Seq<Entry>) -> int
    decreases s.len(),
{
    if s.len() == 0 {
        0
    } else {
        spec_scanned(s.drop_last()) + if spec_is_dot_special(s.last().name@) {
            0int
        } else {
            1int
        }
    }
}

/// For any sequence of entries, the sum of the seven type counters equals the
/// number of non-dot-special entries scanned.
pub proof fn lemma_type_counters_sum(s: Seq<Entry>)
    ensures
        spec_counts(s).files + spec_counts(s).directories + spec_counts(s).sockets + spec_counts(
            s,
        ).fifos + spec_counts(s).blocks + spec_counts(s).characters + spec_counts(s).symlinks
            == spec_scanned(s),
    decreases s.len(),
{
    if s.len() > 0 {
        lemma_type_counters_sum(s.drop_last());
    }
}

/// A dot-special entry never contributes to any counter: inserting one
/// anywhere in a scan leaves every counter unchanged.
pub proof fn lemma_dot_special_never_counted(s: Seq<Entry>, i: int, e: Entry)
    requires
        0 <= i <= s.len(),
        spec_is_dot_special(e.name@),
    ensures
        spec_counts(s.insert(i, e)) == spec_counts(s),
    decreases s.len(),
{
    if i == s.len() {
        assert(s.insert(i, e).drop_last() =~= s);
    } else {
        assert(s.insert(i, e).drop_last() =~= s.drop_last().insert(i, e));
        assert(s.insert(i, e).last() == s.last());
        lemma_dot_special_never_counted(s.drop_last(), i, e);
    }
}

} // verus!

//! Resolution of Git repository metadata: the current reference (a branch
//! name, or the short hash of an in-progress interactive rebase) and the
//! dirty status of the working tree. The repository itself is read through
//! the `git2` crate; every decision taken on what it reports is verified.

use vstd::prelude::*;

use crate::text;

verus! {

/// The default branch name used by Git.
pub const DEFAULT_BRANCH_NAME: &'static str = "master";

#[verifier::external_type_specification]
#[verifier::external_body]
pub struct ExGitRepository(git2::Repository);

#[verifier::external_type_specification]
#[verifier::external_body]
pub struct ExGitReference<'a>(git2::Reference<'a>);

#[verifier::external_type_specification]
#[verifier::external_body]
pub struct ExGitOid(git2::Oid);

#[verifier::external_type_specification]
#[verifier::external_body]
pub struct ExGitConfig(git2::Config);

/// Contains the possible reference types used by Git to identify the state
/// of a repository.
#[derive(Debug, Clone)]
pub enum GitReference {
    /// A branch name.
    Branch(String),
    /// A hash describing a rebase operation, truncated to seven characters.
    RebaseHash(String),
}

/// The mathematical model of a `GitReference`: the characters it carries.
pub enum ReferenceModel {
    Branch(Seq<char>),
    RebaseHash(Seq<char>),
}

impl View for GitReference {
    type V = ReferenceModel;

    open spec fn view(&self) -> ReferenceModel {
        match self {
            GitReference::Branch(name) => ReferenceModel::Branch(name@),
            GitReference::RebaseHash(hash) => ReferenceModel::RebaseHash(hash@),
        }
    }
}

/// Contains the metadata of a Git repository.
#[derive(Debug, Clone)]
pub struct GitRepository {
    /// The full path to the repository: its working directory, or its
    /// metadata directory when it has no working directory.
    pub path: String,
    /// The type of reference being used to represent its current state.
    pub reference: GitReference,
    /// A boolean that states it is dirty, this is, it contains uncommitted
    /// changes.
    pub is_dirty: bool,
}

/// The first seven characters of a hash, or all of it when it is shorter.
pub open spec fn first_seven(hash: Seq<char>) -> Seq<char> {
    if hash.len() <= 7 {
        hash
    } else {
        hash.subrange(0, 7)
    }
}

/// Truncates a hash to its first seven characters.
pub fn short_hash(hash: &str) -> (r: String)
    ensures
        r@ == first_seven(hash@),
{
    let length = hash.unicode_len();
    if length <= 7 {
        String::from_str(hash)
    } else {
        text::substring(hash, 0, 7)
    }
}

/// The branch name a symbolic head reference points at: the part after
/// `refs/heads/`, or nothing when the reference lies outside that namespace.
pub open spec fn spec_branch_of_head(data: Seq<char>) -> Option<Seq<char>> {
    if text::spec_starts_with(data, "refs/heads/"@) {
        Some(data.subrange("refs/heads/"@.len() as int, data.len() as int))
    } else {
        None
    }
}

/// Parses the branch name out of a symbolic head reference, accepting only
/// the `refs/heads/` namespace.
pub fn branch_of_head(data: &str) -> (r: Option<String>)
    ensures
        r matches Some(branch) ==> spec_branch_of_head(data@) == Some(branch@),
        r is Some <==> spec_branch_of_head(data@) is Some,
{
    let prefix = "refs/heads/";
    if text::starts_with(data, prefix) {
        let prefix_length = prefix.unicode_len();
        let data_length = data.unicode_len();
        Some(text::substring(data, prefix_length, data_length))
    } else {
        None
    }
}

/// The reference an ordered fallback chain resolves, first success winning:
/// the truncated rebase hash when a rebase is in progress and the head has a
/// target; the head's short branch name otherwise; failing those, the branch
/// the raw symbolic head reference names; failing that, the configured
/// default branch name; and as terminal default, `master`.
pub open spec fn spec_resolve_reference(
    rebase: bool,
    target: Option<Seq<char>>,
    shorthand: Option<Seq<char>>,
    symbolic: Option<Seq<char>>,
    config_default: Option<Seq<char>>,
) -> ReferenceModel {
    if rebase && target is Some {
        ReferenceModel::RebaseHash(first_seven(target->0))
    } else if !rebase && shorthand is Some {
        ReferenceModel::Branch(shorthand->0)
    } else if symbolic is Some && spec_branch_of_head(symbolic->0) is Some {
        ReferenceModel::Branch(spec_branch_of_head(symbolic->0)->0)
    } else if config_default is Some {
        ReferenceModel::Branch(config_default->0)
    } else {
        ReferenceModel::Branch("master"@)
    }
}

/// Resolves the reference of a repository from what its metadata reported:
/// whether an interactive rebase is in progress, the head's target hash and
/// short name, the raw symbolic head reference, and the configured default
/// branch name.
pub fn resolve_reference(
    rebase: bool,
    target: &Option<String>,
    shorthand: &Option<String>,
    symbolic: &Option<String>,
    config_default: &Option<String>,
) -> (r: GitReference)
    ensures
        r@ == spec_resolve_reference(
            rebase,
            target.deep_view(),
            shorthand.deep_view(),
            symbolic.deep_view(),
            config_default.deep_view(),
        ),
{
    if rebase {
        if let Some(hash) = target {
            return GitReference::RebaseHash(short_hash(hash.as_str()));
        }
    } else {
        if let Some(name) = shorthand {
            return GitReference::Branch(name.clone());
        }
    }
    if let Some(data) = symbolic {
        if let Some(branch) = branch_of_head(data.as_str()) {
            return GitReference::Branch(branch);
        }
    }
    if let Some(name) = config_default {
        return GitReference::Branch(name.clone());
    }
    GitReference::Branch(String::from_str(DEFAULT_BRANCH_NAME))
}

/// The status bit Git sets on an entry only ignore rules match.
pub const STATUS_IGNORED: u32 = 0x4000;

/// The status bit of an entry newly added to the index.
pub const STATUS_INDEX_NEW: u32 = 0x0001;

/// The status bit of an entry modified in the index.
pub const STATUS_INDEX_MODIFIED: u32 = 0x0002;

/// The status bit of an entry deleted from the index.
pub const STATUS_INDEX_DELETED: u32 = 0x0004;

/// The status bit of an entry renamed in the index.
pub const STATUS_INDEX_RENAMED: u32 = 0x0008;

/// The status bit of an entry whose type changed in the index.
pub const STATUS_INDEX_TYPECHANGE: u32 = 0x0010;

/// The status bit of an entry new in the working tree.
pub const STATUS_WT_NEW: u32 = 0x0080;

/// The status bit of an entry modified in the working tree.
pub const STATUS_WT_MODIFIED: u32 = 0x0100;

/// The status bit of an entry deleted from the working tree.
pub const STATUS_WT_DELETED: u32 = 0x0200;

/// The status bit of an entry whose type changed in the working tree.
pub const STATUS_WT_TYPECHANGE: u32 = 0x0400;

/// The status bit of an entry renamed in the working tree.
pub const STATUS_WT_RENAMED: u32 = 0x0800;

/// The status bits that mark a repository dirty: a new, modified, deleted,
/// renamed or type-changed state in either the index or the working tree.
pub const STATUS_DIRTY_MASK: u32 = STATUS_INDEX_NEW | STATUS_INDEX_MODIFIED | STATUS_INDEX_DELETED
    | STATUS_INDEX_RENAMED | STATUS_INDEX_TYPECHANGE | STATUS_WT_NEW | STATUS_WT_MODIFIED
    | STATUS_WT_DELETED | STATUS_WT_TYPECHANGE | STATUS_WT_RENAMED;

/// Whether one status entry marks the repository dirty: it is not ignored,
/// and it carries at least one change bit.
pub open spec fn spec_entry_dirty(bits: u32) -> bool {
    bits & STATUS_IGNORED == 0 && bits & STATUS_DIRTY_MASK != 0
}

/// Whether a status enumeration outcome marks the repository dirty. A failed
/// enumeration (`None`) never does.
pub open spec fn spec_dirty(outcome: Option<Seq<u32>>) -> bool {
    match outcome {
        None => false,
        Some(entries) => exists|i: int| 0 <= i < entries.len() && spec_entry_dirty(entries[i]),
    }
}

/// Decides the dirty status from the outcome of a status enumeration: dirty
/// exactly when the enumeration succeeded and some entry not marked ignored
/// carries a change bit; a failed enumeration yields clean, never an error.
pub fn dirty_from_status(outcome: &Option<Vec<u32>>) -> (r: bool)
    ensures
        r == spec_dirty(outcome.deep_view()),
{
    match outcome {
        None => false,
        Some(entries) => {
            proof {
                assert(entries.deep_view() =~= entries@);
            }
            let mut i: usize = 0;
            while i < entries.len()
                invariant
                    i <= entries.len(),
                    entries.deep_view() =~= entries@,
                    outcome.deep_view() == Some(entries.deep_view()),
                    forall|j: int| 0 <= j < i ==> !spec_entry_dirty(entries@[j]),
                decreases entries.len() - i,
            {
                let bits = entries[i];
                if bits & STATUS_IGNORED == 0 && bits & STATUS_DIRTY_MASK != 0 {
                    proof {
                        let dv = outcome.deep_view()->0;
                        assert(dv == entries.deep_view());
                        assert(0 <= i < dv.len() && spec_entry_dirty(dv[i as int]));
                        assert(spec_dirty(outcome.deep_view()));
                    }
                    return true;
                }
                i = i + 1;
            }
            false
        },
    }
}

/// Relies on git2::Repository::discover: walks upward from the given
/// directory looking for an enclosing repository; an error becomes `None`.
#[verifier::external_body]
fn discover_repository() -> (r: Option<git2::Repository>) {
    git2::Repository::discover(".").ok()
}

/// Relies on git2::Repository::state: reports whether the repository sits in
/// an interactive-rebase operation.
#[verifier::external_body]
fn is_interactive_rebase(repository: &git2::Repository) -> (r: bool) {
    repository.state() == git2::RepositoryState::RebaseInteractive
}

/// Relies on git2::Repository::head: retrieves the reference the repository
/// head points at; an error (as on an unborn branch) becomes `None`.
#[verifier::external_body]
fn repository_head<'a>(repository: &'a git2::Repository) -> (r: Option<git2::Reference<'a>>) {
    repository.head().ok()
}

/// Relies on git2::Reference::target: the object id a direct reference
/// points at; `None` for symbolic references.
#[verifier::external_body]
fn reference_target(reference: &git2::Reference) -> (r: Option<git2::Oid>) {
    reference.target()
}

/// Relies on git2::Oid::to_string, which hex-encodes the twenty object id
/// bytes: the result always has forty characters.
#[verifier::external_body]
fn oid_hex(oid: &git2::Oid) -> (r: String)
    ensures
        r@.len() == 40,
{
    oid.to_string()
}

/// Relies on git2::Reference::shorthand: the human-readable short name of
/// the reference; an invalid name becomes `None`.
#[verifier::external_body]
fn reference_shorthand(reference: &git2::Reference) -> (r: Option<String>) {
    reference.shorthand().ok().map(|name| name.to_string())
}

/// Relies on git2::Repository::find_reference: looks a reference up by its
/// full name; an error becomes `None`.
#[verifier::external_body]
fn find_reference<'a>(repository: &'a git2::Repository, name: &str) -> (r: Option<
    git2::Reference<'a>,
>) {
    repository.find_reference(name).ok()
}

/// Relies on git2::Reference::symbolic_target: the full name of the
/// reference a symbolic reference points at; direct references and errors
/// become `None`.
#[verifier::external_body]
fn reference_symbolic_target(reference: &git2::Reference) -> (r: Option<String>) {
    match reference.symbolic_target() {
        Ok(Some(name)) => Some(name.to_string()),
        _ => None,
    }
}

/// Relies on git2::Repository::config: the configuration of the repository;
/// an error becomes `None`.
#[verifier::external_body]
fn repository_config(repository: &git2::Repository) -> (r: Option<git2::Config>) {
    repository.config().ok()
}

/// Relies on git2::Config::get_string: looks a configuration value up by
/// name; an unset name or an error becomes `None`.
#[verifier::external_body]
fn config_string(config: &git2::Config, name: &str) -> (r: Option<String>) {
    config.get_string(name).ok()
}

/// Relies on git2::Repository::statuses and git2::StatusEntry::status: the
/// status bits of every working-tree and index entry, in enumeration order;
/// a failed enumeration becomes `None`.
#[verifier::external_body]
fn repository_status_bits(repository: &git2::Repository) -> (r: Option<Vec<u32>>) {
    let statuses = repository.statuses(None).ok()?;
    Some(statuses.iter().map(|entry| entry.status().bits()).collect())
}

/// Relies on git2::Repository::workdir: the working directory of the
/// repository, or `None` when it is bare.
#[verifier::external_body]
fn repository_workdir(repository: &git2::Repository) -> (r: Option<String>) {
    repository.workdir().map(|path| path.to_string_lossy().into_owned())
}

/// Relies on git2::Repository::path: the path of the repository's metadata
/// directory.
#[verifier::external_body]
fn repository_path(repository: &git2::Repository) -> (r: String) {
    repository.path().to_string_lossy().into_owned()
}

/// Finds the metadata of a possibly enclosing Git repository by searching
/// upward from the current directory. Returns nothing when no repository
/// encloses it. Once a repository is found, some reference is always
/// resolved; a rebase hash is always exactly seven characters.
pub fn find_repository() -> (r: Option<GitRepository>)
    ensures
        r matches Some(repository) ==> match repository.reference@ {
            ReferenceModel::RebaseHash(hash) => hash.len() == 7,
            ReferenceModel::Branch(_) => true,
        },
{
    let repository = match discover_repository() {
        Some(repository) => repository,
        None => {
            return None;
        },
    };
    let rebase = is_interactive_rebase(&repository);
    let head = repository_head(&repository);
    let (target, shorthand) = match &head {
        Some(head) => {
            let target = match reference_target(head) {
                Some(oid) => Some(oid_hex(&oid)),
                None => None,
            };
            (target, reference_shorthand(head))
        },
        None => (None, None),
    };
    let symbolic = match find_reference(&repository, "HEAD") {
        Some(head) => reference_symbolic_target(&head),
        None => None,
    };
    let config_default = match repository_config(&repository) {
        Some(config) => config_string(&config, "init.defaultBranch"),
        None => None,
    };
    let reference = resolve_reference(rebase, &target, &shorthand, &symbolic, &config_default);
    let status = repository_status_bits(&repository);
    let is_dirty = dirty_from_status(&status);
    let path = match repository_workdir(&repository) {
        Some(path) => path,
        None => repository_path(&repository),
    };
    Some(GitRepository { path, reference, is_dirty })
}

} // verus!

use river_dreams::git::{
    branch_of_head, dirty_from_status, find_repository, resolve_reference, short_hash,
    GitReference, STATUS_DIRTY_MASK, STATUS_IGNORED, STATUS_INDEX_DELETED, STATUS_INDEX_MODIFIED,
    STATUS_INDEX_NEW, STATUS_INDEX_RENAMED, STATUS_INDEX_TYPECHANGE, STATUS_WT_DELETED,
    STATUS_WT_MODIFIED, STATUS_WT_NEW, STATUS_WT_RENAMED, STATUS_WT_TYPECHANGE,
};

fn branch_name(reference: &GitReference) -> &str {
    match reference {
        GitReference::Branch(name) => name.as_str(),
        GitReference::RebaseHash(_) => panic!("expected a branch"),
    }
}

#[test]
fn commit_on_main_without_rebase_resolves_branch_main() {
    let reference = resolve_reference(
        false,
        &Some(String::from("abcdef1234567890abcdef1234567890abcdef12")),
        &Some(String::from("main")),
        &Some(String::from("refs/heads/main")),
        &None,
    );
    assert_eq!(branch_name(&reference), "main");
}

#[test]
fn interactive_rebase_resolves_seven_character_hash() {
    let reference = resolve_reference(
        true,
        &Some(String::from("abcdef1234567890")),
        &Some(String::from("main")),
        &None,
        &None,
    );
    match reference {
        GitReference::RebaseHash(hash) => {
            assert_eq!(hash, "abcdef1");
            assert_eq!(hash.chars().count(), 7);
        }
        GitReference::Branch(_) => panic!("expected a rebase hash"),
    }
}

#[test]
fn unborn_head_resolves_the_symbolic_reference() {
    let reference = resolve_reference(
        false,
        &None,
        &None,
        &Some(String::from("refs/heads/trunk")),
        &Some(String::from("trunk")),
    );
    assert_eq!(branch_name(&reference), "trunk");
}

#[test]
fn fresh_repository_with_default_branch_resolves_it() {
    let reference = resolve_reference(false, &None, &None, &None, &Some(String::from("trunk")));
    assert_eq!(branch_name(&reference), "trunk");
}

#[test]
fn exhausted_fallbacks_resolve_master() {
    let reference = resolve_reference(false, &None, &None, &None, &None);
    assert_eq!(branch_name(&reference), "master");
}

#[test]
fn rebase_without_target_falls_back() {
    let reference = resolve_reference(true, &None, &Some(String::from("main")), &None, &None);
    assert_eq!(branch_name(&reference), "master");
}

#[test]
fn branch_of_head_accepts_only_the_heads_namespace() {
    assert_eq!(
        branch_of_head("refs/heads/dev"),
        Some(String::from("dev"))
    );
    assert_eq!(branch_of_head("refs/tags/v1.0"), None);
    assert_eq!(branch_of_head("abcdef1234567890"), None);
}

#[test]
fn short_hash_truncates_to_seven() {
    assert_eq!(
        short_hash("abcdef1234567890abcdef1234567890abcdef12"),
        "abcdef1"
    );
    assert_eq!(short_hash("abc"), "abc");
    assert_eq!(short_hash(""), "");
}

#[test]
fn modified_tracked_file_is_dirty() {
    let status = Some(vec![git2::Status::WT_MODIFIED.bits()]);
    assert!(dirty_from_status(&status));
}

#[test]
fn only_ignored_changes_are_clean() {
    let status = Some(vec![git2::Status::IGNORED.bits()]);
    assert!(!dirty_from_status(&status));
    let ignored_new = Some(vec![(git2::Status::IGNORED | git2::Status::WT_NEW).bits()]);
    assert!(!dirty_from_status(&ignored_new));
}

#[test]
fn status_query_failure_is_clean_not_an_error() {
    assert!(!dirty_from_status(&None));
}

#[test]
fn empty_status_enumeration_is_clean() {
    assert!(!dirty_from_status(&Some(Vec::new())));
}

#[test]
fn every_change_bit_marks_dirty() {
    for bits in [
        git2::Status::INDEX_NEW,
        git2::Status::INDEX_MODIFIED,
        git2::Status::INDEX_DELETED,
        git2::Status::INDEX_RENAMED,
        git2::Status::INDEX_TYPECHANGE,
        git2::Status::WT_NEW,
        git2::Status::WT_MODIFIED,
        git2::Status::WT_DELETED,
        git2::Status::WT_TYPECHANGE,
        git2::Status::WT_RENAMED,
    ] {
        assert!(dirty_from_status(&Some(vec![bits.bits()])));
    }
}

#[test]
fn status_bits_match_the_git_crate() {
    assert_eq!(STATUS_IGNORED, git2::Status::IGNORED.bits());
    assert_eq!(STATUS_INDEX_NEW, git2::Status::INDEX_NEW.bits());
    assert_eq!(STATUS_INDEX_MODIFIED, git2::Status::INDEX_MODIFIED.bits());
    assert_eq!(STATUS_INDEX_DELETED, git2::Status::INDEX_DELETED.bits());
    assert_eq!(STATUS_INDEX_RENAMED, git2::Status::INDEX_RENAMED.bits());
    assert_eq!(
        STATUS_INDEX_TYPECHANGE,
        git2::Status::INDEX_TYPECHANGE.bits()
    );
    assert_eq!(STATUS_WT_NEW, git2::Status::WT_NEW.bits());
    assert_eq!(STATUS_WT_MODIFIED, git2::Status::WT_MODIFIED.bits());
    assert_eq!(STATUS_WT_DELETED, git2::Status::WT_DELETED.bits());
    assert_eq!(STATUS_WT_TYPECHANGE, git2::Status::WT_TYPECHANGE.bits());
    assert_eq!(STATUS_WT_RENAMED, git2::Status::WT_RENAMED.bits());
    let expected_mask = git2::Status::INDEX_NEW
        | git2::Status::INDEX_MODIFIED
        | git2::Status::INDEX_DELETED
        | git2::Status::INDEX_RENAMED
        | git2::Status::INDEX_TYPECHANGE
        | git2::Status::WT_NEW
        | git2::Status::WT_MODIFIED
        | git2::Status::WT_DELETED
        | git2::Status::WT_TYPECHANGE
        | git2::Status::WT_RENAMED;
    assert_eq!(STATUS_DIRTY_MASK, expected_mask.bits());
}

#[test]
fn find_repository_yields_short_rebase_hashes() {
    if let Some(repository) = find_repository() {
        if let GitReference::RebaseHash(hash) = repository.reference {
            assert_eq!(hash.chars().count(), 7);
        }
        assert!(!repository.path.is_empty());
    }
}

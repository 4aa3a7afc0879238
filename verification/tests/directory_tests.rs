use river_dreams::directory::{
    entry_type_counts, Entry, EntryKind, HiddenAttribute, TypeCounts, TAG_BLOCK, TAG_CHARACTER,
    TAG_DIRECTORY, TAG_FIFO, TAG_SOCKET, TAG_SYMLINK,
};

fn entry(name: &str, type_tag: u8) -> Entry {
    Entry {
        name: name.as_bytes().to_vec(),
        type_tag,
        hidden_attribute: HiddenAttribute::Clear,
    }
}

const TAG_FILE: u8 = 8;

#[test]
fn empty_directory_counts_all_zero() {
    let counts = entry_type_counts(&Vec::new());
    assert_eq!(counts, TypeCounts::default());
    assert_eq!(counts.total_files, 0);
    assert_eq!(counts.total_directories, 0);
    assert_eq!(counts.total_sockets, 0);
    assert_eq!(counts.total_fifos, 0);
    assert_eq!(counts.total_blocks, 0);
    assert_eq!(counts.total_characters, 0);
    assert_eq!(counts.total_symlinks, 0);
    assert_eq!(counts.total_hiddens, 0);
    assert_eq!(counts.total_temporaries, 0);
}

#[test]
fn dot_special_entries_never_count() {
    let entries = vec![
        entry(".", TAG_DIRECTORY),
        entry("..", TAG_DIRECTORY),
        entry("a", TAG_FILE),
    ];
    let counts = entry_type_counts(&entries);
    assert_eq!(counts.total_files, 1);
    assert_eq!(counts.total_directories, 0);
    assert_eq!(counts.total_hiddens, 0);
    assert_eq!(counts.total_temporaries, 0);
}

#[test]
fn tilde_name_is_temporary_not_dot_special() {
    let tilde = entry("~", TAG_FILE);
    assert!(!tilde.is_dot_special());
    assert!(tilde.is_temporary());
    let counts = entry_type_counts(&vec![tilde]);
    assert_eq!(counts.total_temporaries, 1);
    assert_eq!(counts.total_files, 1);
}

#[test]
fn type_counters_sum_to_scanned_entries() {
    let entries = vec![
        entry(".", TAG_DIRECTORY),
        entry("..", TAG_DIRECTORY),
        entry("file", TAG_FILE),
        entry("dir", TAG_DIRECTORY),
        entry("sock", TAG_SOCKET),
        entry("fifo", TAG_FIFO),
        entry("blk", TAG_BLOCK),
        entry("chr", TAG_CHARACTER),
        entry("lnk", TAG_SYMLINK),
        entry("unknown-tag", 99),
        entry(".hidden", TAG_FILE),
        entry("draft~", TAG_FILE),
    ];
    let scanned = entries
        .iter()
        .filter(|entry| !entry.is_dot_special())
        .count();
    let counts = entry_type_counts(&entries);
    let type_sum = counts.total_files
        + counts.total_directories
        + counts.total_sockets
        + counts.total_fifos
        + counts.total_blocks
        + counts.total_characters
        + counts.total_symlinks;
    assert_eq!(type_sum, scanned);
    assert_eq!(type_sum, 10);
    assert_eq!(counts.total_files, 4);
    assert_eq!(counts.total_directories, 1);
    assert_eq!(counts.total_sockets, 1);
    assert_eq!(counts.total_fifos, 1);
    assert_eq!(counts.total_blocks, 1);
    assert_eq!(counts.total_characters, 1);
    assert_eq!(counts.total_symlinks, 1);
    assert_eq!(counts.total_hiddens, 1);
    assert_eq!(counts.total_temporaries, 1);
}

#[test]
fn unrecognized_tags_classify_as_file() {
    assert_eq!(entry("x", 0).kind(), EntryKind::File);
    assert_eq!(entry("x", 99).kind(), EntryKind::File);
    assert_eq!(entry("x", TAG_DIRECTORY).kind(), EntryKind::Directory);
    assert_eq!(entry("x", TAG_SOCKET).kind(), EntryKind::Socket);
    assert_eq!(entry("x", TAG_FIFO).kind(), EntryKind::Fifo);
    assert_eq!(entry("x", TAG_BLOCK).kind(), EntryKind::Block);
    assert_eq!(entry("x", TAG_CHARACTER).kind(), EntryKind::Character);
    assert_eq!(entry("x", TAG_SYMLINK).kind(), EntryKind::Symlink);
}

#[test]
fn hidden_status_follows_name_and_attribute() {
    assert_eq!(entry(".config", TAG_FILE).is_hidden(), Ok(true));
    assert_eq!(entry("config", TAG_FILE).is_hidden(), Ok(false));
    let marked = Entry {
        name: b"plain".to_vec(),
        type_tag: TAG_FILE,
        hidden_attribute: HiddenAttribute::Marked,
    };
    assert_eq!(marked.is_hidden(), Ok(true));
    let unknown = Entry {
        name: b"plain".to_vec(),
        type_tag: TAG_FILE,
        hidden_attribute: HiddenAttribute::Unknown,
    };
    assert_eq!(unknown.is_hidden(), Err(()));
}

#[test]
fn unknown_hidden_status_skips_only_the_hidden_counter() {
    let unknown = Entry {
        name: b"plain".to_vec(),
        type_tag: TAG_DIRECTORY,
        hidden_attribute: HiddenAttribute::Unknown,
    };
    let counts = entry_type_counts(&vec![unknown]);
    assert_eq!(counts.total_hiddens, 0);
    assert_eq!(counts.total_directories, 1);
}

#[test]
fn marked_attribute_counts_as_hidden() {
    let marked = Entry {
        name: b"plain".to_vec(),
        type_tag: TAG_FILE,
        hidden_attribute: HiddenAttribute::Marked,
    };
    let counts = entry_type_counts(&vec![marked]);
    assert_eq!(counts.total_hiddens, 1);
    assert_eq!(counts.total_files, 1);
}

#[test]
fn dot_special_checks_exact_names() {
    assert!(entry(".", TAG_DIRECTORY).is_dot_special());
    assert!(entry("..", TAG_DIRECTORY).is_dot_special());
    assert!(!entry("...", TAG_DIRECTORY).is_dot_special());
    assert!(!entry(".a", TAG_FILE).is_dot_special());
    assert!(!entry("", TAG_FILE).is_dot_special());
}

#[test]
fn temporary_checks_the_last_byte() {
    assert!(entry("draft~", 8).is_temporary());
    assert!(entry("~", 8).is_temporary());
    assert!(!entry("~draft", 8).is_temporary());
    assert!(!entry("", 8).is_temporary());
}

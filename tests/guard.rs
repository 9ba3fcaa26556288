use server_maker::error::MakerError;
use server_maker::guard::{check_entries, foreign_entries, is_allowed, Entry, EntryKind};

fn dir(path: &str) -> Entry {
    Entry { path: path.to_string(), kind: EntryKind::Directory }
}

fn file(path: &str) -> Entry {
    Entry { path: path.to_string(), kind: EntryKind::File }
}

#[test]
fn allow_list_is_exact() {
    assert!(is_allowed(&dir("./share"), "maker"));
    assert!(is_allowed(&file("./config.json"), "maker"));
    assert!(is_allowed(&file("./maker"), "maker"));
    assert!(!is_allowed(&dir("./share2"), "maker"));
    assert!(!is_allowed(&dir("./config.json"), "maker"));
    assert!(!is_allowed(&file("./share"), "maker"));
    assert!(!is_allowed(&file("./maker.bak"), "maker"));
    assert!(!is_allowed(&file("./config.json.old"), "maker"));
}

#[test]
fn clean_directory_passes_with_or_without_force() {
    let entries = vec![dir("./share"), file("./config.json"), file("./maker")];
    assert_eq!(check_entries(&entries, "maker", false), Ok(vec![]));
    assert_eq!(check_entries(&entries, "maker", true), Ok(vec![]));
    assert_eq!(check_entries(&vec![], "maker", false), Ok(vec![]));
}

#[test]
fn one_unexpected_file() {
    let entries = vec![dir("./share"), file("./notes.txt"), file("./config.json")];
    assert_eq!(
        check_entries(&entries, "maker", false),
        Err(MakerError::NotEmpty { entries: vec!["./notes.txt".to_string()] })
    );
    assert_eq!(check_entries(&entries, "maker", true), Ok(vec![file("./notes.txt")]));
}

#[test]
fn every_foreign_entry_is_reported() {
    let entries = vec![dir("./old"), dir("./share"), file("./a"), file("./config.json"), dir("./sharex")];
    assert_eq!(foreign_entries(&entries, "maker"), vec![dir("./old"), file("./a"), dir("./sharex")]);
    assert_eq!(
        check_entries(&entries, "maker", false),
        Err(MakerError::NotEmpty {
            entries: vec!["./old".to_string(), "./a".to_string(), "./sharex".to_string()]
        })
    );
}

#[test]
fn second_run_is_refused_without_force() {
    let entries = vec![
        dir("./share"),
        file("./config.json"),
        file("./maker"),
        dir("./auth"),
        dir("./channel1"),
        dir("./db"),
        file("./start.sh"),
    ];
    assert_eq!(
        check_entries(&entries, "maker", false),
        Err(MakerError::NotEmpty {
            entries: vec![
                "./auth".to_string(),
                "./channel1".to_string(),
                "./db".to_string(),
                "./start.sh".to_string()
            ]
        })
    );
}

#[test]
fn removal_failures_name_the_entry() {
    assert_eq!(dir("./old").removal_error(), MakerError::RemoveDirectory { path: "./old".to_string() });
    assert_eq!(file("./a").removal_error(), MakerError::RemoveFile { path: "./a".to_string() });
}

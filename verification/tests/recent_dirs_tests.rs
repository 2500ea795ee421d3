use crabmander::recent_dirs::{load, push, save, MAX};

// --- push ---

#[test]
fn push_new_entry_goes_to_front() {
    let mut dirs = vec!["/a".to_owned(), "/b".to_owned()];
    push(&mut dirs, "/new".to_owned());
    assert_eq!(dirs[0], "/new");
    assert_eq!(dirs.len(), 3);
}

#[test]
fn push_existing_entry_moves_to_front() {
    let mut dirs = vec!["/a".to_owned(), "/b".to_owned(), "/c".to_owned()];
    push(&mut dirs, "/b".to_owned());
    assert_eq!(dirs[0], "/b");
    assert_eq!(dirs.len(), 3, "no duplicates after moving to front");
}

#[test]
fn push_deduplicates_identical_paths() {
    let mut dirs = vec!["/a".to_owned(), "/a".to_owned()];
    push(&mut dirs, "/a".to_owned());
    assert_eq!(dirs.len(), 1);
    assert_eq!(dirs[0], "/a");
}

#[test]
fn push_truncates_to_max() {
    let mut dirs: Vec<String> = (0..MAX).map(|i| format!("/{i}")).collect();
    push(&mut dirs, "/extra".to_owned());
    assert_eq!(dirs.len(), MAX);
    assert_eq!(dirs[0], "/extra");
}

#[test]
fn push_truncates_oldest_entry() {
    let mut dirs: Vec<String> = (0..MAX).map(|i| format!("/{i}")).collect();
    let last_before = dirs.last().unwrap().clone();
    push(&mut dirs, "/new".to_owned());
    assert!(!dirs.contains(&last_before), "oldest entry should be dropped");
}

// --- load ---

#[test]
fn load_nonexistent_dir_returns_empty() {
    // A file that could not be read.
    assert_eq!(load(None), Vec::<String>::new());
}

// --- save + load ---

#[test]
fn save_and_load_round_trip() {
    let expected = vec!["/foo".to_owned(), "/bar/baz".to_owned()];
    let text = save(&expected).unwrap();
    let loaded = load(Some(text));
    assert_eq!(loaded, expected);
}

#[test]
fn save_empty_list_then_load_returns_empty() {
    let text = save(&Vec::new()).unwrap();
    let loaded = load(Some(text));
    assert!(loaded.is_empty());
}

// --- own cases ---

#[test]
fn save_writes_a_json_array() {
    let text = save(&vec!["/a".to_owned(), "/b c".to_owned()]).unwrap();
    assert_eq!(text, "[\"/a\",\"/b c\"]");
}

#[test]
fn load_of_garbage_is_empty() {
    assert!(load(Some("not json".to_owned())).is_empty());
    assert!(load(Some("{\"a\":1}".to_owned())).is_empty());
}

#[test]
fn load_reads_a_json_array() {
    assert_eq!(load(Some("[\"/x\", \"/y\"]".to_owned())), vec!["/x".to_owned(), "/y".to_owned()]);
}

#[test]
fn push_twice_is_push_once() {
    let mut once = vec!["/a".to_owned(), "/b".to_owned()];
    push(&mut once, "/b".to_owned());
    let mut twice = once.clone();
    push(&mut twice, "/b".to_owned());
    assert_eq!(once, twice);
}

#[test]
fn push_treats_a_trailing_slash_as_the_same_directory() {
    let mut dirs = vec!["/a/".to_string(), "/b".to_string(), "/a//".to_string()];
    push(&mut dirs, "/a".to_string());
    assert_eq!(dirs, vec!["/a".to_string(), "/b".to_string()]);
}

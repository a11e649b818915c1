use filedrop::listing::{list_files, EntryRead};

fn names(reads: Vec<EntryRead>) -> Vec<String> {
    list_files(&reads).into_iter().map(|f| f.name).collect()
}

#[test]
fn empty_directory_lists_nothing() {
    assert!(names(vec![]).is_empty());
}

#[test]
fn listing_keeps_enumeration_order() {
    let got = names(vec![
        EntryRead::Name("b.mp3".to_string()),
        EntryRead::Name("a.mp3".to_string()),
    ]);
    assert_eq!(got, vec!["b.mp3".to_string(), "a.mp3".to_string()]);
}

#[test]
fn undecodable_names_are_skipped() {
    let got = names(vec![
        EntryRead::Undecodable,
        EntryRead::Name("ok.wav".to_string()),
        EntryRead::Undecodable,
    ]);
    assert_eq!(got, vec!["ok.wav".to_string()]);
}

#[test]
fn listing_stops_at_failure() {
    let got = names(vec![
        EntryRead::Name("first".to_string()),
        EntryRead::Failed,
        EntryRead::Name("after".to_string()),
    ]);
    assert_eq!(got, vec!["first".to_string()]);
}

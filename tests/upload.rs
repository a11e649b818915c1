use filedrop::upload::{field_kind, FieldKind, UploadForm, UploadOutcome};

fn stored(o: UploadOutcome) -> (String, Vec<u8>) {
    match o {
        UploadOutcome::Store { name, bytes } => (name, bytes),
        UploadOutcome::Incomplete => panic!("incomplete"),
        UploadOutcome::BadName => panic!("bad name"),
    }
}

#[test]
fn fields_are_classified_by_name() {
    assert_eq!(field_kind(Some("alias")), FieldKind::Alias);
    assert_eq!(field_kind(Some("file")), FieldKind::File);
    assert_eq!(field_kind(Some("other")), FieldKind::Other);
    assert_eq!(field_kind(Some("")), FieldKind::Other);
    assert_eq!(field_kind(None), FieldKind::Other);
}

#[test]
fn upload_without_alias_stores_under_original_name() {
    let mut f = UploadForm::new();
    f.add_file(Some("track.mp3".to_string()), vec![1, 2, 3]);
    let (name, bytes) = stored(f.finish());
    assert_eq!(name, "track.mp3");
    assert_eq!(bytes, vec![1, 2, 3]);
}

#[test]
fn upload_with_alias_stores_under_aliased_name() {
    let mut f = UploadForm::new();
    f.set_alias(Some("My Song".to_string()));
    f.add_file(Some("track.mp3".to_string()), vec![9]);
    let (name, _) = stored(f.finish());
    assert_eq!(name, "My_Song_track.mp3");
}

#[test]
fn alias_after_file_still_applies() {
    let mut f = UploadForm::new();
    f.add_file(Some("track.mp3".to_string()), vec![9]);
    f.set_alias(Some("late one".to_string()));
    let (name, _) = stored(f.finish());
    assert_eq!(name, "late_one_track.mp3");
}

#[test]
fn unreadable_alias_counts_as_empty() {
    let mut f = UploadForm::new();
    f.set_alias(None);
    f.add_file(Some("t.ogg".to_string()), vec![]);
    let (name, bytes) = stored(f.finish());
    assert_eq!(name, "_t.ogg");
    assert!(bytes.is_empty());
}

#[test]
fn missing_file_name_is_a_silent_no_op() {
    let mut f = UploadForm::new();
    f.add_file(None, vec![1]);
    let o = f.finish();
    assert!(matches!(o, UploadOutcome::Incomplete));
    assert_eq!(o.status_code(), 200);
}

#[test]
fn missing_payload_is_a_silent_no_op() {
    let mut f = UploadForm::new();
    f.set_alias(Some("x".to_string()));
    assert!(matches!(f.finish(), UploadOutcome::Incomplete));
}

#[test]
fn later_file_part_replaces_bytes_and_keeps_name() {
    let mut f = UploadForm::new();
    f.add_file(Some("a.wav".to_string()), vec![1]);
    f.add_file(None, vec![2, 2]);
    let (name, bytes) = stored(f.finish());
    assert_eq!(name, "a.wav");
    assert_eq!(bytes, vec![2, 2]);
}

#[test]
fn traversal_in_name_is_refused() {
    let mut f = UploadForm::new();
    f.add_file(Some("../escape.mp3".to_string()), vec![1]);
    let o = f.finish();
    assert!(matches!(o, UploadOutcome::BadName));
    assert_eq!(o.status_code(), 400);

    let mut g = UploadForm::new();
    g.set_alias(Some("a/b".to_string()));
    g.add_file(Some("c.mp3".to_string()), vec![1]);
    assert!(matches!(g.finish(), UploadOutcome::BadName));
}

#[test]
fn store_outcome_reports_success() {
    let mut f = UploadForm::new();
    f.add_file(Some("x".to_string()), vec![0]);
    assert_eq!(f.finish().status_code(), 200);
}

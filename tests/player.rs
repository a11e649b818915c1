use filedrop::player::{play_source_url, status_message, SubmitResult};

#[test]
fn play_url_names_the_track() {
    assert_eq!(play_source_url("My_Song_track.mp3"), "https://curateoslo.com:7000/play/My_Song_track.mp3");
}

#[test]
fn status_messages() {
    assert_eq!(
        status_message(&SubmitResult::Answered { ok: true, status_text: "OK".to_string() }),
        "Upload successful!"
    );
    assert_eq!(
        status_message(&SubmitResult::Answered { ok: false, status_text: "Payload Too Large".to_string() }),
        "Upload failed: Payload Too Large"
    );
    assert_eq!(
        status_message(&SubmitResult::NotSent("TypeError".to_string())),
        "Error: TypeError"
    );
}

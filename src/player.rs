use vstd::prelude::*;

verus! {

/// Where the browser player fetches tracks for playback.
pub open spec fn play_url_of(track: Seq<char>) -> Seq<char> {
    "https://curateoslo.com:7000/play/"@ + track
}

/// The address an audio element plays `track` from.
pub fn play_source_url(track: &str) -> (r: String)
    ensures
        r@ == play_url_of(track@),
{
    let mut url = String::from_str("https://curateoslo.com:7000/play/");
    url.append(track);
    url
}

/// How a submitted upload ended, as the browser sees it.
pub enum SubmitResult {
    /// The request could not be sent; the text describes the failure.
    NotSent(String),
    /// The service answered; `ok` tells whether its status was a success.
    Answered { ok: bool, status_text: String },
}

/// The status line shown to the user after a submission.
pub open spec fn status_line(r: SubmitResult) -> Seq<char> {
    match r {
        SubmitResult::NotSent(e) => "Error: "@ + e@,
        SubmitResult::Answered { ok, status_text } => if ok {
            "Upload successful!"@
        } else {
            "Upload failed: "@ + status_text@
        },
    }
}

/// Builds the status line for the outcome of a submission.
pub fn status_message(r: &SubmitResult) -> (m: String)
    ensures
        m@ == status_line(*r),
{
    match r {
        SubmitResult::NotSent(e) => {
            let mut m = String::from_str("Error: ");
            m.append(e.as_str());
            m
        },
        SubmitResult::Answered { ok, status_text } => if *ok {
            String::from_str("Upload successful!")
        } else {
            let mut m = String::from_str("Upload failed: ");
            m.append(status_text.as_str());
            m
        },
    }
}

} // verus!

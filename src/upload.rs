use vstd::prelude::*;

use crate::naming::{entry_name, final_name, is_entry_name, stored_name};
use crate::text::same_text;

verus! {

/// How an upload handles a multipart field, by the field's name.
#[derive(Clone, Copy, Debug, PartialEq, Eq, Structural)]
pub enum FieldKind {
    /// The `alias` text field.
    Alias,
    /// The `file` part, with its declared file name and its bytes.
    File,
    /// Any other field, ignored.
    Other,
}

/// The kind of a field with the given (possibly absent) name.
pub open spec fn kind_of(name: Option<Seq<char>>) -> FieldKind {
    match name {
        Some(n) => if n == "alias"@ {
            FieldKind::Alias
        } else if n == "file"@ {
            FieldKind::File
        } else {
            FieldKind::Other
        },
        None => FieldKind::Other,
    }
}

/// Classifies a multipart field by its name.
pub fn field_kind(name: Option<&str>) -> (r: FieldKind)
    ensures
        r == kind_of(
            match name {
                Some(n) => Some(n@),
                None => None,
            },
        ),
{
    match name {
        Some(n) => if same_text(n, "alias") {
            FieldKind::Alias
        } else if same_text(n, "file") {
            FieldKind::File
        } else {
            FieldKind::Other
        },
        None => FieldKind::Other,
    }
}

/// What an upload request has supplied so far.
pub ghost struct FormView {
    pub alias: Option<Seq<char>>,
    pub file_name: Option<Seq<char>>,
    pub bytes: Option<Seq<u8>>,
}

/// What an upload does to the storage directory.
pub ghost enum UploadPlan {
    /// Create or overwrite the entry `name` with `bytes`.
    Write { name: Seq<char>, bytes: Seq<u8> },
    /// The file name or the payload is missing: nothing is written.
    NoOp,
    /// The stored name would not be a single entry of the directory.
    Refused,
}

/// The plan for a completed form: a write when both the file name and the
/// payload are present and the stored name is a valid entry name.
pub open spec fn plan_of(f: FormView) -> UploadPlan {
    match (f.bytes, f.file_name) {
        (Some(b), Some(n)) => {
            let name = stored_name(f.alias, n);
            if entry_name(name) {
                UploadPlan::Write { name, bytes: b }
            } else {
                UploadPlan::Refused
            }
        },
        _ => UploadPlan::NoOp,
    }
}

/// The characters of an optional string.
pub open spec fn chars_of(s: Option<String>) -> Option<Seq<char>> {
    match s {
        Some(t) => Some(t@),
        None => None,
    }
}

/// The bytes of an optional buffer.
pub open spec fn bytes_of(v: Option<Vec<u8>>) -> Option<Seq<u8>> {
    match v {
        Some(b) => Some(b@),
        None => None,
    }
}

/// The fields of one multipart upload, gathered in arrival order.
pub struct UploadForm {
    alias: Option<String>,
    file_name: Option<String>,
    file_bytes: Option<Vec<u8>>,
}

impl View for UploadForm {
    type V = FormView;

    closed spec fn view(&self) -> FormView {
        FormView {
            alias: chars_of(self.alias),
            file_name: chars_of(self.file_name),
            bytes: bytes_of(self.file_bytes),
        }
    }
}

/// The outcome of a completed upload form.
pub enum UploadOutcome {
    /// Write `bytes` to the entry `name`.
    Store { name: String, bytes: Vec<u8> },
    /// The file name or the payload was missing: nothing to do.
    Incomplete,
    /// The stored name would not be a single directory entry.
    BadName,
}

impl View for UploadOutcome {
    type V = UploadPlan;

    open spec fn view(&self) -> UploadPlan {
        match self {
            UploadOutcome::Store { name, bytes } => UploadPlan::Write { name: name@, bytes: bytes@ },
            UploadOutcome::Incomplete => UploadPlan::NoOp,
            UploadOutcome::BadName => UploadPlan::Refused,
        }
    }
}

impl UploadOutcome {
    /// The HTTP status for the request: a refused name is the client's fault;
    /// a write or a silent no-op succeeds.
    pub fn status_code(&self) -> (r: u16)
        ensures
            r == (if self@ is Refused { 400u16 } else { 200u16 }),
    {
        match self {
            UploadOutcome::BadName => 400,
            _ => 200,
        }
    }
}

impl UploadForm {
    /// A form with no field received yet.
    pub fn new() -> (r: UploadForm)
        ensures
            r@ == (FormView { alias: None, file_name: None, bytes: None }),
    {
        UploadForm { alias: None, file_name: None, file_bytes: None }
    }

    /// Records the `alias` field; `None` stands for a text that could not be
    /// read, which counts as an empty alias. A later alias replaces an earlier one.
    pub fn set_alias(&mut self, text: Option<String>)
        ensures
            final(self)@ == (FormView {
                alias: Some(
                    match text {
                        Some(t) => t@,
                        None => Seq::<char>::empty(),
                    },
                ),
                ..old(self)@
            }),
    {
        match text {
            Some(t) => {
                self.alias = Some(t);
            },
            None => {
                self.alias = Some(String::new());
            },
        }
    }

    /// Records a completely received `file` part: its declared file name, if
    /// any, replaces the earlier one, and its bytes replace earlier bytes.
    pub fn add_file(&mut self, file_name: Option<String>, bytes: Vec<u8>)
        ensures
            final(self)@ == (FormView {
                file_name: match file_name {
                    Some(f) => Some(f@),
                    None => old(self)@.file_name,
                },
                bytes: Some(bytes@),
                ..old(self)@
            }),
    {
        if let Some(f) = file_name {
            self.file_name = Some(f);
        }
        self.file_bytes = Some(bytes);
    }

    /// What to do once every field has arrived.
    pub fn finish(self) -> (r: UploadOutcome)
        ensures
            r@ == plan_of(self@),
    {
        match (self.file_bytes, self.file_name) {
            (Some(bytes), Some(given)) => {
                let name = match &self.alias {
                    Some(a) => final_name(Some(a.as_str()), given.as_str()),
                    None => final_name(None, given.as_str()),
                };
                if is_entry_name(name.as_str()) {
                    UploadOutcome::Store { name, bytes }
                } else {
                    UploadOutcome::BadName
                }
            },
            _ => UploadOutcome::Incomplete,
        }
    }
}

} // verus!

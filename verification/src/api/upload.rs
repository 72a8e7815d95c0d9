//! The upload of a recording: what the parts of the form mean, where the
//! recording goes in the bucket, and what is stored about it.

use crate::ident::{display_id, id_text};
use crate::models::audio_recording::{NewAudioRecording, NewAudioRecordingView};
use crate::services::text::{parse_i32, parsed_i32, same_text};
use vstd::prelude::*;
use vstd::string::StringExecFns;

verus! {

/// Why an upload did not go through.
#[derive(Clone, Copy, Debug, PartialEq, Eq, Structural)]
pub enum UploadError {
    /// The form holds no file, or an empty one.
    NoContent,
    /// The recording could not be put into the bucket.
    StorageFailed,
    /// The recording could not be entered in the store.
    RecordFailed,
}

impl UploadError {
    /// The HTTP status under which the error is reported: 500 where the
    /// bucket failed, 400 otherwise.
    pub open spec fn http_status(self) -> u16 {
        match self {
            UploadError::StorageFailed => 500,
            _ => 400,
        }
    }

    /// The HTTP status under which the error is reported.
    pub fn status_code(&self) -> (code: u16)
        ensures
            code == self.http_status(),
    {
        match self {
            UploadError::StorageFailed => 500,
            _ => 400,
        }
    }
}

/// What a part of the form is, by its name.
#[derive(Clone, Copy, Debug, PartialEq, Eq, Structural)]
pub enum FieldKind {
    /// The recording itself.
    File,
    /// The length of the recording in seconds.
    Duration,
    /// A part that the upload does not read.
    Ignored,
}

/// What a part named `name` is.
pub open spec fn kind_of(name: Option<Seq<char>>) -> FieldKind {
    match name {
        Some(name) => if name == "file"@ {
            FieldKind::File
        } else if name == "duration_seconds"@ {
            FieldKind::Duration
        } else {
            FieldKind::Ignored
        },
        None => FieldKind::Ignored,
    }
}

/// The name of nothing, as a view.
pub open spec fn name_view(name: Option<&str>) -> Option<Seq<char>> {
    match name {
        Some(name) => Some(name@),
        None => None,
    }
}

/// What a part named `name` is.
pub fn classify(name: Option<&str>) -> (kind: FieldKind)
    ensures
        kind == kind_of(name_view(name)),
{
    match name {
        Some(name) => {
            if same_text(name, "file") {
                FieldKind::File
            } else if same_text(name, "duration_seconds") {
                FieldKind::Duration
            } else {
                FieldKind::Ignored
            }
        },
        None => FieldKind::Ignored,
    }
}

/// What has been read of the form so far.
#[derive(Debug, PartialEq, Eq)]
pub struct UploadForm {
    pub session_id: u128,
    pub content: Option<Vec<u8>>,
    pub filename: String,
    pub mime: Option<String>,
    pub duration: Option<i32>,
}

/// The view of an [`UploadForm`].
pub struct UploadFormView {
    pub session_id: u128,
    pub content: Option<Seq<u8>>,
    pub filename: Seq<char>,
    pub mime: Option<Seq<char>>,
    pub duration: Option<i32>,
}

impl View for UploadForm {
    type V = UploadFormView;

    open spec fn view(&self) -> UploadFormView {
        UploadFormView {
            session_id: self.session_id,
            content: self.content.deep_view(),
            filename: self.filename@,
            mime: self.mime.deep_view(),
            duration: self.duration,
        }
    }
}

/// The name under which a recording is kept where the form gives none.
pub open spec fn default_filename(session_id: u128) -> Seq<char> {
    id_text(session_id) + ".webm"@
}

/// The key of the recording `filename` of a session in the bucket.
pub open spec fn object_key(session_id: u128, filename: Seq<char>) -> Seq<char> {
    "sessions/"@ + id_text(session_id) + "/"@ + filename
}

/// The form before any part is read.
pub open spec fn empty_form(session_id: u128) -> UploadFormView {
    UploadFormView {
        session_id,
        content: None,
        filename: default_filename(session_id),
        mime: None,
        duration: None,
    }
}

/// The form after a file part: its name where it has one, its content type
/// as it is, and its bytes, none where they could not be read.
pub open spec fn with_file(
    form: UploadFormView,
    file_name: Option<Seq<char>>,
    content_type: Option<Seq<char>>,
    bytes: Option<Seq<u8>>,
) -> UploadFormView {
    UploadFormView {
        content: Some(
            match bytes {
                Some(bytes) => bytes,
                None => Seq::empty(),
            },
        ),
        filename: match file_name {
            Some(name) => name,
            None => form.filename,
        },
        mime: content_type,
        ..form
    }
}

/// The form after a part that gives the length.
pub open spec fn with_duration(form: UploadFormView, duration: Option<i32>) -> UploadFormView {
    UploadFormView { duration, ..form }
}

/// What is put into the bucket, and what is kept for the entry in the store.
#[derive(Debug, PartialEq, Eq)]
pub struct PendingUpload {
    pub session_id: u128,
    pub key: String,
    pub bytes: Vec<u8>,
    pub mime: Option<String>,
    pub duration: Option<i32>,
}

/// The view of a [`PendingUpload`].
pub struct PendingUploadView {
    pub session_id: u128,
    pub key: Seq<char>,
    pub bytes: Seq<u8>,
    pub mime: Option<Seq<char>>,
    pub duration: Option<i32>,
}

impl View for PendingUpload {
    type V = PendingUploadView;

    open spec fn view(&self) -> PendingUploadView {
        PendingUploadView {
            session_id: self.session_id,
            key: self.key@,
            bytes: self.bytes@,
            mime: self.mime.deep_view(),
            duration: self.duration,
        }
    }
}

/// What a form comes to once all its parts are read: the upload of its
/// file, or an error where it holds no file or an empty one.
pub open spec fn finished(form: UploadFormView) -> Result<PendingUploadView, UploadError> {
    match form.content {
        Some(bytes) => if bytes.len() > 0 {
            Ok(
                PendingUploadView {
                    session_id: form.session_id,
                    key: object_key(form.session_id, form.filename),
                    bytes,
                    mime: form.mime,
                    duration: form.duration,
                },
            )
        } else {
            Err(UploadError::NoContent)
        },
        None => Err(UploadError::NoContent),
    }
}

/// The result of `finish`, as a view.
pub open spec fn finished_view(outcome: Result<PendingUpload, UploadError>) -> Result<
    PendingUploadView,
    UploadError,
> {
    match outcome {
        Ok(upload) => Ok(upload@),
        Err(error) => Err(error),
    }
}

/// The entry for a recording that lies at `url`, or the error where the
/// bucket did not take it.
pub open spec fn recorded(upload: PendingUploadView, url: Option<Seq<char>>) -> Result<
    NewAudioRecordingView,
    UploadError,
> {
    match url {
        Some(url) => Ok(
            NewAudioRecordingView {
                session_id: upload.session_id,
                storage_url: url,
                duration_seconds: upload.duration,
                mime_type: upload.mime,
                size_bytes: None,
                quality_status: None,
            },
        ),
        None => Err(UploadError::StorageFailed),
    }
}

/// The result of `on_stored`, as a view.
pub open spec fn recorded_view(outcome: Result<NewAudioRecording, UploadError>) -> Result<
    NewAudioRecordingView,
    UploadError,
> {
    match outcome {
        Ok(record) => Ok(record@),
        Err(error) => Err(error),
    }
}

/// Starts the upload of the recording of the session `session_id`.
pub fn upload_audio(session_id: u128) -> (form: UploadForm)
    ensures
        form@ == empty_form(session_id),
{
    let mut filename = display_id(session_id);
    filename.append(".webm");
    UploadForm { session_id, content: None, filename, mime: None, duration: None }
}

impl UploadForm {
    /// Takes a file part: its name and content type as the part gives them,
    /// and its bytes, `None` where they could not be read.
    pub fn on_file(
        self,
        file_name: Option<String>,
        content_type: Option<String>,
        bytes: Option<Vec<u8>>,
    ) -> (form: UploadForm)
        ensures
            form@ == with_file(
                self@,
                file_name.deep_view(),
                content_type.deep_view(),
                bytes.deep_view(),
            ),
    {
        let content = match bytes {
            Some(bytes) => {
                assert(bytes.deep_view() =~= bytes@);
                bytes
            },
            None => Vec::new(),
        };
        let filename = match file_name {
            Some(name) => name,
            None => self.filename,
        };
        let form = UploadForm {
            session_id: self.session_id,
            content: Some(content),
            filename,
            mime: content_type,
            duration: self.duration,
        };
        assert(form.content.deep_view()->0 =~= form.content->0@);
        form
    }

    /// Takes the length that a part gave, `None` where it gave none.
    pub fn on_duration_value(self, duration: Option<i32>) -> (form: UploadForm)
        ensures
            form@ == with_duration(self@, duration),
    {
        UploadForm {
            session_id: self.session_id,
            content: self.content,
            filename: self.filename,
            mime: self.mime,
            duration,
        }
    }

    /// Takes the text of a part that gives the length, `None` where the text
    /// could not be read. The length is what `str::parse::<i32>` reads.
    pub fn on_duration(self, text: Option<&str>) -> (form: UploadForm)
        ensures
            form@ == with_duration(
                self@,
                match text {
                    Some(text) => parsed_i32(text@),
                    None => None,
                },
            ),
    {
        let duration = match text {
            Some(text) => parse_i32(text),
            None => None,
        };
        self.on_duration_value(duration)
    }

    /// Ends the reading of the form.
    pub fn finish(self) -> (outcome: Result<PendingUpload, UploadError>)
        ensures
            finished_view(outcome) == finished(self@),
    {
        match self.content {
            Some(bytes) => {
                assert(bytes.deep_view() =~= bytes@);
                if bytes.len() > 0 {
                    let mut key = String::from_str("sessions/");
                    let id = display_id(self.session_id);
                    key.append(id.as_str());
                    key.append("/");
                    key.append(self.filename.as_str());
                    Ok(
                        PendingUpload {
                            session_id: self.session_id,
                            key,
                            bytes,
                            mime: self.mime,
                            duration: self.duration,
                        },
                    )
                } else {
                    Err(UploadError::NoContent)
                }
            },
            None => Err(UploadError::NoContent),
        }
    }
}

impl PendingUpload {
    /// Takes the reply of the bucket: the URL under which the recording
    /// lies, or `None` where the bucket did not take it.
    pub fn on_stored(self, url: Option<String>) -> (outcome: Result<NewAudioRecording, UploadError>)
        ensures
            recorded_view(outcome) == recorded(self@, url.deep_view()),
    {
        match url {
            Some(url) => Ok(
                NewAudioRecording {
                    session_id: self.session_id,
                    storage_url: url,
                    duration_seconds: self.duration,
                    mime_type: self.mime,
                    size_bytes: None,
                    quality_status: None,
                },
            ),
            None => Err(UploadError::StorageFailed),
        }
    }
}

/// What the entry in the store comes to: done where the store took it, an
/// error where it did not.
pub fn on_recorded(entered: bool) -> (outcome: Result<(), UploadError>)
    ensures
        outcome == if entered {
            Ok::<(), UploadError>(())
        } else {
            Err::<(), UploadError>(UploadError::RecordFailed)
        },
{
    if entered {
        Ok(())
    } else {
        Err(UploadError::RecordFailed)
    }
}

} // verus!

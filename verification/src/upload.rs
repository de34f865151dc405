//! Taking in an upload, field by field, and telling the client line by line
//! how it fares.
//!
//! An upload brings a file in a field named `file`, or a text in a field
//! named `content`; what comes later replaces what came before. A file is
//! turned into text at once. When all fields are in, a content of fewer than
//! five bytes, white space at its ends not counted, is refused. Every line
//! that goes to the client ends in a line break; the line `DONE` is the last
//! one of an ingestion that went through.

use vstd::prelude::*;
use vstd::utf8::encode_utf8;
use crate::errors::AppError;
use crate::text::{trim, trimmed};
use crate::transmutation::{transmuted, DocumentTransmuter};

verus! {

/// The least number of bytes of a content, white space at its ends not
/// counted.
pub const MIN_CONTENT_BYTES: usize = 5;

/// What a field of an upload is, by its name.
#[derive(Debug, Clone, Copy, PartialEq, Eq, Structural)]
pub enum FieldKind {
    File,
    Content,
    Other,
}

/// What a field is, by its name.
pub open spec fn kind_of(name: Seq<char>) -> FieldKind {
    if name == "file"@ {
        FieldKind::File
    } else if name == "content"@ {
        FieldKind::Content
    } else {
        FieldKind::Other
    }
}

/// The name under which a file goes that brings none.
pub open spec fn nameless_file() -> Seq<char> {
    "file"@
}

/// The line that says that a file is being read.
pub open spec fn reading_line(label: Seq<char>) -> Seq<char> {
    "📂 Leyendo archivo: "@ + label + "..."@
}

/// The line that says that a file is being turned into text.
pub open spec fn parsing_line() -> Seq<char> {
    "📄 Parseando contenido..."@
}

/// The line that says why a file could not be turned into text.
pub open spec fn parse_failure_line(reason: Seq<char>) -> Seq<char> {
    "❌ Error parseando: "@ + reason
}

/// The line that says why the bytes of a file did not arrive.
pub open spec fn upload_failure_line(reason: Seq<char>) -> Seq<char> {
    "❌ Error subida: Error parsing `multipart/form-data` request: "@ + reason
}

/// The line that says that a text arrived.
pub open spec fn direct_text_line() -> Seq<char> {
    "📝 Recibido texto directo..."@
}

/// The line that refuses a content that is empty or too short.
pub open spec fn too_short_line() -> Seq<char> {
    "❌ Error: Contenido vacío o muy corto."@
}

/// The line that ends an ingestion that went through.
pub open spec fn done_line() -> Seq<char> {
    "DONE"@
}

/// The line that ends an ingestion that was given up.
pub open spec fn critical_line(error: AppError) -> Seq<char> {
    "❌ Error Crítico: "@ + error.display()
}

/// Whether a content is long enough to be ingested.
pub open spec fn long_enough(content: Seq<char>) -> bool {
    encode_utf8(trimmed(content)).len() >= MIN_CONTENT_BYTES
}

/// The reason that a failure gives for itself.
pub open spec fn reason_of(error: AppError) -> Seq<char> {
    match error {
        AppError::ParseError(reason) => reason@,
        other => other.display(),
    }
}

/// How the content and the lines to send follow from what turning a file
/// into text gave: `before` is the content until then, `after` the content
/// from then on.
pub open spec fn file_taken(
    outcome: Result<String, AppError>,
    before: Seq<char>,
    after: Seq<char>,
    heard: Heard,
) -> bool {
    match outcome {
        Ok(text) => {
            &&& !heard.stop
            &&& heard.lines.deep_view() == seq![parsing_line()]
            &&& after == text@
        },
        Err(error) => {
            &&& heard.stop
            &&& heard.lines.deep_view() == seq![
                parsing_line(),
                parse_failure_line(reason_of(error)),
            ]
            &&& after == before
        },
    }
}

/// What taking in one field brings: the lines to send, in order, and
/// whether the upload is given up.
#[derive(Debug)]
pub struct Heard {
    pub lines: Vec<String>,
    pub stop: bool,
}

/// An upload while its fields come in.
pub struct UploadIntake {
    content: String,
    file_label: String,
}

fn one_line(line: String) -> (lines: Vec<String>)
    ensures
        lines.deep_view() == seq![line@],
{
    let mut lines: Vec<String> = Vec::new();
    lines.push(line);
    lines
}

impl UploadIntake {
    /// The content that the upload has brought so far.
    pub closed spec fn content(&self) -> Seq<char> {
        self.content@
    }

    /// The name of what the upload has brought so far.
    pub closed spec fn label(&self) -> Seq<char> {
        self.file_label@
    }

    /// An upload that has brought nothing yet.
    pub fn new() -> (intake: UploadIntake)
        ensures
            intake.content() == Seq::<char>::empty(),
            intake.label() == "Text Input"@,
    {
        UploadIntake { content: String::new(), file_label: String::from_str("Text Input") }
    }

    /// What a field is, by its name.
    pub fn field_kind(name: &str) -> (kind: FieldKind)
        ensures
            kind == kind_of(name@),
    {
        if String::from_str(name) == String::from_str("file") {
            FieldKind::File
        } else if String::from_str(name) == String::from_str("content") {
            FieldKind::Content
        } else {
            FieldKind::Other
        }
    }

    /// Takes the name of a file that begins to arrive, or `file` where it
    /// brings none, and answers with the line that says so.
    pub fn file_named(&mut self, file_name: Option<&str>) -> (line: String)
        ensures
            final(self).content() == old(self).content(),
            final(self).label() == match file_name {
                Some(name) => name@,
                None => nameless_file(),
            },
            line@ == reading_line(final(self).label()),
    {
        let label = match file_name {
            Some(name) => String::from_str(name),
            None => String::from_str("file"),
        };
        let mut line = String::from_str("📂 Leyendo archivo: ");
        line.append(label.as_str());
        line.append("...");
        self.file_label = label;
        line
    }

    /// Takes what turning the file into text gave. A text becomes the
    /// content; a failure is told in a line of its own and ends the upload.
    pub fn file_text(&mut self, outcome: Result<String, AppError>) -> (heard: Heard)
        ensures
            final(self).label() == old(self).label(),
            file_taken(outcome, old(self).content(), final(self).content(), heard),
    {
        let mut lines = one_line(String::from_str("📄 Parseando contenido..."));
        match outcome {
            Ok(text) => {
                self.content = text;
                Heard { lines, stop: false }
            },
            Err(error) => {
                let reason = match error {
                    AppError::ParseError(reason) => reason,
                    other => other.to_string(),
                };
                let line = String::from_str("❌ Error parseando: ").concat(reason.as_str());
                let ghost before = lines.deep_view();
                lines.push(line);
                proof {
                    assert(lines.deep_view() =~= before.push(line@));
                    assert(lines.deep_view() =~= seq![
                        parsing_line(),
                        parse_failure_line(reason@),
                    ]);
                }
                Heard { lines, stop: true }
            },
        }
    }

    /// Takes the bytes of the file, or the reason why they did not arrive.
    /// Bytes that arrived are turned into text by the format that the file's
    /// name tells, and the text becomes the content. The upload is given up
    /// where the bytes did not arrive or cannot be turned into text.
    pub fn file_bytes(&mut self, bytes: Result<&[u8], &str>) -> (heard: Heard)
        ensures
            final(self).label() == old(self).label(),
            match bytes {
                Err(reason) => {
                    &&& heard.stop
                    &&& heard.lines.deep_view() == seq![upload_failure_line(reason@)]
                    &&& final(self).content() == old(self).content()
                },
                Ok(data) => exists|outcome: Result<String, AppError>|
                    {
                        &&& #[trigger] transmuted(old(self).label(), data@, outcome)
                        &&& file_taken(
                            outcome,
                            old(self).content(),
                            final(self).content(),
                            heard,
                        )
                    },
            },
    {
        match bytes {
            Err(reason) => {
                let line = String::from_str(
                    "❌ Error subida: Error parsing `multipart/form-data` request: ",
                ).concat(reason);
                Heard { lines: one_line(line), stop: true }
            },
            Ok(data) => {
                let outcome = DocumentTransmuter::transmute(self.file_label.as_str(), data);
                let ghost seen = outcome;
                let heard = self.file_text(outcome);
                proof {
                    assert(transmuted(old(self).label(), data@, seen));
                }
                heard
            },
        }
    }

    /// Takes the text of a field named `content`, or nothing where the field
    /// could not be read as text. A text that is not empty becomes the
    /// content; an empty one changes nothing and is passed over in silence.
    pub fn content_text(&mut self, text: Option<&str>) -> (heard: Heard)
        ensures
            !heard.stop,
            match text {
                Some(given) if given@.len() > 0 => {
                    &&& final(self).content() == given@
                    &&& final(self).label() == "Texto Plano"@
                    &&& heard.lines.deep_view() == seq![direct_text_line()]
                },
                _ => {
                    &&& final(self).content() == old(self).content()
                    &&& final(self).label() == old(self).label()
                    &&& heard.lines.deep_view() == Seq::<Seq<char>>::empty()
                },
            },
    {
        match text {
            Some(given) => {
                if !given.is_empty() {
                    self.content = String::from_str(given);
                    self.file_label = String::from_str("Texto Plano");
                    return Heard {
                        lines: one_line(String::from_str("📝 Recibido texto directo...")),
                        stop: false,
                    };
                }
            },
            None => {},
        }
        let lines: Vec<String> = Vec::new();
        Heard { lines, stop: false }
    }

    /// Ends the upload: the content to ingest, or the line that refuses a
    /// content that is empty or too short.
    pub fn finish(self) -> (content: Result<String, String>)
        ensures
            content is Ok <==> long_enough(self.content()),
            content matches Ok(text) ==> text@ == self.content(),
            content matches Err(line) ==> line@ == too_short_line(),
    {
        let bare = trim(self.content.as_str());
        if bare.as_str().as_bytes().len() < MIN_CONTENT_BYTES {
            Err(String::from_str("❌ Error: Contenido vacío o muy corto."))
        } else {
            Ok(self.content)
        }
    }
}

/// The last line of an ingestion: `DONE` where it went through, and else the
/// error.
pub fn closing_line(outcome: &Result<(), AppError>) -> (line: String)
    ensures
        line@ == match outcome {
            Ok(_) => done_line(),
            Err(error) => critical_line(*error),
        },
{
    match outcome {
        Ok(_) => String::from_str("DONE"),
        Err(error) => String::from_str("❌ Error Crítico: ").concat(error.to_string().as_str()),
    }
}

/// A line as it goes to the client: with a line break behind it.
pub fn framed(line: &str) -> (bytes: String)
    ensures
        bytes@ == line@ + "\n"@,
{
    String::from_str(line).concat("\n")
}

} // verus!

//! The open document and its persistence transitions.

use vstd::prelude::*;
use vstd::string::StringExecFns;
use std::path::PathBuf;
use crate::error::{IoError, IoErrorView};

verus! {

/// `std::path::PathBuf`, carried through as an opaque value.
#[verifier::external_type_specification]
#[verifier::external_body]
pub struct ExPathBuf(std::path::PathBuf);

/// The final component of a path as text, if the path has one.
///
/// This names what `Path::file_name` followed by `OsStr::to_string_lossy`
/// yields; it is a function of the path alone.
pub uninterp spec fn file_name_of(path: PathBuf) -> Option<Seq<char>>;

/// Calls `Path::file_name` and converts the component with
/// `OsStr::to_string_lossy`. The contract only names the outcome: `None`
/// exactly when the path has no final component, otherwise its text.
#[verifier::external_body]
fn final_component(path: &PathBuf) -> (name: Option<String>)
    ensures
        name is Some == file_name_of(*path) is Some,
        name matches Some(n) ==> file_name_of(*path) == Some(n@),
{
    match path.file_name() {
        Some(component) => Some(component.to_string_lossy().into_owned()),
        None => None,
    }
}

/// `PathBuf::clone` yields a path equal to the one cloned.
pub assume_specification[ <PathBuf as Clone>::clone ](path: &PathBuf) -> (copy: PathBuf)
    ensures
        copy == *path,
;

/// The document currently open in the editor.
#[derive(Clone, Debug, PartialEq, Eq)]
pub struct OpenFile {
    /// Where the document is stored; `None` until it has a backing file.
    pub path: Option<PathBuf>,
    /// The name shown for the document.
    pub name: String,
    /// Whether the content was edited since the last load or save.
    pub changed: bool,
    /// The whole text of the document.
    pub content_buffer: String,
}

/// The mathematical value of an [`OpenFile`].
pub struct Document {
    pub path: Option<PathBuf>,
    pub name: Seq<char>,
    pub changed: bool,
    pub content: Seq<char>,
}

impl View for OpenFile {
    type V = Document;

    open spec fn view(&self) -> Document {
        Document {
            path: self.path,
            name: self.name@,
            changed: self.changed,
            content: self.content_buffer@,
        }
    }
}

/// What has to be written where for a document to be saved.
pub struct WriteRequest {
    pub path: PathBuf,
    pub content: Seq<char>,
}

impl Document {
    /// The document a program starts with: no path, the placeholder name, no
    /// edits, no text.
    pub open spec fn unnamed() -> Document {
        Document { path: None, name: "Unnamed"@, changed: false, content: Seq::empty() }
    }

    /// The outcome of opening `path`, given what reading it produced.
    ///
    /// A path without a final component is rejected whatever the read gave;
    /// otherwise a failed read is reported with its message, and a successful
    /// one yields a clean document named after that component.
    pub open spec fn opened(path: PathBuf, read: Result<Seq<char>, Seq<char>>) -> Result<
        Document,
        IoErrorView,
    > {
        match file_name_of(path) {
            None => Err(IoErrorView::FileNotFound),
            Some(name) => match read {
                Err(message) => Err(IoErrorView::ReadFailed(message)),
                Ok(text) => Ok(
                    Document { path: Some(path), name: name, changed: false, content: text },
                ),
            },
        }
    }

    /// The document after its text was replaced by an edit.
    pub open spec fn edited(self, text: Seq<char>) -> Document {
        Document { changed: true, content: text, ..self }
    }

    /// What a save writes: the whole content, to the backing path. `None`
    /// when there is no backing path.
    pub open spec fn write_request(self) -> Option<WriteRequest> {
        match self.path {
            None => None,
            Some(path) => Some(WriteRequest { path: path, content: self.content }),
        }
    }

    /// The result of a save, given the outcome of the write it asked for.
    pub open spec fn save_result(self, written: Result<(), Seq<char>>) -> Result<
        (),
        IoErrorView,
    > {
        match self.path {
            None => Err(IoErrorView::NoBackingPath),
            Some(_) => match written {
                Err(message) => Err(IoErrorView::WriteFailed(message)),
                Ok(_) => Ok(()),
            },
        }
    }

    /// The document after a save, given the outcome of the write it asked
    /// for: clean when the save succeeded, untouched when it failed.
    pub open spec fn saved(self, written: Result<(), Seq<char>>) -> Document {
        if self.save_result(written) is Ok {
            Document { changed: false, ..self }
        } else {
            self
        }
    }

    /// The document with `path` as its backing path. The name stays as it was.
    pub open spec fn retargeted(self, path: PathBuf) -> Document {
        Document { path: Some(path), ..self }
    }
}

/// The mathematical value of a read outcome handed to [`OpenFile::open_path`].
pub open spec fn read_view(read: Result<String, String>) -> Result<Seq<char>, Seq<char>> {
    match read {
        Ok(text) => Ok(text@),
        Err(message) => Err(message@),
    }
}

/// The mathematical value of a write outcome handed to [`OpenFile::save`].
pub open spec fn write_view(written: Result<(), String>) -> Result<(), Seq<char>> {
    match written {
        Ok(_) => Ok(()),
        Err(message) => Err(message@),
    }
}

/// The mathematical value of the result of [`OpenFile::open_path`].
pub open spec fn open_view(result: Result<OpenFile, IoError>) -> Result<Document, IoErrorView> {
    match result {
        Ok(file) => Ok(file@),
        Err(error) => Err(error@),
    }
}

/// The mathematical value of the result of [`OpenFile::save`].
pub open spec fn save_view(result: Result<(), IoError>) -> Result<(), IoErrorView> {
    match result {
        Ok(_) => Ok(()),
        Err(error) => Err(error@),
    }
}

impl Default for OpenFile {
    /// A document without a backing file, called "Unnamed", with no text.
    fn default() -> (file: OpenFile)
        ensures
            file@ == Document::unnamed(),
    {
        OpenFile {
            path: None,
            name: String::from_str("Unnamed"),
            changed: false,
            content_buffer: String::new(),
        }
    }
}

impl OpenFile {
    /// Builds the document for `path` from the outcome of reading that file.
    ///
    /// `read` is the whole file as text, or the message of the failure to
    /// read it (missing, unreadable, or not valid text).
    pub fn open_path(path: &PathBuf, read: Result<String, String>) -> (result: Result<
        OpenFile,
        IoError,
    >)
        ensures
            open_view(result) == Document::opened(*path, read_view(read)),
    {
        match final_component(path) {
            None => Err(IoError::FileNotFound),
            Some(name) => match read {
                Err(message) => Err(IoError::ReadFailed(message)),
                Ok(text) => Ok(
                    OpenFile {
                        name: name,
                        path: Some(path.clone()),
                        changed: false,
                        content_buffer: text,
                    },
                ),
            },
        }
    }

    /// Replaces the text by an edit and marks the document as changed.
    pub fn edit(&mut self, text: String)
        ensures
            final(self)@ == old(self)@.edited(text@),
    {
        self.content_buffer = text;
        self.changed = true;
    }

    /// What a save has to write, and where: the whole content, to the backing
    /// path. `None` where there is no backing path.
    pub fn write_request(&self) -> (request: Option<(&PathBuf, &str)>)
        ensures
            match request {
                None => self@.write_request() is None,
                Some((path, content)) => self@.write_request() == Some(
                    WriteRequest { path: *path, content: content@ },
                ),
            },
    {
        match &self.path {
            None => None,
            Some(path) => Some((path, self.content_buffer.as_str())),
        }
    }

    /// Records the outcome of writing the content to the backing path.
    ///
    /// Without a backing path the save fails, whatever `written` holds, and
    /// the document stays as it is. With one, a successful write leaves the
    /// document clean, and a failed write leaves it as it is.
    pub fn save(&mut self, written: Result<(), String>) -> (result: Result<(), IoError>)
        ensures
            save_view(result) == old(self)@.save_result(write_view(written)),
            final(self)@ == old(self)@.saved(write_view(written)),
    {
        if self.path.is_none() {
            return Err(IoError::NoBackingPath);
        }
        match written {
            Err(message) => Err(IoError::WriteFailed(message)),
            Ok(_) => {
                self.changed = false;
                Ok(())
            },
        }
    }

    /// Makes `path` the backing path, then records the outcome of writing the
    /// content there. The path stays even when the write failed, and the name
    /// is not touched.
    pub fn save_as(&mut self, path: PathBuf, written: Result<(), String>) -> (result: Result<
        (),
        IoError,
    >)
        ensures
            save_view(result) == old(self)@.retargeted(path).save_result(write_view(written)),
            final(self)@ == old(self)@.retargeted(path).saved(write_view(written)),
    {
        self.path = Some(path);
        self.save(written)
    }
}

/// A document that was opened and is saved at once asks for the text that
/// was read to be written back to the path it was read from; once that is
/// written, it is the document that was opened, with no unsaved change.
pub proof fn law_open_then_save_round_trips(path: PathBuf, text: Seq<char>)
    ensures
        Document::opened(path, Ok(text)) matches Ok(document) ==> {
            &&& document.write_request() == Some(WriteRequest { path: path, content: text })
            &&& document.save_result(Ok(())) is Ok
            &&& document.saved(Ok(())) == document
            &&& !document.saved(Ok(())).changed
        },
{
}

/// An edit leaves the document changed, whatever it was before, and a save
/// that succeeds after it leaves the document unchanged again, with the
/// edited text.
pub proof fn law_edit_then_save(document: Document, text: Seq<char>, written: Result<(), Seq<char>>)
    ensures
        document.edited(text).changed,
        document.edited(text).save_result(written) is Ok ==> {
            &&& !document.edited(text).saved(written).changed
            &&& document.edited(text).saved(written).content == text
        },
{
}

/// A save fails exactly where the document has no backing path or the write
/// failed, and a failed save leaves the whole document as it was. Without a
/// backing path the failure is `NoBackingPath`, whatever the write gave.
pub proof fn law_failed_save_changes_nothing(document: Document, written: Result<(), Seq<char>>)
    ensures
        document.save_result(written) is Err <==> document.path is None || written is Err,
        document.save_result(written) is Err ==> document.saved(written) == document,
        document.path is None ==> document.save_result(written) == Err::<(), IoErrorView>(
            IoErrorView::NoBackingPath,
        ),
{
}

/// Saving under a new path makes that path the backing path, also where the
/// write failed, and never touches the name or the text.
pub proof fn law_save_as_keeps_name(
    document: Document,
    path: PathBuf,
    written: Result<(), Seq<char>>,
)
    ensures
        document.retargeted(path).saved(written).path == Some(path),
        document.retargeted(path).saved(written).name == document.name,
        document.retargeted(path).saved(written).content == document.content,
{
}

} // verus!

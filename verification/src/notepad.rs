//! The editor session: the open document, its statistics, and what each
//! user action does to them.

use vstd::prelude::*;
use vstd::string::StringExecFns;
use vstd::utf8::encode_utf8;
use std::path::PathBuf;
use crate::error::IoErrorView;
use crate::labels::{number_label, numbered};
use crate::lines::{count_lines, line_count};
use crate::open_file::{read_view, write_view, Document, OpenFile};
use crate::stats::{CursorPosition, Stats};
use crate::text::utf8_len;
use crate::words::{count_words, word_count};

verus! {

/// A failure to be shown to the user in a dialog.
#[derive(Clone, Debug, PartialEq, Eq)]
pub struct ErrorReport {
    pub title: String,
    pub message: String,
}

/// The mathematical value of an [`ErrorReport`].
pub struct ErrorReportView {
    pub title: Seq<char>,
    pub message: Seq<char>,
}

impl View for ErrorReport {
    type V = ErrorReportView;

    open spec fn view(&self) -> ErrorReportView {
        ErrorReportView { title: self.title@, message: self.message@ }
    }
}

/// The mathematical value of what an action hands back: nothing, or a
/// failure to show.
pub open spec fn report_view(report: Option<ErrorReport>) -> Option<ErrorReportView> {
    match report {
        None => None,
        Some(report) => Some(report@),
    }
}

/// The dialog for a failed attempt to open a file.
pub open spec fn open_failure(error: IoErrorView) -> ErrorReportView {
    ErrorReportView { title: "Failed to open file"@, message: error.message() }
}

/// The dialog for a failed attempt to save the document.
pub open spec fn save_failure(error: IoErrorView) -> ErrorReportView {
    ErrorReportView { title: "Failed to save file"@, message: error.message() }
}

/// What a save hands back: nothing when it succeeded, else the dialog for
/// its failure.
pub open spec fn save_report(result: Result<(), IoErrorView>) -> Option<ErrorReportView> {
    match result {
        Ok(_) => None,
        Err(error) => Some(save_failure(error)),
    }
}

/// An entry of the menu bar.
#[derive(Clone, Copy, Debug, PartialEq, Eq, Structural)]
pub enum MenuItem {
    Open,
    Save,
    SaveAs,
    WordLengthStats,
    CharCountStats,
}

/// What the surrounding program has to do for the session before it reports
/// back with the matching `action_` function.
#[derive(Clone, Copy, Debug, PartialEq, Eq, Structural)]
pub enum Request {
    /// Nothing is left to do.
    Nothing,
    /// Ask the user for a file, read it, and report with `action_open`.
    PickFileToOpen,
    /// Write the content to the backing path, and report with `action_save`.
    WriteToBackingPath,
    /// Ask the user for a destination, write the content there, and report
    /// with `action_save_as`.
    PickFileToSaveAs,
}

/// What the status bar shows.
#[derive(Clone, Copy, Debug, PartialEq, Eq, Structural)]
pub struct Status {
    /// The row of the caret, counted from one.
    pub row: u128,
    /// The column of the caret, counted from one.
    pub column: u128,
    /// The size of the text in bytes of UTF-8.
    pub characters: usize,
    pub words: usize,
    pub lines: usize,
}

impl Status {
    /// The five texts of the status bar, from left to right.
    pub open spec fn label_texts(self) -> Seq<Seq<char>> {
        seq![
            numbered("Row: "@, self.row as nat),
            numbered("Column: "@, self.column as nat),
            numbered("Characters: "@, self.characters as nat),
            numbered("Words: "@, self.words as nat),
            numbered("Lines: "@, self.lines as nat),
        ]
    }

    /// Writes the five texts of the status bar, from left to right.
    pub fn labels(&self) -> (labels: Vec<String>)
        ensures
            labels@.len() == 5,
            forall|i: int| 0 <= i < 5 ==> #[trigger] labels@[i]@ == self.label_texts()[i],
    {
        let mut labels: Vec<String> = Vec::new();
        labels.push(number_label("Row: ", self.row));
        labels.push(number_label("Column: ", self.column));
        labels.push(number_label("Characters: ", self.characters as u128));
        labels.push(number_label("Words: ", self.words as u128));
        labels.push(number_label("Lines: ", self.lines as u128));
        labels
    }
}

/// The editor session.
#[derive(Clone, Debug)]
pub struct Notepad {
    pub open_file: OpenFile,
    pub stats: Stats,
}

impl Default for Notepad {
    /// A session with the unnamed empty document and no statistics.
    fn default() -> (notepad: Notepad)
        ensures
            notepad.open_file@ == Document::unnamed(),
            !notepad.stats.windows.show_word_length,
            !notepad.stats.windows.show_char_count,
            notepad.stats.word_length@ == Map::<usize, usize>::empty(),
            notepad.stats.chars_count@ == Seq::<(char, usize)>::empty(),
            notepad.stats.last_cursor == (CursorPosition { paragraph: 0, offset: 0 }),
    {
        Notepad { open_file: OpenFile::default(), stats: Stats::default() }
    }
}

impl Notepad {
    /// The title of the window for a document: its name, behind a star while
    /// it has unsaved changes.
    pub open spec fn title_of(document: Document) -> Seq<char> {
        if document.changed {
            seq!['*'] + document.name
        } else {
            document.name
        }
    }

    /// Whether a save may be asked for: there are changes to save and a
    /// backing path to save them to.
    pub open spec fn may_save(document: Document) -> bool {
        document.changed && document.path is Some
    }

    /// What a click on `item` asks for.
    pub open spec fn requested(document: Document, item: MenuItem) -> Request {
        match item {
            MenuItem::Open => Request::PickFileToOpen,
            MenuItem::Save => if Self::may_save(document) {
                Request::WriteToBackingPath
            } else {
                Request::Nothing
            },
            MenuItem::SaveAs => Request::PickFileToSaveAs,
            MenuItem::WordLengthStats => Request::Nothing,
            MenuItem::CharCountStats => Request::Nothing,
        }
    }

    /// The title of the window.
    pub fn title(&self) -> (title: String)
        ensures
            title@ == Self::title_of(self.open_file@),
    {
        if self.open_file.changed {
            proof {
                reveal_strlit("*");
            }
            String::from_str("*").concat(self.open_file.name.as_str())
        } else {
            self.open_file.name.clone()
        }
    }

    /// Whether a save may be asked for.
    pub fn can_save(&self) -> (may: bool)
        ensures
            may == Self::may_save(self.open_file@),
    {
        self.open_file.changed && self.open_file.path.is_some()
    }

    /// Decides what the key combination for saving does: `save_combo` tells
    /// whether it was pressed. It asks for a write where a save may be asked
    /// for, and is ignored otherwise.
    pub fn handle_hotkeys(&self, save_combo: bool) -> (request: Request)
        ensures
            request == if save_combo && Self::may_save(self.open_file@) {
                Request::WriteToBackingPath
            } else {
                Request::Nothing
            },
    {
        if save_combo && self.can_save() {
            Request::WriteToBackingPath
        } else {
            Request::Nothing
        }
    }

    /// Whether the menu entry `item` can be clicked: all can, but for `Save`
    /// while no save may be asked for.
    pub fn menu_enabled(&self, item: MenuItem) -> (enabled: bool)
        ensures
            enabled == (item != MenuItem::Save || Self::may_save(self.open_file@)),
    {
        match item {
            MenuItem::Save => self.can_save(),
            _ => true,
        }
    }

    /// Handles a click on the menu entry `item`. The two statistics entries
    /// are carried out at once; a file entry hands back what has to be done
    /// outside first, and leaves the session as it is.
    pub fn menu_clicked(&mut self, item: MenuItem) -> (request: Request)
        ensures
            request == Self::requested(old(self).open_file@, item),
            final(self).open_file == old(self).open_file,
            item == MenuItem::WordLengthStats ==> final(self).stats.shows_word_lengths_of(
                old(self).stats,
                old(self).open_file@.content,
            ),
            item == MenuItem::CharCountStats ==> final(self).stats.shows_char_counts_of(
                old(self).stats,
                old(self).open_file@.content,
            ),
            item != MenuItem::WordLengthStats && item != MenuItem::CharCountStats ==> {
                final(self).stats == old(self).stats
            },
    {
        match item {
            MenuItem::Open => Request::PickFileToOpen,
            MenuItem::Save => if self.can_save() {
                Request::WriteToBackingPath
            } else {
                Request::Nothing
            },
            MenuItem::SaveAs => Request::PickFileToSaveAs,
            MenuItem::WordLengthStats => {
                self.action_show_word_length_stats();
                Request::Nothing
            },
            MenuItem::CharCountStats => {
                self.action_show_char_count_stats();
                Request::Nothing
            },
        }
    }

    /// Completes "Open": `picked` is the file that the user chose together
    /// with the outcome of reading it, or `None` where the user chose none.
    ///
    /// Without a choice nothing happens. A file that opens replaces the
    /// document, whatever state that was in. One that does not leaves the
    /// document as it is and hands back the failure to show. The statistics
    /// are not touched.
    pub fn action_open(&mut self, picked: Option<(PathBuf, Result<String, String>)>) -> (report:
        Option<ErrorReport>)
        ensures
            final(self).stats == old(self).stats,
            match picked {
                None => report is None && final(self).open_file == old(self).open_file,
                Some((path, read)) => match Document::opened(path, read_view(read)) {
                    Ok(document) => report is None && final(self).open_file@ == document,
                    Err(error) => {
                        &&& report_view(report) == Some(open_failure(error))
                        &&& final(self).open_file == old(self).open_file
                    },
                },
            },
    {
        match picked {
            None => None,
            Some((path, read)) => match OpenFile::open_path(&path, read) {
                Ok(file) => {
                    self.open_file = file;
                    None
                },
                Err(error) => Some(
                    ErrorReport {
                        title: String::from_str("Failed to open file"),
                        message: error.message(),
                    },
                ),
            },
        }
    }

    /// Completes "Save": `written` is the outcome of writing the content to
    /// the backing path. Hands back the failure to show, if the save failed.
    pub fn action_save(&mut self, written: Result<(), String>) -> (report: Option<ErrorReport>)
        ensures
            final(self).stats == old(self).stats,
            final(self).open_file@ == old(self).open_file@.saved(write_view(written)),
            report_view(report) == save_report(
                old(self).open_file@.save_result(write_view(written)),
            ),
    {
        match self.open_file.save(written) {
            Ok(_) => None,
            Err(error) => Some(
                ErrorReport {
                    title: String::from_str("Failed to save file"),
                    message: error.message(),
                },
            ),
        }
    }

    /// Completes "Save as": `picked` is the destination that the user chose
    /// together with the outcome of writing the content there, or `None`
    /// where the user chose none.
    ///
    /// Without a choice nothing happens. With one, the destination becomes
    /// the backing path, also where the write failed; the name stays.
    pub fn action_save_as(&mut self, picked: Option<(PathBuf, Result<(), String>)>) -> (report:
        Option<ErrorReport>)
        ensures
            final(self).stats == old(self).stats,
            match picked {
                None => report is None && final(self).open_file == old(self).open_file,
                Some((path, written)) => {
                    &&& final(self).open_file@ == old(self).open_file@.retargeted(path).saved(
                        write_view(written),
                    )
                    &&& report_view(report) == save_report(
                        old(self).open_file@.retargeted(path).save_result(write_view(written)),
                    )
                },
            },
    {
        match picked {
            None => None,
            Some((path, written)) => match self.open_file.save_as(path, written) {
                Ok(_) => None,
                Err(error) => Some(
                    ErrorReport {
                        title: String::from_str("Failed to save file"),
                        message: error.message(),
                    },
                ),
            },
        }
    }

    /// Computes the word-length histogram of the document as it is now, and
    /// shows its panel.
    pub fn action_show_word_length_stats(&mut self)
        ensures
            final(self).open_file == old(self).open_file,
            final(self).stats.shows_word_lengths_of(old(self).stats, old(self).open_file@.content),
    {
        self.stats.compute_word_length(self.open_file.content_buffer.as_str());
        self.stats.windows.show_word_length = true;
    }

    /// Computes the character-frequency table of the document as it is now,
    /// and shows its panel.
    pub fn action_show_char_count_stats(&mut self)
        ensures
            final(self).open_file == old(self).open_file,
            final(self).stats.shows_char_counts_of(old(self).stats, old(self).open_file@.content),
    {
        self.stats.compute_chars_count(self.open_file.content_buffer.as_str());
        self.stats.windows.show_char_count = true;
    }

    /// Takes in what the text editor reported after it was shown: the new
    /// text where the user edited it, and the caret position where there is
    /// one.
    ///
    /// An edit replaces the content and marks the document as changed. The
    /// caret is remembered; without one it counts as standing at the start.
    /// The statistics stay as they were computed.
    pub fn text_editor_ui(&mut self, edit: Option<String>, cursor: Option<CursorPosition>)
        ensures
            final(self).open_file@ == match edit {
                Some(text) => old(self).open_file@.edited(text@),
                None => old(self).open_file@,
            },
            final(self).stats.last_cursor == match cursor {
                Some(position) => position,
                None => CursorPosition { paragraph: 0, offset: 0 },
            },
            final(self).stats.windows == old(self).stats.windows,
            final(self).stats.word_length == old(self).stats.word_length,
            final(self).stats.chars_count == old(self).stats.chars_count,
    {
        self.stats.last_cursor = match cursor {
            Some(position) => position,
            None => CursorPosition::default(),
        };
        match edit {
            Some(text) => self.open_file.edit(text),
            None => {},
        }
    }

    /// Derives what the status bar shows from the document as it is now and
    /// the caret position last reported.
    pub fn info_panel_ui(&self) -> (status: Status)
        ensures
            status.row == self.stats.last_cursor.paragraph + 1,
            status.column == self.stats.last_cursor.offset + 1,
            status.characters == encode_utf8(self.open_file@.content).len(),
            status.words == word_count(self.open_file@.content),
            status.lines == line_count(self.open_file@.content),
    {
        let content = self.open_file.content_buffer.as_str();
        Status {
            row: self.stats.last_cursor.paragraph as u128 + 1,
            column: self.stats.last_cursor.offset as u128 + 1,
            characters: utf8_len(content),
            words: count_words(content),
            lines: count_lines(content),
        }
    }
}

} // verus!

//! Persistent user settings, the document they are saved as, and the draft
//! that the settings dialog edits.

use vstd::prelude::*;
use crate::app::Message;
use crate::journal::{get_default_journal_path, is_default_journal_path, text_of, Platform};
use crate::persistence::PersistenceError;

verus! {

/// The visual theme to use.
#[derive(Debug, Clone, Copy, PartialEq, Eq, Structural)]
pub enum Theme {
    /// Dark mode: light text on a dark background.
    Dark,
    /// Light mode: dark text on a light background.
    Light,
    /// Follow the system's theme preference.
    System,
}

/// The path to Elite: Dangerous journal files.
#[derive(Debug, PartialEq, Eq)]
pub enum JournalPath {
    /// Text that the user has typed, which may or may not name a folder.
    String(String),
    /// The text of a path that the program has worked out.
    Path(String),
    /// No path is known.
    Unset,
}

/// `s` with `text` put in before the character at `at`, or at the end where
/// `s` has no such character.
pub open spec fn text_inserted(s: Seq<char>, text: Seq<char>, at: int) -> Seq<char> {
    let at = if at < s.len() {
        at
    } else {
        s.len() as int
    };
    s.subrange(0, at) + text + s.subrange(at, s.len() as int)
}

/// `s` without the characters from `start` up to `end`, both taken as the
/// end of `s` where they lie beyond it.
pub open spec fn text_deleted(s: Seq<char>, start: int, end: int) -> Seq<char> {
    let start = if start < s.len() {
        start
    } else {
        s.len() as int
    };
    let end = if end < s.len() {
        end
    } else {
        s.len() as int
    };
    s.subrange(0, start) + s.subrange(end, s.len() as int)
}

/// Calls `egui`'s `TextBuffer::insert_text` for `String`. It finds the byte
/// at which the character `char_index` starts, or the end of the buffer
/// where there is no such character, inserts `text` there and returns the
/// number of characters of `text`.
#[verifier::external_body]
fn buffer_insert_text(buffer: &mut String, text: &str, char_index: usize) -> (inserted: usize)
    ensures
        final(buffer)@ == text_inserted(old(buffer)@, text@, char_index as int),
        inserted == text@.len(),
{
    egui::TextBuffer::insert_text(buffer, text, char_index)
}

/// Calls `egui`'s `TextBuffer::delete_char_range` for `String`. It panics
/// on a range that ends before it starts; otherwise it finds the bytes at
/// which the two characters start, each taken as the end of the buffer
/// where there is no such character, and removes what lies between them.
#[verifier::external_body]
fn buffer_delete_char_range(buffer: &mut String, start: usize, end: usize)
    requires
        start <= end,
    ensures
        final(buffer)@ == text_deleted(old(buffer)@, start as int, end as int),
{
    egui::TextBuffer::delete_char_range(buffer, start..end)
}

impl Clone for JournalPath {
    fn clone(&self) -> (copy: Self)
        ensures
            copy == *self,
    {
        match self {
            JournalPath::String(s) => JournalPath::String(s.clone()),
            JournalPath::Path(p) => JournalPath::Path(p.clone()),
            JournalPath::Unset => JournalPath::Unset,
        }
    }
}

impl JournalPath {
    /// The text that an editor shows for this path: what was typed, the
    /// path, or nothing.
    pub open spec fn text(self) -> Seq<char> {
        match self {
            JournalPath::String(s) => s@,
            JournalPath::Path(p) => p@,
            JournalPath::Unset => Seq::empty(),
        }
    }

    /// Whether this is the value that stands for the default path `path`.
    pub open spec fn stands_for(self, path: Option<Seq<char>>) -> bool {
        match path {
            Some(text) => self matches JournalPath::Path(p) && p@ == text,
            None => self == JournalPath::Unset,
        }
    }

    /// Whether this can be the default value on `platform`.
    pub open spec fn is_default_on(self, platform: Platform) -> bool {
        exists|path: Option<Seq<char>>| #[trigger]
            self.stands_for(path) && is_default_journal_path(platform, path)
    }

    /// The value that stands for a default path, or for the lack of one.
    pub fn from_default(path: Option<String>) -> (journal_path: Self)
        ensures
            journal_path.stands_for(text_of(path)),
    {
        match path {
            Some(path) => JournalPath::Path(path),
            None => JournalPath::Unset,
        }
    }

    /// The default journal path of the current user on `platform`.
    pub fn default_on(platform: Platform) -> (journal_path: Self)
        ensures
            journal_path.is_default_on(platform),
            platform == Platform::Other ==> journal_path == JournalPath::Unset,
    {
        let path = get_default_journal_path(platform);
        JournalPath::from_default(path)
    }

    /// The text to edit for this path.
    pub fn as_text(&self) -> (text: String)
        ensures
            text@ == self.text(),
    {
        match self {
            JournalPath::String(s) => s.clone(),
            JournalPath::Path(p) => p.clone(),
            JournalPath::Unset => String::new(),
        }
    }

    /// Insert `text` before the character `char_index` of the text of this
    /// path, or at its end where it is shorter. The path becomes the edited
    /// text, whatever it was before; the number of characters put in is
    /// returned.
    pub fn insert_text(&mut self, text: &str, char_index: usize) -> (inserted: usize)
        ensures
            *final(self) matches JournalPath::String(s) && s@ == text_inserted(
                old(self).text(),
                text@,
                char_index as int,
            ),
            inserted == text@.len(),
    {
        let mut string_repr = self.as_text();
        let inserted = buffer_insert_text(&mut string_repr, text, char_index);
        *self = JournalPath::String(string_repr);
        inserted
    }

    /// Delete the characters from `start` up to `end` from the text of this
    /// path, as far as it has them. The path becomes the edited text,
    /// whatever it was before.
    pub fn delete_char_range(&mut self, start: usize, end: usize)
        requires
            start <= end,
        ensures
            *final(self) matches JournalPath::String(s) && s@ == text_deleted(
                old(self).text(),
                start as int,
                end as int,
            ),
    {
        let mut string_repr = self.as_text();
        buffer_delete_char_range(&mut string_repr, start, end);
        *self = JournalPath::String(string_repr);
    }
}

/// Persistent user settings for Third Eye.
#[derive(Debug, PartialEq, Eq)]
pub struct Settings {
    /// The theme to use.
    pub theme: Theme,
    /// The path to Elite: Dangerous journal files.
    pub journal_path: JournalPath,
}

impl Clone for Settings {
    fn clone(&self) -> (copy: Self)
        ensures
            copy == *self,
    {
        Settings { theme: self.theme, journal_path: self.journal_path.clone() }
    }
}

/// Settings as they are found in a file. A file written by an older
/// version of the program lacks the fields that were added since.
#[derive(Debug, PartialEq, Eq)]
pub struct SettingsDocument {
    pub theme: Option<Theme>,
    pub journal_path: Option<JournalPath>,
}

impl Settings {
    /// The document that holds every field of `self`.
    pub open spec fn document(self) -> SettingsDocument {
        SettingsDocument { theme: Some(self.theme), journal_path: Some(self.journal_path) }
    }

    /// Whether these can be the settings of a first run on `platform`.
    pub open spec fn is_default_on(self, platform: Platform) -> bool {
        self.theme == Theme::System && self.journal_path.is_default_on(platform)
    }

    /// The settings of a first run on `platform`: the system's theme and the
    /// default journal path of the current user.
    pub fn default_on(platform: Platform) -> (settings: Self)
        ensures
            settings.is_default_on(platform),
            platform == Platform::Other ==> settings == (Settings {
                theme: Theme::System,
                journal_path: JournalPath::Unset,
            }),
    {
        Settings { theme: Theme::System, journal_path: JournalPath::default_on(platform) }
    }

    /// The document to save these settings as.
    pub fn to_document(&self) -> (document: SettingsDocument)
        ensures
            document == self.document(),
    {
        SettingsDocument {
            theme: Some(self.theme),
            journal_path: Some(self.journal_path.clone()),
        }
    }
}

impl SettingsDocument {
    /// The settings that the document stands for: each field that it holds,
    /// and for each that it lacks the field of `defaults`.
    pub open spec fn completed(self, defaults: Settings) -> Settings {
        Settings {
            theme: match self.theme {
                Some(theme) => theme,
                None => defaults.theme,
            },
            journal_path: match self.journal_path {
                Some(journal_path) => journal_path,
                None => defaults.journal_path,
            },
        }
    }

    /// Whether `settings` are what the document stands for on `platform`:
    /// each field that it holds, and a default of `platform` for each that
    /// it lacks.
    pub open spec fn restores(self, platform: Platform, settings: Settings) -> bool {
        &&& settings.theme == match self.theme {
            Some(theme) => theme,
            None => Theme::System,
        }
        &&& match self.journal_path {
            Some(journal_path) => settings.journal_path == journal_path,
            None => settings.journal_path.is_default_on(platform),
        }
    }

    /// Fill the fields that the document lacks from `defaults`.
    pub fn complete(self, defaults: Settings) -> (settings: Settings)
        ensures
            settings == self.completed(defaults),
    {
        Settings {
            theme: match self.theme {
                Some(theme) => theme,
                None => defaults.theme,
            },
            journal_path: match self.journal_path {
                Some(journal_path) => journal_path,
                None => defaults.journal_path,
            },
        }
    }

    /// Turn the document into settings on `platform`. The defaults are only
    /// worked out where a field is missing.
    pub fn restore(self, platform: Platform) -> (settings: Settings)
        ensures
            self.restores(platform, settings),
    {
        let theme = match self.theme {
            Some(theme) => theme,
            None => Theme::System,
        };
        let journal_path = match self.journal_path {
            Some(journal_path) => journal_path,
            None => JournalPath::default_on(platform),
        };
        Settings { theme, journal_path }
    }
}

/// Saving settings and loading them again gives the same settings,
/// whatever the defaults are.
pub proof fn lemma_save_then_load(settings: Settings, defaults: Settings)
    ensures
        settings.document().completed(defaults) == settings,
{
}

/// Loading applies a default to the fields that the document lacks and to
/// no other: a field that it holds is taken from it.
pub proof fn lemma_defaults_for_missing_fields_only(document: SettingsDocument, defaults: Settings)
    ensures
        document.theme is Some ==> document.completed(defaults).theme == document.theme->Some_0,
        document.theme is None ==> document.completed(defaults).theme == defaults.theme,
        document.journal_path is Some ==> document.completed(defaults).journal_path
            == document.journal_path->Some_0,
        document.journal_path is None ==> document.completed(defaults).journal_path
            == defaults.journal_path,
{
}

/// What `restore` gives is the document completed with defaults of the
/// platform.
pub proof fn lemma_restore_completes(
    document: SettingsDocument,
    platform: Platform,
    settings: Settings,
)
    requires
        document.restores(platform, settings),
    ensures
        exists|defaults: Settings| #[trigger]
            defaults.is_default_on(platform) && settings == document.completed(defaults),
{
    let defaults = Settings {
        theme: Theme::System,
        journal_path: match document.journal_path {
            Some(_) => JournalPath::Unset,
            None => settings.journal_path,
        },
    };
    if document.journal_path is Some {
        assert(JournalPath::Unset.stands_for(None));
        assert(is_default_journal_path(platform, None));
    }
    assert(defaults.is_default_on(platform));
}

/// The settings to start with on `platform`, given what loading the saved
/// settings came to: the saved ones where there are any, with defaults for
/// the fields that they lack, and the defaults of a first run where nothing
/// was saved or it could not be read.
pub fn initial_settings(
    saved: Result<Option<SettingsDocument>, PersistenceError>,
    platform: Platform,
) -> (settings: Settings)
    ensures
        match saved {
            Ok(Some(document)) => document.restores(platform, settings),
            _ => settings.is_default_on(platform),
        },
{
    match saved {
        Ok(Some(document)) => document.restore(platform),
        _ => Settings::default_on(platform),
    }
}

/// State associated with the settings dialog: a draft of the settings that
/// is edited apart from the live ones until it is saved or given up.
#[derive(Debug)]
pub struct SettingsEditor {
    /// The draft as it stands.
    pub settings: Settings,
}

impl From<Settings> for SettingsEditor {
    fn from(settings: Settings) -> (editor: Self) {
        SettingsEditor { settings }
    }
}

impl vstd::std_specs::convert::FromSpecImpl<Settings> for SettingsEditor {
    open spec fn obeys_from_spec() -> bool {
        true
    }

    open spec fn from_spec(settings: Settings) -> Self {
        SettingsEditor { settings }
    }
}

impl SettingsEditor {
    /// What the dialog asks for once its buttons have been shown: to close
    /// without a change when "Cancel" was clicked, to close with the draft
    /// as the new settings when "Save" was clicked and "Cancel" was not, and
    /// nothing while neither was.
    pub open spec fn request(self, cancel_clicked: bool, save_clicked: bool) -> Option<Message> {
        if cancel_clicked {
            Some(Message::CloseSettingsModal { new_settings: None })
        } else if save_clicked {
            Some(Message::CloseSettingsModal { new_settings: Some(self.settings) })
        } else {
            None
        }
    }

    /// Settle one showing of the dialog, given which of its buttons were
    /// clicked.
    pub fn ui(&self, cancel_clicked: bool, save_clicked: bool) -> (message: Option<Message>)
        ensures
            message == self.request(cancel_clicked, save_clicked),
    {
        if cancel_clicked {
            return Some(Message::CloseSettingsModal { new_settings: None });
        }
        if save_clicked {
            return Some(Message::CloseSettingsModal { new_settings: Some(self.settings.clone()) });
        }
        None
    }
}

} // verus!

//! What the provider reports of the entries of a folder.

use vstd::prelude::*;

verus! {

/// The mark of an alias entry: the identifier of the entry it points to.
#[derive(Clone, Debug, PartialEq, Eq)]
pub struct ShortcutReference {
    pub target_id: String,
}

/// One entry of the folder, as the provider describes it.
///
/// An entry with `shortcut_details` is an alias: it has no content of its
/// own, and what is served under its name is the entry it points to.
#[derive(Clone, Debug, PartialEq, Eq)]
pub struct FileRecord {
    /// The identifier that the provider gave the entry.
    pub id: String,
    /// The display name, by which the entry is looked up.
    pub name: String,
    /// The content-type label.
    pub mime_type: String,
    /// A link to a page that shows the entry, where the provider gives one.
    pub web_view_link: Option<String>,
    /// A link to the content of the entry, where the provider gives one.
    pub web_content_link: Option<String>,
    /// Present exactly when the entry is an alias.
    pub shortcut_details: Option<ShortcutReference>,
}

/// The entries that one query returned, in the provider's order.
#[derive(Clone, Debug, PartialEq, Eq)]
pub struct ListingResult {
    pub files: Vec<FileRecord>,
}

/// An optional text as a value of specifications.
pub open spec fn optional_text(text: Option<String>) -> Option<Seq<char>> {
    match text {
        Some(t) => Some(t@),
        None => None,
    }
}

/// A [`FileRecord`] as a value of specifications.
pub struct FileRecordView {
    pub id: Seq<char>,
    pub name: Seq<char>,
    pub mime_type: Seq<char>,
    pub web_view_link: Option<Seq<char>>,
    pub web_content_link: Option<Seq<char>>,
    /// The identifier that an alias points to; `None` for an entry with
    /// content of its own.
    pub shortcut_target: Option<Seq<char>>,
}

impl View for ShortcutReference {
    type V = Seq<char>;

    open spec fn view(&self) -> Seq<char> {
        self.target_id@
    }
}

impl View for FileRecord {
    type V = FileRecordView;

    open spec fn view(&self) -> FileRecordView {
        FileRecordView {
            id: self.id@,
            name: self.name@,
            mime_type: self.mime_type@,
            web_view_link: optional_text(self.web_view_link),
            web_content_link: optional_text(self.web_content_link),
            shortcut_target: match self.shortcut_details {
                Some(shortcut) => Some(shortcut@),
                None => None,
            },
        }
    }
}

impl View for ListingResult {
    type V = Seq<FileRecordView>;

    open spec fn view(&self) -> Seq<FileRecordView> {
        self.files@.map_values(|file: FileRecord| file@)
    }
}

impl FileRecord {
    /// Whether the entry is an alias for another entry.
    pub fn is_shortcut(&self) -> (alias: bool)
        ensures
            alias == self@.shortcut_target is Some,
    {
        self.shortcut_details.is_some()
    }
}

impl ListingResult {
    /// The entry that answers a lookup by name: the first that the provider
    /// returned. Later entries of the same name are not looked at.
    pub fn first_match(self) -> (first: Option<FileRecord>)
        ensures
            match first {
                Some(file) => self@.len() > 0 && file@ == self@[0],
                None => self@.len() == 0,
            },
    {
        let mut files = self.files;
        if files.is_empty() {
            None
        } else {
            Some(files.remove(0))
        }
    }
}

} // verus!

//! The life of one request, as a state machine.
//!
//! The gateway never talks to the provider itself. It says what is to be done
//! next (an [`Action`]) and is told what came of it (an [`Event`]). A request
//! starts with [`fetch`], goes on with [`step`] after each event, and is over
//! with the action [`Action::Respond`].

use crate::listing::{listing_page, render_listing};
use crate::query::{
    content_request, content_url, list_request, list_url, metadata_request, metadata_url,
    search_request, search_url,
};
use crate::record::{FileRecord, FileRecordView, ListingResult};
use crate::reply::{
    failure, file_reply, Reply, ReplyView, BAD_REQUEST, DOWNLOAD_FAILED, FILE_NOT_FOUND,
    INVALID_NAME, LIST_FAILED, NOT_FOUND, NO_ROUTE, SEARCH_FAILED, TARGET_FAILED,
    UPSTREAM_FAILURE,
};
use crate::route::{route, routed, Route, RouteView};
use vstd::prelude::*;

verus! {

/// What the gateway is set up with: the credential for the provider and the
/// identifier of the folder that it publishes.
#[derive(Clone, Debug, PartialEq, Eq)]
pub struct Config {
    pub api_key: String,
    pub folder_id: String,
}

/// A [`Config`] as a value of specifications.
pub struct ConfigView {
    pub api_key: Seq<char>,
    pub folder_id: Seq<char>,
}

impl View for Config {
    type V = ConfigView;

    open spec fn view(&self) -> ConfigView {
        ConfigView { api_key: self.api_key@, folder_id: self.folder_id@ }
    }
}

/// Which part of a provider answer is still to come.
#[derive(Clone, Copy, Debug, PartialEq, Eq)]
pub enum Awaiting {
    /// The status of the answer.
    Status,
    /// The body of an answer whose status was a success.
    Body,
}

/// Where a request stands.
#[derive(Clone, Debug, PartialEq, Eq)]
pub enum Stage {
    /// The entries of the folder were asked for, to be listed.
    Listing(Awaiting),
    /// The folder was searched for a name.
    Lookup(Awaiting),
    /// The entry found was an alias, and its target was asked for.
    ShortcutResolve(Awaiting),
    /// The content of this entry was asked for.
    Download(Awaiting, FileRecord),
    /// The reply is out. Nothing follows.
    Responded,
}

/// What is to be done next for a request.
#[derive(Clone, Debug, PartialEq, Eq)]
pub enum Action {
    /// Ask the provider for this address and report the status of its answer.
    Fetch { url: String },
    /// Read the body of the answer at hand as a set of entries and report it.
    ReadListing,
    /// Read the body of the answer at hand as one entry and report it.
    ReadRecord,
    /// Read the body of the answer at hand as bytes and report them.
    ReadContent,
    /// Send this reply to the caller.
    Respond { reply: Reply },
}

/// What came of the last action.
#[derive(Clone, Debug, PartialEq, Eq)]
pub enum Event {
    /// The provider answered with this status.
    Status(u16),
    /// The body held these entries.
    Listing(ListingResult),
    /// The body held this entry.
    Record(FileRecord),
    /// The body held these bytes.
    Content(Vec<u8>),
}

/// The new stage of a request together with what is to be done next.
#[derive(Clone, Debug, PartialEq, Eq)]
pub struct Turn {
    pub stage: Stage,
    pub action: Action,
}

/// A [`Stage`] as a value of specifications.
pub enum StageView {
    Listing(Awaiting),
    Lookup(Awaiting),
    ShortcutResolve(Awaiting),
    Download(Awaiting, FileRecordView),
    Responded,
}

/// An [`Action`] as a value of specifications.
pub enum ActionView {
    Fetch { url: Seq<char> },
    ReadListing,
    ReadRecord,
    ReadContent,
    Respond { reply: ReplyView },
}

/// An [`Event`] as a value of specifications.
pub enum EventView {
    Status(u16),
    Listing(Seq<FileRecordView>),
    Record(FileRecordView),
    Content(Seq<u8>),
}

/// A [`Turn`] as a value of specifications.
pub struct TurnView {
    pub stage: StageView,
    pub action: ActionView,
}

impl View for Stage {
    type V = StageView;

    open spec fn view(&self) -> StageView {
        match *self {
            Stage::Listing(awaiting) => StageView::Listing(awaiting),
            Stage::Lookup(awaiting) => StageView::Lookup(awaiting),
            Stage::ShortcutResolve(awaiting) => StageView::ShortcutResolve(awaiting),
            Stage::Download(awaiting, file) => StageView::Download(awaiting, file@),
            Stage::Responded => StageView::Responded,
        }
    }
}

impl View for Action {
    type V = ActionView;

    open spec fn view(&self) -> ActionView {
        match *self {
            Action::Fetch { url } => ActionView::Fetch { url: url@ },
            Action::ReadListing => ActionView::ReadListing,
            Action::ReadRecord => ActionView::ReadRecord,
            Action::ReadContent => ActionView::ReadContent,
            Action::Respond { reply } => ActionView::Respond { reply: reply@ },
        }
    }
}

impl View for Event {
    type V = EventView;

    open spec fn view(&self) -> EventView {
        match *self {
            Event::Status(code) => EventView::Status(code),
            Event::Listing(listing) => EventView::Listing(listing@),
            Event::Record(file) => EventView::Record(file@),
            Event::Content(bytes) => EventView::Content(bytes@),
        }
    }
}

impl View for Turn {
    type V = TurnView;

    open spec fn view(&self) -> TurnView {
        TurnView { stage: self.stage@, action: self.action@ }
    }
}

/// Whether a provider status is a success: the range from 200 up to, and
/// without, 300.
pub open spec fn is_success(status: u16) -> bool {
    200 <= status < 300
}

/// The turn that ends a request with a reply.
pub open spec fn respond(reply: ReplyView) -> TurnView {
    TurnView { stage: StageView::Responded, action: ActionView::Respond { reply } }
}

/// The turn that asks the provider for an address on the way to `stage`.
pub open spec fn ask(stage: StageView, url: Seq<char>) -> TurnView {
    TurnView { stage, action: ActionView::Fetch { url } }
}

/// The turn that starts a listing: the entries of the folder are asked for.
pub open spec fn listing_start(api_key: Seq<char>, folder_id: Seq<char>) -> TurnView {
    ask(StageView::Listing(Awaiting::Status), list_url(api_key, folder_id))
}

/// The turn that starts a lookup: the folder is searched for the name.
pub open spec fn lookup_start(
    api_key: Seq<char>,
    folder_id: Seq<char>,
    name: Seq<char>,
) -> TurnView {
    ask(StageView::Lookup(Awaiting::Status), search_url(api_key, folder_id, name))
}

/// The turn that starts a download: the content is asked for under the
/// entry's own identifier.
pub open spec fn download_start(api_key: Seq<char>, file: FileRecordView) -> TurnView {
    ask(StageView::Download(Awaiting::Status, file), content_url(api_key, file.id))
}

/// The first turn of a request for `path`.
pub open spec fn opening(config: ConfigView, path: Seq<char>) -> TurnView {
    match routed(path) {
        RouteView::Listing => listing_start(config.api_key, config.folder_id),
        RouteView::Serve { name } => lookup_start(config.api_key, config.folder_id, name),
        RouteView::InvalidName => respond(failure(BAD_REQUEST, INVALID_NAME@)),
        RouteView::Unknown => respond(failure(NOT_FOUND, NO_ROUTE@)),
    }
}

/// The turn that follows the status of a provider answer: on success the
/// body is read by `read`, on any other status the request ends with a
/// failure that says `message`.
pub open spec fn after_status(
    status: u16,
    reading: StageView,
    read: ActionView,
    message: Seq<char>,
) -> TurnView {
    if is_success(status) {
        TurnView { stage: reading, action: read }
    } else {
        respond(failure(UPSTREAM_FAILURE, message))
    }
}

/// The turn that follows the entries found by a search. Only the first entry
/// counts. Without one the request ends as not found. An alias has its target
/// asked for; any other entry is downloaded.
pub open spec fn after_search(api_key: Seq<char>, found: Seq<FileRecordView>) -> TurnView {
    if found.len() == 0 {
        respond(failure(NOT_FOUND, FILE_NOT_FOUND@))
    } else {
        match found[0].shortcut_target {
            Some(target_id) => ask(
                StageView::ShortcutResolve(Awaiting::Status),
                metadata_url(api_key, target_id),
            ),
            None => download_start(api_key, found[0]),
        }
    }
}

/// The turn that an event brings about at a stage; `None` where the event is
/// not the one that the stage awaits.
pub open spec fn transition(config: ConfigView, stage: StageView, event: EventView) -> Option<
    TurnView,
> {
    match (stage, event) {
        (StageView::Listing(Awaiting::Status), EventView::Status(status)) => Some(
            after_status(
                status,
                StageView::Listing(Awaiting::Body),
                ActionView::ReadListing,
                LIST_FAILED@,
            ),
        ),
        (StageView::Listing(Awaiting::Body), EventView::Listing(files)) => Some(
            respond(ReplyView::Page { html: listing_page(files) }),
        ),
        (StageView::Lookup(Awaiting::Status), EventView::Status(status)) => Some(
            after_status(
                status,
                StageView::Lookup(Awaiting::Body),
                ActionView::ReadListing,
                SEARCH_FAILED@,
            ),
        ),
        (StageView::Lookup(Awaiting::Body), EventView::Listing(found)) => Some(
            after_search(config.api_key, found),
        ),
        (StageView::ShortcutResolve(Awaiting::Status), EventView::Status(status)) => Some(
            after_status(
                status,
                StageView::ShortcutResolve(Awaiting::Body),
                ActionView::ReadRecord,
                TARGET_FAILED@,
            ),
        ),
        (StageView::ShortcutResolve(Awaiting::Body), EventView::Record(target)) => Some(
            download_start(config.api_key, target),
        ),
        (StageView::Download(Awaiting::Status, file), EventView::Status(status)) => Some(
            after_status(
                status,
                StageView::Download(Awaiting::Body, file),
                ActionView::ReadContent,
                DOWNLOAD_FAILED@,
            ),
        ),
        (StageView::Download(Awaiting::Body, file), EventView::Content(bytes)) => Some(
            respond(file_reply(file, bytes)),
        ),
        _ => None,
    }
}

/// Tells a successful provider status from every other one.
pub fn status_is_success(status: u16) -> (ok: bool)
    ensures
        ok == is_success(status),
{
    200 <= status && status < 300
}

impl Turn {
    /// Ends the request with a reply.
    pub fn respond(reply: Reply) -> (turn: Turn)
        ensures
            turn@ == respond(reply@),
    {
        Turn { stage: Stage::Responded, action: Action::Respond { reply } }
    }

    /// Whether the request is over.
    pub fn is_final(&self) -> (over: bool)
        ensures
            over == (self@.stage is Responded),
    {
        match self.stage {
            Stage::Responded => true,
            _ => false,
        }
    }
}

/// Starts a listing of the folder.
pub fn list_files(api_key: &str, folder_id: &str) -> (turn: Turn)
    ensures
        turn@ == listing_start(api_key@, folder_id@),
{
    Turn {
        stage: Stage::Listing(Awaiting::Status),
        action: Action::Fetch { url: list_request(api_key, folder_id) },
    }
}

/// Starts the lookup of the file named `file_name` in the folder.
pub fn serve_file_by_name(api_key: &str, folder_id: &str, file_name: &str) -> (turn: Turn)
    ensures
        turn@ == lookup_start(api_key@, folder_id@, file_name@),
{
    Turn {
        stage: Stage::Lookup(Awaiting::Status),
        action: Action::Fetch { url: search_request(api_key, folder_id, file_name) },
    }
}

/// Starts the download of the content of `file_info`.
pub fn serve_file_by_id(api_key: &str, file_info: FileRecord) -> (turn: Turn)
    ensures
        turn@ == download_start(api_key@, file_info@),
{
    let url = content_request(api_key, file_info.id.as_str());
    Turn { stage: Stage::Download(Awaiting::Status, file_info), action: Action::Fetch { url } }
}

/// Takes up a request for `path` and says what is to be done first.
pub fn fetch(config: &Config, path: &str) -> (turn: Turn)
    ensures
        turn@ == opening(config@, path@),
{
    match route(path) {
        Route::Listing => list_files(config.api_key.as_str(), config.folder_id.as_str()),
        Route::Serve { name } => serve_file_by_name(
            config.api_key.as_str(),
            config.folder_id.as_str(),
            name.as_str(),
        ),
        Route::InvalidName => Turn::respond(Reply::fail(BAD_REQUEST, INVALID_NAME)),
        Route::Unknown => Turn::respond(Reply::fail(NOT_FOUND, NO_ROUTE)),
    }
}

/// Decides on the status of a provider answer whether its body is read.
fn on_status(status: u16, reading: Stage, read: Action, message: &str) -> (turn: Turn)
    ensures
        turn@ == after_status(status, reading@, read@, message@),
{
    if status_is_success(status) {
        Turn { stage: reading, action: read }
    } else {
        Turn::respond(Reply::fail(UPSTREAM_FAILURE, message))
    }
}

/// Decides on the entries that a search found what is served.
fn on_search(api_key: &str, found: ListingResult) -> (turn: Turn)
    ensures
        turn@ == after_search(api_key@, found@),
{
    match found.first_match() {
        None => Turn::respond(Reply::fail(NOT_FOUND, FILE_NOT_FOUND)),
        Some(file_info) => match &file_info.shortcut_details {
            Some(shortcut) => Turn {
                stage: Stage::ShortcutResolve(Awaiting::Status),
                action: Action::Fetch {
                    url: metadata_request(api_key, shortcut.target_id.as_str()),
                },
            },
            None => serve_file_by_id(api_key, file_info),
        },
    }
}

/// Carries a request on after an event. Returns `None`, and drops the
/// request, when the event is not the one that the stage awaits.
pub fn step(config: &Config, stage: Stage, event: Event) -> (next: Option<Turn>)
    ensures
        match next {
            Some(turn) => transition(config@, stage@, event@) == Some(turn@),
            None => transition(config@, stage@, event@) is None,
        },
{
    let api_key = config.api_key.as_str();
    match (stage, event) {
        (Stage::Listing(Awaiting::Status), Event::Status(status)) => Some(
            on_status(status, Stage::Listing(Awaiting::Body), Action::ReadListing, LIST_FAILED),
        ),
        (Stage::Listing(Awaiting::Body), Event::Listing(listing)) => Some(
            Turn::respond(Reply::Page { html: render_listing(&listing) }),
        ),
        (Stage::Lookup(Awaiting::Status), Event::Status(status)) => Some(
            on_status(status, Stage::Lookup(Awaiting::Body), Action::ReadListing, SEARCH_FAILED),
        ),
        (Stage::Lookup(Awaiting::Body), Event::Listing(found)) => Some(on_search(api_key, found)),
        (Stage::ShortcutResolve(Awaiting::Status), Event::Status(status)) => Some(
            on_status(
                status,
                Stage::ShortcutResolve(Awaiting::Body),
                Action::ReadRecord,
                TARGET_FAILED,
            ),
        ),
        (Stage::ShortcutResolve(Awaiting::Body), Event::Record(target)) => Some(
            serve_file_by_id(api_key, target),
        ),
        (Stage::Download(Awaiting::Status, file), Event::Status(status)) => Some(
            on_status(
                status,
                Stage::Download(Awaiting::Body, file),
                Action::ReadContent,
                DOWNLOAD_FAILED,
            ),
        ),
        (Stage::Download(Awaiting::Body, file), Event::Content(bytes)) => Some(
            Turn::respond(Reply::serve(&file, bytes)),
        ),
        _ => None,
    }
}

} // verus!

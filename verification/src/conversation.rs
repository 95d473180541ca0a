//! Whole requests: the actions that the gateway takes from the first turn to
//! the reply, and what holds of every such run.

use crate::gateway::{
    fetch, is_success, opening, respond, step, transition, Action, ActionView, Awaiting, Config,
    ConfigView, Event, EventView, StageView,
};
use crate::query::{content_url, metadata_url, search_url};
use crate::record::FileRecordView;
use crate::reply::{
    failure, file_reply, reply_status, DOWNLOAD_FAILED, FILE_NOT_FOUND, LIST_FAILED, NOT_FOUND,
    SEARCH_FAILED, TARGET_FAILED, UPSTREAM_FAILURE,
};
use crate::route::routed;
use vstd::prelude::*;

verus! {

/// The actions that follow `stage` as `events` come in, one for each event.
/// The run ends with the events, or before the first event that the stage
/// then reached does not await.
pub open spec fn run(config: ConfigView, stage: StageView, events: Seq<EventView>) -> Seq<
    ActionView,
>
    decreases events.len(),
{
    if events.len() == 0 {
        Seq::empty()
    } else {
        match transition(config, stage, events[0]) {
            Some(turn) => seq![turn.action] + run(config, turn.stage, events.drop_first()),
            None => Seq::empty(),
        }
    }
}

/// The actions of a request for `path`: the first one, then those that the
/// events bring about.
pub open spec fn conversation(config: ConfigView, path: Seq<char>, events: Seq<EventView>) -> Seq<
    ActionView,
> {
    seq![opening(config, path).action] + run(config, opening(config, path).stage, events)
}

/// A sequence of actions as a value of specifications.
pub open spec fn actions_view(actions: Seq<Action>) -> Seq<ActionView> {
    actions.map_values(|action: Action| action@)
}

/// A sequence of events as a value of specifications.
pub open spec fn events_view(events: Seq<Event>) -> Seq<EventView> {
    events.map_values(|event: Event| event@)
}

/// How many turns a stage can still be followed by.
pub open spec fn turns_left(stage: StageView) -> nat {
    match stage {
        StageView::Lookup(Awaiting::Status) => 6,
        StageView::Lookup(Awaiting::Body) => 5,
        StageView::ShortcutResolve(Awaiting::Status) => 4,
        StageView::ShortcutResolve(Awaiting::Body) => 3,
        StageView::Listing(Awaiting::Status) => 2,
        StageView::Download(Awaiting::Status, _) => 2,
        StageView::Listing(Awaiting::Body) => 1,
        StageView::Download(Awaiting::Body, _) => 1,
        StageView::Responded => 0,
    }
}

/// Runs a request for `path` against a script of events and returns the
/// actions taken, the first one included. Events behind the reply, or behind
/// one that was not awaited, are left unread.
pub fn replay(config: &Config, path: &str, events: Vec<Event>) -> (actions: Vec<Action>)
    ensures
        actions_view(actions@) == conversation(config@, path@, events_view(events@)),
{
    let first = fetch(config, path);
    let mut stage = first.stage;
    let mut actions: Vec<Action> = Vec::new();
    actions.push(first.action);
    let ghost script = events_view(events@);
    let ghost mut read: int = 0;
    assert(actions_view(actions@) =~= seq![opening(config@, path@).action]);
    assert(script.skip(0) =~= script);
    for event in it: events
        invariant
            it.seq() == events@,
            script == events_view(events@),
            read == it.index(),
            0 <= read <= script.len(),
            actions_view(actions@) + run(config@, stage@, script.skip(read)) == conversation(
                config@,
                path@,
                script,
            ),
    {
        let ghost rest = script.skip(read);
        let ghost before = actions_view(actions@);
        let ghost from = stage@;
        assert(rest[0] == event@);
        assert(rest.drop_first() =~= script.skip(read + 1));
        match step(config, stage, event) {
            Some(turn) => {
                stage = turn.stage;
                actions.push(turn.action);
                proof {
                    assert(actions_view(actions@) =~= before + seq![turn.action@]);
                    assert(before + run(config@, from, rest) =~= actions_view(actions@) + run(
                        config@,
                        stage@,
                        script.skip(read + 1),
                    ));
                    read = read + 1;
                }
            },
            None => {
                assert(before + run(config@, from, rest) =~= before);
                return actions;
            },
        }
    }
    assert(script.skip(read) =~= Seq::<EventView>::empty());
    assert(actions_view(actions@) + Seq::<ActionView>::empty() =~= actions_view(actions@));
    actions
}

/// Every turn brings a request closer to its reply: no stage is entered
/// twice.
pub proof fn lemma_turns_advance(config: ConfigView, stage: StageView, event: EventView)
    requires
        transition(config, stage, event) is Some,
    ensures
        turns_left(transition(config, stage, event)->0.stage) < turns_left(stage),
{
}

/// A request is over exactly when its reply is out: the action of a turn is
/// a reply if and only if the turn leads to the last stage.
pub proof fn lemma_reply_ends_request(config: ConfigView, stage: StageView, event: EventView)
    requires
        transition(config, stage, event) is Some,
    ensures
        transition(config, stage, event)->0.action is Respond <==> transition(
            config,
            stage,
            event,
        )->0.stage is Responded,
{
}

/// Once the reply is out no event is awaited.
pub proof fn lemma_nothing_follows_reply(config: ConfigView, event: EventView)
    ensures
        transition(config, StageView::Responded, event) is None,
{
}

/// A run is never longer than the turns that its stage has left, and only its
/// last action can be a reply: every request ends in at most one response.
pub proof fn lemma_run_is_linear(config: ConfigView, stage: StageView, events: Seq<EventView>)
    ensures
        run(config, stage, events).len() <= turns_left(stage),
        forall|i: int|
            0 <= i < run(config, stage, events).len() && #[trigger] run(
                config,
                stage,
                events,
            )[i] is Respond ==> i == run(config, stage, events).len() - 1,
    decreases events.len(),
{
    if events.len() > 0 {
        match transition(config, stage, events[0]) {
            Some(turn) => {
                let tail = run(config, turn.stage, events.drop_first());
                lemma_turns_advance(config, stage, events[0]);
                lemma_reply_ends_request(config, stage, events[0]);
                lemma_run_is_linear(config, turn.stage, events.drop_first());
                assert(run(config, stage, events) == seq![turn.action] + tail);
            },
            None => {},
        }
    }
}

/// Whether a stage awaits the status of a provider answer.
pub open spec fn awaits_status(stage: StageView) -> bool {
    match stage {
        StageView::Listing(awaiting) => awaiting is Status,
        StageView::Lookup(awaiting) => awaiting is Status,
        StageView::ShortcutResolve(awaiting) => awaiting is Status,
        StageView::Download(awaiting, _) => awaiting is Status,
        StageView::Responded => false,
    }
}

/// What the caller is told when the provider call of a stage fails.
pub open spec fn failure_message(stage: StageView) -> Seq<char> {
    match stage {
        StageView::Listing(_) => LIST_FAILED@,
        StageView::Lookup(_) => SEARCH_FAILED@,
        StageView::ShortcutResolve(_) => TARGET_FAILED@,
        StageView::Download(_, _) => DOWNLOAD_FAILED@,
        StageView::Responded => Seq::empty(),
    }
}

/// The addresses that a run asks the provider for, in order.
pub open spec fn lookups(actions: Seq<ActionView>) -> Seq<Seq<char>>
    decreases actions.len(),
{
    if actions.len() == 0 {
        Seq::empty()
    } else {
        match actions.last() {
            ActionView::Fetch { url } => lookups(actions.drop_last()).push(url),
            _ => lookups(actions.drop_last()),
        }
    }
}

/// Any status but a success, on any provider call, ends the request at once
/// with a server failure that names the call. The body of such an answer is
/// never read.
pub proof fn lemma_failed_call_ends_request(config: ConfigView, stage: StageView, status: u16)
    requires
        awaits_status(stage),
        !is_success(status),
    ensures
        transition(config, stage, EventView::Status(status)) == Some(
            respond(failure(UPSTREAM_FAILURE, failure_message(stage))),
        ),
{
}

/// The failures of the four provider calls are worded differently, and none
/// is worded like the reply for a name that the folder does not hold.
pub proof fn lemma_failure_messages_differ()
    ensures
        LIST_FAILED@ != SEARCH_FAILED@,
        LIST_FAILED@ != TARGET_FAILED@,
        LIST_FAILED@ != DOWNLOAD_FAILED@,
        SEARCH_FAILED@ != TARGET_FAILED@,
        SEARCH_FAILED@ != DOWNLOAD_FAILED@,
        TARGET_FAILED@ != DOWNLOAD_FAILED@,
        FILE_NOT_FOUND@ != LIST_FAILED@,
        FILE_NOT_FOUND@ != SEARCH_FAILED@,
        FILE_NOT_FOUND@ != TARGET_FAILED@,
        FILE_NOT_FOUND@ != DOWNLOAD_FAILED@,
{
    reveal_strlit("Failed to fetch files from Google Drive");
    reveal_strlit("Failed to search for file");
    reveal_strlit("Failed to fetch target file of shortcut");
    reveal_strlit("Failed to download file");
    reveal_strlit("File not found");
    assert(LIST_FAILED@.len() == 39 && LIST_FAILED@[16] == 'f');
    assert(SEARCH_FAILED@.len() == 25);
    assert(TARGET_FAILED@.len() == 39 && TARGET_FAILED@[16] == 't');
    assert(DOWNLOAD_FAILED@.len() == 23);
    assert(FILE_NOT_FOUND@.len() == 14);
}

/// A request for a name that the provider finds no entry for ends as not
/// found, after the search alone: it is no server failure.
pub proof fn lemma_no_match_is_not_found(config: ConfigView, path: Seq<char>, status: u16)
    requires
        routed(path) is Serve,
        is_success(status),
    ensures
        conversation(
            config,
            path,
            seq![EventView::Status(status), EventView::Listing(Seq::empty())],
        ) == seq![
            ActionView::Fetch {
                url: search_url(config.api_key, config.folder_id, routed(path)->name),
            },
            ActionView::ReadListing,
            ActionView::Respond { reply: failure(NOT_FOUND, FILE_NOT_FOUND@) },
        ],
        reply_status(failure(NOT_FOUND, FILE_NOT_FOUND@)) == 404,
{
    let events = seq![EventView::Status(status), EventView::Listing(Seq::empty())];
    let listed = StageView::Lookup(Awaiting::Body);
    assert(events.drop_first() =~= seq![EventView::Listing(Seq::empty())]);
    assert(events.drop_first().drop_first() =~= Seq::<EventView>::empty());
    assert(run(config, StageView::Responded, events.drop_first().drop_first()) == Seq::<
        ActionView,
    >::empty());
    assert(run(config, listed, events.drop_first()) =~= seq![
        ActionView::Respond { reply: failure(NOT_FOUND, FILE_NOT_FOUND@) },
    ]);
    assert(run(config, StageView::Lookup(Awaiting::Status), events) =~= seq![
        ActionView::ReadListing,
        ActionView::Respond { reply: failure(NOT_FOUND, FILE_NOT_FOUND@) },
    ]);
}

/// A run on a first event and the events behind it: the turn of the first
/// event, then the run of the rest from the stage that the turn leads to.
pub proof fn lemma_run_unfolds(
    config: ConfigView,
    stage: StageView,
    first: EventView,
    rest: Seq<EventView>,
)
    ensures
        run(config, stage, seq![first] + rest) == match transition(config, stage, first) {
            Some(turn) => seq![turn.action] + run(config, turn.stage, rest),
            None => Seq::empty(),
        },
{
    assert((seq![first] + rest).drop_first() =~= rest);
}

/// A request for a name whose first match is an alias asks the provider for
/// exactly two things after the search: the metadata of the alias's target,
/// then the content under the identifier that this metadata gives. The
/// identifier of the alias itself is asked for nowhere. Then the reply goes
/// out: the content, or the failure of the download.
pub proof fn lemma_shortcut_takes_two_lookups(
    config: ConfigView,
    path: Seq<char>,
    search_status: u16,
    found: Seq<FileRecordView>,
    target_status: u16,
    target: FileRecordView,
    content_status: u16,
    content: Seq<u8>,
)
    requires
        routed(path) is Serve,
        is_success(search_status),
        found.len() > 0,
        found[0].shortcut_target is Some,
        is_success(target_status),
    ensures
        ({
            let taken = conversation(
                config,
                path,
                seq![
                    EventView::Status(search_status),
                    EventView::Listing(found),
                    EventView::Status(target_status),
                    EventView::Record(target),
                    EventView::Status(content_status),
                    EventView::Content(content),
                ],
            );
            let search = search_url(config.api_key, config.folder_id, routed(path)->name);
            let resolve = metadata_url(config.api_key, found[0].shortcut_target->0);
            let download = content_url(config.api_key, target.id);
            &&& lookups(taken) == seq![search, resolve, download]
            &&& taken == if is_success(content_status) {
                seq![
                    ActionView::Fetch { url: search },
                    ActionView::ReadListing,
                    ActionView::Fetch { url: resolve },
                    ActionView::ReadRecord,
                    ActionView::Fetch { url: download },
                    ActionView::ReadContent,
                    ActionView::Respond { reply: file_reply(target, content) },
                ]
            } else {
                seq![
                    ActionView::Fetch { url: search },
                    ActionView::ReadListing,
                    ActionView::Fetch { url: resolve },
                    ActionView::ReadRecord,
                    ActionView::Fetch { url: download },
                    ActionView::Respond { reply: failure(UPSTREAM_FAILURE, DOWNLOAD_FAILED@) },
                ]
            }
        }),
{
    let e1 = EventView::Status(search_status);
    let e2 = EventView::Listing(found);
    let e3 = EventView::Status(target_status);
    let e4 = EventView::Record(target);
    let e5 = EventView::Status(content_status);
    let e6 = EventView::Content(content);
    let none = Seq::<EventView>::empty();
    let r6 = seq![e6] + none;
    let r5 = seq![e5] + r6;
    let r4 = seq![e4] + r5;
    let r3 = seq![e3] + r4;
    let r2 = seq![e2] + r3;
    let r1 = seq![e1] + r2;
    assert(r1 =~= seq![e1, e2, e3, e4, e5, e6]);
    let s1 = StageView::Lookup(Awaiting::Status);
    let s2 = StageView::Lookup(Awaiting::Body);
    let s3 = StageView::ShortcutResolve(Awaiting::Status);
    let s4 = StageView::ShortcutResolve(Awaiting::Body);
    let s5 = StageView::Download(Awaiting::Status, target);
    let s6 = StageView::Download(Awaiting::Body, target);
    lemma_run_unfolds(config, s1, e1, r2);
    lemma_run_unfolds(config, s2, e2, r3);
    lemma_run_unfolds(config, s3, e3, r4);
    lemma_run_unfolds(config, s4, e4, r5);
    lemma_run_unfolds(config, s5, e5, r6);
    lemma_run_unfolds(config, s6, e6, none);
    lemma_run_unfolds(config, StageView::Responded, e6, none);
    let taken = conversation(config, path, r1);
    let search = search_url(config.api_key, config.folder_id, routed(path)->name);
    let resolve = metadata_url(config.api_key, found[0].shortcut_target->0);
    let download = content_url(config.api_key, target.id);
    let a1 = ActionView::Fetch { url: search };
    let a3 = ActionView::Fetch { url: resolve };
    let a5 = ActionView::Fetch { url: download };
    let last = if is_success(content_status) {
        seq![ActionView::ReadContent, ActionView::Respond { reply: file_reply(target, content) }]
    } else {
        seq![ActionView::Respond { reply: failure(UPSTREAM_FAILURE, DOWNLOAD_FAILED@) }]
    };
    let upto = seq![a1, ActionView::ReadListing, a3, ActionView::ReadRecord, a5];
    assert(run(config, s5, r5) =~= last);
    assert(taken =~= upto + last);
    lemma_lookups_of_reads(last);
    lemma_lookups_concat(upto, last);
    assert(lookups(upto) =~= seq![search, resolve, download]) by {
        reveal_with_fuel(lookups, 6);
        assert(upto.drop_last() =~= seq![a1, ActionView::ReadListing, a3, ActionView::ReadRecord]);
        assert(upto.drop_last().drop_last() =~= seq![a1, ActionView::ReadListing, a3]);
        assert(upto.drop_last().drop_last().drop_last() =~= seq![a1, ActionView::ReadListing]);
        assert(upto.drop_last().drop_last().drop_last().drop_last() =~= seq![a1]);
        assert(seq![a1].drop_last() =~= Seq::<ActionView>::empty());
    }
}

/// Actions that ask the provider for nothing add no lookup.
pub proof fn lemma_lookups_of_reads(actions: Seq<ActionView>)
    requires
        forall|i: int| 0 <= i < actions.len() ==> !(#[trigger] actions[i] is Fetch),
    ensures
        lookups(actions) == Seq::<Seq<char>>::empty(),
    decreases actions.len(),
{
    if actions.len() > 0 {
        lemma_lookups_of_reads(actions.drop_last());
    }
}

/// The lookups of two runs put together are the lookups of the first, then
/// those of the second.
pub proof fn lemma_lookups_concat(front: Seq<ActionView>, back: Seq<ActionView>)
    ensures
        lookups(front + back) == lookups(front) + lookups(back),
    decreases back.len(),
{
    if back.len() == 0 {
        assert(front + back =~= front);
        assert(lookups(front) + lookups(back) =~= lookups(front));
    } else {
        assert((front + back).drop_last() =~= front + back.drop_last());
        lemma_lookups_concat(front, back.drop_last());
        match back.last() {
            ActionView::Fetch { url } => {
                assert((lookups(front) + lookups(back.drop_last())).push(url) =~= lookups(front)
                    + lookups(back.drop_last()).push(url));
            },
            _ => {},
        }
    }
}

} // verus!

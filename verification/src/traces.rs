//! What holds of whole runs of the pipeline, whatever events arrive.

use crate::config::ModeView;
use crate::error::{diagnostic, ErrorView};
use crate::output::{notification_body, notification_summary, output_line, EXIT_FAILURE};
use crate::pipeline::{
    deletes_after_upload,
    initial,
    is_relevant,
    transition,
    EffectView,
    EventView,
    StateView,
    WatchEventView,
};
use crate::upload::UploadRequestView;
use vstd::prelude::*;

verus! {

/// Whether `event` is of a kind that the pipeline waits for in `state`.
pub open spec fn expects(state: StateView, event: EventView) -> bool {
    match state {
        StateView::Idle => event is Detected || event is WatchFailed,
        StateView::Reading { .. } => event is Bytes || event is Failed,
        StateView::Uploading { .. } => event is Uploaded || event is Rejected,
        StateView::Copying { .. } | StateView::Notifying { .. } | StateView::Deleting => event is Done
            || event is Failed,
        StateView::Stopped => false,
    }
}

/// Whether `event` ends an upload, well or badly.
pub open spec fn ends_upload(event: EventView) -> bool {
    event is Uploaded || event is Rejected
}

/// The state reached from `start` once all of `events` have been taken, in
/// their order.
pub open spec fn state_after(mode: ModeView, start: StateView, events: Seq<EventView>) -> StateView
    decreases events.len(),
{
    if events.len() == 0 {
        start
    } else {
        transition(mode, state_after(mode, start, events.drop_last()), events.last()).0
    }
}

/// What the pipeline asks for in answer to the event at position `i` of a
/// run that begins in `start`.
pub open spec fn effect_at(
    mode: ModeView,
    start: StateView,
    events: Seq<EventView>,
    i: int,
) -> EffectView
    recommends
        0 <= i < events.len(),
{
    transition(mode, state_after(mode, start, events.take(i)), events[i]).1
}

/// Taking one more event is one more transition.
pub proof fn lemma_state_after_next(
    mode: ModeView,
    start: StateView,
    events: Seq<EventView>,
    i: int,
)
    requires
        0 <= i < events.len(),
    ensures
        state_after(mode, start, events.take(i + 1)) == transition(
            mode,
            state_after(mode, start, events.take(i)),
            events[i],
        ).0,
{
    assert(events.take(i + 1).drop_last() =~= events.take(i));
    assert(events.take(i + 1).last() == events[i]);
}

/// An event that the pipeline does not wait for changes nothing and asks
/// for nothing.
pub proof fn law_unexpected_event_is_ignored(mode: ModeView, state: StateView, event: EventView)
    requires
        !expects(state, event),
    ensures
        transition(mode, state, event) == (state, EffectView::Await),
{
}

/// While a directory is watched, the idle pipeline accepts every change of
/// the kind it is set to react to, and asks for that file to be read.
pub proof fn law_idle_accepts_relevant_change(mode: ModeView, change: WatchEventView)
    requires
        is_relevant(mode, change),
    ensures
        transition(mode, StateView::Idle, EventView::Detected(change)) == (
            StateView::Reading { path: Some(change.path), extension: change.extension },
            EffectView::ReadFile { path: change.path },
        ),
{
}

/// A change is accepted only by the idle pipeline: a read of a file is asked
/// for in no other state, so events are handled one at a time.
pub proof fn law_change_accepted_only_when_idle(
    mode: ModeView,
    state: StateView,
    event: EventView,
)
    requires
        transition(mode, state, event).1 is ReadFile,
    ensures
        state is Idle,
        event matches EventView::Detected(change) && is_relevant(mode, change)
            && transition(mode, state, event).1 == (EffectView::ReadFile { path: change.path }),
{
}

/// An upload is asked for only in answer to the bytes of the image being
/// read, and the pipeline then waits for that upload.
pub proof fn law_upload_answers_a_read(mode: ModeView, state: StateView, event: EventView)
    requires
        transition(mode, state, event).1 is Upload,
    ensures
        (state matches StateView::Reading { path, extension: Some(extension) }
            && event matches EventView::Bytes(bytes) && transition(mode, state, event) == (
            StateView::Uploading { path },
            EffectView::Upload(UploadRequestView { bytes, extension }),
        )),
{
}

/// An upload that has not ended keeps the pipeline waiting for it.
proof fn lemma_uploading_persists(
    mode: ModeView,
    start: StateView,
    events: Seq<EventView>,
    i: int,
    j: int,
)
    requires
        0 <= i <= j <= events.len(),
        state_after(mode, start, events.take(i)) is Uploading,
        forall|k: int| i <= k < j ==> !ends_upload(#[trigger] events[k]),
    ensures
        state_after(mode, start, events.take(j)) is Uploading,
    decreases j - i,
{
    if i < j {
        lemma_uploading_persists(mode, start, events, i, j - 1);
        lemma_state_after_next(mode, start, events, j - 1);
        assert(!ends_upload(events[j - 1]));
    }
}

/// Uploads never overlap: in every run, between two requests to upload lies
/// the end of the first upload.
pub proof fn law_uploads_never_overlap(
    mode: ModeView,
    start: StateView,
    events: Seq<EventView>,
    i: int,
    j: int,
)
    requires
        0 <= i < j < events.len(),
        effect_at(mode, start, events, i) is Upload,
        effect_at(mode, start, events, j) is Upload,
    ensures
        exists|k: int| i < k < j && ends_upload(#[trigger] events[k]),
{
    lemma_state_after_next(mode, start, events, i);
    assert(state_after(mode, start, events.take(i + 1)) is Uploading);
    if forall|k: int| i + 1 <= k < j ==> !ends_upload(#[trigger] events[k]) {
        lemma_uploading_persists(mode, start, events, i + 1, j);
        assert(false);
    }
}

/// What the pipeline asks for in answer to the last of `events`.
pub open spec fn last_effect(
    mode: ModeView,
    start: StateView,
    events: Seq<EventView>,
) -> EffectView
    recommends
        events.len() > 0,
{
    transition(mode, state_after(mode, start, events.drop_last()), events.last()).1
}

/// The files that the pipeline asks to read in the course of `events`, in
/// the order in which it asks.
pub open spec fn files_read(
    mode: ModeView,
    start: StateView,
    events: Seq<EventView>,
) -> Seq<Seq<char>>
    decreases events.len(),
{
    if events.len() == 0 {
        Seq::empty()
    } else {
        let before = files_read(mode, start, events.drop_last());
        match last_effect(mode, start, events) {
            EffectView::ReadFile { path } => before.push(path),
            _ => before,
        }
    }
}

/// The files whose changes reach the idle pipeline in the course of
/// `events` and are of the kind it reacts to, in the order of their arrival.
pub open spec fn changes_taken(
    mode: ModeView,
    start: StateView,
    events: Seq<EventView>,
) -> Seq<Seq<char>>
    decreases events.len(),
{
    if events.len() == 0 {
        Seq::empty()
    } else {
        let before = changes_taken(mode, start, events.drop_last());
        match events.last() {
            EventView::Detected(change) if is_relevant(mode, change) && state_after(
                mode,
                start,
                events.drop_last(),
            ) is Idle => before.push(change.path),
            _ => before,
        }
    }
}

/// Files are read in the order in which their changes arrive: in every run,
/// the files that the pipeline asks to read are the files whose changes
/// reached it while it was idle, one read for each, in the same order.
pub proof fn law_files_are_read_in_arrival_order(
    mode: ModeView,
    start: StateView,
    events: Seq<EventView>,
)
    ensures
        files_read(mode, start, events) == changes_taken(mode, start, events),
    decreases events.len(),
{
    if events.len() > 0 {
        law_files_are_read_in_arrival_order(mode, start, events.drop_last());
    }
}

/// How many files the pipeline asks to read in the course of `events`.
pub open spec fn reads_asked(mode: ModeView, start: StateView, events: Seq<EventView>) -> nat
    decreases events.len(),
{
    if events.len() == 0 {
        0
    } else if last_effect(mode, start, events) is ReadFile {
        reads_asked(mode, start, events.drop_last()) + 1
    } else {
        reads_asked(mode, start, events.drop_last())
    }
}

/// How many uploads the pipeline asks for in the course of `events`.
pub open spec fn uploads_asked(mode: ModeView, start: StateView, events: Seq<EventView>) -> nat
    decreases events.len(),
{
    if events.len() == 0 {
        0
    } else if last_effect(mode, start, events) is Upload {
        uploads_asked(mode, start, events.drop_last()) + 1
    } else {
        uploads_asked(mode, start, events.drop_last())
    }
}

/// No file is uploaded twice: in every run from the idle pipeline, at most
/// as many uploads are asked for as files were asked to be read, and fewer
/// while the bytes of a file are still awaited.
pub proof fn law_at_most_one_upload_per_change(mode: ModeView, events: Seq<EventView>)
    ensures
        uploads_asked(mode, StateView::Idle, events) <= reads_asked(
            mode,
            StateView::Idle,
            events,
        ),
        state_after(mode, StateView::Idle, events) is Reading ==> uploads_asked(
            mode,
            StateView::Idle,
            events,
        ) < reads_asked(mode, StateView::Idle, events),
    decreases events.len(),
{
    if events.len() > 0 {
        law_at_most_one_upload_per_change(mode, events.drop_last());
    }
}

/// Whether, after `n` events, the pipeline is still at work on an image from
/// the file `path` whose upload succeeded at position `i`.
pub open spec fn uploaded_at(
    mode: ModeView,
    start: StateView,
    events: Seq<EventView>,
    n: int,
    path: Option<Seq<char>>,
    i: int,
) -> bool {
    &&& 0 <= i < n
    &&& events[i] is Uploaded
    &&& state_after(mode, start, events.take(i)) == (StateView::Uploading { path })
    &&& forall|k: int| i < k <= n ==> (#[trigger] state_after(mode, start, events.take(k))).is_processing()
}

/// The file that the pipeline is handing to its sinks, if it is doing so.
pub open spec fn file_in_sinks(state: StateView) -> Option<Option<Seq<char>>> {
    match state {
        StateView::Copying { path, .. } => Some(path),
        StateView::Notifying { path } => Some(path),
        _ => None,
    }
}

/// The sinks run only for an image whose upload succeeded.
proof fn lemma_sinks_follow_upload(
    mode: ModeView,
    start: StateView,
    events: Seq<EventView>,
    n: int,
) -> (i: int)
    requires
        0 <= n <= events.len(),
        file_in_sinks(start) is None,
        file_in_sinks(state_after(mode, start, events.take(n))) is Some,
    ensures
        uploaded_at(
            mode,
            start,
            events,
            n,
            file_in_sinks(state_after(mode, start, events.take(n)))->0,
            i,
        ),
    decreases n,
{
    if n == 0 {
        assert(events.take(0) =~= Seq::<EventView>::empty());
        0
    } else {
        lemma_state_after_next(mode, start, events, n - 1);
        let before = state_after(mode, start, events.take(n - 1));
        let path = file_in_sinks(state_after(mode, start, events.take(n)))->0;
        if before is Uploading {
            assert(events[n - 1] is Uploaded);
            assert(before == (StateView::Uploading { path }));
            assert forall|k: int| n - 1 < k <= n implies (#[trigger] state_after(
                mode,
                start,
                events.take(k),
            )).is_processing() by {
                assert(k == n);
            }
            n - 1
        } else {
            assert(file_in_sinks(before) == Some(path));
            let i = lemma_sinks_follow_upload(mode, start, events, n - 1);
            assert forall|k: int| i < k <= n implies (#[trigger] state_after(
                mode,
                start,
                events.take(k),
            )).is_processing() by {
                if k == n {
                } else {
                    assert(i < k <= n - 1);
                }
            }
            i
        }
    }
}

/// A file is removed only after its image was uploaded: in every run from
/// the idle pipeline, a request to remove a file comes while files are to be
/// removed, for the file of an image whose upload succeeded earlier in the
/// run, with nothing having failed since.
pub proof fn law_removal_follows_upload(
    mode: ModeView,
    events: Seq<EventView>,
    j: int,
) -> (i: int)
    requires
        0 <= j < events.len(),
        effect_at(mode, StateView::Idle, events, j) is DeleteFile,
    ensures
        deletes_after_upload(mode),
        uploaded_at(
            mode,
            StateView::Idle,
            events,
            j,
            Some(effect_at(mode, StateView::Idle, events, j)->DeleteFile_path),
            i,
        ),
{
    lemma_sinks_follow_upload(mode, StateView::Idle, events, j)
}

/// A failed upload leaves the file alone: the watching pipeline reports the
/// error and is idle again, with no sink run.
pub proof fn law_failed_upload_keeps_file(
    mode: ModeView,
    path: Option<Seq<char>>,
    error: ErrorView,
)
    requires
        mode is Watch,
    ensures
        transition(mode, StateView::Uploading { path }, EventView::Rejected(error)) == (
            StateView::Idle,
            EffectView::Report(error),
        ),
{
}

/// One change, one upload, then the sinks in their order: a change that the
/// watching pipeline reacts to, followed by the bytes of the file, the
/// address of the upload and the success of each sink, leads through
/// exactly one read, one upload, the clipboard, the notification and, where
/// files are to be removed, the removal of that file, back to idle.
pub proof fn law_change_runs_through(
    mode: ModeView,
    change: WatchEventView,
    extension: Seq<char>,
    bytes: Seq<u8>,
    url: Seq<char>,
)
    requires
        is_relevant(mode, change),
        change.extension == Some(extension),
    ensures
        ({
            let read = transition(mode, StateView::Idle, EventView::Detected(change));
            let upload = transition(mode, read.0, EventView::Bytes(bytes));
            let copy = transition(mode, upload.0, EventView::Uploaded(url));
            let notify = transition(mode, copy.0, EventView::Done);
            let remove = transition(mode, notify.0, EventView::Done);
            &&& read.1 == (EffectView::ReadFile { path: change.path })
            &&& upload.1 == EffectView::Upload(UploadRequestView { bytes, extension })
            &&& copy.1 == (EffectView::CopyToClipboard { text: url })
            &&& notify.1 == (EffectView::Notify {
                summary: notification_summary(),
                body: notification_body(url),
            })
            &&& deletes_after_upload(mode) ==> remove.1 == (EffectView::DeleteFile {
                path: change.path,
            }) && transition(mode, remove.0, EventView::Done) == (
                StateView::Idle,
                EffectView::Await,
            )
            &&& !deletes_after_upload(mode) ==> remove == (StateView::Idle, EffectView::Await)
        }),
{
}

/// A one-shot run that goes well reads standard input, uploads what it read
/// under the mode's extension, and ends by printing the line that carries
/// the address.
pub proof fn law_one_shot_succeeds(mode: ModeView, bytes: Seq<u8>, url: Seq<char>)
    requires
        mode is OneShot,
    ensures
        ({
            let read = initial(mode);
            let upload = transition(mode, read.0, EventView::Bytes(bytes));
            let end = transition(mode, upload.0, EventView::Uploaded(url));
            &&& read.1 == EffectView::ReadInput
            &&& upload.1 == EffectView::Upload(
                UploadRequestView { bytes, extension: mode->OneShot_extension },
            )
            &&& end == (StateView::Stopped, EffectView::Succeed { line: output_line(url) })
        }),
{
}

/// A one-shot run whose read or upload fails ends with a diagnostic and the
/// failure's exit code, and prints no address.
pub proof fn law_one_shot_fails(mode: ModeView, bytes: Seq<u8>, cause: Seq<char>, error: ErrorView)
    requires
        mode is OneShot,
    ensures
        ({
            let read = initial(mode);
            let upload = transition(mode, read.0, EventView::Bytes(bytes));
            &&& transition(mode, read.0, EventView::Failed(cause)) == (
                StateView::Stopped,
                EffectView::Fail {
                    diagnostic: diagnostic(ErrorView::ReadError(cause)),
                    code: EXIT_FAILURE,
                },
            )
            &&& transition(mode, upload.0, EventView::Rejected(error)) == (
                StateView::Stopped,
                EffectView::Fail { diagnostic: diagnostic(error), code: EXIT_FAILURE },
            )
        }),
{
}

} // verus!

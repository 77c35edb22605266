use vstd::prelude::*;
use crate::dispatcher::{
    advanced, answers, artifact_path, begun, notice_of, EventView, Failure, MessageView,
    OutcomeView, RunView, SendError,
};
use crate::fetcher::FetchError;

verus! {

/// The state that the run for a message is in after a sequence of events.
pub open spec fn run_of(message: MessageView, events: Seq<EventView>) -> RunView
    decreases events.len(),
{
    if events.len() == 0 {
        begun(message)
    } else {
        advanced(run_of(message, events.drop_last()), events.last())
    }
}

/// How far a run has come: the number of answers it has taken, counting a
/// run that is over as one that has taken all three.
pub open spec fn steps_taken(run: RunView) -> nat {
    match run {
        RunView::AwaitingMetadata { .. } => 0,
        RunView::AwaitingDownload { .. } => 1,
        RunView::AwaitingUpload { .. } => 2,
        RunView::Concluded { .. } => 3,
    }
}

/// The steps of a run follow one another. The answer that a run awaits takes
/// it further, every other event leaves it where it is, and a run that is
/// over stays as it is. A download is awaited only after the renditions came,
/// an upload only after the download came, and nothing is awaited twice.
pub proof fn lemma_steps_in_order(run: RunView, event: EventView)
    ensures
        answers(run, event) ==> steps_taken(advanced(run, event)) > steps_taken(run),
        !answers(run, event) ==> advanced(run, event) == run,
        run is Concluded ==> advanced(run, event) == run,
        advanced(run, event) is AwaitingMetadata ==> advanced(run, event) == run,
        advanced(run, event) is AwaitingDownload && advanced(run, event) != run ==> {
            &&& run is AwaitingMetadata
            &&& event matches EventView::Metadata(answer)
            &&& answer is Ok
        },
        advanced(run, event) is AwaitingUpload && advanced(run, event) != run ==> {
            &&& run is AwaitingDownload
            &&& event matches EventView::Downloaded(answer)
            &&& answer is Ok
        },
{
}

/// The number of events of a run that were the answer it awaited.
pub open spec fn answers_taken(message: MessageView, events: Seq<EventView>) -> nat
    decreases events.len(),
{
    if events.len() == 0 {
        0
    } else {
        let taken: nat = if answers(run_of(message, events.drop_last()), events.last()) {
            1
        } else {
            0
        };
        answers_taken(message, events.drop_last()) + taken
    }
}

/// A run takes three answers at most, and one that has taken three is over:
/// no run goes on for ever, whatever the services answer.
pub proof fn lemma_run_is_bounded(message: MessageView, events: Seq<EventView>)
    ensures
        answers_taken(message, events) <= steps_taken(run_of(message, events)) <= 3,
        answers_taken(message, events) == 3 ==> run_of(message, events) is Concluded,
    decreases events.len(),
{
    if events.len() > 0 {
        lemma_run_is_bounded(message, events.drop_last());
        lemma_steps_in_order(run_of(message, events.drop_last()), events.last());
    }
}

/// The `at`-th event of a run hands it the file at `path`: the run awaited a
/// download then, and the event is the finished download of that file.
pub open spec fn delivers(
    message: MessageView,
    events: Seq<EventView>,
    at: int,
    path: Seq<char>,
) -> bool {
    &&& 0 <= at < events.len()
    &&& run_of(message, events.take(at)) is AwaitingDownload
    &&& events[at] == EventView::Downloaded(Ok::<Seq<char>, FetchError>(path))
}

/// A run begins without a file, and a failed download leaves it without one:
/// the run is then over with the failure of the download and has nothing to
/// upload and nothing to remove.
pub proof fn lemma_failed_fetch_leaves_nothing(run: RunView, reason: FetchError)
    requires
        run is AwaitingDownload,
    ensures
        artifact_path(run) is None,
        advanced(run, EventView::Downloaded(Err(reason))) matches RunView::Concluded {
            outcome,
            discard,
            ..
        } && outcome == OutcomeView::Failed(Failure::Fetch(reason))
            && discard is None,
{
}

/// Whatever file a run holds, it was handed to this run by its own download:
/// no run ever uploads or removes a file of another run.
pub proof fn lemma_artifact_is_own(message: MessageView, events: Seq<EventView>)
    ensures
        events.len() == 0 ==> artifact_path(run_of(message, events)) is None,
        artifact_path(run_of(message, events)) matches Some(path) ==> exists|at: int|
            delivers(message, events, at, path),
    decreases events.len(),
{
    if events.len() > 0 {
        let before = events.drop_last();
        let last = events.len() - 1;
        lemma_artifact_is_own(message, before);
        let earlier = run_of(message, before);
        let now = run_of(message, events);
        if artifact_path(now) is Some {
            let path = artifact_path(now)->0;
            if artifact_path(earlier) == Some(path) {
                let at = choose|at: int| delivers(message, before, at, path);
                assert(before.take(at) =~= events.take(at));
                assert(delivers(message, events, at, path));
            } else {
                assert(events.take(last) =~= before);
                assert(delivers(message, events, last, path));
            }
        }
    }
}

/// A run that had a file to upload leaves that file to be removed when it is
/// over, whether the upload came through or not.
pub proof fn lemma_artifact_is_discarded(run: RunView, answer: Result<(), SendError>)
    requires
        run is AwaitingUpload,
    ensures
        advanced(run, EventView::Uploaded(answer)) matches RunView::Concluded { discard, .. }
            && discard == artifact_path(run) && discard is Some,
{
}

/// The event says that the chat has taken a video.
pub open spec fn is_upload_done(event: EventView) -> bool {
    match event {
        EventView::Uploaded(Ok(_)) => true,
        _ => false,
    }
}

/// The number of videos that the chat has taken in a run: the uploads that
/// the run awaited and that came through.
pub open spec fn videos_taken(message: MessageView, events: Seq<EventView>) -> nat
    decreases events.len(),
{
    if events.len() == 0 {
        0
    } else {
        let earlier = run_of(message, events.drop_last());
        let taken: nat = if earlier is AwaitingUpload && is_upload_done(events.last()) {
            1
        } else {
            0
        };
        videos_taken(message, events.drop_last()) + taken
    }
}

/// The number of replies that the chat gets from a run that is over: the
/// videos it has taken and the notice, where one is due.
pub open spec fn replies(message: MessageView, events: Seq<EventView>) -> nat {
    let notice: nat = match run_of(message, events) {
        RunView::Concluded { outcome, .. } => if notice_of(outcome) is Some {
            1
        } else {
            0
        },
        _ => 0,
    };
    videos_taken(message, events) + notice
}

/// The chat has taken a video in a run exactly when the run is over with
/// `Sent`, and then it has taken one.
pub proof fn lemma_videos_taken(message: MessageView, events: Seq<EventView>)
    ensures
        videos_taken(message, events) == if run_of(message, events) matches RunView::Concluded {
            outcome,
            ..
        } && outcome is Sent {
            1nat
        } else {
            0nat
        },
    decreases events.len(),
{
    if events.len() > 0 {
        lemma_videos_taken(message, events.drop_last());
    }
}

/// A run that is over has given the chat one reply where the message held a
/// link, the video or the notice of a failure, and none where it held no
/// link.
pub proof fn lemma_one_reply(message: MessageView, events: Seq<EventView>)
    requires
        run_of(message, events) is Concluded,
    ensures
        run_of(message, events) matches RunView::Concluded { outcome, .. } && replies(
            message,
            events,
        ) == if outcome is NotAMatch {
            0nat
        } else {
            1nat
        },
{
    lemma_videos_taken(message, events);
}

/// What one call of the handler is given: a message, and the answers of the
/// services to this run's requests.
pub struct Invocation {
    pub message: MessageView,
    pub events: Seq<EventView>,
}

/// The states that a number of runs end in, each run on its own message and
/// its own answers.
pub open spec fn runs_of(batch: Seq<Invocation>) -> Seq<RunView> {
    Seq::new(batch.len(), |i: int| run_of(batch[i].message, batch[i].events))
}

/// Runs do not touch one another: whatever is put in the place of one run of
/// a batch, a failure or anything else, every other run ends as it did.
pub proof fn lemma_runs_are_independent(
    batch: Seq<Invocation>,
    changed: int,
    other: Invocation,
    observed: int,
)
    requires
        0 <= changed < batch.len(),
        0 <= observed < batch.len(),
        changed != observed,
    ensures
        runs_of(batch.update(changed, other))[observed] == runs_of(batch)[observed],
{
}

} // verus!

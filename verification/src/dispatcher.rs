use vstd::prelude::*;
use crate::fetcher::{download_view, fetch, fetched, ArtifactView, DownloadedArtifact, FetchError};
use crate::recognizer::{recognize, recognized, MediaReference};
use crate::rendition::{RenditionSet, RenditionSetView};
use crate::resolver::{
    metadata_view, resolve, resolved, MetaError, ResolveError, SelectedRendition, Selection,
};

verus! {

/// Why the chat service did not take a message or a video.
#[derive(Clone, Copy, Debug, PartialEq, Eq)]
pub enum SendError {
    Network,
    Rejected,
}

/// The steps of a run that can fail.
#[derive(Clone, Copy, Debug, PartialEq, Eq)]
pub enum Stage {
    Resolve,
    Fetch,
    Upload,
}

/// A failed step of a run, with its reason.
#[derive(Clone, Copy, Debug, PartialEq, Eq)]
pub enum Failure {
    Resolve(ResolveError),
    Fetch(FetchError),
    Upload(SendError),
}

impl Failure {
    /// The step that failed.
    pub open spec fn stage_of(self) -> Stage {
        match self {
            Failure::Resolve(_) => Stage::Resolve,
            Failure::Fetch(_) => Stage::Fetch,
            Failure::Upload(_) => Stage::Upload,
        }
    }

    /// The step that failed.
    pub fn stage(&self) -> (r: Stage)
        ensures
            r == self.stage_of(),
    {
        match self {
            Failure::Resolve(_) => Stage::Resolve,
            Failure::Fetch(_) => Stage::Fetch,
            Failure::Upload(_) => Stage::Upload,
        }
    }
}

/// What the chat is told of a failure.
pub open spec fn notice_text(failure: Failure) -> Seq<char> {
    match failure {
        Failure::Resolve(ResolveError::MetadataUnavailable) => "Could not read the details of this video."@,
        Failure::Resolve(ResolveError::NoSuitableStream) => "This video has no stream with both picture and sound."@,
        Failure::Fetch(FetchError::Network) => "The download broke off."@,
        Failure::Fetch(FetchError::Disk) => "The download could not be stored."@,
        Failure::Fetch(FetchError::CipherResolution) => "The signature of the stream could not be worked out."@,
        Failure::Upload(SendError::Network) => "The video could not be sent."@,
        Failure::Upload(SendError::Rejected) => "The chat did not take the video."@,
    }
}

/// What the chat is told of a failure.
pub fn failure_notice(failure: Failure) -> (text: &'static str)
    ensures
        text@ == notice_text(failure),
{
    match failure {
        Failure::Resolve(ResolveError::MetadataUnavailable) => "Could not read the details of this video.",
        Failure::Resolve(ResolveError::NoSuitableStream) => "This video has no stream with both picture and sound.",
        Failure::Fetch(FetchError::Network) => "The download broke off.",
        Failure::Fetch(FetchError::Disk) => "The download could not be stored.",
        Failure::Fetch(FetchError::CipherResolution) => "The signature of the stream could not be worked out.",
        Failure::Upload(SendError::Network) => "The video could not be sent.",
        Failure::Upload(SendError::Rejected) => "The chat did not take the video.",
    }
}

/// How a run ended, as a mathematical value.
pub enum OutcomeView {
    NotAMatch,
    Sent(Seq<char>),
    Failed(Failure),
}

/// How the run for one message ended: the message held no link, the video
/// with the given identifier was sent, or a step failed.
#[derive(Debug, PartialEq, Eq)]
pub enum RelayOutcome {
    NotAMatch,
    Sent(String),
    Failed(Failure),
}

impl View for RelayOutcome {
    type V = OutcomeView;

    open spec fn view(&self) -> OutcomeView {
        match *self {
            RelayOutcome::NotAMatch => OutcomeView::NotAMatch,
            RelayOutcome::Sent(media_id) => OutcomeView::Sent(media_id@),
            RelayOutcome::Failed(failure) => OutcomeView::Failed(failure),
        }
    }
}

impl Clone for RelayOutcome {
    fn clone(&self) -> (r: RelayOutcome)
        ensures
            r@ == self@,
    {
        match self {
            RelayOutcome::NotAMatch => RelayOutcome::NotAMatch,
            RelayOutcome::Sent(media_id) => RelayOutcome::Sent(media_id.clone()),
            RelayOutcome::Failed(failure) => RelayOutcome::Failed(*failure),
        }
    }
}

/// A message as a mathematical value.
pub struct MessageView {
    pub chat_id: i64,
    pub text: Option<Seq<char>>,
}

/// What the listener hands over for one message: the chat it came from and
/// its text, where it has one.
#[derive(Debug, PartialEq, Eq)]
pub struct InboundMessage {
    pub chat_id: i64,
    pub text: Option<String>,
}

impl View for InboundMessage {
    type V = MessageView;

    open spec fn view(&self) -> MessageView {
        MessageView {
            chat_id: self.chat_id,
            text: match self.text {
                Some(t) => Some(t@),
                None => None,
            },
        }
    }
}

/// An answer as a mathematical value.
pub enum EventView {
    Metadata(Result<RenditionSetView, MetaError>),
    Downloaded(Result<Seq<char>, FetchError>),
    Uploaded(Result<(), SendError>),
}

/// What comes back from the services: the answer to one request.
#[derive(Debug, PartialEq, Eq)]
pub enum Event {
    /// The metadata service's answer: the renditions of the video.
    Metadata(Result<RenditionSet, MetaError>),
    /// The download service's answer: the path of the finished file.
    Downloaded(Result<String, FetchError>),
    /// The chat service's answer to the upload of a video.
    Uploaded(Result<(), SendError>),
}

impl View for Event {
    type V = EventView;

    open spec fn view(&self) -> EventView {
        match *self {
            Event::Metadata(answer) => EventView::Metadata(metadata_view(answer)),
            Event::Downloaded(answer) => EventView::Downloaded(download_view(answer)),
            Event::Uploaded(answer) => EventView::Uploaded(answer),
        }
    }
}

/// A request as a mathematical value.
pub enum ActionView {
    FetchVideoInfo { url: Seq<char> },
    DownloadRendition { index: int, directory: Seq<char> },
    SendVideo { chat_id: i64, path: Seq<char> },
    Conclude { chat_id: i64, outcome: OutcomeView, notice: Option<Seq<char>>, discard: Option<Seq<char>> },
}

/// What a run asks of its driver.
#[derive(Debug, PartialEq, Eq)]
pub enum Action {
    /// Ask the metadata service for the renditions of the video at `url`, and
    /// answer with `Event::Metadata`.
    FetchVideoInfo { url: String },
    /// Download the rendition at place `index` of the set that the metadata
    /// service gave into `directory`, and answer with `Event::Downloaded`.
    DownloadRendition { index: usize, directory: String },
    /// Upload the file at `path` to the chat as a video, and answer with
    /// `Event::Uploaded`.
    SendVideo { chat_id: i64, path: String },
    /// The run is over. Record `outcome`; where `notice` is given, send it to
    /// the chat; where `discard` is given, remove the file at that path.
    /// Nothing is to be answered.
    Conclude { chat_id: i64, outcome: RelayOutcome, notice: Option<String>, discard: Option<String> },
}

impl View for Action {
    type V = ActionView;

    open spec fn view(&self) -> ActionView {
        match *self {
            Action::FetchVideoInfo { url } => ActionView::FetchVideoInfo { url: url@ },
            Action::DownloadRendition { index, directory } => ActionView::DownloadRendition {
                index: index as int,
                directory: directory@,
            },
            Action::SendVideo { chat_id, path } => ActionView::SendVideo { chat_id, path: path@ },
            Action::Conclude { chat_id, outcome, notice, discard } => ActionView::Conclude {
                chat_id,
                outcome: outcome@,
                notice: match notice {
                    Some(text) => Some(text@),
                    None => None,
                },
                discard: match discard {
                    Some(path) => Some(path@),
                    None => None,
                },
            },
        }
    }
}

/// The state of a run as a mathematical value.
pub enum RunView {
    /// The message held a link; the renditions of its video are awaited.
    AwaitingMetadata { chat_id: i64, reference: Seq<char> },
    /// A rendition was chosen; its download is awaited.
    AwaitingDownload { chat_id: i64, selected: Selection },
    /// The file is there; its upload is awaited.
    AwaitingUpload { chat_id: i64, artifact: ArtifactView },
    /// The run is over. `discard` is the file that it leaves behind.
    Concluded { chat_id: i64, outcome: OutcomeView, discard: Option<Seq<char>> },
}

/// The state in which the run for a message begins: it awaits the renditions
/// where the message's text is recognized as a link, and is over at once
/// where it is not.
pub open spec fn begun(message: MessageView) -> RunView {
    match message.text {
        Some(text) => match recognized(text) {
            Some(url) => RunView::AwaitingMetadata { chat_id: message.chat_id, reference: url },
            None => RunView::Concluded {
                chat_id: message.chat_id,
                outcome: OutcomeView::NotAMatch,
                discard: None,
            },
        },
        None => RunView::Concluded {
            chat_id: message.chat_id,
            outcome: OutcomeView::NotAMatch,
            discard: None,
        },
    }
}

/// The event is the answer that the run awaits.
pub open spec fn answers(run: RunView, event: EventView) -> bool {
    match (run, event) {
        (RunView::AwaitingMetadata { .. }, EventView::Metadata(_)) => true,
        (RunView::AwaitingDownload { .. }, EventView::Downloaded(_)) => true,
        (RunView::AwaitingUpload { .. }, EventView::Uploaded(_)) => true,
        _ => false,
    }
}

/// The state that follows a state and an event. The answer that the run
/// awaits moves it on by one step or ends it with the failure of that step;
/// any other event leaves it as it is.
pub open spec fn advanced(run: RunView, event: EventView) -> RunView {
    match (run, event) {
        (RunView::AwaitingMetadata { chat_id, .. }, EventView::Metadata(answer)) => {
            match resolved(answer) {
                Ok(selected) => RunView::AwaitingDownload { chat_id, selected },
                Err(e) => RunView::Concluded {
                    chat_id,
                    outcome: OutcomeView::Failed(Failure::Resolve(e)),
                    discard: None,
                },
            }
        },
        (RunView::AwaitingDownload { chat_id, selected }, EventView::Downloaded(answer)) => {
            match fetched(selected, answer) {
                Ok(artifact) => RunView::AwaitingUpload { chat_id, artifact },
                Err(e) => RunView::Concluded {
                    chat_id,
                    outcome: OutcomeView::Failed(Failure::Fetch(e)),
                    discard: None,
                },
            }
        },
        (RunView::AwaitingUpload { chat_id, artifact }, EventView::Uploaded(answer)) => {
            RunView::Concluded {
                chat_id,
                outcome: match answer {
                    Ok(_) => OutcomeView::Sent(artifact.media_id),
                    Err(e) => OutcomeView::Failed(Failure::Upload(e)),
                },
                discard: Some(artifact.path),
            }
        },
        _ => run,
    }
}

/// What the chat is told when a run is over: of its failure where it failed,
/// and nothing where the video was sent or the message held no link.
pub open spec fn notice_of(outcome: OutcomeView) -> Option<Seq<char>> {
    match outcome {
        OutcomeView::Failed(failure) => Some(notice_text(failure)),
        _ => None,
    }
}

/// The file that a run holds: the one it is about to upload, or the one it
/// leaves behind when it is over.
pub open spec fn artifact_path(run: RunView) -> Option<Seq<char>> {
    match run {
        RunView::AwaitingUpload { artifact, .. } => Some(artifact.path),
        RunView::Concluded { discard, .. } => discard,
        _ => None,
    }
}

/// What a run in a given state asks of its driver, for a dispatcher that
/// downloads into `scratch_dir`.
pub open spec fn pending_action(scratch_dir: Seq<char>, run: RunView) -> ActionView {
    match run {
        RunView::AwaitingMetadata { reference, .. } => ActionView::FetchVideoInfo {
            url: reference,
        },
        RunView::AwaitingDownload { selected, .. } => ActionView::DownloadRendition {
            index: selected.place,
            directory: scratch_dir,
        },
        RunView::AwaitingUpload { chat_id, artifact } => ActionView::SendVideo {
            chat_id,
            path: artifact.path,
        },
        RunView::Concluded { chat_id, outcome, discard } => ActionView::Conclude {
            chat_id,
            outcome,
            notice: notice_of(outcome),
            discard,
        },
    }
}

/// How a run ended, where it is over.
pub open spec fn outcome_of(run: RunView) -> Option<OutcomeView> {
    match run {
        RunView::Concluded { outcome, .. } => Some(outcome),
        _ => None,
    }
}

enum Phase {
    AwaitingMetadata { chat_id: i64, reference: MediaReference },
    AwaitingDownload { chat_id: i64, selected: SelectedRendition },
    AwaitingUpload { chat_id: i64, artifact: DownloadedArtifact },
    Concluded { chat_id: i64, outcome: RelayOutcome, discard: Option<String> },
}

/// The run for one message: what it has reached and what it awaits. A run
/// is begun by a dispatcher and moved on by the answers to its requests, and
/// holds nothing of any other run.
pub struct Run {
    phase: Phase,
}

impl View for Run {
    type V = RunView;

    closed spec fn view(&self) -> RunView {
        match self.phase {
            Phase::AwaitingMetadata { chat_id, reference } => RunView::AwaitingMetadata {
                chat_id,
                reference: reference@,
            },
            Phase::AwaitingDownload { chat_id, selected } => RunView::AwaitingDownload {
                chat_id,
                selected: selected@,
            },
            Phase::AwaitingUpload { chat_id, artifact } => RunView::AwaitingUpload {
                chat_id,
                artifact: artifact@,
            },
            Phase::Concluded { chat_id, outcome, discard } => RunView::Concluded {
                chat_id,
                outcome: outcome@,
                discard: match discard {
                    Some(path) => Some(path@),
                    None => None,
                },
            },
        }
    }
}

impl Run {
    /// Whether the run is over.
    pub fn is_concluded(&self) -> (r: bool)
        ensures
            r == (self@ is Concluded),
    {
        match &self.phase {
            Phase::Concluded { .. } => true,
            _ => false,
        }
    }

    /// How the run ended, where it is over.
    pub fn outcome(&self) -> (r: Option<RelayOutcome>)
        ensures
            match r {
                Some(outcome) => outcome_of(self@) == Some(outcome@),
                None => outcome_of(self@) is None,
            },
    {
        match &self.phase {
            Phase::Concluded { outcome, .. } => Some(outcome.clone()),
            _ => None,
        }
    }
}

/// Runs the relay for single messages. It holds where downloads go and
/// nothing that a run could change.
#[derive(Debug, PartialEq, Eq)]
pub struct Dispatcher {
    scratch_dir: String,
}

impl View for Dispatcher {
    type V = Seq<char>;

    closed spec fn view(&self) -> Seq<char> {
        self.scratch_dir@
    }
}

impl Dispatcher {
    /// A dispatcher whose runs download into `scratch_dir`.
    pub fn new(scratch_dir: String) -> (dispatcher: Dispatcher)
        ensures
            dispatcher@ == scratch_dir@,
    {
        Dispatcher { scratch_dir }
    }

    /// The directory that downloads go to.
    pub fn scratch_dir(&self) -> (r: &str)
        ensures
            r@ == self@,
    {
        self.scratch_dir.as_str()
    }

    /// Begins the run for a message.
    ///
    /// Where the message's text is recognized as a link to a video, the run
    /// awaits the renditions of that video. Where it is not, or the message has
    /// no text, the run is over with `NotAMatch`.
    pub fn begin(&self, message: InboundMessage) -> (run: Run)
        ensures
            run@ == begun(message@),
    {
        let chat_id = message.chat_id;
        let reference = match &message.text {
            Some(text) => recognize(Some(text.as_str())),
            None => recognize(None),
        };
        match reference {
            Some(reference) => Run { phase: Phase::AwaitingMetadata { chat_id, reference } },
            None => Run {
                phase: Phase::Concluded { chat_id, outcome: RelayOutcome::NotAMatch, discard: None },
            },
        }
    }

    /// Moves a run on by one event.
    ///
    /// The answer that the run awaits moves it to its next step, or ends it
    /// with the failure of the step that the answer belongs to. An event that
    /// the run does not await, and any event after the run is over, leaves the
    /// run as it is.
    pub fn advance(&self, run: Run, event: Event) -> (next: Run)
        ensures
            next@ == advanced(run@, event@),
    {
        match (run.phase, event) {
            (Phase::AwaitingMetadata { chat_id, .. }, Event::Metadata(answer)) => {
                match resolve(answer) {
                    Ok(selected) => Run { phase: Phase::AwaitingDownload { chat_id, selected } },
                    Err(e) => Run {
                        phase: Phase::Concluded {
                            chat_id,
                            outcome: RelayOutcome::Failed(Failure::Resolve(e)),
                            discard: None,
                        },
                    },
                }
            },
            (Phase::AwaitingDownload { chat_id, selected }, Event::Downloaded(answer)) => {
                match fetch(selected, answer) {
                    Ok(artifact) => Run { phase: Phase::AwaitingUpload { chat_id, artifact } },
                    Err(e) => Run {
                        phase: Phase::Concluded {
                            chat_id,
                            outcome: RelayOutcome::Failed(Failure::Fetch(e)),
                            discard: None,
                        },
                    },
                }
            },
            (Phase::AwaitingUpload { chat_id, artifact }, Event::Uploaded(answer)) => {
                let (path, media_id) = artifact.into_parts();
                let outcome = match answer {
                    Ok(_) => RelayOutcome::Sent(media_id),
                    Err(e) => RelayOutcome::Failed(Failure::Upload(e)),
                };
                Run { phase: Phase::Concluded { chat_id, outcome, discard: Some(path) } }
            },
            (phase, _) => Run { phase },
        }
    }

    /// What the run asks of its driver now.
    pub fn pending(&self, run: &Run) -> (action: Action)
        ensures
            action@ == pending_action(self@, run@),
    {
        match &run.phase {
            Phase::AwaitingMetadata { reference, .. } => Action::FetchVideoInfo {
                url: reference.as_str().to_owned(),
            },
            Phase::AwaitingDownload { selected, .. } => Action::DownloadRendition {
                index: selected.index(),
                directory: self.scratch_dir.clone(),
            },
            Phase::AwaitingUpload { chat_id, artifact } => Action::SendVideo {
                chat_id: *chat_id,
                path: artifact.path().to_owned(),
            },
            Phase::Concluded { chat_id, outcome, discard } => {
                let notice = match outcome {
                    RelayOutcome::Failed(failure) => Some(failure_notice(*failure).to_owned()),
                    _ => None,
                };
                let discard = match discard {
                    Some(path) => Some(path.clone()),
                    None => None,
                };
                Action::Conclude { chat_id: *chat_id, outcome: outcome.clone(), notice, discard }
            },
        }
    }
}

} // verus!

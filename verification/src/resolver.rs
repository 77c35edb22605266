use vstd::prelude::*;
use crate::rendition::{Rendition, RenditionSet, RenditionSetView};

verus! {

/// Why the metadata service could not describe a video.
#[derive(Clone, Copy, Debug, PartialEq, Eq)]
pub enum MetaError {
    Network,
    NotFound,
    Malformed,
}

/// Why no rendition could be chosen for a video.
#[derive(Clone, Copy, Debug, PartialEq, Eq)]
pub enum ResolveError {
    /// The metadata service gave no description of the video.
    MetadataUnavailable,
    /// No rendition on offer holds both a picture and a sound track.
    NoSuitableStream,
}

/// The rendition at `at` is the one to relay: it holds both tracks, no
/// rendition with both tracks is ordered above it, and every such rendition
/// listed before it is ordered strictly below it.
pub open spec fn is_best(renditions: Seq<Rendition>, at: int) -> bool {
    &&& 0 <= at < renditions.len()
    &&& renditions[at].is_combined()
    &&& forall|j: int|
        0 <= j < renditions.len() && renditions[j].is_combined() ==> renditions[j].key()
            <= renditions[at].key()
    &&& forall|j: int|
        0 <= j < at && renditions[j].is_combined() ==> renditions[j].key() < renditions[at].key()
}

/// No rendition of the list holds both tracks.
pub open spec fn none_combined(renditions: Seq<Rendition>) -> bool {
    forall|j: int| 0 <= j < renditions.len() ==> !renditions[j].is_combined()
}

/// At most one place of a list is the best one.
pub proof fn lemma_best_is_unique(renditions: Seq<Rendition>, a: int, b: int)
    requires
        is_best(renditions, a),
        is_best(renditions, b),
    ensures
        a == b,
{
}

/// A list has a best place exactly when one of its renditions holds both
/// tracks.
pub proof fn lemma_best_exists(renditions: Seq<Rendition>)
    ensures
        none_combined(renditions) <==> !exists|at: int| is_best(renditions, at),
    decreases renditions.len(),
{
    if renditions.len() > 0 {
        let init = renditions.drop_last();
        let last = renditions.len() - 1;
        lemma_best_exists(init);
        assert(forall|j: int| 0 <= j < last ==> init[j] == renditions[j]);
        if exists|at: int| is_best(init, at) {
            let at = choose|at: int| is_best(init, at);
            if renditions[last].is_combined() && renditions[last].key() > renditions[at].key() {
                assert(is_best(renditions, last));
            } else {
                assert(is_best(renditions, at));
            }
        } else if renditions[last].is_combined() {
            assert(is_best(renditions, last));
        } else {
            assert(none_combined(renditions));
        }
    }
}

/// The place of the rendition to relay: among those that hold both a picture
/// and a sound track, the one ordered highest, and of several equally high
/// ones the first in the list. `None` exactly when no rendition holds both
/// tracks.
pub fn select_best(renditions: &Vec<Rendition>) -> (place: Option<usize>)
    ensures
        match place {
            Some(at) => is_best(renditions@, at as int),
            None => none_combined(renditions@),
        },
{
    let mut best: Option<usize> = None;
    let mut best_key: u8 = 0;
    let mut i: usize = 0;
    while i < renditions.len()
        invariant
            i <= renditions.len(),
            match best {
                Some(at) => {
                    &&& is_best(renditions@.take(i as int), at as int)
                    &&& best_key == renditions@[at as int].key()
                },
                None => none_combined(renditions@.take(i as int)),
            },
        decreases renditions.len() - i,
    {
        let candidate = &renditions[i];
        let ghost seen = renditions@.take(i as int);
        let ghost grown = renditions@.take(i + 1);
        assert(forall|j: int| 0 <= j < i ==> grown[j] == seen[j]);
        assert(grown[i as int] == renditions@[i as int]);
        if candidate.combined() {
            let key = candidate.sort_key();
            match best {
                Some(_) => {
                    if key > best_key {
                        best = Some(i);
                        best_key = key;
                    }
                },
                None => {
                    best = Some(i);
                    best_key = key;
                },
            }
        }
        i += 1;
    }
    assert(renditions@.take(i as int) == renditions@);
    best
}

/// The choice of one rendition out of a set: the video it belongs to, its
/// place in the set's list and the rendition that stands there.
pub struct Selection {
    pub media_id: Seq<char>,
    pub place: int,
    pub rendition: Rendition,
}

/// The place that a list of renditions offers for relaying: its best place,
/// or none where no rendition holds both tracks.
pub open spec fn best_place(renditions: Seq<Rendition>) -> Option<int> {
    if exists|at: int| is_best(renditions, at) {
        Some(choose|at: int| is_best(renditions, at))
    } else {
        None
    }
}

/// The place that a list offers is its one best place; there is none exactly
/// when no rendition of the list holds both tracks.
pub proof fn lemma_best_place(renditions: Seq<Rendition>)
    ensures
        match best_place(renditions) {
            Some(place) => {
                &&& is_best(renditions, place)
                &&& forall|at: int| is_best(renditions, at) ==> at == place
            },
            None => none_combined(renditions),
        },
{
    lemma_best_exists(renditions);
}

/// The choice that a set allows: the rendition at its best place.
pub open spec fn selection(set: RenditionSetView) -> Option<Selection> {
    match best_place(set.renditions) {
        Some(place) => Some(
            Selection { media_id: set.media_id, place, rendition: set.renditions[place] },
        ),
        None => None,
    }
}

/// A rendition that was chosen for relaying, with the identifier of its
/// video and its place in the set it was chosen from. It holds both a picture
/// and a sound track.
#[derive(Debug, PartialEq, Eq)]
pub struct SelectedRendition {
    media_id: String,
    index: usize,
    rendition: Rendition,
}

impl View for SelectedRendition {
    type V = Selection;

    closed spec fn view(&self) -> Selection {
        Selection {
            media_id: self.media_id@,
            place: self.index as int,
            rendition: self.rendition,
        }
    }
}

impl SelectedRendition {
    #[verifier::type_invariant]
    spec fn holds_both_tracks(self) -> bool {
        self.rendition.is_combined()
    }

    /// The identifier of the video that the rendition belongs to.
    pub fn media_id(&self) -> (r: &str)
        ensures
            r@ == self@.media_id,
    {
        self.media_id.as_str()
    }

    /// The place of the rendition in the set it was chosen from.
    pub fn index(&self) -> (r: usize)
        ensures
            r == self@.place,
    {
        self.index
    }

    /// The rendition itself, which holds both tracks.
    pub fn rendition(&self) -> (r: Rendition)
        ensures
            r == self@.rendition,
            r.is_combined(),
    {
        proof {
            use_type_invariant(self);
        }
        self.rendition
    }

    /// Gives up the selection for the identifier of its video.
    pub fn into_media_id(self) -> (r: String)
        ensures
            r@ == self@.media_id,
    {
        self.media_id
    }
}

/// What resolving gives for an answer of the metadata service: a failed
/// answer gives `MetadataUnavailable`, a set without a rendition that holds
/// both tracks gives `NoSuitableStream`, any other set gives its best
/// rendition.
pub open spec fn resolved(metadata: Result<RenditionSetView, MetaError>) -> Result<
    Selection,
    ResolveError,
> {
    match metadata {
        Err(_) => Err(ResolveError::MetadataUnavailable),
        Ok(set) => match selection(set) {
            Some(s) => Ok(s),
            None => Err(ResolveError::NoSuitableStream),
        },
    }
}

/// Resolving a set fails with `NoSuitableStream` exactly when no rendition of
/// the set holds both tracks. Otherwise it gives a rendition of the set that
/// holds both tracks and that no other such rendition is ordered above, with
/// the identifier of the set's video.
pub proof fn lemma_resolved_is_highest(set: RenditionSetView)
    ensures
        none_combined(set.renditions) <==> resolved(Ok(set)) == Err::<Selection, ResolveError>(
            ResolveError::NoSuitableStream,
        ),
        !none_combined(set.renditions) <==> resolved(Ok(set)) is Ok,
        resolved(Ok(set)) matches Ok(chosen) ==> {
            &&& 0 <= chosen.place < set.renditions.len()
            &&& chosen.rendition == set.renditions[chosen.place]
            &&& chosen.rendition.is_combined()
            &&& chosen.media_id == set.media_id
            &&& forall|j: int|
                0 <= j < set.renditions.len() && set.renditions[j].is_combined()
                    ==> set.renditions[j].key() <= chosen.rendition.key()
        },
{
    lemma_best_place(set.renditions);
}

/// The metadata service's answer as a mathematical value.
pub open spec fn metadata_view(metadata: Result<RenditionSet, MetaError>) -> Result<
    RenditionSetView,
    MetaError,
> {
    match metadata {
        Ok(set) => Ok(set@),
        Err(e) => Err(e),
    }
}

/// The outcome of resolving as a mathematical value.
pub open spec fn resolution_view(outcome: Result<SelectedRendition, ResolveError>) -> Result<
    Selection,
    ResolveError,
> {
    match outcome {
        Ok(selected) => Ok(selected@),
        Err(e) => Err(e),
    }
}

/// Chooses the rendition to relay from the metadata service's answer.
///
/// A failed answer gives `MetadataUnavailable`. A set in which no rendition
/// holds both a picture and a sound track gives `NoSuitableStream`. Any other
/// set gives its best rendition: the highest ordered one that holds both
/// tracks, the first of them where several are equally high.
pub fn resolve(metadata: Result<RenditionSet, MetaError>) -> (outcome: Result<
    SelectedRendition,
    ResolveError,
>)
    ensures
        resolution_view(outcome) == resolved(metadata_view(metadata)),
        metadata is Err ==> outcome == Err::<SelectedRendition, ResolveError>(
            ResolveError::MetadataUnavailable,
        ),
        metadata matches Ok(set) ==> match outcome {
            Ok(selected) => {
                &&& is_best(set.renditions@, selected@.place)
                &&& selected@.rendition == set.renditions@[selected@.place]
                &&& selected@.media_id == set.media_id@
            },
            Err(e) => e == ResolveError::NoSuitableStream && none_combined(set.renditions@),
        },
{
    match metadata {
        Err(_) => Err(ResolveError::MetadataUnavailable),
        Ok(set) => {
            proof {
                lemma_best_place(set.renditions@);
            }
            match select_best(&set.renditions) {
                Some(at) => {
                    let rendition = set.renditions[at];
                    Ok(SelectedRendition { media_id: set.media_id, index: at, rendition })
                },
                None => Err(ResolveError::NoSuitableStream),
            }
        },
    }
}

} // verus!

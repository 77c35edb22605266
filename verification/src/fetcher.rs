use vstd::prelude::*;
use crate::resolver::{SelectedRendition, Selection};

verus! {

/// Why a rendition could not be downloaded.
#[derive(Clone, Copy, Debug, PartialEq, Eq)]
pub enum FetchError {
    /// The transfer broke off.
    Network,
    /// The file could not be written.
    Disk,
    /// The download service could not work out the stream's signature.
    CipherResolution,
}

/// A downloaded file as a mathematical value.
pub struct ArtifactView {
    pub path: Seq<char>,
    pub media_id: Seq<char>,
}

/// A whole rendition on local storage: where the file is and which video it
/// shows.
#[derive(Debug, PartialEq, Eq)]
pub struct DownloadedArtifact {
    path: String,
    media_id: String,
}

impl View for DownloadedArtifact {
    type V = ArtifactView;

    closed spec fn view(&self) -> ArtifactView {
        ArtifactView { path: self.path@, media_id: self.media_id@ }
    }
}

impl DownloadedArtifact {
    /// Where the file is.
    pub fn path(&self) -> (r: &str)
        ensures
            r@ == self@.path,
    {
        self.path.as_str()
    }

    /// The identifier of the video that the file shows.
    pub fn media_id(&self) -> (r: &str)
        ensures
            r@ == self@.media_id,
    {
        self.media_id.as_str()
    }

    /// Gives up the artifact for its path and the identifier of its video.
    pub fn into_parts(self) -> (r: (String, String))
        ensures
            r.0@ == self@.path,
            r.1@ == self@.media_id,
    {
        (self.path, self.media_id)
    }
}

/// What fetching gives for an answer of the download service: a finished
/// download gives the artifact of the chosen rendition's video at the path
/// that the service names, a failed one gives the service's failure.
pub open spec fn fetched(selected: Selection, download: Result<Seq<char>, FetchError>) -> Result<
    ArtifactView,
    FetchError,
> {
    match download {
        Ok(path) => Ok(ArtifactView { path, media_id: selected.media_id }),
        Err(e) => Err(e),
    }
}

/// The download service's answer as a mathematical value.
pub open spec fn download_view(download: Result<String, FetchError>) -> Result<
    Seq<char>,
    FetchError,
> {
    match download {
        Ok(path) => Ok(path@),
        Err(e) => Err(e),
    }
}

/// The outcome of fetching as a mathematical value.
pub open spec fn fetch_view(outcome: Result<DownloadedArtifact, FetchError>) -> Result<
    ArtifactView,
    FetchError,
> {
    match outcome {
        Ok(artifact) => Ok(artifact@),
        Err(e) => Err(e),
    }
}

/// Turns the download service's answer for a chosen rendition into an
/// artifact.
///
/// A finished download gives the artifact at the path that the service
/// names, for the video of the chosen rendition. A failed download gives the
/// service's failure as it is, and no artifact.
pub fn fetch(selected: SelectedRendition, download: Result<String, FetchError>) -> (outcome: Result<
    DownloadedArtifact,
    FetchError,
>)
    ensures
        fetch_view(outcome) == fetched(selected@, download_view(download)),
{
    match download {
        Ok(path) => Ok(DownloadedArtifact { path, media_id: selected.into_media_id() }),
        Err(e) => Err(e),
    }
}

} // verus!

use vstd::prelude::*;
use rustube::url::Url;
use crate::text::{begins_with, chars_of, contains, occurs_at, occurs_in, starts_with};

verus! {

/// What a link must begin with.
pub open spec fn scheme_prefix() -> Seq<char> {
    "https://"@
}

/// What a link must hold to count as one to the video host.
pub open spec fn host_marker() -> Seq<char> {
    "youtube.com/"@
}

/// The text looks like a link to the video host: it begins with the scheme
/// and the host's marker stands somewhere in it. Nothing is said yet of
/// whether it is a well formed URL, nor of where in the URL the marker
/// stands.
pub open spec fn looks_like_link(text: Seq<char>) -> bool {
    begins_with(scheme_prefix(), text) && occurs_in(host_marker(), text)
}

/// In a text that begins with the scheme, the host's marker can only stand
/// after the scheme.
pub proof fn lemma_marker_follows_scheme(text: Seq<char>, at: int)
    requires
        begins_with(scheme_prefix(), text),
        occurs_at(host_marker(), text, at),
    ensures
        at >= scheme_prefix().len(),
{
    reveal_strlit("https://");
    reveal_strlit("youtube.com/");
    let scheme = scheme_prefix();
    let marker = host_marker();
    if at < scheme.len() {
        assert(text.subrange(at, at + marker.len())[0] == marker[0]);
        assert(text.subrange(0, scheme.len() as int)[at] == scheme[at]);
    }
}

/// Whether the text looks like a link to the video host.
pub fn is_candidate(text: &str) -> (r: bool)
    ensures
        r == looks_like_link(text@),
{
    let chars = chars_of(text);
    let scheme = chars_of("https://");
    let marker = chars_of("youtube.com/");
    starts_with(&chars, &scheme) && contains(&chars, &marker)
}

/// The serialization of the absolute URL that a text parses to, where it
/// parses to one: the URL in its normal form, as the parser writes it out
/// again. What the parser accepts is the parser's matter and is not stated
/// here.
pub uninterp spec fn parsed_url(text: Seq<char>) -> Option<Seq<char>>;

/// Parses a text as an absolute URL with `Url::parse` of the `url` crate, as
/// `rustube` hands it on, and turns the URL into its serialization with
/// `String::from`. The contract is not proved. It claims that the outcome
/// depends on the text alone, and gives it the name `parsed_url`: nothing
/// when the parser refuses the text, else the serialization. It says nothing
/// of which texts parse, nor of what a serialization looks like.
#[verifier::external_body]
fn parse_url(text: &str) -> (r: Option<String>)
    ensures
        match r {
            Some(url) => parsed_url(text@) == Some(url@),
            None => parsed_url(text@) is None,
        },
{
    match Url::parse(text) {
        Ok(url) => Some(String::from(url)),
        Err(_) => None,
    }
}

/// What a text is recognized as: the serialization of its URL where the text
/// looks like a link to the video host and parses, else nothing.
pub open spec fn recognized(text: Seq<char>) -> Option<Seq<char>> {
    if looks_like_link(text) {
        parsed_url(text)
    } else {
        None
    }
}

/// A text is a reference's source when the reference is what the text is
/// recognized as.
pub open spec fn refers(text: Seq<char>, url: Seq<char>) -> bool {
    recognized(text) == Some(url)
}

/// A link to one video on the video host, held as the serialization of its
/// URL. Every value stems from a text that was recognized.
#[derive(Debug, PartialEq, Eq)]
pub struct MediaReference {
    url: String,
}

impl View for MediaReference {
    type V = Seq<char>;

    closed spec fn view(&self) -> Seq<char> {
        self.url@
    }
}

impl MediaReference {
    #[verifier::type_invariant]
    spec fn has_source(self) -> bool {
        exists|text: Seq<char>| #[trigger] refers(text, self.url@)
    }

    /// The serialization of the URL, for which a source text exists.
    pub fn as_str(&self) -> (r: &str)
        ensures
            r@ == self@,
            exists|text: Seq<char>| #[trigger] refers(text, self@),
    {
        proof {
            use_type_invariant(self);
        }
        self.url.as_str()
    }
}

/// What `recognize` owes for a message body and a result.
pub open spec fn recognition(text: Option<Seq<char>>, reference: Option<Seq<char>>) -> bool {
    match text {
        None => reference is None,
        Some(t) => reference == recognized(t),
    }
}

/// Recognition is a function of the text alone: whatever two calls on one
/// body give, they give the same.
pub proof fn lemma_recognition_is_functional(
    text: Option<Seq<char>>,
    first: Option<Seq<char>>,
    second: Option<Seq<char>>,
)
    requires
        recognition(text, first),
        recognition(text, second),
    ensures
        first == second,
{
}

/// Recognizes a message body as a link to a video.
///
/// A message without a body gives nothing. A body gives a reference exactly
/// when it begins with `https://`, holds `youtube.com/` and parses as an
/// absolute URL; the reference is then that URL.
pub fn recognize(text: Option<&str>) -> (reference: Option<MediaReference>)
    ensures
        recognition(
            match text {
                Some(t) => Some(t@),
                None => None,
            },
            match reference {
                Some(m) => Some(m@),
                None => None,
            },
        ),
        reference is Some ==> (text matches Some(t) && {
            &&& begins_with(scheme_prefix(), t@)
            &&& occurs_in(host_marker(), t@)
            &&& parsed_url(t@) is Some
        }),
{
    match text {
        None => None,
        Some(t) => {
            if is_candidate(t) {
                match parse_url(t) {
                    Some(url) => {
                        proof {
                            let ghost made = MediaReference { url };
                            assert(refers(t@, made.url@));
                        }
                        Some(MediaReference { url })
                    },
                    None => None,
                }
            } else {
                None
            }
        },
    }
}

} // verus!

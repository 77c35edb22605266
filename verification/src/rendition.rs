use vstd::prelude::*;

verus! {

/// The quality labels that a rendition can carry, from the lowest to the
/// highest: resolution first, then frame rate, then dynamic range.
#[derive(Clone, Copy, Debug, PartialEq, Eq, Hash)]
pub enum QualityLabel {
    P144,
    P144HDR,
    P144Hz60HDR,
    P240,
    P240HDR,
    P240Hz60HDR,
    P360,
    P360HDR,
    P360Hz60,
    P360Hz60HDR,
    P480,
    P480HDR,
    P480Hz60,
    P480Hz60HDR,
    P720,
    P720Hz50,
    P720Hz60,
    P720Hz60HDR,
    P1080,
    P1080Hz50,
    P1080Hz60,
    P1080Hz60HDR,
    P1440,
    P1440Hz60,
    P1440Hz60HDR,
    P2160,
    P2160Hz60,
    P2160Hz60HDR,
    P4320,
    P4320Hz60,
    P4320Hz60HDR,
}

impl QualityLabel {
    /// The place of a label in the order of labels; the order of labels is the
    /// order of their ranks.
    pub open spec fn rank(self) -> nat {
        match self {
            QualityLabel::P144 => 0,
            QualityLabel::P144HDR => 1,
            QualityLabel::P144Hz60HDR => 2,
            QualityLabel::P240 => 3,
            QualityLabel::P240HDR => 4,
            QualityLabel::P240Hz60HDR => 5,
            QualityLabel::P360 => 6,
            QualityLabel::P360HDR => 7,
            QualityLabel::P360Hz60 => 8,
            QualityLabel::P360Hz60HDR => 9,
            QualityLabel::P480 => 10,
            QualityLabel::P480HDR => 11,
            QualityLabel::P480Hz60 => 12,
            QualityLabel::P480Hz60HDR => 13,
            QualityLabel::P720 => 14,
            QualityLabel::P720Hz50 => 15,
            QualityLabel::P720Hz60 => 16,
            QualityLabel::P720Hz60HDR => 17,
            QualityLabel::P1080 => 18,
            QualityLabel::P1080Hz50 => 19,
            QualityLabel::P1080Hz60 => 20,
            QualityLabel::P1080Hz60HDR => 21,
            QualityLabel::P1440 => 22,
            QualityLabel::P1440Hz60 => 23,
            QualityLabel::P1440Hz60HDR => 24,
            QualityLabel::P2160 => 25,
            QualityLabel::P2160Hz60 => 26,
            QualityLabel::P2160Hz60HDR => 27,
            QualityLabel::P4320 => 28,
            QualityLabel::P4320Hz60 => 29,
            QualityLabel::P4320Hz60HDR => 30,
        }
    }

    /// The place of this label in the order of labels.
    pub fn grade(&self) -> (r: u8)
        ensures
            r == self.rank(),
    {
        match self {
            QualityLabel::P144 => 0,
            QualityLabel::P144HDR => 1,
            QualityLabel::P144Hz60HDR => 2,
            QualityLabel::P240 => 3,
            QualityLabel::P240HDR => 4,
            QualityLabel::P240Hz60HDR => 5,
            QualityLabel::P360 => 6,
            QualityLabel::P360HDR => 7,
            QualityLabel::P360Hz60 => 8,
            QualityLabel::P360Hz60HDR => 9,
            QualityLabel::P480 => 10,
            QualityLabel::P480HDR => 11,
            QualityLabel::P480Hz60 => 12,
            QualityLabel::P480Hz60HDR => 13,
            QualityLabel::P720 => 14,
            QualityLabel::P720Hz50 => 15,
            QualityLabel::P720Hz60 => 16,
            QualityLabel::P720Hz60HDR => 17,
            QualityLabel::P1080 => 18,
            QualityLabel::P1080Hz50 => 19,
            QualityLabel::P1080Hz60 => 20,
            QualityLabel::P1080Hz60HDR => 21,
            QualityLabel::P1440 => 22,
            QualityLabel::P1440Hz60 => 23,
            QualityLabel::P1440Hz60HDR => 24,
            QualityLabel::P2160 => 25,
            QualityLabel::P2160Hz60 => 26,
            QualityLabel::P2160Hz60HDR => 27,
            QualityLabel::P4320 => 28,
            QualityLabel::P4320Hz60 => 29,
            QualityLabel::P4320Hz60HDR => 30,
        }
    }
}

/// The rank of a label is below the number of labels, and no two labels share
/// a rank: the order of labels is total.
pub proof fn lemma_rank_is_total(a: QualityLabel, b: QualityLabel)
    ensures
        a.rank() < 31,
        a.rank() == b.rank() <==> a == b,
{
}

/// One downloadable encoding of a video: its quality label, where it has one,
/// and which tracks it holds.
#[derive(Clone, Copy, Debug, PartialEq, Eq)]
pub struct Rendition {
    pub quality: Option<QualityLabel>,
    pub has_video: bool,
    pub has_audio: bool,
}

impl Rendition {
    /// What renditions are ordered by: one without a label stands below every
    /// labelled one, and labelled ones stand in the order of their labels.
    pub open spec fn key(self) -> nat {
        match self.quality {
            None => 0,
            Some(label) => label.rank() + 1,
        }
    }

    /// The rendition holds a picture track and a sound track.
    pub open spec fn is_combined(self) -> bool {
        self.has_video && self.has_audio
    }

    /// The number by which this rendition is ordered.
    pub fn sort_key(&self) -> (r: u8)
        ensures
            r == self.key(),
    {
        match self.quality {
            None => 0,
            Some(label) => label.grade() + 1,
        }
    }

    /// Whether the rendition holds a picture track and a sound track.
    pub fn combined(&self) -> (r: bool)
        ensures
            r == self.is_combined(),
    {
        self.has_video && self.has_audio
    }
}

/// What the metadata service knows of one video: its identifier and the
/// renditions on offer, in the order in which the service lists them. There
/// may be none.
#[derive(Debug, PartialEq, Eq)]
pub struct RenditionSet {
    pub media_id: String,
    pub renditions: Vec<Rendition>,
}

/// A rendition set as a mathematical value.
pub struct RenditionSetView {
    pub media_id: Seq<char>,
    pub renditions: Seq<Rendition>,
}

impl Clone for RenditionSet {
    fn clone(&self) -> (r: RenditionSet)
        ensures
            r@ == self@,
    {
        let mut renditions: Vec<Rendition> = Vec::new();
        let mut i: usize = 0;
        while i < self.renditions.len()
            invariant
                i <= self.renditions.len(),
                renditions@ == self.renditions@.take(i as int),
            decreases self.renditions.len() - i,
        {
            renditions.push(self.renditions[i]);
            assert(self.renditions@.take(i + 1) == self.renditions@.take(i as int).push(
                self.renditions@[i as int],
            ));
            i += 1;
        }
        assert(self.renditions@.take(i as int) == self.renditions@);
        RenditionSet { media_id: self.media_id.clone(), renditions }
    }
}

impl View for RenditionSet {
    type V = RenditionSetView;

    open spec fn view(&self) -> RenditionSetView {
        RenditionSetView { media_id: self.media_id@, renditions: self.renditions@ }
    }
}

} // verus!

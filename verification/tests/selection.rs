use video_relay::rendition::{QualityLabel, Rendition, RenditionSet};
use video_relay::resolver::{resolve, select_best, MetaError, ResolveError};

fn rendition(quality: Option<QualityLabel>, has_video: bool, has_audio: bool) -> Rendition {
    Rendition { quality, has_video, has_audio }
}

fn set_of(renditions: Vec<Rendition>) -> RenditionSet {
    RenditionSet { media_id: String::from("abc123"), renditions }
}

const LABELS: [QualityLabel; 31] = [
    QualityLabel::P144,
    QualityLabel::P144HDR,
    QualityLabel::P144Hz60HDR,
    QualityLabel::P240,
    QualityLabel::P240HDR,
    QualityLabel::P240Hz60HDR,
    QualityLabel::P360,
    QualityLabel::P360HDR,
    QualityLabel::P360Hz60,
    QualityLabel::P360Hz60HDR,
    QualityLabel::P480,
    QualityLabel::P480HDR,
    QualityLabel::P480Hz60,
    QualityLabel::P480Hz60HDR,
    QualityLabel::P720,
    QualityLabel::P720Hz50,
    QualityLabel::P720Hz60,
    QualityLabel::P720Hz60HDR,
    QualityLabel::P1080,
    QualityLabel::P1080Hz50,
    QualityLabel::P1080Hz60,
    QualityLabel::P1080Hz60HDR,
    QualityLabel::P1440,
    QualityLabel::P1440Hz60,
    QualityLabel::P1440Hz60HDR,
    QualityLabel::P2160,
    QualityLabel::P2160Hz60,
    QualityLabel::P2160Hz60HDR,
    QualityLabel::P4320,
    QualityLabel::P4320Hz60,
    QualityLabel::P4320Hz60HDR,
];

#[test]
fn grades_count_up_through_the_labels() {
    for (place, label) in LABELS.iter().enumerate() {
        assert_eq!(label.grade() as usize, place);
    }
    assert_eq!(QualityLabel::P144.grade(), 0);
    assert_eq!(QualityLabel::P720.grade(), 14);
    assert_eq!(QualityLabel::P1080.grade(), 18);
    assert_eq!(QualityLabel::P4320Hz60HDR.grade(), 30);
}

#[test]
fn sort_key_puts_unlabelled_renditions_lowest() {
    assert_eq!(rendition(None, true, true).sort_key(), 0);
    assert_eq!(rendition(Some(QualityLabel::P144), true, true).sort_key(), 1);
    assert_eq!(rendition(Some(QualityLabel::P720), false, true).sort_key(), 15);
    assert_eq!(rendition(Some(QualityLabel::P4320Hz60HDR), true, false).sort_key(), 31);
}

#[test]
fn combined_needs_both_tracks() {
    assert!(rendition(None, true, true).combined());
    assert!(!rendition(None, true, false).combined());
    assert!(!rendition(None, false, true).combined());
    assert!(!rendition(None, false, false).combined());
}

#[test]
fn nothing_is_selected_from_an_empty_list() {
    assert_eq!(select_best(&Vec::new()), None);
}

#[test]
fn nothing_is_selected_without_a_combined_rendition() {
    let list = vec![
        rendition(Some(QualityLabel::P1080), true, false),
        rendition(Some(QualityLabel::P720), false, true),
        rendition(None, false, false),
    ];
    assert_eq!(select_best(&list), None);
}

#[test]
fn highest_combined_rendition_is_selected() {
    let list = vec![
        rendition(Some(QualityLabel::P360), true, true),
        rendition(Some(QualityLabel::P2160), true, false),
        rendition(Some(QualityLabel::P720), true, true),
        rendition(Some(QualityLabel::P480), true, true),
    ];
    assert_eq!(select_best(&list), Some(2));
}

#[test]
fn first_of_equally_high_renditions_is_selected() {
    let list = vec![
        rendition(Some(QualityLabel::P360), true, true),
        rendition(Some(QualityLabel::P720), true, true),
        rendition(Some(QualityLabel::P720), true, true),
        rendition(Some(QualityLabel::P720), true, true),
    ];
    assert_eq!(select_best(&list), Some(1));
    let unlabelled = vec![rendition(None, true, true), rendition(None, true, true)];
    assert_eq!(select_best(&unlabelled), Some(0));
}

#[test]
fn labelled_rendition_is_preferred_to_an_unlabelled_one() {
    let list = vec![rendition(None, true, true), rendition(Some(QualityLabel::P144), true, true)];
    assert_eq!(select_best(&list), Some(1));
}

#[test]
fn selected_rendition_is_at_least_as_high_as_every_combined_one() {
    let choices = [None, Some(QualityLabel::P144), Some(QualityLabel::P720), Some(QualityLabel::P1080)];
    let mut lists: Vec<Vec<Rendition>> = vec![Vec::new()];
    for _ in 0..3 {
        let mut longer = Vec::new();
        for list in &lists {
            for quality in choices {
                for (has_video, has_audio) in [(true, true), (true, false), (false, true)] {
                    let mut next = list.clone();
                    next.push(rendition(quality, has_video, has_audio));
                    longer.push(next);
                }
            }
        }
        lists.extend(longer);
    }
    for list in &lists {
        match select_best(list) {
            None => assert!(list.iter().all(|r| !(r.has_video && r.has_audio))),
            Some(at) => {
                assert!(list[at].has_video && list[at].has_audio);
                for (place, other) in list.iter().enumerate() {
                    if other.has_video && other.has_audio {
                        assert!(other.sort_key() <= list[at].sort_key());
                        if place < at {
                            assert!(other.sort_key() < list[at].sort_key());
                        }
                    }
                }
            },
        }
    }
}

#[test]
fn failed_metadata_resolves_to_metadata_unavailable() {
    assert_eq!(resolve(Err(MetaError::Network)), Err(ResolveError::MetadataUnavailable));
    assert_eq!(resolve(Err(MetaError::NotFound)), Err(ResolveError::MetadataUnavailable));
    assert_eq!(resolve(Err(MetaError::Malformed)), Err(ResolveError::MetadataUnavailable));
}

#[test]
fn empty_set_resolves_to_no_suitable_stream() {
    assert_eq!(resolve(Ok(set_of(Vec::new()))), Err(ResolveError::NoSuitableStream));
}

#[test]
fn set_without_combined_rendition_resolves_to_no_suitable_stream() {
    let set = set_of(vec![
        rendition(Some(QualityLabel::P1080), true, false),
        rendition(None, false, true),
    ]);
    assert_eq!(resolve(Ok(set)), Err(ResolveError::NoSuitableStream));
}

#[test]
fn resolving_gives_the_best_rendition_and_its_video() {
    let set = set_of(vec![
        rendition(Some(QualityLabel::P1080), true, false),
        rendition(Some(QualityLabel::P360), true, true),
        rendition(Some(QualityLabel::P720), true, true),
    ]);
    let selected = resolve(Ok(set)).unwrap();
    assert_eq!(selected.index(), 2);
    assert_eq!(selected.rendition(), rendition(Some(QualityLabel::P720), true, true));
    assert_eq!(selected.media_id(), "abc123");
    assert_eq!(selected.into_media_id(), "abc123");
}

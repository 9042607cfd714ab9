use chdimage::compare::CompareOp;
use chdimage::kinds::{Event, TrackType};

#[test]
fn track_types_have_codes_and_names() {
    assert_eq!(TrackType::MODE1().code(), 1);
    assert_eq!(TrackType::MODE2().code(), 2);
    assert_eq!(TrackType::AUDIO().code(), 3);
    assert_eq!(TrackType::MODE1().to_text(), "MODE1_RAW");
    assert_eq!(TrackType::MODE2().to_text(), "MODE2_RAW");
    assert_eq!(TrackType::AUDIO().to_text(), "AUDIO");
}

#[test]
fn events_have_codes_and_names() {
    assert_eq!(Event::TRACKCHANGE().code(), 1);
    assert_eq!(Event::ENDOFDISC().code(), 2);
    assert_eq!(Event::TRACKCHANGE().to_text(), "TrackChange");
    assert_eq!(Event::ENDOFDISC().to_text(), "EndOfDisc");
}

#[test]
fn kinds_compare_for_equality_only() {
    let a = TrackType::Audio;
    assert_eq!(a.richcmp(&TrackType::Audio, CompareOp::Eq), Some(true));
    assert_eq!(a.richcmp(&TrackType::Mode1, CompareOp::Eq), Some(false));
    assert_eq!(a.richcmp(&TrackType::Mode1, CompareOp::Ne), Some(true));
    assert_eq!(a.richcmp(&TrackType::Mode1, CompareOp::Lt), None);
    let e = Event::EndOfDisc;
    assert_eq!(e.richcmp(&Event::EndOfDisc, CompareOp::Ne), Some(false));
    assert_eq!(e.richcmp(&Event::TrackChange, CompareOp::Eq), Some(false));
    assert_eq!(e.richcmp(&Event::TrackChange, CompareOp::Ge), None);
}

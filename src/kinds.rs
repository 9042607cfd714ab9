//! The kinds of track on a disc and the events of moving across it.
use vstd::prelude::*;
use crate::compare::CompareOp;

verus! {

/// How the sectors of a track are laid out.
#[derive(Clone, Copy, Debug, PartialEq, Eq, Structural)]
pub enum TrackType {
    Mode1,
    Mode2,
    Audio,
}

/// What moving one sector forward ran into.
#[derive(Clone, Copy, Debug, PartialEq, Eq, Structural)]
pub enum Event {
    TrackChange,
    EndOfDisc,
}

/// The number by which a host identifies a track kind.
pub open spec fn track_type_code(t: TrackType) -> usize {
    match t {
        TrackType::Mode1 => 1,
        TrackType::Mode2 => 2,
        TrackType::Audio => 3,
    }
}

/// The name of a track kind.
pub open spec fn track_type_text(t: TrackType) -> Seq<char> {
    match t {
        TrackType::Mode1 => "MODE1_RAW"@,
        TrackType::Mode2 => "MODE2_RAW"@,
        TrackType::Audio => "AUDIO"@,
    }
}

/// The number by which a host identifies an event.
pub open spec fn event_code(e: Event) -> usize {
    match e {
        Event::TrackChange => 1,
        Event::EndOfDisc => 2,
    }
}

/// The name of an event.
pub open spec fn event_text(e: Event) -> Seq<char> {
    match e {
        Event::TrackChange => "TrackChange"@,
        Event::EndOfDisc => "EndOfDisc"@,
    }
}

/// What an equality-only comparison answers: `Eq` and `Ne` are decided by
/// `same`, the ordering operators are not supported.
pub open spec fn equality_only(op: CompareOp, same: bool) -> Option<bool> {
    match op {
        CompareOp::Eq => Some(same),
        CompareOp::Ne => Some(!same),
        _ => None,
    }
}

fn equality_answer(op: CompareOp, same: bool) -> (r: Option<bool>)
    ensures
        r == equality_only(op, same),
{
    match op {
        CompareOp::Eq => Some(same),
        CompareOp::Ne => Some(!same),
        _ => None,
    }
}

#[allow(non_snake_case)]
impl TrackType {
    /// The Mode 1 track kind.
    pub fn MODE1() -> (r: TrackType)
        ensures
            r == TrackType::Mode1,
    {
        TrackType::Mode1
    }

    /// The Mode 2 track kind.
    pub fn MODE2() -> (r: TrackType)
        ensures
            r == TrackType::Mode2,
    {
        TrackType::Mode2
    }

    /// The audio track kind.
    pub fn AUDIO() -> (r: TrackType)
        ensures
            r == TrackType::Audio,
    {
        TrackType::Audio
    }

    /// The number by which a host identifies this track kind.
    pub fn code(&self) -> (r: usize)
        ensures
            r == track_type_code(*self),
    {
        match self {
            TrackType::Mode1 => 1,
            TrackType::Mode2 => 2,
            TrackType::Audio => 3,
        }
    }

    /// The name of this track kind.
    pub fn to_text(&self) -> (r: String)
        ensures
            r@ == track_type_text(*self),
    {
        match self {
            TrackType::Mode1 => "MODE1_RAW".to_owned(),
            TrackType::Mode2 => "MODE2_RAW".to_owned(),
            TrackType::Audio => "AUDIO".to_owned(),
        }
    }

    /// Answers `Eq` and `Ne` by whether the two kinds are the same; the
    /// ordering operators are not supported.
    pub fn richcmp(&self, other: &TrackType, op: CompareOp) -> (r: Option<bool>)
        ensures
            r == equality_only(op, *self == *other),
    {
        equality_answer(op, *self == *other)
    }
}

#[allow(non_snake_case)]
impl Event {
    /// The event of crossing into the next track.
    pub fn TRACKCHANGE() -> (r: Event)
        ensures
            r == Event::TrackChange,
    {
        Event::TrackChange
    }

    /// The event of reaching the end of the disc.
    pub fn ENDOFDISC() -> (r: Event)
        ensures
            r == Event::EndOfDisc,
    {
        Event::EndOfDisc
    }

    /// The number by which a host identifies this event.
    pub fn code(&self) -> (r: usize)
        ensures
            r == event_code(*self),
    {
        match self {
            Event::TrackChange => 1,
            Event::EndOfDisc => 2,
        }
    }

    /// The name of this event.
    pub fn to_text(&self) -> (r: String)
        ensures
            r@ == event_text(*self),
    {
        match self {
            Event::TrackChange => "TrackChange".to_owned(),
            Event::EndOfDisc => "EndOfDisc".to_owned(),
        }
    }

    /// Answers `Eq` and `Ne` by whether the two events are the same; the
    /// ordering operators are not supported.
    pub fn richcmp(&self, other: &Event, op: CompareOp) -> (r: Option<bool>)
        ensures
            r == equality_only(op, *self == *other),
    {
        equality_answer(op, *self == *other)
    }
}

} // verus!

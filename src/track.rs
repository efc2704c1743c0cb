use vstd::prelude::*;

use crate::class::{class_color, color_of, ClassType};
use crate::render::{plan_path, render_ops, DrawOp};
use crate::sampler::{sample, sampled};

verus! {

/// One decoded track event: what the drawing decisions read of it.
///
/// `P` is the caller's form of one observation (for drawing, its ground
/// point), kept in capture order. `classes` holds the class of each
/// classification in the order received; scores, colors and the duration are
/// not read by any decision and stay with the caller.
pub struct TrackRecord<P> {
    pub id: String,
    pub start_time: String,
    pub end_time: Option<String>,
    pub observations: Vec<P>,
    pub classes: Vec<ClassType>,
}

/// What reached the render loop from the bus for one message.
pub enum Inbound<P> {
    /// The payload was not valid UTF-8.
    InvalidText,
    /// The text did not decode as a track record.
    Malformed,
    Track(TrackRecord<P>),
}

/// What the render loop does with one message.
#[derive(Debug)]
pub enum Decision<P> {
    SkipInvalidText,
    SkipMalformed,
    /// The track has not ended yet.
    SkipInProgress,
    /// The track carries no classification, so it has no color.
    SkipUnclassified,
    /// Perform these surface calls, in order.
    Draw(Vec<DrawOp<P>>),
}

/// A track is drawn only once it has ended.
pub open spec fn is_finished<P>(t: TrackRecord<P>) -> bool {
    t.end_time is Some
}

/// The calls that draw a finished, classified track: the color of its first
/// class, and its sampled observations as one polyline.
pub open spec fn track_ops<P>(t: TrackRecord<P>) -> Seq<DrawOp<P>> {
    render_ops(class_color(t.classes@[0]), sampled(t.observations@))
}

/// The class that decides a track's color: the first one, if any.
pub fn first_class<P>(t: &TrackRecord<P>) -> (r: Option<ClassType>)
    ensures
        t.classes@.len() == 0 ==> r is None,
        t.classes@.len() > 0 ==> r == Some(t.classes@[0]),
{
    if t.classes.len() == 0 {
        None
    } else {
        Some(t.classes[0])
    }
}

/// Decides what to do with a decoded track: unfinished and unclassified
/// tracks are skipped, and only a finished, classified track is drawn.
pub fn plan_track<P: Copy>(t: &TrackRecord<P>) -> (r: Decision<P>)
    ensures
        !is_finished(*t) ==> r is SkipInProgress,
        is_finished(*t) && t.classes@.len() == 0 ==> r is SkipUnclassified,
        is_finished(*t) && t.classes@.len() > 0 ==> (r matches Decision::Draw(ops) && ops@
            == track_ops(*t)),
        r is Draw ==> is_finished(*t) && t.classes@.len() > 0,
{
    if t.end_time.is_none() {
        return Decision::SkipInProgress;
    }
    match first_class(t) {
        None => Decision::SkipUnclassified,
        Some(c) => {
            let color = color_of(c);
            let points = sample(&t.observations);
            Decision::Draw(plan_path(color, &points))
        },
    }
}

/// Decides what to do with one message of the render loop. Text that is not
/// UTF-8 and text that is not a track record are skipped; the loop goes on.
pub fn plan_message<P: Copy>(m: &Inbound<P>) -> (r: Decision<P>)
    ensures
        m is InvalidText ==> r is SkipInvalidText,
        m is Malformed ==> r is SkipMalformed,
        *m matches Inbound::Track(t) ==> {
            &&& !is_finished(t) ==> r is SkipInProgress
            &&& is_finished(t) && t.classes@.len() == 0 ==> r is SkipUnclassified
            &&& is_finished(t) && t.classes@.len() > 0 ==> (r matches Decision::Draw(ops) && ops@
                == track_ops(t))
        },
        r is Draw ==> (*m matches Inbound::Track(t) && is_finished(t) && t.classes@.len() > 0),
{
    match m {
        Inbound::InvalidText => Decision::SkipInvalidText,
        Inbound::Malformed => Decision::SkipMalformed,
        Inbound::Track(t) => plan_track(t),
    }
}

} // verus!

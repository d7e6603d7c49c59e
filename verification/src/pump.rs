//! The pump: the state machine that drives the pipeline.
//!
//! The pump owns the decisions of the ingestion loop: decode each frame,
//! classify it, transform an accepted event, and hand the record to the
//! append sink. The surrounding code performs the outside work — waiting
//! for frames, establishing connections, executing the append — and reports
//! each outcome back; the pump says what to do next. Any transform or
//! append error is fatal to the whole pump; a classifier rejection is not
//! an error and simply continues the loop with no side effect.

use vstd::prelude::*;

use crate::classifier::{accept, spec_accept};
use crate::decode::{
    bool_field, decode, decodes_to, frame_tags, has_entities, num_field, str_field, tweet_shape,
    user_of,
};
use crate::digits::dec_str;
use crate::json::JsonValue;
use crate::model::StreamMessage;
use crate::record::Record;
use crate::sink::AppendLog;
use crate::transform::{join_csv, transform};

verus! {

/// How a terminated pump ended.
pub enum PumpOutcome {
    Success,
    Failure,
}

/// The pump's lifecycle state.
pub enum PumpState {
    /// Establishing the long-lived feed connection.
    Connecting,
    /// Connected; ready for the next frame.
    Streaming,
    /// A record has been handed to the append sink and its result is
    /// pending. While here no second append may start: appends are
    /// serialized, at most one in flight at any instant.
    AwaitingAppend,
    /// The pump has stopped and processes nothing more.
    Terminated(PumpOutcome),
}

/// What the caller must do after handing the pump an event.
pub enum PumpAction {
    /// Wait for the next feed frame and hand it to `on_frame`.
    AwaitFrame,
    /// Execute the append, then report through `on_append_result`.
    Append(Record),
    /// Stop driving the pump.
    Stop,
}

/// The frame decodes to a content event that the classifier accepts.
pub open spec fn frame_accepted(v: JsonValue) -> bool {
    &&& tweet_shape(v)
    &&& str_field(v, "lang"@).unwrap() == "en"@
    &&& !bool_field(v, "possibly_sensitive"@).unwrap()
}

/// Record `rec` is the canonical reshaping of the content event carried by
/// frame `v`.
pub open spec fn frame_record(v: JsonValue, rec: Record) -> bool {
    &&& rec.id@ == dec_str(num_field(v, "id"@).unwrap() as int)
    &&& rec.user@ == str_field(user_of(v), "screen_name"@).unwrap()
    &&& rec.text@ == str_field(v, "text"@).unwrap()
    &&& rec.location@ == str_field(user_of(v), "location"@).unwrap()
    &&& rec.hashtags@ == join_csv(frame_tags(v))
}

/// The pump.
pub struct Pump {
    pub state: PumpState,
}

impl Pump {
    /// A fresh pump, about to establish the feed connection.
    pub fn new() -> (p: Pump)
        ensures
            p.state is Connecting,
    {
        Pump { state: PumpState::Connecting }
    }

    /// Reports whether connection establishment succeeded. Failure is
    /// fatal: no retry at this layer.
    pub fn on_connect(&mut self, ok: bool) -> (act: PumpAction)
        requires
            old(self).state is Connecting,
        ensures
            ok ==> final(self).state is Streaming && act is AwaitFrame,
            !ok ==> final(self).state == PumpState::Terminated(PumpOutcome::Failure)
                && act is Stop,
    {
        if ok {
            self.state = PumpState::Streaming;
            PumpAction::AwaitFrame
        } else {
            self.state = PumpState::Terminated(PumpOutcome::Failure);
            PumpAction::Stop
        }
    }

    /// Drives one frame through decode, classification and transformation.
    /// A frame the classifier rejects is skipped silently; an accepted
    /// event becomes the record to append; an accepted event without a tag
    /// container is fatal and nothing is appended for it.
    pub fn on_frame(&mut self, v: &JsonValue) -> (act: PumpAction)
        requires
            old(self).state is Streaming,
        ensures
            !frame_accepted(*v) ==> final(self).state is Streaming && act is AwaitFrame,
            frame_accepted(*v) && has_entities(*v) ==> final(self).state is AwaitingAppend && (
            act matches PumpAction::Append(rec) && frame_record(*v, rec)),
            frame_accepted(*v) && !has_entities(*v) ==> final(self).state
                == PumpState::Terminated(PumpOutcome::Failure) && act is Stop,
    {
        let m = decode(v);
        proof {
            assert(spec_accept(m) == frame_accepted(*v));
        }
        if !accept(&m) {
            return PumpAction::AwaitFrame;
        }
        let t = match m {
            StreamMessage::Tweet(t) => t,
            StreamMessage::Other => {
                proof {
                    assert(false);
                }
                return PumpAction::AwaitFrame;
            },
        };
        match transform(&t) {
            Ok(rec) => {
                self.state = PumpState::AwaitingAppend;
                PumpAction::Append(rec)
            },
            Err(_) => {
                self.state = PumpState::Terminated(PumpOutcome::Failure);
                PumpAction::Stop
            },
        }
    }

    /// Reports the append sink's result for the in-flight record. Success
    /// resumes streaming; a rejected write or a lost connection is fatal.
    pub fn on_append_result(&mut self, ok: bool) -> (act: PumpAction)
        requires
            old(self).state is AwaitingAppend,
        ensures
            ok ==> final(self).state is Streaming && act is AwaitFrame,
            !ok ==> final(self).state == PumpState::Terminated(PumpOutcome::Failure)
                && act is Stop,
    {
        if ok {
            self.state = PumpState::Streaming;
            PumpAction::AwaitFrame
        } else {
            self.state = PumpState::Terminated(PumpOutcome::Failure);
            PumpAction::Stop
        }
    }

    /// Reports that the feed closed; the pump terminates successfully.
    pub fn on_feed_closed(&mut self)
        requires
            old(self).state is Streaming,
        ensures
            final(self).state == PumpState::Terminated(PumpOutcome::Success),
    {
        self.state = PumpState::Terminated(PumpOutcome::Success);
    }
}

/// One full pass over a frame, with the append taken against the log model:
/// decode, classify, transform, append. Exactly the frames that decode to an
/// accepted content event carrying a tag container append one record, at the
/// tail of the log, and yield its fresh entry identifier; for every other
/// frame the log is left untouched. A rejected frame leaves the pump
/// streaming; an accepted event without a tag container terminates it.
pub fn process(pump: &mut Pump, log: &mut AppendLog, v: &JsonValue) -> (r: Option<u64>)
    requires
        old(pump).state is Streaming,
        old(log).next_id < u64::MAX,
    ensures
        !frame_accepted(*v) ==> r is None && *final(log) == *old(log) && final(pump).state
            is Streaming,
        frame_accepted(*v) && !has_entities(*v) ==> r is None && *final(log) == *old(log)
            && final(pump).state == PumpState::Terminated(PumpOutcome::Failure),
        frame_accepted(*v) && has_entities(*v) ==> (r matches Some(id) && {
            &&& id == old(log).next_id
            &&& final(log).next_id == old(log).next_id + 1
            &&& final(log).entries@.len() == old(log).entries@.len() + 1
            &&& final(log).entries@.drop_last() == old(log).entries@
            &&& frame_record(*v, final(log).entries@.last())
            &&& final(pump).state is Streaming
        }),
{
    match pump.on_frame(v) {
        PumpAction::AwaitFrame => None,
        PumpAction::Append(rec) => {
            let id = log.append(rec);
            let _ = pump.on_append_result(true);
            proof {
                assert(log.entries@.drop_last() =~= old(log).entries@);
            }
            Some(id)
        },
        PumpAction::Stop => None,
    }
}

/// A frame whose decoded message the classifier rejects is never appended:
/// by `on_frame`'s contract the pump stays streaming and asks only for the
/// next frame. This covers every non-content frame and every content event
/// excluded by language or sensitivity, whatever its other fields.
pub proof fn lemma_rejected_frame_not_appended(v: JsonValue, m: StreamMessage)
    requires
        decodes_to(v, m),
        !spec_accept(m),
    ensures
        !frame_accepted(v),
{
}

/// An accepted content event whose tag container is absent entirely came
/// from a frame with `frame_accepted` true and `has_entities` false: by
/// `on_frame`'s contract the pump terminates with failure and no append
/// occurs for it.
pub proof fn lemma_missing_container_fatal(v: JsonValue, m: StreamMessage)
    requires
        decodes_to(v, m),
        tweet_shape(v),
        !has_entities(v),
    ensures
        m matches StreamMessage::Tweet(t) ==> t.entities is None,
{
}

} // verus!

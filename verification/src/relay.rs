//! The event relay pipeline: for each decoded callback-request event,
//! resolve the target guest through the registry, obtain the output, and
//! build the callback batch entry.
//!
//! The surrounding loop owns the chain capabilities: it pulls decoded
//! events, one at a time and in delivery order, and submits each built
//! callback before pulling the next. A request that fails is dropped
//! with its error reported to the diagnostic stream; the loop then goes
//! on with the next event, so one bad request never stops the relay.

use vstd::prelude::*;

use crate::errors::RelayError;
use crate::exec::ExecEvent;
use crate::payload::{
    build_callback, callback_for, Callback, CallbackRequest, CallbackRequestView, CallbackView,
    request_wf,
};
use crate::registry::{resolve_guest_entry, some_entry_matches, ImageEntry};
use crate::text::hex_encode;
use crate::text::hex_encoded;

verus! {

/// Whether the registry resolves a request's content identifier (spelled
/// as its hexadecimal selector).
pub open spec fn request_resolvable(list: Seq<ImageEntry>, req: CallbackRequestView) -> bool {
    some_entry_matches(list, hex_encoded(req.image_id))
}

/// Processes one decoded event against the registry, with the local
/// execution's outcome supplied as a value: resolve the content
/// identifier, then turn the outcome into the callback batch entry owed
/// for the request, or into the error that drops the event.
pub fn relay_event_local(
    guest_list: &Vec<ImageEntry>,
    request: &CallbackRequest,
    outcome: &ExecEvent,
) -> (r: Result<Callback, RelayError>)
    requires
        request_wf(request@),
    ensures
        (r is Ok) <==> (request_resolvable(guest_list@, request@) && *outcome is Output),
        !request_resolvable(guest_list@, request@) ==> (r matches Err(e) && (e
            matches RelayError::UnknownImage { selector, known } && selector@ == hex_encoded(
            request@.image_id,
        ) && known@.len() == guest_list@.len())),
        r matches Ok(cb) ==> (outcome matches ExecEvent::Output { journal } && cb@ == callback_for(
            request@,
            journal@,
        )),
        r matches Err(e) ==> ((e is UnknownImage && !request_resolvable(guest_list@, request@)) || (
        e is ExecutionFailed && *outcome is Trap && request_resolvable(guest_list@, request@))),
{
    let selector = hex_encode(&request.image_id);
    match resolve_guest_entry(guest_list, &selector) {
        Err(e) => Err(e),
        Ok(_entry) => match outcome {
            ExecEvent::Trap => Err(RelayError::ExecutionFailed),
            ExecEvent::Output { journal } => Ok(build_callback(request, journal)),
        },
    }
}

/// One scripted relay iteration: a decoded request and the outcome its
/// local execution would have.
#[derive(Debug, Clone)]
pub struct ScriptedEvent {
    pub request: CallbackRequest,
    pub outcome: ExecEvent,
}

/// Whether a scripted event yields a callback: its request resolves and
/// its execution completes.
pub open spec fn event_succeeds(list: Seq<ImageEntry>, ev: ScriptedEvent) -> bool {
    request_resolvable(list, ev.request@) && ev.outcome is Output
}

/// The journal of a scripted event's execution outcome.
pub open spec fn event_journal(ev: ScriptedEvent) -> Seq<u8> {
    match ev.outcome {
        ExecEvent::Output { journal } => journal@,
        ExecEvent::Trap => Seq::empty(),
    }
}

/// The error owed for a scripted event that fails: a request that does
/// not resolve is dropped with `UnknownImage` carrying its selector; a
/// resolved request whose execution traps is dropped with
/// `ExecutionFailed`.
pub open spec fn error_for_event(list: Seq<ImageEntry>, ev: ScriptedEvent, err: RelayError) -> bool {
    if !request_resolvable(list, ev.request@) {
        err matches RelayError::UnknownImage { selector, known } && selector@ == hex_encoded(
            ev.request@.image_id,
        ) && known@.len() == list.len()
    } else {
        err is ExecutionFailed && ev.outcome is Trap
    }
}

/// The events of a script that fail, in delivery order.
pub open spec fn batch_failures(list: Seq<ImageEntry>, events: Seq<ScriptedEvent>) -> Seq<
    ScriptedEvent,
>
    decreases events.len(),
{
    if events.len() == 0 {
        Seq::empty()
    } else {
        let front = batch_failures(list, events.drop_last());
        let last = events.last();
        if event_succeeds(list, last) {
            front
        } else {
            front.push(last)
        }
    }
}

/// The callbacks owed for a script, in delivery order: one for each event
/// that resolves and executes, none for the others.
pub open spec fn batch_callbacks(list: Seq<ImageEntry>, events: Seq<ScriptedEvent>) -> Seq<
    CallbackView,
>
    decreases events.len(),
{
    if events.len() == 0 {
        Seq::empty()
    } else {
        let front = batch_callbacks(list, events.drop_last());
        let last = events.last();
        if event_succeeds(list, last) {
            front.push(callback_for(last.request@, event_journal(last)))
        } else {
            front
        }
    }
}

/// Drives the relay over a script of events, in order: each event that
/// resolves and executes contributes its callback, and each event that
/// fails contributes its error instead — the relay reports it and goes on
/// with the next event, so one bad request never stops the run.
pub fn relay_batch_local(guest_list: &Vec<ImageEntry>, events: &Vec<ScriptedEvent>) -> (r: (
    Vec<Callback>,
    Vec<RelayError>,
))
    requires
        forall|i: int| 0 <= i < events@.len() ==> request_wf(#[trigger] events@[i].request@),
    ensures
        r.0@.map_values(|c: Callback| c@) == batch_callbacks(guest_list@, events@),
        r.1@.len() == batch_failures(guest_list@, events@).len(),
        forall|k: int|
            0 <= k < r.1@.len() ==> error_for_event(
                guest_list@,
                batch_failures(guest_list@, events@)[k],
                #[trigger] r.1@[k],
            ),
{
    let mut out: Vec<Callback> = Vec::new();
    let mut errs: Vec<RelayError> = Vec::new();
    let mut i: usize = 0;
    proof {
        assert(events@.take(0) =~= Seq::<ScriptedEvent>::empty());
        assert(out@.map_values(|c: Callback| c@) =~= batch_callbacks(guest_list@, events@.take(0)));
    }
    while i < events.len()
        invariant
            i <= events@.len(),
            forall|k: int| 0 <= k < events@.len() ==> request_wf(#[trigger] events@[k].request@),
            out@.map_values(|c: Callback| c@) == batch_callbacks(guest_list@, events@.take(i as int)),
            errs@.len() == batch_failures(guest_list@, events@.take(i as int)).len(),
            forall|k: int|
                0 <= k < errs@.len() ==> error_for_event(
                    guest_list@,
                    batch_failures(guest_list@, events@.take(i as int))[k],
                    #[trigger] errs@[k],
                ),
        decreases events@.len() - i,
    {
        let ev = &events[i];
        match relay_event_local(guest_list, &ev.request, &ev.outcome) {
            Ok(cb) => {
                out.push(cb);
            },
            Err(dropped) => {
                errs.push(dropped);
            },
        }
        proof {
            let t1 = events@.take(i as int + 1);
            assert(t1.drop_last() =~= events@.take(i as int));
            assert(t1.last() == events@[i as int]);
            assert(out@.map_values(|c: Callback| c@) =~= batch_callbacks(guest_list@, t1));
        }
        i = i + 1;
    }
    proof {
        assert(events@.take(events@.len() as int) =~= events@);
    }
    (out, errs)
}

} // verus!

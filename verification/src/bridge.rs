//! The native bridge handle and the dispatch mechanism it relies on:
//! one-shot commands are marshalled to a named native handler, answered by
//! a correlated response, and completed into the caller's result.

use vstd::prelude::*;

use crate::channel::EventChannel;
use crate::error::Error;
use crate::models::NotificationRegistrationResult;
use crate::models::NotificationRegistrationStatus;
use crate::models::WatchNotificationResult;
use crate::wire::WireDoc;
use crate::wire::WireValue;
use crate::wire::decode_registration_result;
use crate::wire::decode_registration_status;
use crate::wire::decode_watch_result;
use crate::wire::spec_decode_registration_result;
use crate::wire::spec_decode_registration_status;
use crate::wire::spec_decode_watch_result;
use crate::wire::spec_lookup;

verus! {

/// What one native dispatch came back with.
#[derive(Clone, Debug, PartialEq, Eq)]
pub enum NativeResponse {
    /// The named handler ran and returned a structured payload.
    Completed(WireDoc),
    /// Dispatch failed: the handler was missing, the native side raised an
    /// exception, or the subsystem was not initialized.  Carries the
    /// diagnostic text.
    Failed(String),
}

/// The three one-shot operations the bridge dispatches.
#[derive(Clone, Copy, Debug, PartialEq, Eq, Structural)]
pub enum BridgeCommand {
    CheckRegistrationStatus,
    RegisterForRemoteNotifications,
    WatchNotifications,
}

/// The name under which the native layer knows each operation.
pub open spec fn spec_method_name(cmd: BridgeCommand) -> Seq<char> {
    match cmd {
        BridgeCommand::CheckRegistrationStatus => "checkRegistrationStatus"@,
        BridgeCommand::RegisterForRemoteNotifications => "registerForRemoteNotifications"@,
        BridgeCommand::WatchNotifications => "watchNotifications"@,
    }
}

/// Writes the native handler name of a command.
pub fn method_name(cmd: &BridgeCommand) -> (r: String)
    ensures
        r@ == spec_method_name(*cmd),
{
    match cmd {
        BridgeCommand::CheckRegistrationStatus => "checkRegistrationStatus".to_owned(),
        BridgeCommand::RegisterForRemoteNotifications => "registerForRemoteNotifications".to_owned(),
        BridgeCommand::WatchNotifications => "watchNotifications".to_owned(),
    }
}

/// One issued dispatch, waiting for the response that carries its id.
#[derive(Clone, Copy, Debug, PartialEq, Eq, Structural)]
pub struct PendingRequest {
    pub id: u64,
    pub command: BridgeCommand,
}

/// A response as the dispatch mechanism hands it back: the id of the
/// request it answers, plus the native outcome itself.
#[derive(Clone, Debug, PartialEq, Eq)]
pub struct ResponseEnvelope {
    pub request_id: u64,
    pub response: NativeResponse,
}

/// Issues the correlation ids that keep concurrent dispatches apart: every
/// request gets an id no earlier request ever carried.
#[derive(Debug)]
pub struct Dispatcher {
    pub next_id: u64,
}

impl Dispatcher {
    /// A fresh dispatcher, counting from zero.
    pub fn new() -> (r: Dispatcher)
        ensures
            r.next_id == 0,
    {
        Dispatcher { next_id: 0 }
    }

    /// Issues one dispatch: the request takes the current id and the
    /// counter moves past it, so no two requests ever share an id.
    pub fn begin(&mut self, command: BridgeCommand) -> (r: PendingRequest)
        requires
            old(self).next_id < u64::MAX,
        ensures
            r.id == old(self).next_id,
            r.command == command,
            final(self).next_id == old(self).next_id + 1,
    {
        let id = self.next_id;
        self.next_id = self.next_id + 1;
        PendingRequest { id, command }
    }
}

/// The index of the envelope answering `id` among `rs[i..]`, the first
/// occurrence winning.
pub open spec fn correlate_from(rs: Seq<ResponseEnvelope>, id: u64, i: int) -> Option<int>
    decreases rs.len() - i,
{
    if i < 0 || i >= rs.len() {
        None
    } else if rs[i].request_id == id {
        Some(i)
    } else {
        correlate_from(rs, id, i + 1)
    }
}

/// The index of the envelope that answers the request with id `id`.
pub open spec fn spec_correlate(rs: Seq<ResponseEnvelope>, id: u64) -> Option<int> {
    correlate_from(rs, id, 0)
}

/// A found envelope indeed answers the id it was looked up by.
proof fn lemma_correlate_found(rs: Seq<ResponseEnvelope>, id: u64, i: int)
    requires
        0 <= i <= rs.len(),
    ensures
        correlate_from(rs, id, i) matches Some(k) ==> i <= k < rs.len() && rs[k].request_id == id,
    decreases rs.len() - i,
{
    if i < rs.len() && rs[i].request_id != id {
        lemma_correlate_found(rs, id, i + 1);
    }
}

/// Picks the response correlated to `request` out of a batch, or reports
/// that none has arrived.
pub fn correlate(responses: &Vec<ResponseEnvelope>, request: &PendingRequest) -> (r: Option<usize>)
    ensures
        match r {
            Some(i) => spec_correlate(responses@, request.id) == Some(i as int) && i
                < responses@.len() && responses@[i as int].request_id == request.id,
            None => spec_correlate(responses@, request.id) is None,
        },
{
    let n = responses.len();
    let mut i: usize = 0;
    while i < n
        invariant
            i <= n,
            n == responses@.len(),
            spec_correlate(responses@, request.id) == correlate_from(
                responses@,
                request.id,
                i as int,
            ),
        decreases n - i,
    {
        if responses[i].request_id == request.id {
            return Some(i);
        }
        assert(correlate_from(responses@, request.id, i as int) == correlate_from(
            responses@,
            request.id,
            i as int + 1,
        ));
        i = i + 1;
    }
    None
}

/// Concurrent callers are never cross-delivered: whatever batch of
/// responses two requests with distinct ids are answered from, each
/// correlates only to an envelope carrying its own id, and the two never
/// correlate to the same envelope.
pub proof fn lemma_no_cross_delivery(rs: Seq<ResponseEnvelope>, id1: u64, id2: u64)
    requires
        id1 != id2,
    ensures
        spec_correlate(rs, id1) matches Some(i) ==> rs[i].request_id == id1,
        spec_correlate(rs, id2) matches Some(j) ==> rs[j].request_id == id2,
        spec_correlate(rs, id1) matches Some(i) ==> (spec_correlate(rs, id2) matches Some(j) ==> i
            != j),
{
    lemma_correlate_found(rs, id1, 0);
    lemma_correlate_found(rs, id2, 0);
}

/// The diagnostic of a response that could not be parsed.
pub open spec fn spec_parse_failure_message() -> Seq<char> {
    "native response did not match the expected shape"@
}

/// The bridge error raised when a native response cannot be parsed.
fn parse_failure() -> (r: Error)
    ensures
        r matches Error::Bridge(m) && m@ == spec_parse_failure_message(),
{
    Error::Bridge("native response did not match the expected shape".to_owned())
}

/// What completing a registration status dispatch yields for each native
/// response: a dispatch failure becomes a bridge error carrying the native
/// diagnostic, an unparseable payload becomes a parse bridge error, and a
/// well-formed payload becomes exactly the status it reports.
pub open spec fn spec_status_outcome(
    response: NativeResponse,
    r: Result<NotificationRegistrationStatus, Error>,
) -> bool {
    match response {
        NativeResponse::Failed(m) => r == Err::<NotificationRegistrationStatus, Error>(
            Error::Bridge(m),
        ),
        NativeResponse::Completed(doc) => match spec_decode_registration_status(doc) {
            Some(s) => r == Ok::<NotificationRegistrationStatus, Error>(s),
            None => r matches Err(e) && e matches Error::Bridge(m) && m@
                == spec_parse_failure_message(),
        },
    }
}

/// What completing a registration dispatch yields for each native
/// response; a failure means no registration result is ever returned.
pub open spec fn spec_register_outcome(
    response: NativeResponse,
    r: Result<NotificationRegistrationResult, Error>,
) -> bool {
    match response {
        NativeResponse::Failed(m) => r == Err::<NotificationRegistrationResult, Error>(
            Error::Bridge(m),
        ),
        NativeResponse::Completed(doc) => match spec_decode_registration_result(doc) {
            Some(s) => r == Ok::<NotificationRegistrationResult, Error>(s),
            None => r matches Err(e) && e matches Error::Bridge(m) && m@
                == spec_parse_failure_message(),
        },
    }
}

/// What completing a watch dispatch yields for each native response: the
/// acknowledgment is returned exactly as the native layer gave it, so the
/// caller sees success exactly once registration was acknowledged —
/// independent of whether any event is ever pushed.
pub open spec fn spec_watch_outcome(
    response: NativeResponse,
    r: Result<WatchNotificationResult, Error>,
) -> bool {
    match response {
        NativeResponse::Failed(m) => r == Err::<WatchNotificationResult, Error>(Error::Bridge(m)),
        NativeResponse::Completed(doc) => match spec_decode_watch_result(doc) {
            Some(w) => r == Ok::<WatchNotificationResult, Error>(w),
            None => r matches Err(e) && e matches Error::Bridge(m) && m@
                == spec_parse_failure_message(),
        },
    }
}

/// The bridge handle: the single owned connection to the platform
/// notification subsystem.  It holds no mutable state — every concurrent
/// command invocation shares it read-only — and translates the native
/// layer's responses to the three logical operations into results.
#[derive(Clone, Copy, Debug, PartialEq, Eq, Structural)]
pub struct Notifications {}

impl Notifications {
    /// Completes a registration status query from the native response to a
    /// `checkRegistrationStatus` dispatch.
    pub fn check_registration_status(&self, response: &NativeResponse) -> (r: Result<
        NotificationRegistrationStatus,
        Error,
    >)
        ensures
            spec_status_outcome(*response, r),
    {
        match response {
            NativeResponse::Failed(m) => Err(Error::Bridge(m.clone())),
            NativeResponse::Completed(doc) => match decode_registration_status(doc) {
                Some(s) => Ok(s),
                None => Err(parse_failure()),
            },
        }
    }

    /// Completes a registration attempt from the native response to a
    /// `registerForRemoteNotifications` dispatch.
    pub fn register_for_remote_notifications(&self, response: &NativeResponse) -> (r: Result<
        NotificationRegistrationResult,
        Error,
    >)
        ensures
            spec_register_outcome(*response, r),
    {
        match response {
            NativeResponse::Failed(m) => Err(Error::Bridge(m.clone())),
            NativeResponse::Completed(doc) => match decode_registration_result(doc) {
                Some(s) => Ok(s),
                None => Err(parse_failure()),
            },
        }
    }

    /// Completes a watch call from the native response to a
    /// `watchNotifications` dispatch.  The channel itself was handed to the
    /// native layer with the dispatch arguments; the acknowledgment says
    /// only that the channel is registered, not that any event was — or
    /// ever will be — delivered.
    pub fn watch_notifications(&self, response: &NativeResponse) -> (r: Result<
        WatchNotificationResult,
        Error,
    >)
        ensures
            spec_watch_outcome(*response, r),
    {
        match response {
            NativeResponse::Failed(m) => Err(Error::Bridge(m.clone())),
            NativeResponse::Completed(doc) => match decode_watch_result(doc) {
                Some(w) => Ok(w),
                None => Err(parse_failure()),
            },
        }
    }
}

/// The argument document a `watchNotifications` dispatch carries: the
/// channel's addressable identifier under the key `channel`.
pub fn watch_args(channel: &EventChannel) -> (r: WireDoc)
    ensures
        spec_lookup(r, "channel"@) == Some(WireValue::Number(channel.id)),
{
    let mut doc = WireDoc::new();
    doc.push_field("channel".to_owned(), WireValue::Number(channel.id));
    proof {
        assert(crate::wire::lookup_from(doc.fields@, "channel"@, 0) == Some(doc.fields@[0].1));
    }
    doc
}

} // verus!

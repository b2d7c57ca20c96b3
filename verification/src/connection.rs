//! The decisions of an IPC connection: the `Connect` handshake, the allocation of stream ids,
//! and the routing of incoming messages to the operations that wait for them. The socket, the
//! background read task and the channels live with the caller, which performs what these
//! functions decide.

use crate::error::Error;
use crate::eventstream::flags;
use crate::eventstream::message::{parse_rpc, RpcMessage, RpcModel};
use crate::eventstream::wire::{message_headers, message_payload};
use crate::eventstream::{message_type_name, MessageType};
use aws_smithy_types::event_stream::Message;
use std::collections::HashMap;
use vstd::prelude::*;

verus! {

broadcast use vstd::std_specs::hash::group_hash_axioms;

/// The service-model type that a service error reports: the message's `service-model-type`,
/// or `aws.greengrass#ServiceError` when it has none.
pub open spec fn service_error_model(rpc: RpcModel) -> Seq<char> {
    match rpc.service_model_type {
        Some(s) => s,
        None => "aws.greengrass#ServiceError"@,
    }
}

/// The message that a service error reports: the `message` read out of the error's JSON
/// payload, or `unknown service error` when there is none.
pub open spec fn service_error_text(message: Option<String>) -> Seq<char> {
    match message {
        Some(m) => m@,
        None => "unknown service error"@,
    }
}

/// `e` is the service error that the application-error message `rpc` reports, with `message`
/// read out of its payload.
pub open spec fn is_service_error_for(e: Error, rpc: RpcModel, message: Option<String>) -> bool {
    e matches Error::Service { model, message: m } && model@ == service_error_model(rpc)
        && m@ == service_error_text(message)
}

/// Builds the [`Error::Service`] that an application-error message reports, given the
/// `message` field of its JSON payload (`None` when the payload does not decode to an error
/// shape or has no message; decoding JSON into a shape is the caller's).
pub fn service_error_from(rpc: &RpcMessage, message: Option<String>) -> (e: Error)
    ensures
        is_service_error_for(e, rpc@, message),
{
    let model = match &rpc.service_model_type {
        Some(s) => s.clone(),
        None => "aws.greengrass#ServiceError".to_owned(),
    };
    let text = match message {
        Some(m) => m,
        None => "unknown service error".to_owned(),
    };
    Error::Service { model, message: text }
}

/// What an operation receives for a message on its stream.
pub enum Outcome {
    /// A reply or an event: the message itself.
    Message(RpcMessage),
    /// An application error: the operation failed with the service error this message reports
    /// (see [`service_error_from`]).
    ServiceError(RpcMessage),
}

/// `o` is what an operation receives for an incoming message with this RPC content: the
/// message itself, or, for an application error, the message as the service error it reports.
pub open spec fn outcome_for(rpc: RpcModel, o: Outcome) -> bool {
    if rpc.message_type == MessageType::ApplicationError {
        o matches Outcome::ServiceError(x) && x@ == rpc
    } else {
        o matches Outcome::Message(x) && x@ == rpc
    }
}

fn outcome(rpc: RpcMessage) -> (o: Outcome)
    ensures
        outcome_for(rpc@, o),
{
    if rpc.message_type == MessageType::ApplicationError {
        Outcome::ServiceError(rpc)
    } else {
        Outcome::Message(rpc)
    }
}

/// A sink waiting for messages on a given stream-id.
pub enum StreamSink<R, S> {
    /// A single request/response: resolved once with the first response (or error).
    Request(R),
    /// A subscription: each event is forwarded until the stream terminates.
    Subscription(S),
}

/// Whether a message ends the subscription it arrives on: it terminates the stream or reports
/// an error.
pub open spec fn closes_subscription(rpc: RpcModel) -> bool {
    rpc.flags & flags::TERMINATE_STREAM != 0 || rpc.message_type == MessageType::ApplicationError
}

/// How an incoming message is routed.
pub enum Route {
    /// Nobody receives it.
    Ignored,
    /// It resolves a request.
    Response,
    /// It is an event of a subscription that stays open.
    Event,
    /// It is the last message of a subscription.
    Last,
}

/// How a message is routed when these sinks are waiting.
pub open spec fn route_of<R, S>(m: Map<i32, StreamSink<R, S>>, rpc: RpcModel) -> Route {
    let id = rpc.stream_id;
    if id == 0 || !m.contains_key(id) {
        Route::Ignored
    } else {
        match m[id] {
            StreamSink::Request(_) => Route::Response,
            StreamSink::Subscription(_) => if closes_subscription(rpc) {
                Route::Last
            } else {
                Route::Event
            },
        }
    }
}

/// The sinks that still wait after a message is routed: a resolved request and a finished
/// subscription are removed, everything else stays.
pub open spec fn sinks_after<R, S>(m: Map<i32, StreamSink<R, S>>, rpc: RpcModel) -> Map<
    i32,
    StreamSink<R, S>,
> {
    match route_of(m, rpc) {
        Route::Response | Route::Last => m.remove(rpc.stream_id),
        Route::Ignored | Route::Event => m,
    }
}

/// What to do with an incoming message.
pub enum Delivery<R, S> {
    /// Nothing: a connection-level message (stream-id 0) or a stream that nobody waits on.
    Ignored,
    /// Resolve a request with this outcome; its sink has been removed.
    Response(R, Outcome),
    /// Forward this outcome to the subscription on this stream-id, which stays open.
    Event(i32, Outcome),
    /// Forward this last outcome to a subscription; its sink has been removed.
    Last(S, Outcome),
}

/// The registry of open streams of a connection: which sink waits on which stream-id, and the
/// stream-id that the next operation gets.
pub struct Registry<R, S> {
    sinks: HashMap<i32, StreamSink<R, S>>,
    next_stream_id: i32,
    closed: bool,
}

/// `d` is how a message with this RPC content is delivered when these sinks wait: nothing for
/// a message nobody waits on, the request's sink for a response, the stream-id for an event
/// of a subscription that stays open, the subscription's sink for its last message; each with
/// the outcome the message means.
pub open spec fn delivered_as<R, S>(m: Map<i32, StreamSink<R, S>>, rpc: RpcModel, d: Delivery<R, S>) -> bool {
    match route_of(m, rpc) {
        Route::Ignored => d is Ignored,
        Route::Response => d matches Delivery::Response(t, r) && m[rpc.stream_id]
            == StreamSink::<R, S>::Request(t) && outcome_for(rpc, r),
        Route::Event => d matches Delivery::Event(i, r) && i == rpc.stream_id && outcome_for(rpc, r),
        Route::Last => d matches Delivery::Last(t, r) && m[rpc.stream_id]
            == StreamSink::<R, S>::Subscription(t) && outcome_for(rpc, r),
    }
}

/// What the read side of a connection reports.
pub enum ReadEvent {
    /// A whole frame arrived.
    Frame(Message),
    /// The nucleus closed the connection.
    End,
    /// Reading failed (an I/O error or a malformed frame); the connection cannot go on.
    Failed,
}

/// What to do with what the read side reported.
pub enum ReadStep<R, S> {
    /// Perform this delivery.
    Deliver(Delivery<R, S>),
    /// The frame does not parse as an RPC message: skip it (after reporting this error); the
    /// connection stays usable.
    Skip(Error),
    /// The connection is over: every one of these sinks fails with `Error::ConnectionClosed`,
    /// and the read loop stops.
    Stop(HashMap<i32, StreamSink<R, S>>),
}

impl<R, S> Registry<R, S> {
    /// The sinks waiting, by stream-id.
    pub closed spec fn sinks(&self) -> Map<i32, StreamSink<R, S>> {
        self.sinks@
    }

    /// The stream-id that the next operation gets.
    pub closed spec fn next_id(&self) -> i32 {
        self.next_stream_id
    }

    /// Whether the connection is over: its read side has ended, and no new operation can get an
    /// answer any more.
    pub closed spec fn is_closed(&self) -> bool {
        self.closed
    }

    /// Whether the connection is over; callers refuse new operations with
    /// `Error::ConnectionClosed` then.
    pub fn closed(&self) -> (b: bool)
        ensures
            b == self.is_closed(),
    {
        self.closed
    }

    /// Every open stream has a positive id below the next one to hand out.
    pub open spec fn wf(&self) -> bool {
        &&& self.next_id() >= 1
        &&& forall|id: i32| #[trigger] self.sinks().contains_key(id) ==> 1 <= id < self.next_id()
    }

    /// A registry with no open streams; stream-ids are positive and start at 1.
    pub fn new() -> (r: Self)
        ensures
            r.sinks() == Map::<i32, StreamSink<R, S>>::empty(),
            r.next_id() == 1,
            r.wf(),
            !r.is_closed(),
    {
        Registry { sinks: HashMap::new(), next_stream_id: 1, closed: false }
    }

    fn alloc_stream_id(&mut self) -> (id: i32)
        ensures
            final(self).is_closed() == old(self).is_closed(),
            id == old(self).next_id(),
            final(self).next_id() == old(self).next_id().wrapping_add(1),
            final(self).sinks() == old(self).sinks(),
    {
        let id = self.next_stream_id;
        self.next_stream_id = self.next_stream_id.wrapping_add(1);
        id
    }

    /// Opens a request stream: allocates the next stream-id and registers the sink that will
    /// receive the single response.
    pub fn open_request(&mut self, sink: R) -> (id: i32)
        ensures
            final(self).is_closed() == old(self).is_closed(),
            id == old(self).next_id(),
            final(self).next_id() == old(self).next_id().wrapping_add(1),
            final(self).sinks() == old(self).sinks().insert(id, StreamSink::Request(sink)),
            old(self).wf() && old(self).next_id() < i32::MAX ==> id > 0 && !old(
                self,
            ).sinks().contains_key(id) && final(self).wf(),
    {
        let id = self.alloc_stream_id();
        self.sinks.insert(id, StreamSink::Request(sink));
        id
    }

    /// Opens a subscription stream: allocates the next stream-id and registers the sink that
    /// will receive its messages.
    pub fn open_subscription(&mut self, sink: S) -> (id: i32)
        ensures
            final(self).is_closed() == old(self).is_closed(),
            id == old(self).next_id(),
            final(self).next_id() == old(self).next_id().wrapping_add(1),
            final(self).sinks() == old(self).sinks().insert(id, StreamSink::Subscription(sink)),
            old(self).wf() && old(self).next_id() < i32::MAX ==> id > 0 && !old(
                self,
            ).sinks().contains_key(id) && final(self).wf(),
    {
        let id = self.alloc_stream_id();
        self.sinks.insert(id, StreamSink::Subscription(sink));
        id
    }

    /// Closes a stream: removes and returns its sink, if it has one.
    pub fn close(&mut self, stream_id: i32) -> (r: Option<StreamSink<R, S>>)
        ensures
            final(self).is_closed() == old(self).is_closed(),
            final(self).sinks() == old(self).sinks().remove(stream_id),
            final(self).next_id() == old(self).next_id(),
            old(self).sinks().contains_key(stream_id) ==> r == Some(
                old(self).sinks()[stream_id],
            ),
            !old(self).sinks().contains_key(stream_id) ==> r is None,
            old(self).wf() ==> final(self).wf(),
    {
        let r = self.sinks.remove(&stream_id);
        assert forall|id: i32| #[trigger] self.sinks().contains_key(id) implies old(
            self,
        ).sinks().contains_key(id) by {}
        r
    }

    /// The sink of an open stream.
    pub fn sink(&self, stream_id: i32) -> (r: Option<&StreamSink<R, S>>)
        ensures
            self.sinks().contains_key(stream_id) ==> r == Some(&self.sinks()[stream_id]),
            !self.sinks().contains_key(stream_id) ==> r is None,
    {
        self.sinks.get(&stream_id)
    }

    /// Closes every stream and marks the connection over, handing back all the sinks that were
    /// waiting (used when the connection goes away, to fail them all).
    pub fn take_all(&mut self) -> (r: HashMap<i32, StreamSink<R, S>>)
        ensures
            final(self).is_closed(),
            r@ == old(self).sinks(),
            final(self).sinks() == Map::<i32, StreamSink<R, S>>::empty(),
            final(self).next_id() == old(self).next_id(),
            final(self).wf() == (old(self).next_id() >= 1),
    {
        let mut out: HashMap<i32, StreamSink<R, S>> = HashMap::new();
        std::mem::swap(&mut out, &mut self.sinks);
        self.closed = true;
        out
    }

    /// Routes an incoming message by its stream-id.
    ///
    /// Stream 0 carries connection-level messages (pings, protocol errors), which are ignored
    /// after the handshake, as are messages for streams nobody waits on. A request's sink gets
    /// the first message and is removed. A subscription's sink gets every message and stays
    /// open until a message terminates the stream or reports an error. An application error
    /// is delivered as a service error.
    pub fn dispatch(&mut self, rpc: RpcMessage) -> (d: Delivery<R, S>)
        ensures
            final(self).next_id() == old(self).next_id(),
            final(self).sinks() == sinks_after(old(self).sinks(), rpc@),
            old(self).wf() ==> final(self).wf(),
            final(self).is_closed() == old(self).is_closed(),
            delivered_as(old(self).sinks(), rpc@, d),
    {
        let stream_id = rpc.stream_id;
        if stream_id == 0 {
            return Delivery::Ignored;
        }
        let terminates = rpc.terminates_stream();
        let is_error = rpc.message_type == MessageType::ApplicationError;
        match self.sinks.remove(&stream_id) {
            Some(StreamSink::Request(tx)) => Delivery::Response(tx, outcome(rpc)),
            Some(StreamSink::Subscription(tx)) => {
                if !terminates && !is_error {
                    self.sinks.insert(stream_id, StreamSink::Subscription(tx));
                    proof {
                        assert(self.sinks@ =~= old(self).sinks());
                    }
                    Delivery::Event(stream_id, outcome(rpc))
                } else {
                    Delivery::Last(tx, outcome(rpc))
                }
            },
            None => Delivery::Ignored,
        }
    }

    /// Decides what the read loop does with what the read side reported: a frame that parses
    /// is routed as [`Registry::dispatch`] says; a frame that does not parse is skipped with
    /// its framing error and changes nothing; the end of input or a read failure closes every
    /// stream, hands back all the waiting sinks to be failed, and marks the connection over.
    pub fn on_read(&mut self, ev: ReadEvent) -> (step: ReadStep<R, S>)
        ensures
            final(self).next_id() == old(self).next_id(),
            old(self).wf() ==> final(self).wf(),
            match ev {
                ReadEvent::Frame(m) => match parse_rpc(message_headers(m), message_payload(m)) {
                    Ok(rpc) => (step matches ReadStep::Deliver(d) && delivered_as(
                        old(self).sinks(),
                        rpc,
                        d,
                    )) && final(self).sinks() == sinks_after(old(self).sinks(), rpc)
                        && final(self).is_closed() == old(self).is_closed(),
                    Err(msg) => (step matches ReadStep::Skip(e) && e matches Error::Frame(s)
                        && s@ == msg) && final(self).sinks() == old(self).sinks()
                        && final(self).is_closed() == old(self).is_closed(),
                },
                _ => (step matches ReadStep::Stop(all) && all@ == old(self).sinks())
                    && final(self).sinks() == Map::<i32, StreamSink<R, S>>::empty()
                    && final(self).is_closed(),
            },
    {
        match ev {
            ReadEvent::Frame(m) => match RpcMessage::parse(&m) {
                Ok(rpc) => ReadStep::Deliver(self.dispatch(rpc)),
                Err(e) => ReadStep::Skip(e),
            },
            _ => ReadStep::Stop(self.take_all()),
        }
    }
}

/// Stream-ids run 1, 2, 3, ...: take the ids that one registry hands out, in order, from
/// `Registry::new` on. Each `open_request` or `open_subscription` hands out the next id and
/// moves it on by one, and every other call leaves it as it is, so each id is the one before it
/// plus one. Then, for up to `i32::MAX` of them, the k-th id is k: all positive, pairwise
/// distinct, and increasing.
pub proof fn lemma_stream_ids_run(ids: Seq<i32>)
    requires
        ids.len() <= i32::MAX,
        ids.len() > 0 ==> ids[0] == 1,
        forall|j: int| 1 <= j < ids.len() ==> #[trigger] ids[j] == ids[j - 1].wrapping_add(1),
    ensures
        forall|j: int| 0 <= j < ids.len() ==> #[trigger] ids[j] == j + 1,
        forall|i: int, j: int| 0 <= i < j < ids.len() ==> 0 < #[trigger] ids[i] < #[trigger] ids[j],
    decreases ids.len(),
{
    if ids.len() > 0 {
        let init = ids.drop_last();
        assert forall|j: int| 1 <= j < init.len() implies #[trigger] init[j] == init[j - 1].wrapping_add(1) by {
            assert(init[j] == ids[j] && init[j - 1] == ids[j - 1]);
        }
        lemma_stream_ids_run(init);
        assert forall|j: int| 0 <= j < ids.len() implies #[trigger] ids[j] == j + 1 by {
            if j < init.len() {
                assert(init[j] == ids[j]);
            } else if j > 0 {
                assert(init[j - 1] == ids[j - 1]);
                assert(ids[j - 1] == j);
                assert(ids[j] == ids[j - 1].wrapping_add(1));
            }
        }
    }
}

/// A request is resolved at most once: after its response is routed, any further message on
/// its stream is ignored.
pub proof fn lemma_request_resolved_once<R, S>(
    m: Map<i32, StreamSink<R, S>>,
    first: RpcModel,
    second: RpcModel,
)
    requires
        route_of(m, first) == Route::Response,
        second.stream_id == first.stream_id,
    ensures
        route_of(sinks_after(m, first), second) == Route::Ignored,
{
}

/// A subscription stays open until a message terminates it or reports an error: routing any
/// other message on it leaves every sink in place.
pub proof fn lemma_subscription_stays_open<R, S>(m: Map<i32, StreamSink<R, S>>, rpc: RpcModel)
    requires
        rpc.stream_id != 0,
        m.contains_key(rpc.stream_id),
        m[rpc.stream_id] is Subscription,
        !closes_subscription(rpc),
    ensures
        route_of(m, rpc) == Route::Event,
        sinks_after(m, rpc) == m,
{
}

/// An application error ends the subscription it arrives on, whatever its flags.
pub proof fn lemma_error_closes_subscription<R, S>(m: Map<i32, StreamSink<R, S>>, rpc: RpcModel)
    requires
        rpc.stream_id != 0,
        m.contains_key(rpc.stream_id),
        m[rpc.stream_id] is Subscription,
        rpc.message_type == MessageType::ApplicationError,
    ensures
        route_of(m, rpc) == Route::Last,
        !sinks_after(m, rpc).contains_key(rpc.stream_id),
{
}

/// Routing a message only ever touches the sink of the message's own stream.
pub proof fn lemma_routing_is_local<R, S>(m: Map<i32, StreamSink<R, S>>, rpc: RpcModel, id: i32)
    requires
        id != rpc.stream_id,
    ensures
        sinks_after(m, rpc).contains_key(id) == m.contains_key(id),
        m.contains_key(id) ==> sinks_after(m, rpc)[id] == m[id],
{
}

/// Connection-level messages (stream-id 0) never reach an operation.
pub proof fn lemma_stream_zero_ignored<R, S>(m: Map<i32, StreamSink<R, S>>, rpc: RpcModel)
    requires
        rpc.stream_id == 0,
    ensures
        route_of(m, rpc) == Route::Ignored,
        sinks_after(m, rpc) == m,
{
}

/// Every application error reaches its operation as a service error, whatever its flags, and
/// every other message reaches it as itself; either way it carries the message unchanged.
pub proof fn lemma_outcome_follows_message_type(rpc: RpcModel, o: Outcome)
    requires
        outcome_for(rpc, o),
    ensures
        o is ServiceError <==> rpc.message_type == MessageType::ApplicationError,
        o is Message <==> rpc.message_type != MessageType::ApplicationError,
        match o {
            Outcome::Message(x) => x@ == rpc,
            Outcome::ServiceError(x) => x@ == rpc,
        },
{
}

/// Whatever routing delivers to an operation, a request's response, a subscription's event or
/// its last message, is a service error exactly when the message is an application error, and
/// carries the message unchanged.
pub proof fn lemma_delivered_outcome<R, S>(m: Map<i32, StreamSink<R, S>>, rpc: RpcModel, d: Delivery<R, S>)
    requires
        delivered_as(m, rpc, d),
    ensures
        match d {
            Delivery::Ignored => true,
            Delivery::Response(_, o) | Delivery::Event(_, o) | Delivery::Last(_, o) => {
                &&& (o is ServiceError <==> rpc.message_type == MessageType::ApplicationError)
                &&& match o {
                    Outcome::Message(x) => x@ == rpc,
                    Outcome::ServiceError(x) => x@ == rpc,
                }
            },
        },
{
}

/// The handshake error text when the nucleus rejects the connection.
pub open spec fn rejected_text() -> Seq<char> {
    "nucleus rejected the connection (invalid or expired SVCUID auth token)"@
}

/// What the handshake concludes from the first frame the nucleus sends back (`None` when the
/// connection closed first): it succeeds exactly when that frame is a `ConnectAck` with the
/// `CONNECTION_ACCEPTED` flag.
pub fn check_connect_ack(frame: Option<&Message>) -> (r: Result<(), Error>)
    ensures
        match frame {
            None => r matches Err(Error::Handshake(s)) && s@ == "connection closed during handshake"@,
            Some(m) => match parse_rpc(message_headers(*m), message_payload(*m)) {
                Err(msg) => r matches Err(Error::Frame(s)) && s@ == msg,
                Ok(ack) => if ack.message_type != MessageType::ConnectAck {
                    r matches Err(Error::Handshake(s)) && s@ == "expected ConnectAck, got "@
                        + message_type_name(ack.message_type)
                } else if ack.flags & flags::CONNECTION_ACCEPTED == 0 {
                    r matches Err(Error::Handshake(s)) && s@ == rejected_text()
                } else {
                    r is Ok
                },
            },
        },
{
    let frame = match frame {
        Some(m) => m,
        None => {
            return Err(Error::handshake("connection closed during handshake".to_owned()));
        },
    };
    let ack = RpcMessage::parse(frame)?;
    if ack.message_type != MessageType::ConnectAck {
        let mut s = "expected ConnectAck, got ".to_owned();
        s.append(ack.message_type.name());
        return Err(Error::handshake(s));
    }
    if !ack.connection_accepted() {
        return Err(
            Error::handshake(
                "nucleus rejected the connection (invalid or expired SVCUID auth token)".to_owned(),
            ),
        );
    }
    Ok(())
}

/// What opening a subscription concludes from its first message.
pub enum SubscriptionAck {
    /// The subscription stands; its events follow.
    Accepted,
    /// The service refused the subscription with this application-error message (see
    /// [`service_error_from`]).
    Refused(RpcMessage),
    /// The subscription failed with this error.
    Failed(Error),
}

/// What opening a subscription concludes from the first thing its sink receives (`None` when
/// the connection closed first): the subscription stands exactly when that is a message that
/// is not an application error. Unless it stands, the caller closes the stream.
pub fn check_subscription_ack(first: Option<Result<RpcMessage, Error>>) -> (r: SubscriptionAck)
    ensures
        match first {
            None => r matches SubscriptionAck::Failed(e) && e is ConnectionClosed,
            Some(Err(e)) => r == SubscriptionAck::Failed(e),
            Some(Ok(ack)) => if ack.message_type == MessageType::ApplicationError {
                r matches SubscriptionAck::Refused(x) && x@ == ack@
            } else {
                r is Accepted
            },
        },
{
    match first {
        Some(Ok(ack)) => {
            if ack.message_type == MessageType::ApplicationError {
                SubscriptionAck::Refused(ack)
            } else {
                SubscriptionAck::Accepted
            }
        },
        Some(Err(e)) => SubscriptionAck::Failed(e),
        None => SubscriptionAck::Failed(Error::ConnectionClosed),
    }
}

/// The JSON text to decode a response from: its payload, or `{}` when the payload is empty, so
/// that response types whose fields are all optional decode from an empty payload.
pub fn response_body(rpc: &RpcMessage) -> (b: Vec<u8>)
    ensures
        rpc.payload@.len() == 0 ==> b@ == seq![123u8, 125u8],
        rpc.payload@.len() > 0 ==> b@ == rpc.payload@,
{
    if rpc.payload.len() == 0 {
        let b: Vec<u8> = vec![123u8, 125u8];
        assert(b@ =~= seq![123u8, 125u8]);
        b
    } else {
        rpc.payload.clone()
    }
}

} // verus!

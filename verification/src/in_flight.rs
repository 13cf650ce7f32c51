//! The requests that are being handled, each with the signal that cancels
//! it.
//!
//! A request enters the table when its handling begins and leaves it when
//! its handling ends or when the client cancels it. Only a request that is
//! still in the table when its handling ends is answered.

use vstd::prelude::*;
use vstd::string::*;
use crate::assoc::{
    distinct, find, has_key, key_set, lemma_absent, lemma_position, lemma_put, lemma_remove,
    position, put, remove,
};
use crate::codec::{decode_client_message, decode_message, DecodeError, DecodeErrorView};
use crate::encode::refusal;
use crate::error::{Error, ErrorView, INVALID_REQUEST};
use crate::json::{Json, JsonView};
use crate::message::ServerResult;
use crate::request_id::{RequestId, RequestIdView};
use crate::rpc::{
    reply, respond, ClientMessage, ClientMessageView, ClientNotification, ClientNotificationView,
    ClientRequest, ClientRequestView, ServerResponse, ServerResponseView,
};

verus! {

/// The table of the requests in flight. `C` is the signal that cancels the
/// handling of a request; the crate stores it and hands it back when the
/// client cancels.
pub struct McpImpl<C> {
    cancel: Vec<(RequestId, C)>,
}

impl<C> View for McpImpl<C> {
    type V = Seq<(RequestIdView, C)>;

    closed spec fn view(&self) -> Seq<(RequestIdView, C)> {
        Seq::new(self.cancel.len() as nat, |i: int| (self.cancel[i].0@, self.cancel[i].1))
    }
}

/// The error for a request whose identifier is in flight already.
pub open spec fn duplicate_id() -> ErrorView {
    ErrorView { message: "duplicate request id"@, code: -32600 }
}

/// What is sent when the handling of `id` ends in `outcome`: the reply, if
/// the request is still in flight, and nothing if it was cancelled.
pub open spec fn completion<C>(
    table: Seq<(RequestIdView, C)>,
    id: RequestIdView,
    outcome: Result<ServerResult, Error>,
) -> ServerResponseView {
    if has_key(table, id) {
        reply(id, outcome)
    } else {
        ServerResponseView::Nothing
    }
}

/// The request that a cancellation names, if the notification is one.
pub open spec fn cancelled_id(notification: ClientNotificationView) -> Option<RequestIdView> {
    match notification {
        ClientNotificationView::Cancelled { request_id, .. } => Some(request_id),
        ClientNotificationView::Other { .. } => None,
    }
}

/// The table after a notification: without the request that it cancels.
pub open spec fn after_notification<C>(
    table: Seq<(RequestIdView, C)>,
    notification: ClientNotificationView,
) -> Seq<(RequestIdView, C)> {
    match cancelled_id(notification) {
        Some(id) => remove(table, id),
        None => table,
    }
}

/// The signal to fire for a notification: that of the request that it
/// cancels, if that request is in flight.
pub open spec fn signal_of<C>(
    table: Seq<(RequestIdView, C)>,
    notification: ClientNotificationView,
) -> Option<C> {
    match cancelled_id(notification) {
        Some(id) => find(table, id),
        None => None,
    }
}

/// What is to be done with a document that arrived.
pub enum Received<C> {
    /// It is a request, and it is in flight now: handle it, then end its
    /// handling with `complete`.
    Run(ClientRequest),
    /// It is a request that cannot be handled: send this answer.
    Reply(ServerResponse),
    /// It cancels a request in flight: fire this signal. Nothing is sent.
    Cancel(C),
    /// It is a notification that asks for nothing. Nothing is sent.
    Ignore,
    /// It is no message.
    Unreadable,
}

/// What a [`Received`] holds.
pub enum ReceivedView<C> {
    Run(ClientRequestView),
    Reply(ServerResponseView),
    Cancel(C),
    Ignore,
    Unreadable,
}

impl<C> View for Received<C> {
    type V = ReceivedView<C>;

    open spec fn view(&self) -> ReceivedView<C> {
        match self {
            Received::Run(r) => ReceivedView::Run(r@),
            Received::Reply(r) => ReceivedView::Reply(r@),
            Received::Cancel(c) => ReceivedView::Cancel(*c),
            Received::Ignore => ReceivedView::Ignore,
            Received::Unreadable => ReceivedView::Unreadable,
        }
    }
}

/// What is to be done with `document`, while the requests of `table` are
/// in flight. A request is handled unless its identifier is in flight
/// already; a request that cannot be read is refused under its
/// identifier; a cancellation fires the signal of its request, if that is
/// in flight; any other notification is ignored.
pub open spec fn received<C>(table: Seq<(RequestIdView, C)>, document: JsonView) -> ReceivedView<
    C,
> {
    match decode_message(document) {
        Err(DecodeErrorView::Malformed) => ReceivedView::Unreadable,
        Err(e) => ReceivedView::Reply(refusal(e)),
        Ok(ClientMessageView::Request(r)) => if has_key(table, r.id) {
            ReceivedView::Reply(
                ServerResponseView::Error {
                    json_rpc: "2.0"@,
                    id: r.id,
                    error: duplicate_id(),
                    data: None,
                },
            )
        } else {
            ReceivedView::Run(r)
        },
        Ok(ClientMessageView::Notification(n)) => match signal_of(table, n) {
            Some(signal) => ReceivedView::Cancel(signal),
            None => ReceivedView::Ignore,
        },
    }
}

/// The table after `document` arrived with `signal`: a request that is
/// handled enters it, a request that is cancelled leaves it.
pub open spec fn table_received<C>(
    table: Seq<(RequestIdView, C)>,
    document: JsonView,
    signal: C,
) -> Seq<(RequestIdView, C)> {
    match decode_message(document) {
        Ok(ClientMessageView::Request(r)) => if has_key(table, r.id) {
            table
        } else {
            table.push((r.id, signal))
        },
        Ok(ClientMessageView::Notification(n)) => after_notification(table, n),
        Err(_) => table,
    }
}

impl<C> McpImpl<C> {
    /// The table's invariant: no identifier occurs twice.
    pub open spec fn wf(&self) -> bool {
        distinct(self@)
    }

    /// The identifiers of the requests in flight.
    pub open spec fn ids(&self) -> Set<RequestIdView> {
        key_set(self@)
    }

    /// The table with no request in flight.
    pub fn new() -> (r: Self)
        ensures
            r.wf(),
            r@ == Seq::<(RequestIdView, C)>::empty(),
    {
        let r = McpImpl { cancel: Vec::new() };
        assert(r@ =~= Seq::empty());
        r
    }

    /// How many requests are in flight.
    pub fn len(&self) -> (n: usize)
        ensures
            n == self@.len(),
    {
        self.cancel.len()
    }

    fn index_of(&self, id: &RequestId) -> (r: Option<usize>)
        requires
            self.wf(),
        ensures
            match r {
                Some(i) => i < self@.len() && self@[i as int].0 == id@ && has_key(self@, id@)
                    && position(self@, id@) == i,
                None => !has_key(self@, id@),
            },
    {
        let mut i: usize = 0;
        while i < self.cancel.len()
            invariant
                0 <= i <= self.cancel.len(),
                distinct(self@),
                forall|k: int| 0 <= k < i ==> (#[trigger] self@[k]).0 != id@,
            decreases self.cancel.len() - i,
        {
            if self.cancel[i].0.same(id) {
                proof {
                    lemma_position(self@, id@, i as int);
                }
                return Some(i);
            }
            i += 1;
        }
        proof {
            lemma_absent(self@, id@);
        }
        None
    }

    /// Whether the request `id` is in flight.
    pub fn in_flight(&self, id: &RequestId) -> (r: bool)
        requires
            self.wf(),
        ensures
            r == self.ids().contains(id@),
    {
        self.index_of(id).is_some()
    }

    /// Takes the request `id` into the table with the signal that cancels
    /// it. An identifier that is in flight already is refused with the
    /// code -32600, and the table stays as it was.
    pub fn begin(&mut self, id: RequestId, signal: C) -> (r: Result<(), Error>)
        requires
            old(self).wf(),
        ensures
            final(self).wf(),
            match r {
                Ok(_) => !old(self).ids().contains(id@) && final(self)@ == old(self)@.push(
                    (id@, signal),
                ) && final(self).ids() == old(self).ids().insert(id@),
                Err(e) => old(self).ids().contains(id@) && e@ == duplicate_id() && final(self)@
                    == old(self)@,
            },
    {
        match self.index_of(&id) {
            Some(_) => Err(
                Error { message: "duplicate request id".to_owned(), code: INVALID_REQUEST },
            ),
            None => {
                proof {
                    lemma_put(self@, id@, signal);
                }
                let ghost before = self@;
                self.cancel.push((id, signal));
                assert(self@ =~= before.push((id@, signal)));
                Ok(())
            },
        }
    }

    /// Takes a request that arrived into the table, under its own
    /// identifier. A request that cannot be taken is answered at once with
    /// the error.
    pub fn accept(&mut self, request: &ClientRequest, signal: C) -> (r: Result<(), ServerResponse>)
        requires
            old(self).wf(),
        ensures
            final(self).wf(),
            match r {
                Ok(_) => !old(self).ids().contains(request@.id) && final(self)@ == old(
                    self,
                )@.push((request@.id, signal)) && final(self).ids() == old(self).ids().insert(
                    request@.id,
                ),
                Err(response) => old(self).ids().contains(request@.id) && final(self)@ == old(
                    self,
                )@ && response@ == (ServerResponseView::Error {
                    json_rpc: "2.0"@,
                    id: request@.id,
                    error: duplicate_id(),
                    data: None,
                }),
            },
    {
        match self.begin(request.id.clone(), signal) {
            Ok(_) => Ok(()),
            Err(e) => Err(respond(request.id.clone(), Err(e))),
        }
    }

    /// Takes the request `id` out of the table and returns its signal.
    fn take(&mut self, id: &RequestId) -> (r: Option<C>)
        requires
            old(self).wf(),
        ensures
            final(self).wf(),
            r == find(old(self)@, id@),
            final(self)@ == remove(old(self)@, id@),
            final(self).ids() == old(self).ids().remove(id@),
    {
        proof {
            lemma_remove(self@, id@);
        }
        match self.index_of(id) {
            Some(i) => {
                let ghost before = self@;
                let entry = self.cancel.remove(i);
                assert(self@ =~= before.remove(i as int));
                Some(entry.1)
            },
            None => None,
        }
    }

    /// Ends the handling of the request `id` with `outcome`. A request
    /// that is still in flight leaves the table and gets its reply, under
    /// its own identifier. A request that was cancelled gets nothing.
    pub fn complete(&mut self, id: RequestId, outcome: Result<ServerResult, Error>) -> (r:
        ServerResponse)
        requires
            old(self).wf(),
        ensures
            final(self).wf(),
            r@ == completion(old(self)@, id@, outcome),
            final(self)@ == remove(old(self)@, id@),
            final(self).ids() == old(self).ids().remove(id@),
    {
        match self.take(&id) {
            Some(_) => respond(id, outcome),
            None => ServerResponse::Nothing,
        }
    }

    /// Cancels the request `id`: it leaves the table, and its signal comes
    /// back to be fired. A request that is not in flight, as it may have
    /// ended a moment ago, changes nothing and is no error.
    pub fn cancel(&mut self, id: &RequestId) -> (r: Option<C>)
        requires
            old(self).wf(),
        ensures
            final(self).wf(),
            r == find(old(self)@, id@),
            final(self)@ == remove(old(self)@, id@),
            final(self).ids() == old(self).ids().remove(id@),
    {
        self.take(id)
    }

    /// Handles a notification of the client. A cancellation cancels the
    /// request that it names; any other notification changes nothing.
    /// Returns the signal to fire, if there is one.
    pub fn notify(&mut self, notification: &ClientNotification) -> (r: Option<C>)
        requires
            old(self).wf(),
        ensures
            final(self).wf(),
            r == signal_of(old(self)@, notification@),
            final(self)@ == after_notification(old(self)@, notification@),
    {
        match notification {
            ClientNotification::Cancelled { request_id, .. } => self.cancel(request_id),
            ClientNotification::Other { .. } => None,
        }
    }
}

impl<C> McpImpl<C> {
    /// Takes a document that arrived, with the signal that would cancel
    /// its handling, and says what is to be done with it.
    pub fn receive(&mut self, document: &Json, signal: C) -> (r: Received<C>)
        requires
            old(self).wf(),
        ensures
            final(self).wf(),
            r@ == received(old(self)@, document@),
            final(self)@ == table_received(old(self)@, document@, signal),
    {
        match decode_client_message(document) {
            Err(DecodeError::Malformed) => Received::Unreadable,
            Err(e) => Received::Reply(e.response()),
            Ok(ClientMessage::Request(request)) => match self.accept(&request, signal) {
                Ok(_) => Received::Run(request),
                Err(refusal) => Received::Reply(refusal),
            },
            Ok(ClientMessage::Notification(notification)) => match self.notify(&notification) {
                Some(signal) => Received::Cancel(signal),
                None => Received::Ignore,
            },
        }
    }
}

impl<C> Default for McpImpl<C> {
    fn default() -> (r: Self)
        ensures
            r.wf(),
            r@ == Seq::<(RequestIdView, C)>::empty(),
    {
        McpImpl::new()
    }
}

/// A request that is taken into the table and not cancelled is answered
/// exactly once: when its handling ends it gets its reply, under its own
/// identifier, and once it has ended nothing more is sent for it.
pub proof fn lemma_one_response<C>(
    table: Seq<(RequestIdView, C)>,
    id: RequestIdView,
    signal: C,
    outcome: Result<ServerResult, Error>,
    again: Result<ServerResult, Error>,
)
    requires
        distinct(table),
        !has_key(table, id),
    ensures
        completion(table.push((id, signal)), id, outcome) == reply(id, outcome),
        reply(id, outcome) is Response || reply(id, outcome) is Error,
        reply(id, outcome) is Response ==> reply(id, outcome)->Response_id == id,
        reply(id, outcome) is Error ==> reply(id, outcome)->Error_id == id,
        completion(remove(table.push((id, signal)), id), id, again) == ServerResponseView::Nothing,
{
    lemma_put(table, id, signal);
    assert(put(table, id, signal) == table.push((id, signal)));
    lemma_remove(table.push((id, signal)), id);
}

/// A request that was cancelled is never answered: whatever its handling
/// would end in, nothing is sent.
pub proof fn lemma_cancelled_silent<C>(
    table: Seq<(RequestIdView, C)>,
    id: RequestIdView,
    outcome: Result<ServerResult, Error>,
)
    requires
        distinct(table),
    ensures
        completion(remove(table, id), id, outcome) == ServerResponseView::Nothing,
{
    lemma_remove(table, id);
}

/// The requests in flight are those that were taken in and have neither
/// ended nor been cancelled: taking one in adds its identifier, ending or
/// cancelling one takes its identifier away, and no other identifier
/// comes or goes.
pub proof fn lemma_in_flight<C>(table: Seq<(RequestIdView, C)>, id: RequestIdView, signal: C)
    requires
        distinct(table),
    ensures
        !has_key(table, id) ==> key_set(table.push((id, signal))) == key_set(table).insert(id),
        key_set(remove(table, id)) == key_set(table).remove(id),
        distinct(remove(table, id)),
        !has_key(table, id) ==> distinct(table.push((id, signal))),
{
    lemma_put(table, id, signal);
    lemma_remove(table, id);
    if !has_key(table, id) {
        assert(put(table, id, signal) == table.push((id, signal)));
    }
}

} // verus!

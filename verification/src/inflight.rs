//! The table of requests that were sent and not yet answered.

use std::collections::HashMap;
use vstd::prelude::*;
use crate::errors::TaskSendError;
use crate::ids::RequestId;
use crate::message::Response;

verus! {

/// What is handed to the caller that waits for an answer: the slot it waits
/// on, and what to put there.
#[derive(Debug, PartialEq)]
pub struct Delivery<S> {
    pub slot: S,
    pub result: Result<Response, TaskSendError>,
}

/// The requests in flight: for each identifier the slot of the caller that
/// waits for the answer.
pub struct InFlightRequests<S> {
    outstanding_reqs: HashMap<u64, S>,
}

impl<S> View for InFlightRequests<S> {
    type V = Map<u64, S>;

    closed spec fn view(&self) -> Map<u64, S> {
        self.outstanding_reqs@
    }
}

impl<S> InFlightRequests<S> {
    /// A table with nothing in flight.
    pub fn new() -> (table: Self)
        ensures
            table@ == Map::<u64, S>::empty(),
    {
        InFlightRequests { outstanding_reqs: HashMap::new() }
    }

    /// Whether a request with this identifier is in flight.
    pub fn contains(&self, id: RequestId) -> (found: bool)
        ensures
            found == self@.contains_key(id.0),
    {
        self.outstanding_reqs.contains_key(&id.0)
    }

    /// The number of requests in flight.
    pub fn len(&self) -> (n: usize)
        ensures
            n == self@.len(),
    {
        self.outstanding_reqs.len()
    }

    /// Records that the request `id` was sent and that `response_sender`
    /// waits for its answer. No request with that identifier may be in
    /// flight.
    pub fn record_send(&mut self, id: RequestId, response_sender: S)
        requires
            !old(self)@.contains_key(id.0),
        ensures
            final(self)@ == old(self)@.insert(id.0, response_sender),
    {
        let _prev = self.outstanding_reqs.insert(id.0, response_sender);
    }

    /// Ends the wait for the answer to `id`: the entry leaves the table and
    /// comes back with `result`, for the caller to be told. Where no such
    /// request is in flight, nothing changes and nothing is to be delivered.
    pub fn finish_send(&mut self, id: RequestId, result: Result<Response, TaskSendError>) -> (d:
        Option<Delivery<S>>)
        ensures
            final(self)@ == old(self)@.remove(id.0),
            match d {
                Some(d) => old(self)@.contains_key(id.0) && d.slot == old(self)@[id.0] && d.result
                    == result,
                None => !old(self)@.contains_key(id.0),
            },
    {
        match self.outstanding_reqs.remove(&id.0) {
            Some(sender) => Some(Delivery { slot: sender, result }),
            None => {
                assert(self@ =~= old(self)@.remove(id.0));
                None
            },
        }
    }
}

} // verus!

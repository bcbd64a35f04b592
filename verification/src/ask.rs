//! The exchanges that the library asks its caller to perform.

use vstd::prelude::*;
use crate::endpoint::{EndpointView, SensuEndpoint};
use crate::payload::{PayloadView, SensuPayload};

verus! {

/// The method of a request.
#[derive(Clone, Copy, Debug, PartialEq, Eq, Structural)]
pub enum Method {
    Get,
    Post,
}

/// One exchange with the monitoring API that is to be performed.
#[derive(Debug, PartialEq, Eq)]
pub struct Ask {
    pub method: Method,
    pub endpoint: SensuEndpoint,
    pub body: Option<SensuPayload>,
}

/// The mathematical model of an [`Ask`].
pub struct AskView {
    pub method: Method,
    pub endpoint: EndpointView,
    pub body: Option<PayloadView>,
}

impl View for Ask {
    type V = AskView;

    open spec fn view(&self) -> AskView {
        AskView {
            method: self.method,
            endpoint: self.endpoint@,
            body: match self.body {
                Some(p) => Some(p@),
                None => None,
            },
        }
    }
}

impl AskView {
    /// The request for the list of all registered clients.
    pub open spec fn clients() -> AskView {
        AskView { method: Method::Get, endpoint: EndpointView::Clients, body: None }
    }

    /// The request for the client named `name`.
    pub open spec fn client(name: Seq<char>) -> AskView {
        AskView { method: Method::Get, endpoint: EndpointView::Client(name), body: None }
    }

    /// The request for the list of check results.
    pub open spec fn results() -> AskView {
        AskView { method: Method::Get, endpoint: EndpointView::Results, body: None }
    }

    /// The request for the list of silenced entries.
    pub open spec fn silenced() -> AskView {
        AskView { method: Method::Get, endpoint: EndpointView::Silenced, body: None }
    }
}

impl Ask {
    /// The request for the list of all registered clients.
    pub fn clients() -> (ask: Ask)
        ensures
            ask@ == AskView::clients(),
    {
        Ask { method: Method::Get, endpoint: SensuEndpoint::Clients, body: None }
    }

    /// The request for the client named `name`.
    pub fn client(name: &String) -> (ask: Ask)
        ensures
            ask@ == AskView::client(name@),
    {
        Ask { method: Method::Get, endpoint: SensuEndpoint::Client(name.clone()), body: None }
    }

    /// The request for the list of check results.
    pub fn results() -> (ask: Ask)
        ensures
            ask@ == AskView::results(),
    {
        Ask { method: Method::Get, endpoint: SensuEndpoint::Results, body: None }
    }

    /// The request for the list of silenced entries.
    pub fn silenced() -> (ask: Ask)
        ensures
            ask@ == AskView::silenced(),
    {
        Ask { method: Method::Get, endpoint: SensuEndpoint::Silenced, body: None }
    }
}

} // verus!

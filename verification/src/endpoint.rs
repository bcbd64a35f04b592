//! The endpoints of the monitoring API.

use vstd::prelude::*;

verus! {

/// An endpoint of the monitoring API.
#[derive(Debug, PartialEq, Eq)]
pub enum SensuEndpoint {
    /// The list of all registered clients.
    Clients,
    /// One client, by name.
    Client(String),
    /// The list of check results.
    Results,
    /// The silenced entries: listed by GET, created by POST.
    Silenced,
    /// Removal of silenced entries.
    Clear,
}

/// The mathematical model of a [`SensuEndpoint`].
pub enum EndpointView {
    Clients,
    Client(Seq<char>),
    Results,
    Silenced,
    Clear,
}

impl View for SensuEndpoint {
    type V = EndpointView;

    open spec fn view(&self) -> EndpointView {
        match self {
            SensuEndpoint::Clients => EndpointView::Clients,
            SensuEndpoint::Client(name) => EndpointView::Client(name@),
            SensuEndpoint::Results => EndpointView::Results,
            SensuEndpoint::Silenced => EndpointView::Silenced,
            SensuEndpoint::Clear => EndpointView::Clear,
        }
    }
}

impl EndpointView {
    /// The origin-form URI of the endpoint.
    pub open spec fn path(self) -> Seq<char> {
        match self {
            EndpointView::Clients => "/clients"@,
            EndpointView::Client(name) => "/clients/"@ + name,
            EndpointView::Results => "/results"@,
            EndpointView::Silenced => "/silenced"@,
            EndpointView::Clear => "/silenced/clear"@,
        }
    }
}

impl SensuEndpoint {
    /// The origin-form URI of the endpoint.
    pub fn path(&self) -> (s: String)
        ensures
            s@ == self@.path(),
    {
        match self {
            SensuEndpoint::Clients => String::from_str("/clients"),
            SensuEndpoint::Client(name) => String::from_str("/clients/").concat(name.as_str()),
            SensuEndpoint::Results => String::from_str("/results"),
            SensuEndpoint::Silenced => String::from_str("/silenced"),
            SensuEndpoint::Clear => String::from_str("/silenced/clear"),
        }
    }
}

} // verus!

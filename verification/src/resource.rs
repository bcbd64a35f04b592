//! Monitoring resources: the validated targets of a silence.

use vstd::prelude::*;

verus! {

/// A validated target in the monitoring service.
#[derive(Debug, PartialEq, Eq)]
pub enum SensuResource {
    /// One monitoring client, by its name.
    Client(String),
    /// Every client that holds a subscription, by the subscription's name.
    Subscription(String),
}

/// The mathematical model of a [`SensuResource`].
pub enum ResourceView {
    Client(Seq<char>),
    Subscription(Seq<char>),
}

impl View for SensuResource {
    type V = ResourceView;

    open spec fn view(&self) -> ResourceView {
        match self {
            SensuResource::Client(name) => ResourceView::Client(name@),
            SensuResource::Subscription(name) => ResourceView::Subscription(name@),
        }
    }
}

impl ResourceView {
    /// The name that the resource was resolved from.
    pub open spec fn name(self) -> Seq<char> {
        match self {
            ResourceView::Client(name) => name,
            ResourceView::Subscription(name) => name,
        }
    }

    /// The identifier that stands for the resource in a request: a client is
    /// written `client:` and its name, a subscription is written as its name.
    pub open spec fn text(self) -> Seq<char> {
        match self {
            ResourceView::Client(name) => "client:"@ + name,
            ResourceView::Subscription(name) => name,
        }
    }
}

/// The models of the resources in `v`, in order.
pub open spec fn resource_views(v: Seq<SensuResource>) -> Seq<ResourceView> {
    Seq::new(v.len(), |i: int| v[i]@)
}

impl SensuResource {
    /// The name that the resource was resolved from.
    pub fn name(&self) -> (s: &String)
        ensures
            s@ == self@.name(),
    {
        match self {
            SensuResource::Client(name) => name,
            SensuResource::Subscription(name) => name,
        }
    }

    /// The identifier that stands for the resource in a request.
    pub fn text(&self) -> (s: String)
        ensures
            s@ == self@.text(),
    {
        match self {
            SensuResource::Client(name) => String::from_str("client:").concat(name.as_str()),
            SensuResource::Subscription(name) => name.clone(),
        }
    }
}

} // verus!

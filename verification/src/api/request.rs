//! The requests that the service answers, and the query that each is sent
//! with.

use super::helper_types::{texts, AgencyId, Identifier, Location, RouteId, StopId};
use crate::text::comma_joined;
use vstd::prelude::*;
use vstd::string::*;

verus! {

/// The host that serves the transit data.
pub const API_URL: &'static str = "transloc-api-1-2.p.rapidapi.com";

/// One request to the service, with the filters that narrow its answer.
///
/// Every request carries a geographic filter. It is accepted and never
/// written into the query.
#[derive(Debug, Clone)]
#[allow(inconsistent_fields)]
pub enum EndpointRequest {
    Vehicles { agencies: Option<Vec<AgencyId>>, geo_area: Option<Location> },
    Stops { agencies: Vec<AgencyId>, geo_area: Option<Location> },
    Segments { agencies: Vec<AgencyId>, geo_area: Option<Location>, routes: Option<Vec<RouteId>> },
    Routes { agencies: Vec<AgencyId>, geo_area: Option<Location> },
    ArrivalEstimates { agencies: Vec<AgencyId>, stops: Vec<StopId>, geo_area: Option<Location> },
    Agencies { agencies: Option<Vec<AgencyId>>, geo_area: Option<Location> },
}

/// The texts of a list of identifiers that may be absent. An absent list
/// counts as an empty one.
pub open spec fn optional_texts<T: Identifier>(ids: Option<Vec<T>>) -> Seq<Seq<char>> {
    match ids {
        Some(ids) => texts(ids@),
        None => Seq::empty(),
    }
}

/// The parameter that a filter adds to a query: none when the filter names
/// nothing, else its key with the identifiers joined by commas.
pub open spec fn filter_parameter(key: Seq<char>, ids: Seq<Seq<char>>) -> Seq<
    (Seq<char>, Seq<char>),
> {
    if ids.len() == 0 {
        Seq::empty()
    } else {
        seq![(key, comma_joined(ids))]
    }
}

/// The keys and values of a list of parameters, each as a text.
pub open spec fn parameter_texts(query: Seq<(String, String)>) -> Seq<(Seq<char>, Seq<char>)> {
    Seq::new(query.len(), |i: int| (query[i].0@, query[i].1@))
}

/// Joins the texts of `ids` with commas.
pub fn join_ids<T: Identifier>(ids: &Vec<T>) -> (s: String)
    ensures
        s@ == comma_joined(texts(ids@)),
{
    let mut s = String::new();
    let mut i: usize = 0;
    while i < ids.len()
        invariant
            i <= ids.len(),
            s@ == comma_joined(texts(ids@).take(i as int)),
        decreases ids.len() - i,
    {
        proof {
            reveal_strlit(",");
            let upto = texts(ids@).take(i as int + 1);
            assert(upto.drop_last() =~= texts(ids@).take(i as int));
            assert(upto.last() == ids@[i as int].text());
        }
        if i != 0 {
            s.append(",");
        }
        s.append(ids[i].as_text());
        i += 1;
        assert(s@ =~= comma_joined(texts(ids@).take(i as int)));
    }
    assert(texts(ids@).take(i as int) =~= texts(ids@));
    s
}

fn push_filter<T: Identifier>(query: &mut Vec<(String, String)>, key: &str, ids: &Vec<T>)
    ensures
        parameter_texts(final(query)@) == parameter_texts(old(query)@) + filter_parameter(
            key@,
            texts(ids@),
        ),
        forall|i: int| 0 <= i < old(query)@.len() ==> final(query)@[i] == old(query)@[i],
{
    if ids.len() != 0 {
        let joined = join_ids(ids);
        query.push((String::from_str(key), joined));
    }
    assert(parameter_texts(query@) =~= parameter_texts(old(query)@) + filter_parameter(
        key@,
        texts(ids@),
    ));
}

impl EndpointRequest {
    /// The resource that answers the request. Nothing but the kind of the
    /// request decides it.
    pub open spec fn spec_target(self) -> Seq<char> {
        match self {
            EndpointRequest::Vehicles { .. } => "vehicles.json"@,
            EndpointRequest::Stops { .. } => "stops.json"@,
            EndpointRequest::Segments { .. } => "segments.json"@,
            EndpointRequest::Routes { .. } => "routes.json"@,
            EndpointRequest::ArrivalEstimates { .. } => "arrival-estimates.json"@,
            EndpointRequest::Agencies { .. } => "agencies.json"@,
        }
    }

    /// The agencies that the request is narrowed to.
    pub open spec fn agency_filter(self) -> Seq<Seq<char>> {
        match self {
            EndpointRequest::Vehicles { agencies, .. } => optional_texts(agencies),
            EndpointRequest::Stops { agencies, .. } => texts(agencies@),
            EndpointRequest::Segments { agencies, .. } => texts(agencies@),
            EndpointRequest::Routes { agencies, .. } => texts(agencies@),
            EndpointRequest::ArrivalEstimates { agencies, .. } => texts(agencies@),
            EndpointRequest::Agencies { agencies, .. } => optional_texts(agencies),
        }
    }

    /// The routes that the request is narrowed to. Only a request for
    /// segments has any.
    pub open spec fn route_filter(self) -> Seq<Seq<char>> {
        match self {
            EndpointRequest::Segments { routes, .. } => optional_texts(routes),
            _ => Seq::empty(),
        }
    }

    /// The stops that the request is narrowed to. Only a request for
    /// arrival estimates has any.
    pub open spec fn stop_filter(self) -> Seq<Seq<char>> {
        match self {
            EndpointRequest::ArrivalEstimates { stops, .. } => texts(stops@),
            _ => Seq::empty(),
        }
    }

    /// The parameters that the filters of the request add to a query: the
    /// agencies, then the routes, then the stops, each only where it names
    /// at least one identifier.
    pub open spec fn spec_query(self) -> Seq<(Seq<char>, Seq<char>)> {
        filter_parameter("agencies"@, self.agency_filter()) + filter_parameter(
            "routes"@,
            self.route_filter(),
        ) + filter_parameter("stops"@, self.stop_filter())
    }

    /// The address of the resource that answers the request.
    pub open spec fn spec_url(self) -> Seq<char> {
        "https://"@ + API_URL@ + "/"@ + self.spec_target()
    }

    /// The resource that answers the request.
    pub fn target(&self) -> (path: &'static str)
        ensures
            path@ == self.spec_target(),
    {
        match self {
            EndpointRequest::Vehicles { .. } => "vehicles.json",
            EndpointRequest::Stops { .. } => "stops.json",
            EndpointRequest::Segments { .. } => "segments.json",
            EndpointRequest::Routes { .. } => "routes.json",
            EndpointRequest::ArrivalEstimates { .. } => "arrival-estimates.json",
            EndpointRequest::Agencies { .. } => "agencies.json",
        }
    }

    /// The address of the resource that answers the request.
    pub fn to_url(&self) -> (url: String)
        ensures
            url@ == self.spec_url(),
    {
        let mut url = String::from_str("https://");
        url.append(API_URL);
        url.append("/");
        url.append(self.target());
        url
    }

    /// Appends to `query` the parameters that the filters of the request
    /// add. What `query` held before stays in front, unchanged.
    pub fn fill_query(&self, query: &mut Vec<(String, String)>)
        ensures
            parameter_texts(final(query)@) == parameter_texts(old(query)@) + self.spec_query(),
            forall|i: int| 0 <= i < old(query)@.len() ==> final(query)@[i] == old(query)@[i],
    {
        match self {
            EndpointRequest::Vehicles { agencies, .. } => {
                if let Some(agencies) = agencies {
                    push_filter(query, "agencies", agencies);
                }
            },
            EndpointRequest::Stops { agencies, .. } => {
                push_filter(query, "agencies", agencies);
            },
            EndpointRequest::Segments { agencies, routes, .. } => {
                push_filter(query, "agencies", agencies);
                if let Some(routes) = routes {
                    push_filter(query, "routes", routes);
                }
            },
            EndpointRequest::Routes { agencies, .. } => {
                push_filter(query, "agencies", agencies);
            },
            EndpointRequest::ArrivalEstimates { agencies, stops, .. } => {
                push_filter(query, "agencies", agencies);
                push_filter(query, "stops", stops);
            },
            EndpointRequest::Agencies { agencies, .. } => {
                if let Some(agencies) = agencies {
                    push_filter(query, "agencies", agencies);
                }
            },
        }
        assert(parameter_texts(query@) =~= parameter_texts(old(query)@) + self.spec_query());
    }

    /// The whole query that the request is sent with: the format of the
    /// answer, then what the filters add.
    pub fn query(&self) -> (query: Vec<(String, String)>)
        ensures
            parameter_texts(query@) == seq![("format"@, "json"@)] + self.spec_query(),
    {
        let mut query: Vec<(String, String)> = Vec::new();
        query.push((String::from_str("format"), String::from_str("json")));
        assert(parameter_texts(query@) =~= seq![("format"@, "json"@)]);
        self.fill_query(&mut query);
        query
    }
}

} // verus!

//! What the steps of a session choose from the records: the vehicles of a
//! route, the stops of an agency and a route, the estimates for a stop, and
//! the time that remains until each arrival.

use crate::api::helper_types::{
    lists, lists_id, AgencyId, ArrivalEstimate, LocationType, RouteId, StopId,
};
use crate::api::response::{Route, Stop, Vehicle};
use crate::clock::{Duration, Instant};
use crate::matcher::{fuzzy_pick, name_texts, spec_fuzzy_pick};
use vstd::prelude::*;

verus! {

/// The vehicles that run on the route `route`.
pub open spec fn on_route(route: Seq<char>) -> spec_fn(Vehicle) -> bool {
    |v: Vehicle| v.route_id@ == route
}

/// The stops that belong to the agency `agency` and lie on the route
/// `route`.
pub open spec fn serves(agency: Seq<char>, route: Seq<char>) -> spec_fn(Stop) -> bool {
    |s: Stop| lists(s.agency_ids@, agency) && lists(s.routes@, route)
}

/// The records that describe a stop itself, not a station or anything
/// else.
pub open spec fn is_stop() -> spec_fn(Stop) -> bool {
    |s: Stop| s.location_type == LocationType::Stop
}

/// The estimates that are made for the stop `stop`.
pub open spec fn at_stop(stop: Seq<char>) -> spec_fn(ArrivalEstimate) -> bool {
    |e: ArrivalEstimate| e.stop_id@ == stop
}

/// The estimates that a vehicle carries for the stop `stop`.
pub open spec fn estimates_of(stop: Seq<char>) -> spec_fn(Vehicle) -> Seq<ArrivalEstimate> {
    |v: Vehicle| v.arrival_estimates@.filter(at_stop(stop))
}

/// The estimates for the stop `stop` that `vehicles` carry: vehicle by
/// vehicle, and for each vehicle in the order in which it lists them.
pub open spec fn estimates_at(vehicles: Seq<Vehicle>, stop: Seq<char>) -> Seq<ArrivalEstimate> {
    vehicles.map_values(estimates_of(stop)).flatten()
}

/// The span from `now` until the arrival that an estimate predicts, or
/// `None` where the time of arrival cannot be read.
pub open spec fn span_until(now: Instant) -> spec_fn(ArrivalEstimate) -> Option<Duration> {
    |e: ArrivalEstimate|
        match Instant::spec_parse(e.arrival_at@) {
            Some(at) => Some(at.spec_since(now)),
            None => None,
        }
}

/// The spans from `now` until the arrivals that `estimates` predict, in
/// the order of the estimates. An estimate whose time of arrival cannot
/// be read adds nothing.
pub open spec fn remaining(estimates: Seq<ArrivalEstimate>, now: Instant) -> Seq<Duration> {
    estimates.filter_map(span_until(now))
}

/// The estimates whose time of arrival cannot be read.
pub open spec fn unreadable() -> spec_fn(ArrivalEstimate) -> bool {
    |e: ArrivalEstimate| Instant::spec_parse(e.arrival_at@) is None
}

/// The long names of `routes`, in their order.
pub open spec fn long_names(routes: Seq<Route>) -> Seq<Seq<char>> {
    Seq::new(routes.len(), |i: int| routes[i].long_name@)
}

/// The names of `stops`, in their order.
pub open spec fn stop_names(stops: Seq<Stop>) -> Seq<Seq<char>> {
    Seq::new(stops.len(), |i: int| stops[i].name@)
}

/// The identifier of the route at the position `choice`, if `choice`
/// names a position among `routes`.
pub open spec fn spec_route_at(routes: Seq<Route>, choice: Option<usize>) -> Option<RouteId> {
    match choice {
        Some(i) => if i < routes.len() {
            Some(routes[i as int].route_id)
        } else {
            None
        },
        None => None,
    }
}

/// The identifier of the stop at the position `choice`, if `choice` names
/// a position among `stops`.
pub open spec fn spec_stop_at(stops: Seq<Stop>, choice: Option<usize>) -> Option<StopId> {
    match choice {
        Some(i) => if i < stops.len() {
            Some(stops[i as int].stop_id)
        } else {
            None
        },
        None => None,
    }
}

/// The identifier of the route at the position `choice`.
pub fn route_at(routes: &Vec<Route>, choice: Option<usize>) -> (id: Option<RouteId>)
    ensures
        id == spec_route_at(routes@, choice),
{
    match choice {
        Some(i) => if i < routes.len() {
            Some(routes[i].route_id.clone())
        } else {
            None
        },
        None => None,
    }
}

/// The identifier of the stop at the position `choice`.
pub fn stop_at(stops: &Vec<Stop>, choice: Option<usize>) -> (id: Option<StopId>)
    ensures
        id == spec_stop_at(stops@, choice),
{
    match choice {
        Some(i) => if i < stops.len() {
            Some(stops[i].stop_id.clone())
        } else {
            None
        },
        None => None,
    }
}

/// Picks the route whose long name is closest to `query`.
pub fn match_route(query: &str, routes: &Vec<Route>) -> (id: Option<RouteId>)
    ensures
        id == spec_route_at(routes@, spec_fuzzy_pick(query@, long_names(routes@))),
{
    let mut names: Vec<&str> = Vec::new();
    let mut i: usize = 0;
    while i < routes.len()
        invariant
            i <= routes.len(),
            names@.len() == i,
            forall|j: int| 0 <= j < i ==> names@[j]@ == routes@[j].long_name@,
        decreases routes.len() - i,
    {
        names.push(routes[i].long_name.as_str());
        i += 1;
    }
    assert(name_texts(names@) =~= long_names(routes@));
    route_at(routes, fuzzy_pick(query, &names))
}

/// Picks the stop whose name is closest to `query`.
pub fn match_stop(query: &str, stops: &Vec<Stop>) -> (id: Option<StopId>)
    ensures
        id == spec_stop_at(stops@, spec_fuzzy_pick(query@, stop_names(stops@))),
{
    let mut names: Vec<&str> = Vec::new();
    let mut i: usize = 0;
    while i < stops.len()
        invariant
            i <= stops.len(),
            names@.len() == i,
            forall|j: int| 0 <= j < i ==> names@[j]@ == stops@[j].name@,
        decreases stops.len() - i,
    {
        names.push(stops[i].name.as_str());
        i += 1;
    }
    assert(name_texts(names@) =~= stop_names(stops@));
    stop_at(stops, fuzzy_pick(query, &names))
}

/// Keeps the vehicles that run on the route `route`, in their order.
pub fn vehicles_on_route(vehicles: Vec<Vehicle>, route: &RouteId) -> (kept: Vec<Vehicle>)
    ensures
        kept@ == vehicles@.filter(on_route(route@)),
{
    let ghost all = vehicles@;
    let mut kept: Vec<Vehicle> = Vec::new();
    for vehicle in it: vehicles.into_iter()
        invariant
            it.seq() == all,
            kept@ == all.take(it.index() as int).filter(on_route(route@)),
    {
        proof {
            let seen = all.take(it.index() as int);
            assert(all.take(it.index() + 1) =~= seen.push(vehicle));
            seen.lemma_filter_push(vehicle, on_route(route@));
        }
        if vehicle.route_id == *route {
            kept.push(vehicle);
        }
    }
    assert(all.take(all.len() as int) =~= all);
    kept
}

/// Keeps the stops that belong to `agency` and lie on `route`, in their
/// order.
pub fn stops_served(stops: Vec<Stop>, agency: &AgencyId, route: &RouteId) -> (kept: Vec<Stop>)
    ensures
        kept@ == stops@.filter(serves(agency@, route@)),
{
    let ghost all = stops@;
    let mut kept: Vec<Stop> = Vec::new();
    for stop in it: stops.into_iter()
        invariant
            it.seq() == all,
            kept@ == all.take(it.index() as int).filter(serves(agency@, route@)),
    {
        proof {
            let seen = all.take(it.index() as int);
            assert(all.take(it.index() + 1) =~= seen.push(stop));
            seen.lemma_filter_push(stop, serves(agency@, route@));
        }
        if lists_id(&stop.agency_ids, agency) && lists_id(&stop.routes, route) {
            kept.push(stop);
        }
    }
    assert(all.take(all.len() as int) =~= all);
    kept
}

/// Keeps the records that describe a stop itself, in their order.
pub fn boarding_stops(stops: Vec<Stop>) -> (kept: Vec<Stop>)
    ensures
        kept@ == stops@.filter(is_stop()),
{
    let ghost all = stops@;
    let mut kept: Vec<Stop> = Vec::new();
    for stop in it: stops.into_iter()
        invariant
            it.seq() == all,
            kept@ == all.take(it.index() as int).filter(is_stop()),
    {
        proof {
            let seen = all.take(it.index() as int);
            assert(all.take(it.index() + 1) =~= seen.push(stop));
            seen.lemma_filter_push(stop, is_stop());
        }
        match stop.location_type {
            LocationType::Stop => {
                kept.push(stop);
            },
            LocationType::Station => {},
        }
    }
    assert(all.take(all.len() as int) =~= all);
    kept
}

/// Keeps, of all the estimates that `vehicles` carry, those for the stop
/// `stop`.
pub fn estimates_for_stop(vehicles: Vec<Vehicle>, stop: &StopId) -> (kept: Vec<ArrivalEstimate>)
    ensures
        kept@ == estimates_at(vehicles@, stop@),
{
    let ghost all = vehicles@;
    let mut kept: Vec<ArrivalEstimate> = Vec::new();
    for vehicle in it: vehicles.into_iter()
        invariant
            it.seq() == all,
            kept@ == estimates_at(all.take(it.index() as int), stop@),
    {
        let ghost before = kept@;
        let ghost own = vehicle.arrival_estimates@;
        for estimate in inner: vehicle.arrival_estimates.into_iter()
            invariant
                inner.seq() == own,
                kept@ == before + own.take(inner.index() as int).filter(at_stop(stop@)),
        {
            proof {
                let seen = own.take(inner.index() as int);
                assert(own.take(inner.index() + 1) =~= seen.push(estimate));
                seen.lemma_filter_push(estimate, at_stop(stop@));
            }
            if estimate.stop_id == *stop {
                kept.push(estimate);
            }
        }
        proof {
            assert(own.take(own.len() as int) =~= own);
            let seen = all.take(it.index() as int);
            assert(all.take(it.index() + 1) =~= seen.push(vehicle));
            lemma_estimates_at_push(seen, vehicle, stop@);
        }
    }
    assert(all.take(all.len() as int) =~= all);
    kept
}

/// The estimates of one more vehicle come after those of the vehicles
/// before it.
pub proof fn lemma_estimates_at_push(vehicles: Seq<Vehicle>, vehicle: Vehicle, stop: Seq<char>)
    ensures
        estimates_at(vehicles.push(vehicle), stop) == estimates_at(vehicles, stop)
            + vehicle.arrival_estimates@.filter(at_stop(stop)),
{
    let f = estimates_of(stop);
    let lists = vehicles.map_values(f);
    let one = seq![f(vehicle)];
    assert(vehicles.push(vehicle).map_values(f) =~= lists + one);
    vstd::seq_lib::lemma_flatten_concat(lists, one);
    one.lemma_flatten_one_element();
}

/// Reads the time of arrival of each estimate and returns the span from
/// `now` until then, in the order of the estimates. An estimate whose time
/// of arrival cannot be read is passed over.
pub fn time_remaining(estimates: &Vec<ArrivalEstimate>, now: Instant) -> (spans: Vec<Duration>)
    requires
        now.wf(),
    ensures
        spans@ == remaining(estimates@, now),
        spans@.len() == estimates@.len() - estimates@.filter(unreadable()).len(),
        forall|k: int| 0 <= k < spans@.len() ==> (#[trigger] spans@[k]).wf(),
{
    let mut spans: Vec<Duration> = Vec::new();
    let mut i: usize = 0;
    while i < estimates.len()
        invariant
            i <= estimates.len(),
            now.wf(),
            spans@ == remaining(estimates@.take(i as int), now),
            forall|k: int| 0 <= k < spans@.len() ==> (#[trigger] spans@[k]).wf(),
        decreases estimates.len() - i,
    {
        proof {
            let upto = estimates@.take(i as int + 1);
            assert(upto.drop_last() =~= estimates@.take(i as int));
            assert(upto.last() == estimates@[i as int]);
        }
        match Instant::parse_rfc3339(estimates[i].arrival_at.as_str()) {
            Some(at) => {
                spans.push(at.signed_duration_since(now));
            },
            None => {},
        }
        i += 1;
    }
    proof {
        assert(estimates@.take(i as int) =~= estimates@);
        lemma_remaining_len(estimates@, now);
    }
    spans
}

/// Every estimate either adds one span or cannot be read.
pub proof fn lemma_remaining_len(estimates: Seq<ArrivalEstimate>, now: Instant)
    ensures
        remaining(estimates, now).len() + estimates.filter(unreadable()).len() == estimates.len(),
    decreases estimates.len(),
{
    reveal(Seq::filter);
    if estimates.len() > 0 {
        lemma_remaining_len(estimates.drop_last(), now);
    }
}

} // verus!

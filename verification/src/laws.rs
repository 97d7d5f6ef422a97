//! What holds of the session whatever the service answers.

use crate::api::helper_types::{lists, AgencyId, ArrivalEstimate, LocationType};
use crate::api::response::{keyed_by, records_of, Route, Stop, Vehicle};
use crate::clock::Instant;
use crate::scan::{lemma_filter_member, lemma_first_true};
use crate::select::{
    at_stop, estimates_at, is_stop, lemma_estimates_at_push, lemma_remaining_len, on_route,
    remaining, serves, unreadable,
};
use crate::wolfline::{WolfLine, WolfLineError};
use vstd::prelude::*;

verus! {

/// A step that needs the agency fails with `NoAgencyFound` in a session
/// that has resolved none, whatever it is given.
pub proof fn lemma_agency_comes_first(
    session: WolfLine,
    query: Seq<char>,
    routes: Seq<(AgencyId, Vec<Route>)>,
    vehicles: Seq<(AgencyId, Vec<Vehicle>)>,
    stops: Seq<Stop>,
)
    requires
        session.agency is None,
    ensures
        session.spec_get_routes(routes) == Err::<Vec<Route>, WolfLineError>(
            WolfLineError::NoAgencyFound,
        ),
        session.spec_find_route(query, routes) == Err::<WolfLine, WolfLineError>(
            WolfLineError::NoAgencyFound,
        ),
        session.spec_get_vehicles(vehicles) == Err::<Seq<Vehicle>, WolfLineError>(
            WolfLineError::NoAgencyFound,
        ),
        session.spec_get_stops(stops) == Err::<Seq<Stop>, WolfLineError>(
            WolfLineError::NoAgencyFound,
        ),
        session.spec_find_stop(query, stops) == Err::<WolfLine, WolfLineError>(
            WolfLineError::NoAgencyFound,
        ),
{
}

/// A step that needs the route fails with `NoRouteFound` in a session that
/// has resolved an agency and no route, whatever it is given.
pub proof fn lemma_route_comes_second(
    session: WolfLine,
    query: Seq<char>,
    vehicles: Seq<(AgencyId, Vec<Vehicle>)>,
    stops: Seq<Stop>,
)
    requires
        session.agency is Some,
        session.route is None,
    ensures
        session.spec_get_vehicles(vehicles) == Err::<Seq<Vehicle>, WolfLineError>(
            WolfLineError::NoRouteFound,
        ),
        session.spec_get_stops(stops) == Err::<Seq<Stop>, WolfLineError>(
            WolfLineError::NoRouteFound,
        ),
        session.spec_find_stop(query, stops) == Err::<WolfLine, WolfLineError>(
            WolfLineError::NoRouteFound,
        ),
{
}

/// A step that needs the stop fails with `NoStopFound` in a session that
/// has resolved none, whatever else it has resolved and whatever it is
/// given.
pub proof fn lemma_stop_comes_third(
    session: WolfLine,
    vehicles: Seq<(AgencyId, Vec<Vehicle>)>,
    now: Instant,
)
    requires
        session.stop is None,
    ensures
        session.spec_get_arrival_estimates(vehicles) == Err::<Seq<ArrivalEstimate>, WolfLineError>(
            WolfLineError::NoStopFound,
        ),
        session.spec_get_time_remaining(vehicles, now) == Err::<Seq<
            crate::clock::Duration,
        >, WolfLineError>(WolfLineError::NoStopFound),
{
}

/// The records that a session takes from an answer grouped by agency are
/// those of an entry of its own agency: a record that stands under other
/// agencies only is never among them.
pub proof fn lemma_records_of_own_agency<T>(
    data: Seq<(AgencyId, Vec<T>)>,
    agency: Seq<char>,
    record: T,
)
    requires
        forall|j: int|
            0 <= j < data.len() && (#[trigger] data[j]).1@.contains(record) ==> data[j].0@
                != agency,
    ensures
        records_of(data, agency) matches Some(records) ==> !records@.contains(record),
{
    lemma_first_true(keyed_by(data, agency));
}

/// Where every route stands under the agency that owns it, the routes of
/// a session are owned by its agency: a route of another agency is never
/// among them.
pub proof fn lemma_routes_of_own_agency(session: WolfLine, data: Seq<(AgencyId, Vec<Route>)>)
    requires
        forall|j: int, k: int|
            0 <= j < data.len() && 0 <= k < (#[trigger] data[j]).1@.len() ==> (
            #[trigger] data[j].1@[k]).agency_id@ == data[j].0@,
    ensures
        session.spec_get_routes(data) matches Ok(routes) ==> session.agency matches Some(agency)
            && forall|k: int|
            0 <= k < routes@.len() ==> (#[trigger] routes@[k]).agency_id@ == agency@,
{
    if let Some(agency) = session.agency {
        lemma_first_true(keyed_by(data, agency@));
    }
}

/// The stops of a session list its agency and its route: a stop that
/// belongs to other agencies only is never among them, nor one that lies
/// on other routes only.
pub proof fn lemma_stops_of_own_agency(session: WolfLine, stops: Seq<Stop>, stop: Stop)
    ensures
        session.spec_get_stops(stops) matches Ok(served) ==> ({
            &&& session.agency matches Some(agency)
            &&& session.route matches Some(route)
            &&& served.contains(stop) <==> stops.contains(stop) && lists(
                stop.agency_ids@,
                agency@,
            ) && lists(stop.routes@, route@)
        }),
{
    if let (Some(agency), Some(route)) = (session.agency, session.route) {
        lemma_filter_member(stops, serves(agency@, route@), stop);
    }
}

/// A route that another agency owns is never among the routes of a
/// session, where every route stands under the agency that owns it.
pub proof fn lemma_route_of_other_agency_excluded(
    session: WolfLine,
    data: Seq<(AgencyId, Vec<Route>)>,
    route: Route,
)
    requires
        forall|j: int, k: int|
            0 <= j < data.len() && 0 <= k < (#[trigger] data[j]).1@.len() ==> (
            #[trigger] data[j].1@[k]).agency_id@ == data[j].0@,
        session.agency matches Some(agency) && route.agency_id@ != agency@,
    ensures
        session.spec_get_routes(data) matches Ok(routes) ==> !routes@.contains(route),
{
    lemma_routes_of_own_agency(session, data);
}

/// A stop that belongs to other agencies only is never among the stops of
/// a session, nor among those that `find_stop` chooses among.
pub proof fn lemma_stop_of_other_agency_excluded(session: WolfLine, stops: Seq<Stop>, stop: Stop)
    requires
        session.agency matches Some(agency) && !lists(stop.agency_ids@, agency@),
    ensures
        session.spec_get_stops(stops) matches Ok(served) ==> !served.contains(stop),
        session.stop_candidates(stops) matches Ok(candidates) ==> !candidates.contains(stop),
{
    lemma_stops_of_own_agency(session, stops, stop);
    lemma_candidates_are_stops(session, stops, stop);
}

/// The stops that `find_stop` chooses among describe a stop itself, list
/// the agency and the route of the session, and no other record is among
/// them, however well its name fits.
pub proof fn lemma_candidates_are_stops(session: WolfLine, stops: Seq<Stop>, stop: Stop)
    ensures
        session.stop_candidates(stops) matches Ok(candidates) ==> ({
            &&& session.agency matches Some(agency)
            &&& session.route matches Some(route)
            &&& candidates.contains(stop) <==> {
                &&& stops.contains(stop)
                &&& stop.location_type == LocationType::Stop
                &&& lists(stop.agency_ids@, agency@)
                &&& lists(stop.routes@, route@)
            }
        }),
{
    if let (Some(agency), Some(route)) = (session.agency, session.route) {
        let served = stops.filter(serves(agency@, route@));
        lemma_filter_member(stops, serves(agency@, route@), stop);
        lemma_filter_member(served, is_stop(), stop);
    }
}

/// The stop that `find_stop` resolves is the stop of one of the records
/// that it chooses among.
pub proof fn lemma_resolved_stop_is_candidate(session: WolfLine, query: Seq<char>, stops: Seq<Stop>)
    ensures
        session.spec_find_stop(query, stops) matches Ok(next) ==> ({
            &&& session.stop_candidates(stops) matches Ok(candidates)
            &&& next.stop matches Some(id) ==> exists|i: int|
                0 <= i < candidates.len() && (#[trigger] candidates[i]).stop_id == id
                    && candidates[i].location_type == LocationType::Stop
        }),
{
    if let Ok(candidates) = session.stop_candidates(stops) {
        let next = session.spec_find_stop(query, stops)->Ok_0;
        if let Some(id) = next.stop {
            let i = choose|i: int| 0 <= i < candidates.len() && candidates[i].stop_id == id;
            lemma_candidates_are_stops(session, stops, candidates[i]);
        }
    }
}

/// The estimates for a stop are exactly those that one of the vehicles
/// carries and that are made for the stop.
pub proof fn lemma_estimates_at_member(
    vehicles: Seq<Vehicle>,
    stop: Seq<char>,
    estimate: ArrivalEstimate,
)
    ensures
        estimates_at(vehicles, stop).contains(estimate) <==> estimate.stop_id@ == stop
            && exists|i: int|
            0 <= i < vehicles.len() && (#[trigger] vehicles[i]).arrival_estimates@.contains(
                estimate,
            ),
    decreases vehicles.len(),
{
    if vehicles.len() == 0 {
        assert(estimates_at(vehicles, stop) =~= Seq::empty());
    } else {
        let front = vehicles.drop_last();
        let last = vehicles.last();
        assert(vehicles =~= front.push(last));
        lemma_estimates_at_push(front, last, stop);
        lemma_estimates_at_member(front, stop, estimate);
        lemma_filter_member(last.arrival_estimates@, at_stop(stop), estimate);
        let before = estimates_at(front, stop);
        let own = last.arrival_estimates@.filter(at_stop(stop));
        let all = estimates_at(vehicles, stop);
        assert(all == before + own);
        if all.contains(estimate) {
            let k = choose|k: int| 0 <= k < all.len() && all[k] == estimate;
            if k < before.len() {
                assert(before[k] == estimate);
                assert(before.contains(estimate));
                let i = choose|i: int|
                    0 <= i < front.len() && (#[trigger] front[i]).arrival_estimates@.contains(
                        estimate,
                    );
                assert(vehicles[i].arrival_estimates@.contains(estimate));
            } else {
                assert(own[k - before.len()] == estimate);
                assert(own.contains(estimate));
                assert(vehicles[vehicles.len() - 1].arrival_estimates@.contains(estimate));
            }
        }
        if estimate.stop_id@ == stop && exists|i: int|
            0 <= i < vehicles.len() && (#[trigger] vehicles[i]).arrival_estimates@.contains(
                estimate,
            ) {
            let i = choose|i: int|
                0 <= i < vehicles.len() && (#[trigger] vehicles[i]).arrival_estimates@.contains(
                    estimate,
                );
            if i < front.len() {
                assert(front[i].arrival_estimates@.contains(estimate));
                assert(before.contains(estimate));
                let k = choose|k: int| 0 <= k < before.len() && before[k] == estimate;
                assert(all[k] == estimate);
            } else {
                assert(own.contains(estimate));
                let k = choose|k: int| 0 <= k < own.len() && own[k] == estimate;
                assert(all[before.len() + k] == estimate);
            }
        }
    }
}

/// With the stop resolved, the estimates of a session are exactly those
/// that are made for the stop and carried by a vehicle of its agency that
/// runs on its route: no estimate for another stop is among them, and
/// none from a vehicle on another route.
pub proof fn lemma_arrival_estimates_exact(
    session: WolfLine,
    data: Seq<(AgencyId, Vec<Vehicle>)>,
    estimate: ArrivalEstimate,
)
    ensures
        session.spec_get_arrival_estimates(data) matches Ok(estimates) ==> ({
            &&& session.agency matches Some(agency)
            &&& session.route matches Some(route)
            &&& session.stop matches Some(stop)
            &&& records_of(data, agency@) matches Some(vehicles)
            &&& estimates.contains(estimate) <==> estimate.stop_id@ == stop@ && exists|i: int|
                0 <= i < vehicles@.len() && (#[trigger] vehicles@[i]).route_id@ == route@
                    && vehicles@[i].arrival_estimates@.contains(estimate)
        }),
{
    if let Ok(estimates) = session.spec_get_arrival_estimates(data) {
        let agency = session.agency->Some_0;
        let route = session.route->Some_0;
        let stop = session.stop->Some_0;
        let vehicles = records_of(data, agency@)->Some_0;
        let running = vehicles@.filter(on_route(route@));
        lemma_estimates_at_member(running, stop@, estimate);
        if estimates.contains(estimate) {
            let i = choose|i: int|
                0 <= i < running.len() && (#[trigger] running[i]).arrival_estimates@.contains(
                    estimate,
                );
            lemma_filter_member(vehicles@, on_route(route@), running[i]);
            let j = choose|j: int| 0 <= j < vehicles@.len() && vehicles@[j] == running[i];
            assert(vehicles@[j].route_id@ == route@);
        }
        if estimate.stop_id@ == stop@ && exists|i: int|
            0 <= i < vehicles@.len() && (#[trigger] vehicles@[i]).route_id@ == route@
                && vehicles@[i].arrival_estimates@.contains(estimate) {
            let i = choose|i: int|
                0 <= i < vehicles@.len() && (#[trigger] vehicles@[i]).route_id@ == route@
                    && vehicles@[i].arrival_estimates@.contains(estimate);
            lemma_filter_member(vehicles@, on_route(route@), vehicles@[i]);
            assert(running.contains(vehicles@[i]));
            let k = choose|k: int| 0 <= k < running.len() && running[k] == vehicles@[i];
            assert(running[k].arrival_estimates@.contains(estimate));
        }
    }
}

/// Of the estimates that it is given, a session returns one span for each
/// whose time of arrival can be read: as many as there are estimates, less
/// those that cannot be read. It fails on account of none of them.
pub proof fn lemma_unreadable_are_passed_over(
    session: WolfLine,
    data: Seq<(AgencyId, Vec<Vehicle>)>,
    now: Instant,
)
    ensures
        (match session.spec_get_arrival_estimates(data) {
            Ok(estimates) => session.spec_get_time_remaining(data, now) matches Ok(spans)
                && spans.len() == estimates.len() - estimates.filter(unreadable()).len(),
            Err(e) => session.spec_get_time_remaining(data, now) == Err::<Seq<
                crate::clock::Duration,
            >, WolfLineError>(e),
        }),
{
    if let Ok(estimates) = session.spec_get_arrival_estimates(data) {
        assert(session.spec_get_time_remaining(data, now) == Ok::<Seq<
            crate::clock::Duration,
        >, WolfLineError>(remaining(estimates, now)));
        lemma_remaining_len(estimates, now);
    }
}

} // verus!

//! The session that resolves an agency, then a route of that agency, then
//! a stop on that route, and reads from the vehicles of the route when
//! they will arrive at the stop.
//!
//! Each step comes in two halves. The first says which request to send, or
//! which earlier step is missing. The second takes the records that the
//! service answered with and does the step. Sending the request and
//! reading the answer lie between the two and are the caller's part.

use crate::api::helper_types::{AgencyId, ArrivalEstimate, RouteId, StopId, VehicleId};
use crate::api::request::EndpointRequest;
use crate::api::response::{records_of, take_records, Agency, ByAgency, Route, Stop, Vehicle};
use crate::clock::{Duration, Instant};
use crate::matcher::spec_fuzzy_pick;
use crate::scan::{first_true, lemma_first_true_extends};
use crate::select::{
    boarding_stops, estimates_at, estimates_for_stop, is_stop, long_names, match_route,
    match_stop, on_route, remaining, serves, spec_route_at, spec_stop_at, stop_names,
    stops_served, time_remaining, unreadable, vehicles_on_route,
};
use vstd::prelude::*;
use vstd::string::*;

verus! {

/// `reqwest::Error`, the failure of a transport. It is carried as it is;
/// nothing is known of what it holds.
#[verifier::external_type_specification]
#[verifier::external_body]
pub struct ExReqwestError(reqwest::Error);

/// `serde_json::Error`, the failure to read an answer. It is carried as it
/// is; nothing is known of what it holds.
#[verifier::external_type_specification]
#[verifier::external_body]
pub struct ExSerdeJsonError(serde_json::Error);

/// Why a step failed.
#[derive(Debug)]
pub enum WolfLineError {
    /// The request could not be sent, or no answer came.
    Reqwest(reqwest::Error),
    /// The answer was not of the expected shape.
    Serde(serde_json::Error),
    /// No agency is resolved, or none carries the name that was sought.
    NoAgencyFound,
    /// No route is resolved.
    NoRouteFound,
    /// No stop is resolved.
    NoStopFound,
    /// The answer holds no records for the resolved agency.
    InvalidResponse,
}

impl From<reqwest::Error> for WolfLineError {
    fn from(error: reqwest::Error) -> (e: Self) {
        WolfLineError::Reqwest(error)
    }
}

impl vstd::std_specs::convert::FromSpecImpl<reqwest::Error> for WolfLineError {
    open spec fn obeys_from_spec() -> bool {
        true
    }

    open spec fn from_spec(error: reqwest::Error) -> Self {
        WolfLineError::Reqwest(error)
    }
}

impl From<serde_json::Error> for WolfLineError {
    fn from(error: serde_json::Error) -> (e: Self) {
        WolfLineError::Serde(error)
    }
}

impl vstd::std_specs::convert::FromSpecImpl<serde_json::Error> for WolfLineError {
    open spec fn obeys_from_spec() -> bool {
        true
    }

    open spec fn from_spec(error: serde_json::Error) -> Self {
        WolfLineError::Serde(error)
    }
}

/// What a session has resolved so far. Each field is set by its own step
/// and by no other.
#[derive(Debug)]
pub struct WolfLine {
    pub agency: Option<AgencyId>,
    pub route: Option<RouteId>,
    pub vehicle: Option<VehicleId>,
    pub stop: Option<StopId>,
}

/// The name of the agency that `find_ncsu` looks for.
pub const NCSU: &'static str = "ncsu";

/// For each agency, whether it carries the name `name`.
pub open spec fn named(agencies: Seq<Agency>, name: Seq<char>) -> Seq<bool> {
    Seq::new(agencies.len(), |i: int| agencies[i].name@ == name)
}

impl WolfLine {
    /// A session that has resolved nothing yet.
    pub fn new() -> (session: WolfLine)
        ensures
            session.agency is None,
            session.route is None,
            session.vehicle is None,
            session.stop is None,
    {
        WolfLine { agency: None, route: None, vehicle: None, stop: None }
    }

    /// The request whose answer `find_agency` takes: every agency, with no
    /// filter.
    pub fn agencies_request(&self) -> (request: EndpointRequest)
        ensures
            request == (EndpointRequest::Agencies { agencies: None, geo_area: None }),
    {
        EndpointRequest::Agencies { agencies: None, geo_area: None }
    }

    /// The session after `find_agency`, or why the step fails: the agency
    /// becomes the first of `agencies` whose name is exactly `name`, and
    /// the step fails where there is none.
    pub open spec fn spec_find_agency(self, name: Seq<char>, agencies: Seq<Agency>) -> Result<
        WolfLine,
        WolfLineError,
    > {
        match first_true(named(agencies, name)) {
            Some(i) => Ok(WolfLine { agency: Some(agencies[i].agency_id), ..self }),
            None => Err(WolfLineError::NoAgencyFound),
        }
    }

    /// Resolves the agency: the first of `agencies` whose name is exactly
    /// `name`. Where there is none, the step fails and the session stays
    /// as it was.
    pub fn find_agency(&mut self, name: &str, agencies: &Vec<Agency>) -> (res: Result<
        (),
        WolfLineError,
    >)
        ensures
            (match res {
                Ok(_) => old(self).spec_find_agency(name@, agencies@) == Ok::<
                    WolfLine,
                    WolfLineError,
                >(*final(self)),
                Err(e) => old(self).spec_find_agency(name@, agencies@) == Err::<
                    WolfLine,
                    WolfLineError,
                >(e) && *final(self) == *old(self),
            }),
    {
        let wanted = String::from_str(name);
        let mut i: usize = 0;
        while i < agencies.len()
            invariant
                i <= agencies.len(),
                wanted@ == name@,
                *self == *old(self),
                first_true(named(agencies@, name@).take(i as int)) is None,
            decreases agencies.len() - i,
        {
            proof {
                let upto = named(agencies@, name@).take(i as int + 1);
                assert(upto.drop_last() =~= named(agencies@, name@).take(i as int));
                assert(upto.last() == (agencies@[i as int].name@ == name@));
            }
            if agencies[i].name == wanted {
                proof {
                    let flags = named(agencies@, name@);
                    assert(first_true(flags.take(i as int + 1)) == Some(i as int));
                    lemma_first_true_extends(flags, i as int + 1);
                }
                self.agency = Some(agencies[i].agency_id.clone());
                return Ok(());
            }
            i += 1;
        }
        assert(named(agencies@, name@).take(i as int) =~= named(agencies@, name@));
        Err(WolfLineError::NoAgencyFound)
    }

    /// Resolves the agency named `ncsu`.
    pub fn find_ncsu(&mut self, agencies: &Vec<Agency>) -> (res: Result<(), WolfLineError>)
        ensures
            (match res {
                Ok(_) => old(self).spec_find_agency(NCSU@, agencies@) == Ok::<
                    WolfLine,
                    WolfLineError,
                >(*final(self)),
                Err(e) => old(self).spec_find_agency(NCSU@, agencies@) == Err::<
                    WolfLine,
                    WolfLineError,
                >(e) && *final(self) == *old(self),
            }),
    {
        self.find_agency(NCSU, agencies)
    }

    /// Which earlier step a step is missing that needs the agency and the
    /// route: the agency is asked for first.
    pub open spec fn missing_route(self) -> Option<WolfLineError> {
        if self.agency is None {
            Some(WolfLineError::NoAgencyFound)
        } else if self.route is None {
            Some(WolfLineError::NoRouteFound)
        } else {
            None
        }
    }

    /// Which earlier step a step is missing that needs the stop: the stop
    /// is asked for first, then the agency, then the route.
    pub open spec fn missing_stop(self) -> Option<WolfLineError> {
        if self.stop is None {
            Some(WolfLineError::NoStopFound)
        } else {
            self.missing_route()
        }
    }

    /// The request whose answer `find_route` and `get_routes` take: the
    /// routes of the resolved agency.
    pub fn routes_request(&self) -> (res: Result<EndpointRequest, WolfLineError>)
        ensures
            (match res {
                Ok(request) => {
                    &&& self.agency matches Some(agency)
                    &&& request matches EndpointRequest::Routes { agencies, geo_area }
                    &&& agencies@ == seq![agency]
                    &&& geo_area is None
                },
                Err(e) => self.agency is None && e == WolfLineError::NoAgencyFound,
            }),
    {
        match &self.agency {
            Some(agency) => Ok(EndpointRequest::Routes { agencies: only(agency), geo_area: None }),
            None => Err(WolfLineError::NoAgencyFound),
        }
    }

    /// The request whose answer `get_vehicles`, `get_arrival_estimates`
    /// and `get_time_remaining` take: the vehicles of the resolved agency.
    pub fn vehicles_request(&self) -> (res: Result<EndpointRequest, WolfLineError>)
        ensures
            (match res {
                Ok(request) => {
                    &&& self.missing_route() is None
                    &&& self.agency matches Some(agency)
                    &&& request matches EndpointRequest::Vehicles { agencies: Some(agencies), geo_area }
                    &&& agencies@ == seq![agency]
                    &&& geo_area is None
                },
                Err(e) => self.missing_route() == Some(e),
            }),
    {
        match (&self.agency, &self.route) {
            (None, _) => Err(WolfLineError::NoAgencyFound),
            (Some(_), None) => Err(WolfLineError::NoRouteFound),
            (Some(agency), Some(_)) => Ok(
                EndpointRequest::Vehicles { agencies: Some(only(agency)), geo_area: None },
            ),
        }
    }

    /// The request whose answer `get_stops` and `find_stop` take: the
    /// stops of the resolved agency.
    pub fn stops_request(&self) -> (res: Result<EndpointRequest, WolfLineError>)
        ensures
            (match res {
                Ok(request) => {
                    &&& self.missing_route() is None
                    &&& self.agency matches Some(agency)
                    &&& request matches EndpointRequest::Stops { agencies, geo_area }
                    &&& agencies@ == seq![agency]
                    &&& geo_area is None
                },
                Err(e) => self.missing_route() == Some(e),
            }),
    {
        match (&self.agency, &self.route) {
            (None, _) => Err(WolfLineError::NoAgencyFound),
            (Some(_), None) => Err(WolfLineError::NoRouteFound),
            (Some(agency), Some(_)) => Ok(
                EndpointRequest::Stops { agencies: only(agency), geo_area: None },
            ),
        }
    }

    /// The routes of the resolved agency among `data`, or why there are
    /// none.
    pub open spec fn spec_get_routes(self, data: Seq<(AgencyId, Vec<Route>)>) -> Result<
        Vec<Route>,
        WolfLineError,
    > {
        match self.agency {
            None => Err(WolfLineError::NoAgencyFound),
            Some(agency) => match records_of(data, agency@) {
                Some(routes) => Ok(routes),
                None => Err(WolfLineError::InvalidResponse),
            },
        }
    }

    /// The routes of the resolved agency: those that `data` holds for it.
    /// Fails where no agency is resolved, and where `data` holds no entry
    /// for the resolved agency.
    pub fn get_routes(&self, data: ByAgency<Route>) -> (res: Result<Vec<Route>, WolfLineError>)
        ensures
            res == self.spec_get_routes(data@),
    {
        match &self.agency {
            None => Err(WolfLineError::NoAgencyFound),
            Some(agency) => match take_records(data, agency) {
                Some(routes) => Ok(routes),
                None => Err(WolfLineError::InvalidResponse),
            },
        }
    }

    /// The session after `find_route`, or why the step fails: the route
    /// becomes the one, among the routes of the resolved agency, whose
    /// long name is closest to `query`, and none where none is close.
    pub open spec fn spec_find_route(
        self,
        query: Seq<char>,
        data: Seq<(AgencyId, Vec<Route>)>,
    ) -> Result<WolfLine, WolfLineError> {
        match self.spec_get_routes(data) {
            Ok(routes) => Ok(
                WolfLine {
                    route: spec_route_at(routes@, spec_fuzzy_pick(query, long_names(routes@))),
                    ..self
                },
            ),
            Err(e) => Err(e),
        }
    }

    /// Resolves the route: among the routes that `data` holds for the
    /// resolved agency, the one whose long name is closest to `route`.
    /// Where none is close, the step succeeds and no route is resolved
    /// after it. Where the step fails, the session stays as it was.
    pub fn find_route(&mut self, route: &str, data: ByAgency<Route>) -> (res: Result<
        (),
        WolfLineError,
    >)
        ensures
            (match res {
                Ok(_) => old(self).spec_find_route(route@, data@) == Ok::<WolfLine, WolfLineError>(
                    *final(self),
                ),
                Err(e) => old(self).spec_find_route(route@, data@) == Err::<
                    WolfLine,
                    WolfLineError,
                >(e) && *final(self) == *old(self),
            }),
    {
        match self.get_routes(data) {
            Ok(routes) => {
                self.route = match_route(route, &routes);
                Ok(())
            },
            Err(e) => Err(e),
        }
    }

    /// The vehicles that run on the resolved route, among those that
    /// `data` holds for the resolved agency, or why there are none.
    pub open spec fn spec_get_vehicles(self, data: Seq<(AgencyId, Vec<Vehicle>)>) -> Result<
        Seq<Vehicle>,
        WolfLineError,
    > {
        match (self.agency, self.route) {
            (None, _) => Err(WolfLineError::NoAgencyFound),
            (Some(_), None) => Err(WolfLineError::NoRouteFound),
            (Some(agency), Some(route)) => match records_of(data, agency@) {
                Some(vehicles) => Ok(vehicles@.filter(on_route(route@))),
                None => Err(WolfLineError::InvalidResponse),
            },
        }
    }

    /// The vehicles that run on the resolved route: of the vehicles that
    /// `data` holds for the resolved agency, those whose route is the
    /// resolved one, in their order. The session stays as it is.
    pub fn get_vehicles(&self, data: ByAgency<Vehicle>) -> (res: Result<
        Vec<Vehicle>,
        WolfLineError,
    >)
        ensures
            (match res {
                Ok(vehicles) => self.spec_get_vehicles(data@) == Ok::<Seq<Vehicle>, WolfLineError>(
                    vehicles@,
                ),
                Err(e) => self.spec_get_vehicles(data@) == Err::<Seq<Vehicle>, WolfLineError>(e),
            }),
    {
        match (&self.agency, &self.route) {
            (None, _) => Err(WolfLineError::NoAgencyFound),
            (Some(_), None) => Err(WolfLineError::NoRouteFound),
            (Some(agency), Some(route)) => match take_records(data, agency) {
                Some(vehicles) => Ok(vehicles_on_route(vehicles, route)),
                None => Err(WolfLineError::InvalidResponse),
            },
        }
    }

    /// The stops, among `stops`, that belong to the resolved agency and
    /// lie on the resolved route, or why there are none.
    pub open spec fn spec_get_stops(self, stops: Seq<Stop>) -> Result<Seq<Stop>, WolfLineError> {
        match (self.agency, self.route) {
            (None, _) => Err(WolfLineError::NoAgencyFound),
            (Some(_), None) => Err(WolfLineError::NoRouteFound),
            (Some(agency), Some(route)) => Ok(stops.filter(serves(agency@, route@))),
        }
    }

    /// The stops of the resolved route: of `stops`, those that list the
    /// resolved agency among their agencies and the resolved route among
    /// their routes, in their order.
    pub fn get_stops(&self, stops: Vec<Stop>) -> (res: Result<Vec<Stop>, WolfLineError>)
        ensures
            (match res {
                Ok(served) => self.spec_get_stops(stops@) == Ok::<Seq<Stop>, WolfLineError>(
                    served@,
                ),
                Err(e) => self.spec_get_stops(stops@) == Err::<Seq<Stop>, WolfLineError>(e),
            }),
    {
        match (&self.agency, &self.route) {
            (None, _) => Err(WolfLineError::NoAgencyFound),
            (Some(_), None) => Err(WolfLineError::NoRouteFound),
            (Some(agency), Some(route)) => Ok(stops_served(stops, agency, route)),
        }
    }

    /// The stops that `find_stop` chooses among: those of the resolved
    /// route that describe a stop itself.
    pub open spec fn stop_candidates(self, stops: Seq<Stop>) -> Result<Seq<Stop>, WolfLineError> {
        match self.spec_get_stops(stops) {
            Ok(served) => Ok(served.filter(is_stop())),
            Err(e) => Err(e),
        }
    }

    /// The session after `find_stop`, or why the step fails: the stop
    /// becomes the candidate whose name is closest to `query`, and none
    /// where none is close.
    pub open spec fn spec_find_stop(self, query: Seq<char>, stops: Seq<Stop>) -> Result<
        WolfLine,
        WolfLineError,
    > {
        match self.stop_candidates(stops) {
            Ok(candidates) => Ok(
                WolfLine {
                    stop: spec_stop_at(
                        candidates,
                        spec_fuzzy_pick(query, stop_names(candidates)),
                    ),
                    ..self
                },
            ),
            Err(e) => Err(e),
        }
    }

    /// Resolves the stop: among the stops of the resolved route that
    /// describe a stop itself, the one whose name is closest to `stop`.
    /// Where none is close, the step succeeds and no stop is resolved
    /// after it. Where the step fails, the session stays as it was.
    pub fn find_stop(&mut self, stop: &str, stops: Vec<Stop>) -> (res: Result<(), WolfLineError>)
        ensures
            (match res {
                Ok(_) => old(self).spec_find_stop(stop@, stops@) == Ok::<WolfLine, WolfLineError>(
                    *final(self),
                ),
                Err(e) => old(self).spec_find_stop(stop@, stops@) == Err::<WolfLine, WolfLineError>(
                    e,
                ) && *final(self) == *old(self),
            }),
    {
        match self.get_stops(stops) {
            Ok(served) => {
                let candidates = boarding_stops(served);
                self.stop = match_stop(stop, &candidates);
                Ok(())
            },
            Err(e) => Err(e),
        }
    }

    /// The request whose answer `get_arrival_estimates` and
    /// `get_time_remaining` take: the vehicles of the resolved agency.
    pub fn arrival_estimates_request(&self) -> (res: Result<EndpointRequest, WolfLineError>)
        ensures
            (match res {
                Ok(request) => {
                    &&& self.missing_stop() is None
                    &&& self.agency matches Some(agency)
                    &&& request matches EndpointRequest::Vehicles { agencies: Some(agencies), geo_area }
                    &&& agencies@ == seq![agency]
                    &&& geo_area is None
                },
                Err(e) => self.missing_stop() == Some(e),
            }),
    {
        match &self.stop {
            None => Err(WolfLineError::NoStopFound),
            Some(_) => self.vehicles_request(),
        }
    }

    /// The estimates for the resolved stop that the vehicles of the
    /// resolved route carry, or why there are none.
    pub open spec fn spec_get_arrival_estimates(
        self,
        data: Seq<(AgencyId, Vec<Vehicle>)>,
    ) -> Result<Seq<ArrivalEstimate>, WolfLineError> {
        match self.stop {
            None => Err(WolfLineError::NoStopFound),
            Some(stop) => match self.spec_get_vehicles(data) {
                Ok(vehicles) => Ok(estimates_at(vehicles, stop@)),
                Err(e) => Err(e),
            },
        }
    }

    /// The estimates for the resolved stop: of all the estimates that the
    /// vehicles of the resolved route carry, those made for the resolved
    /// stop, vehicle by vehicle. The session stays as it is.
    pub fn get_arrival_estimates(&self, data: ByAgency<Vehicle>) -> (res: Result<
        Vec<ArrivalEstimate>,
        WolfLineError,
    >)
        ensures
            (match res {
                Ok(estimates) => self.spec_get_arrival_estimates(data@) == Ok::<
                    Seq<ArrivalEstimate>,
                    WolfLineError,
                >(estimates@),
                Err(e) => self.spec_get_arrival_estimates(data@) == Err::<
                    Seq<ArrivalEstimate>,
                    WolfLineError,
                >(e),
            }),
    {
        match &self.stop {
            None => Err(WolfLineError::NoStopFound),
            Some(stop) => match self.get_vehicles(data) {
                Ok(vehicles) => Ok(estimates_for_stop(vehicles, stop)),
                Err(e) => Err(e),
            },
        }
    }

    /// The spans from `now` until the arrivals at the resolved stop, or
    /// why there are none.
    pub open spec fn spec_get_time_remaining(
        self,
        data: Seq<(AgencyId, Vec<Vehicle>)>,
        now: Instant,
    ) -> Result<Seq<Duration>, WolfLineError> {
        match self.spec_get_arrival_estimates(data) {
            Ok(estimates) => Ok(remaining(estimates, now)),
            Err(e) => Err(e),
        }
    }

    /// How long it is from `now` until each arrival at the resolved stop:
    /// one span for each estimate whose time of arrival can be read, in
    /// the order of the estimates. A span is negative where the arrival
    /// lies before `now`.
    pub fn get_time_remaining_at(&self, data: ByAgency<Vehicle>, now: Instant) -> (res: Result<
        Vec<Duration>,
        WolfLineError,
    >)
        requires
            now.wf(),
        ensures
            (match res {
                Ok(spans) => self.spec_get_time_remaining(data@, now) == Ok::<
                    Seq<Duration>,
                    WolfLineError,
                >(spans@),
                Err(e) => self.spec_get_time_remaining(data@, now) == Err::<
                    Seq<Duration>,
                    WolfLineError,
                >(e),
            }),
    {
        match self.get_arrival_estimates(data) {
            Ok(estimates) => Ok(time_remaining(&estimates, now)),
            Err(e) => Err(e),
        }
    }

    /// How long it is until each arrival at the resolved stop, from the
    /// time at which the call is made.
    pub fn get_time_remaining(&self, data: ByAgency<Vehicle>) -> (res: Result<
        Vec<Duration>,
        WolfLineError,
    >)
        ensures
            (match res {
                Ok(spans) => exists|now: Instant|
                    now.wf() && #[trigger] self.spec_get_time_remaining(data@, now) == Ok::<
                        Seq<Duration>,
                        WolfLineError,
                    >(spans@),
                Err(e) => self.spec_get_arrival_estimates(data@) == Err::<
                    Seq<ArrivalEstimate>,
                    WolfLineError,
                >(e),
            }),
            res matches Ok(spans) ==> self.spec_get_arrival_estimates(data@) matches Ok(estimates)
                && spans@.len() == estimates.len() - estimates.filter(unreadable()).len(),
    {
        match self.get_arrival_estimates(data) {
            Ok(estimates) => {
                let now = Instant::now();
                let spans = time_remaining(&estimates, now);
                assert(self.spec_get_time_remaining(data@, now) == Ok::<
                    Seq<Duration>,
                    WolfLineError,
                >(spans@));
                Ok(spans)
            },
            Err(e) => Err(e),
        }
    }
}

/// A list that holds `agency` and nothing else.
fn only(agency: &AgencyId) -> (list: Vec<AgencyId>)
    ensures
        list@ == seq![*agency],
{
    let mut list: Vec<AgencyId> = Vec::new();
    list.push(agency.clone());
    list
}

} // verus!

//! The records that the service answers with.

use super::helper_types::{
    AgencyId, ArrivalEstimate, Direction, GeographicArea, Language, Location, LocationType,
    RouteId, SegmentId, StopId, VehicleId,
};
use crate::scan::first_true;
use vstd::prelude::*;

verus! {

/// What the service wraps every answer in. Nothing here reads the fields
/// around `data`.
#[derive(Debug, Clone)]
pub struct EndpointResponse<Response> {
    pub api_latest_version: String,
    pub api_version: String,
    pub data: Response,
    pub expires_in: usize,
    pub generated_on: String,
    pub rate_limit: usize,
}

/// Records grouped by the agency that they belong to: each entry holds an
/// agency and its records.
pub type ByAgency<T> = Vec<(AgencyId, Vec<T>)>;

#[derive(Debug, Clone)]
pub struct Agency {
    pub agency_id: AgencyId,
    pub bounding_box: GeographicArea,
    pub language: Language,
    pub long_name: String,
    pub name: String,
    pub phone: Option<String>,
    pub position: Location,
    pub short_name: String,
    pub timezone: String,
    pub url: Option<String>,
}

#[derive(Debug, Clone)]
pub struct Stop {
    pub agency_ids: Vec<AgencyId>,
    pub code: String,
    pub description: String,
    pub location: Location,
    pub location_type: LocationType,
    pub name: String,
    pub parent_station_id: Option<String>,
    pub routes: Vec<RouteId>,
    pub station_id: Option<String>,
    pub stop_id: StopId,
    pub url: Option<String>,
}

#[derive(Debug, Clone)]
pub struct Segment {
    pub agency_ids: Vec<AgencyId>,
    pub code: String,
    pub description: String,
    pub location: Location,
    pub location_type: LocationType,
    pub name: String,
    pub parent_station_id: Option<String>,
    pub routes: Vec<String>,
    pub station_id: Option<String>,
    pub stop_id: String,
    pub url: Option<String>,
}

#[derive(Debug, Clone)]
pub struct Vehicle {
    pub arrival_estimates: Vec<ArrivalEstimate>,
    pub call_name: String,
    pub description: Option<String>,
    pub heading: usize,
    pub last_updated_on: String,
    pub location: Location,
    pub passenger_load: Option<String>,
    pub route_id: RouteId,
    pub seating_capacity: Option<usize>,
    pub segment_id: Option<SegmentId>,
    /// The speed, as the bit pattern of the single-precision number that
    /// the service sent.
    pub speed_bits: u32,
    pub standing_capacity: Option<usize>,
    pub tracking_status: String,
    pub vehicle_id: VehicleId,
}

#[derive(Debug, Clone)]
pub struct Route {
    pub agency_id: AgencyId,
    pub color: String,
    pub description: String,
    pub is_active: bool,
    pub is_hidden: bool,
    pub long_name: String,
    pub route_id: RouteId,
    pub segments: Vec<(SegmentId, Direction)>,
    pub short_name: String,
    pub stops: Vec<StopId>,
    pub text_color: String,
    pub ty: String,
    pub url: String,
}

/// For each entry, whether it belongs to `agency`.
pub open spec fn keyed_by<T>(entries: Seq<(AgencyId, Vec<T>)>, agency: Seq<char>) -> Seq<bool> {
    Seq::new(entries.len(), |i: int| entries[i].0@ == agency)
}

/// The records of the first entry that belongs to `agency`, if there is
/// such an entry.
pub open spec fn records_of<T>(entries: Seq<(AgencyId, Vec<T>)>, agency: Seq<char>) -> Option<
    Vec<T>,
> {
    match first_true(keyed_by(entries, agency)) {
        Some(i) => Some(entries[i].1),
        None => None,
    }
}

/// Takes the records of `agency` out of `entries`: those of the first
/// entry that belongs to it. `None` where no entry does.
pub fn take_records<T>(entries: ByAgency<T>, agency: &AgencyId) -> (records: Option<Vec<T>>)
    ensures
        records == records_of(entries@, agency@),
{
    let mut entries = entries;
    let ghost all = entries@;
    let mut found: Option<usize> = None;
    let mut i: usize = 0;
    while i < entries.len()
        invariant
            i <= entries.len(),
            entries@ == all,
            match found {
                Some(k) => k < i && first_true(keyed_by(all, agency@).take(i as int)) == Some(
                    k as int,
                ),
                None => first_true(keyed_by(all, agency@).take(i as int)) is None,
            },
        decreases entries.len() - i,
    {
        proof {
            let upto = keyed_by(all, agency@).take(i as int + 1);
            assert(upto.drop_last() =~= keyed_by(all, agency@).take(i as int));
            assert(upto.last() == (all[i as int].0@ == agency@));
        }
        if found.is_none() && entries[i].0 == *agency {
            found = Some(i);
        }
        i += 1;
    }
    assert(keyed_by(all, agency@).take(i as int) =~= keyed_by(all, agency@));
    match found {
        Some(k) => {
            let entry = entries.remove(k);
            Some(entry.1)
        },
        None => None,
    }
}

} // verus!

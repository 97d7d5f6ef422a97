//! Identifiers and the small value types that the records are made of.

use crate::text::{decimal, decimal_text};
use vstd::prelude::*;

verus! {

/// What the identifier types have in common: each is a text, and two
/// identifiers are the same when their texts are.
pub trait Identifier {
    /// The text of the identifier.
    spec fn text(&self) -> Seq<char>;

    /// The text of the identifier, as the service wrote it.
    fn as_text(&self) -> (s: &str)
        ensures
            s@ == self.text(),
    ;

    /// Whether two identifiers are the same.
    fn same(&self, other: &Self) -> (b: bool)
        ensures
            b == (self.text() == other.text()),
    ;
}

/// The texts of a list of identifiers, in the order of the list.
pub open spec fn texts<T: Identifier>(ids: Seq<T>) -> Seq<Seq<char>> {
    Seq::new(ids.len(), |i: int| ids[i].text())
}

/// Whether `id` stands in the list `ids`.
pub open spec fn lists<T: Identifier>(ids: Seq<T>, id: Seq<char>) -> bool {
    texts(ids).contains(id)
}

/// Whether `id` stands in the list `ids`.
pub fn lists_id<T: Identifier>(ids: &Vec<T>, id: &T) -> (b: bool)
    ensures
        b == lists(ids@, id.text()),
{
    let mut i: usize = 0;
    while i < ids.len()
        invariant
            i <= ids.len(),
            forall|j: int| 0 <= j < i ==> texts(ids@)[j] != id.text(),
        decreases ids.len() - i,
    {
        if ids[i].same(id) {
            assert(texts(ids@)[i as int] == id.text());
            return true;
        }
        i += 1;
    }
    false
}

/// The identifier of a transit agency.
#[derive(Debug, Eq, Hash)]
pub struct AgencyId(pub String);

impl View for AgencyId {
    type V = Seq<char>;

    open spec fn view(&self) -> Seq<char> {
        self.0@
    }
}

impl Clone for AgencyId {
    fn clone(&self) -> (id: Self)
        ensures
            id == *self,
    {
        AgencyId(self.0.clone())
    }
}

impl PartialEq for AgencyId {
    fn eq(&self, other: &Self) -> (b: bool) {
        self.0 == other.0
    }
}

impl vstd::std_specs::cmp::PartialEqSpecImpl for AgencyId {
    open spec fn obeys_eq_spec() -> bool {
        true
    }

    open spec fn eq_spec(&self, other: &Self) -> bool {
        self.0@ == other.0@
    }
}

impl Identifier for AgencyId {
    open spec fn text(&self) -> Seq<char> {
        self.0@
    }

    fn as_text(&self) -> (s: &str) {
        self.0.as_str()
    }

    fn same(&self, other: &Self) -> (b: bool) {
        self.0 == other.0
    }
}

/// The identifier of a route.
#[derive(Debug, Eq, Hash)]
pub struct RouteId(pub String);

impl View for RouteId {
    type V = Seq<char>;

    open spec fn view(&self) -> Seq<char> {
        self.0@
    }
}

impl Clone for RouteId {
    fn clone(&self) -> (id: Self)
        ensures
            id == *self,
    {
        RouteId(self.0.clone())
    }
}

impl PartialEq for RouteId {
    fn eq(&self, other: &Self) -> (b: bool) {
        self.0 == other.0
    }
}

impl vstd::std_specs::cmp::PartialEqSpecImpl for RouteId {
    open spec fn obeys_eq_spec() -> bool {
        true
    }

    open spec fn eq_spec(&self, other: &Self) -> bool {
        self.0@ == other.0@
    }
}

impl Identifier for RouteId {
    open spec fn text(&self) -> Seq<char> {
        self.0@
    }

    fn as_text(&self) -> (s: &str) {
        self.0.as_str()
    }

    fn same(&self, other: &Self) -> (b: bool) {
        self.0 == other.0
    }
}

/// The identifier of a stop.
#[derive(Debug, Eq, Hash)]
pub struct StopId(pub String);

impl View for StopId {
    type V = Seq<char>;

    open spec fn view(&self) -> Seq<char> {
        self.0@
    }
}

impl Clone for StopId {
    fn clone(&self) -> (id: Self)
        ensures
            id == *self,
    {
        StopId(self.0.clone())
    }
}

impl PartialEq for StopId {
    fn eq(&self, other: &Self) -> (b: bool) {
        self.0 == other.0
    }
}

impl vstd::std_specs::cmp::PartialEqSpecImpl for StopId {
    open spec fn obeys_eq_spec() -> bool {
        true
    }

    open spec fn eq_spec(&self, other: &Self) -> bool {
        self.0@ == other.0@
    }
}

impl Identifier for StopId {
    open spec fn text(&self) -> Seq<char> {
        self.0@
    }

    fn as_text(&self) -> (s: &str) {
        self.0.as_str()
    }

    fn same(&self, other: &Self) -> (b: bool) {
        self.0 == other.0
    }
}

/// The identifier of a segment of a route.
#[derive(Debug, Eq, Hash)]
pub struct SegmentId(pub String);

impl View for SegmentId {
    type V = Seq<char>;

    open spec fn view(&self) -> Seq<char> {
        self.0@
    }
}

impl Clone for SegmentId {
    fn clone(&self) -> (id: Self)
        ensures
            id == *self,
    {
        SegmentId(self.0.clone())
    }
}

impl PartialEq for SegmentId {
    fn eq(&self, other: &Self) -> (b: bool) {
        self.0 == other.0
    }
}

impl vstd::std_specs::cmp::PartialEqSpecImpl for SegmentId {
    open spec fn obeys_eq_spec() -> bool {
        true
    }

    open spec fn eq_spec(&self, other: &Self) -> bool {
        self.0@ == other.0@
    }
}

impl Identifier for SegmentId {
    open spec fn text(&self) -> Seq<char> {
        self.0@
    }

    fn as_text(&self) -> (s: &str) {
        self.0.as_str()
    }

    fn same(&self, other: &Self) -> (b: bool) {
        self.0 == other.0
    }
}

/// The identifier of a vehicle.
#[derive(Debug, Eq, Hash)]
pub struct VehicleId(pub String);

impl View for VehicleId {
    type V = Seq<char>;

    open spec fn view(&self) -> Seq<char> {
        self.0@
    }
}

impl Clone for VehicleId {
    fn clone(&self) -> (id: Self)
        ensures
            id == *self,
    {
        VehicleId(self.0.clone())
    }
}

impl PartialEq for VehicleId {
    fn eq(&self, other: &Self) -> (b: bool) {
        self.0 == other.0
    }
}

impl vstd::std_specs::cmp::PartialEqSpecImpl for VehicleId {
    open spec fn obeys_eq_spec() -> bool {
        true
    }

    open spec fn eq_spec(&self, other: &Self) -> bool {
        self.0@ == other.0@
    }
}

impl Identifier for VehicleId {
    open spec fn text(&self) -> Seq<char> {
        self.0@
    }

    fn as_text(&self) -> (s: &str) {
        self.0.as_str()
    }

    fn same(&self, other: &Self) -> (b: bool) {
        self.0 == other.0
    }
}

/// What the service may write where an agency identifier is expected.
#[derive(Debug, Clone)]
pub enum StringOrNumber {
    /// The identifier as a text.
    Text(String),
    /// The identifier as a number.
    Number(u64),
}

impl StringOrNumber {
    /// The text that the value stands for.
    pub open spec fn text(self) -> Seq<char> {
        match self {
            StringOrNumber::Text(s) => s@,
            StringOrNumber::Number(n) => decimal_text(n as nat),
        }
    }

    /// The value as a text: a text stays as it is, a number is written in
    /// decimal notation.
    pub fn into_text(self) -> (s: String)
        ensures
            s@ == self.text(),
    {
        match self {
            StringOrNumber::Text(s) => s,
            StringOrNumber::Number(n) => decimal(n),
        }
    }
}

impl AgencyId {
    /// The identifier that the service wrote as `value`.
    pub fn from_wire(value: StringOrNumber) -> (id: AgencyId)
        ensures
            id@ == value.text(),
    {
        AgencyId(value.into_text())
    }
}

/// A point on the globe. Each coordinate is held as the bit pattern of the
/// single-precision number that the service sent; nothing here computes
/// with coordinates.
#[derive(Debug, Clone, Copy, PartialEq, Eq, Structural)]
pub struct Location {
    pub lat_bits: u32,
    pub lng_bits: u32,
}

/// A bounding box, given by two of its corners.
#[derive(Debug, Clone, Copy, PartialEq, Eq, Structural)]
pub struct GeographicArea(pub Location, pub Location);

/// What kind of place a stop record describes.
#[derive(Debug, Clone, Copy, PartialEq, Eq, Structural)]
pub enum LocationType {
    /// A place where passengers board and alight.
    Stop,
    /// A station that groups several stops.
    Station,
}

/// The language of an agency.
#[derive(Debug, Clone, Copy, PartialEq, Eq, Structural)]
pub enum Language {
    English,
}

/// The direction in which a route runs through a segment.
#[derive(Debug, Clone, Copy, PartialEq, Eq, Structural)]
pub enum Direction {
    Forward,
    Backward,
}

/// When a vehicle is predicted to arrive at a stop.
#[derive(Debug, Clone, PartialEq, Eq)]
pub struct ArrivalEstimate {
    /// The predicted time of arrival, as the service wrote it.
    pub arrival_at: String,
    pub route_id: RouteId,
    pub stop_id: StopId,
}

} // verus!

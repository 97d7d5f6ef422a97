//! Resolution of a transit agency, a route within it and a stop on that route
//! from the records of a real-time transit data service, and the time that
//! remains until vehicles arrive at the resolved stop.

pub mod api;
pub mod clock;
pub mod laws;
pub mod matcher;
pub mod scan;
pub mod select;
pub mod text;
pub mod wolfline;

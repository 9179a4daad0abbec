//! Plain data records shared by the whole library: a stored user profile,
//! a transit station, a geographic position and one departure snapshot.
//!
//! Each record carries a mathematical model (`…Model`) reached through
//! `View`, so that contracts can speak about the data independently of
//! `String` and `Vec` allocation.

use vstd::prelude::*;

verus! {

/// The models of a sequence of values, element for element.
pub open spec fn view_seq<T: View>(s: Seq<T>) -> Seq<T::V> {
    s.map_values(|t: T| t@)
}

/// A user's stored profile: last used city, address and its coordinates.
/// Coordinates are kept as the decimal strings the geocoder returned.
#[derive(Debug, Default)]
pub struct UserData {
    pub id: String,
    pub city: String,
    pub addr: String,
    pub lat: String,
    pub lon: String,
}

/// Mathematical model of a `UserData` record.
pub ghost struct UserDataModel {
    pub id: Seq<char>,
    pub city: Seq<char>,
    pub addr: Seq<char>,
    pub lat: Seq<char>,
    pub lon: Seq<char>,
}

impl View for UserData {
    type V = UserDataModel;

    open spec fn view(&self) -> UserDataModel {
        UserDataModel {
            id: self.id@,
            city: self.city@,
            addr: self.addr@,
            lat: self.lat@,
            lon: self.lon@,
        }
    }
}

/// A geographic position, as decimal-string coordinates.
#[derive(Debug, Default)]
pub struct Location {
    pub lat: String,
    pub lon: String,
}

/// Mathematical model of a `Location`.
pub ghost struct LocationModel {
    pub lat: Seq<char>,
    pub lon: Seq<char>,
}

impl View for Location {
    type V = LocationModel;

    open spec fn view(&self) -> LocationModel {
        LocationModel { lat: self.lat@, lon: self.lon@ }
    }
}

/// A transit station. `distance` is the distance from the queried
/// coordinates in metres, or `-1` when it was never computed (stations
/// that only appear as a departure's destination).
#[derive(Debug, Default)]
pub struct Station {
    pub id: String,
    pub name: String,
    pub location: Location,
    pub distance: i64,
}

/// Mathematical model of a `Station`.
pub ghost struct StationModel {
    pub id: Seq<char>,
    pub name: Seq<char>,
    pub location: LocationModel,
    pub distance: int,
}

impl View for Station {
    type V = StationModel;

    open spec fn view(&self) -> StationModel {
        StationModel {
            id: self.id@,
            name: self.name@,
            location: self.location@,
            distance: self.distance as int,
        }
    }
}

/// One departure in a station's feed snapshot: the line's name, the
/// direction label, the planned departure instant as an RFC 3339 string,
/// an optional delay in seconds, and an optional live vehicle position.
#[derive(Debug, Default)]
pub struct BusDeparture {
    pub stop_id: String,
    pub planned: String,
    pub delay: Option<i64>,
    pub direction: String,
    /// Name of the line ("Bus 100", "S7", ...).
    pub name: String,
    pub destination: Station,
    pub curr_position: Option<Location>,
}

/// Mathematical model of a `BusDeparture`.
pub ghost struct DepartureModel {
    pub stop_id: Seq<char>,
    pub planned: Seq<char>,
    pub delay: Option<int>,
    pub direction: Seq<char>,
    pub name: Seq<char>,
    pub destination: StationModel,
    pub curr_position: Option<LocationModel>,
}

impl View for BusDeparture {
    type V = DepartureModel;

    open spec fn view(&self) -> DepartureModel {
        DepartureModel {
            stop_id: self.stop_id@,
            planned: self.planned@,
            delay: match self.delay {
                Some(d) => Some(d as int),
                None => None,
            },
            direction: self.direction@,
            name: self.name@,
            destination: self.destination@,
            curr_position: match self.curr_position {
                Some(ref l) => Some(l@),
                None => None,
            },
        }
    }
}


impl Clone for UserData {
    fn clone(&self) -> (r: Self)
        ensures
            r == *self,
    {
        UserData {
            id: self.id.clone(),
            city: self.city.clone(),
            addr: self.addr.clone(),
            lat: self.lat.clone(),
            lon: self.lon.clone(),
        }
    }
}

impl Clone for Location {
    fn clone(&self) -> (r: Self)
        ensures
            r == *self,
    {
        Location { lat: self.lat.clone(), lon: self.lon.clone() }
    }
}

impl Clone for Station {
    fn clone(&self) -> (r: Self)
        ensures
            r == *self,
    {
        Station {
            id: self.id.clone(),
            name: self.name.clone(),
            location: self.location.clone(),
            distance: self.distance,
        }
    }
}

impl Clone for BusDeparture {
    fn clone(&self) -> (r: Self)
        ensures
            r == *self,
    {
        BusDeparture {
            stop_id: self.stop_id.clone(),
            planned: self.planned.clone(),
            delay: self.delay,
            direction: self.direction.clone(),
            name: self.name.clone(),
            destination: self.destination.clone(),
            curr_position: match &self.curr_position {
                Some(l) => Some(l.clone()),
                None => None,
            },
        }
    }
}

} // verus!

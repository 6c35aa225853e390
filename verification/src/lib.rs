//! Geolocation from nearby WiFi access points: the requests that are sent to
//! the location service, and what a reply amounts to.
//!
//! The library decides what is sent and what a reply means. Sending, and
//! reading a reply into a location, is left to the caller.

use vstd::prelude::*;

pub mod access_point;
pub mod credential;
pub mod decimal;
pub mod layout;
pub mod request;

pub use access_point::AccessPoint;
pub use credential::api_key_from_contents;
pub use request::{browser_location_request, Method, Request};

use request::{geolocate_body, geolocate_request_of, geolocate_url, BODY_HEAD, BODY_TAIL};

verus! {

/// What can go wrong when a reply of the location service is read.
#[derive(Debug, PartialEq, Eq, Structural, Clone, Copy)]
pub enum Error {
    /// The reply could not be read as a location.
    JSON,
}

/// A client of the geolocation service. It holds the key under which it
/// asks, and never changes it.
pub struct WifiGPS {
    api_key: String,
}

impl View for WifiGPS {
    type V = Seq<char>;

    /// The key that the client holds.
    closed spec fn view(&self) -> Seq<char> {
        self.api_key@
    }
}

impl WifiGPS {
    /// A client that asks under `api_key`. Any key is taken, as it is.
    pub fn new(api_key: String) -> (gps: WifiGPS)
        ensures
            gps@ == api_key@,
    {
        WifiGPS { api_key: api_key }
    }

    /// The request that asks the geolocation service where `towers` are. It
    /// is made for any list of access points, an empty one too.
    pub fn geolocate_request(&self, towers: &Vec<AccessPoint>) -> (request: Request)
        ensures
            request@ == geolocate_request_of(self@, towers.deep_view()),
            towers.len() == 0 ==> request@.body == Some(BODY_HEAD@ + BODY_TAIL@),
    {
        Request {
            method: Method::Post,
            url: geolocate_url(self.api_key.as_str()),
            body: Some(geolocate_body(towers)),
            accept_json: false,
        }
    }
}

/// What a reply amounts to, given what reading it as a location gave: the
/// location that was read, whole and as it was read, or `Error::JSON` where
/// the reading failed, whatever its failure was.
pub fn location_from_reply<T, E>(parsed: Result<T, E>) -> (result: Result<T, Error>)
    ensures
        match parsed {
            Ok(location) => result == Ok::<T, Error>(location),
            Err(_) => result == Err::<T, Error>(Error::JSON),
        },
{
    match parsed {
        Ok(location) => Ok(location),
        Err(_) => Err(Error::JSON),
    }
}

} // verus!

//! The access points that a scan reports.

use vstd::prelude::*;
use crate::decimal::{leading_i32, read_int};

verus! {

/// One wireless access point in range.
#[derive(Debug, PartialEq, Eq)]
pub struct AccessPoint {
    /// Hardware address: hex octets with colons between them.
    pub mac: String,
    /// Name of the network.
    pub ssid: String,
    /// Signal strength in dBm.
    pub signal_level: i32,
    /// Radio channel.
    pub channel: i32,
}

/// An access point as contracts see it.
pub ghost struct AccessPointView {
    pub mac: Seq<char>,
    pub ssid: Seq<char>,
    pub signal_level: int,
    pub channel: int,
}

impl View for AccessPoint {
    type V = AccessPointView;

    open spec fn view(&self) -> AccessPointView {
        AccessPointView {
            mac: self.mac@,
            ssid: self.ssid@,
            signal_level: self.signal_level as int,
            channel: self.channel as int,
        }
    }
}

impl DeepView for AccessPoint {
    type V = AccessPointView;

    open spec fn deep_view(&self) -> AccessPointView {
        self@
    }
}

impl AccessPoint {
    /// The access point that a scan reports with its numbers as text, such
    /// as `-66.00` for the signal strength and `36,+1` for the channel. Each
    /// number is the whole number that its text begins with. There is no
    /// access point where one of the two texts begins with no such number.
    pub fn from_scan(
        mac: String,
        ssid: String,
        signal_level: &str,
        channel: &str,
    ) -> (ap: Option<AccessPoint>)
        ensures
            ap is Some <==> leading_i32(signal_level@) is Some && leading_i32(channel@) is Some,
            ap matches Some(found) ==> {
                &&& found.mac@ == mac@
                &&& found.ssid@ == ssid@
                &&& Some(found.signal_level) == leading_i32(signal_level@)
                &&& Some(found.channel) == leading_i32(channel@)
            },
    {
        match (read_int(signal_level), read_int(channel)) {
            (Some(signal_level), Some(channel)) => Some(
                AccessPoint { mac, ssid, signal_level, channel },
            ),
            _ => None,
        }
    }
}

impl Clone for AccessPoint {
    /// A second record of the same access point.
    fn clone(&self) -> (copy: AccessPoint)
        ensures
            copy@ == self@,
    {
        AccessPoint {
            mac: self.mac.clone(),
            ssid: self.ssid.clone(),
            signal_level: self.signal_level,
            channel: self.channel,
        }
    }
}

} // verus!

//! The two requests that ask the location service where a set of access
//! points is: their addresses, and the text of what they carry.

use vstd::prelude::*;
use crate::access_point::{AccessPoint, AccessPointView};
use crate::decimal::{append_int, int_text};
use crate::layout::lemma_body_without_access_points;

verus! {

/// How a request is sent. The location service is only ever asked by POST.
#[derive(Debug, PartialEq, Eq, Structural, Clone, Copy)]
pub enum Method {
    Post,
}

/// A request that is ready to be sent.
#[derive(Debug, PartialEq, Eq)]
pub struct Request {
    /// The method that the request is sent with.
    pub method: Method,
    /// The address that the request goes to, query string included.
    pub url: String,
    /// The text that the request carries, if it carries any.
    pub body: Option<String>,
    /// Whether the request says in a header that it takes JSON in reply.
    pub accept_json: bool,
}

/// A request as contracts see it.
pub ghost struct RequestView {
    pub method: Method,
    pub url: Seq<char>,
    pub body: Option<Seq<char>>,
    pub accept_json: bool,
}

impl View for Request {
    type V = RequestView;

    open spec fn view(&self) -> RequestView {
        RequestView {
            method: self.method,
            url: self.url@,
            body: match self.body {
                Some(text) => Some(text@),
                None => None,
            },
            accept_json: self.accept_json,
        }
    }
}

impl Clone for Request {
    /// A second request that asks the same.
    fn clone(&self) -> (copy: Request)
        ensures
            copy@ == self@,
    {
        Request {
            method: self.method,
            url: self.url.clone(),
            body: match &self.body {
                Some(text) => Some(text.clone()),
                None => None,
            },
            accept_json: self.accept_json,
        }
    }
}

/// The address of the geolocation service, up to the key.
pub const GEOLOCATE_ENDPOINT: &'static str =
    "https://www.googleapis.com/geolocation/v1/geolocate?key=";

/// The address of the browser-location service, with its fixed parameters.
pub const BROWSER_LOCATION_ENDPOINT: &'static str =
    "https://maps.googleapis.com/maps/api/browserlocation/json?browser=firefox&sensor=true";

/// What a geolocation request holds before its access points: the fields
/// that are the same in every request, and the opening of the list.
pub const BODY_HEAD: &'static str =
    "{\"homeMobileCountryCode\":310,\"homeMobileNetworkCode\":410,\"radioType\":\"gsm\",\"carrier\":\"Vodafone\",\"considerIp\":\"true\",\"cellTowers\":[],\"wifiAccessPoints\":[";

/// What stands between two access points of a geolocation request.
pub const ENTRY_SEPARATOR: &'static str = ", ";

/// What closes a geolocation request after its access points.
pub const BODY_TAIL: &'static str = "]}";

/// What an entry holds before the hardware address.
pub const ENTRY_HEAD: &'static str = "{\"macAddress\":\"";

/// What an entry holds between the hardware address and the signal strength.
pub const SIGNAL_LABEL: &'static str = "\",\"signalStrength\":";

/// What an entry holds between the signal strength and the channel. The age
/// is always zero.
pub const CHANNEL_LABEL: &'static str = ",\"age\":0,\"channel\":";

/// What an entry holds after the channel. The signal-to-noise ratio is
/// always zero.
pub const ENTRY_TAIL: &'static str = ",\"signalToNoiseRatio\":0}";

/// What a parameter of a browser-location address holds before the hardware
/// address.
pub const PARAM_HEAD: &'static str = "&wifi=mac:";

/// What a parameter holds between the hardware address and the name of the
/// network. The text `&7C` is sent as it stands; it is no percent-escape.
pub const SSID_LABEL: &'static str = "&7Cssid:";

/// What a parameter holds between the name of the network and the signal
/// strength.
pub const STRENGTH_LABEL: &'static str = "&7Css:";

/// The address of the geolocation service for the holder of `key`.
pub open spec fn geolocate_url_text(key: Seq<char>) -> Seq<char> {
    GEOLOCATE_ENDPOINT@ + key
}

/// One access point as a geolocation request lists it.
pub open spec fn entry_text(ap: AccessPointView) -> Seq<char> {
    ENTRY_HEAD@ + ap.mac + SIGNAL_LABEL@ + int_text(ap.signal_level) + CHANNEL_LABEL@ + int_text(
        ap.channel,
    ) + ENTRY_TAIL@
}

/// The entries of all access points, in their order, with a separator
/// between each two.
pub open spec fn entries_text(aps: Seq<AccessPointView>) -> Seq<char>
    decreases aps.len(),
{
    if aps.len() == 0 {
        Seq::empty()
    } else if aps.len() == 1 {
        entry_text(aps[0])
    } else {
        entries_text(aps.drop_last()) + ENTRY_SEPARATOR@ + entry_text(aps.last())
    }
}

/// The whole text that a geolocation request carries.
pub open spec fn body_text(aps: Seq<AccessPointView>) -> Seq<char> {
    BODY_HEAD@ + entries_text(aps) + BODY_TAIL@
}

/// The geolocation request of the holder of `key` for `aps`: the key goes
/// into the address, the access points into the text.
pub open spec fn geolocate_request_of(key: Seq<char>, aps: Seq<AccessPointView>) -> RequestView {
    RequestView {
        method: Method::Post,
        url: geolocate_url_text(key),
        body: Some(body_text(aps)),
        accept_json: false,
    }
}

/// One access point as a parameter of a browser-location address.
pub open spec fn wifi_param_text(ap: AccessPointView) -> Seq<char> {
    PARAM_HEAD@ + ap.mac + SSID_LABEL@ + ap.ssid + STRENGTH_LABEL@ + int_text(ap.signal_level)
}

/// The parameters of all access points, in their order.
pub open spec fn wifi_params_text(aps: Seq<AccessPointView>) -> Seq<char>
    decreases aps.len(),
{
    if aps.len() == 0 {
        Seq::empty()
    } else {
        wifi_params_text(aps.drop_last()) + wifi_param_text(aps.last())
    }
}

/// The whole address of a browser-location request.
pub open spec fn browser_location_url_text(aps: Seq<AccessPointView>) -> Seq<char> {
    BROWSER_LOCATION_ENDPOINT@ + wifi_params_text(aps)
}

/// The browser-location request for `aps`: everything is in the address,
/// and a header asks for JSON.
pub open spec fn browser_location_request_of(aps: Seq<AccessPointView>) -> RequestView {
    RequestView {
        method: Method::Post,
        url: browser_location_url_text(aps),
        body: None,
        accept_json: true,
    }
}

/// Appends the entry of one access point to `out`.
fn append_entry(out: &mut String, ap: &AccessPoint)
    ensures
        final(out)@ == old(out)@ + entry_text(ap@),
{
    out.append(ENTRY_HEAD);
    out.append(ap.mac.as_str());
    out.append(SIGNAL_LABEL);
    append_int(out, ap.signal_level);
    out.append(CHANNEL_LABEL);
    append_int(out, ap.channel);
    out.append(ENTRY_TAIL);
    assert(out@ =~= old(out)@ + entry_text(ap@));
}

/// The text that a geolocation request carries for `towers`: the fixed
/// fields, then one entry for each access point, in the order given.
pub fn geolocate_body(towers: &Vec<AccessPoint>) -> (body: String)
    ensures
        body@ == body_text(towers.deep_view()),
        towers.len() == 0 ==> body@ == BODY_HEAD@ + BODY_TAIL@,
{
    let mut body = String::new();
    body.append(BODY_HEAD);
    let mut i: usize = 0;
    while i < towers.len()
        invariant
            i <= towers.len(),
            body@ == BODY_HEAD@ + entries_text(towers.deep_view().take(i as int)),
        decreases towers.len() - i,
    {
        if i > 0 {
            body.append(ENTRY_SEPARATOR);
        }
        append_entry(&mut body, &towers[i]);
        proof {
            let aps = towers.deep_view();
            assert(aps.take(i + 1).drop_last() =~= aps.take(i as int));
            assert(aps.take(i + 1).last() == towers[i as int]@);
            assert(body@ =~= BODY_HEAD@ + entries_text(aps.take(i + 1)));
        }
        i += 1;
    }
    proof {
        assert(towers.deep_view().take(i as int) =~= towers.deep_view());
        if towers.len() == 0 {
            lemma_body_without_access_points();
            assert(towers.deep_view() =~= Seq::empty());
        }
    }
    body.append(BODY_TAIL);
    body
}

/// The address of the geolocation service for the holder of `key`. The key
/// is taken as it is.
pub fn geolocate_url(key: &str) -> (url: String)
    ensures
        url@ == geolocate_url_text(key@),
{
    let mut url = String::new();
    url.append(GEOLOCATE_ENDPOINT);
    url.append(key);
    url
}

/// Appends the parameter of one access point to `out`.
fn append_wifi_param(out: &mut String, ap: &AccessPoint)
    ensures
        final(out)@ == old(out)@ + wifi_param_text(ap@),
{
    out.append(PARAM_HEAD);
    out.append(ap.mac.as_str());
    out.append(SSID_LABEL);
    out.append(ap.ssid.as_str());
    out.append(STRENGTH_LABEL);
    append_int(out, ap.signal_level);
    assert(out@ =~= old(out)@ + wifi_param_text(ap@));
}

/// The address of a browser-location request for `towers`: the fixed
/// parameters, then one parameter for each access point, in the order given.
pub fn browser_location_url(towers: &Vec<AccessPoint>) -> (url: String)
    ensures
        url@ == browser_location_url_text(towers.deep_view()),
{
    let mut url = String::new();
    url.append(BROWSER_LOCATION_ENDPOINT);
    let mut i: usize = 0;
    while i < towers.len()
        invariant
            i <= towers.len(),
            url@ == BROWSER_LOCATION_ENDPOINT@ + wifi_params_text(
                towers.deep_view().take(i as int),
            ),
        decreases towers.len() - i,
    {
        append_wifi_param(&mut url, &towers[i]);
        proof {
            let aps = towers.deep_view();
            assert(aps.take(i + 1).drop_last() =~= aps.take(i as int));
            assert(aps.take(i + 1).last() == towers[i as int]@);
            assert(url@ =~= BROWSER_LOCATION_ENDPOINT@ + wifi_params_text(aps.take(i + 1)));
        }
        i += 1;
    }
    proof {
        assert(towers.deep_view().take(i as int) =~= towers.deep_view());
    }
    url
}

/// The request that asks the browser-location service where `towers` are.
/// It is made for any list of access points, an empty one too.
pub fn browser_location_request(towers: &Vec<AccessPoint>) -> (request: Request)
    ensures
        request@ == browser_location_request_of(towers.deep_view()),
{
    Request {
        method: Method::Post,
        url: browser_location_url(towers),
        body: None,
        accept_json: true,
    }
}

} // verus!

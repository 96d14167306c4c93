//! Addresses of Google Maps pages, whose query strings url_encoded_data
//! writes.
use vstd::prelude::*;
use vstd::string::StringExecFns;

verus! {

/// The address `url` with the query parameter `key` set to the single value
/// `value`, as url_encoded_data writes it. The text up to and with the first
/// `?` is kept, and any further `?` right after it is dropped; where `url`
/// holds no `?`, all of it is read as the query. The parameters already there
/// follow, grouped by name in the order in which their names first appear;
/// `key` keeps its place among them, or comes last where it was not there;
/// names and values are form-urlencoded.
pub uninterp spec fn url_with_query_value(url: Seq<char>, key: Seq<char>, value: Seq<char>) -> Seq<
    char,
>;

/// Relies on url_encoded_data's `UrlEncodedData::parse_str`, `set_one`,
/// `done` and `to_string_of_original_order`, used together to set one query
/// parameter. With a single key set, the result depends on the three strings
/// alone.
#[verifier::external_body]
fn set_query_value(url: &str, key: &str, value: &str) -> (r: String)
    ensures
        r@ == url_with_query_value(url@, key@, value@),
{
    url_encoded_data::UrlEncodedData::parse_str(url)
        .set_one(key, value)
        .done()
        .to_string_of_original_order()
}

/// The Google Maps page that plans a route from `origin` to `destination`.
pub open spec fn google_maps_url_of(origin: Seq<char>, destination: Seq<char>) -> Seq<char> {
    url_with_query_value(
        url_with_query_value("https://www.google.com/maps/dir/?api=1"@, "origin"@, origin),
        "destination"@,
        destination,
    )
}

/// The base of the static map picture, before its key and markers.
pub open spec fn static_map_base() -> Seq<char> {
    "https://maps.googleapis.com/maps/api/staticmap?size=512x512&maptype=roadmap\\"@
}

/// The static map picture with markers at `origin` and `destination`, asked
/// for with the API key `token`.
pub open spec fn static_map_url_of(origin: Seq<char>, destination: Seq<char>, token: Seq<char>) -> Seq<
    char,
> {
    url_with_query_value(
        url_with_query_value(static_map_base(), "key"@, token),
        "markers"@,
        origin + "|"@ + destination,
    )
}

/// The Google Maps page that plans a route from `origin` to `destination`.
pub fn google_maps_url(origin: &str, destination: &str) -> (r: String)
    ensures
        r@ == google_maps_url_of(origin@, destination@),
{
    let with_origin = set_query_value("https://www.google.com/maps/dir/?api=1", "origin", origin);
    set_query_value(with_origin.as_str(), "destination", destination)
}

/// The address of a 512 by 512 road map picture with markers at `origin`
/// and `destination`, asked for with the Static Maps API key `token`.
pub fn static_map_url(origin: &str, destination: &str, token: &str) -> (r: String)
    ensures
        r@ == static_map_url_of(origin@, destination@, token@),
{
    let with_key = set_query_value(
        "https://maps.googleapis.com/maps/api/staticmap?size=512x512&maptype=roadmap\\",
        "key",
        token,
    );
    let mut locations = String::from_str(origin);
    locations.append("|");
    locations.append(destination);
    set_query_value(with_key.as_str(), "markers", locations.as_str())
}

} // verus!

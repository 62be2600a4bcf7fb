//! The addresses of the service's endpoints.

use vstd::prelude::*;
use vstd::string::*;
use crate::category::SatelliteCategory;
use crate::text::{decimal, decimal_text};

verus! {

/// Where the service answers.
pub const DEFAULT_BASE_URL: &'static str = "https://www.n2yo.com/rest/v1";

/// An API key and the base address of the service.
///
/// An observer's latitude, longitude and altitude go into an address as the
/// caller words them: decimal numerals, in degrees and metres.
#[derive(Debug)]
pub struct Client {
    pub api_key: String,
    pub base_url: String,
}

/// The address of a request: the base address, the path, and the key as the
/// last parameter.
pub open spec fn request_url(base_url: Seq<char>, url_part: Seq<char>, api_key: Seq<char>) -> Seq<
    char,
> {
    base_url + url_part + "&apiKey="@ + api_key
}

/// The path that asks for the two-line element set of a satellite.
pub open spec fn tle_path(id: u32) -> Seq<char> {
    "/satellite/tle/"@ + decimal(id as nat)
}

/// The path that asks for a satellite's positions over the coming seconds.
pub open spec fn positions_path(
    id: u32,
    observer_lat: Seq<char>,
    observer_lng: Seq<char>,
    observer_alt: Seq<char>,
    seconds: u32,
) -> Seq<char> {
    "/satellite/positions/"@ + decimal(id as nat) + "/"@ + observer_lat + "/"@ + observer_lng
        + "/"@ + observer_alt + "/"@ + decimal(seconds as nat)
}

/// The path that asks for a satellite's visible passes over the coming days.
pub open spec fn visual_passes_path(
    id: u32,
    observer_lat: Seq<char>,
    observer_lng: Seq<char>,
    observer_alt: Seq<char>,
    days: u32,
    min_visibility: u32,
) -> Seq<char> {
    "/satellite/visualpasses/"@ + decimal(id as nat) + "/"@ + observer_lat + "/"@ + observer_lng
        + "/"@ + observer_alt + "/"@ + decimal(days as nat) + "/"@ + decimal(
        min_visibility as nat,
    )
}

/// The path that asks for a satellite's radio passes over the coming days.
pub open spec fn radio_passes_path(
    id: u32,
    observer_lat: Seq<char>,
    observer_lng: Seq<char>,
    observer_alt: Seq<char>,
    days: u32,
    min_elevation: u32,
) -> Seq<char> {
    "/satellite/radiopasses/"@ + decimal(id as nat) + "/"@ + observer_lat + "/"@ + observer_lng
        + "/"@ + observer_alt + "/"@ + decimal(days as nat) + "/"@ + decimal(min_elevation as nat)
}

/// The path that asks for the satellites of a category above an observer.
pub open spec fn above_path(
    observer_lat: Seq<char>,
    observer_lng: Seq<char>,
    observer_alt: Seq<char>,
    search_radius: u32,
    category: SatelliteCategory,
) -> Seq<char> {
    "/above/"@ + observer_lat + "/"@ + observer_lng + "/"@ + observer_alt + "/"@ + decimal(
        search_radius as nat,
    ) + "/"@ + decimal(category.code_of() as nat)
}

/// Starts a path for an observer: the prefix, then the three coordinates,
/// each followed by a slash.
fn observer_part(
    prefix: String,
    observer_lat: &str,
    observer_lng: &str,
    observer_alt: &str,
) -> (r: String)
    ensures
        r@ == prefix@ + observer_lat@ + "/"@ + observer_lng@ + "/"@ + observer_alt@ + "/"@,
{
    let mut part = prefix;
    part.append(observer_lat);
    part.append("/");
    part.append(observer_lng);
    part.append("/");
    part.append(observer_alt);
    part.append("/");
    part
}

impl Client {
    /// A client of the service at [`DEFAULT_BASE_URL`].
    pub fn new(api_key: &str) -> (r: Client)
        ensures
            r.api_key@ == api_key@,
            r.base_url@ == DEFAULT_BASE_URL@,
    {
        Client {
            api_key: String::from_str(api_key),
            base_url: String::from_str(DEFAULT_BASE_URL),
        }
    }

    /// A client of the service at another base address. Neither text is
    /// checked or changed.
    pub fn new_with_base_url(api_key: &str, base_url: &str) -> (r: Client)
        ensures
            r.api_key@ == api_key@,
            r.base_url@ == base_url@,
    {
        Client { api_key: String::from_str(api_key), base_url: String::from_str(base_url) }
    }

    /// The address of the request for `url_part`.
    pub fn form_request_url(&self, url_part: &str) -> (r: String)
        ensures
            r@ == request_url(self.base_url@, url_part@, self.api_key@),
    {
        let mut url = self.base_url.clone();
        url.append(url_part);
        url.append("&apiKey=");
        url.append(self.api_key.as_str());
        url
    }

    /// The address that answers with the two-line element set of the
    /// satellite `id`.
    pub fn tle_url(&self, id: u32) -> (r: String)
        ensures
            r@ == request_url(self.base_url@, tle_path(id), self.api_key@),
    {
        let mut url_part = String::from_str("/satellite/tle/");
        url_part.append(decimal_text(id).as_str());
        self.form_request_url(url_part.as_str())
    }

    /// The address that answers with the positions of the satellite `id`
    /// over the coming `seconds` seconds.
    pub fn positions_url(
        &self,
        id: u32,
        observer_lat: &str,
        observer_lng: &str,
        observer_alt: &str,
        seconds: u32,
    ) -> (r: String)
        ensures
            r@ == request_url(
                self.base_url@,
                positions_path(id, observer_lat@, observer_lng@, observer_alt@, seconds),
                self.api_key@,
            ),
    {
        let mut prefix = String::from_str("/satellite/positions/");
        prefix.append(decimal_text(id).as_str());
        prefix.append("/");
        let mut url_part = observer_part(prefix, observer_lat, observer_lng, observer_alt);
        url_part.append(decimal_text(seconds).as_str());
        self.form_request_url(url_part.as_str())
    }

    /// The address that answers with the passes of the satellite `id` over
    /// the coming `days` days that can be seen for at least `min_visibility`
    /// seconds.
    pub fn visual_passes_url(
        &self,
        id: u32,
        observer_lat: &str,
        observer_lng: &str,
        observer_alt: &str,
        days: u32,
        min_visibility: u32,
    ) -> (r: String)
        ensures
            r@ == request_url(
                self.base_url@,
                visual_passes_path(
                    id,
                    observer_lat@,
                    observer_lng@,
                    observer_alt@,
                    days,
                    min_visibility,
                ),
                self.api_key@,
            ),
    {
        let mut prefix = String::from_str("/satellite/visualpasses/");
        prefix.append(decimal_text(id).as_str());
        prefix.append("/");
        let mut url_part = observer_part(prefix, observer_lat, observer_lng, observer_alt);
        url_part.append(decimal_text(days).as_str());
        url_part.append("/");
        url_part.append(decimal_text(min_visibility).as_str());
        self.form_request_url(url_part.as_str())
    }

    /// The address that answers with the passes of the satellite `id` over
    /// the coming `days` days that rise to at least `min_elevation` degrees.
    pub fn radio_passes_url(
        &self,
        id: u32,
        observer_lat: &str,
        observer_lng: &str,
        observer_alt: &str,
        days: u32,
        min_elevation: u32,
    ) -> (r: String)
        ensures
            r@ == request_url(
                self.base_url@,
                radio_passes_path(
                    id,
                    observer_lat@,
                    observer_lng@,
                    observer_alt@,
                    days,
                    min_elevation,
                ),
                self.api_key@,
            ),
    {
        let mut prefix = String::from_str("/satellite/radiopasses/");
        prefix.append(decimal_text(id).as_str());
        prefix.append("/");
        let mut url_part = observer_part(prefix, observer_lat, observer_lng, observer_alt);
        url_part.append(decimal_text(days).as_str());
        url_part.append("/");
        url_part.append(decimal_text(min_elevation).as_str());
        self.form_request_url(url_part.as_str())
    }

    /// The address that answers with the satellites of `category` within
    /// `search_radius` degrees of the observer's zenith.
    pub fn above_url(
        &self,
        observer_lat: &str,
        observer_lng: &str,
        observer_alt: &str,
        search_radius: u32,
        category: SatelliteCategory,
    ) -> (r: String)
        ensures
            r@ == request_url(
                self.base_url@,
                above_path(observer_lat@, observer_lng@, observer_alt@, search_radius, category),
                self.api_key@,
            ),
    {
        let prefix = String::from_str("/above/");
        let mut url_part = observer_part(prefix, observer_lat, observer_lng, observer_alt);
        url_part.append(decimal_text(search_radius).as_str());
        url_part.append("/");
        url_part.append(decimal_text(category.code()).as_str());
        self.form_request_url(url_part.as_str())
    }
}

} // verus!

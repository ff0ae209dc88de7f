use vstd::prelude::*;
use crate::text::{is_blank, decimal, trim, u8_decimal, lemma_trim_empty_iff_blank};

verus! {

/// Location found for the current IP address (used to set up a first run).
#[derive(Debug, Clone)]
pub struct IpLocation<T> {
    pub city: String,
    pub lat: T,
    pub lon: T,
    pub status: String,
}

/// Why an IP location lookup gave no location.
#[derive(Debug, Clone, Copy, PartialEq, Eq, Structural)]
pub enum LocationError {
    /// The service answered with a status other than "success".
    NotSuccess,
}

/// Accepts a located address only when the service reports "success".
pub fn accept_ip_location<T>(loc: IpLocation<T>) -> (r: Result<IpLocation<T>, LocationError>)
    ensures
        loc.status@ == "success"@ ==> r == Ok::<IpLocation<T>, LocationError>(loc),
        loc.status@ != "success"@ ==> r == Err::<IpLocation<T>, LocationError>(LocationError::NotSuccess),
{
    let success = String::from_str("success");
    if loc.status == success {
        Ok(loc)
    } else {
        Err(LocationError::NotSuccess)
    }
}

/// A city found by the geocoding search.
#[derive(Debug, Clone)]
pub struct GeoResult<T> {
    pub name: String,
    pub latitude: T,
    pub longitude: T,
    /// Country name (empty where the service gives none)
    pub country: String,
    /// Region (state, province), where the service gives one
    pub admin1: Option<String>,
}

/// "name, region, country" where a region with a name is known, else "name, country".
pub open spec fn place_label(name: Seq<char>, country: Seq<char>, admin1: Option<Seq<char>>) -> Seq<char> {
    match admin1 {
        Some(region) => if region.len() > 0 {
            name + ", "@ + region + ", "@ + country
        } else {
            name + ", "@ + country
        },
        None => name + ", "@ + country,
    }
}

/// The view of an optional text.
pub open spec fn opt_view(s: Option<String>) -> Option<Seq<char>> {
    match s {
        Some(x) => Some(x@),
        None => None,
    }
}

impl<T> GeoResult<T> {
    /// Human-readable label: "Kyiv, Ukraine" or "Kyiv, Kyiv Oblast, Ukraine".
    pub fn display_label(&self) -> (r: String)
        ensures
            r@ == place_label(self.name@, self.country@, opt_view(self.admin1)),
    {
        let mut label = self.name.clone();
        match &self.admin1 {
            Some(region) => {
                if region.as_str().is_empty() {
                    label.append(", ");
                    label.append(self.country.as_str());
                } else {
                    label.append(", ");
                    label.append(region.as_str());
                    label.append(", ");
                    label.append(self.country.as_str());
                }
            },
            None => {
                label.append(", ");
                label.append(self.country.as_str());
            },
        }
        label
    }
}

/// An unreserved byte: ASCII letters and digits, `-`, `.`, `_` and `~`.
pub open spec fn is_unreserved(b: u8) -> bool {
    ||| 48 <= b <= 57
    ||| 65 <= b <= 90
    ||| 97 <= b <= 122
    ||| b == 45
    ||| b == 46
    ||| b == 95
    ||| b == 126
}

/// Upper-case hexadecimal digit of `d` (below sixteen).
pub open spec fn hex_digit(d: u8) -> char {
    if d < 10 {
        (48 + d) as char
    } else {
        (55 + d) as char
    }
}

/// Percent-encoding of bytes: unreserved bytes stand for themselves, every other
/// byte becomes `%` and two upper-case hexadecimal digits.
pub open spec fn percent_encoded(bytes: Seq<u8>) -> Seq<char>
    decreases bytes.len(),
{
    if bytes.len() == 0 {
        Seq::empty()
    } else {
        let b = bytes[0];
        let head = if is_unreserved(b) {
            seq![b as char]
        } else {
            seq!['%', hex_digit(b / 16), hex_digit(b % 16)]
        };
        head + percent_encoded(bytes.drop_first())
    }
}

/// Percent-encodes the UTF-8 bytes of a text with `urlencoding::encode`.
/// The contract claims what the crate documents and its source shows: every byte
/// but ASCII letters, digits and `-`, `_`, `.`, `~` becomes `%` and two upper-case
/// hexadecimal digits; those bytes stay as they are.
#[verifier::external_body]
fn url_encode(s: &str) -> (r: String)
    ensures
        r@ == percent_encoded(vstd::utf8::encode_utf8(s@)),
{
    urlencoding::encode(s).into_owned()
}

/// The geocoding search address for a query and a result count.
pub open spec fn search_address(query: Seq<char>, count: u8) -> Seq<char> {
    "https://geocoding-api.open-meteo.com/v1/search?name="@
        + percent_encoded(vstd::utf8::encode_utf8(query))
        + "&count="@
        + decimal(count as nat)
        + "&language=en&format=json"@
}

/// The address to ask for cities matching `query` (up to `count` of them);
/// `None` for a blank query, which is answered with no cities without asking.
pub fn search_url(query: &str, count: u8) -> (r: Option<String>)
    ensures
        r is None <==> is_blank(query@),
        r matches Some(u) ==> u@ == search_address(query@, count),
{
    let trimmed = trim(query);
    proof {
        lemma_trim_empty_iff_blank(trimmed@, query@);
    }
    if trimmed.is_empty() {
        return None;
    }
    let mut url = String::from_str("https://geocoding-api.open-meteo.com/v1/search?name=");
    let encoded = url_encode(query);
    url.append(encoded.as_str());
    url.append("&count=");
    let n = u8_decimal(count);
    url.append(n.as_str());
    url.append("&language=en&format=json");
    Some(url)
}

/// The first `count` results, in order (all of them when there are fewer):
/// a search returns up to `count` cities.
pub fn first_results<R>(results: Vec<R>, count: u8) -> (r: Vec<R>)
    ensures
        results@.len() <= count ==> r@ == results@,
        results@.len() > count ==> r@ == results@.subrange(0, count as int),
{
    let mut kept = results;
    kept.truncate(count as usize);
    kept
}

} // verus!

//! Where the dataset is fetched from.
use vstd::prelude::*;

verus! {

#[verifier::external_type_specification]
#[verifier::external_body]
pub struct ExUrl(url::Url);

/// Whether text is an absolute URL by the WHATWG URL standard.
pub uninterp spec fn url_accepts(text: Seq<char>) -> bool;

/// Relies on url::Url::parse: it parses the text as an absolute URL, and
/// whether it succeeds depends on the text alone.
#[verifier::external_body]
fn parse_url(text: &str) -> (r: Option<url::Url>)
    ensures
        r is Some <==> url_accepts(text@),
{
    url::Url::parse(text).ok()
}

/// The host that serves the dataset.
pub fn default_host() -> (r: &'static str)
    ensures
        r@ == "https://ddhr36ot0te3x.cloudfront.net"@,
{
    "https://ddhr36ot0te3x.cloudfront.net"
}

/// The dataset's address on a host.
pub open spec fn dataset_address_of(host: Seq<char>) -> Seq<char> {
    host + "/city_names.csv"@
}

/// The dataset's address on a host, as text.
pub fn dataset_address(host: &str) -> (r: String)
    ensures
        r@ == dataset_address_of(host@),
{
    let mut r = String::from_str(host);
    r.append("/city_names.csv");
    r
}

/// The dataset's address on a host, parsed; `None` where it is not a URL.
pub fn dataset_url(host: &str) -> (r: Option<url::Url>)
    ensures
        r is Some <==> url_accepts(dataset_address_of(host@)),
{
    let address = dataset_address(host);
    parse_url(address.as_str())
}

} // verus!

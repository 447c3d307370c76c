//! Turning a shipping request into a reqwest request, ready to be sent.
use vstd::prelude::*;
use crate::writer::ShippingRequest;

verus! {

#[verifier::external_type_specification]
#[verifier::external_body]
pub struct ExClient(reqwest::Client);

#[verifier::external_type_specification]
#[verifier::external_body]
pub struct ExRequestBuilder(reqwest::RequestBuilder);

/// The builder that `Client::post` returns for this client and URL.
pub uninterp spec fn post_of(client: reqwest::Client, url: Seq<char>) -> reqwest::RequestBuilder;

/// The builder that `RequestBuilder::header` returns.
pub uninterp spec fn header_of(
    b: reqwest::RequestBuilder,
    name: Seq<char>,
    value: Seq<char>,
) -> reqwest::RequestBuilder;

/// The builder that `RequestBuilder::body` returns.
pub uninterp spec fn body_of(b: reqwest::RequestBuilder, body: Seq<u8>) -> reqwest::RequestBuilder;

/// Relies on reqwest::Client::post: starts a POST to `url`. An unparsable
/// URL does not panic; it is reported when the request is sent. The result
/// depends on the client and the URL alone.
#[verifier::external_body]
fn post_to(client: &reqwest::Client, url: &str) -> (r: reqwest::RequestBuilder)
    ensures
        r == post_of(*client, url@),
{
    client.post(url)
}

/// Relies on reqwest::RequestBuilder::header: appends one header. An invalid
/// name or value does not panic; it is reported when the request is sent. The
/// result depends on the builder, the name and the value alone.
#[verifier::external_body]
fn with_header(b: reqwest::RequestBuilder, name: &str, value: &str) -> (r:
    reqwest::RequestBuilder)
    ensures
        r == header_of(b, name@, value@),
{
    b.header(name, value)
}

/// Relies on reqwest::RequestBuilder::body: sets the body to these bytes; the
/// result depends on the builder and the bytes alone.
#[verifier::external_body]
fn with_body(b: reqwest::RequestBuilder, body: Vec<u8>) -> (r: reqwest::RequestBuilder)
    ensures
        r == body_of(b, body@),
{
    b.body(body)
}

impl ShippingRequest {
    /// A request on `client` to the template's URL, with its content type and
    /// authentication headers and the body.
    pub fn into_builder(self, client: &reqwest::Client) -> (r: reqwest::RequestBuilder)
        ensures
            r == body_of(
                header_of(
                    header_of(
                        post_of(*client, self.template.url@),
                        "content-type"@,
                        self.template.content_type@,
                    ),
                    "authorization"@,
                    self.template.authorization@,
                ),
                self.body@,
            ),
    {
        proof {
            reveal_strlit("content-type");
            reveal_strlit("authorization");
        }
        let ShippingRequest { template, body } = self;
        let b = post_to(client, template.url.as_str());
        let b = with_header(b, "content-type", template.content_type.as_str());
        let b = with_header(b, "authorization", template.authorization.as_str());
        with_body(b, body)
    }
}

} // verus!

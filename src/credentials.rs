//! Service address and secret, and the request template built from them.
use vstd::prelude::*;
use vstd::string::*;

verus! {

/// The character of a decimal digit.
pub open spec fn digit_char(d: nat) -> char {
    if d == 0 { '0' }
    else if d == 1 { '1' }
    else if d == 2 { '2' }
    else if d == 3 { '3' }
    else if d == 4 { '4' }
    else if d == 5 { '5' }
    else if d == 6 { '6' }
    else if d == 7 { '7' }
    else if d == 8 { '8' }
    else { '9' }
}

/// The decimal text of `n`, without leading zeros.
pub open spec fn decimal(n: nat) -> Seq<char>
    decreases n,
{
    if n < 10 {
        seq![digit_char(n)]
    } else {
        decimal(n / 10).push(digit_char(n % 10))
    }
}

/// The endpoint that receives the documents of collection `index`.
pub open spec fn documents_url(host: Seq<char>, index: u16) -> Seq<char> {
    host + "/indexes/"@ + decimal(index as nat) + "/documents"@
}

/// The value of the authentication header for `key`.
pub open spec fn bearer(key: Seq<char>) -> Seq<char> {
    "Bearer "@ + key
}

fn digit_str(d: u16) -> (r: &'static str)
    requires
        d < 10,
    ensures
        r@ == seq![digit_char(d as nat)],
{
    proof {
        reveal_strlit("0");
        reveal_strlit("1");
        reveal_strlit("2");
        reveal_strlit("3");
        reveal_strlit("4");
        reveal_strlit("5");
        reveal_strlit("6");
        reveal_strlit("7");
        reveal_strlit("8");
        reveal_strlit("9");
    }
    if d == 0 { "0" }
    else if d == 1 { "1" }
    else if d == 2 { "2" }
    else if d == 3 { "3" }
    else if d == 4 { "4" }
    else if d == 5 { "5" }
    else if d == 6 { "6" }
    else if d == 7 { "7" }
    else if d == 8 { "8" }
    else { "9" }
}

/// Appends the decimal text of `n` to `s`.
fn push_decimal(s: &mut String, n: u16)
    ensures
        final(s)@ == old(s)@ + decimal(n as nat),
    decreases n,
{
    if n >= 10 {
        push_decimal(s, n / 10);
    }
    s.append(digit_str(n % 10));
    assert(final(s)@ =~= old(s)@ + decimal(n as nat));
}

/// A POST request to the indexing service, before a body is attached.
pub struct RequestTemplate {
    /// Always `POST`.
    pub method: String,
    pub url: String,
    pub content_type: String,
    /// The value of the `Authorization` header.
    pub authorization: String,
}

/// The indexing service's base address and authentication secret.
pub struct Credentials {
    host: String,
    master_key: String,
}

impl Credentials {
    pub closed spec fn host(&self) -> Seq<char> {
        self.host@
    }

    pub closed spec fn master_key(&self) -> Seq<char> {
        self.master_key@
    }

    /// The template that `build_request` returns for collection `index`.
    pub open spec fn is_request_for(&self, index: u16, r: RequestTemplate) -> bool {
        &&& r.method@ == "POST"@
        &&& r.url@ == documents_url(self.host(), index)
        &&& r.content_type@ == "application/json"@
        &&& r.authorization@ == bearer(self.master_key())
    }

    pub fn new(host: &str, master_key: &str) -> (r: Self)
        ensures
            r.host() == host@,
            r.master_key() == master_key@,
    {
        Credentials { host: String::from_str(host), master_key: String::from_str(master_key) }
    }

    /// `POST {host}/indexes/{index}/documents`, with a JSON content type and
    /// the secret as a bearer token.
    pub fn build_request(&self, index_id: u16) -> (r: RequestTemplate)
        ensures
            self.is_request_for(index_id, r),
    {
        let mut url = self.host.clone();
        url.append("/indexes/");
        push_decimal(&mut url, index_id);
        url.append("/documents");
        let authorization = String::from_str("Bearer ").concat(self.master_key.as_str());
        proof {
            reveal_strlit("/indexes/");
            reveal_strlit("/documents");
            reveal_strlit("Bearer ");
            reveal_strlit("POST");
            reveal_strlit("application/json");
        }
        assert(url@ =~= documents_url(self.host(), index_id));
        RequestTemplate {
            method: String::from_str("POST"),
            url,
            content_type: String::from_str("application/json"),
            authorization,
        }
    }
}

} // verus!

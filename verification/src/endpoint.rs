//! Endpoint descriptors: the address of the backend's health check and of the
//! served site, and the URL text of each.

use vstd::prelude::*;
use vstd::string::*;

verus! {

/// The port of the backend's health check.
pub const BACKEND_PORT: u16 = 8885;

/// The port of the served site.
pub const SITE_PORT: u16 = 8871;

/// The scheme of an endpoint's URL.
#[derive(Debug, Clone, Copy, PartialEq, Eq, Structural)]
pub enum Scheme {
    Http,
    Https,
}

impl Scheme {
    /// The scheme as it stands in a URL.
    pub open spec fn text(self) -> Seq<char> {
        match self {
            Scheme::Http => "http"@,
            Scheme::Https => "https"@,
        }
    }

    /// The scheme as it stands in a URL.
    pub fn as_str(self) -> (text: &'static str)
        ensures
            text@ == self.text(),
    {
        match self {
            Scheme::Http => "http",
            Scheme::Https => "https",
        }
    }
}

/// The character of the decimal digit `digit`.
pub open spec fn digit_char(digit: nat) -> char
    recommends
        digit < 10,
{
    if digit == 0 {
        '0'
    } else if digit == 1 {
        '1'
    } else if digit == 2 {
        '2'
    } else if digit == 3 {
        '3'
    } else if digit == 4 {
        '4'
    } else if digit == 5 {
        '5'
    } else if digit == 6 {
        '6'
    } else if digit == 7 {
        '7'
    } else if digit == 8 {
        '8'
    } else {
        '9'
    }
}

/// The decimal numeral of `number`, without leading zeros.
pub open spec fn decimal_text(number: nat) -> Seq<char>
    decreases number,
{
    if number < 10 {
        seq![digit_char(number)]
    } else {
        decimal_text(number / 10).push(digit_char(number % 10))
    }
}

/// The numeral of one decimal digit.
fn digit_str(digit: u16) -> (text: &'static str)
    requires
        digit < 10,
    ensures
        text@ == seq![digit_char(digit as nat)],
{
    proof {
        reveal_strlit("0");
        reveal_strlit("1");
        reveal_strlit("2");
        reveal_strlit("3");
        reveal_strlit("4");
        reveal_strlit("5");
        reveal_strlit("6");
        reveal_strlit("7");
        reveal_strlit("8");
        reveal_strlit("9");
    }
    let text = if digit == 0 {
        "0"
    } else if digit == 1 {
        "1"
    } else if digit == 2 {
        "2"
    } else if digit == 3 {
        "3"
    } else if digit == 4 {
        "4"
    } else if digit == 5 {
        "5"
    } else if digit == 6 {
        "6"
    } else if digit == 7 {
        "7"
    } else if digit == 8 {
        "8"
    } else {
        "9"
    };
    assert(text@ =~= seq![digit_char(digit as nat)]);
    text
}

/// Appends the decimal numeral of `number` to `text`.
fn append_decimal(text: &mut String, number: u16)
    ensures
        final(text)@ == old(text)@ + decimal_text(number as nat),
    decreases number,
{
    if number < 10 {
        text.append(digit_str(number));
    } else {
        append_decimal(text, number / 10);
        text.append(digit_str(number % 10));
        assert(old(text)@ + decimal_text((number / 10) as nat) + seq![
            digit_char((number % 10) as nat),
        ] =~= old(text)@ + decimal_text(number as nat));
    }
}

/// A scheme, a host, a port and a path: the target of a health check, or the
/// root of a served site.
#[derive(Debug, Clone, PartialEq, Eq)]
pub struct EndpointDescriptor {
    pub scheme: Scheme,
    pub host: String,
    pub port: u16,
    pub path: String,
}

impl EndpointDescriptor {
    /// The URL of the endpoint: scheme, `://`, host, `:`, the port in
    /// decimal, and the path.
    pub open spec fn url_text(&self) -> Seq<char> {
        self.scheme.text() + "://"@ + self.host@ + ":"@ + decimal_text(self.port as nat)
            + self.path@
    }

    /// Whether this is the health check of the backend:
    /// `http://localhost:8885/graphql`.
    pub open spec fn is_backend_health(&self) -> bool {
        &&& self.scheme == Scheme::Http
        &&& self.host@ == "localhost"@
        &&& self.port == BACKEND_PORT
        &&& self.path@ == "/graphql"@
    }

    /// Whether this is the root of the served site: `http://localhost:8871`.
    pub open spec fn is_site_root(&self) -> bool {
        &&& self.scheme == Scheme::Http
        &&& self.host@ == "localhost"@
        &&& self.port == SITE_PORT
        &&& self.path@ == ""@
    }

    /// The health check of the backend.
    pub fn backend_health() -> (endpoint: EndpointDescriptor)
        ensures
            endpoint.is_backend_health(),
    {
        EndpointDescriptor {
            scheme: Scheme::Http,
            host: String::from_str("localhost"),
            port: BACKEND_PORT,
            path: String::from_str("/graphql"),
        }
    }

    /// The root of the served site.
    pub fn site_root() -> (endpoint: EndpointDescriptor)
        ensures
            endpoint.is_site_root(),
    {
        EndpointDescriptor {
            scheme: Scheme::Http,
            host: String::from_str("localhost"),
            port: SITE_PORT,
            path: String::from_str(""),
        }
    }

    /// The URL of the endpoint.
    pub fn url(&self) -> (text: String)
        ensures
            text@ == self.url_text(),
    {
        let mut text = String::from_str(self.scheme.as_str());
        text.append("://");
        text.append(self.host.as_str());
        text.append(":");
        append_decimal(&mut text, self.port);
        text.append(self.path.as_str());
        text
    }
}

/// The URL of the backend's health check is `http://localhost:8885/graphql`.
pub proof fn backend_health_url(endpoint: EndpointDescriptor)
    requires
        endpoint.is_backend_health(),
    ensures
        endpoint.url_text() == "http://localhost:8885/graphql"@,
{
    reveal_strlit("http");
    reveal_strlit("://");
    reveal_strlit("localhost");
    reveal_strlit(":");
    reveal_strlit("/graphql");
    reveal_strlit("http://localhost:8885/graphql");
    reveal_with_fuel(decimal_text, 5);
    assert(decimal_text(8885) =~= seq!['8', '8', '8', '5']);
    assert(endpoint.url_text() =~= "http://localhost:8885/graphql"@);
}

/// The URL of the served site's root is `http://localhost:8871`.
pub proof fn site_root_url(endpoint: EndpointDescriptor)
    requires
        endpoint.is_site_root(),
    ensures
        endpoint.url_text() == "http://localhost:8871"@,
{
    reveal_strlit("http");
    reveal_strlit("://");
    reveal_strlit("localhost");
    reveal_strlit(":");
    reveal_strlit("");
    reveal_strlit("http://localhost:8871");
    reveal_with_fuel(decimal_text, 5);
    assert(decimal_text(8871) =~= seq!['8', '8', '7', '1']);
    assert(endpoint.url_text() =~= "http://localhost:8871"@);
}

} // verus!

//! The state of a session with the service.
use vstd::prelude::*;
use vstd::string::StringExecFns;

verus! {

/// Mathematical model of an endpoint.
pub ghost struct Address {
    pub host: Seq<char>,
    pub port: u16,
    pub tls: bool,
}

/// Where the service listens.
#[derive(Clone, Debug, PartialEq, Eq)]
pub struct Endpoint {
    /// The name or address of the host.
    pub host: String,
    /// The port.
    pub port: u16,
    /// Whether the service is reached over TLS.
    pub tls: bool,
}

impl View for Endpoint {
    type V = Address;

    open spec fn view(&self) -> Address {
        Address { host: self.host@, port: self.port, tls: self.tls }
    }
}

/// The digit `d` as text.
pub open spec fn digit(d: int) -> Seq<char> {
    if d == 0 {
        "0"@
    } else if d == 1 {
        "1"@
    } else if d == 2 {
        "2"@
    } else if d == 3 {
        "3"@
    } else if d == 4 {
        "4"@
    } else if d == 5 {
        "5"@
    } else if d == 6 {
        "6"@
    } else if d == 7 {
        "7"@
    } else if d == 8 {
        "8"@
    } else {
        "9"@
    }
}

/// The number `n` in decimal digits, without leading zeros.
pub open spec fn decimal(n: nat) -> Seq<char>
    decreases n,
{
    if n < 10 {
        digit(n as int)
    } else {
        decimal(n / 10) + digit((n % 10) as int)
    }
}

/// The address of an endpoint as one text: the scheme, the host, the port
/// and the path of the service.
pub open spec fn url_of(a: Address) -> Seq<char> {
    (if a.tls {
        "https://"@
    } else {
        "http://"@
    }) + a.host + ":"@ + decimal(a.port as nat) + "/api/"@
}

/// The digit `d` as text.
fn digit_text(d: u16) -> (r: &'static str)
    requires
        d < 10,
    ensures
        r@ == digit(d as int),
{
    if d == 0 {
        "0"
    } else if d == 1 {
        "1"
    } else if d == 2 {
        "2"
    } else if d == 3 {
        "3"
    } else if d == 4 {
        "4"
    } else if d == 5 {
        "5"
    } else if d == 6 {
        "6"
    } else if d == 7 {
        "7"
    } else if d == 8 {
        "8"
    } else {
        "9"
    }
}

/// The number `n` in decimal digits, without leading zeros.
pub fn decimal_text(n: u16) -> (r: String)
    ensures
        r@ == decimal(n as nat),
    decreases n,
{
    if n < 10 {
        String::from_str(digit_text(n))
    } else {
        decimal_text(n / 10).concat(digit_text(n % 10))
    }
}

impl Endpoint {
    /// The endpoint at `host` and `port`, over TLS where `tls`.
    pub fn new(host: &str, port: u16, tls: bool) -> (r: Endpoint)
        ensures
            r@ == (Address { host: host@, port, tls }),
    {
        Endpoint { host: host.to_owned(), port, tls }
    }

    /// The address as one text.
    pub fn url(&self) -> (r: String)
        ensures
            r@ == url_of(self@),
    {
        let scheme = if self.tls {
            "https://"
        } else {
            "http://"
        };
        let port = decimal_text(self.port);
        String::from_str(scheme).concat(self.host.as_str()).concat(":").concat(
            port.as_str(),
        ).concat("/api/")
    }
}

/// Mathematical model of a session.
pub ghost struct Session {
    pub url: Seq<char>,
    pub token: Option<Seq<char>>,
}

/// A session: the address of the service, and the token that
/// authenticates calls once a login has set it.
#[derive(Clone, Debug, PartialEq, Eq)]
pub struct Client {
    /// Where the service listens: scheme, host and port.
    pub url: String,
    /// The current token; `None` before login and after logout.
    pub token: Option<String>,
}

impl View for Client {
    type V = Session;

    open spec fn view(&self) -> Session {
        Session {
            url: self.url@,
            token: match self.token {
                Some(t) => Some(t@),
                None => None,
            },
        }
    }
}

impl Client {
    /// A session with the service at `url`, not yet logged in.
    pub fn new(url: &str) -> (r: Client)
        ensures
            r@ == (Session { url: url@, token: None }),
    {
        Client { url: url.to_owned(), token: None }
    }

    /// A session with the service at `endpoint`, not yet logged in.
    pub fn at(endpoint: &Endpoint) -> (r: Client)
        ensures
            r@ == (Session { url: url_of(endpoint@), token: None }),
    {
        Client { url: endpoint.url(), token: None }
    }

    /// A session with the service at `url` that holds `token`.
    pub fn with_token(url: &str, token: &str) -> (r: Client)
        ensures
            r@ == (Session { url: url@, token: Some(token@) }),
    {
        Client { url: url.to_owned(), token: Some(token.to_owned()) }
    }

    /// The current token.
    pub fn current_token(&self) -> (r: Option<String>)
        ensures
            r is Some <==> self@.token is Some,
            r is Some ==> r->0@ == self@.token->0,
    {
        match &self.token {
            Some(t) => Some(t.clone()),
            None => None,
        }
    }

    /// Makes `token` the current token; the address stays.
    pub fn set_token(&mut self, token: &str)
        ensures
            final(self)@ == (Session { url: old(self)@.url, token: Some(token@) }),
    {
        self.token = Some(token.to_owned());
    }

    /// Forgets the current token; the address stays.
    pub fn clear_token(&mut self)
        ensures
            final(self)@ == (Session { url: old(self)@.url, token: None }),
    {
        self.token = None;
    }
}

} // verus!

//! Construction of authenticated GET requests.
//!
//! A [`PendingRequest`] holds the full URL of an endpoint and the ordered
//! list of query parameters to attach. The caller (or an HTTP layer around
//! this crate) percent-encodes and dispatches it; everything up to that point
//! is constructed here and pinned down by the contracts.

use vstd::prelude::*;
use crate::ApiType;

verus! {

/// The characters of the base URL for a service and path suffix:
/// `https://{subdomain}.abstractapi.com/{path}/`.
pub open spec fn url_spec(api_type: ApiType, path: Seq<char>) -> Seq<char> {
    "https://"@ + api_type.subdomain_spec() + "."@ + "abstractapi.com"@ + "/"@ + path + "/"@
}

/// A request that is ready for endpoint-specific query parameters, and then
/// for dispatch by an HTTP client.
pub struct PendingRequest {
    /// The URL to fetch, without any query string.
    pub url: String,
    /// The query parameters to attach, in order, as (name, value) pairs.
    pub params: Vec<(String, String)>,
}

impl PendingRequest {
    /// The query parameters as a sequence of (name, value) character
    /// sequences.
    pub open spec fn params_view(&self) -> Seq<(Seq<char>, Seq<char>)> {
        self.params@.map(|i: int, p: (String, String)| (p.0@, p.1@))
    }

    /// A request for the URL with no query parameters yet.
    pub fn new(url: String) -> (r: Self)
        ensures
            r.url == url,
            r.params_view() == Seq::<(Seq<char>, Seq<char>)>::empty(),
    {
        let r = PendingRequest { url, params: Vec::new() };
        proof {
            assert(r.params_view() =~= Seq::<(Seq<char>, Seq<char>)>::empty());
        }
        r
    }

    /// Appends one query parameter.
    pub fn query(self, name: &str, value: &str) -> (r: Self)
        ensures
            r.url == self.url,
            r.params_view() == self.params_view().push((name@, value@)),
    {
        let mut params = self.params;
        params.push((String::from_str(name), String::from_str(value)));
        let r = PendingRequest { url: self.url, params };
        proof {
            assert(r.params_view() =~= self.params_view().push((name@, value@)));
        }
        r
    }
}

/// Builds the base URL `https://{subdomain}.abstractapi.com/{path}/` for a
/// service.
pub fn build_url(api_type: ApiType, path: &str) -> (r: String)
    ensures
        r@ == url_spec(api_type, path@),
{
    let r = String::from_str("https://")
        .concat(api_type.subdomain())
        .concat(".")
        .concat("abstractapi.com")
        .concat("/")
        .concat(path)
        .concat("/");
    proof {
        assert(r@ =~= url_spec(api_type, path@));
    }
    r
}

/// The decimal digit as a character.
pub open spec fn digit_char(d: int) -> char {
    if d == 0 {
        '0'
    } else if d == 1 {
        '1'
    } else if d == 2 {
        '2'
    } else if d == 3 {
        '3'
    } else if d == 4 {
        '4'
    } else if d == 5 {
        '5'
    } else if d == 6 {
        '6'
    } else if d == 7 {
        '7'
    } else if d == 8 {
        '8'
    } else {
        '9'
    }
}

/// The decimal representation of a number, most significant digit first, with
/// no leading zeros (except for the number 0 itself).
pub open spec fn dec_str(n: int) -> Seq<char>
    decreases n,
{
    if n < 10 {
        seq![digit_char(n)]
    } else {
        dec_str(n / 10).push(digit_char(n % 10))
    }
}

/// One decimal digit as a string.
fn digit_str(d: u64) -> (r: &'static str)
    requires
        d < 10,
    ensures
        r@ == seq![digit_char(d as int)],
{
    let r: &'static str = match d {
        0 => "0",
        1 => "1",
        2 => "2",
        3 => "3",
        4 => "4",
        5 => "5",
        6 => "6",
        7 => "7",
        8 => "8",
        _ => "9",
    };
    proof {
        reveal_strlit("0");
        reveal_strlit("1");
        reveal_strlit("2");
        reveal_strlit("3");
        reveal_strlit("4");
        reveal_strlit("5");
        reveal_strlit("6");
        reveal_strlit("7");
        reveal_strlit("8");
        reveal_strlit("9");
        assert(r@ =~= seq![digit_char(d as int)]);
    }
    r
}

/// The number in decimal, e.g. for the `base_amount` query parameter.
pub fn u64_to_string(n: u64) -> (r: String)
    ensures
        r@ == dec_str(n as int),
    decreases n,
{
    if n < 10 {
        String::from_str(digit_str(n))
    } else {
        let prefix = u64_to_string(n / 10);
        let r = prefix.concat(digit_str(n % 10));
        proof {
            assert(r@ =~= dec_str(n as int));
        }
        r
    }
}

/// The characters of a boolean rendered for a query parameter.
pub open spec fn bool_str(b: bool) -> Seq<char> {
    if b {
        "true"@
    } else {
        "false"@
    }
}

/// The boolean as a string, e.g. for the `auto_correct` query parameter.
pub fn bool_to_string(b: bool) -> (r: String)
    ensures
        r@ == bool_str(b),
{
    if b {
        String::from_str("true")
    } else {
        String::from_str("false")
    }
}

/// The view of an optional string parameter.
pub open spec fn opt_view(value: Option<&str>) -> Option<Seq<char>> {
    match value {
        Some(v) => Some(v@),
        None => None,
    }
}

/// The query parameters contributed by an optional parameter: one pair when a
/// value is supplied, none at all when it is absent.
pub open spec fn opt_param(name: Seq<char>, value: Option<Seq<char>>) -> Seq<(Seq<char>, Seq<char>)> {
    match value {
        Some(v) => seq![(name, v)],
        None => Seq::empty(),
    }
}

/// How many of the query parameters bear the name.
pub open spec fn count_param(params: Seq<(Seq<char>, Seq<char>)>, name: Seq<char>) -> int
    decreases params.len(),
{
    if params.len() == 0 {
        0
    } else {
        count_param(params.skip(1), name) + if params[0].0 == name {
            1int
        } else {
            0int
        }
    }
}

} // verus!

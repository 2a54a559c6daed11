//! Building one authenticated request: the HTTP method, the query-string
//! encoding, the header-value rule a bearer token must meet, and the
//! request descriptor the transport is handed.

use vstd::prelude::*;
use vstd::string::*;
use vstd::utf8::encode_utf8;
use crate::error::{Error, Kind};
use crate::text::{push_char, str_eq};

verus! {

/// The HTTP methods a logical call can use.
#[derive(PartialEq, Eq, Structural, Clone, Copy)]
pub enum Method {
    /// GET method
    Get,
    /// POST method
    Post,
    /// PUT method
    Put,
    /// DELETE method
    Delete,
}

/// Which method a method name selects; anything unrecognized falls back to GET.
pub open spec fn spec_method_from(s: Seq<char>) -> Method {
    if s == "POST"@ {
        Method::Post
    } else if s == "PUT"@ {
        Method::Put
    } else if s == "DELETE"@ {
        Method::Delete
    } else {
        Method::Get
    }
}

/// Selects the method that a method name spells, GET when unrecognized.
pub fn method_from_str(m: &str) -> (r: Method)
    ensures
        r == spec_method_from(m@),
{
    if str_eq(m, "POST") {
        Method::Post
    } else if str_eq(m, "PUT") {
        Method::Put
    } else if str_eq(m, "DELETE") {
        Method::Delete
    } else {
        Method::Get
    }
}

/// Each method name selects its own method.
pub proof fn lemma_method_names()
    ensures
        spec_method_from("GET"@) == Method::Get,
        spec_method_from("POST"@) == Method::Post,
        spec_method_from("PUT"@) == Method::Put,
        spec_method_from("DELETE"@) == Method::Delete,
{
    reveal_strlit("GET");
    reveal_strlit("POST");
    reveal_strlit("PUT");
    reveal_strlit("DELETE");
    assert("GET"@.len() == 3);
    assert("POST"@.len() == 4);
    assert("PUT"@.len() == 3);
    assert("DELETE"@.len() == 6);
    assert("GET"@[0] == 'G');
    assert("PUT"@[0] == 'P');
}

impl Method {
    /// What `name` returns for each method.
    pub open spec fn spec_name(self) -> Seq<char> {
        match self {
            Method::Get => "GET"@,
            Method::Post => "POST"@,
            Method::Put => "PUT"@,
            Method::Delete => "DELETE"@,
        }
    }

    /// The method's name on the wire.
    pub fn name(&self) -> (s: String)
        ensures
            s@ == self.spec_name(),
    {
        match self {
            Method::Get => String::from_str("GET"),
            Method::Post => String::from_str("POST"),
            Method::Put => String::from_str("PUT"),
            Method::Delete => String::from_str("DELETE"),
        }
    }
}

/// How one character is written in a query string: a literal plus sign is
/// escaped, every other character stands as itself.
pub open spec fn esc1(c: char) -> Seq<char> {
    if c == '+' {
        seq!['%', '2', 'B']
    } else {
        seq![c]
    }
}

/// A key or value with each plus sign escaped.
pub open spec fn spec_escape(s: Seq<char>) -> Seq<char>
    decreases s.len(),
{
    if s.len() == 0 {
        Seq::empty()
    } else {
        esc1(s[0]) + spec_escape(s.drop_first())
    }
}

proof fn lemma_escape_push(s: Seq<char>, c: char)
    ensures
        spec_escape(s.push(c)) == spec_escape(s) + esc1(c),
    decreases s.len(),
{
    if s.len() == 0 {
        assert(s.push(c).drop_first() =~= Seq::<char>::empty());
        assert(spec_escape(Seq::<char>::empty()) == Seq::<char>::empty());
        assert(s.push(c)[0] == c);
        assert(spec_escape(s.push(c)) =~= esc1(c));
        assert(spec_escape(s) + esc1(c) =~= esc1(c));
    } else {
        lemma_escape_push(s.drop_first(), c);
        assert(s.push(c).drop_first() =~= s.drop_first().push(c));
        assert(s.push(c)[0] == s[0]);
        assert(spec_escape(s.push(c)) == esc1(s[0]) + (spec_escape(s.drop_first()) + esc1(c)));
        assert(esc1(s[0]) + (spec_escape(s.drop_first()) + esc1(c)) =~= (esc1(s[0]) + spec_escape(
            s.drop_first(),
        )) + esc1(c));
        assert(spec_escape(s.push(c)) =~= spec_escape(s) + esc1(c));
    }
}

/// One encoded pair: the escaped key, an equals sign, the escaped value,
/// and the separator that follows every pair.
pub open spec fn spec_encode_pair(k: Seq<char>, v: Seq<char>) -> Seq<char> {
    spec_escape(k) + seq!['='] + spec_escape(v) + seq!['&']
}

/// The whole query string: every pair in order, each with its trailing
/// separator (the final separator is kept, by design).
pub open spec fn spec_encode_params(ps: Seq<(Seq<char>, Seq<char>)>) -> Seq<char>
    decreases ps.len(),
{
    if ps.len() == 0 {
        Seq::empty()
    } else {
        spec_encode_pair(ps[0].0, ps[0].1) + spec_encode_params(ps.drop_first())
    }
}

proof fn lemma_encode_params_push(ps: Seq<(Seq<char>, Seq<char>)>, p: (Seq<char>, Seq<char>))
    ensures
        spec_encode_params(ps.push(p)) == spec_encode_params(ps) + spec_encode_pair(p.0, p.1),
    decreases ps.len(),
{
    if ps.len() == 0 {
        assert(ps.push(p).drop_first() =~= Seq::<(Seq<char>, Seq<char>)>::empty());
        assert(spec_encode_params(Seq::<(Seq<char>, Seq<char>)>::empty())
            == Seq::<char>::empty());
        assert(ps.push(p)[0] == p);
        assert(spec_encode_params(ps.push(p)) =~= spec_encode_pair(p.0, p.1));
        assert(spec_encode_params(ps) + spec_encode_pair(p.0, p.1) =~= spec_encode_pair(
            p.0,
            p.1,
        ));
    } else {
        lemma_encode_params_push(ps.drop_first(), p);
        assert(ps.push(p).drop_first() =~= ps.drop_first().push(p));
        assert(ps.push(p)[0] == ps[0]);
        assert(spec_encode_params(ps.push(p)) == spec_encode_pair(ps[0].0, ps[0].1) + (
        spec_encode_params(ps.drop_first()) + spec_encode_pair(p.0, p.1)));
        assert(spec_encode_pair(ps[0].0, ps[0].1) + (spec_encode_params(ps.drop_first())
            + spec_encode_pair(p.0, p.1)) =~= (spec_encode_pair(ps[0].0, ps[0].1)
            + spec_encode_params(ps.drop_first())) + spec_encode_pair(p.0, p.1));
        assert(spec_encode_params(ps.push(p)) =~= spec_encode_params(ps) + spec_encode_pair(
            p.0,
            p.1,
        ));
    }
}

/// The views of a parameter list's keys and values.
pub open spec fn params_view(ps: Seq<(&str, &str)>) -> Seq<(Seq<char>, Seq<char>)> {
    ps.map_values(|p: (&str, &str)| (p.0@, p.1@))
}

/// The single empty placeholder pair encodes to an equals sign and the
/// pair separator, nothing more.
pub proof fn lemma_single_empty_pair_query(ps: Seq<(&str, &str)>)
    requires
        ps.len() == 1,
        ps[0].0@.len() == 0,
        ps[0].1@.len() == 0,
    ensures
        spec_encode_params(params_view(ps)) == seq!['=', '&'],
{
    assert(ps[0].0@ =~= Seq::<char>::empty());
    assert(ps[0].1@ =~= Seq::<char>::empty());
    assert(params_view(ps)[0] == (ps[0].0@, ps[0].1@));
    assert(params_view(ps).drop_first() =~= Seq::<(Seq<char>, Seq<char>)>::empty());
    assert(spec_encode_params(Seq::<(Seq<char>, Seq<char>)>::empty()) == Seq::<char>::empty());
    assert(spec_escape(Seq::<char>::empty()) == Seq::<char>::empty());
    assert(spec_encode_pair(ps[0].0@, ps[0].1@) =~= seq!['=', '&']);
    assert(spec_encode_params(params_view(ps)) =~= seq!['=', '&']);
}

fn append_escaped(out: &mut String, s: &str)
    ensures
        final(out)@ == old(out)@ + spec_escape(s@),
{
    let n = s.unicode_len();
    let mut i: usize = 0;
    while i < n
        invariant
            i <= n,
            n == s@.len(),
            out@ == old(out)@ + spec_escape(s@.take(i as int)),
        decreases n - i,
    {
        let c = s.get_char(i);
        if c == '+' {
            proof {
                reveal_strlit("%2B");
            }
            out.append("%2B");
            assert("%2B"@ =~= esc1('+'));
        } else {
            push_char(out, c);
        }
        proof {
            lemma_escape_push(s@.take(i as int), c);
            assert(s@.take(i + 1 as int) =~= s@.take(i as int).push(s@[i as int]));
        }
        i += 1;
    }
    proof {
        assert(s@.take(n as int) =~= s@);
    }
}

/// Encodes query parameters: each pair joined with an equals sign, every
/// pair followed by an ampersand, and each plus sign written as its escape.
pub fn url_encode(params: &[(&str, &str)]) -> (r: String)
    ensures
        r@ == spec_encode_params(params_view(params@)),
{
    let mut out = String::new();
    let mut i: usize = 0;
    while i < params.len()
        invariant
            i <= params@.len(),
            out@ == spec_encode_params(params_view(params@).take(i as int)),
        decreases params@.len() - i,
    {
        let p = params[i];
        append_escaped(&mut out, p.0);
        push_char(&mut out, '=');
        append_escaped(&mut out, p.1);
        push_char(&mut out, '&');
        proof {
            let ghost pv = (p.0@, p.1@);
            lemma_encode_params_push(params_view(params@).take(i as int), pv);
            assert(params_view(params@).take(i + 1 as int) =~= params_view(params@).take(
                i as int,
            ).push(pv));
            assert(out@ =~= spec_encode_params(params_view(params@).take(i as int))
                + spec_encode_pair(pv.0, pv.1));
        }
        i += 1;
    }
    proof {
        assert(params_view(params@).take(params@.len() as int) =~= params_view(params@));
    }
    out
}

/// The rule a header value's byte must meet: horizontal tab, or any byte
/// that is not a control character.
pub open spec fn byte_header_ok(b: u8) -> bool {
    b == 9 || (b >= 32 && b != 127)
}

/// Whether a whole byte sequence may stand as a header value.
pub open spec fn header_value_ok(bs: Seq<u8>) -> bool {
    forall|i: int| 0 <= i < bs.len() ==> byte_header_ok(#[trigger] bs[i])
}

/// Checks the header-value rule on a string's UTF-8 bytes.
pub fn check_header_value(s: &str) -> (r: bool)
    ensures
        r == header_value_ok(s.spec_bytes()),
{
    let bs = s.as_bytes();
    let mut i: usize = 0;
    while i < bs.len()
        invariant
            i <= bs@.len(),
            bs@ == s.spec_bytes(),
            forall|j: int| 0 <= j < i ==> byte_header_ok(#[trigger] bs@[j]),
        decreases bs@.len() - i,
    {
        let b = bs[i];
        if !(b == 9 || (b >= 32 && b != 127)) {
            return false;
        }
        i += 1;
    }
    true
}

/// A fully-formed request: immutable once constructed, built fresh for
/// each logical call.
pub struct Request {
    /// The HTTP method.
    pub method: Method,
    /// The full URL, query string included.
    pub url: String,
    /// The media type the caller accepts.
    pub accept: String,
    /// The authorization header value carrying the bearer token.
    pub authorization: String,
    /// The serialized body, when the call carries one.
    pub body: Option<String>,
}

/// Builds the authenticated request. Fails fast, before any attempt, when
/// the bearer token cannot stand in a header value.
pub fn build_request(
    method: Method,
    server_url: &str,
    endpoint: &str,
    params: &[(&str, &str)],
    api_key: &str,
    body: Option<String>,
) -> (r: Result<Request, Error>)
    ensures
        r is Ok <==> header_value_ok(encode_utf8("Bearer "@ + api_key@)),
        r is Ok ==> {
            &&& r->Ok_0.method == method
            &&& r->Ok_0.url@ == server_url@ + "/"@ + endpoint@ + "?"@ + spec_encode_params(
                params_view(params@),
            )
            &&& r->Ok_0.accept@ == "application/json"@
            &&& r->Ok_0.authorization@ == "Bearer "@ + api_key@
            &&& r->Ok_0.body == body
        },
        r is Err ==> r->Err_0.kind is InvalidHeaderValue && r->Err_0.cause is None,
{
    let mut auth = String::from_str("Bearer ");
    auth.append(api_key);
    if !check_header_value(auth.as_str()) {
        return Err(Error::new(Kind::InvalidHeaderValue));
    }
    let mut url = server_url.to_owned();
    url.append("/");
    url.append(endpoint);
    url.append("?");
    let query = url_encode(params);
    url.append(query.as_str());
    Ok(
        Request {
            method,
            url,
            accept: String::from_str("application/json"),
            authorization: auth,
            body,
        },
    )
}

} // verus!

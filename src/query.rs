use vstd::prelude::*;
use vstd::string::*;

verus! {

/// One decimal digit as a character.
pub open spec fn digit_char(d: nat) -> char {
    seq!['0', '1', '2', '3', '4', '5', '6', '7', '8', '9'][d as int]
}

/// The decimal digits of a natural number, most significant first, no leading zero.
pub open spec fn digits_of(n: nat) -> Seq<char>
    decreases n,
{
    if n < 10 {
        seq![digit_char(n)]
    } else {
        digits_of(n / 10).push(digit_char(n % 10))
    }
}

/// The decimal text of an integer: a minus sign before negative values.
pub open spec fn decimal_of(n: int) -> Seq<char> {
    if n < 0 {
        seq!['-'] + digits_of((-n) as nat)
    } else {
        digits_of(n as nat)
    }
}

/// Relies on `<i64 as ToString>::to_string`, which writes the value in decimal
/// through `Display`: an optional minus sign, then the digits without leading zeros.
#[verifier::external_body]
pub(crate) fn decimal(n: i64) -> (r: String)
    ensures
        r@ == decimal_of(n as int),
{
    n.to_string()
}

/// A query parameter as a pair of texts.
pub open spec fn param_view(p: (String, String)) -> (Seq<char>, Seq<char>) {
    (p.0@, p.1@)
}

/// The text of a list of query parameters, in order.
pub open spec fn params_view(v: Seq<(String, String)>) -> Seq<(Seq<char>, Seq<char>)> {
    v.map_values(|p: (String, String)| param_view(p))
}

/// One parameter `key=value` when a value is given, none otherwise.
pub open spec fn opt_param(key: Seq<char>, v: Option<String>) -> Seq<(Seq<char>, Seq<char>)> {
    match v {
        Some(s) => seq![(key, s@)],
        None => Seq::empty(),
    }
}

/// The parameter `key` repeated once per value, in order.
pub open spec fn list_params(key: Seq<char>, vals: Seq<String>) -> Seq<(Seq<char>, Seq<char>)> {
    vals.map_values(|s: String| (key, s@))
}

/// The repeated parameter `key` for a list that may be absent.
pub open spec fn opt_list_params(key: Seq<char>, vals: Option<Vec<String>>) -> Seq<
    (Seq<char>, Seq<char>),
> {
    match vals {
        Some(v) => list_params(key, v@),
        None => Seq::empty(),
    }
}

/// Appends `key=value` to the parameters when a value is given.
pub fn push_opt(out: &mut Vec<(String, String)>, key: &str, v: &Option<String>)
    ensures
        params_view(final(out)@) == params_view(old(out)@) + opt_param(key@, *v),
{
    match v {
        Some(s) => {
            let ghost before = out@;
            out.push((String::from_str(key), s.clone()));
            assert(params_view(out@) =~= params_view(before) + opt_param(key@, *v));
        },
        None => {
            assert(params_view(out@) =~= params_view(out@) + opt_param(key@, *v));
        },
    }
}

/// Appends the parameter `key` once per value, in order.
pub fn push_list(out: &mut Vec<(String, String)>, key: &str, vals: &Vec<String>)
    ensures
        params_view(final(out)@) == params_view(old(out)@) + list_params(key@, vals@),
{
    let ghost start = out@;
    let mut i: usize = 0;
    while i < vals.len()
        invariant
            i <= vals.len(),
            params_view(out@) =~= params_view(start) + list_params(key@, vals@.subrange(0, i as int)),
        decreases vals.len() - i,
    {
        let ghost before = out@;
        out.push((String::from_str(key), vals[i].clone()));
        assert(vals@.subrange(0, i + 1) =~= vals@.subrange(0, i as int).push(vals@[i as int]));
        assert(params_view(out@) =~= params_view(before).push(param_view(out@[before.len() as int])));
        i = i + 1;
    }
    assert(vals@.subrange(0, vals.len() as int) =~= vals@);
}

/// Appends the repeated parameter `key` for a list that may be absent.
pub fn push_opt_list(out: &mut Vec<(String, String)>, key: &str, vals: &Option<Vec<String>>)
    ensures
        params_view(final(out)@) == params_view(old(out)@) + opt_list_params(key@, *vals),
{
    match vals {
        Some(v) => push_list(out, key, v),
        None => {
            assert(params_view(out@) =~= params_view(out@) + opt_list_params(key@, *vals));
        },
    }
}

/// The headers of an API request: the client id, then the bearer token
/// once one was obtained.
pub open spec fn headers_spec(client_id: Seq<char>, access_token: Option<Seq<char>>) -> Seq<
    (Seq<char>, Seq<char>),
> {
    seq![("Client-ID"@, client_id)] + match access_token {
        Some(t) => seq![("Authorization"@, "Bearer "@ + t)],
        None => Seq::empty(),
    }
}

/// The headers of an API request.
pub fn request_headers(client_id: &String, access_token: Option<&String>) -> (r: Vec<(String, String)>)
    ensures
        params_view(r@) == headers_spec(
            client_id@,
            match access_token {
                Some(t) => Some(t@),
                None => None,
            },
        ),
{
    let mut headers: Vec<(String, String)> = Vec::new();
    headers.push((String::from_str("Client-ID"), client_id.clone()));
    match access_token {
        Some(t) => {
            let mut value = String::from_str("Bearer ");
            value.append(t.as_str());
            headers.push((String::from_str("Authorization"), value));
        },
        None => {},
    }
    assert(params_view(headers@) =~= headers_spec(
        client_id@,
        match access_token {
            Some(t) => Some(t@),
            None => None,
        },
    ));
    headers
}

} // verus!

use vstd::prelude::*;

verus! {

/// The four cross-origin headers that every response carries, preflights and
/// 404s included: any origin, the methods POST, GET, PATCH and OPTIONS, any
/// request header, and credentials allowed. The HTTP layer attaches exactly
/// these pairs to each outgoing response.
pub fn cors_headers() -> (h: Vec<(String, String)>)
    ensures
        h@.len() == 4,
        h@[0].0@ == "Access-Control-Allow-Origin"@,
        h@[0].1@ == "*"@,
        h@[1].0@ == "Access-Control-Allow-Methods"@,
        h@[1].1@ == "POST, GET, PATCH, OPTIONS"@,
        h@[2].0@ == "Access-Control-Allow-Headers"@,
        h@[2].1@ == "*"@,
        h@[3].0@ == "Access-Control-Allow-Credentials"@,
        h@[3].1@ == "true"@,
{
    let mut h: Vec<(String, String)> = Vec::new();
    h.push((String::from_str("Access-Control-Allow-Origin"), String::from_str("*")));
    h.push(
        (String::from_str("Access-Control-Allow-Methods"), String::from_str(
            "POST, GET, PATCH, OPTIONS",
        )),
    );
    h.push((String::from_str("Access-Control-Allow-Headers"), String::from_str("*")));
    h.push((String::from_str("Access-Control-Allow-Credentials"), String::from_str("true")));
    h
}

} // verus!

use vstd::prelude::*;
use vstd::string::StringExecFns;

verus! {

/// The request of the one-hour endpoint: its path and its query pairs. An
/// omitted timestamp sends no query at all. The response decodes through the
/// same shape as the five-minute endpoint.
pub fn one_hour_request(timestamp: Option<&str>) -> (r: (String, Vec<(String, String)>))
    ensures
        r.0@ == "1h"@,
        timestamp matches Some(s) ==> r.1@.len() == 1 && r.1@[0].0@ == "timestamp"@
            && r.1@[0].1@ == s@,
        timestamp is None ==> r.1@.len() == 0,
{
    let mut queries: Vec<(String, String)> = Vec::new();
    match timestamp {
        Some(s) => {
            queries.push((String::from_str("timestamp"), String::from_str(s)));
        },
        None => {
        },
    }
    (String::from_str("1h"), queries)
}

} // verus!

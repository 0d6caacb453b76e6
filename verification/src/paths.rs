//! Where the request and response bodies of an endpoint are kept, and how the
//! next request number is read back from the file names.

use vstd::prelude::*;
use crate::text::{zero_padded, push_zero_padded, parse_i32, parse_i32_str, starts_with, ends_with, str_chars};

verus! {

/// The data directory of an endpoint: `edms_data/{endpoint_id}`.
pub open spec fn endpoint_dir(endpoint_id: Seq<char>) -> Seq<char> {
    "edms_data/"@ + endpoint_id
}

/// `{dir}/{kind}-{number:03}.json`.
pub open spec fn numbered_file(dir: Seq<char>, kind: Seq<char>, request_number: i32) -> Seq<char> {
    dir + "/"@ + kind + "-"@ + zero_padded(request_number as int, 3) + ".json"@
}

/// The data directory of an endpoint.
pub fn get_endpoint_dir(endpoint_id: &str) -> (s: String)
    ensures
        s@ == endpoint_dir(endpoint_id@),
{
    String::from_str("edms_data/").concat(endpoint_id)
}

/// The file of request `request_number` in the directory `dir`.
pub fn request_file_in(dir: &str, request_number: i32) -> (s: String)
    ensures
        s@ == numbered_file(dir@, "request"@, request_number),
{
    let mut s = String::from_str(dir);
    s.append("/request-");
    push_zero_padded(&mut s, request_number as i64, 3);
    s.append(".json");
    proof {
        reveal_strlit("/request-");
        reveal_strlit("/");
        reveal_strlit("request");
        reveal_strlit("-");
        assert("/"@ + "request"@ + "-"@ =~= "/request-"@);
        assert(s@ =~= numbered_file(dir@, "request"@, request_number));
    }
    s
}

/// The file of response `request_number` in the directory `dir`.
pub fn response_file_in(dir: &str, request_number: i32) -> (s: String)
    ensures
        s@ == numbered_file(dir@, "response"@, request_number),
{
    let mut s = String::from_str(dir);
    s.append("/response-");
    push_zero_padded(&mut s, request_number as i64, 3);
    s.append(".json");
    proof {
        reveal_strlit("/response-");
        reveal_strlit("/");
        reveal_strlit("response");
        reveal_strlit("-");
        assert("/"@ + "response"@ + "-"@ =~= "/response-"@);
        assert(s@ =~= numbered_file(dir@, "response"@, request_number));
    }
    s
}

/// The request file of an endpoint: `edms_data/{id}/request-{n:03}.json`.
pub fn request_file_path(endpoint_id: &str, request_number: i32) -> (s: String)
    ensures
        s@ == numbered_file(endpoint_dir(endpoint_id@), "request"@, request_number),
{
    let dir = get_endpoint_dir(endpoint_id);
    request_file_in(dir.as_str(), request_number)
}

/// The response file of an endpoint: `edms_data/{id}/response-{n:03}.json`.
pub fn response_file_path(endpoint_id: &str, request_number: i32) -> (s: String)
    ensures
        s@ == numbered_file(endpoint_dir(endpoint_id@), "response"@, request_number),
{
    let dir = get_endpoint_dir(endpoint_id);
    response_file_in(dir.as_str(), request_number)
}

/// The request number a file name stands for: `request-{n}.json` with `n` an
/// `i32` as `str::parse` reads it; no number for any other name.
pub open spec fn request_number_of(name: Seq<char>) -> Option<i32> {
    if name.len() >= 13 && starts_with(name, "request-"@) && ends_with(name, ".json"@) {
        parse_i32(name.subrange(8, name.len() - 5))
    } else {
        None
    }
}

/// The highest request number among the names, `0` when there is none or all
/// are below `0`.
pub open spec fn highest_request_number(names: Seq<Seq<char>>) -> int
    decreases names.len(),
{
    if names.len() == 0 {
        0
    } else {
        let rest = highest_request_number(names.drop_last());
        match request_number_of(names.last()) {
            Some(n) => if n as int > rest { n as int } else { rest },
            None => rest,
        }
    }
}

fn chars_match_at(cs: &Vec<char>, at: usize, lit: &Vec<char>) -> (b: bool)
    requires
        at + lit@.len() <= cs@.len(),
    ensures
        b == (cs@.subrange(at as int, at + lit@.len()) == lit@),
{
    let mut k: usize = 0;
    let _ = cs.len();
    while k < lit.len()
        invariant
            at + lit@.len() <= cs@.len(),
            cs@.len() <= usize::MAX,
            k <= lit@.len(),
            forall|m: int| 0 <= m < k ==> cs@[at + m] == lit@[m],
        decreases lit@.len() - k,
    {
        if cs[at + k] != lit[k] {
            assert(cs@.subrange(at as int, at + lit@.len())[k as int] != lit@[k as int]);
            return false;
        }
        k = k + 1;
    }
    assert(cs@.subrange(at as int, at + lit@.len()) =~= lit@);
    true
}

/// The request number of a file name (see [`request_number_of`]).
pub fn request_number_in_name(name: &str) -> (r: Option<i32>)
    ensures
        r == request_number_of(name@),
{
    let cs = str_chars(name);
    let n = cs.len();
    if n < 13 {
        return None;
    }
    proof {
        reveal_strlit("request-");
        reveal_strlit(".json");
    }
    let pre = str_chars("request-");
    let suf = str_chars(".json");
    if !chars_match_at(&cs, 0, &pre) {
        return None;
    }
    if !chars_match_at(&cs, n - 5, &suf) {
        return None;
    }
    let middle = name.substring_char(8, n - 5);
    parse_i32_str(middle)
}

/// The number for the next request of an endpoint whose data directory holds
/// the files `names`: one above the highest request number found.
pub fn next_request_number_from_names(names: &Vec<String>) -> (r: i32)
    requires
        highest_request_number(names@.map_values(|s: String| s@)) < i32::MAX,
    ensures
        r as int == highest_request_number(names@.map_values(|s: String| s@)) + 1,
{
    let ghost all = names@.map_values(|s: String| s@);
    let mut max_num: i32 = 0;
    let mut i: usize = 0;
    while i < names.len()
        invariant
            all == names@.map_values(|s: String| s@),
            i <= names@.len(),
            max_num as int == highest_request_number(all.subrange(0, i as int)),
        decreases names@.len() - i,
    {
        let found = request_number_in_name(names[i].as_str());
        proof {
            let pre = all.subrange(0, i + 1);
            assert(pre.drop_last() =~= all.subrange(0, i as int));
            assert(pre.last() == names@[i as int]@);
        }
        match found {
            Some(num) => {
                if num > max_num {
                    max_num = num;
                }
            },
            None => {},
        }
        i = i + 1;
    }
    assert(all.subrange(0, names@.len() as int) =~= all);
    proof { lemma_highest_ge_zero(all); }
    max_num + 1
}

proof fn lemma_highest_ge_zero(names: Seq<Seq<char>>)
    ensures
        highest_request_number(names) >= 0,
    decreases names.len(),
{
    if names.len() > 0 {
        lemma_highest_ge_zero(names.drop_last());
    }
}

/// The name of the file of request `n`, without its directory.
pub open spec fn request_file_name(n: i32) -> Seq<char> {
    "request-"@ + zero_padded(n as int, 3) + ".json"@
}

/// The file of a request is the endpoint directory followed by its name.
pub proof fn law_request_file_in_endpoint_dir(endpoint_id: Seq<char>, n: i32)
    ensures
        numbered_file(endpoint_dir(endpoint_id), "request"@, n)
            == endpoint_dir(endpoint_id) + "/"@ + request_file_name(n),
{
    reveal_strlit("request-");
    reveal_strlit("request");
    reveal_strlit("-");
    assert(numbered_file(endpoint_dir(endpoint_id), "request"@, n)
        =~= endpoint_dir(endpoint_id) + "/"@ + request_file_name(n));
}

/// Writing and numbering agree: the name under which request `n` is stored
/// reads back as request number `n`, for every `n`.
pub proof fn law_request_file_number_roundtrip(n: i32)
    ensures
        request_number_of(request_file_name(n)) == Some(n),
{
    reveal_strlit("request-");
    reveal_strlit(".json");
    let name = request_file_name(n);
    let p = zero_padded(n as int, 3);
    crate::text::lemma_zero_padded_len(n as int, 3);
    crate::text::lemma_zero_padded_parses(n, 3);
    assert(name.len() == 8 + p.len() + 5);
    assert(name.subrange(0, 8) =~= "request-"@);
    assert(name.subrange(name.len() - 5, name.len() as int) =~= ".json"@);
    assert(name.subrange(8, name.len() - 5) =~= p);
}

/// Once the file of request `n` is among the files, the next number
/// allocated is above `n`.
pub proof fn law_next_number_above_stored(names: Seq<Seq<char>>, n: i32)
    requires
        names.contains(request_file_name(n)),
    ensures
        highest_request_number(names) >= n,
    decreases names.len(),
{
    law_request_file_number_roundtrip(n);
    if names.last() == request_file_name(n) {
        lemma_highest_ge_zero(names.drop_last());
    } else {
        let k = choose|k: int| 0 <= k < names.len() && names[k] == request_file_name(n);
        assert(names.drop_last()[k] == names[k]);
        law_next_number_above_stored(names.drop_last(), n);
    }
}

} // verus!

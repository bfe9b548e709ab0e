//! The HTTP phase: from the response (or the failure) to the phase result.
use vstd::prelude::*;
use super::result::{opt_text, severity_of, HttpDetails, HttpModule, Severity, Status};
use super::text::{chars_of, owned, parse_u64, parse_u64_spec, starts_with};

verus! {

/// The texts of a header list.
pub open spec fn header_texts(v: Seq<(String, String)>) -> Seq<(Seq<char>, Seq<char>)> {
    v.map_values(|p: (String, String)| (p.0@, p.1@))
}

/// The map from header name to value that inserting the pairs in order builds:
/// a later value for a name replaces an earlier one.
pub open spec fn header_map(pairs: Seq<(Seq<char>, Seq<char>)>) -> Map<Seq<char>, Seq<char>>
    decreases pairs.len(),
{
    if pairs.len() == 0 {
        Map::empty()
    } else {
        header_map(pairs.drop_last()).insert(pairs.last().0, pairs.last().1)
    }
}

pub open spec fn distinct_names(pairs: Seq<(Seq<char>, Seq<char>)>) -> bool {
    forall|i: int, j: int| 0 <= i < j < pairs.len() ==> (#[trigger] pairs[i]).0 != (#[trigger] pairs[j]).0
}

/// In a list without repeated names, each pair is the entry of its name in the map.
pub proof fn lemma_distinct_map(pairs: Seq<(Seq<char>, Seq<char>)>)
    requires
        distinct_names(pairs),
    ensures
        forall|k: Seq<char>| #[trigger] header_map(pairs).contains_key(k) <==> exists|j: int| 0 <= j < pairs.len() && (#[trigger] pairs[j]).0 == k,
        forall|j: int| 0 <= j < pairs.len() ==> header_map(pairs)[(#[trigger] pairs[j]).0] == pairs[j].1,
    decreases pairs.len(),
{
    if pairs.len() > 0 {
        let p = pairs.drop_last();
        assert(distinct_names(p));
        lemma_distinct_map(p);
        assert forall|k: Seq<char>| #[trigger] header_map(pairs).contains_key(k) implies exists|j: int| 0 <= j < pairs.len() && (#[trigger] pairs[j]).0 == k by {
            if k != pairs.last().0 {
                assert(header_map(p).contains_key(k));
                let j = choose|j: int| 0 <= j < p.len() && (#[trigger] p[j]).0 == k;
                assert(pairs[j] == p[j]);
            } else {
                assert(pairs[pairs.len() - 1].0 == k);
            }
        }
        assert forall|k: Seq<char>| (exists|j: int| 0 <= j < pairs.len() && (#[trigger] pairs[j]).0 == k) implies #[trigger] header_map(pairs).contains_key(k) by {
            let j = choose|j: int| 0 <= j < pairs.len() && (#[trigger] pairs[j]).0 == k;
            if j < pairs.len() - 1 {
                assert(p[j] == pairs[j]);
                assert(header_map(p).contains_key(k));
            }
        }
        assert forall|j: int| 0 <= j < pairs.len() implies header_map(pairs)[(#[trigger] pairs[j]).0] == pairs[j].1 by {
            if j < pairs.len() - 1 {
                assert(p[j] == pairs[j]);
                assert(pairs[j].0 != pairs[pairs.len() - 1].0);
            }
        }
    }
}

/// The value of header `name`, if present.
pub fn header_value(headers: &Vec<(String, String)>, name: &str) -> (r: Option<String>)
    requires
        distinct_names(header_texts(headers@)),
    ensures
        opt_text(r) == (if header_map(header_texts(headers@)).contains_key(name@) {
            Some(header_map(header_texts(headers@))[name@])
        } else {
            None
        }),
{
    let ghost pairs = header_texts(headers@);
    proof {
        lemma_distinct_map(pairs);
    }
    let key = owned(name);
    let mut i: usize = 0;
    while i < headers.len()
        invariant
            i <= headers.len(),
            pairs == header_texts(headers@),
            distinct_names(pairs),
            key@ == name@,
            forall|k: int| 0 <= k < i ==> (#[trigger] pairs[k]).0 != name@,
        decreases headers.len() - i,
    {
        if headers[i].0 == key {
            proof {
                lemma_distinct_map(pairs);
                assert(pairs[i as int].0 == name@);
                assert(header_map(pairs).contains_key(name@));
            }
            return Some(headers[i].1.clone());
        }
        i = i + 1;
    }
    proof {
        lemma_distinct_map(pairs);
        if header_map(pairs).contains_key(name@) {
            let j = choose|j: int| 0 <= j < pairs.len() && (#[trigger] pairs[j]).0 == name@;
        }
    }
    None
}

/// The index of the pair named `name`, if any.
fn position_of(out: &Vec<(String, String)>, name: &String) -> (r: Option<usize>)
    ensures
        r matches Some(j) ==> j < out.len() && header_texts(out@)[j as int].0 == name@,
        r is None ==> forall|k: int| 0 <= k < out.len() ==> (#[trigger] header_texts(out@)[k]).0 != name@,
{
    let mut j: usize = 0;
    while j < out.len()
        invariant
            j <= out.len(),
            forall|k: int| 0 <= k < j ==> (#[trigger] header_texts(out@)[k]).0 != name@,
        decreases out.len() - j,
    {
        if out[j].0 == *name {
            return Some(j);
        }
        j = j + 1;
    }
    None
}

fn copy_pair(p: &(String, String)) -> (r: (String, String))
    ensures
        r.0@ == p.0@,
        r.1@ == p.1@,
{
    (p.0.clone(), p.1.clone())
}

/// The response headers as a list without repeated names: each name keeps its last value,
/// as collecting them into a map does.
pub fn collect_headers(raw: &Vec<(String, String)>) -> (r: Vec<(String, String)>)
    ensures
        distinct_names(header_texts(r@)),
        header_map(header_texts(r@)) == header_map(header_texts(raw@)),
{
    let ghost all = header_texts(raw@);
    let mut out: Vec<(String, String)> = Vec::new();
    let mut i: usize = 0;
    assert(all.take(0) =~= seq![]);
    assert(header_texts(out@) =~= seq![]);
    while i < raw.len()
        invariant
            i <= raw.len(),
            all == header_texts(raw@),
            distinct_names(header_texts(out@)),
            header_map(header_texts(out@)) == header_map(all.take(i as int)),
        decreases raw.len() - i,
    {
        let ghost before = header_texts(out@);
        proof {
            lemma_distinct_map(before);
            assert(all.take(i + 1).drop_last() =~= all.take(i as int));
            assert(all.take(i + 1).last() == all[i as int]);
        }
        let pair = copy_pair(&raw[i]);
        let position = position_of(&out, &pair.0);
        if let Some(j) = position {
            let ghost k = pair.0@;
            let ghost v = pair.1@;
            out.set(j, pair);
            proof {
                let after = header_texts(out@);
                assert(after =~= before.update(j as int, (k, v)));
                assert(distinct_names(after)) by {
                    assert forall|a: int, b: int| 0 <= a < b < after.len() implies (#[trigger] after[a]).0 != (#[trigger] after[b]).0 by {
                        assert(before[a].0 == after[a].0 && before[b].0 == after[b].0);
                        assert(before[a].0 != before[b].0);
                    }
                }
                lemma_distinct_map(after);
                assert(header_map(after) =~= header_map(before).insert(k, v)) by {
                    assert forall|n: Seq<char>| #[trigger] header_map(after).contains_key(n) == header_map(before).insert(k, v).contains_key(n) by {
                        if header_map(after).contains_key(n) {
                            let w = choose|w: int| 0 <= w < after.len() && (#[trigger] after[w]).0 == n;
                            assert(before[w].0 == n);
                        }
                        if header_map(before).contains_key(n) {
                            let w = choose|w: int| 0 <= w < before.len() && (#[trigger] before[w]).0 == n;
                            assert(after[w].0 == n);
                        }
                    }
                    assert forall|n: Seq<char>| #[trigger] header_map(after).contains_key(n) implies header_map(after)[n] == header_map(before).insert(k, v)[n] by {
                        let w = choose|w: int| 0 <= w < after.len() && (#[trigger] after[w]).0 == n;
                        if w != j {
                            assert(before[w] == after[w]);
                        }
                    }
                }
            }
        } else {
            let ghost k = pair.0@;
            let ghost v = pair.1@;
            out.push(pair);
            proof {
                let after = header_texts(out@);
                assert(after =~= before.push((k, v)));
                assert(after.drop_last() =~= before);
                assert(distinct_names(after)) by {
                    assert forall|a: int, b: int| 0 <= a < b < after.len() implies (#[trigger] after[a]).0 != (#[trigger] after[b]).0 by {
                        if b == after.len() - 1 {
                            assert(before[a] == after[a]);
                        }
                    }
                }
            }
        }
        i = i + 1;
    }
    assert(all.take(raw.len() as int) =~= all);
    out
}

/// What became of the request to the normalized URL.
#[derive(Debug, Clone)]
pub enum HttpOutcome {
    /// No client could be built; the error text.
    ClientUnavailable(String),
    /// A response arrived after following redirects.
    Response {
        status_code: u16,
        final_url: String,
        /// Header names (lower case) and values, in the order received; a value that is not
        /// visible ASCII is given as empty text.
        headers: Vec<(String, String)>,
    },
    /// The request failed.
    Failed { timed_out: bool, connect: bool, message: String },
}

/// The phase status for an HTTP status code: 2xx and 3xx pass, 4xx warns, anything else fails.
pub open spec fn code_status(code: u16) -> Status {
    if 200 <= code < 400 {
        Status::Pass
    } else if 400 <= code < 500 {
        Status::Warn
    } else {
        Status::Fail
    }
}

pub open spec fn failed_http(r: HttpModule, duration_ms: u64, error: Seq<char>) -> bool {
    &&& r.status == Status::Fail
    &&& r.severity == Severity::Fail
    &&& r.duration_ms == duration_ms
    &&& opt_text(r.error) == Some(error)
    &&& r.details.status_code is None
    &&& r.details.redirect_chain@.len() == 0
    &&& r.details.headers@.len() == 0
    &&& !r.details.empty_body
    &&& !r.details.downgraded
}

/// The body is empty when `Content-Length` reads as the number 0.
pub open spec fn declares_empty_body(headers: Map<Seq<char>, Seq<char>>) -> bool {
    headers.contains_key("content-length"@) && parse_u64_spec(headers["content-length"@]) == Some(
        0u64,
    )
}

/// The HTTP phase result for a request to `url`.
pub open spec fn http_module_spec(url: Seq<char>, outcome: HttpOutcome, duration_ms: u64, r: HttpModule) -> bool {
    match outcome {
        HttpOutcome::ClientUnavailable(e) => failed_http(r, duration_ms, "Failed to create HTTP client: "@ + e@),
        HttpOutcome::Failed { timed_out, connect, message } => failed_http(
            r,
            duration_ms,
            if timed_out {
                "HTTP request timed out"@
            } else if connect {
                "HTTP connection error: "@ + message@
            } else {
                "HTTP request failed: "@ + message@
            },
        ),
        HttpOutcome::Response { status_code, final_url, headers } => {
            let map = header_map(header_texts(headers@));
            &&& r.status == code_status(status_code)
            &&& r.severity == severity_of(r.status)
            &&& r.duration_ms == duration_ms
            &&& r.error is None
            &&& r.details.status_code == Some(status_code)
            &&& r.details.redirect_chain@.map_values(|s: String| s@) == if final_url@ != url {
                seq![final_url@]
            } else {
                seq![]
            }
            &&& distinct_names(header_texts(r.details.headers@))
            &&& header_map(header_texts(r.details.headers@)) == map
            &&& r.details.empty_body == declares_empty_body(map)
            &&& r.details.downgraded == ("https://"@.is_prefix_of(url) && "http://"@.is_prefix_of(
                final_url@,
            ))
        },
    }
}

fn failed(duration_ms: u64, error: String) -> (r: HttpModule)
    ensures
        failed_http(r, duration_ms, error@),
{
    HttpModule {
        status: Status::Fail,
        severity: Severity::Fail,
        duration_ms,
        error: Some(error),
        details: HttpDetails {
            status_code: None,
            redirect_chain: Vec::new(),
            headers: Vec::new(),
            empty_body: false,
            downgraded: false,
        },
    }
}

fn prefixed(head: &str, tail: &str) -> (r: String)
    ensures
        r@ == head@ + tail@,
{
    let mut r = owned(head);
    r.append(tail);
    r
}

/// The HTTP phase result for a request to `url`.
pub fn http_module(url: &str, outcome: HttpOutcome, duration_ms: u64) -> (r: HttpModule)
    ensures
        http_module_spec(url@, outcome, duration_ms, r),
        r.details.downgraded ==> "https://"@.is_prefix_of(url@) && final_url_of(outcome) is Some
            && "http://"@.is_prefix_of(final_url_of(outcome).unwrap()) && !"https://"@.is_prefix_of(
            final_url_of(outcome).unwrap(),
        ),
        (final_url_of(outcome) is Some && "https://"@.is_prefix_of(final_url_of(outcome).unwrap()))
            ==> !r.details.downgraded,
        outcome is Response ==> r.details.status_code is Some && {
            let code = r.details.status_code.unwrap();
            &&& 200 <= code < 400 ==> r.status == Status::Pass
            &&& 400 <= code < 500 ==> r.status == Status::Warn
            &&& (code < 200 || code >= 500) ==> r.status == Status::Fail
        },
        !(outcome is Response) ==> r.status == Status::Fail && r.details.status_code is None,
{
    proof {
        if final_url_of(outcome) is Some {
            lemma_schemes_exclusive(final_url_of(outcome).unwrap());
        }
    }
    match outcome {
        HttpOutcome::ClientUnavailable(e) => failed(duration_ms, prefixed("Failed to create HTTP client: ", e.as_str())),
        HttpOutcome::Failed { timed_out, connect, message } => {
            let msg = if timed_out {
                owned("HTTP request timed out")
            } else if connect {
                prefixed("HTTP connection error: ", message.as_str())
            } else {
                prefixed("HTTP request failed: ", message.as_str())
            };
            failed(duration_ms, msg)
        },
        HttpOutcome::Response { status_code, final_url, headers } => {
            let collected = collect_headers(&headers);
            let downgraded = starts_with(url, "https://") && starts_with(final_url.as_str(), "http://");
            let empty_body = match header_value(&collected, "content-length") {
                Some(v) => match parse_u64(&chars_of(v.as_str())) {
                    Some(n) => n == 0,
                    None => false,
                },
                None => false,
            };
            let status = if 200 <= status_code && status_code < 400 {
                Status::Pass
            } else if 400 <= status_code && status_code < 500 {
                Status::Warn
            } else {
                Status::Fail
            };
            let url_text = owned(url);
            let mut redirect_chain: Vec<String> = Vec::new();
            if final_url != url_text {
                redirect_chain.push(final_url);
            }
            assert(redirect_chain@.map_values(|s: String| s@) =~= if final_url@ != url@ {
                seq![final_url@]
            } else {
                seq![]
            });
            HttpModule {
                status,
                severity: super::result::severity_for(status),
                duration_ms,
                error: None,
                details: HttpDetails {
                    status_code: Some(status_code),
                    redirect_chain,
                    headers: collected,
                    empty_body,
                    downgraded,
                },
            }
        },
    }
}

/// The URL a response was finally served from, where there was a response.
pub open spec fn final_url_of(outcome: HttpOutcome) -> Option<Seq<char>> {
    match outcome {
        HttpOutcome::Response { final_url, .. } => Some(final_url@),
        _ => None,
    }
}

/// `http://` and `https://` never both begin a text.
proof fn lemma_schemes_exclusive(t: Seq<char>)
    ensures
        !("http://"@.is_prefix_of(t) && "https://"@.is_prefix_of(t)),
{
    reveal_strlit("http://");
    reveal_strlit("https://");
    if "http://"@.is_prefix_of(t) && "https://"@.is_prefix_of(t) {
        assert(t[4] == "http://"@[4]);
        assert(t[4] == "https://"@[4]);
    }
}

/// Law: a request counts as downgraded exactly when it was made over HTTPS and its final URL
/// is plain HTTP; a response that ends on an HTTPS URL is never downgraded, and a request
/// that did not start on HTTPS never is.
pub proof fn lemma_downgrade_means_plain_http(url: Seq<char>, outcome: HttpOutcome, duration_ms: u64, r: HttpModule)
    requires
        http_module_spec(url, outcome, duration_ms, r),
    ensures
        r.details.downgraded <==> ("https://"@.is_prefix_of(url) && final_url_of(outcome) is Some
            && "http://"@.is_prefix_of(final_url_of(outcome).unwrap())),
        (final_url_of(outcome) is Some && "https://"@.is_prefix_of(final_url_of(outcome).unwrap()))
            ==> !r.details.downgraded,
        !"https://"@.is_prefix_of(url) ==> !r.details.downgraded,
{
    if let HttpOutcome::Response { final_url, .. } = outcome {
        lemma_schemes_exclusive(final_url@);
    }
}

} // verus!

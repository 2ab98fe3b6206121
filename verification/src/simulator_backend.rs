//! Decisions of the signal backend that talks to the standalone simulator.

use vstd::prelude::*;

use crate::signal_backend::{data_fault_for, DataFault, SignalBackendError, SignalFault};

verus! {

/// `s` with every trailing `'/'` removed.
pub open spec fn strip_trailing_slashes(s: Seq<char>) -> Seq<char>
    decreases s.len(),
{
    if s.len() > 0 && s.last() == '/' {
        strip_trailing_slashes(s.drop_last())
    } else {
        s
    }
}

/// The path segment that selects version 1 of the simulator API.
pub open spec fn v1_suffix() -> Seq<char> {
    seq!['/', 'v', '1']
}

/// `s` ends with `suffix`.
pub open spec fn has_suffix(s: Seq<char>, suffix: Seq<char>) -> bool {
    suffix.len() <= s.len() && s.subrange(s.len() - suffix.len(), s.len() as int) == suffix
}

/// The versioned API root for a simulator base URL: trailing slashes are
/// dropped, and `/v1` is appended unless the URL already ends with it.
pub open spec fn v1_url_of(base: Seq<char>) -> Seq<char> {
    let trimmed = strip_trailing_slashes(base);
    if has_suffix(trimmed, v1_suffix()) {
        trimmed
    } else {
        trimmed + v1_suffix()
    }
}

proof fn lemma_strip_step(s: Seq<char>, end: int)
    requires
        0 < end <= s.len(),
        s[end - 1] == '/',
    ensures
        strip_trailing_slashes(s.subrange(0, end)) == strip_trailing_slashes(s.subrange(0, end - 1)),
{
    assert(s.subrange(0, end).drop_last() =~= s.subrange(0, end - 1));
}

proof fn lemma_strip_leaves_no_trailing_slash(s: Seq<char>)
    ensures
        forall|j: int| strip_trailing_slashes(s).len() <= j < s.len() ==> s[j] == '/',
        strip_trailing_slashes(s).len() == 0 || strip_trailing_slashes(s).last() != '/',
        strip_trailing_slashes(s).len() <= s.len(),
        strip_trailing_slashes(s) =~= s.subrange(0, strip_trailing_slashes(s).len() as int),
    decreases s.len(),
{
    if s.len() > 0 && s.last() == '/' {
        lemma_strip_leaves_no_trailing_slash(s.drop_last());
        let k: int = strip_trailing_slashes(s).len() as int;
        assert(s.drop_last().subrange(0, k) =~= s.subrange(0, k));
        assert forall|j: int| k <= j < s.len() implies s[j] == '/' by {
            if j < s.len() - 1 {
                assert(s.drop_last()[j] == s[j]);
            }
        }
    } else {
        assert(s.subrange(0, s.len() as int) =~= s);
    }
}

/// The versioned API root never ends in a slash, ends with `/v1`, and starts
/// with the base URL stripped of its trailing slashes.
pub proof fn lemma_v1_url_shape(base: Seq<char>)
    ensures
        has_suffix(v1_url_of(base), v1_suffix()),
        v1_url_of(base).last() != '/',
        v1_url_of(base).subrange(0, strip_trailing_slashes(base).len() as int)
            == strip_trailing_slashes(base),
{
    let trimmed = strip_trailing_slashes(base);
    if !has_suffix(trimmed, v1_suffix()) {
        let url = trimmed + v1_suffix();
        assert(url.subrange(url.len() - 3, url.len() as int) =~= v1_suffix());
        assert(url.subrange(0, trimmed.len() as int) =~= trimmed);
    } else {
        assert(trimmed.subrange(0, trimmed.len() as int) =~= trimmed);
        assert(trimmed.last() == trimmed.subrange(trimmed.len() - 3, trimmed.len() as int)[2]);
    }
}

/// The versioned API root, described directly on the base URL: with `k` the
/// length of the base once its run of trailing slashes is cut off, the root is
/// the first `k` characters of the base, followed by `/v1` unless those
/// characters already end with `/v1`.
pub proof fn lemma_v1_url_from_base(base: Seq<char>)
    ensures
        exists|k: int|
            0 <= k <= base.len() && (forall|j: int| k <= j < base.len() ==> base[j] == '/') && (k
                == 0 || base[k - 1] != '/') && if k >= 3 && base[k - 3] == '/' && base[k - 2]
                == 'v' && base[k - 1] == '1' {
                v1_url_of(base) == base.subrange(0, k)
            } else {
                v1_url_of(base) == base.subrange(0, k) + seq!['/', 'v', '1']
            },
{
    lemma_strip_leaves_no_trailing_slash(base);
    let trimmed = strip_trailing_slashes(base);
    let k: int = trimmed.len() as int;
    if k >= 3 {
        let tail = trimmed.subrange(k - 3, k);
        assert(tail[0] == base[k - 3] && tail[1] == base[k - 2] && tail[2] == base[k - 1]);
        if base[k - 3] == '/' && base[k - 2] == 'v' && base[k - 1] == '1' {
            assert(tail =~= v1_suffix());
        }
    }
    assert(v1_suffix() =~= seq!['/', 'v', '1']);
    if k > 0 {
        assert(trimmed.last() == base[k - 1]);
    }
}

/// Normalising a URL that is already a versioned API root leaves it unchanged.
pub proof fn lemma_v1_url_idempotent(base: Seq<char>)
    ensures
        v1_url_of(v1_url_of(base)) == v1_url_of(base),
{
    let url = v1_url_of(base);
    lemma_v1_url_shape(base);
    assert(strip_trailing_slashes(url) == url);
}

/// Builds the versioned API root of the simulator from its base URL.
pub fn simulator_v1_url(base_url: &str) -> (url: String)
    ensures
        url@ == v1_url_of(base_url@),
{
    let n: usize = base_url.unicode_len();
    let mut end: usize = n;
    assert(base_url@.subrange(0, n as int) =~= base_url@);
    while end > 0 && base_url.get_char(end - 1) == '/'
        invariant
            n == base_url@.len(),
            end <= n,
            strip_trailing_slashes(base_url@.subrange(0, end as int)) == strip_trailing_slashes(
                base_url@,
            ),
        decreases end,
    {
        proof {
            lemma_strip_step(base_url@, end as int);
        }
        end = end - 1;
    }
    let trimmed = base_url.substring_char(0, end);
    assert(strip_trailing_slashes(trimmed@) == trimmed@);
    let ends_with_v1 = end >= 3 && base_url.get_char(end - 3) == '/' && base_url.get_char(end - 2)
        == 'v' && base_url.get_char(end - 1) == '1';
    proof {
        if end >= 3 {
            let tail = trimmed@.subrange(end - 3, end as int);
            assert(ends_with_v1 ==> tail =~= v1_suffix());
            assert(tail =~= v1_suffix() ==> tail[0] == '/' && tail[1] == 'v' && tail[2] == '1');
        }
    }
    let mut url = String::from_str(trimmed);
    if !ends_with_v1 {
        let suffix = "/v1";
        proof {
            reveal_strlit("/v1");
            assert(suffix@ =~= v1_suffix());
        }
        url.append(suffix);
    }
    url
}

/// The HTTP status code that the simulator answers for an unknown resource.
///
/// Trusted: `http::StatusCode::NOT_FOUND.as_u16()`, which the `http` crate
/// documents to be 404.
#[verifier::external_body]
fn not_found_status_code() -> (code: u16)
    ensures
        code == 404,
{
    http::StatusCode::NOT_FOUND.as_u16()
}

/// A failed request of the simulator client, as plain values.
pub struct ClientFailure {
    /// The HTTP status of the answer, when the simulator answered with an API error.
    pub status: Option<u16>,
    /// The text that the failure displays.
    pub message: String,
}

/// The signal error that a failed simulator request for `signal_id` becomes.
pub open spec fn client_fault(status: Option<u16>, message: Seq<char>, signal_id: Seq<char>) -> SignalFault {
    if status == Some(404u16) {
        SignalFault::NotFound(signal_id)
    } else {
        SignalFault::Backend("failed to read simulator signal "@ + signal_id + ": "@ + message)
    }
}

/// Maps a failed simulator request for `signal_id` to a signal error: an API
/// error with status 404 means that the signal is unknown; anything else is a
/// backend failure that carries the failure's text.
pub fn map_client_error(error: ClientFailure, signal_id: &str) -> (mapped: SignalBackendError)
    ensures
        mapped@ == client_fault(error.status, error.message@, signal_id@),
{
    let not_found: u16 = not_found_status_code();
    match error.status {
        Some(status) if status == not_found => SignalBackendError::NotFound(signal_id.to_owned()),
        _ => {
            let mut text = String::from_str("failed to read simulator signal ");
            text.append(signal_id);
            text.append(": ");
            text.append(error.message.as_str());
            SignalBackendError::Backend(text)
        },
    }
}

/// The simulator path that serves the numeric value of `signal_id`.
pub open spec fn value_path_of(signal_id: Seq<char>) -> Seq<char> {
    "/values/"@ + signal_id
}

/// The value path of a signal is `/values/` followed by the whole signal id:
/// eight characters of prefix, then exactly the characters of the id.
pub proof fn lemma_value_path_shape(signal_id: Seq<char>)
    ensures
        value_path_of(signal_id).len() == 8 + signal_id.len(),
        value_path_of(signal_id).subrange(0, 8) == seq!['/', 'v', 'a', 'l', 'u', 'e', 's', '/'],
        value_path_of(signal_id).subrange(0, 8) == "/values/"@,
        value_path_of(signal_id).subrange(8, value_path_of(signal_id).len() as int) == signal_id,
{
    broadcast use vstd::string::group_string_axioms;

    reveal_strlit("/values/");
    let path = value_path_of(signal_id);
    assert("/values/"@ =~= seq!['/', 'v', 'a', 'l', 'u', 'e', 's', '/']);
    assert(path.subrange(0, 8) =~= "/values/"@);
    assert(path.subrange(8, path.len() as int) =~= signal_id);
}

/// Two signals share a value path exactly when they are the same signal.
pub proof fn lemma_value_path_injective(first: Seq<char>, second: Seq<char>)
    ensures
        (value_path_of(first) == value_path_of(second)) <==> (first == second),
{
    lemma_value_path_shape(first);
    lemma_value_path_shape(second);
}

/// Builds the simulator path that serves the numeric value of `signal_id`.
pub fn signal_value_path(signal_id: &str) -> (path: String)
    ensures
        path@ == value_path_of(signal_id@),
        path@.len() == 8 + signal_id@.len(),
        path@.subrange(0, 8) == "/values/"@,
        path@.subrange(8, path@.len() as int) == signal_id@,
{
    let mut path = String::from_str("/values/");
    path.append(signal_id);
    proof {
        lemma_value_path_shape(signal_id@);
    }
    path
}

/// Whether two strings hold the same characters.
fn same_text(a: &str, b: &str) -> (same: bool)
    ensures
        same == (a@ == b@),
{
    let n: usize = a.unicode_len();
    if n != b.unicode_len() {
        return false;
    }
    let mut i: usize = 0;
    while i < n
        invariant
            n == a@.len(),
            n == b@.len(),
            i <= n,
            forall|j: int| 0 <= j < i ==> a@[j] == b@[j],
        decreases n - i,
    {
        if a.get_char(i) != b.get_char(i) {
            return false;
        }
        i = i + 1;
    }
    assert(a@ =~= b@);
    true
}

/// The signal whose string value the simulator serves.
pub open spec fn vin_signal() -> Seq<char> {
    "vehicle.vin"@
}

/// Where the string value of `signal_id` is read from: the VIN endpoint for
/// the VIN signal, an error for every other signal.
pub open spec fn string_route_of(signal_id: Seq<char>) -> Result<Seq<char>, SignalFault> {
    if signal_id == vin_signal() {
        Ok("/ident/vin"@)
    } else {
        Err(SignalFault::Backend("simulator has no string endpoint for signal "@ + signal_id))
    }
}

/// Chooses the simulator path that serves the string value of `signal_id`,
/// or the error that answers a signal without a string endpoint.
pub fn string_signal_path(signal_id: &str) -> (route: Result<String, SignalBackendError>)
    ensures
        match (route, string_route_of(signal_id@)) {
            (Ok(path), Ok(expected)) => path@ == expected,
            (Err(error), Err(expected)) => error@ == expected,
            _ => false,
        },
{
    if same_text(signal_id, "vehicle.vin") {
        Ok(String::from_str("/ident/vin"))
    } else {
        let mut text = String::from_str("simulator has no string endpoint for signal ");
        text.append(signal_id);
        Err(SignalBackendError::Backend(text))
    }
}

/// How the gateway answers a data read whose simulator request failed: a 404
/// from the simulator means that the data resource itself is not found; any
/// other failure is an internal error that names the signal and carries the
/// failure's text.
pub proof fn lemma_failed_request_answer(
    status: Option<u16>,
    message: Seq<char>,
    signal_id: Seq<char>,
    data_id: Seq<char>,
)
    ensures
        (client_fault(status, message, signal_id) is NotFound) <==> status == Some(404u16),
        status == Some(404u16) ==> client_fault(status, message, signal_id) == SignalFault::NotFound(
            signal_id,
        ),
        status != Some(404u16) ==> client_fault(status, message, signal_id) == SignalFault::Backend(
            "failed to read simulator signal "@ + signal_id + ": "@ + message,
        ),
        status == Some(404u16) ==> data_fault_for(client_fault(status, message, signal_id), data_id)
            == DataFault::NotFound(data_id),
        status != Some(404u16) ==> data_fault_for(client_fault(status, message, signal_id), data_id)
            == DataFault::Internal("failed to read simulator signal "@ + signal_id + ": "@ + message),
{
}

/// A string read of any signal but the VIN is answered as an internal error
/// that names the signal; the VIN is read from the simulator's VIN endpoint.
pub proof fn lemma_string_read_answer(signal_id: Seq<char>, data_id: Seq<char>)
    ensures
        (string_route_of(signal_id) is Ok) <==> signal_id == "vehicle.vin"@,
        signal_id == "vehicle.vin"@ ==> string_route_of(signal_id) == Ok::<Seq<char>, SignalFault>(
            "/ident/vin"@,
        ),
        signal_id != "vehicle.vin"@ ==> (string_route_of(signal_id) matches Err(fault)
            && data_fault_for(fault, data_id) == DataFault::Internal(
            "simulator has no string endpoint for signal "@ + signal_id,
        )),
{
}

} // verus!

use vstd::prelude::*;
use crate::snapshot::{AccountSnapshot, TunnelFields, TunnelSummary, tunnel_views};

verus! {

#[verifier::external_type_specification]
#[verifier::external_body]
pub struct ExJsonValue(json::JsonValue);

/// The tunnel records a parsed snapshot tree holds, each projected to its
/// `(id, name, assigned_domain, local_ip, local_port)` text fields.
pub uninterp spec fn tunnel_fields(v: json::JsonValue) -> Seq<TunnelFields>;

/// The tunnel records that parsing a snapshot body yields, or `None` when
/// the body is not well-formed.  The body text alone determines this.
pub uninterp spec fn body_tunnel_fields(s: Seq<char>) -> Option<Seq<TunnelFields>>;

/// Relies on `json::parse`: building the tree succeeds exactly on
/// well-formed text, and the tree's tunnel records are a function of the
/// text alone.
#[verifier::external_body]
fn parse_json(body: &str) -> (r: Option<json::JsonValue>)
    ensures
        match r {
            Some(v) => body_tunnel_fields(body@) == Some(tunnel_fields(v)),
            None => body_tunnel_fields(body@) is None,
        },
{
    match json::parse(body) {
        Ok(v) => Some(v),
        Err(_) => None,
    }
}

/// Relies on `json::JsonValue::len`, which returns the length of the
/// `tunnels.tunnels` array (and `0` where that entry is absent: indexing a
/// missing key yields `Null`, whose `len` is `0`).
#[verifier::external_body]
fn tunnel_count(v: &json::JsonValue) -> (r: usize)
    ensures
        r == tunnel_fields(*v).len(),
{
    v["tunnels"]["tunnels"].len()
}

/// Relies on `json::JsonValue` indexing (total: a missing key or index
/// yields `Null`) and on its `Display`, which prints string nodes as their
/// raw text, to project the fields of one tunnel record.
#[verifier::external_body]
fn tunnel_at(v: &json::JsonValue, i: usize) -> (r: TunnelSummary)
    requires
        i < tunnel_fields(*v).len(),
    ensures
        r@ == tunnel_fields(*v)[i as int],
{
    let t = &v["tunnels"]["tunnels"][i];
    TunnelSummary {
        id: t["id"].to_string(),
        name: t["name"].to_string(),
        assigned_domain: t["alloc"]["data"]["assigned_domain"].to_string(),
        local_ip: t["origin"]["data"]["local_ip"].to_string(),
        local_port: t["origin"]["data"]["local_port"].to_string(),
    }
}

/// Parses one snapshot body into the typed projection this client works
/// on.  Succeeds exactly on well-formed bodies and then yields every
/// tunnel record, in order.
pub fn parse_snapshot(body: &str) -> (r: Option<AccountSnapshot>)
    ensures
        match r {
            Some(s) => body_tunnel_fields(body@) == Some(s@),
            None => body_tunnel_fields(body@) is None,
        },
{
    match parse_json(body) {
        None => None,
        Some(v) => {
            let n = tunnel_count(&v);
            let mut tunnels: Vec<TunnelSummary> = Vec::new();
            let mut i: usize = 0;
            while i < n
                invariant
                    n == tunnel_fields(v).len(),
                    i <= n,
                    tunnel_views(tunnels@) == tunnel_fields(v).take(i as int),
                decreases n - i,
            {
                proof {
                    assert(tunnel_fields(v).take(i as int).len() == i);
                    assert(tunnels@.len() == i);
                }
                let t = tunnel_at(&v, i);
                tunnels.push(t);
                i += 1;
                proof {
                    assert(tunnel_views(tunnels@) =~= tunnel_fields(v).take(i as int));
                }
            }
            let snap = AccountSnapshot { tunnels };
            proof {
                assert(snap@ =~= tunnel_fields(v));
            }
            Some(snap)
        },
    }
}

/// What one fetch of the account snapshot came back with: a response with
/// its status and body text, or a transport-level failure.
pub enum FetchResult {
    Response { status: u16, body: String },
    TransportFailed,
}

/// Why a read of the account snapshot failed.
#[derive(Clone, Copy, Debug, PartialEq, Eq, Structural)]
pub enum ReadError {
    /// The service answered the fetch with status 204: not authenticated.
    Auth,
    /// The transport failed before any status came back.
    Transport,
    /// The service answered 200 but the body was malformed.
    Parse,
    /// The service answered with a status other than 200 or 204.
    Unexpected,
}

/// How a fetch outcome is interpreted: status 204 means not
/// authenticated, any status other than 200 is an unspecified failure,
/// and a 200 body yields the snapshot exactly when it is well-formed.
pub open spec fn spec_interpret(f: FetchResult) -> Result<Seq<TunnelFields>, ReadError> {
    match f {
        FetchResult::TransportFailed => Err(ReadError::Transport),
        FetchResult::Response { status, body } => {
            if status == 204 {
                Err(ReadError::Auth)
            } else if status != 200 {
                Err(ReadError::Unexpected)
            } else {
                match body_tunnel_fields(body@) {
                    Some(t) => Ok(t),
                    None => Err(ReadError::Parse),
                }
            }
        },
    }
}

/// Turns one fetch outcome into the parsed snapshot or the exact error
/// `spec_interpret` assigns to it.
pub fn interpret_fetch(f: FetchResult) -> (r: Result<AccountSnapshot, ReadError>)
    ensures
        match r {
            Ok(s) => spec_interpret(f) == Ok::<_, ReadError>(s@),
            Err(e) => spec_interpret(f) == Err::<Seq<TunnelFields>, _>(e),
        },
{
    match f {
        FetchResult::TransportFailed => Err(ReadError::Transport),
        FetchResult::Response { status, body } => {
            if status == 204 {
                Err(ReadError::Auth)
            } else if status != 200 {
                Err(ReadError::Unexpected)
            } else {
                match parse_snapshot(body.as_str()) {
                    Some(s) => Ok(s),
                    None => Err(ReadError::Parse),
                }
            }
        },
    }
}

} // verus!

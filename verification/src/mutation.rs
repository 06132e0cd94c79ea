use vstd::prelude::*;
use crate::cache::{CacheView, SessionCache, spec_read};
use crate::fetch::{FetchResult, spec_interpret};
use crate::nav::EditField;
use crate::snapshot::TunnelSummary;

verus! {

/// One form-encoded mutation request, ready to be posted: the endpoint
/// and the body text.  Building it is pure computation and verified
/// here; posting it is I/O and happens outside this crate.
pub struct MutationRequest {
    pub url: String,
    pub body: String,
}

/// The endpoint that renames the tunnel with the given id.
pub open spec fn rename_url_of(id: Seq<char>) -> Seq<char> {
    "https://playit.gg/account/tunnels/"@ + id
        + "/rename?_data=routes%2Faccount%2Ftunnels%2F%24tunnelId%2Frename"@
}

/// The form body that sets a tunnel's display name.
pub open spec fn rename_body_of(name: Seq<char>) -> Seq<char> {
    "name="@ + name
}

/// The endpoint that edits the tunnel with the given id.
pub open spec fn port_change_url_of(id: Seq<char>) -> Seq<char> {
    "https://playit.gg/account/tunnels/"@ + id + "?_data=routes%2Faccount%2Ftunnels%2F%24tunnelId"@
}

/// The form body that repoints a tunnel's local port.  The remote form
/// requires the current ip and port to be echoed, the new ip left blank,
/// and the new port filled in; this payload mirrors that contract
/// exactly.
pub open spec fn port_change_body_of(
    id: Seq<char>,
    local_ip: Seq<char>,
    local_port: Seq<char>,
    new_port: Seq<char>,
) -> Seq<char> {
    "_action=local-address&agent_id="@ + id + "&local_ip_og="@ + local_ip + "&local_port_og="@
        + local_port + "&local_ip=&local_port="@ + new_port
}

/// Builds the request that renames `tunnel` to `new_name`.
pub fn rename_request(tunnel: &TunnelSummary, new_name: &str) -> (r: MutationRequest)
    ensures
        r.url@ == rename_url_of(tunnel.id@),
        r.body@ == rename_body_of(new_name@),
{
    let url = String::from_str("https://playit.gg/account/tunnels/").concat(
        tunnel.id.as_str(),
    ).concat("/rename?_data=routes%2Faccount%2Ftunnels%2F%24tunnelId%2Frename");
    let body = String::from_str("name=").concat(new_name);
    MutationRequest { url, body }
}

/// Builds the request that repoints `tunnel`'s local port to `new_port`,
/// echoing the tunnel's current ip and port as the remote form requires.
pub fn port_change_request(tunnel: &TunnelSummary, new_port: &str) -> (r: MutationRequest)
    ensures
        r.url@ == port_change_url_of(tunnel.id@),
        r.body@ == port_change_body_of(
            tunnel.id@,
            tunnel.local_ip@,
            tunnel.local_port@,
            new_port@,
        ),
{
    let url = String::from_str("https://playit.gg/account/tunnels/").concat(
        tunnel.id.as_str(),
    ).concat("?_data=routes%2Faccount%2Ftunnels%2F%24tunnelId");
    let body = String::from_str("_action=local-address&agent_id=").concat(
        tunnel.id.as_str(),
    ).concat("&local_ip_og=").concat(tunnel.local_ip.as_str()).concat("&local_port_og=").concat(
        tunnel.local_port.as_str(),
    ).concat("&local_ip=&local_port=").concat(new_port);
    MutationRequest { url, body }
}

/// What posting a mutation request came back with: a response status, or
/// a transport-level failure.
pub enum SubmitResult {
    Status(u16),
    TransportFailed,
}

/// A mutation counts as confirmed exactly on status 200.
pub open spec fn spec_mutation_ok(s: SubmitResult) -> bool {
    s == SubmitResult::Status(200)
}

/// What completing a mutation does to the cache: a confirmed mutation
/// invalidates the cache and immediately applies the forced refresh
/// fetch; anything else leaves the cache untouched.
pub open spec fn spec_finish_mutation(
    v: CacheView,
    submit: SubmitResult,
    refresh: Option<FetchResult>,
) -> (CacheView, bool) {
    if spec_mutation_ok(submit) {
        (spec_read((CacheView { stale: true, ..v }), refresh).0, true)
    } else {
        (v, false)
    }
}

/// Completes one rename or port-change: `submit` is the outcome of
/// posting the request, and `refresh` the outcome of the forced
/// re-fetch, owed exactly when the mutation was confirmed (status 200).
/// On confirmation the cache is invalidated and the refresh applied at
/// once — a refresh failure leaves the cache stale but does not roll
/// back the success signal.  On any other status, or a transport
/// failure, the cache is left untouched and the caller must report
/// failure and not advance the selection.
pub fn finish_mutation(cache: &mut SessionCache, submit: SubmitResult, refresh: Option<
    FetchResult,
>) -> (r: bool)
    requires
        old(cache)@.wf(),
        refresh is Some <==> spec_mutation_ok(submit),
    ensures
        final(cache)@.wf(),
        (final(cache)@, r) == spec_finish_mutation(old(cache)@, submit, refresh),
{
    let confirmed = match submit {
        SubmitResult::Status(code) => code == 200,
        SubmitResult::TransportFailed => false,
    };
    if confirmed {
        cache.invalidate();
        let _ = cache.read(true, refresh);
        true
    } else {
        false
    }
}

/// What the edit sub-mode decided: return to Detail without a network
/// call, or post exactly this request.
pub enum EditPlan {
    NoChange,
    Submit(MutationRequest),
}

/// The edit sub-mode's decision on a submitted line.  An empty input
/// means "no change requested": the coordinator is never invoked and the
/// view returns to Detail unchanged.  Any other input becomes the exact
/// rename or port-change request for `tunnel`.
pub fn plan_edit(field: EditField, tunnel: &TunnelSummary, input: &str) -> (r: EditPlan)
    ensures
        input@.len() == 0 <==> r is NoChange,
        match r {
            EditPlan::NoChange => input@.len() == 0,
            EditPlan::Submit(req) => match field {
                EditField::Name => req.url@ == rename_url_of(tunnel.id@) && req.body@
                    == rename_body_of(input@),
                EditField::Port => req.url@ == port_change_url_of(tunnel.id@) && req.body@
                    == port_change_body_of(
                    tunnel.id@,
                    tunnel.local_ip@,
                    tunnel.local_port@,
                    input@,
                ),
            },
        },
{
    if input.is_empty() {
        EditPlan::NoChange
    } else {
        match field {
            EditField::Name => EditPlan::Submit(rename_request(tunnel, input)),
            EditField::Port => EditPlan::Submit(port_change_request(tunnel, input)),
        }
    }
}

/// After any confirmed mutation the next read cannot silently serve the
/// pre-mutation snapshot: either the forced refresh already replaced the
/// snapshot with the freshly fetched one, or the refresh failed and the
/// cache is stale, so the very next read is owed a fetch.
pub proof fn lemma_invalidate_then_refresh(v: CacheView, refresh: FetchResult)
    ensures
        ({
            let (v1, ok) = spec_finish_mutation(v, SubmitResult::Status(200), Some(refresh));
            ok && match spec_interpret(refresh) {
                Ok(t) => v1.snapshot == Some(t) && !v1.stale,
                Err(_) => v1.stale && v1.needs_fetch(false),
            }
        }),
{
}

/// A mutation that is not confirmed with status 200 changes nothing: the
/// cache keeps its snapshot and its staleness, and the coordinator
/// reports failure.
pub proof fn lemma_failed_mutation_untouched(v: CacheView, submit: SubmitResult)
    requires
        !spec_mutation_ok(submit),
    ensures
        spec_finish_mutation(v, submit, None) == (v, false),
{
}

} // verus!

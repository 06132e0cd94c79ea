use vstd::prelude::*;

verus! {

/// The per-tunnel fields this client interprets, projected to plain text
/// once at fetch time.  The view is the tuple
/// `(id, name, assigned_domain, local_ip, local_port)` of character
/// sequences.
#[derive(Debug)]
pub struct TunnelSummary {
    /// Opaque service-assigned identifier.
    pub id: String,
    /// Display name of the tunnel.
    pub name: String,
    /// Public domain assigned by the service (read-only here).
    pub assigned_domain: String,
    /// Local address the tunnel currently forwards to.
    pub local_ip: String,
    /// Local port the tunnel currently forwards to, as the service prints it.
    pub local_port: String,
}

impl View for TunnelSummary {
    type V = (Seq<char>, Seq<char>, Seq<char>, Seq<char>, Seq<char>);

    open spec fn view(&self) -> Self::V {
        (self.id@, self.name@, self.assigned_domain@, self.local_ip@, self.local_port@)
    }
}

/// The projection of one tunnel record: its
/// `(id, name, assigned_domain, local_ip, local_port)` text fields.
pub type TunnelFields = (Seq<char>, Seq<char>, Seq<char>, Seq<char>, Seq<char>);

/// The views of a sequence of tunnel summaries, in order.
pub open spec fn tunnel_views(ts: Seq<TunnelSummary>) -> Seq<TunnelFields> {
    Seq::new(ts.len(), |i: int| ts[i]@)
}

impl TunnelSummary {
    /// A deep copy with the same field text.
    pub fn duplicate(&self) -> (r: TunnelSummary)
        ensures
            r@ == self@,
    {
        TunnelSummary {
            id: self.id.clone(),
            name: self.name.clone(),
            assigned_domain: self.assigned_domain.clone(),
            local_ip: self.local_ip.clone(),
            local_port: self.local_port.clone(),
        }
    }
}

/// One account snapshot: the list of tunnels the account holds at the time
/// of one fetch.  Replaced wholesale on refresh, never patched in place.
#[derive(Debug)]
pub struct AccountSnapshot {
    pub tunnels: Vec<TunnelSummary>,
}

impl View for AccountSnapshot {
    type V = Seq<(Seq<char>, Seq<char>, Seq<char>, Seq<char>, Seq<char>)>;

    open spec fn view(&self) -> Self::V {
        tunnel_views(self.tunnels@)
    }
}

impl AccountSnapshot {
    /// A deep copy with the same tunnel fields.
    pub fn duplicate(&self) -> (r: AccountSnapshot)
        ensures
            r@ == self@,
    {
        let mut tunnels: Vec<TunnelSummary> = Vec::new();
        let n = self.tunnels.len();
        let mut i: usize = 0;
        while i < n
            invariant
                n == self.tunnels.len(),
                i <= n,
                tunnel_views(tunnels@) == self@.take(i as int),
            decreases n - i,
        {
            proof {
                assert(self@.take(i as int).len() == i);
                assert(tunnels@.len() == i);
            }
            let t = self.tunnels[i].duplicate();
            tunnels.push(t);
            i += 1;
            proof {
                assert(tunnel_views(tunnels@) =~= self@.take(i as int));
            }
        }
        let r = AccountSnapshot { tunnels };
        proof {
            assert(r@ =~= self@);
        }
        r
    }
}

} // verus!

use vstd::prelude::*;
use crate::fetch::{FetchResult, ReadError, interpret_fetch, spec_interpret};
use crate::snapshot::{AccountSnapshot, TunnelFields};

verus! {

/// The abstract state of the session cache: the projected snapshot it
/// holds (if any), the staleness flag, and whether the session has been
/// validated against the service.
pub ghost struct CacheView {
    pub snapshot: Option<Seq<TunnelFields>>,
    pub stale: bool,
    pub authenticated: bool,
}

impl CacheView {
    /// A cache that is not stale always holds a snapshot.
    pub open spec fn wf(self) -> bool {
        !self.stale ==> self.snapshot is Some
    }

    /// Whether a read in this state must fetch before serving data.
    pub open spec fn needs_fetch(self, force: bool) -> bool {
        force || self.stale
    }
}

/// What one read does to the cache.  With no fetch outcome it serves the
/// held snapshot and changes nothing; with one, a successful
/// interpretation replaces the snapshot wholesale and clears staleness,
/// and any failure leaves the cache exactly as it was, staleness
/// included.
pub open spec fn spec_read(v: CacheView, fetch: Option<FetchResult>) -> (CacheView, Result<
    Seq<TunnelFields>,
    ReadError,
>) {
    match fetch {
        None => (v, Ok(v.snapshot->Some_0)),
        Some(f) => match spec_interpret(f) {
            Ok(t) => (
                (CacheView { snapshot: Some(t), stale: false, authenticated: v.authenticated }),
                Ok(t),
            ),
            Err(e) => (v, Err(e)),
        },
    }
}

/// Only the first read after the cache turns stale consumes a fetch:
/// once a read has applied a successful fetch, the cache no longer needs
/// one, and every further read without an intervening mutation serves
/// the identical snapshot and leaves the cache unchanged.
pub proof fn lemma_cache_freshness(v: CacheView, fetch: FetchResult)
    requires
        spec_interpret(fetch) is Ok,
    ensures
        !spec_read(v, Some(fetch)).0.needs_fetch(false),
        spec_read(spec_read(v, Some(fetch)).0, None).0 == spec_read(v, Some(fetch)).0,
        spec_read(spec_read(v, Some(fetch)).0, None).1 == spec_read(v, Some(fetch)).1,
{
}

/// The session cache: the last fetched account snapshot plus a staleness
/// flag.  It mediates every read, so that navigation never triggers an
/// unnecessary fetch, and is refreshed immediately after any successful
/// mutation.  The fetch itself is I/O and happens outside this crate; a
/// read takes the fetch's outcome as an argument, exactly when one is
/// owed, and is verified for every outcome.
pub struct SessionCache {
    snapshot: Option<AccountSnapshot>,
    stale: bool,
    authenticated: bool,
}

impl View for SessionCache {
    type V = CacheView;

    closed spec fn view(&self) -> CacheView {
        CacheView {
            snapshot: match self.snapshot {
                Some(ref s) => Some(s@),
                None => None,
            },
            stale: self.stale,
            authenticated: self.authenticated,
        }
    }
}

impl SessionCache {
    /// A fresh cache: no snapshot, stale, not authenticated.
    pub fn new() -> (c: SessionCache)
        ensures
            c@.wf(),
            c@.snapshot is None,
            c@.stale,
            !c@.authenticated,
    {
        SessionCache { snapshot: None, stale: true, authenticated: false }
    }

    /// Whether the next read must fetch: either the caller forces a
    /// refresh or the held snapshot is stale.
    pub fn needs_fetch(&self, force: bool) -> (r: bool)
        ensures
            r == self@.needs_fetch(force),
    {
        force || self.stale
    }

    /// Whether the session has been validated against the service.
    pub fn is_authenticated(&self) -> (r: bool)
        ensures
            r == self@.authenticated,
    {
        self.authenticated
    }

    /// The last known snapshot, without fetching.
    pub fn current(&self) -> (r: &Option<AccountSnapshot>)
        ensures
            match r {
                Some(s) => self@.snapshot == Some(s@),
                None => self@.snapshot is None,
            },
    {
        &self.snapshot
    }

    /// Marks the held snapshot stale.  No network call: the next read
    /// will fetch.
    pub fn invalidate(&mut self)
        ensures
            final(self)@ == (CacheView { stale: true, ..old(self)@ }),
    {
        self.stale = true;
    }

    /// Serves the account snapshot.  The caller passes the outcome of a
    /// fetch exactly when one is owed (`needs_fetch` says so); a read
    /// that needs no fetch serves the held snapshot unchanged, a
    /// successful fetch replaces it wholesale and clears staleness, and
    /// a failed fetch returns the error and leaves the cache exactly as
    /// it was, staleness included.
    pub fn read(&mut self, force: bool, fetch: Option<FetchResult>) -> (r: Result<
        AccountSnapshot,
        ReadError,
    >)
        requires
            old(self)@.wf(),
            fetch is Some <==> old(self)@.needs_fetch(force),
        ensures
            final(self)@.wf(),
            final(self)@ == spec_read(old(self)@, fetch).0,
            match r {
                Ok(s) => spec_read(old(self)@, fetch).1 == Ok::<_, ReadError>(s@),
                Err(e) => spec_read(old(self)@, fetch).1 == Err::<Seq<TunnelFields>, _>(e),
            },
    {
        match fetch {
            None => {
                match self.snapshot {
                    Some(ref s) => Ok(s.duplicate()),
                    None => {
                        proof {
                            assert(false);
                        }
                        Err(ReadError::Transport)
                    },
                }
            },
            Some(f) => {
                match interpret_fetch(f) {
                    Ok(s) => {
                        let out = s.duplicate();
                        self.snapshot = Some(s);
                        self.stale = false;
                        Ok(out)
                    },
                    Err(e) => Err(e),
                }
            },
        }
    }

    /// Completes a login attempt: the caller hands over the outcome of
    /// the validation fetch made with the candidate session.  Exactly a
    /// successful fetch authenticates; it also stores the fetched
    /// snapshot and clears staleness.  A failed validation leaves the
    /// cache exactly as it was.
    pub fn complete_login(&mut self, fetch: FetchResult) -> (r: bool)
        requires
            old(self)@.wf(),
        ensures
            final(self)@.wf(),
            r == (spec_interpret(fetch) is Ok),
            r ==> final(self)@ == (CacheView {
                snapshot: Some(spec_interpret(fetch)->Ok_0),
                stale: false,
                authenticated: true,
            }),
            !r ==> final(self)@ == old(self)@,
    {
        match interpret_fetch(fetch) {
            Ok(s) => {
                self.snapshot = Some(s);
                self.stale = false;
                self.authenticated = true;
                true
            },
            Err(_) => false,
        }
    }
}

} // verus!

//! Network backends: one that denies every fetch and an in-memory one that
//! answers from a fixed table.
use vstd::prelude::*;

use crate::action::{Action, NetworkFetchAction};
use crate::error::{CapabilityError, ExecutionError};
use crate::grant::Granted;
use crate::text::str_equal;

verus! {

/// Denies every network access.
#[derive(Debug, Clone, Copy)]
pub struct DenyNetworkBackend;

impl DenyNetworkBackend {
    pub fn new() -> (r: Self) {
        DenyNetworkBackend
    }

    /// Refuses the fetch.
    pub fn fetch_url(&self, granted: Granted<NetworkFetchAction>) -> (r: Result<
        Vec<u8>,
        ExecutionError,
    >)
        ensures
            r matches Err(ExecutionError::Capability(CapabilityError::Denied)),
    {
        Err(ExecutionError::Capability(CapabilityError::Denied))
    }
}

/// The body the table holds for `url`: that of its last entry for the URL.
pub open spec fn lookup_last(table: Seq<(Seq<char>, Seq<u8>)>, url: Seq<char>) -> Option<Seq<u8>>
    decreases table.len(),
{
    if table.len() == 0 {
        None
    } else if table.last().0 == url {
        Some(table.last().1)
    } else {
        lookup_last(table.drop_last(), url)
    }
}

/// The table answers a URL only from an entry for exactly that URL: it gives
/// the body of the last entry whose URL has the same length and characters,
/// and nothing when no entry has that URL.
pub proof fn law_lookup_exact_last(table: Seq<(Seq<char>, Seq<u8>)>, url: Seq<char>)
    ensures
        lookup_last(table, url) is None <==> (forall|i: int|
            0 <= i < table.len() ==> !(#[trigger] table[i].0.len() == url.len() && (forall|k: int|
                0 <= k < url.len() ==> table[i].0[k] == url[k]))),
        forall|b: Seq<u8>|
            #[trigger] lookup_last(table, url) == Some(b) ==> exists|i: int|
                0 <= i < table.len() && table[i].0 == url && #[trigger] table[i].1 == b && (forall|j: int|
                    i < j < table.len() ==> #[trigger] table[j].0 != url),
    decreases table.len(),
{
    if table.len() > 0 {
        let last = table.len() - 1;
        law_lookup_exact_last(table.drop_last(), url);
        assert forall|i: int| 0 <= i < table.len() - 1 implies #[trigger] table[i] == table.drop_last()[i] by {}
        if table.last().0 == url {
            assert(table[last].0 == url);
        } else {
            assert(!(table[last].0.len() == url.len() && (forall|k: int|
                0 <= k < url.len() ==> table[last].0[k] == url[k]))) by {
                if table[last].0.len() == url.len() && (forall|k: int|
                    0 <= k < url.len() ==> table[last].0[k] == url[k]) {
                    assert(table[last].0 =~= url);
                }
            }
            assert forall|b: Seq<u8>| #[trigger] lookup_last(table, url) == Some(b) implies exists|i: int|
                0 <= i < table.len() && table[i].0 == url && #[trigger] table[i].1 == b && (forall|j: int|
                    i < j < table.len() ==> #[trigger] table[j].0 != url) by {
                let t = table.drop_last();
                let i = choose|i: int|
                    0 <= i < t.len() && t[i].0 == url && #[trigger] t[i].1 == b && (forall|j: int|
                        i < j < t.len() ==> #[trigger] t[j].0 != url);
                assert(table[i] == t[i]);
                assert forall|j: int| i < j < table.len() implies #[trigger] table[j].0 != url by {
                    if j < t.len() {
                        assert(table[j] == t[j]);
                    }
                }
            }
        }
        if lookup_last(table, url) is None {
            assert forall|i: int| 0 <= i < table.len() implies !(#[trigger] table[i].0.len() == url.len() && (forall|k: int|
                0 <= k < url.len() ==> table[i].0[k] == url[k])) by {
                if i < last {
                    assert(table[i] == table.drop_last()[i]);
                }
            }
        }
        if (forall|i: int|
            0 <= i < table.len() ==> !(#[trigger] table[i].0.len() == url.len() && (forall|k: int|
                0 <= k < url.len() ==> table[i].0[k] == url[k]))) {
            assert(!(table[last].0.len() == url.len() && (forall|k: int|
                0 <= k < url.len() ==> table[last].0[k] == url[k])));
            assert forall|i: int| 0 <= i < table.drop_last().len() implies !(#[trigger] table.drop_last()[i].0.len() == url.len() && (forall|k: int|
                0 <= k < url.len() ==> table.drop_last()[i].0[k] == url[k])) by {
                assert(table[i] == table.drop_last()[i]);
            }
        }
    }
}

/// In-memory network for deterministic runs: each URL maps to a fixed body.
#[derive(Debug)]
pub struct StaticNetworkBackend {
    responses: Vec<(String, Vec<u8>)>,
}

impl StaticNetworkBackend {
    /// The table as given, in order.
    pub closed spec fn table(&self) -> Seq<(Seq<char>, Seq<u8>)> {
        self.responses@.map_values(|e: (String, Vec<u8>)| (e.0@, e.1@))
    }

    /// A backend answering from `responses`; when a URL appears twice, the
    /// later entry wins.
    pub fn new(responses: Vec<(String, Vec<u8>)>) -> (r: Self)
        ensures
            r.table() == responses@.map_values(|e: (String, Vec<u8>)| (e.0@, e.1@)),
    {
        StaticNetworkBackend { responses }
    }

    /// The body the table holds for `url`, or a denial.
    pub fn fetch_raw(&self, url: &str) -> (r: Result<Vec<u8>, CapabilityError>)
        ensures
            match lookup_last(self.table(), url@) {
                Some(body) => r matches Ok(b) && b@ == body,
                None => r matches Err(CapabilityError::Denied),
            },
    {
        let n = self.responses.len();
        let mut i = n;
        proof {
            assert(self.table().take(n as int) =~= self.table());
        }
        while i > 0
            invariant
                i <= n,
                n == self.responses@.len(),
                lookup_last(self.table(), url@) == lookup_last(self.table().take(i as int), url@),
            decreases i,
        {
            let entry = &self.responses[i - 1];
            proof {
                let t = self.table().take(i as int);
                assert(t.drop_last() =~= self.table().take(i - 1));
                assert(t.last() == self.table()[i - 1]);
            }
            if str_equal(entry.0.as_str(), url) {
                return Ok(entry.1.clone());
            }
            i = i - 1;
        }
        Err(CapabilityError::Denied)
    }

    /// Answers a granted fetch from the table; a URL not in it is denied.
    pub fn fetch_url(&self, granted: Granted<NetworkFetchAction>) -> (r: Result<
        Vec<u8>,
        ExecutionError,
    >)
        ensures
            ({
                let url = granted.spec_action().spec_view()->NetworkFetch_url;
                match lookup_last(self.table(), url) {
                    Some(body) => r matches Ok(b) && b@ == body,
                    None => r matches Err(ExecutionError::Capability(CapabilityError::Denied)),
                }
            }),
    {
        let action = granted.into_action();
        match self.fetch_raw(action.url()) {
            Ok(b) => Ok(b),
            Err(e) => Err(ExecutionError::Capability(e)),
        }
    }
}

/// The network backend a runtime executes fetches with.
#[derive(Debug)]
pub enum NetworkBackend {
    Deny(DenyNetworkBackend),
    Static(StaticNetworkBackend),
}

impl NetworkBackend {
    /// The body a fetch of `url` returns; `None` when the fetch is denied.
    pub open spec fn answer(&self, url: Seq<char>) -> Option<Seq<u8>> {
        match self {
            NetworkBackend::Deny(_) => None,
            NetworkBackend::Static(s) => lookup_last(s.table(), url),
        }
    }

    pub fn fetch_url(&self, granted: Granted<NetworkFetchAction>) -> (r: Result<
        Vec<u8>,
        ExecutionError,
    >)
        ensures
            match self.answer(granted.spec_action().spec_view()->NetworkFetch_url) {
                Some(body) => r matches Ok(b) && b@ == body,
                None => r matches Err(ExecutionError::Capability(CapabilityError::Denied)),
            },
    {
        match self {
            NetworkBackend::Deny(d) => d.fetch_url(granted),
            NetworkBackend::Static(s) => s.fetch_url(granted),
        }
    }
}

} // verus!

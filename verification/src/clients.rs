use vstd::prelude::*;

verus! {

#[verifier::external_type_specification]
#[verifier::external_body]
pub struct ExClient(reqwest::Client);

/// Relies on reqwest::Client::clone: a request client is a cheap,
/// shareable handle around one shared connection pool, and cloning it
/// yields that same handle — no new connection is set up.
#[verifier::external_body]
fn clone_client(c: &reqwest::Client) -> (r: reqwest::Client)
    ensures
        r == *c,
{
    c.clone()
}

/// A pool of externally-constructed request clients, handed out one per
/// call in round-robin order. The clients themselves are opaque to this
/// layer; only the rotation is its concern.
pub struct ClientPool {
    pub clients: Vec<reqwest::Client>,
    pub next_idx: usize,
}

impl ClientPool {
    pub open spec fn wf(self) -> bool {
        self.clients@.len() > 0 && self.next_idx < self.clients@.len()
    }

    pub fn new(clients: Vec<reqwest::Client>) -> (r: ClientPool)
        requires
            clients@.len() > 0,
        ensures
            r.wf(),
            r.clients@ == clients@,
            r.next_idx == 0,
    {
        ClientPool { clients, next_idx: 0 }
    }

    /// Hand out the client at the current rotation index and advance
    /// the rotation.
    pub fn next(&mut self) -> (r: reqwest::Client)
        requires
            old(self).wf(),
        ensures
            final(self).wf(),
            final(self).clients@ == old(self).clients@,
            final(self).next_idx == (old(self).next_idx + 1) % (old(self).clients@.len() as int),
            r == old(self).clients@[old(self).next_idx as int],
    {
        let n = self.clients.len();
        let c = clone_client(&self.clients[self.next_idx]);
        self.next_idx = (self.next_idx + 1) % n;
        c
    }
}

} // verus!

use rand::Rng;
use vstd::prelude::*;

verus! {

/// Relies on rand's `thread_rng().gen_range(0..n)`: a draw from `[0, n)`,
/// uniform over it; it panics on an empty range, hence `n > 0`.
#[verifier::external_body]
fn random_below(n: usize) -> (r: usize)
    requires
        n > 0,
    ensures
        r < n,
{
    rand::thread_rng().gen_range(0..n)
}

/// Why a pool could not be made.
#[derive(Debug, Clone, Copy, PartialEq, Eq)]
pub enum PoolError {
    /// No credential was configured.
    Empty,
}

/// One upstream client per credential, in the order configured; never empty.
pub struct ClientPool<C> {
    clients: Vec<C>,
}

impl<C> View for ClientPool<C> {
    type V = Seq<C>;

    closed spec fn view(&self) -> Seq<C> {
        self.clients@
    }
}

impl<C> ClientPool<C> {
    #[verifier::type_invariant]
    spec fn non_empty(&self) -> bool {
        self.clients@.len() > 0
    }

    /// Makes a pool of the given clients; fails when there is none.
    pub fn new(clients: Vec<C>) -> (r: Result<Self, PoolError>)
        ensures
            r is Ok <==> clients@.len() > 0,
            r matches Ok(p) ==> p@ == clients@,
            r matches Err(e) ==> e == PoolError::Empty,
    {
        if clients.len() == 0 {
            Err(PoolError::Empty)
        } else {
            Ok(ClientPool { clients })
        }
    }

    /// The number of clients.
    pub fn len(&self) -> (r: usize)
        ensures
            r == self@.len(),
            r > 0,
    {
        proof {
            use_type_invariant(self);
        }
        self.clients.len()
    }

    /// The client at `i`.
    pub fn client(&self, i: usize) -> (r: &C)
        requires
            i < self@.len(),
        ensures
            *r == self@[i as int],
    {
        &self.clients[i]
    }

    /// Picks the index of a client at random, each one alike, with no
    /// memory of earlier picks.
    pub fn select(&self) -> (r: usize)
        ensures
            r < self@.len(),
    {
        proof {
            use_type_invariant(self);
        }
        random_below(self.clients.len())
    }
}

} // verus!

//! The client: a wallet, a transport and a gas policy, held together.

use vstd::prelude::*;

verus! {

/// The three capabilities one submission needs: `W` signs, `Q` reaches the
/// chain, `G` prices gas. The client owns them and hands out references; it
/// keeps no other state between calls.
pub struct TxClient<W, Q, G> {
    wallet: W,
    rpc: Q,
    gas: G,
}

impl<W, Q, G> TxClient<W, Q, G> {
    /// The wallet this client was built with.
    pub closed spec fn wallet_view(&self) -> W {
        self.wallet
    }

    /// The transport this client was built with.
    pub closed spec fn rpc_view(&self) -> Q {
        self.rpc
    }

    /// The gas policy this client was built with.
    pub closed spec fn gas_view(&self) -> G {
        self.gas
    }

    /// A client of these three.
    pub fn new(wallet: W, rpc: Q, gas: G) -> (client: Self)
        ensures
            client.wallet_view() == wallet,
            client.rpc_view() == rpc,
            client.gas_view() == gas,
    {
        Self { wallet, rpc, gas }
    }

    /// The wallet.
    pub fn wallet(&self) -> (w: &W)
        ensures
            *w == self.wallet_view(),
    {
        &self.wallet
    }

    /// The transport.
    pub fn rpc(&self) -> (q: &Q)
        ensures
            *q == self.rpc_view(),
    {
        &self.rpc
    }

    /// The gas policy.
    pub fn gas(&self) -> (g: &G)
        ensures
            *g == self.gas_view(),
    {
        &self.gas
    }
}

} // verus!

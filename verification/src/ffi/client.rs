use std::sync::Arc;

use vstd::prelude::*;

use crate::error::VdrResult;
use crate::ledger_router::{LedgerClient as CoreLedgerClient, LedgerClientConfigView};
use crate::types::{ContractConfig, QuorumConfig};

verus! {

/// A ledger client shared with foreign-language callers.
#[derive(Debug)]
pub struct LedgerClient {
    pub client: Arc<CoreLedgerClient>,
}

impl View for LedgerClient {
    type V = LedgerClientConfigView;

    open spec fn view(&self) -> LedgerClientConfigView {
        self.client@
    }
}

impl LedgerClient {
    /// Creates the client of the ledger reached with the given parameters.
    pub fn new(
        chain_id: u64,
        node_address: String,
        contract_configs: Vec<ContractConfig>,
        network: Option<String>,
        quorum_config: Option<QuorumConfig>,
    ) -> (res: VdrResult<LedgerClient>)
        ensures
            res matches Ok(client) && client@ == (LedgerClientConfigView {
                chain_id,
                rpc_node: node_address@,
                contract_configs: contract_configs@,
                network: network.deep_view(),
                quorum_config: quorum_config.deep_view(),
            }),
    {
        let network_name = match &network {
            Some(n) => Some(n.as_str()),
            None => None,
        };
        let client = Arc::new(
            CoreLedgerClient::new(
                chain_id,
                node_address.as_str(),
                contract_configs.as_slice(),
                network_name,
                quorum_config.as_ref(),
            ),
        );
        Ok(LedgerClient { client })
    }

    /// The network name of the client, or the empty text when it has none.
    pub fn network(&self) -> (res: VdrResult<String>)
        ensures
            res matches Ok(name) && name@ == (match self@.network {
                Some(n) => n,
                None => ""@,
            }),
    {
        match self.client.network() {
            Some(n) => Ok(n.clone()),
            None => Ok(String::from_str("")),
        }
    }
}

} // verus!

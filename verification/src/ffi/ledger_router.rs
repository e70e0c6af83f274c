use std::sync::Arc;

use vstd::prelude::*;

use crate::error::{VdrError, VdrErrorView, VdrResult, result_view};
use crate::ffi::client::LedgerClient;
use crate::ledger_router::{
    LedgerClient as CoreLedgerClient,
    route, LedgerClientConfig, LedgerClientConfigView, LedgerConfigs, LedgerMode, LedgerResult,
    LedgerResultView, LedgerRouter as CoreLedgerRouter, LedgerRouterView, DEFAULT_NETWORK,
};
use crate::types::{ContractConfig, QuorumConfig};

verus! {

/// Represents the configuration for a single ledger network.
pub struct LedgerConfiguration {
    /// The EVM chain ID of the target network.
    pub chain_id: u64,
    /// The RPC endpoint or node address of the ledger.
    pub node_address: String,
    /// List of contract configurations deployed in this ledger.
    pub contract_configs: Vec<ContractConfig>,
    /// Optional network name (e.g., "mainnet", "testnet").
    pub network: Option<String>,
    /// Optional quorum configuration, if applicable.
    pub quorum_config: Option<QuorumConfig>,
}

/// The network name under which a configuration is filed: its own, else `default`.
pub open spec fn configuration_network(c: LedgerConfiguration) -> Seq<char> {
    match c.network {
        Some(n) => n@,
        None => DEFAULT_NETWORK@,
    }
}

/// The ledger configuration that a configuration record describes.
pub open spec fn configuration_config(c: LedgerConfiguration) -> LedgerClientConfigView {
    LedgerClientConfigView {
        chain_id: c.chain_id,
        rpc_node: c.node_address@,
        contract_configs: c.contract_configs@,
        network: c.network.deep_view(),
        quorum_config: c.quorum_config.deep_view(),
    }
}

/// The configurations by network name that a list of records gives, a later
/// record replacing an earlier one with the same name.
pub open spec fn configurations_map(cs: Seq<LedgerConfiguration>) -> Map<Seq<char>, LedgerClientConfigView>
    decreases cs.len(),
{
    if cs.len() == 0 {
        Map::empty()
    } else {
        configurations_map(cs.drop_last()).insert(configuration_network(cs.last()), configuration_config(cs.last()))
    }
}

/// The configuration filed under a record's network name is that of the last
/// record with that name.
pub proof fn lemma_configurations_last_wins(cs: Seq<LedgerConfiguration>, i: int)
    requires
        0 <= i < cs.len(),
        forall|j: int| i < j < cs.len() ==> configuration_network(#[trigger] cs[j]) != configuration_network(cs[i]),
    ensures
        configurations_map(cs).contains_key(configuration_network(cs[i])),
        configurations_map(cs)[configuration_network(cs[i])] == configuration_config(cs[i]),
    decreases cs.len(),
{
    if i < cs.len() - 1 {
        let prev = cs.drop_last();
        assert forall|j: int| i < j < prev.len() implies configuration_network(#[trigger] prev[j]) != configuration_network(prev[i]) by {
            assert(prev[j] == cs[j]);
        }
        lemma_configurations_last_wins(prev, i);
        assert(configuration_network(cs[cs.len() - 1]) != configuration_network(cs[i]));
    }
}

/// A record that no later record replaces is filed, unchanged field by field,
/// under its network name, or `default` when it names none.
pub proof fn lemma_record_filed_unchanged(cs: Seq<LedgerConfiguration>, i: int)
    requires
        0 <= i < cs.len(),
        forall|j: int| i < j < cs.len() ==> configuration_network(#[trigger] cs[j]) != configuration_network(cs[i]),
    ensures
        ({
            let name = match cs[i].network {
                Some(n) => n@,
                None => "default"@,
            };
            let filed = configurations_map(cs)[name];
            &&& configurations_map(cs).contains_key(name)
            &&& filed.chain_id == cs[i].chain_id
            &&& filed.rpc_node == cs[i].node_address@
            &&& filed.contract_configs == cs[i].contract_configs@
            &&& filed.network == cs[i].network.deep_view()
            &&& filed.quorum_config == cs[i].quorum_config.deep_view()
        }),
{
    lemma_configurations_last_wins(cs, i);
    assert(DEFAULT_NETWORK@ == "default"@);
}

/// Only the network names of records are filed.
pub proof fn lemma_configurations_names(cs: Seq<LedgerConfiguration>, name: Seq<char>)
    requires
        configurations_map(cs).contains_key(name),
    ensures
        exists|i: int| 0 <= i < cs.len() && configuration_network(#[trigger] cs[i]) == name,
    decreases cs.len(),
{
    if cs.len() > 0 {
        if configuration_network(cs.last()) != name {
            lemma_configurations_names(cs.drop_last(), name);
            let i = choose|i: int| 0 <= i < cs.drop_last().len() && configuration_network(#[trigger] cs.drop_last()[i]) == name;
            assert(cs[i] == cs.drop_last()[i]);
        } else {
            assert(configuration_network(cs[cs.len() - 1]) == name);
        }
    }
}

/// The default network of a list of records: that of the first one, or
/// `default` when there is none.
pub open spec fn configurations_default(cs: Seq<LedgerConfiguration>) -> Seq<char> {
    if cs.len() == 0 {
        DEFAULT_NETWORK@
    } else {
        configuration_network(cs[0])
    }
}

/// What the foreign-language router answers for `identifier`: the client of
/// the routed ledger, or an error.
pub open spec fn client_route(router: LedgerRouterView, identifier: Seq<char>) -> Result<LedgerClientConfigView, VdrErrorView> {
    match route(router, identifier) {
        Err(e) => Err(e),
        Ok(LedgerResultView::Client(c)) => Ok(c),
        Ok(LedgerResultView::Config(_)) => Err(VdrErrorView::ClientInvalidResponse(
            "Expected LedgerClient but got config"@,
        )),
    }
}

/// A router in client mode, as `LedgerRouter::new` makes it, answers every
/// identifier it routes with a client, never with a configuration.
pub proof fn lemma_client_mode_answers_with_clients(router: LedgerRouterView, identifier: Seq<char>)
    requires
        router.mode == LedgerMode::LedgerClient,
    ensures
        route(router, identifier) matches Ok(r) ==> r is Client,
        client_route(router, identifier) is Ok <==> route(router, identifier) is Ok,
{
}

/// A ledger router shared with foreign-language callers.
#[derive(Debug)]
pub struct LedgerRouter {
    router: Arc<CoreLedgerRouter>,
}

impl View for LedgerRouter {
    type V = LedgerRouterView;

    closed spec fn view(&self) -> LedgerRouterView {
        self.router@
    }
}

impl LedgerRouter {
    /// Creates a router over the given ledger configurations in client mode.
    /// Each configuration is filed under its network name, or `default`; a
    /// later one replaces an earlier one with the same name; the first one's
    /// name is the default network.
    pub fn new(configs: Vec<LedgerConfiguration>) -> (res: VdrResult<LedgerRouter>)
        ensures
            res matches Ok(router) && router@ == (LedgerRouterView {
                configs: configurations_map(configs@),
                default_network: configurations_default(configs@),
                mode: LedgerMode::LedgerClient,
            }),
    {
        let mut ledgers = LedgerConfigs::new();
        let mut default_network_name: Option<String> = None;

        let mut i: usize = 0;
        while i < configs.len()
            invariant
                i <= configs@.len(),
                ledgers@ == configurations_map(configs@.take(i as int)),
                i == 0 ==> default_network_name is None,
                i > 0 ==> (default_network_name matches Some(d) && d@ == configuration_network(configs@[0])),
            decreases configs@.len() - i,
        {
            let config = &configs[i];
            let network_name = match &config.network {
                Some(n) => n.clone(),
                None => String::from_str(DEFAULT_NETWORK),
            };

            if default_network_name.is_none() {
                default_network_name = Some(network_name.clone());
            }

            let network = match &config.network {
                Some(n) => Some(n.as_str()),
                None => None,
            };
            let ledger_config = LedgerClientConfig::new(
                config.chain_id,
                config.node_address.as_str(),
                config.contract_configs.as_slice(),
                network,
                config.quorum_config.as_ref(),
            );

            ledgers.insert(network_name, ledger_config);
            assert(configs@.take(i + 1).drop_last() =~= configs@.take(i as int));
            i = i + 1;
        }
        assert(configs@.take(i as int) =~= configs@);

        let default_network = match default_network_name {
            Some(d) => d,
            None => String::from_str(DEFAULT_NETWORK),
        };

        let router = CoreLedgerRouter::new(
            ledgers,
            Some(default_network.as_str()),
            Some(LedgerMode::LedgerClient),
        );

        Ok(LedgerRouter { router: Arc::new(router) })
    }

    /// Retrieves the client of the ledger for an identifier such as
    /// `did:ethr:testnet:0x123`.
    pub fn get_ledger_for_identifier(&self, identifier: &str) -> (res: VdrResult<LedgerClient>)
        ensures
            result_view(res) == client_route(self@, identifier@),
    {
        let ledger_result = self.router.get_ledger_for_identifier(identifier)?;

        let client = match ledger_result {
            LedgerResult::Client(c) => c,
            LedgerResult::Config(_) => {
                return Err(VdrError::ClientInvalidResponse {
                    msg: String::from_str("Expected LedgerClient but got config"),
                });
            },
        };
        Ok(LedgerClient { client: Arc::new(client) })
    }

    /// The client of the ledger to which a transaction for `identifier` is
    /// submitted.
    pub fn client_for_submission(&self, identifier: &str) -> (res: VdrResult<LedgerClient>)
        ensures
            result_view(res) == crate::ledger_router::submission_client(self@, identifier@),
    {
        let client = self.router.client_for_submission(identifier)?;
        Ok(LedgerClient { client: Arc::new(client) })
    }

    /// A client for every configured ledger, to be pinged, with its network
    /// name; in configuration-only mode there are none.
    pub fn clients_to_ping(&self) -> (res: VdrResult<Vec<(String, CoreLedgerClient)>>)
        ensures
            self@.mode == LedgerMode::ConfigOnly ==> result_view(res) == Err::<Seq<(String, CoreLedgerClient)>, VdrErrorView>(
                VdrErrorView::RouterConfigError("Cannot ping ledgers in ConfigOnly mode"@),
            ),
            self@.mode == LedgerMode::LedgerClient ==> (res matches Ok(clients) && {
                &&& forall|i: int| 0 <= i < clients@.len() ==> #[trigger] self@.configs.contains_key(clients@[i].0@)
                    && clients@[i].1@ == self@.configs[clients@[i].0@]
                &&& forall|k: Seq<char>| #[trigger] self@.configs.contains_key(k) ==> exists|i: int| 0 <= i < clients@.len() && #[trigger] clients@[i].0@ == k
                &&& forall|i: int, j: int| 0 <= i < clients@.len() && 0 <= j < clients@.len() && i != j ==> #[trigger] clients@[i].0@ != #[trigger] clients@[j].0@
            }),
    {
        let router: &CoreLedgerRouter = &self.router;
        assert(router@ == self@);
        router.clients_to_ping()
    }

    /// Lists all configured network names in this router instance.
    pub fn list_networks(&self) -> (names: Vec<String>)
        ensures
            forall|i: int| 0 <= i < names@.len() ==> self@.configs.contains_key(#[trigger] names@[i]@),
            forall|k: Seq<char>| #[trigger] self@.configs.contains_key(k) ==> exists|i: int| 0 <= i < names@.len() && #[trigger] names@[i]@ == k,
            forall|i: int, j: int| 0 <= i < names@.len() && 0 <= j < names@.len() && i != j ==> #[trigger] names@[i]@ != #[trigger] names@[j]@,
    {
        self.router.list_networks()
    }
}

} // verus!

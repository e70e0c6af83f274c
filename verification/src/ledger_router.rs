use vstd::prelude::*;

use crate::error::{VdrError, VdrErrorView, VdrResult, result_view};
use crate::text::{
    lemma_split_concat, lemma_split_nonempty, lemma_split_without_separator, split_on, split_spec,
};
use crate::types::{ContractConfig, QuorumConfig, QuorumConfigView};

verus! {

/// Network name used where an identifier or a configuration names none.
pub const DEFAULT_NETWORK: &'static str = "default";

/// Defines the operating mode for the LedgerRouter.
#[derive(Debug, Clone, Copy, PartialEq, Eq)]
pub enum LedgerMode {
    /// Return a fully initialized LedgerClient.
    LedgerClient,
    /// Return only configuration data without instantiating clients.
    ConfigOnly,
}

impl Default for LedgerMode {
    fn default() -> (mode: Self)
        ensures
            mode == LedgerMode::ConfigOnly,
    {
        LedgerMode::ConfigOnly
    }
}

/// Configuration for a specific ledger network.
#[derive(Debug, PartialEq)]
pub struct LedgerClientConfig {
    pub chain_id: u64,
    pub rpc_node: String,
    pub contract_configs: Vec<ContractConfig>,
    pub network: Option<String>,
    pub quorum_config: Option<QuorumConfig>,
}

/// Mathematical form of a ledger configuration.
pub struct LedgerClientConfigView {
    pub chain_id: u64,
    pub rpc_node: Seq<char>,
    pub contract_configs: Seq<ContractConfig>,
    pub network: Option<Seq<char>>,
    pub quorum_config: Option<QuorumConfigView>,
}

impl View for LedgerClientConfig {
    type V = LedgerClientConfigView;

    open spec fn view(&self) -> LedgerClientConfigView {
        LedgerClientConfigView {
            chain_id: self.chain_id,
            rpc_node: self.rpc_node@,
            contract_configs: self.contract_configs@,
            network: self.network.deep_view(),
            quorum_config: self.quorum_config.deep_view(),
        }
    }
}

fn clone_contract_configs(configs: &[ContractConfig]) -> (res: Vec<ContractConfig>)
    ensures
        res@ == configs@,
{
    let mut res: Vec<ContractConfig> = Vec::new();
    let mut i: usize = 0;
    while i < configs.len()
        invariant
            i <= configs@.len(),
            res@ =~= configs@.take(i as int),
        decreases configs@.len() - i,
    {
        res.push(configs[i].clone());
        i = i + 1;
        assert(res@ =~= configs@.take(i as int));
    }
    assert(configs@.take(i as int) =~= configs@);
    res
}

fn clone_optional_quorum(quorum_config: Option<&QuorumConfig>) -> (res: Option<QuorumConfig>)
    ensures
        res.deep_view() == quorum_config.deep_view(),
{
    match quorum_config {
        Some(q) => Some(q.clone()),
        None => None,
    }
}

fn clone_optional_text(text: Option<&str>) -> (res: Option<String>)
    ensures
        res.deep_view() == (match text {
            Some(t) => Some(t@),
            None => None::<Seq<char>>,
        }),
{
    match text {
        Some(t) => Some(String::from_str(t)),
        None => None,
    }
}

impl Clone for LedgerClientConfig {
    fn clone(&self) -> (res: Self)
        ensures
            res@ == self@,
    {
        let network = match &self.network {
            Some(n) => Some(n.clone()),
            None => None,
        };
        LedgerClientConfig {
            chain_id: self.chain_id,
            rpc_node: self.rpc_node.clone(),
            contract_configs: clone_contract_configs(self.contract_configs.as_slice()),
            network,
            quorum_config: clone_optional_quorum(self.quorum_config.as_ref()),
        }
    }
}

impl LedgerClientConfig {
    /// Creates a new LedgerClientConfig instance.
    pub fn new(
        chain_id: u64,
        rpc_node: &str,
        contract_configs: &[ContractConfig],
        network: Option<&str>,
        quorum_config: Option<&QuorumConfig>,
    ) -> (config: Self)
        ensures
            config.chain_id == chain_id,
            config.rpc_node@ == rpc_node@,
            config.contract_configs@ == contract_configs@,
            config.network.deep_view() == (match network {
                Some(n) => Some(n@),
                None => None::<Seq<char>>,
            }),
            config.quorum_config.deep_view() == quorum_config.deep_view(),
    {
        LedgerClientConfig {
            chain_id,
            rpc_node: String::from_str(rpc_node),
            contract_configs: clone_contract_configs(contract_configs),
            network: clone_optional_text(network),
            quorum_config: clone_optional_quorum(quorum_config),
        }
    }
}

/// The client of one ledger: the connection parameters with which the ledger
/// is reached. Opening the transport and talking to the node is done by the
/// caller with these parameters.
#[derive(Debug)]
pub struct LedgerClient {
    chain_id: u64,
    rpc_node: String,
    contract_configs: Vec<ContractConfig>,
    network: Option<String>,
    quorum_config: Option<QuorumConfig>,
}

impl View for LedgerClient {
    type V = LedgerClientConfigView;

    closed spec fn view(&self) -> LedgerClientConfigView {
        LedgerClientConfigView {
            chain_id: self.chain_id,
            rpc_node: self.rpc_node@,
            contract_configs: self.contract_configs@,
            network: self.network.deep_view(),
            quorum_config: self.quorum_config.deep_view(),
        }
    }
}

impl LedgerClient {
    /// Creates the client of the ledger reached with the given parameters.
    pub fn new(
        chain_id: u64,
        rpc_node: &str,
        contract_configs: &[ContractConfig],
        network: Option<&str>,
        quorum_config: Option<&QuorumConfig>,
    ) -> (client: Self)
        ensures
            client@ == (LedgerClientConfigView {
                chain_id,
                rpc_node: rpc_node@,
                contract_configs: contract_configs@,
                network: match network {
                    Some(n) => Some(n@),
                    None => None::<Seq<char>>,
                },
                quorum_config: quorum_config.deep_view(),
            }),
    {
        LedgerClient {
            chain_id,
            rpc_node: String::from_str(rpc_node),
            contract_configs: clone_contract_configs(contract_configs),
            network: clone_optional_text(network),
            quorum_config: clone_optional_quorum(quorum_config),
        }
    }

    /// Creates the client of the ledger that `config` describes.
    pub fn from_config(config: &LedgerClientConfig) -> (client: Self)
        ensures
            client@ == config@,
    {
        let network = match &config.network {
            Some(n) => Some(n.as_str()),
            None => None,
        };
        LedgerClient::new(
            config.chain_id,
            config.rpc_node.as_str(),
            config.contract_configs.as_slice(),
            network,
            config.quorum_config.as_ref(),
        )
    }

    /// The network name the client was created with, if any.
    pub fn network(&self) -> (network: Option<&String>)
        ensures
            network.deep_view() == self@.network,
    {
        self.network.as_ref()
    }

    /// The chain id of the ledger.
    pub fn chain_id(&self) -> (chain_id: u64)
        ensures
            chain_id == self@.chain_id,
    {
        self.chain_id
    }

    /// The address of the ledger's RPC node.
    pub fn rpc_node(&self) -> (rpc_node: &str)
        ensures
            rpc_node@ == self@.rpc_node,
    {
        self.rpc_node.as_str()
    }

    /// The contracts the client works with.
    pub fn contract_configs(&self) -> (configs: &[ContractConfig])
        ensures
            configs@ == self@.contract_configs,
    {
        self.contract_configs.as_slice()
    }

    /// How the client spreads its requests over nodes, if set.
    pub fn quorum_config(&self) -> (quorum: Option<&QuorumConfig>)
        ensures
            quorum.deep_view() == self@.quorum_config,
    {
        self.quorum_config.as_ref()
    }
}

/// Ledger configurations by network name; each name occurs once.
#[derive(Debug)]
pub struct LedgerConfigs {
    entries: Vec<(String, LedgerClientConfig)>,
}

/// The map that a list of (name, configuration) pairs stands for, where no name
/// occurs twice.
pub open spec fn entries_map(entries: Seq<(String, LedgerClientConfig)>) -> Map<Seq<char>, LedgerClientConfigView> {
    Map::new(
        |k: Seq<char>| exists|i: int| 0 <= i < entries.len() && #[trigger] entries[i].0@ == k,
        |k: Seq<char>| entries[choose|i: int| 0 <= i < entries.len() && #[trigger] entries[i].0@ == k].1@,
    )
}

/// No name occurs twice in a list of (name, configuration) pairs.
pub open spec fn unique_names(entries: Seq<(String, LedgerClientConfig)>) -> bool {
    forall|i: int, j: int|
        0 <= i < entries.len() && 0 <= j < entries.len() && i != j ==> #[trigger] entries[i].0@
            != #[trigger] entries[j].0@
}

proof fn lemma_entries_map_at(entries: Seq<(String, LedgerClientConfig)>, i: int)
    requires
        unique_names(entries),
        0 <= i < entries.len(),
    ensures
        entries_map(entries).contains_key(entries[i].0@),
        entries_map(entries)[entries[i].0@] == entries[i].1@,
{
    let k = entries[i].0@;
    assert(exists|j: int| 0 <= j < entries.len() && #[trigger] entries[j].0@ == k);
    let j = choose|j: int| 0 <= j < entries.len() && #[trigger] entries[j].0@ == k;
    assert(i == j);
}

/// Writing the pair at position `at` (an existing one with the same name, or a
/// new last one) files its configuration under its name and changes nothing else.
proof fn lemma_entries_map_write(
    old_entries: Seq<(String, LedgerClientConfig)>,
    new_entries: Seq<(String, LedgerClientConfig)>,
    at: int,
)
    requires
        unique_names(old_entries),
        unique_names(new_entries),
        0 <= at < new_entries.len(),
        new_entries.len() == old_entries.len() || (new_entries.len() == old_entries.len() + 1 && at == old_entries.len()),
        at < old_entries.len() ==> old_entries[at].0@ == new_entries[at].0@,
        forall|j: int| 0 <= j < old_entries.len() && j != at ==> new_entries[j] == old_entries[j],
    ensures
        entries_map(new_entries) == entries_map(old_entries).insert(new_entries[at].0@, new_entries[at].1@),
{
    let key = new_entries[at].0@;
    let old_map = entries_map(old_entries);
    let new_map = entries_map(new_entries);
    lemma_entries_map_at(new_entries, at);
    assert forall|k: Seq<char>| #[trigger] new_map.contains_key(k) == old_map.insert(key, new_entries[at].1@).contains_key(k) by {
        if k != key {
            if new_map.contains_key(k) {
                let j = choose|j: int| 0 <= j < new_entries.len() && #[trigger] new_entries[j].0@ == k;
                assert(old_entries[j].0@ == k);
            }
            if old_map.contains_key(k) {
                let j = choose|j: int| 0 <= j < old_entries.len() && #[trigger] old_entries[j].0@ == k;
                assert(new_entries[j].0@ == k);
            }
        }
    }
    assert forall|k: Seq<char>| #[trigger] new_map.contains_key(k) && k != key implies new_map[k] == old_map[k] by {
        let j = choose|j: int| 0 <= j < new_entries.len() && #[trigger] new_entries[j].0@ == k;
        lemma_entries_map_at(new_entries, j);
        lemma_entries_map_at(old_entries, j);
    }
    assert(new_map =~= old_map.insert(key, new_entries[at].1@));
}

impl View for LedgerConfigs {
    type V = Map<Seq<char>, LedgerClientConfigView>;

    closed spec fn view(&self) -> Map<Seq<char>, LedgerClientConfigView> {
        entries_map(self.entries@)
    }
}

impl LedgerConfigs {
    #[verifier::type_invariant]
    closed spec fn names_are_unique(&self) -> bool {
        unique_names(self.entries@)
    }

    /// An empty set of configurations.
    pub fn new() -> (configs: Self)
        ensures
            configs@ == Map::<Seq<char>, LedgerClientConfigView>::empty(),
    {
        let configs = LedgerConfigs { entries: Vec::new() };
        assert(configs@ =~= Map::<Seq<char>, LedgerClientConfigView>::empty());
        configs
    }

    /// The number of configured networks.
    pub fn len(&self) -> (n: usize)
        ensures
            n == self@.len(),
    {
        proof {
            use_type_invariant(self);
            self.lemma_view_len();
        }
        self.entries.len()
    }

    proof fn lemma_view_len(&self)
        requires
            unique_names(self.entries@),
        ensures
            self@.dom().finite(),
            self@.len() == self.entries@.len(),
        decreases self.entries@.len(),
    {
        let entries = self.entries@;
        let keys = entries.map_values(|e: (String, LedgerClientConfig)| e.0@);
        assert(self@.dom() =~= keys.to_set()) by {
            assert forall|k: Seq<char>| self@.dom().contains(k) implies keys.to_set().contains(k) by {
                let i = choose|i: int| 0 <= i < entries.len() && #[trigger] entries[i].0@ == k;
                assert(keys[i] == k);
            }
            assert forall|k: Seq<char>| keys.to_set().contains(k) implies self@.dom().contains(k) by {
                let i = choose|i: int| 0 <= i < keys.len() && keys[i] == k;
                assert(entries[i].0@ == k);
            }
        }
        assert(keys.no_duplicates()) by {
            assert forall|i: int, j: int| 0 <= i < keys.len() && 0 <= j < keys.len() && i != j implies keys[i] != keys[j] by {
                assert(entries[i].0@ != entries[j].0@);
            }
        }
        keys.unique_seq_to_set();
    }

    /// Sets the configuration of network `network`, replacing any it had.
    pub fn insert(&mut self, network: String, config: LedgerClientConfig)
        ensures
            final(self)@ == old(self)@.insert(network@, config@),
    {
        proof {
            use_type_invariant(&*self);
        }
        let ghost old_entries = self.entries@;
        let mut entries: Vec<(String, LedgerClientConfig)> = Vec::new();
        std::mem::swap(&mut entries, &mut self.entries);
        let mut i: usize = 0;
        while i < entries.len()
            invariant
                entries@ == old_entries,
                old(self).entries@ == old_entries,
                unique_names(old_entries),
                i <= old_entries.len(),
                forall|j: int| 0 <= j < i ==> #[trigger] old_entries[j].0@ != network@,
            decreases old_entries.len() - i,
        {
            if entries[i].0 == network {
                let ghost new_entries = old_entries.update(i as int, (network, config));
                assert(unique_names(new_entries)) by {
                    assert forall|a: int, b: int|
                        0 <= a < new_entries.len() && 0 <= b < new_entries.len() && a != b implies
                        #[trigger] new_entries[a].0@ != #[trigger] new_entries[b].0@ by {
                        assert(old_entries[a].0@ != old_entries[b].0@);
                    }
                }
                proof {
                    lemma_entries_map_write(old_entries, new_entries, i as int);
                }
                entries.set(i, (network, config));
                assert(entries@ == new_entries);
                self.entries = entries;
                return;
            }
            i = i + 1;
        }
        let ghost new_entries = old_entries.push((network, config));
        assert(unique_names(new_entries)) by {
            assert forall|a: int, b: int|
                0 <= a < new_entries.len() && 0 <= b < new_entries.len() && a != b implies
                #[trigger] new_entries[a].0@ != #[trigger] new_entries[b].0@ by {
                if a < old_entries.len() && b < old_entries.len() {
                    assert(old_entries[a].0@ != old_entries[b].0@);
                } else if a < old_entries.len() {
                    assert(old_entries[a].0@ != network@);
                } else {
                    assert(old_entries[b].0@ != network@);
                }
            }
        }
        proof {
            lemma_entries_map_write(old_entries, new_entries, old_entries.len() as int);
        }
        entries.push((network, config));
        assert(entries@ == new_entries);
        self.entries = entries;
    }

    /// The configuration of network `network`, if there is one.
    pub fn get(&self, network: &str) -> (config: Option<&LedgerClientConfig>)
        ensures
            match config {
                Some(c) => self@.contains_key(network@) && c@ == self@[network@],
                None => !self@.contains_key(network@),
            },
    {
        proof {
            use_type_invariant(self);
        }
        let key = String::from_str(network);
        let mut i: usize = 0;
        while i < self.entries.len()
            invariant
                key@ == network@,
                unique_names(self.entries@),
                i <= self.entries@.len(),
                forall|j: int| 0 <= j < i ==> #[trigger] self.entries@[j].0@ != network@,
            decreases self.entries@.len() - i,
        {
            if self.entries[i].0 == key {
                proof {
                    lemma_entries_map_at(self.entries@, i as int);
                }
                return Some(&self.entries[i].1);
            }
            i = i + 1;
        }
        None
    }

    /// The names of the configured networks, each once.
    pub fn keys(&self) -> (names: Vec<String>)
        ensures
            forall|i: int| 0 <= i < names@.len() ==> self@.contains_key(#[trigger] names@[i]@),
            forall|k: Seq<char>| #[trigger] self@.contains_key(k) ==> exists|i: int| 0 <= i < names@.len() && #[trigger] names@[i]@ == k,
            forall|i: int, j: int| 0 <= i < names@.len() && 0 <= j < names@.len() && i != j ==> #[trigger] names@[i]@ != #[trigger] names@[j]@,
    {
        proof {
            use_type_invariant(self);
        }
        let mut names: Vec<String> = Vec::new();
        let mut i: usize = 0;
        while i < self.entries.len()
            invariant
                unique_names(self.entries@),
                i <= self.entries@.len(),
                names@.len() == i,
                forall|j: int| 0 <= j < i ==> #[trigger] names@[j]@ == self.entries@[j].0@,
            decreases self.entries@.len() - i,
        {
            names.push(self.entries[i].0.clone());
            i = i + 1;
        }
        proof {
            assert forall|j: int| 0 <= j < names@.len() implies self@.contains_key(#[trigger] names@[j]@) by {
                lemma_entries_map_at(self.entries@, j);
            }
            assert forall|k: Seq<char>| #[trigger] self@.contains_key(k) implies exists|j: int| 0 <= j < names@.len() && #[trigger] names@[j]@ == k by {
                let j = choose|j: int| 0 <= j < self.entries@.len() && #[trigger] self.entries@[j].0@ == k;
                assert(names@[j]@ == k);
            }
            assert forall|a: int, b: int| 0 <= a < names@.len() && 0 <= b < names@.len() && a != b implies #[trigger] names@[a]@ != #[trigger] names@[b]@ by {
                assert(self.entries@[a].0@ != self.entries@[b].0@);
            }
        }
        names
    }

    /// A client for each configured network, with the network's name.
    pub fn clients(&self) -> (clients: Vec<(String, LedgerClient)>)
        ensures
            forall|i: int| 0 <= i < clients@.len() ==> #[trigger] self@.contains_key(clients@[i].0@)
                && clients@[i].1@ == self@[clients@[i].0@],
            forall|k: Seq<char>| #[trigger] self@.contains_key(k) ==> exists|i: int| 0 <= i < clients@.len() && #[trigger] clients@[i].0@ == k,
            forall|i: int, j: int| 0 <= i < clients@.len() && 0 <= j < clients@.len() && i != j ==> #[trigger] clients@[i].0@ != #[trigger] clients@[j].0@,
    {
        proof {
            use_type_invariant(self);
        }
        let mut clients: Vec<(String, LedgerClient)> = Vec::new();
        let mut i: usize = 0;
        while i < self.entries.len()
            invariant
                unique_names(self.entries@),
                i <= self.entries@.len(),
                clients@.len() == i,
                forall|j: int| 0 <= j < i ==> #[trigger] clients@[j].0@ == self.entries@[j].0@
                    && clients@[j].1@ == self.entries@[j].1@,
            decreases self.entries@.len() - i,
        {
            let name = self.entries[i].0.clone();
            let client = LedgerClient::from_config(&self.entries[i].1);
            clients.push((name, client));
            i = i + 1;
        }
        proof {
            assert forall|j: int| 0 <= j < clients@.len() implies #[trigger] self@.contains_key(clients@[j].0@)
                && clients@[j].1@ == self@[clients@[j].0@] by {
                lemma_entries_map_at(self.entries@, j);
            }
            assert forall|k: Seq<char>| #[trigger] self@.contains_key(k) implies exists|j: int| 0 <= j < clients@.len() && #[trigger] clients@[j].0@ == k by {
                let j = choose|j: int| 0 <= j < self.entries@.len() && #[trigger] self.entries@[j].0@ == k;
                assert(clients@[j].0@ == k);
            }
            assert forall|a: int, b: int| 0 <= a < clients@.len() && 0 <= b < clients@.len() && a != b implies #[trigger] clients@[a].0@ != #[trigger] clients@[b].0@ by {
                assert(self.entries@[a].0@ != self.entries@[b].0@);
            }
        }
        clients
    }
}


/// Gathers the outcomes of pinging the clients, in the order they were pinged:
/// the status of every network when every ping succeeded, else the first failure.
pub fn gather_ping_statuses<S>(outcomes: Vec<(String, VdrResult<S>)>) -> (res: VdrResult<Vec<(String, S)>>)
    ensures
        res is Ok <==> forall|i: int| 0 <= i < outcomes@.len() ==> (#[trigger] outcomes@[i]).1 is Ok,
        res matches Ok(statuses) ==> {
            &&& statuses@.len() == outcomes@.len()
            &&& forall|i: int| 0 <= i < outcomes@.len() ==> (#[trigger] statuses@[i]).0 == outcomes@[i].0
                && outcomes@[i].1 == Ok::<S, VdrError>(statuses@[i].1)
        },
        res matches Err(e) ==> exists|i: int| {
            &&& 0 <= i < outcomes@.len()
            &&& (#[trigger] outcomes@[i]).1 == Err::<S, VdrError>(e)
            &&& forall|j: int| 0 <= j < i ==> (#[trigger] outcomes@[j]).1 is Ok
        },
{
    let ghost all = outcomes@;
    assert(all.skip(0) =~= all);
    assert(all.len() == outcomes.len());
    let mut rest = outcomes;
    let mut statuses: Vec<(String, S)> = Vec::new();
    let mut i: usize = 0;
    while rest.len() > 0
        invariant
            all == outcomes@,
            all.len() <= usize::MAX,
            i <= all.len(),
            rest@ == all.skip(i as int),
            statuses@.len() == i,
            forall|j: int| 0 <= j < i ==> (#[trigger] statuses@[j]).0 == all[j].0
                && all[j].1 == Ok::<S, VdrError>(statuses@[j].1),
        decreases rest@.len(),
    {
        assert(rest@[0] == all[i as int]);
        assert(all.skip(i as int).remove(0) =~= all.skip(i + 1));
        let (name, outcome) = rest.remove(0);
        match outcome {
            Ok(status) => {
                statuses.push((name, status));
            },
            Err(e) => {
                assert(all[i as int].1 == Err::<S, VdrError>(e));
                assert forall|j: int| 0 <= j < i implies (#[trigger] all[j]).1 is Ok by {
                    assert(statuses@[j].0 == all[j].0);
                }
                assert(!(all[i as int].1 is Ok));
                return Err(e);
            },
        }
        i = i + 1;
    }
    assert(all.skip(i as int).len() == 0);
    assert(forall|j: int| 0 <= j < all.len() ==> (#[trigger] all[j]).1 is Ok) by {
        assert forall|j: int| 0 <= j < all.len() implies (#[trigger] all[j]).1 is Ok by {
            assert(statuses@[j].0 == all[j].0);
        }
    }
    Ok(statuses)
}

/// Result returned by `get_ledger_for_identifier`.
#[derive(Debug)]
pub enum LedgerResult {
    /// A fully initialized LedgerClient.
    Client(LedgerClient),
    /// A configuration-only LedgerClientConfig.
    Config(LedgerClientConfig),
}

/// Mathematical form of a [`LedgerResult`].
pub enum LedgerResultView {
    Client(LedgerClientConfigView),
    Config(LedgerClientConfigView),
}

impl View for LedgerResult {
    type V = LedgerResultView;

    open spec fn view(&self) -> LedgerResultView {
        match self {
            LedgerResult::Client(c) => LedgerResultView::Client(c@),
            LedgerResult::Config(c) => LedgerResultView::Config(c@),
        }
    }
}

/// Mathematical form of a [`LedgerRouter`].
pub struct LedgerRouterView {
    pub configs: Map<Seq<char>, LedgerClientConfigView>,
    pub default_network: Seq<char>,
    pub mode: LedgerMode,
}

/// Router responsible for managing multiple ledgers.
#[derive(Debug)]
pub struct LedgerRouter {
    configs: LedgerConfigs,
    default_network: String,
    mode: LedgerMode,
}

impl View for LedgerRouter {
    type V = LedgerRouterView;

    closed spec fn view(&self) -> LedgerRouterView {
        LedgerRouterView {
            configs: self.configs@,
            default_network: self.default_network@,
            mode: self.mode,
        }
    }
}

/// The network that a `did:ethr` identifier names: the third `:`-separated
/// piece when there are four or more, `default` when there are exactly three.
pub open spec fn network_of(identifier: Seq<char>) -> Result<Seq<char>, VdrErrorView> {
    let parts = split_spec(identifier, ':');
    if parts.len() < 3 {
        Err(VdrErrorView::RouterConfigError("Invalid DID identifier: "@ + identifier))
    } else if parts[0] != "did"@ || parts[1] != "ethr"@ {
        Err(VdrErrorView::RouterConfigError("Unsupported DID method: "@ + identifier))
    } else if parts.len() == 3 {
        Ok(DEFAULT_NETWORK@)
    } else {
        Ok(parts[2])
    }
}

/// What the router hands out for a configuration, by its mode.
pub open spec fn result_for(mode: LedgerMode, config: LedgerClientConfigView) -> LedgerResultView {
    match mode {
        LedgerMode::LedgerClient => LedgerResultView::Client(config),
        LedgerMode::ConfigOnly => LedgerResultView::Config(config),
    }
}

/// The configuration the router uses for network `network`: its own if it has
/// one, else that of the default network.
pub open spec fn config_for_network(router: LedgerRouterView, network: Seq<char>) -> Option<LedgerClientConfigView> {
    if router.configs.contains_key(network) {
        Some(router.configs[network])
    } else if router.configs.contains_key(router.default_network) {
        Some(router.configs[router.default_network])
    } else {
        None
    }
}

/// What the router answers for `identifier`.
pub open spec fn route(router: LedgerRouterView, identifier: Seq<char>) -> Result<LedgerResultView, VdrErrorView> {
    match network_of(identifier) {
        Err(e) => Err(e),
        Ok(network) => match config_for_network(router, network) {
            Some(config) => Ok(result_for(router.mode, config)),
            None => Err(VdrErrorView::RouterConfigError(
                "Ledger for network '"@ + network + "' not configured and no default network defined"@,
            )),
        },
    }
}

/// The client to which a transaction for `identifier` is submitted.
pub open spec fn submission_client(router: LedgerRouterView, identifier: Seq<char>) -> Result<LedgerClientConfigView, VdrErrorView> {
    match route(router, identifier) {
        Err(e) => Err(e),
        Ok(LedgerResultView::Client(c)) => Ok(c),
        Ok(LedgerResultView::Config(_)) => Err(VdrErrorView::RouterConfigError(
            "Cannot submit transaction in ConfigOnly mode"@,
        )),
    }
}

impl LedgerRouter {
    /// Creates a new LedgerRouter instance from the ledger configurations by
    /// network name, the default network (`default` if none is given) and the
    /// mode (configuration only if none is given).
    pub fn new(configs: LedgerConfigs, default_network: Option<&str>, mode: Option<LedgerMode>) -> (router: Self)
        ensures
            router@ == (LedgerRouterView {
                configs: configs@,
                default_network: match default_network {
                    Some(d) => d@,
                    None => DEFAULT_NETWORK@,
                },
                mode: match mode {
                    Some(m) => m,
                    None => LedgerMode::ConfigOnly,
                },
            }),
    {
        let default_network = match default_network {
            Some(d) => String::from_str(d),
            None => String::from_str(DEFAULT_NETWORK),
        };
        let mode = match mode {
            Some(m) => m,
            None => LedgerMode::default(),
        };
        LedgerRouter { configs, default_network, mode }
    }

    /// Returns a ledger configuration or client based on a given identifier,
    /// for example `did:ethr:testnet:0xabc...`.
    pub fn get_ledger_for_identifier(&self, identifier: &str) -> (res: VdrResult<LedgerResult>)
        ensures
            result_view(res) == route(self@, identifier@),
    {
        let network = Self::extract_network(identifier)?;

        let config = match self.configs.get(network.as_str()) {
            Some(c) => c,
            None => match self.configs.get(self.default_network.as_str()) {
                Some(c) => c,
                None => {
                    return Err(VdrError::RouterConfigError(
                        String::from_str("Ledger for network '")
                            .concat(network.as_str())
                            .concat("' not configured and no default network defined"),
                    ));
                },
            },
        };

        match self.mode {
            LedgerMode::LedgerClient => Ok(LedgerResult::Client(LedgerClient::from_config(config))),
            LedgerMode::ConfigOnly => Ok(LedgerResult::Config(config.clone())),
        }
    }

    /// Extracts the network name from an identifier string such as
    /// `did:ethr:testnet:0xabc`.
    pub fn extract_network(identifier: &str) -> (res: VdrResult<String>)
        ensures
            result_view(res) == network_of(identifier@),
    {
        let parts = split_on(identifier, ':');
        proof {
            lemma_split_nonempty(identifier@, ':');
        }
        assert(parts@.len() == split_spec(identifier@, ':').len());

        if parts.len() < 3 {
            return Err(VdrError::RouterConfigError(
                String::from_str("Invalid DID identifier: ").concat(identifier),
            ));
        }
        assert(parts@[0]@ == split_spec(identifier@, ':')[0]);
        assert(parts@[1]@ == split_spec(identifier@, ':')[1]);
        assert(parts@[2]@ == split_spec(identifier@, ':')[2]);

        let did = String::from_str("did");
        let ethr = String::from_str("ethr");
        if !(parts[0] == did) || !(parts[1] == ethr) {
            return Err(VdrError::RouterConfigError(
                String::from_str("Unsupported DID method: ").concat(identifier),
            ));
        }

        let n = parts.len();
        if n == 3 {
            Ok(String::from_str(DEFAULT_NETWORK))
        } else if n >= 4 {
            Ok(parts[2].clone())
        } else {
            Err(VdrError::RouterConfigError(
                String::from_str("Invalid did:ethr format: ").concat(identifier),
            ))
        }
    }

    /// The client to which a transaction for `identifier` is submitted; in
    /// configuration-only mode there is none.
    pub fn client_for_submission(&self, identifier: &str) -> (res: VdrResult<LedgerClient>)
        ensures
            result_view(res) == submission_client(self@, identifier@),
    {
        match self.get_ledger_for_identifier(identifier)? {
            LedgerResult::Client(client) => Ok(client),
            LedgerResult::Config(_) => Err(VdrError::RouterConfigError(
                String::from_str("Cannot submit transaction in ConfigOnly mode"),
            )),
        }
    }

    /// A client for every configured ledger, to be pinged, with its network
    /// name; in configuration-only mode there are none.
    pub fn clients_to_ping(&self) -> (res: VdrResult<Vec<(String, LedgerClient)>>)
        ensures
            self@.mode == LedgerMode::ConfigOnly ==> result_view(res) == Err::<Seq<(String, LedgerClient)>, VdrErrorView>(
                VdrErrorView::RouterConfigError("Cannot ping ledgers in ConfigOnly mode"@),
            ),
            self@.mode == LedgerMode::LedgerClient ==> (res matches Ok(clients) && {
                &&& forall|i: int| 0 <= i < clients@.len() ==> #[trigger] self@.configs.contains_key(clients@[i].0@)
                    && clients@[i].1@ == self@.configs[clients@[i].0@]
                &&& forall|k: Seq<char>| #[trigger] self@.configs.contains_key(k) ==> exists|i: int| 0 <= i < clients@.len() && #[trigger] clients@[i].0@ == k
                &&& forall|i: int, j: int| 0 <= i < clients@.len() && 0 <= j < clients@.len() && i != j ==> #[trigger] clients@[i].0@ != #[trigger] clients@[j].0@
            }),
    {
        if let LedgerMode::ConfigOnly = self.mode {
            return Err(VdrError::RouterConfigError(
                String::from_str("Cannot ping ledgers in ConfigOnly mode"),
            ));
        }
        Ok(self.configs.clients())
    }

    /// Returns the names of all configured networks, each once.
    pub fn list_networks(&self) -> (names: Vec<String>)
        ensures
            forall|i: int| 0 <= i < names@.len() ==> self@.configs.contains_key(#[trigger] names@[i]@),
            forall|k: Seq<char>| #[trigger] self@.configs.contains_key(k) ==> exists|i: int| 0 <= i < names@.len() && #[trigger] names@[i]@ == k,
            forall|i: int, j: int| 0 <= i < names@.len() && 0 <= j < names@.len() && i != j ==> #[trigger] names@[i]@ != #[trigger] names@[j]@,
    {
        self.configs.keys()
    }
}


proof fn lemma_did_ethr_pieces(tail: Seq<char>)
    ensures
        "did:ethr:"@ + tail == "did"@ + seq![':'] + ("ethr"@ + seq![':'] + tail),
        split_spec("did:ethr:"@ + tail, ':') == seq!["did"@, "ethr"@] + split_spec(tail, ':'),
{
    reveal_strlit("did:ethr:");
    reveal_strlit("did");
    reveal_strlit("ethr");
    let did = "did"@;
    let ethr = "ethr"@;
    assert("did:ethr:"@ + tail =~= did + seq![':'] + (ethr + seq![':'] + tail));
    assert(!did.contains(':')) by {
        assert(did[0] != ':' && did[1] != ':' && did[2] != ':');
    }
    assert(!ethr.contains(':')) by {
        assert(ethr[0] != ':' && ethr[1] != ':' && ethr[2] != ':' && ethr[3] != ':');
    }
    lemma_split_concat(did, ethr + seq![':'] + tail, ':');
    lemma_split_concat(ethr, tail, ':');
    lemma_split_without_separator(did, ':');
    lemma_split_without_separator(ethr, ':');
    assert(split_spec("did:ethr:"@ + tail, ':') =~= seq![did, ethr] + split_spec(tail, ':'));
}

/// An identifier `did:ethr:<network>:<rest>` names the network `<network>`.
pub proof fn lemma_network_of_named(network: Seq<char>, rest: Seq<char>)
    requires
        !network.contains(':'),
    ensures
        network_of("did:ethr:"@ + network + ":"@ + rest) == Ok::<Seq<char>, VdrErrorView>(network),
{
    reveal_strlit(":");
    let tail = network + seq![':'] + rest;
    assert("did:ethr:"@ + network + ":"@ + rest =~= "did:ethr:"@ + tail);
    lemma_did_ethr_pieces(tail);
    lemma_split_concat(network, rest, ':');
    lemma_split_without_separator(network, ':');
    lemma_split_nonempty(rest, ':');
    let parts = split_spec("did:ethr:"@ + tail, ':');
    assert(parts[0] == "did"@);
    assert(parts[1] == "ethr"@);
    assert(parts[2] == network);
    assert(parts.len() >= 4);
}

/// An identifier `did:ethr:<address>` without a network names the network
/// `default`.
pub proof fn lemma_network_of_address_only(address: Seq<char>)
    requires
        !address.contains(':'),
    ensures
        network_of("did:ethr:"@ + address) == Ok::<Seq<char>, VdrErrorView>(DEFAULT_NETWORK@),
{
    lemma_did_ethr_pieces(address);
    lemma_split_without_separator(address, ':');
    let parts = split_spec("did:ethr:"@ + address, ':');
    assert(parts[0] == "did"@);
    assert(parts[1] == "ethr"@);
    assert(parts.len() == 3);
}

/// The configuration filed under a network is what the router hands out for
/// identifiers of that network, as a client or as the configuration itself
/// according to the mode.
pub proof fn lemma_filed_config_is_routed(
    configs: Map<Seq<char>, LedgerClientConfigView>,
    network: Seq<char>,
    config: LedgerClientConfigView,
    default_network: Seq<char>,
    mode: LedgerMode,
    rest: Seq<char>,
)
    requires
        !network.contains(':'),
    ensures
        route(
            LedgerRouterView { configs: configs.insert(network, config), default_network, mode },
            "did:ethr:"@ + network + ":"@ + rest,
        ) == Ok::<LedgerResultView, VdrErrorView>(result_for(mode, config)),
{
    lemma_network_of_named(network, rest);
}

/// An identifier of a network that has no configuration is routed to the
/// default network when that one is configured.
pub proof fn lemma_unconfigured_network_uses_default(router: LedgerRouterView, network: Seq<char>, rest: Seq<char>)
    requires
        !network.contains(':'),
        !router.configs.contains_key(network),
        router.configs.contains_key(router.default_network),
    ensures
        route(router, "did:ethr:"@ + network + ":"@ + rest) == Ok::<LedgerResultView, VdrErrorView>(
            result_for(router.mode, router.configs[router.default_network]),
        ),
{
    lemma_network_of_named(network, rest);
}

/// An identifier of a network that has no configuration, when the default
/// network has none either, is refused with the network's name.
pub proof fn lemma_unrouted_network_is_refused(router: LedgerRouterView, network: Seq<char>, rest: Seq<char>)
    requires
        !network.contains(':'),
        !router.configs.contains_key(network),
        !router.configs.contains_key(router.default_network),
    ensures
        route(router, "did:ethr:"@ + network + ":"@ + rest) == Err::<LedgerResultView, VdrErrorView>(
            VdrErrorView::RouterConfigError(
                "Ledger for network '"@ + network + "' not configured and no default network defined"@,
            ),
        ),
{
    lemma_network_of_named(network, rest);
}

/// An identifier without a network is routed to the network named `default`,
/// and failing that to the default network.
pub proof fn lemma_address_only_identifier_is_routed(router: LedgerRouterView, address: Seq<char>)
    requires
        !address.contains(':'),
    ensures
        route(router, "did:ethr:"@ + address) == match config_for_network(router, DEFAULT_NETWORK@) {
            Some(config) => Ok::<LedgerResultView, VdrErrorView>(result_for(router.mode, config)),
            None => Err(VdrErrorView::RouterConfigError(
                "Ledger for network '"@ + DEFAULT_NETWORK@ + "' not configured and no default network defined"@,
            )),
        },
{
    lemma_network_of_address_only(address);
}

/// A router in configuration-only mode never hands out a client to submit a
/// transaction to.
pub proof fn lemma_config_only_never_submits(router: LedgerRouterView, identifier: Seq<char>)
    requires
        router.mode == LedgerMode::ConfigOnly,
    ensures
        submission_client(router, identifier) is Err,
{
}

/// Whatever the mode, the router hands out the configuration filed under the
/// identifier's network unchanged: in client mode as a client with exactly that
/// chain id, node, contracts, network and quorum settings, in configuration-only
/// mode as that configuration.
pub proof fn lemma_routed_result_carries_filed_config(
    configs: Map<Seq<char>, LedgerClientConfigView>,
    network: Seq<char>,
    config: LedgerClientConfigView,
    default_network: Seq<char>,
    rest: Seq<char>,
)
    requires
        !network.contains(':'),
    ensures
        route(
            LedgerRouterView { configs: configs.insert(network, config), default_network, mode: LedgerMode::LedgerClient },
            "did:ethr:"@ + network + ":"@ + rest,
        ) == Ok::<LedgerResultView, VdrErrorView>(LedgerResultView::Client(config)),
        route(
            LedgerRouterView { configs: configs.insert(network, config), default_network, mode: LedgerMode::ConfigOnly },
            "did:ethr:"@ + network + ":"@ + rest,
        ) == Ok::<LedgerResultView, VdrErrorView>(LedgerResultView::Config(config)),
        route(
            LedgerRouterView { configs: configs.insert(network, config), default_network, mode: LedgerMode::LedgerClient },
            "did:ethr:"@ + network + ":"@ + rest,
        ) matches Ok(LedgerResultView::Client(c)) && c.chain_id == config.chain_id && c.rpc_node == config.rpc_node
            && c.contract_configs == config.contract_configs && c.network == config.network
            && c.quorum_config == config.quorum_config,
{
    lemma_network_of_named(network, rest);
}

} // verus!

use vstd::prelude::*;

verus! {

/// A decentralized identifier, such as `did:ethr:0x123`.
#[derive(Debug, Default, Clone, PartialEq)]
pub struct DID(String);

impl View for DID {
    type V = Seq<char>;

    closed spec fn view(&self) -> Seq<char> {
        self.0@
    }
}

impl DID {
    /// Wraps the given text as an identifier.
    pub fn from(value: &str) -> (did: DID)
        ensures
            did@ == value@,
    {
        DID(String::from_str(value))
    }

    /// The identifier's text.
    pub fn as_str(&self) -> (s: &str)
        ensures
            s@ == self@,
    {
        self.0.as_str()
    }

    /// The identifier's text, as an owned string.
    pub fn to_string(&self) -> (s: String)
        ensures
            s@ == self@,
    {
        self.0.clone()
    }

    /// Whether two identifiers have the same text.
    pub fn same_as(&self, other: &DID) -> (b: bool)
        ensures
            b == (self@ == other@),
    {
        self.0 == other.0
    }
}

/// Identifier of an AnonCreds revocation registry definition.
#[derive(Debug, Default, Clone, PartialEq)]
pub struct RevocationRegistryDefinitionId(String);

impl View for RevocationRegistryDefinitionId {
    type V = Seq<char>;

    closed spec fn view(&self) -> Seq<char> {
        self.0@
    }
}

/// The text of the revocation registry definition id that `issuer_id` gives
/// to the definition `tag` of credential definition `cred_def_id`.
pub open spec fn revocation_registry_definition_id_text(
    issuer_id: Seq<char>,
    cred_def_id: Seq<char>,
    tag: Seq<char>,
) -> Seq<char> {
    issuer_id + "/anoncreds/v0/REV_REG_DEF/"@ + cred_def_id + "/"@ + tag
}

impl RevocationRegistryDefinitionId {
    /// Wraps the given text as an id.
    pub fn from(value: &str) -> (id: RevocationRegistryDefinitionId)
        ensures
            id@ == value@,
    {
        RevocationRegistryDefinitionId(String::from_str(value))
    }

    /// The id that `issuer_id` gives to the revocation registry definition `tag`
    /// of the credential definition `cred_def_id`.
    pub fn build(issuer_id: &DID, cred_def_id: &str, tag: &str) -> (id: RevocationRegistryDefinitionId)
        ensures
            id@ == revocation_registry_definition_id_text(issuer_id@, cred_def_id@, tag@),
    {
        let text = String::from_str(issuer_id.as_str())
            .concat("/anoncreds/v0/REV_REG_DEF/")
            .concat(cred_def_id)
            .concat("/")
            .concat(tag);
        RevocationRegistryDefinitionId(text)
    }

    /// The id's text.
    pub fn as_str(&self) -> (s: &str)
        ensures
            s@ == self@,
    {
        self.0.as_str()
    }
}

/// The state of a revocation registry as the ledger holds it.
#[derive(Debug, Clone, PartialEq)]
pub struct RevocationStatusList {
    pub current_accumulator: String,
    pub revocation_list: Vec<u32>,
    pub rev_reg_def_id: RevocationRegistryDefinitionId,
    pub issuer_id: DID,
    pub timestamp: u64,
}

/// A parameter handed to a ledger contract.
pub type ContractParam = ethabi::Token;

/// `ethabi::Address`, held opaque: only carried inside a token.
#[verifier::external_type_specification]
#[verifier::external_body]
pub struct ExAddress(ethabi::Address);

/// `ethabi::Uint`, held opaque: only carried inside a token.
#[verifier::external_type_specification]
#[verifier::external_body]
pub struct ExUint(ethabi::Uint);

/// `ethabi::Token`, with its variants visible, so that a parameter is built and
/// read in verified code.
#[verifier::external_type_specification]
pub struct ExToken(ethabi::Token);

/// Where a smart contract of the ledger stands, and where its specification is found.
#[derive(Debug, PartialEq)]
pub struct ContractConfig {
    pub address: String,
    pub spec_path: Option<String>,
}

impl Clone for ContractConfig {
    fn clone(&self) -> (res: Self)
        ensures
            res == *self,
    {
        ContractConfig { address: self.address.clone(), spec_path: self.spec_path.clone() }
    }
}

/// How requests are spread over the nodes of a ledger and retried.
#[derive(Debug, PartialEq)]
pub struct QuorumConfig {
    pub nodes: Vec<String>,
    pub request_retries: Option<u8>,
    pub request_timeout: Option<u64>,
    pub retry_interval: Option<u64>,
}

/// Mathematical form of [`QuorumConfig`].
pub struct QuorumConfigView {
    pub nodes: Seq<Seq<char>>,
    pub request_retries: Option<u8>,
    pub request_timeout: Option<u64>,
    pub retry_interval: Option<u64>,
}

impl View for QuorumConfig {
    type V = QuorumConfigView;

    open spec fn view(&self) -> QuorumConfigView {
        QuorumConfigView {
            nodes: self.nodes.deep_view(),
            request_retries: self.request_retries,
            request_timeout: self.request_timeout,
            retry_interval: self.retry_interval,
        }
    }
}

impl DeepView for QuorumConfig {
    type V = QuorumConfigView;

    open spec fn deep_view(&self) -> QuorumConfigView {
        self@
    }
}

impl Clone for QuorumConfig {
    fn clone(&self) -> (res: Self)
        ensures
            res@ == self@,
    {
        let nodes = self.nodes.clone();
        assert(nodes.deep_view() =~= self.nodes.deep_view());
        QuorumConfig {
            nodes,
            request_retries: self.request_retries,
            request_timeout: self.request_timeout,
            retry_interval: self.retry_interval,
        }
    }
}

} // verus!

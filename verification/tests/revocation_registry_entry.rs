use indy_besu_vdr::error::VdrError;
use indy_besu_vdr::revocation_registry_entry::{
    Accumulator, RevocationRegistryEntry, RevocationRegistryEntryData,
};
use indy_besu_vdr::types::{RevocationRegistryDefinitionId, RevocationStatusList, DID};

fn revocation_registry_entry_data(
    revoked_indices: Option<Vec<u32>>,
    accum: Option<&str>,
    prev_accum: Option<&str>,
) -> RevocationRegistryEntryData {
    RevocationRegistryEntryData {
        current_accumulator: match accum {
            Some(acc) => Accumulator::from(acc),
            None => Accumulator::from("currentAccum"),
        },
        prev_accumulator: prev_accum.map(|acc| Accumulator::from(acc)),
        issued: None,
        revoked: revoked_indices,
    }
}

fn revocation_registry_entry(
    issuer_id: &DID,
    rev_reg_def_id: &RevocationRegistryDefinitionId,
    revoked_indices: Option<Vec<u32>>,
    accum: Option<&str>,
    prev_accum: Option<&str>,
) -> RevocationRegistryEntry {
    RevocationRegistryEntry {
        issuer_id: issuer_id.clone(),
        rev_reg_def_id: rev_reg_def_id.clone(),
        rev_reg_entry_data: revocation_registry_entry_data(revoked_indices, accum, prev_accum),
    }
}

fn fake_status_list_with_issuer(issuer: &str) -> RevocationStatusList {
    RevocationStatusList {
        current_accumulator: "123".to_string(),
        revocation_list: vec![0u32; 32],
        rev_reg_def_id: RevocationRegistryDefinitionId::from("rev_reg_def"),
        issuer_id: DID::from(issuer),
        timestamp: u64::MAX,
    }
}

fn fake_status_list(accum: &str) -> RevocationStatusList {
    RevocationStatusList {
        current_accumulator: accum.to_string(),
        revocation_list: vec![0u32; 32],
        rev_reg_def_id: RevocationRegistryDefinitionId::build(&DID::default(), "cred_def_id", "tag"),
        issuer_id: DID::default(),
        timestamp: u64::MAX,
    }
}

#[test]
pub fn accumulator_validate_empty_fails() {
    let res = Accumulator::from("").validate();
    assert!(res.is_err());
    assert!(format!("{:?}", res.unwrap_err()).contains("Incorrect Accumulator"));
}

#[test]
pub fn accumulator_validate_ok() {
    let acc = Accumulator::from("valid_acc");
    assert!(acc.validate().is_ok());
}

#[test]
pub fn rev_reg_entry_validate_local_ok() {
    let issuer = DID::default();
    let rev_reg_def_id = RevocationRegistryDefinitionId::build(&issuer, "cred_def_id", "tag");
    let entry = revocation_registry_entry(&issuer, &rev_reg_def_id, None, None, Some("prev123"));
    assert!(entry.validate().is_ok());
}

#[test]
pub fn validate_status_list_match_ok() {
    let issuer = DID::default();
    let rev_reg_def_id = RevocationRegistryDefinitionId::build(&issuer, "cred_def_id", "tag");
    let entry = revocation_registry_entry(&issuer, &rev_reg_def_id, None, None, Some("123"));
    let status_list = fake_status_list("123");

    let res = entry.validate_with_status_list(&Some(status_list));
    assert!(res.is_ok());
}

#[test]
pub fn validate_status_list_mismatch_fails() {
    let issuer = DID::default();
    let rev_reg_def_id = RevocationRegistryDefinitionId::build(&issuer, "cred_def_id", "tag");
    let entry = revocation_registry_entry(&issuer, &rev_reg_def_id, None, None, Some("localPrev"));
    let status_list = fake_status_list("ledgerPrev");

    let res = entry.validate_with_status_list(&Some(status_list));
    assert!(res.is_err());
    assert!(res.unwrap_err().to_string().contains("prev_accum mismatch"));
}

#[test]
pub fn validate_status_list_none_ledger_fails() {
    let issuer = DID::default();
    let rev_reg_def_id = RevocationRegistryDefinitionId::build(&issuer, "cred_def_id", "tag");
    let entry = revocation_registry_entry(&issuer, &rev_reg_def_id, None, None, Some("localPrev"));

    let res = entry.validate_with_status_list(&None);
    assert!(res.is_err());
    assert!(res
        .unwrap_err()
        .to_string()
        .contains("prev_accum provided locally, but does not exist on the ledger"));
}

#[test]
pub fn validate_status_list_none_local_fails() {
    let issuer = DID::default();
    let rev_reg_def_id = RevocationRegistryDefinitionId::build(&issuer, "cred_def_id", "tag");
    let entry = revocation_registry_entry(&issuer, &rev_reg_def_id, None, None, None);
    let status_list = fake_status_list("ledgerPrev");

    let res = entry.validate_with_status_list(&Some(status_list));
    assert!(res.is_err());
    assert!(res
        .unwrap_err()
        .to_string()
        .contains("prev_accum not provided locally, but exists on the ledger"));
}

#[test]
pub fn validate_status_list_none_both_ok() {
    let issuer = DID::default();
    let rev_reg_def_id = RevocationRegistryDefinitionId::build(&issuer, "cred_def_id", "tag");
    let entry = revocation_registry_entry(&issuer, &rev_reg_def_id, None, None, None);
    let status_list = fake_status_list("");

    let res = entry.validate_with_status_list(&Some(status_list));
    assert!(res.is_ok());
}

#[test]
pub fn validate_status_list_prev_none_ledger_empty_ok() {
    let issuer = DID::default();
    let rev_reg_def_id = RevocationRegistryDefinitionId::build(&issuer, "cred_def_id", "tag");
    let entry = revocation_registry_entry(&issuer, &rev_reg_def_id, None, Some("prev123"), None);

    let res = entry.validate_with_status_list(&None);
    assert!(res.is_ok());
}

#[test]
fn validate_with_status_list_correct_issuer_ok() {
    let issuer = "did:ethr:0x123";
    let rev_reg_def_id = RevocationRegistryDefinitionId::from("rev_reg_def");
    let entry = revocation_registry_entry(
        &DID::from(issuer),
        &rev_reg_def_id,
        None,
        Some("123"),
        Some("123"),
    );

    let status_list = Some(fake_status_list_with_issuer(issuer));

    let res = entry.validate_with_status_list(&status_list);
    assert!(res.is_ok(), "Validation should pass when issuer matches");
}

#[test]
fn validate_with_status_list_incorrect_issuer_fails() {
    let issuer = "did:ethr:0x123";
    let wrong_issuer = "did:ethr:0x456";
    let rev_reg_def_id = RevocationRegistryDefinitionId::from("rev_reg_def");
    let entry = revocation_registry_entry(
        &DID::from(issuer),
        &rev_reg_def_id,
        None,
        Some("123"),
        Some("123"),
    );

    let status_list = Some(fake_status_list_with_issuer(wrong_issuer));

    let res = entry.validate_with_status_list(&status_list);
    assert!(res.is_err(), "Validation should fail when issuer does not match");
    assert!(res.unwrap_err().to_string().contains("issuer mismatch"));
}

#[test]
fn validate_with_status_list_none_status_list_ok() {
    let issuer = "did:ethr:0x123";
    let rev_reg_def_id = RevocationRegistryDefinitionId::from("rev_reg_def");
    let entry =
        revocation_registry_entry(&DID::from(issuer), &rev_reg_def_id, None, Some("123"), None);

    let res = entry.validate_with_status_list(&None);
    assert!(res.is_ok(), "Validation should pass when status list is None");
}

// Further cases.

#[test]
fn accumulator_error_message_is_exact() {
    let res = Accumulator::from("").validate();
    assert_eq!(
        res,
        Err(VdrError::InvalidRevocationRegistryEntry("Incorrect Accumulator: ".to_string()))
    );
}

#[test]
fn accumulator_text_and_bytes() {
    let acc = Accumulator::from("aé1");
    assert_eq!(acc.as_ref(), "aé1");
    assert_eq!(acc.as_bytes(), "aé1".as_bytes());
    assert!(acc.same_as(&Accumulator::from("aé1")));
    assert!(!acc.same_as(&Accumulator::from("ae1")));
}

#[test]
fn accumulator_contract_param_carries_bytes() {
    let acc = Accumulator::from("acc42");
    let param = acc.to_contract_param().unwrap();
    assert_eq!(param, ethabi::Token::Bytes(b"acc42".to_vec()));
    assert_ne!(param, ethabi::Token::Bytes(Vec::new()));
    let via_trait = ethabi::Token::try_from(&acc).unwrap();
    assert_eq!(via_trait, ethabi::Token::Bytes(b"acc42".to_vec()));
}

#[test]
fn entry_new_keeps_fields() {
    let entry = RevocationRegistryEntry::new(
        RevocationRegistryDefinitionId::from("id"),
        DID::from("did:ethr:0x1"),
        Accumulator::from("cur"),
        Some(Accumulator::from("prev")),
        Some(vec![1, 2]),
        Some(vec![3]),
    );
    assert_eq!(entry.rev_reg_def_id.as_str(), "id");
    assert_eq!(entry.issuer_id.as_str(), "did:ethr:0x1");
    assert_eq!(entry.rev_reg_entry_data.current_accumulator.as_ref(), "cur");
    assert_eq!(entry.rev_reg_entry_data.prev_accumulator.as_ref().unwrap().as_ref(), "prev");
    assert_eq!(entry.rev_reg_entry_data.issued, Some(vec![1, 2]));
    assert_eq!(entry.rev_reg_entry_data.revoked, Some(vec![3]));
}

#[test]
fn entry_with_empty_current_accumulator_fails_first() {
    let issuer = DID::from("did:ethr:0x1");
    let id = RevocationRegistryDefinitionId::from("id");
    let entry = revocation_registry_entry(&issuer, &id, None, Some(""), Some("prev"));
    let res = entry.validate_with_status_list(&Some(fake_status_list_with_issuer("did:ethr:0x2")));
    assert_eq!(
        res,
        Err(VdrError::InvalidRevocationRegistryEntry("Incorrect Accumulator: ".to_string()))
    );
}

#[test]
fn entry_with_empty_previous_accumulator_fails() {
    let issuer = DID::from("did:ethr:0x1");
    let id = RevocationRegistryDefinitionId::from("id");
    let entry = revocation_registry_entry(&issuer, &id, None, Some("cur"), Some(""));
    assert!(entry.validate().is_err());
}

#[test]
fn mismatch_message_names_both_accumulators() {
    let issuer = DID::default();
    let id = RevocationRegistryDefinitionId::from("id");
    let entry = revocation_registry_entry(&issuer, &id, None, None, Some("localPrev"));
    let res = entry.validate_with_ledger(Some(Accumulator::from("ledgerPrev")));
    assert_eq!(
        res,
        Err(VdrError::InvalidRevocationRegistryEntry(
            "prev_accum mismatch: expected ledgerPrev, found localPrev".to_string()
        ))
    );
    assert_eq!(
        res.unwrap_err().to_string(),
        "Invalid revocation registry entry: prev_accum mismatch: expected ledgerPrev, found localPrev"
    );
}

#[test]
fn issuer_mismatch_message_names_both_issuers() {
    let entry = revocation_registry_entry(
        &DID::from("did:ethr:0x123"),
        &RevocationRegistryDefinitionId::from("id"),
        None,
        Some("123"),
        Some("123"),
    );
    let res = entry.validate_with_status_list(&Some(fake_status_list_with_issuer("did:ethr:0x456")));
    assert_eq!(
        res,
        Err(VdrError::InvalidRevocationRegistryEntry(
            "issuer mismatch: entry issuer did:ethr:0x123 != status list issuer did:ethr:0x456"
                .to_string()
        ))
    );
}

#[test]
fn ledger_check_both_absent_ok() {
    let entry = revocation_registry_entry(
        &DID::default(),
        &RevocationRegistryDefinitionId::from("id"),
        None,
        None,
        None,
    );
    assert_eq!(entry.validate_with_ledger(None), Ok(()));
}

#[test]
fn revocation_registry_definition_id_build_format() {
    let id = RevocationRegistryDefinitionId::build(&DID::from("did:ethr:0xab"), "cred", "tag1");
    assert_eq!(id.as_str(), "did:ethr:0xab/anoncreds/v0/REV_REG_DEF/cred/tag1");
}

#[test]
fn did_text_and_comparison() {
    let did = DID::from("did:ethr:0x1");
    assert_eq!(did.as_str(), "did:ethr:0x1");
    assert_eq!(did.to_string(), "did:ethr:0x1".to_string());
    assert!(did.same_as(&DID::from("did:ethr:0x1")));
    assert!(!did.same_as(&DID::default()));
}

#[test]
fn error_texts() {
    assert_eq!(VdrError::ContractInvalidInputData.to_string(), "Invalid contract input data");
    assert_eq!(
        VdrError::RouterConfigError("x".to_string()).to_string(),
        "Router configuration error: x"
    );
    assert_eq!(
        VdrError::ClientInvalidResponse { msg: "y".to_string() }.to_string(),
        "Invalid response from the ledger client: y"
    );
}

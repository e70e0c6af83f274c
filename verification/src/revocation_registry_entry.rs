use vstd::prelude::*;

use crate::error::{VdrError, VdrErrorView, VdrResult, result_view};
use crate::types::{
    ContractParam, RevocationRegistryDefinitionId,
    RevocationStatusList, DID,
};

verus! {

/// The accumulator value of a revocation registry.
#[derive(Debug, Default, Clone, PartialEq)]
pub struct Accumulator(String);

impl View for Accumulator {
    type V = Seq<char>;

    closed spec fn view(&self) -> Seq<char> {
        self.0@
    }
}

impl DeepView for Accumulator {
    type V = Seq<char>;

    open spec fn deep_view(&self) -> Seq<char> {
        self@
    }
}

/// Outcome of checking one accumulator: it must not be empty.
pub open spec fn accumulator_check(acc: Seq<char>) -> Result<(), VdrErrorView> {
    if acc.len() == 0 {
        Err(VdrErrorView::InvalidRevocationRegistryEntry("Incorrect Accumulator: "@ + acc))
    } else {
        Ok(())
    }
}

/// Outcome of comparing the previous accumulator of an entry with the one the
/// ledger holds: both absent, or both present and equal.
pub open spec fn ledger_check(local: Option<Seq<char>>, ledger: Option<Seq<char>>) -> Result<(), VdrErrorView> {
    match (local, ledger) {
        (Some(l), Some(g)) => if l == g {
            Ok(())
        } else {
            Err(VdrErrorView::InvalidRevocationRegistryEntry(
                "prev_accum mismatch: expected "@ + g + ", found "@ + l,
            ))
        },
        (None, Some(_)) => Err(VdrErrorView::InvalidRevocationRegistryEntry(
            "prev_accum not provided locally, but exists on the ledger"@,
        )),
        (Some(_), None) => Err(VdrErrorView::InvalidRevocationRegistryEntry(
            "prev_accum provided locally, but does not exist on the ledger"@,
        )),
        (None, None) => Ok(()),
    }
}

/// The accumulator that a status list read from the ledger stands for: none
/// when there is no list or its accumulator is empty.
pub open spec fn status_list_accumulator(status_list: Option<RevocationStatusList>) -> Option<Seq<char>> {
    match status_list {
        Some(sl) => if sl.current_accumulator@.len() == 0 {
            None
        } else {
            Some(sl.current_accumulator@)
        },
        None => None,
    }
}

impl Accumulator {
    /// Wraps the given text as an accumulator.
    pub fn from(acc: &str) -> (res: Accumulator)
        ensures
            res@ == acc@,
    {
        Accumulator(String::from_str(acc))
    }

    /// The accumulator's text.
    pub fn as_ref(&self) -> (s: &str)
        ensures
            s@ == self@,
    {
        self.0.as_str()
    }

    /// The accumulator's text in UTF-8.
    pub fn as_bytes(&self) -> (b: &[u8])
        ensures
            b@ == vstd::utf8::encode_utf8(self@),
    {
        self.0.as_str().as_bytes()
    }

    /// Whether two accumulators have the same text.
    pub fn same_as(&self, other: &Accumulator) -> (b: bool)
        ensures
            b == (self@ == other@),
    {
        self.0 == other.0
    }

    /// An accumulator is valid when it is not empty.
    pub fn validate(&self) -> (res: VdrResult<()>)
        ensures
            result_view(res) == accumulator_check(self@),
    {
        if self.0.as_str().is_empty() {
            return Err(VdrError::InvalidRevocationRegistryEntry(
                String::from_str("Incorrect Accumulator: ").concat(self.0.as_str()),
            ));
        }
        Ok(())
    }

    /// The contract parameter that carries the accumulator's UTF-8 bytes.
    pub fn to_contract_param(&self) -> (res: VdrResult<ContractParam>)
        ensures
            res matches Ok(ContractParam::Bytes(bytes)) && bytes@ == vstd::utf8::encode_utf8(self@),
    {
        let bytes = vstd::slice::slice_to_vec(self.as_bytes());
        Ok(ContractParam::Bytes(bytes))
    }
}

impl<'a> TryFrom<&'a Accumulator> for ContractParam {
    type Error = VdrError;

    fn try_from(value: &'a Accumulator) -> (res: Result<Self, Self::Error>)
        ensures
            res matches Ok(ContractParam::Bytes(bytes)) && bytes@ == vstd::utf8::encode_utf8(value@),
    {
        value.to_contract_param()
    }
}

impl<'a> vstd::std_specs::convert::TryFromSpecImpl<&'a Accumulator> for ContractParam {
    open spec fn obeys_try_from_spec() -> bool {
        false
    }

    open spec fn try_from_spec(value: &'a Accumulator) -> Result<Self, VdrError> {
        vstd::pervasive::arbitrary()
    }
}

/// An entry of an AnonCreds revocation registry.
#[derive(Debug, Clone, PartialEq)]
pub struct RevocationRegistryEntry {
    pub rev_reg_def_id: RevocationRegistryDefinitionId,
    pub issuer_id: DID,
    pub rev_reg_entry_data: RevocationRegistryEntryData,
}

/// The data of a revocation registry entry that is stored in the registry.
#[derive(Debug, Clone, PartialEq)]
pub struct RevocationRegistryEntryData {
    pub current_accumulator: Accumulator,
    pub prev_accumulator: Option<Accumulator>,
    pub issued: Option<Vec<u32>>,
    pub revoked: Option<Vec<u32>>,
}

impl RevocationRegistryEntry {
    /// The previous accumulator that the entry names, if any.
    pub open spec fn prev_accumulator_view(&self) -> Option<Seq<char>> {
        self.rev_reg_entry_data.prev_accumulator.deep_view()
    }

    /// Outcome of the entry's own checks: the current accumulator, then the
    /// previous one where there is one, must not be empty.
    pub open spec fn local_check(&self) -> Result<(), VdrErrorView> {
        match accumulator_check(self.rev_reg_entry_data.current_accumulator@) {
            Err(e) => Err(e),
            Ok(_) => match self.rev_reg_entry_data.prev_accumulator {
                Some(prev) => accumulator_check(prev@),
                None => Ok(()),
            },
        }
    }

    /// Outcome of checking the entry against what the ledger holds: its own
    /// checks, then the issuer of a status list, then the previous accumulator.
    pub open spec fn status_list_check(&self, status_list: Option<RevocationStatusList>) -> Result<(), VdrErrorView> {
        match self.local_check() {
            Err(e) => Err(e),
            Ok(_) => match status_list {
                Some(sl) if sl.issuer_id@ != self.issuer_id@ => Err(
                    VdrErrorView::InvalidRevocationRegistryEntry(
                        "issuer mismatch: entry issuer "@ + self.issuer_id@ + " != status list issuer "@
                            + sl.issuer_id@,
                    ),
                ),
                _ => ledger_check(self.prev_accumulator_view(), status_list_accumulator(status_list)),
            },
        }
    }

    pub fn new(
        rev_reg_def_id: RevocationRegistryDefinitionId,
        issuer_id: DID,
        current_accumulator: Accumulator,
        prev_accumulator: Option<Accumulator>,
        issued: Option<Vec<u32>>,
        revoked: Option<Vec<u32>>,
    ) -> (entry: RevocationRegistryEntry)
        ensures
            entry.rev_reg_def_id == rev_reg_def_id,
            entry.issuer_id == issuer_id,
            entry.rev_reg_entry_data.current_accumulator == current_accumulator,
            entry.rev_reg_entry_data.prev_accumulator == prev_accumulator,
            entry.rev_reg_entry_data.issued == issued,
            entry.rev_reg_entry_data.revoked == revoked,
    {
        RevocationRegistryEntry {
            rev_reg_def_id,
            issuer_id,
            rev_reg_entry_data: RevocationRegistryEntryData {
                prev_accumulator,
                current_accumulator,
                issued,
                revoked,
            },
        }
    }

    /// Checks the entry on its own: its accumulators must not be empty.
    pub fn validate(&self) -> (res: VdrResult<()>)
        ensures
            result_view(res) == self.local_check(),
    {
        self.rev_reg_entry_data.current_accumulator.validate()?;
        match self.rev_reg_entry_data.prev_accumulator {
            Some(ref prev_acc) => prev_acc.validate()?,
            None => {},
        };
        Ok(())
    }

    /// Checks the entry's previous accumulator against the one on the ledger.
    pub fn validate_with_ledger(&self, prev_accum_from_ledger: Option<Accumulator>) -> (res: VdrResult<()>)
        ensures
            result_view(res) == ledger_check(self.prev_accumulator_view(), prev_accum_from_ledger.deep_view()),
    {
        match (&self.rev_reg_entry_data.prev_accumulator, prev_accum_from_ledger) {
            (Some(local), Some(ledger)) => {
                if !local.same_as(&ledger) {
                    return Err(VdrError::InvalidRevocationRegistryEntry(
                        String::from_str("prev_accum mismatch: expected ")
                            .concat(ledger.as_ref())
                            .concat(", found ")
                            .concat(local.as_ref()),
                    ));
                }
            },
            (None, Some(_)) => {
                return Err(VdrError::InvalidRevocationRegistryEntry(
                    String::from_str("prev_accum not provided locally, but exists on the ledger"),
                ));
            },
            (Some(_), None) => {
                return Err(VdrError::InvalidRevocationRegistryEntry(
                    String::from_str("prev_accum provided locally, but does not exist on the ledger"),
                ));
            },
            (None, None) => {},
        }
        Ok(())
    }

    /// Checks the entry on its own and against the status list read from the
    /// ledger, if there is one.
    pub fn validate_with_status_list(&self, status_list: &Option<RevocationStatusList>) -> (res: VdrResult<()>)
        ensures
            result_view(res) == self.status_list_check(*status_list),
    {
        self.validate()?;

        if let Some(sl) = status_list {
            if !self.issuer_id.same_as(&sl.issuer_id) {
                return Err(VdrError::InvalidRevocationRegistryEntry(
                    String::from_str("issuer mismatch: entry issuer ")
                        .concat(self.issuer_id.to_string().as_str())
                        .concat(" != status list issuer ")
                        .concat(sl.issuer_id.to_string().as_str()),
                ));
            }
        }

        let ledger_accum: Option<Accumulator> = match status_list {
            Some(sl) => {
                let s = sl.current_accumulator.as_str();
                if s.is_empty() {
                    None
                } else {
                    Some(Accumulator::from(s))
                }
            },
            None => None,
        };

        self.validate_with_ledger(ledger_accum)?;
        Ok(())
    }
}


/// An entry that passes its own checks, names the issuer of the status list,
/// and names as previous accumulator the one the ledger holds, is accepted.
pub proof fn lemma_matching_previous_accumulator_passes(entry: RevocationRegistryEntry, status_list: RevocationStatusList)
    requires
        entry.local_check() is Ok,
        status_list.issuer_id@ == entry.issuer_id@,
        entry.prev_accumulator_view() == Some(status_list.current_accumulator@),
    ensures
        entry.status_list_check(Some(status_list)) == Ok::<(), VdrErrorView>(()),
{
}

/// The first entry of a registry, which names no previous accumulator, is
/// accepted when it passes its own checks and the ledger holds no accumulator
/// yet: no status list, or one of the same issuer with an empty accumulator.
pub proof fn lemma_first_entry_passes(entry: RevocationRegistryEntry, status_list: Option<RevocationStatusList>)
    requires
        entry.local_check() is Ok,
        entry.rev_reg_entry_data.prev_accumulator is None,
        status_list matches Some(sl) ==> sl.issuer_id@ == entry.issuer_id@ && sl.current_accumulator@.len() == 0,
    ensures
        entry.status_list_check(status_list) == Ok::<(), VdrErrorView>(()),
{
}

/// Without a status list, an entry that names no previous accumulator is
/// checked on its own alone.
pub proof fn lemma_no_status_list_checks_entry_alone(entry: RevocationRegistryEntry)
    requires
        entry.rev_reg_entry_data.prev_accumulator is None,
    ensures
        entry.status_list_check(None) == entry.local_check(),
{
}

/// A status list of the entry's issuer whose accumulator is empty counts as no
/// accumulator on the ledger.
pub proof fn lemma_empty_ledger_accumulator_counts_as_absent(entry: RevocationRegistryEntry, status_list: RevocationStatusList)
    requires
        status_list.issuer_id@ == entry.issuer_id@,
        status_list.current_accumulator@.len() == 0,
    ensures
        entry.status_list_check(Some(status_list)) == entry.status_list_check(None),
{
}

/// An entry that fails its own checks is refused with that failure, whatever
/// the ledger holds.
pub proof fn lemma_local_failure_comes_first(entry: RevocationRegistryEntry, status_list: Option<RevocationStatusList>)
    requires
        entry.local_check() is Err,
    ensures
        entry.status_list_check(status_list) == entry.local_check(),
{
}

/// An accumulator is refused exactly when it is empty; an entry passes its
/// own checks exactly when its current accumulator, and its previous one where
/// it names one, are not empty.
pub proof fn lemma_only_empty_accumulators_are_refused(acc: Seq<char>, entry: RevocationRegistryEntry)
    ensures
        accumulator_check(acc) is Ok <==> acc.len() > 0,
        entry.local_check() is Ok <==> (entry.rev_reg_entry_data.current_accumulator@.len() > 0 && match entry.prev_accumulator_view() {
            Some(prev) => prev.len() > 0,
            None => true,
        }),
{
}

/// Two previous accumulators, the entry's and the ledger's, pass exactly when
/// they are the same text; different ones are refused with both named.
pub proof fn lemma_previous_accumulators_must_be_equal(local: Seq<char>, ledger: Seq<char>)
    ensures
        ledger_check(Some(local), Some(ledger)) is Ok <==> local == ledger,
        local != ledger ==> ledger_check(Some(local), Some(ledger)) == Err::<(), VdrErrorView>(
            VdrErrorView::InvalidRevocationRegistryEntry("prev_accum mismatch: expected "@ + ledger + ", found "@ + local),
        ),
{
}

/// An entry that passes its own checks is refused whenever a status list of
/// another issuer is given, whatever that list's accumulator holds.
pub proof fn lemma_other_issuer_is_refused(entry: RevocationRegistryEntry, status_list: RevocationStatusList)
    requires
        entry.local_check() is Ok,
        status_list.issuer_id@ != entry.issuer_id@,
    ensures
        entry.status_list_check(Some(status_list)) == Err::<(), VdrErrorView>(
            VdrErrorView::InvalidRevocationRegistryEntry(
                "issuer mismatch: entry issuer "@ + entry.issuer_id@ + " != status list issuer "@ + status_list.issuer_id@,
            ),
        ),
{
}

/// The entry passes against a status list exactly when it passes its own
/// checks, the list (if any) is of its issuer, and the previous accumulator it
/// names is the one the ledger holds (none when the list is absent or its
/// accumulator is empty).
pub proof fn lemma_status_list_check_meaning(entry: RevocationRegistryEntry, status_list: Option<RevocationStatusList>)
    ensures
        entry.status_list_check(status_list) is Ok <==> {
            &&& entry.local_check() is Ok
            &&& (status_list matches Some(sl) ==> sl.issuer_id@ == entry.issuer_id@)
            &&& entry.prev_accumulator_view() == match status_list {
                Some(sl) => if sl.current_accumulator@.len() == 0 {
                    None
                } else {
                    Some(sl.current_accumulator@)
                },
                None => None::<Seq<char>>,
            }
        },
{
}

} // verus!

use vstd::prelude::*;

verus! {

/// Errors reported by the library.
#[derive(Debug, Clone, PartialEq)]
pub enum VdrError {
    /// The router has no ledger for a request, or is in the wrong mode for it.
    RouterConfigError(String),
    /// A revocation registry entry does not agree with itself or with the ledger.
    InvalidRevocationRegistryEntry(String),
    /// A contract parameter could not be built from the given data.
    ContractInvalidInputData,
    /// The ledger returned something other than what the call expects.
    ClientInvalidResponse { msg: String },
}

/// Mathematical form of [`VdrError`]: the variant and its message.
pub enum VdrErrorView {
    RouterConfigError(Seq<char>),
    InvalidRevocationRegistryEntry(Seq<char>),
    ContractInvalidInputData,
    ClientInvalidResponse(Seq<char>),
}

impl View for VdrError {
    type V = VdrErrorView;

    open spec fn view(&self) -> VdrErrorView {
        match self {
            VdrError::RouterConfigError(m) => VdrErrorView::RouterConfigError(m@),
            VdrError::InvalidRevocationRegistryEntry(m) => VdrErrorView::InvalidRevocationRegistryEntry(m@),
            VdrError::ContractInvalidInputData => VdrErrorView::ContractInvalidInputData,
            VdrError::ClientInvalidResponse { msg } => VdrErrorView::ClientInvalidResponse(msg@),
        }
    }
}

/// Result type of the library.
pub type VdrResult<T> = Result<T, VdrError>;

/// A result taken by the views of its value and of its error.
pub open spec fn result_view<T: View>(r: Result<T, VdrError>) -> Result<T::V, VdrErrorView> {
    match r {
        Ok(v) => Ok(v@),
        Err(e) => Err(e@),
    }
}

/// The text by which an error is shown to a user.
pub open spec fn error_text(e: VdrErrorView) -> Seq<char> {
    match e {
        VdrErrorView::RouterConfigError(m) => "Router configuration error: "@ + m,
        VdrErrorView::InvalidRevocationRegistryEntry(m) => "Invalid revocation registry entry: "@ + m,
        VdrErrorView::ContractInvalidInputData => "Invalid contract input data"@,
        VdrErrorView::ClientInvalidResponse(m) => "Invalid response from the ledger client: "@ + m,
    }
}

impl VdrError {
    /// The text by which this error is shown to a user.
    pub fn to_string(&self) -> (s: String)
        ensures
            s@ == error_text(self@),
    {
        match self {
            VdrError::RouterConfigError(m) => {
                String::from_str("Router configuration error: ").concat(m.as_str())
            },
            VdrError::InvalidRevocationRegistryEntry(m) => {
                String::from_str("Invalid revocation registry entry: ").concat(m.as_str())
            },
            VdrError::ContractInvalidInputData => String::from_str("Invalid contract input data"),
            VdrError::ClientInvalidResponse { msg } => {
                String::from_str("Invalid response from the ledger client: ").concat(msg.as_str())
            },
        }
    }
}

} // verus!

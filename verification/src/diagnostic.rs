//! What the provider reports to its host when an operation fails.

use vstd::prelude::*;

verus! {

/// How grave a diagnostic is.
#[derive(Clone, Copy, Debug, PartialEq, Eq, Structural)]
pub enum Severity {
    Invalid,
    Error,
    Warning,
}

/// Why an operation of the provider failed.
#[derive(Clone, Copy, Debug, PartialEq, Eq, Structural)]
pub enum ProviderError {
    /// The provider's configuration could not be decoded.
    DeserializeConfiguration,
    /// The prior state or the configuration of a resource could not be
    /// decoded.
    ComputeResourceState,
    /// The operation needs a record that the request does not hold.
    PriorStateMissing,
    /// Apply was asked to create without a planned state.
    PlannedStateMissing,
    /// The planned state could not be encoded.
    SerializePlannedState,
    /// The new state could not be encoded.
    SerializeNewState,
    /// The remote service refused to delete the machine.
    DeleteVm,
    /// The remote service refused to create the machine.
    CreateVm,
    /// The machine could not be fetched when it had to be there.
    GetVm,
}

impl ProviderError {
    /// The text that the host shows for the error.
    pub open spec fn summary_spec(self) -> Seq<char> {
        match self {
            ProviderError::DeserializeConfiguration => "failed to deserialize configuration"@,
            ProviderError::ComputeResourceState => "failed to compute resource state"@,
            ProviderError::PriorStateMissing => "prior state is missing"@,
            ProviderError::PlannedStateMissing => "planned state is missing"@,
            ProviderError::SerializePlannedState => "failed to serialize planned state"@,
            ProviderError::SerializeNewState => "failed to serialize new state"@,
            ProviderError::DeleteVm => "failed to delete vm"@,
            ProviderError::CreateVm => "failed to create vm"@,
            ProviderError::GetVm => "failed to get vm"@,
        }
    }

    /// The text that the host shows for the error.
    pub fn summary(&self) -> (text: String)
        ensures
            text@ == self.summary_spec(),
    {
        match self {
            ProviderError::DeserializeConfiguration => "failed to deserialize configuration"
                .to_owned(),
            ProviderError::ComputeResourceState => "failed to compute resource state".to_owned(),
            ProviderError::PriorStateMissing => "prior state is missing".to_owned(),
            ProviderError::PlannedStateMissing => "planned state is missing".to_owned(),
            ProviderError::SerializePlannedState => "failed to serialize planned state".to_owned(),
            ProviderError::SerializeNewState => "failed to serialize new state".to_owned(),
            ProviderError::DeleteVm => "failed to delete vm".to_owned(),
            ProviderError::CreateVm => "failed to create vm".to_owned(),
            ProviderError::GetVm => "failed to get vm".to_owned(),
        }
    }

    /// The diagnostic for the error: of severity `Error`, with the summary
    /// as its detail too.
    pub fn diagnostic(&self) -> (diagnostic: Diagnostic)
        ensures
            diagnostic@ == error_diagnostic_spec(self.summary_spec()),
    {
        error_diagnostic(self.summary().as_str())
    }
}

/// One entry of the diagnostics that a response carries.
#[derive(Debug)]
pub struct Diagnostic {
    pub severity: Severity,
    pub summary: String,
    pub detail: String,
}

/// A `Diagnostic` as specifications see it.
pub struct DiagnosticView {
    pub severity: Severity,
    pub summary: Seq<char>,
    pub detail: Seq<char>,
}

impl View for Diagnostic {
    type V = DiagnosticView;

    open spec fn view(&self) -> DiagnosticView {
        DiagnosticView { severity: self.severity, summary: self.summary@, detail: self.detail@ }
    }
}

/// The diagnostic of severity `Error` whose summary and detail are both
/// `summary`.
pub open spec fn error_diagnostic_spec(summary: Seq<char>) -> DiagnosticView {
    DiagnosticView { severity: Severity::Error, summary, detail: summary }
}

/// The diagnostic of severity `Error` whose summary and detail are both
/// `summary`.
pub fn error_diagnostic(summary: &str) -> (diagnostic: Diagnostic)
    ensures
        diagnostic@ == error_diagnostic_spec(summary@),
{
    Diagnostic { severity: Severity::Error, summary: summary.to_owned(), detail: summary.to_owned() }
}

} // verus!

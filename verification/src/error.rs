//! The error taxonomy of the protocol engine.
//!
//! Each failure is mapped to exactly one kind; the kind determines the
//! transport status and whether a client retry can succeed.

use vstd::prelude::*;

verus! {

/// Everything the engine can refuse or fail with.
#[derive(Clone, Copy, Debug, PartialEq, Eq, Structural)]
pub enum Error {
    /// A request carried no inputs.
    EmptyInputs,
    /// A request carried more inputs than the bound allows.
    TooManyInputs,
    /// A request carried no outputs.
    EmptyOutputs,
    /// A request carried more outputs than the bound allows.
    TooManyOutputs,
    /// A proof or blinded message referenced a keyset id the node does not know.
    UnknownKeyset,
    /// A proof or blinded message referenced a keyset of the wrong unit.
    UnitMismatch,
    /// An amount is not a declared key amount of its keyset.
    NotAKeyAmount,
    /// A proof secret is empty or longer than the bound allows.
    InvalidSecret,
    /// Two proofs of one request share a nullifier.
    DuplicateInput,
    /// Input and output value do not balance as the operation demands.
    AmountMismatch,
    /// No liquidity backend is registered for the method and unit.
    MethodUnitUnsupported,
    /// The referenced quote does not exist under the given method.
    QuoteNotFound,
    /// The quote is not in the state the operation demands.
    InvalidState,
    /// The quote has expired.
    Expired,
    /// A proof has already been spent.
    ProofAlreadySpent,
    /// The signer rejected an input signature.
    SignatureInvalid,
    /// A remote dependency failed transiently; the client may retry.
    Unavailable,
    /// An internal invariant was violated.
    Internal,
}

/// The failure classes; each error belongs to exactly one.
#[derive(Clone, Copy, Debug, PartialEq, Eq, Structural)]
pub enum ErrorClass {
    /// Malformed or out-of-bounds request; not retryable.
    Validation,
    /// Correct request against the wrong state; not retryable.
    State,
    /// A cryptographic check failed.
    AuthCrypto,
    /// A dependency failed; the client may retry.
    Transient,
    /// Internal corruption.
    Fatal,
}

impl Error {
    /// The class a given error belongs to.
    pub open spec fn spec_class(self) -> ErrorClass {
        match self {
            Error::EmptyInputs
            | Error::TooManyInputs
            | Error::EmptyOutputs
            | Error::TooManyOutputs
            | Error::UnknownKeyset
            | Error::UnitMismatch
            | Error::NotAKeyAmount
            | Error::InvalidSecret
            | Error::DuplicateInput
            | Error::AmountMismatch
            | Error::MethodUnitUnsupported
            | Error::QuoteNotFound => ErrorClass::Validation,
            Error::InvalidState | Error::Expired | Error::ProofAlreadySpent => ErrorClass::State,
            Error::SignatureInvalid => ErrorClass::AuthCrypto,
            Error::Unavailable => ErrorClass::Transient,
            Error::Internal => ErrorClass::Fatal,
        }
    }

    pub fn class(&self) -> (r: ErrorClass)
        ensures
            r == self.spec_class(),
    {
        match self {
            Error::EmptyInputs
            | Error::TooManyInputs
            | Error::EmptyOutputs
            | Error::TooManyOutputs
            | Error::UnknownKeyset
            | Error::UnitMismatch
            | Error::NotAKeyAmount
            | Error::InvalidSecret
            | Error::DuplicateInput
            | Error::AmountMismatch
            | Error::MethodUnitUnsupported
            | Error::QuoteNotFound => ErrorClass::Validation,
            Error::InvalidState | Error::Expired | Error::ProofAlreadySpent => ErrorClass::State,
            Error::SignatureInvalid => ErrorClass::AuthCrypto,
            Error::Unavailable => ErrorClass::Transient,
            Error::Internal => ErrorClass::Fatal,
        }
    }

    /// The HTTP status the class maps to.
    pub fn http_status(&self) -> (r: u16)
        ensures
            self.spec_class() == ErrorClass::Validation ==> r == 400,
            self.spec_class() == ErrorClass::State ==> r == 409,
            self.spec_class() == ErrorClass::AuthCrypto ==> r == 400,
            self.spec_class() == ErrorClass::Transient ==> r == 503,
            self.spec_class() == ErrorClass::Fatal ==> r == 500,
    {
        match self.class() {
            ErrorClass::Validation => 400,
            ErrorClass::State => 409,
            ErrorClass::AuthCrypto => 400,
            ErrorClass::Transient => 503,
            ErrorClass::Fatal => 500,
        }
    }

    /// A stable machine-readable reason tag for the error.
    pub fn reason(&self) -> (r: &'static str)
        ensures
            *self == Error::EmptyInputs ==> r@ == "inputs-empty"@,
            *self == Error::TooManyInputs ==> r@ == "too-many-inputs"@,
            *self == Error::EmptyOutputs ==> r@ == "outputs-empty"@,
            *self == Error::TooManyOutputs ==> r@ == "too-many-outputs"@,
            *self == Error::UnknownKeyset ==> r@ == "unknown-keyset"@,
            *self == Error::UnitMismatch ==> r@ == "unit-mismatch"@,
            *self == Error::NotAKeyAmount ==> r@ == "not-a-key-amount"@,
            *self == Error::InvalidSecret ==> r@ == "invalid-secret"@,
            *self == Error::DuplicateInput ==> r@ == "duplicate-input"@,
            *self == Error::AmountMismatch ==> r@ == "amount-mismatch"@,
            *self == Error::MethodUnitUnsupported ==> r@ == "method-unit-unsupported"@,
            *self == Error::QuoteNotFound ==> r@ == "quote-not-found"@,
            *self == Error::InvalidState ==> r@ == "invalid-state"@,
            *self == Error::Expired ==> r@ == "quote-expired"@,
            *self == Error::ProofAlreadySpent ==> r@ == "proof-already-spent"@,
            *self == Error::SignatureInvalid ==> r@ == "signature-invalid"@,
            *self == Error::Unavailable ==> r@ == "unavailable"@,
            *self == Error::Internal ==> r@ == "internal"@,
    {
        match self {
            Error::EmptyInputs => "inputs-empty",
            Error::TooManyInputs => "too-many-inputs",
            Error::EmptyOutputs => "outputs-empty",
            Error::TooManyOutputs => "too-many-outputs",
            Error::UnknownKeyset => "unknown-keyset",
            Error::UnitMismatch => "unit-mismatch",
            Error::NotAKeyAmount => "not-a-key-amount",
            Error::InvalidSecret => "invalid-secret",
            Error::DuplicateInput => "duplicate-input",
            Error::AmountMismatch => "amount-mismatch",
            Error::MethodUnitUnsupported => "method-unit-unsupported",
            Error::QuoteNotFound => "quote-not-found",
            Error::InvalidState => "invalid-state",
            Error::Expired => "quote-expired",
            Error::ProofAlreadySpent => "proof-already-spent",
            Error::SignatureInvalid => "signature-invalid",
            Error::Unavailable => "unavailable",
            Error::Internal => "internal",
        }
    }
}

} // verus!

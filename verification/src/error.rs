//! The failures of a decode, and their messages.

use crate::text::{decimal, decimal_of, hex_encode, hex_of};
use vstd::prelude::*;
use vstd::string::*;

verus! {

/// Why calldata could not be resolved.
#[derive(Debug, PartialEq, Eq)]
pub enum DecodeError {
    /// The calldata is too short to hold a selector.
    MalformedCalldata,
    /// The signature directory could not be reached.
    LookupUnavailable { detail: String },
    /// The signature directory answered in an unexpected shape.
    LookupMalformed { detail: String },
    /// A candidate text is no function signature.
    SignatureSyntaxError { signature: String, detail: String },
    /// The parameter bytes do not fit the declared parameter types.
    DecodeLayout { detail: String },
    /// The ABI service could not be reached.
    AbiServiceUnavailable { detail: String },
    /// The ABI service reported a failure, such as an unverified contract.
    AbiServiceRejected { reason: String },
    /// The ABI service returned a document that is no ABI.
    AbiParseError { detail: String },
    /// The contract's ABI holds no function with the selector.
    FunctionNotFound { selector: [u8; 4] },
    /// No candidate could be decoded, and no fallback was available.
    AllCandidatesExhausted { selector: [u8; 4], attempted: usize },
    /// The operation was cancelled while a lookup was in flight.
    Cancelled,
}

/// The content of a [`DecodeError`].
pub enum ErrorView {
    MalformedCalldata,
    LookupUnavailable { detail: Seq<char> },
    LookupMalformed { detail: Seq<char> },
    SignatureSyntaxError { signature: Seq<char>, detail: Seq<char> },
    DecodeLayout { detail: Seq<char> },
    AbiServiceUnavailable { detail: Seq<char> },
    AbiServiceRejected { reason: Seq<char> },
    AbiParseError { detail: Seq<char> },
    FunctionNotFound { selector: Seq<u8> },
    AllCandidatesExhausted { selector: Seq<u8>, attempted: nat },
    Cancelled,
}

impl View for DecodeError {
    type V = ErrorView;

    open spec fn view(&self) -> ErrorView {
        match self {
            DecodeError::MalformedCalldata => ErrorView::MalformedCalldata,
            DecodeError::LookupUnavailable { detail } => ErrorView::LookupUnavailable {
                detail: detail@,
            },
            DecodeError::LookupMalformed { detail } => ErrorView::LookupMalformed {
                detail: detail@,
            },
            DecodeError::SignatureSyntaxError { signature, detail } => {
                ErrorView::SignatureSyntaxError { signature: signature@, detail: detail@ }
            },
            DecodeError::DecodeLayout { detail } => ErrorView::DecodeLayout { detail: detail@ },
            DecodeError::AbiServiceUnavailable { detail } => ErrorView::AbiServiceUnavailable {
                detail: detail@,
            },
            DecodeError::AbiServiceRejected { reason } => ErrorView::AbiServiceRejected {
                reason: reason@,
            },
            DecodeError::AbiParseError { detail } => ErrorView::AbiParseError { detail: detail@ },
            DecodeError::FunctionNotFound { selector } => ErrorView::FunctionNotFound {
                selector: selector@,
            },
            DecodeError::AllCandidatesExhausted { selector, attempted } => {
                ErrorView::AllCandidatesExhausted {
                    selector: selector@,
                    attempted: *attempted as nat,
                }
            },
            DecodeError::Cancelled => ErrorView::Cancelled,
        }
    }
}

impl Clone for DecodeError {
    fn clone(&self) -> (copy: Self)
        ensures
            copy@ == self@,
    {
        match self {
            DecodeError::MalformedCalldata => DecodeError::MalformedCalldata,
            DecodeError::LookupUnavailable { detail } => DecodeError::LookupUnavailable {
                detail: detail.clone(),
            },
            DecodeError::LookupMalformed { detail } => DecodeError::LookupMalformed {
                detail: detail.clone(),
            },
            DecodeError::SignatureSyntaxError { signature, detail } => {
                DecodeError::SignatureSyntaxError {
                    signature: signature.clone(),
                    detail: detail.clone(),
                }
            },
            DecodeError::DecodeLayout { detail } => DecodeError::DecodeLayout {
                detail: detail.clone(),
            },
            DecodeError::AbiServiceUnavailable { detail } => DecodeError::AbiServiceUnavailable {
                detail: detail.clone(),
            },
            DecodeError::AbiServiceRejected { reason } => DecodeError::AbiServiceRejected {
                reason: reason.clone(),
            },
            DecodeError::AbiParseError { detail } => DecodeError::AbiParseError {
                detail: detail.clone(),
            },
            DecodeError::FunctionNotFound { selector } => DecodeError::FunctionNotFound {
                selector: *selector,
            },
            DecodeError::AllCandidatesExhausted { selector, attempted } => {
                DecodeError::AllCandidatesExhausted { selector: *selector, attempted: *attempted }
            },
            DecodeError::Cancelled => DecodeError::Cancelled,
        }
    }
}

/// The message of an error, as it is shown to a person.
pub open spec fn message_of(e: ErrorView) -> Seq<char> {
    match e {
        ErrorView::MalformedCalldata => "data too short to extract selector"@,
        ErrorView::LookupUnavailable { detail } => "signature lookup failed: "@ + detail,
        ErrorView::LookupMalformed { detail } => "unexpected signature lookup response: "@
            + detail,
        ErrorView::SignatureSyntaxError { signature, detail } => "failed to parse signature '"@
            + signature + "': "@ + detail,
        ErrorView::DecodeLayout { detail } => "failed to decode: "@ + detail,
        ErrorView::AbiServiceUnavailable { detail } => "ABI service unavailable: "@ + detail,
        ErrorView::AbiServiceRejected { reason } => "failed to fetch ABI from Etherscan: "@
            + reason,
        ErrorView::AbiParseError { detail } => "failed to parse ABI JSON: "@ + detail,
        ErrorView::FunctionNotFound { selector } => "function with selector 0x"@ + hex_of(
            selector,
        ) + " not found in ABI"@,
        ErrorView::AllCandidatesExhausted { selector, attempted } => if attempted == 0 {
            "no signatures found for selector 0x"@ + hex_of(selector)
        } else {
            "all "@ + decimal_of(attempted) + " signatures failed to decode calldata"@
        },
        ErrorView::Cancelled => "decoding was cancelled"@,
    }
}

/// `head` followed by `tail`.
fn join2(head: &str, tail: &str) -> (out: String)
    ensures
        out@ == head@ + tail@,
{
    let mut out = String::from_str(head);
    out.append(tail);
    out
}

impl DecodeError {
    /// The message of this error.
    pub fn message(&self) -> (text: String)
        ensures
            text@ == message_of(self@),
    {
        match self {
            DecodeError::MalformedCalldata => String::from_str(
                "data too short to extract selector",
            ),
            DecodeError::LookupUnavailable { detail } => join2(
                "signature lookup failed: ",
                detail.as_str(),
            ),
            DecodeError::LookupMalformed { detail } => join2(
                "unexpected signature lookup response: ",
                detail.as_str(),
            ),
            DecodeError::SignatureSyntaxError { signature, detail } => {
                let mut out = join2("failed to parse signature '", signature.as_str());
                out.append("': ");
                out.append(detail.as_str());
                out
            },
            DecodeError::DecodeLayout { detail } => join2("failed to decode: ", detail.as_str()),
            DecodeError::AbiServiceUnavailable { detail } => join2(
                "ABI service unavailable: ",
                detail.as_str(),
            ),
            DecodeError::AbiServiceRejected { reason } => join2(
                "failed to fetch ABI from Etherscan: ",
                reason.as_str(),
            ),
            DecodeError::AbiParseError { detail } => join2(
                "failed to parse ABI JSON: ",
                detail.as_str(),
            ),
            DecodeError::FunctionNotFound { selector } => {
                let hex = hex_encode(selector.as_slice());
                let mut out = join2("function with selector 0x", hex.as_str());
                out.append(" not found in ABI");
                out
            },
            DecodeError::AllCandidatesExhausted { selector, attempted } => {
                if *attempted == 0 {
                    let hex = hex_encode(selector.as_slice());
                    join2("no signatures found for selector 0x", hex.as_str())
                } else {
                    let count = decimal(*attempted as u64);
                    let mut out = join2("all ", count.as_str());
                    out.append(" signatures failed to decode calldata");
                    out
                }
            },
            DecodeError::Cancelled => String::from_str("decoding was cancelled"),
        }
    }
}

} // verus!

//! Function selectors and signature texts.

use crate::abi::{
    clone_params, derived_selector, signature_views, DescriptorView, FunctionDescriptor, Param,
    Signature, SignatureView,
};
use crate::error::{DecodeError, ErrorView};
use crate::text::{hex_encode, hex_of};
use alloy_json_abi::Function;
use vstd::prelude::*;
use vstd::string::*;

verus! {

/// The selector that `data` starts with: its first four bytes.
pub open spec fn leading_selector(data: Seq<u8>) -> Seq<u8> {
    data.subrange(0, 4)
}

/// Extracts the first four bytes of `data` for use as a function selector.
///
/// Fails with [`DecodeError::MalformedCalldata`] exactly when `data` is
/// shorter than that.
pub fn selector(data: &[u8]) -> (r: Result<[u8; 4], DecodeError>)
    ensures
        r is Ok <==> data@.len() >= 4,
        r matches Ok(sel) ==> sel@ == leading_selector(data@),
        r matches Err(e) ==> e@ == ErrorView::MalformedCalldata,
{
    if data.len() < 4 {
        return Err(DecodeError::MalformedCalldata);
    }
    let sel: [u8; 4] = [data[0], data[1], data[2], data[3]];
    assert(sel@ =~= data@.subrange(0, 4));
    Ok(sel)
}

/// Whether two selectors hold the same bytes.
pub fn same_selector(a: &[u8; 4], b: &[u8; 4]) -> (same: bool)
    ensures
        same == (a@ == b@),
{
    let same = a[0] == b[0] && a[1] == b[1] && a[2] == b[2] && a[3] == b[3];
    assert(same == (a@ =~= b@));
    same
}

/// The names of common operations. A candidate whose text starts with one of
/// them is tried before the others.
pub open spec fn well_known_names() -> Seq<Seq<char>> {
    seq!["transfer"@, "approve"@, "transferFrom"@, "mint"@, "burn"@, "swap"@]
}

/// Whether a signature text starts with the name of a common operation.
pub open spec fn is_well_known(text: Seq<char>) -> bool {
    exists|k: int|
        0 <= k < well_known_names().len() && (#[trigger] well_known_names()[k]).is_prefix_of(text)
}

/// Whether `text` starts with `prefix`.
pub fn starts_with(text: &str, prefix: &str) -> (b: bool)
    ensures
        b == prefix@.is_prefix_of(text@),
{
    let n = prefix.unicode_len();
    if text.unicode_len() < n {
        return false;
    }
    let mut i: usize = 0;
    while i < n
        invariant
            i <= n,
            n == prefix@.len(),
            n <= text@.len(),
            forall|j: int| 0 <= j < i ==> text@[j] == prefix@[j],
        decreases n - i,
    {
        if text.get_char(i) != prefix.get_char(i) {
            assert(text@.subrange(0, n as int)[i as int] != prefix@[i as int]);
            return false;
        }
        i = i + 1;
    }
    assert(prefix@ =~= text@.subrange(0, n as int));
    true
}

/// Whether a signature text starts with the name of a common operation.
pub fn has_well_known_name(text: &str) -> (b: bool)
    ensures
        b == is_well_known(text@),
{
    let b = starts_with(text, "transfer") || starts_with(text, "approve") || starts_with(
        text,
        "transferFrom",
    ) || starts_with(text, "mint") || starts_with(text, "burn") || starts_with(text, "swap");
    proof {
        let names = well_known_names();
        if b {
            let k: int = if "transfer"@.is_prefix_of(text@) {
                0
            } else if "approve"@.is_prefix_of(text@) {
                1
            } else if "transferFrom"@.is_prefix_of(text@) {
                2
            } else if "mint"@.is_prefix_of(text@) {
                3
            } else if "burn"@.is_prefix_of(text@) {
                4
            } else {
                5
            };
            assert(names[k].is_prefix_of(text@));
        } else {
            assert forall|k: int| 0 <= k < names.len() implies !(#[trigger] names[k]).is_prefix_of(
                text@,
            ) by {}
        }
    }
    b
}

/// What `alloy_json_abi::Function::parse` makes of a signature text: the
/// function's name and, for each input, its name and canonical type; or the
/// parser's message for a text outside the grammar.
pub uninterp spec fn parsed_signature(text: Seq<char>) -> Result<SignatureView, Seq<char>>;

/// The content of a parser outcome.
pub open spec fn parsed_view(r: Result<Signature, String>) -> Result<SignatureView, Seq<char>> {
    match r {
        Ok(signature) => Ok(signature@),
        Err(detail) => Err(detail@),
    }
}

/// Parses a signature text with `alloy_json_abi::Function::parse`, and hands
/// out the function's name and, for each input, its name and canonical type.
///
/// The outcome is taken to be a function of the text alone.
#[verifier::external_body]
fn parse_function(text: &str) -> (r: Result<Signature, String>)
    ensures
        parsed_view(r) == parsed_signature(text@),
{
    let slot = |p: &alloy_json_abi::Param| {
        Param { name: p.name.clone(), ty: p.selector_type().into_owned() }
    };
    match Function::parse(text) {
        Ok(f) => Ok(Signature { name: f.name.clone(), inputs: f.inputs.iter().map(slot).collect() }),
        Err(e) => Err(e.to_string()),
    }
}

/// The descriptor that a parsed signature stands for, with its selector.
pub open spec fn described(parsed: SignatureView) -> DescriptorView {
    DescriptorView {
        name: parsed.name,
        inputs: parsed.inputs,
        selector: derived_selector(parsed.name, parsed.inputs),
    }
}

/// What parsing a candidate text gives: the descriptor it declares, or a
/// syntax error that names the text.
pub open spec fn signature_outcome(text: Seq<char>) -> Result<DescriptorView, ErrorView> {
    match parsed_signature(text) {
        Ok(parsed) => Ok(described(parsed)),
        Err(detail) => Err(ErrorView::SignatureSyntaxError { signature: text, detail }),
    }
}

/// The content of a parse result.
pub open spec fn descriptor_result_view(r: Result<FunctionDescriptor, DecodeError>) -> Result<
    DescriptorView,
    ErrorView,
> {
    match r {
        Ok(f) => Ok(f@),
        Err(e) => Err(e@),
    }
}

/// Turns the parser's outcome for `text` into a descriptor or a syntax error.
pub fn describe(text: &str, parsed: Result<Signature, String>) -> (r: Result<
    FunctionDescriptor,
    DecodeError,
>)
    ensures
        descriptor_result_view(r) == match parsed_view(parsed) {
            Ok(p) => Ok(described(p)),
            Err(detail) => Err(ErrorView::SignatureSyntaxError { signature: text@, detail }),
        },
        r matches Ok(f) ==> f.wf(),
{
    match parsed {
        Ok(signature) => Ok(FunctionDescriptor::new(signature.name, signature.inputs)),
        Err(detail) => Err(
            DecodeError::SignatureSyntaxError { signature: String::from_str(text), detail },
        ),
    }
}

/// The contents of the descriptors in `functions`, in order.
pub open spec fn descriptor_views(functions: Seq<FunctionDescriptor>) -> Seq<DescriptorView> {
    functions.map_values(|f: FunctionDescriptor| f@)
}

/// The descriptors that parsed signatures stand for, in order.
pub open spec fn described_all(parsed: Seq<SignatureView>) -> Seq<DescriptorView> {
    parsed.map_values(|p: SignatureView| described(p))
}

/// Describes each parsed function in turn, deriving its selector.
pub fn describe_all(signatures: &Vec<Signature>) -> (functions: Vec<FunctionDescriptor>)
    ensures
        descriptor_views(functions@) == described_all(signature_views(signatures@)),
        forall|i: int| 0 <= i < functions.len() ==> (#[trigger] functions[i]).wf(),
{
    let mut functions: Vec<FunctionDescriptor> = Vec::new();
    let mut i: usize = 0;
    while i < signatures.len()
        invariant
            i <= signatures.len(),
            functions.len() == i,
            forall|k: int| 0 <= k < i ==> (#[trigger] functions[k])@ == described(signatures[k]@),
            forall|k: int| 0 <= k < i ==> (#[trigger] functions[k]).wf(),
        decreases signatures.len() - i,
    {
        let signature = &signatures[i];
        functions.push(
            FunctionDescriptor::new(signature.name.clone(), clone_params(&signature.inputs)),
        );
        i = i + 1;
    }
    assert(descriptor_views(functions@) =~= described_all(signature_views(signatures@)));
    functions
}

/// Parses a function signature text such as `transfer(address,uint256)` into
/// a descriptor that calldata can be decoded against.
pub fn parse_signature(sig: &str) -> (r: Result<FunctionDescriptor, DecodeError>)
    ensures
        descriptor_result_view(r) == signature_outcome(sig@),
        r matches Ok(f) ==> f.wf(),
{
    describe(sig, parse_function(sig))
}

/// The address of the directory's answer for a selector.
pub open spec fn lookup_url_of(selector: Seq<u8>) -> Seq<char> {
    "https://www.4byte.directory/api/v1/signatures/?hex_signature=0x"@ + hex_of(selector)
}

/// Builds the address at which the signature directory lists the candidates
/// for `selector`.
pub fn lookup_url(selector: &[u8; 4]) -> (url: String)
    ensures
        url@ == lookup_url_of(selector@),
{
    let mut url = String::from_str(
        "https://www.4byte.directory/api/v1/signatures/?hex_signature=0x",
    );
    url.append(hex_encode(selector.as_slice()).as_str());
    url
}

} // verus!

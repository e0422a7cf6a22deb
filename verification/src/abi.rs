//! Function descriptors: a name, typed parameter slots and the selector
//! derived from them.

use vstd::prelude::*;
use vstd::string::*;
use vstd::utf8::encode_utf8;

verus! {

/// One parameter slot of a function: its name, which may be empty, and its
/// declared type in canonical form (`uint256`, `bytes[2]`, `(address,bool)[]`).
#[derive(Debug, PartialEq, Eq)]
pub struct Param {
    pub name: String,
    pub ty: String,
}

/// The content of a [`Param`].
pub struct ParamView {
    pub name: Seq<char>,
    pub ty: Seq<char>,
}

impl View for Param {
    type V = ParamView;

    open spec fn view(&self) -> ParamView {
        ParamView { name: self.name@, ty: self.ty@ }
    }
}

impl Clone for Param {
    fn clone(&self) -> (r: Self)
        ensures
            r@ == self@,
    {
        Param { name: self.name.clone(), ty: self.ty.clone() }
    }
}

/// The contents of the slots in `params`, in order.
pub open spec fn param_views(params: Seq<Param>) -> Seq<ParamView> {
    params.map_values(|p: Param| p@)
}

/// What a signature declares: the name of a function and its parameter
/// slots.
#[derive(Debug, PartialEq, Eq)]
pub struct Signature {
    pub name: String,
    pub inputs: Vec<Param>,
}

/// The content of a [`Signature`].
pub struct SignatureView {
    pub name: Seq<char>,
    pub inputs: Seq<ParamView>,
}

impl View for Signature {
    type V = SignatureView;

    open spec fn view(&self) -> SignatureView {
        SignatureView { name: self.name@, inputs: param_views(self.inputs@) }
    }
}

/// The contents of the signatures in `signatures`, in order.
pub open spec fn signature_views(signatures: Seq<Signature>) -> Seq<SignatureView> {
    signatures.map_values(|s: Signature| s@)
}

/// A function that calldata may be decoded against.
///
/// The selector is derived from the name and the parameter types; see
/// [`FunctionDescriptor::wf`].
#[derive(Debug, PartialEq, Eq)]
pub struct FunctionDescriptor {
    pub name: String,
    pub inputs: Vec<Param>,
    pub selector: [u8; 4],
}

/// The content of a [`FunctionDescriptor`].
pub struct DescriptorView {
    pub name: Seq<char>,
    pub inputs: Seq<ParamView>,
    pub selector: Seq<u8>,
}

impl View for FunctionDescriptor {
    type V = DescriptorView;

    open spec fn view(&self) -> DescriptorView {
        DescriptorView {
            name: self.name@,
            inputs: param_views(self.inputs@),
            selector: self.selector@,
        }
    }
}

/// The declared types of `inputs`, in order.
pub open spec fn declared_types(inputs: Seq<ParamView>) -> Seq<Seq<char>> {
    inputs.map_values(|p: ParamView| p.ty)
}

/// The declared types of `inputs`, separated by commas.
pub open spec fn joined_types(inputs: Seq<ParamView>) -> Seq<char>
    decreases inputs.len(),
{
    if inputs.len() == 0 {
        Seq::empty()
    } else if inputs.len() == 1 {
        inputs[0].ty
    } else {
        joined_types(inputs.drop_last()) + ","@ + inputs.last().ty
    }
}

/// The canonical signature text `name(type1,type2,...)`: the preimage of the
/// selector.
pub open spec fn signature_text(name: Seq<char>, inputs: Seq<ParamView>) -> Seq<char> {
    name + "("@ + joined_types(inputs) + ")"@
}

/// The Keccak-256 digest of a byte string.
pub uninterp spec fn keccak256_digest(data: Seq<u8>) -> Seq<u8>;

/// Hashes `data` with `alloy::primitives::keccak256`.
///
/// The digest is taken to be a function of the bytes alone; nothing else is
/// claimed of it.
#[verifier::external_body]
fn keccak256(data: &[u8]) -> (digest: [u8; 32])
    ensures
        digest@ == keccak256_digest(data@),
{
    alloy::primitives::keccak256(data).0
}

/// The selector of a function: the first four bytes of the Keccak-256 digest
/// of its canonical signature text, taken as UTF-8.
pub open spec fn derived_selector(name: Seq<char>, inputs: Seq<ParamView>) -> Seq<u8> {
    keccak256_digest(encode_utf8(signature_text(name, inputs))).subrange(0, 4)
}

/// Builds the canonical signature text of a function.
pub fn canonical_signature(name: &str, inputs: &Vec<Param>) -> (text: String)
    ensures
        text@ == signature_text(name@, param_views(inputs@)),
{
    let mut text = String::from_str(name);
    text.append("(");
    let ghost views = param_views(inputs@);
    let ghost mut joined: Seq<char> = Seq::empty();
    let mut i: usize = 0;
    while i < inputs.len()
        invariant
            i <= inputs.len(),
            views == param_views(inputs@),
            joined == joined_types(views.subrange(0, i as int)),
            text@ == name@ + "("@ + joined,
        decreases inputs.len() - i,
    {
        proof {
            let next = views.subrange(0, i + 1);
            assert(next.drop_last() =~= views.subrange(0, i as int));
            assert(next.last() == inputs@[i as int]@);
        }
        if i > 0 {
            text.append(",");
            proof {
                joined = joined + ","@;
            }
        }
        text.append(inputs[i].ty.as_str());
        proof {
            joined = joined + inputs@[i as int].ty@;
            assert(text@ =~= name@ + "("@ + joined);
            assert(joined =~= joined_types(views.subrange(0, i + 1)));
        }
        i = i + 1;
    }
    assert(views.subrange(0, i as int) =~= views);
    text.append(")");
    assert(text@ =~= signature_text(name@, views));
    text
}

/// Whether the selector of a descriptor is the one that its name and its
/// parameter types give.
pub open spec fn well_formed(function: DescriptorView) -> bool {
    function.selector == derived_selector(function.name, function.inputs)
}

impl FunctionDescriptor {
    /// Whether the selector is the one that name and parameter types give.
    pub open spec fn wf(&self) -> bool {
        well_formed(self@)
    }

    /// Describes the function `name` with parameter slots `inputs`, and
    /// derives its selector.
    pub fn new(name: String, inputs: Vec<Param>) -> (f: Self)
        ensures
            f.wf(),
            f.name == name,
            f.inputs == inputs,
    {
        let text = canonical_signature(name.as_str(), &inputs);
        let digest = keccak256(text.as_str().as_bytes());
        let selector: [u8; 4] = [digest[0], digest[1], digest[2], digest[3]];
        assert(selector@ =~= digest@.subrange(0, 4));
        FunctionDescriptor { name, inputs, selector }
    }

    /// The canonical signature text of this function.
    pub fn signature(&self) -> (text: String)
        ensures
            text@ == signature_text(self@.name, self@.inputs),
    {
        canonical_signature(self.name.as_str(), &self.inputs)
    }
}

/// Copies parameter slots.
pub fn clone_params(params: &Vec<Param>) -> (copy: Vec<Param>)
    ensures
        param_views(copy@) == param_views(params@),
{
    let mut copy: Vec<Param> = Vec::new();
    let mut i: usize = 0;
    while i < params.len()
        invariant
            i <= params.len(),
            copy.len() == i,
            forall|j: int| 0 <= j < i ==> copy@[j]@ == params@[j]@,
        decreases params.len() - i,
    {
        copy.push(params[i].clone());
        i = i + 1;
    }
    assert(param_views(copy@) =~= param_views(params@));
    copy
}

impl Clone for FunctionDescriptor {
    fn clone(&self) -> (r: Self)
        ensures
            r@ == self@,
    {
        FunctionDescriptor {
            name: self.name.clone(),
            inputs: clone_params(&self.inputs),
            selector: self.selector,
        }
    }
}

} // verus!

//! Decoding calldata against one function, and trying candidates in turn.

use crate::abi::{
    declared_types, param_views, well_formed, DescriptorView, FunctionDescriptor, Param,
};
use crate::error::{DecodeError, ErrorView};
use crate::signatures::{
    leading_selector, parse_signature, same_selector, selector, signature_outcome,
};
use crate::text::texts;
use crate::value::{clone_values, lift_value, views_of, DecodedValue, ValueView};
use alloy::dyn_abi::JsonAbiExt;
use alloy_json_abi::Function;
use vstd::prelude::*;
use vstd::slice::slice_subrange;
use vstd::string::*;

verus! {

/// The function that calldata decoded against, and the decoded values: one
/// for each declared parameter, in order.
#[derive(Debug, PartialEq, Eq)]
pub struct DecodeResult {
    pub function: FunctionDescriptor,
    pub values: Vec<DecodedValue>,
}

/// The content of a [`DecodeResult`].
pub struct DecodedView {
    pub function: DescriptorView,
    pub values: Seq<ValueView>,
}

impl View for DecodeResult {
    type V = DecodedView;

    open spec fn view(&self) -> DecodedView {
        DecodedView { function: self.function@, values: views_of(self.values@) }
    }
}

impl DecodeResult {
    /// Whether there is one value for each declared parameter.
    pub open spec fn aligned(&self) -> bool {
        self.values@.len() == self.function.inputs@.len()
    }
}

impl Clone for DecodeResult {
    fn clone(&self) -> (copy: Self)
        ensures
            copy@ == self@,
    {
        DecodeResult { function: self.function.clone(), values: clone_values(&self.values) }
    }
}

/// What `alloy::dyn_abi` decodes from `data` for parameters of the declared
/// `types`, by the head and tail layout of the contract ABI: one value for
/// each type, or the decoder's message where the bytes do not fit.
pub uninterp spec fn abi_decoded(types: Seq<Seq<char>>, data: Seq<u8>) -> Result<
    Seq<ValueView>,
    Seq<char>,
>;

/// The content of a decoder outcome.
pub open spec fn raw_view(r: Result<Vec<DecodedValue>, String>) -> Result<
    Seq<ValueView>,
    Seq<char>,
> {
    match r {
        Ok(values) => Ok(views_of(values@)),
        Err(detail) => Err(detail@),
    }
}

/// Decodes `data` against the inputs of `function` with
/// `alloy::dyn_abi::JsonAbiExt::abi_decode_input`.
///
/// The outcome is taken to be a function of the declared types and the bytes
/// alone. The decoder yields one value for each input, or fails.
#[verifier::external_body]
fn abi_decode_input(function: &FunctionDescriptor, data: &[u8]) -> (r: Result<
    Vec<DecodedValue>,
    String,
>)
    ensures
        raw_view(r) == abi_decoded(declared_types(function@.inputs), data@),
        r matches Ok(values) ==> values@.len() == function.inputs@.len(),
{
    let slot = |p: &Param| {
        alloy_json_abi::Param { ty: p.ty.clone(), name: p.name.clone(), ..Default::default() }
    };
    let inputs = function.inputs.iter().map(slot).collect();
    let state_mutability = Default::default();
    let name = function.name.clone();
    match (Function { name, inputs, outputs: Vec::new(), state_mutability }).abi_decode_input(data) {
        Ok(values) => Ok(values.into_iter().map(lift_value).collect()),
        Err(e) => Err(e.to_string()),
    }
}

/// The bytes of `calldata` after the selector.
pub open spec fn parameter_region(calldata: Seq<u8>) -> Seq<u8> {
    calldata.subrange(4, calldata.len() as int)
}

/// Whether `c` is an ASCII letter.
pub open spec fn is_letter(c: char) -> bool {
    'a' <= c <= 'z' || 'A' <= c <= 'Z'
}

/// Whether a type text names a type: whether it holds a letter. A text
/// without one, such as `()`, stands for an empty tuple or for arrays of
/// them, and takes no room in the encoding.
pub open spec fn names_a_type(ty: Seq<char>) -> bool {
    exists|i: int| 0 <= i < ty.len() && is_letter(#[trigger] ty[i])
}

/// The least number of words that the head of the encoding holds for
/// parameters of the given types: every parameter that names a type has a
/// word there, for its value or for the offset of its value.
pub open spec fn word_demand(types: Seq<Seq<char>>) -> nat
    decreases types.len(),
{
    if types.len() == 0 {
        0
    } else {
        word_demand(types.drop_last()) + if names_a_type(types.last()) {
            1nat
        } else {
            0nat
        }
    }
}

/// Whether a parameter region is too short to hold the head of the encoding
/// of parameters of the given types.
pub open spec fn truncated(types: Seq<Seq<char>>, region: Seq<u8>) -> bool {
    region.len() < 32 * word_demand(types)
}

/// The detail of the layout failure for a truncated parameter region.
pub open spec fn truncated_detail() -> Seq<char> {
    "parameter data is shorter than one word for each declared parameter"@
}

/// What decoding `calldata` against `function` gives: the decoded values,
/// or why there are none.
pub open spec fn decode_outcome(function: DescriptorView, calldata: Seq<u8>) -> Result<
    Seq<ValueView>,
    ErrorView,
> {
    let types = declared_types(function.inputs);
    if calldata.len() < 4 {
        Err(ErrorView::MalformedCalldata)
    } else if truncated(types, parameter_region(calldata)) {
        Err(ErrorView::DecodeLayout { detail: truncated_detail() })
    } else {
        match abi_decoded(types, parameter_region(calldata)) {
            Ok(values) => Ok(values),
            Err(detail) => Err(ErrorView::DecodeLayout { detail }),
        }
    }
}

/// Whether a type text holds a letter.
pub fn holds_letter(ty: &str) -> (b: bool)
    ensures
        b == names_a_type(ty@),
{
    let mut found = false;
    for c in it: ty.chars()
        invariant
            it.seq() == ty@,
            found == (exists|i: int| 0 <= i < it.index() && is_letter(#[trigger] ty@[i])),
    {
        if ('a' <= c && c <= 'z') || ('A' <= c && c <= 'Z') {
            found = true;
        }
    }
    found
}

/// Counts the words that the head of the encoding holds at the least for the
/// parameters of a function.
pub fn count_words(inputs: &Vec<Param>) -> (words: usize)
    ensures
        words == word_demand(declared_types(param_views(inputs@))),
        words <= inputs.len(),
{
    let ghost types = declared_types(param_views(inputs@));
    let mut words: usize = 0;
    let mut i: usize = 0;
    while i < inputs.len()
        invariant
            i <= inputs.len(),
            words <= i,
            types == declared_types(param_views(inputs@)),
            words == word_demand(types.subrange(0, i as int)),
        decreases inputs.len() - i,
    {
        proof {
            let next = types.subrange(0, i + 1);
            assert(next.drop_last() =~= types.subrange(0, i as int));
            assert(next.last() == inputs@[i as int].ty@);
        }
        if holds_letter(inputs[i].ty.as_str()) {
            words = words + 1;
        }
        i = i + 1;
    }
    assert(types.subrange(0, i as int) =~= types);
    words
}

/// The content of a decode result.
pub open spec fn values_view(r: Result<Vec<DecodedValue>, DecodeError>) -> Result<
    Seq<ValueView>,
    ErrorView,
> {
    match r {
        Ok(values) => Ok(views_of(values@)),
        Err(e) => Err(e@),
    }
}

/// Turns the decoder's outcome into decoded values or a layout failure.
pub fn settle(raw: Result<Vec<DecodedValue>, String>) -> (r: Result<
    Vec<DecodedValue>,
    DecodeError,
>)
    ensures
        values_view(r) == match raw_view(raw) {
            Ok(values) => Ok::<Seq<ValueView>, ErrorView>(values),
            Err(detail) => Err(ErrorView::DecodeLayout { detail }),
        },
        r matches Ok(values) ==> raw matches Ok(given) && values == given,
{
    match raw {
        Ok(values) => Ok(values),
        Err(detail) => Err(DecodeError::DecodeLayout { detail }),
    }
}

/// Attempts to decode the given calldata against `func`.
///
/// The first four bytes are taken for the selector and skipped; they are
/// not compared with the selector of `func`.
pub fn try_decode(func: &FunctionDescriptor, calldata: &[u8]) -> (r: Result<
    Vec<DecodedValue>,
    DecodeError,
>)
    ensures
        values_view(r) == decode_outcome(func@, calldata@),
        r matches Ok(values) ==> values@.len() == func.inputs@.len(),
{
    if calldata.len() < 4 {
        return Err(DecodeError::MalformedCalldata);
    }
    let params = slice_subrange(calldata, 4, calldata.len());
    if params.len() / 32 < count_words(&func.inputs) {
        return Err(
            DecodeError::DecodeLayout {
                detail: String::from_str(
                    "parameter data is shorter than one word for each declared parameter",
                ),
            },
        );
    }
    settle(abi_decode_input(func, params))
}

/// How the trial of one candidate signature ended.
#[derive(Debug, PartialEq, Eq)]
pub enum Trial {
    /// The text is no function signature.
    ParseError(DecodeError),
    /// The signature has another selector than the calldata.
    WrongSelector,
    /// The parameter bytes do not fit the declared parameter types.
    DecodeError(DecodeError),
    /// The calldata decodes against the signature.
    Success(DecodeResult),
}

/// The content of a [`Trial`].
pub enum TrialView {
    ParseError(ErrorView),
    WrongSelector,
    DecodeError(ErrorView),
    Success(DecodedView),
}

impl View for Trial {
    type V = TrialView;

    open spec fn view(&self) -> TrialView {
        match self {
            Trial::ParseError(e) => TrialView::ParseError(e@),
            Trial::WrongSelector => TrialView::WrongSelector,
            Trial::DecodeError(e) => TrialView::DecodeError(e@),
            Trial::Success(decoded) => TrialView::Success(decoded@),
        }
    }
}

/// How the trial of `function` against `calldata` ends.
///
/// A function whose selector is not the one that the calldata starts with
/// is never decoded against.
pub open spec fn judged(function: DescriptorView, calldata: Seq<u8>) -> TrialView {
    if calldata.len() < 4 || function.selector != leading_selector(calldata) {
        TrialView::WrongSelector
    } else {
        match decode_outcome(function, calldata) {
            Ok(values) => TrialView::Success(DecodedView { function, values }),
            Err(e) => TrialView::DecodeError(e),
        }
    }
}

/// How the trial of the candidate text `candidate` against `calldata` ends.
pub open spec fn trial_of(candidate: Seq<char>, calldata: Seq<u8>) -> TrialView {
    match signature_outcome(candidate) {
        Ok(function) => judged(function, calldata),
        Err(e) => TrialView::ParseError(e),
    }
}

/// Tries `calldata` against a parsed candidate: compares the selectors,
/// then decodes the parameter bytes.
pub fn judge(function: FunctionDescriptor, calldata: &[u8]) -> (t: Trial)
    ensures
        t@ == judged(function@, calldata@),
        t matches Trial::Success(decoded) ==> decoded.aligned(),
{
    match selector(calldata) {
        Err(_) => Trial::WrongSelector,
        Ok(sel) => {
            if !same_selector(&function.selector, &sel) {
                return Trial::WrongSelector;
            }
            match try_decode(&function, calldata) {
                Ok(values) => Trial::Success(DecodeResult { function, values }),
                Err(e) => Trial::DecodeError(e),
            }
        },
    }
}

/// Tries `calldata` against one candidate text: parses it, compares the
/// selectors, and decodes the parameter bytes.
pub fn attempt(candidate: &str, calldata: &[u8]) -> (t: Trial)
    ensures
        t@ == trial_of(candidate@, calldata@),
        t matches Trial::Success(decoded) ==> decoded.aligned(),
{
    match parse_signature(candidate) {
        Ok(function) => judge(function, calldata),
        Err(e) => Trial::ParseError(e),
    }
}

/// The decode of the first candidate in `order` that `calldata` decodes
/// against, if there is one.
pub open spec fn first_success(order: Seq<Seq<char>>, calldata: Seq<u8>) -> Option<DecodedView>
    decreases order.len(),
{
    if order.len() == 0 {
        None
    } else {
        match trial_of(order[0], calldata) {
            TrialView::Success(decoded) => Some(decoded),
            _ => first_success(order.drop_first(), calldata),
        }
    }
}

/// The content of an optional decode.
pub open spec fn found_view(r: Option<DecodeResult>) -> Option<DecodedView> {
    match r {
        Some(decoded) => Some(decoded@),
        None => None,
    }
}

/// Tries the candidates in the given order and returns the decode of the
/// first that succeeds. Candidates after it are not looked at; one that
/// fails to parse or to decode is passed over.
pub fn run_trials(order: &Vec<String>, calldata: &[u8]) -> (r: Option<DecodeResult>)
    ensures
        found_view(r) == first_success(texts(order@), calldata@),
        r matches Some(decoded) ==> decoded.aligned(),
{
    let ghost all = texts(order@);
    let mut i: usize = 0;
    assert(all.subrange(0, all.len() as int) =~= all);
    while i < order.len()
        invariant
            i <= order.len(),
            all == texts(order@),
            first_success(all, calldata@) == first_success(
                all.subrange(i as int, all.len() as int),
                calldata@,
            ),
        decreases order.len() - i,
    {
        proof {
            let here = all.subrange(i as int, all.len() as int);
            assert(here[0] == order@[i as int]@);
            assert(here.drop_first() =~= all.subrange(i + 1, all.len() as int));
        }
        match attempt(order[i].as_str(), calldata) {
            Trial::Success(decoded) => {
                return Some(decoded);
            },
            _ => {},
        }
        i = i + 1;
    }
    None
}

/// Where the trials succeed at all, they succeed at one candidate, and at
/// none before it.
pub proof fn first_success_is_the_first(order: Seq<Seq<char>>, calldata: Seq<u8>)
    ensures
        match first_success(order, calldata) {
            Some(decoded) => exists|i: int|
                0 <= i < order.len() && trial_of(#[trigger] order[i], calldata)
                    == TrialView::Success(decoded) && forall|j: int|
                    0 <= j < i ==> !(trial_of(#[trigger] order[j], calldata) is Success),
            None => forall|j: int|
                0 <= j < order.len() ==> !(trial_of(#[trigger] order[j], calldata) is Success),
        },
    decreases order.len(),
{
    if order.len() > 0 {
        let rest = order.drop_first();
        first_success_is_the_first(rest, calldata);
        if trial_of(order[0], calldata) is Success {
            assert(trial_of(order[0], calldata) == TrialView::Success(
                first_success(order, calldata)->0,
            ));
        } else {
            match first_success(rest, calldata) {
                Some(decoded) => {
                    let i = choose|i: int|
                        0 <= i < rest.len() && trial_of(#[trigger] rest[i], calldata)
                            == TrialView::Success(decoded) && forall|j: int|
                            0 <= j < i ==> !(trial_of(#[trigger] rest[j], calldata) is Success);
                    assert(order[i + 1] == rest[i]);
                    assert forall|j: int| 0 <= j < i + 1 implies !(trial_of(
                        #[trigger] order[j],
                        calldata,
                    ) is Success) by {
                        if j > 0 {
                            assert(order[j] == rest[j - 1]);
                        }
                    }
                },
                None => {
                    assert forall|j: int| 0 <= j < order.len() implies !(trial_of(
                        #[trigger] order[j],
                        calldata,
                    ) is Success) by {
                        if j > 0 {
                            assert(order[j] == rest[j - 1]);
                        }
                    }
                },
            }
        }
    }
}

/// A decode is only ever returned for a function whose selector is the one
/// that the calldata starts with; and as the selector of a parsed candidate
/// is derived from its signature, the calldata starts with the hash of the
/// signature that is returned.
pub proof fn success_has_the_selector(order: Seq<Seq<char>>, calldata: Seq<u8>)
    ensures
        first_success(order, calldata) matches Some(decoded) ==> calldata.len() >= 4
            && decoded.function.selector == leading_selector(calldata) && well_formed(
            decoded.function,
        ),
    decreases order.len(),
{
    if order.len() > 0 {
        success_has_the_selector(order.drop_first(), calldata);
    }
}

/// Trying one list after another finds what the first list finds, and
/// looks into the second only where the first has nothing.
pub proof fn first_success_of_two(a: Seq<Seq<char>>, b: Seq<Seq<char>>, calldata: Seq<u8>)
    ensures
        first_success(a + b, calldata) == match first_success(a, calldata) {
            Some(decoded) => Some(decoded),
            None => first_success(b, calldata),
        },
    decreases a.len(),
{
    if a.len() == 0 {
        assert(a + b =~= b);
    } else {
        assert((a + b)[0] == a[0]);
        assert((a + b).drop_first() =~= a.drop_first() + b);
        first_success_of_two(a.drop_first(), b, calldata);
    }
}

/// Calldata whose parameter region is shorter than one word for each
/// parameter that names a type never decodes: the attempt ends in a layout
/// failure, and a trial against such a function is no success.
pub proof fn truncated_calldata_fails(function: DescriptorView, calldata: Seq<u8>)
    requires
        calldata.len() >= 4,
        truncated(declared_types(function.inputs), parameter_region(calldata)),
    ensures
        decode_outcome(function, calldata) == Err::<Seq<ValueView>, ErrorView>(
            ErrorView::DecodeLayout { detail: truncated_detail() },
        ),
        !(judged(function, calldata) is Success),
{
}

/// A function that declares two parameters does not decode from calldata
/// that holds a single word after the selector: the attempt fails as a
/// layout failure.
pub proof fn two_parameters_need_two_words(function: DescriptorView, calldata: Seq<u8>)
    requires
        function.inputs.len() == 2,
        names_a_type(function.inputs[0].ty),
        names_a_type(function.inputs[1].ty),
        calldata.len() == 4 + 32,
    ensures
        decode_outcome(function, calldata) is Err,
        decode_outcome(function, calldata)->Err_0 is DecodeLayout,
        !(judged(function, calldata) is Success),
{
    let types = declared_types(function.inputs);
    assert(types.drop_last().drop_last() =~= Seq::<Seq<char>>::empty());
    assert(word_demand(types.drop_last().drop_last()) == 0);
    assert(word_demand(types.drop_last()) == 1);
    assert(word_demand(types) == 2);
    truncated_calldata_fails(function, calldata);
}

} // verus!

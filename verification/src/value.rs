//! Decoded parameter values.

use alloy::dyn_abi::DynSolValue;
use alloy::primitives::{Address, FixedBytes, Function, I256, U256};
use vstd::prelude::*;

verus! {

/// A decoded Solidity value, tagged by its kind.
///
/// Integers and fixed-size byte strings are kept as big-endian words of 32
/// bytes, next to their declared width.
#[derive(Debug, PartialEq, Eq)]
pub enum DecodedValue {
    /// A boolean.
    Bool(bool),
    /// A signed integer in two's complement, and its width in bits.
    Int([u8; 32], usize),
    /// An unsigned integer, and its width in bits.
    Uint([u8; 32], usize),
    /// A fixed-size byte string, left-aligned, and its length in bytes.
    FixedBytes([u8; 32], usize),
    /// An address.
    Address([u8; 20]),
    /// A function pointer: an address followed by a selector.
    Function([u8; 24]),
    /// A byte string of any length.
    Bytes(Vec<u8>),
    /// A text.
    String(String),
    /// An array of any length.
    Array(Vec<DecodedValue>),
    /// An array of fixed length.
    FixedArray(Vec<DecodedValue>),
    /// A tuple.
    Tuple(Vec<DecodedValue>),
}

/// The mathematical content of a [`DecodedValue`].
pub enum ValueView {
    Bool(bool),
    Int(Seq<u8>, nat),
    Uint(Seq<u8>, nat),
    FixedBytes(Seq<u8>, nat),
    Address(Seq<u8>),
    Function(Seq<u8>),
    Bytes(Seq<u8>),
    String(Seq<char>),
    Array(Seq<ValueView>),
    FixedArray(Seq<ValueView>),
    Tuple(Seq<ValueView>),
}

/// The views of the values in `items`, in order.
pub open spec fn views_of(items: Seq<DecodedValue>) -> Seq<ValueView>
    decreases items,
{
    Seq::new(
        items.len(),
        |i: int|
            if 0 <= i < items.len() {
                value_view(items[i])
            } else {
                ValueView::Bool(false)
            },
    )
}

/// The content of one value.
pub open spec fn value_view(value: DecodedValue) -> ValueView
    decreases value,
{
    match value {
        DecodedValue::Bool(b) => ValueView::Bool(b),
        DecodedValue::Int(word, bits) => ValueView::Int(word@, bits as nat),
        DecodedValue::Uint(word, bits) => ValueView::Uint(word@, bits as nat),
        DecodedValue::FixedBytes(word, len) => ValueView::FixedBytes(word@, len as nat),
        DecodedValue::Address(bytes) => ValueView::Address(bytes@),
        DecodedValue::Function(bytes) => ValueView::Function(bytes@),
        DecodedValue::Bytes(bytes) => ValueView::Bytes(bytes@),
        DecodedValue::String(text) => ValueView::String(text@),
        DecodedValue::Array(items) => ValueView::Array(views_of(items@)),
        DecodedValue::FixedArray(items) => ValueView::FixedArray(views_of(items@)),
        DecodedValue::Tuple(items) => ValueView::Tuple(views_of(items@)),
    }
}

impl View for DecodedValue {
    type V = ValueView;

    open spec fn view(&self) -> ValueView {
        value_view(*self)
    }
}

/// Copies decoded values.
pub fn clone_values(items: &Vec<DecodedValue>) -> (copy: Vec<DecodedValue>)
    ensures
        views_of(copy@) == views_of(items@),
    decreases items,
{
    let mut copy: Vec<DecodedValue> = Vec::new();
    let mut i: usize = 0;
    while i < items.len()
        invariant
            i <= items.len(),
            copy.len() == i,
            forall|j: int| 0 <= j < i ==> value_view(copy@[j]) == value_view(items@[j]),
        decreases items.len() - i,
    {
        copy.push(clone_value(&items[i]));
        i = i + 1;
    }
    assert(views_of(copy@) =~= views_of(items@));
    copy
}

/// Copies a decoded value.
pub fn clone_value(value: &DecodedValue) -> (copy: DecodedValue)
    ensures
        copy@ == value@,
    decreases value,
{
    match value {
        DecodedValue::Bool(b) => DecodedValue::Bool(*b),
        DecodedValue::Int(word, bits) => DecodedValue::Int(*word, *bits),
        DecodedValue::Uint(word, bits) => DecodedValue::Uint(*word, *bits),
        DecodedValue::FixedBytes(word, len) => DecodedValue::FixedBytes(*word, *len),
        DecodedValue::Address(bytes) => DecodedValue::Address(*bytes),
        DecodedValue::Function(bytes) => DecodedValue::Function(*bytes),
        DecodedValue::Bytes(bytes) => DecodedValue::Bytes(bytes.clone()),
        DecodedValue::String(text) => DecodedValue::String(text.clone()),
        DecodedValue::Array(items) => DecodedValue::Array(clone_values(items)),
        DecodedValue::FixedArray(items) => DecodedValue::FixedArray(clone_values(items)),
        DecodedValue::Tuple(items) => DecodedValue::Tuple(clone_values(items)),
    }
}

impl Clone for DecodedValue {
    fn clone(&self) -> (copy: Self)
        ensures
            copy@ == self@,
    {
        clone_value(self)
    }
}

/// The dynamic value type of `alloy::dyn_abi`, carried through as it is.
#[verifier::external_type_specification]
#[verifier::external_body]
pub struct ExDynSolValue(DynSolValue);

/// Rewrites a word-sized or text-like `DynSolValue` as a [`DecodedValue`],
/// variant for variant; sequences are handled by [`lift_value`].
#[verifier::external_body]
fn lift_scalar(value: DynSolValue) -> DecodedValue {
    match value {
        DynSolValue::Bool(b) => DecodedValue::Bool(b),
        DynSolValue::Int(i, bits) => DecodedValue::Int(i.to_be_bytes(), bits),
        DynSolValue::Uint(u, bits) => DecodedValue::Uint(u.to_be_bytes(), bits),
        DynSolValue::FixedBytes(word, len) => DecodedValue::FixedBytes(word.0, len),
        DynSolValue::Address(a) => DecodedValue::Address(a.into_array()),
        DynSolValue::Function(f) => DecodedValue::Function(f.0.0),
        DynSolValue::Bytes(bytes) => DecodedValue::Bytes(bytes),
        DynSolValue::String(text) => DecodedValue::String(text),
        sequence => lift_value(sequence),
    }
}

/// Rewrites a `DynSolValue` as a [`DecodedValue`], variant for variant and
/// item for item.
#[verifier::external_body]
pub(crate) fn lift_value(value: DynSolValue) -> DecodedValue {
    match value {
        DynSolValue::Array(v) => DecodedValue::Array(v.into_iter().map(lift_value).collect()),
        DynSolValue::FixedArray(v) => DecodedValue::FixedArray(
            v.into_iter().map(lift_value).collect(),
        ),
        DynSolValue::Tuple(v) => DecodedValue::Tuple(v.into_iter().map(lift_value).collect()),
        scalar => lift_scalar(scalar),
    }
}

/// Rewrites a word-sized or text-like [`DecodedValue`] as a `DynSolValue`,
/// variant for variant; sequences are handled by [`lower_value`].
#[verifier::external_body]
fn lower_scalar(value: &DecodedValue) -> DynSolValue {
    match value {
        DecodedValue::Bool(b) => DynSolValue::Bool(*b),
        DecodedValue::Int(word, bits) => DynSolValue::Int(I256::from_be_bytes(*word), *bits),
        DecodedValue::Uint(word, bits) => DynSolValue::Uint(U256::from_be_bytes(*word), *bits),
        DecodedValue::FixedBytes(word, len) => DynSolValue::FixedBytes(FixedBytes(*word), *len),
        DecodedValue::Address(bytes) => DynSolValue::Address(Address::new(*bytes)),
        DecodedValue::Function(bytes) => DynSolValue::Function(Function::new(*bytes)),
        DecodedValue::Bytes(bytes) => DynSolValue::Bytes(bytes.clone()),
        DecodedValue::String(text) => DynSolValue::String(text.clone()),
        sequence => lower_value(sequence),
    }
}

/// Rewrites a [`DecodedValue`] as a `DynSolValue`, variant for variant and
/// item for item.
#[verifier::external_body]
pub(crate) fn lower_value(value: &DecodedValue) -> DynSolValue {
    match value {
        DecodedValue::Array(v) => DynSolValue::Array(v.iter().map(lower_value).collect()),
        DecodedValue::FixedArray(v) => DynSolValue::FixedArray(
            v.iter().map(lower_value).collect(),
        ),
        DecodedValue::Tuple(v) => DynSolValue::Tuple(v.iter().map(lower_value).collect()),
        scalar => lower_scalar(scalar),
    }
}

} // verus!

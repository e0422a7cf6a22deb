//! Renders decoded values for people.

use crate::abi::{FunctionDescriptor, Param};
use crate::text::{decimal, decimal_of, hex_encode, hex_of};
use crate::value::{lower_value, DecodedValue, ValueView};
use alloy::primitives::U256;
use vstd::prelude::*;
use vstd::string::*;

verus! {

/// The number that `bytes` spell in base 256, most significant byte first.
pub open spec fn be_value(bytes: Seq<u8>) -> nat
    decreases bytes.len(),
{
    if bytes.len() == 0 {
        0
    } else {
        be_value(bytes.drop_last()) * 256 + bytes.last() as nat
    }
}

/// `digits` with an underscore before every group of three digits, counted
/// from the right.
pub open spec fn grouped(digits: Seq<char>) -> Seq<char>
    decreases digits.len(),
{
    if digits.len() <= 3 {
        digits
    } else {
        grouped(digits.subrange(0, digits.len() - 3)) + "_"@ + digits.subrange(
            digits.len() - 3,
            digits.len() as int,
        )
    }
}

/// Whether every byte is zero.
pub open spec fn all_zero(bytes: Seq<u8>) -> bool {
    forall|i: int| 0 <= i < bytes.len() ==> bytes[i] == 0
}

/// How the `Debug` implementation of `alloy::dyn_abi::DynSolValue` renders
/// the value that holds `value`.
pub uninterp spec fn debug_rendering(value: ValueView) -> Seq<char>;

/// The text shown for a decoded value.
///
/// Addresses are shown in lower-case hex, the zero address with a note;
/// unsigned integers in decimal with their width, long ones with their
/// digits grouped; byte strings in hex, cut after 32 bytes.
pub open spec fn formatted(value: ValueView) -> Seq<char> {
    match value {
        ValueView::Address(bytes) => if all_zero(bytes) {
            "0x"@ + hex_of(bytes) + " (Zero Address)"@
        } else {
            "0x"@ + hex_of(bytes)
        },
        ValueView::Uint(word, bits) => {
            let digits = decimal_of(be_value(word));
            let shown = if digits.len() > 6 {
                grouped(digits)
            } else {
                digits
            };
            shown + " (uint"@ + decimal_of(bits) + ")"@
        },
        ValueView::Bool(b) => if b {
            "true"@
        } else {
            "false"@
        },
        ValueView::Bytes(bytes) => if bytes.len() <= 32 {
            "0x"@ + hex_of(bytes)
        } else {
            "0x"@ + hex_of(bytes.subrange(0, 32)) + "... ("@ + decimal_of(bytes.len())
                + " bytes)"@
        },
        other => debug_rendering(other),
    }
}

/// Renders a 256-bit unsigned integer in decimal, with the `Display`
/// implementation of `alloy::primitives::U256`.
///
/// The contract says that the text is the decimal numeral of the number that
/// the word spells, without sign or leading zeros.
#[verifier::external_body]
fn u256_decimal(word: &[u8; 32]) -> (text: String)
    ensures
        text@ == decimal_of(be_value(word@)),
{
    U256::from_be_bytes(*word).to_string()
}

/// Renders a value with the `Debug` implementation of
/// `alloy::dyn_abi::DynSolValue`.
#[verifier::external_body]
fn debug_text(value: &DecodedValue) -> (text: String)
    ensures
        text@ == debug_rendering(value@),
{
    format!("{:?}", lower_value(value))
}

/// Groups the digits of a numeral in threes from the right.
pub fn group_digits(digits: &str) -> (out: String)
    ensures
        out@ == grouped(digits@),
{
    let n = digits.unicode_len();
    if n <= 3 {
        return String::from_str(digits);
    }
    let first: usize = if n % 3 == 0 {
        3
    } else {
        n % 3
    };
    let mut out = String::from_str(digits.substring_char(0, first));
    let mut k: usize = first;
    while k < n
        invariant
            1 <= k <= n,
            n == digits@.len(),
            (n - k) % 3 == 0,
            out@ == grouped(digits@.subrange(0, k as int)),
        decreases n - k,
    {
        proof {
            let next = digits@.subrange(0, k + 3);
            assert(next.subrange(0, next.len() - 3) =~= digits@.subrange(0, k as int));
            assert(next.subrange(next.len() - 3, next.len() as int) =~= digits@.subrange(
                k as int,
                k + 3,
            ));
        }
        out.append("_");
        out.append(digits.substring_char(k, k + 3));
        k = k + 3;
    }
    assert(digits@.subrange(0, k as int) =~= digits@);
    out
}

/// Whether every byte of `bytes` is zero.
fn is_zero(bytes: &[u8]) -> (zero: bool)
    ensures
        zero == all_zero(bytes@),
{
    let mut i: usize = 0;
    while i < bytes.len()
        invariant
            i <= bytes.len(),
            forall|j: int| 0 <= j < i ==> bytes@[j] == 0,
        decreases bytes.len() - i,
    {
        if bytes[i] != 0 {
            return false;
        }
        i = i + 1;
    }
    true
}

/// Formats a decoded value into a human-readable text.
pub fn format_value(value: &DecodedValue) -> (text: String)
    ensures
        text@ == formatted(value@),
{
    match value {
        DecodedValue::Address(bytes) => {
            let mut text = String::from_str("0x");
            text.append(hex_encode(bytes.as_slice()).as_str());
            if is_zero(bytes.as_slice()) {
                text.append(" (Zero Address)");
            }
            text
        },
        DecodedValue::Uint(word, bits) => {
            let digits = u256_decimal(word);
            let mut text = if digits.as_str().unicode_len() > 6 {
                group_digits(digits.as_str())
            } else {
                digits
            };
            text.append(" (uint");
            text.append(decimal(*bits as u64).as_str());
            text.append(")");
            text
        },
        DecodedValue::Bool(b) => if *b {
            String::from_str("true")
        } else {
            String::from_str("false")
        },
        DecodedValue::Bytes(bytes) => {
            let mut text = String::from_str("0x");
            if bytes.len() <= 32 {
                text.append(hex_encode(bytes.as_slice()).as_str());
            } else {
                let head = vstd::slice::slice_subrange(bytes.as_slice(), 0, 32);
                text.append(hex_encode(head).as_str());
                text.append("... (");
                text.append(decimal(bytes.len() as u64).as_str());
                text.append(" bytes)");
            }
            text
        },
        other => debug_text(other),
    }
}

/// One line of the table of decoded parameters.
#[derive(Debug, PartialEq, Eq)]
pub struct Row {
    /// The name of the parameter, or `param` and its position where it has
    /// none.
    pub parameter: String,
    /// The declared type of the parameter.
    pub ty: String,
    /// The decoded value, formatted.
    pub value: String,
}

/// The content of a [`Row`].
pub struct RowView {
    pub parameter: Seq<char>,
    pub ty: Seq<char>,
    pub value: Seq<char>,
}

impl View for Row {
    type V = RowView;

    open spec fn view(&self) -> RowView {
        RowView { parameter: self.parameter@, ty: self.ty@, value: self.value@ }
    }
}

/// The name shown for the parameter at `position`.
pub open spec fn shown_name(position: nat, name: Seq<char>) -> Seq<char> {
    if name.len() == 0 {
        "param"@ + decimal_of(position)
    } else {
        name
    }
}

/// The line of the table for the parameter at `position`.
pub open spec fn row_of(position: nat, param: crate::abi::ParamView, value: ValueView) -> RowView {
    RowView {
        parameter: shown_name(position, param.name),
        ty: param.ty,
        value: formatted(value),
    }
}

/// The lines of the table: one for each value that has a declared
/// parameter, in order.
pub open spec fn rows_of(values: Seq<ValueView>, inputs: Seq<crate::abi::ParamView>) -> Seq<
    RowView,
> {
    Seq::new(
        if values.len() <= inputs.len() {
            values.len()
        } else {
            inputs.len()
        },
        |i: int| row_of(i as nat, inputs[i], values[i]),
    )
}

/// The contents of the rows in `rows`, in order.
pub open spec fn row_views(rows: Seq<Row>) -> Seq<RowView> {
    rows.map_values(|r: Row| r@)
}

/// Builds the table of decoded parameters: name, declared type and
/// formatted value of each.
pub fn table_rows(params: &Vec<DecodedValue>, func: &FunctionDescriptor) -> (rows: Vec<Row>)
    ensures
        row_views(rows@) == rows_of(crate::value::views_of(params@), func@.inputs),
{
    let n = if params.len() <= func.inputs.len() {
        params.len()
    } else {
        func.inputs.len()
    };
    let mut rows: Vec<Row> = Vec::new();
    let mut i: usize = 0;
    while i < n
        invariant
            i <= n,
            n <= params.len(),
            n <= func.inputs.len(),
            rows.len() == i,
            forall|k: int|
                0 <= k < i ==> (#[trigger] rows[k])@ == row_of(
                    k as nat,
                    func.inputs[k]@,
                    params[k]@,
                ),
        decreases n - i,
    {
        let input: &Param = &func.inputs[i];
        let parameter = if input.name.as_str().unicode_len() == 0 {
            let mut name = String::from_str("param");
            name.append(decimal(i as u64).as_str());
            name
        } else {
            input.name.clone()
        };
        rows.push(Row { parameter, ty: input.ty.clone(), value: format_value(&params[i]) });
        i = i + 1;
    }
    assert(row_views(rows@) =~= rows_of(crate::value::views_of(params@), func@.inputs));
    rows
}

} // verus!

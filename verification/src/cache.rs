//! Where the ABI of a contract is cached, and what the cache file holds.
//!
//! The cache is one file per contract under a cache directory, named by the
//! contract's address in lower case. Reading and writing the files is left
//! to the caller.

use crate::abi::{
    signature_views, DescriptorView, FunctionDescriptor, Param, Signature, SignatureView,
};
use crate::signatures::{describe_all, described_all, descriptor_views};
use crate::text::text_option;
use alloy_json_abi::Function;
use vstd::prelude::*;
use vstd::string::*;
use vstd::utf8::is_ascii_chars;

verus! {

/// The twenty-six lower-case letters, in order.
pub open spec fn lower_letters() -> Seq<char> {
    seq![
        'a', 'b', 'c', 'd', 'e', 'f', 'g', 'h', 'i', 'j', 'k', 'l', 'm',
        'n', 'o', 'p', 'q', 'r', 's', 't', 'u', 'v', 'w', 'x', 'y', 'z',
    ]
}

/// `c` with an ASCII capital letter replaced by its small letter.
pub open spec fn ascii_lower(c: char) -> char {
    if 'A' <= c <= 'Z' {
        lower_letters()[c as int - 'A' as int]
    } else {
        c
    }
}

/// `text` with every ASCII capital letter replaced by its small letter.
pub open spec fn ascii_lowercase(text: Seq<char>) -> Seq<char> {
    text.map_values(|c: char| ascii_lower(c))
}

/// The lower-case equivalent of a text by the rules of Unicode, as
/// `str::to_lowercase` gives it.
pub uninterp spec fn unicode_lowercase(text: Seq<char>) -> Seq<char>;

/// Lower-cases a text with `str::to_lowercase`.
#[verifier::external_body]
fn to_lowercase(text: &str) -> (lower: String)
    ensures
        lower@ == unicode_lowercase(text@),
{
    text.to_lowercase()
}

/// The key under which an address is cached: the address in lower case.
///
/// An address is hexadecimal and so ASCII; there the small letters are
/// given exactly. Any other text is lower-cased by the rules of Unicode.
pub open spec fn normalized_address(address: Seq<char>) -> Seq<char> {
    if is_ascii_chars(address) {
        ascii_lowercase(address)
    } else {
        unicode_lowercase(address)
    }
}

/// The name of the cache file of a contract.
pub open spec fn cache_file_name(address: Seq<char>) -> Seq<char> {
    normalized_address(address) + ".json"@
}

/// The path of the cache file of a contract under `cache_dir`.
pub open spec fn cache_path_of(cache_dir: Seq<char>, address: Seq<char>) -> Seq<char> {
    cache_dir + "/"@ + cache_file_name(address)
}

/// The cache directory of the user whose home directory is `home`.
pub open spec fn cache_dir_of(home: Seq<char>) -> Seq<char> {
    home + "/.txdecode/cache"@
}

/// Lower-cases an address for use as a cache key.
pub fn normalize_address(address: &str) -> (key: String)
    ensures
        key@ == normalized_address(address@),
{
    if !address.is_ascii() {
        return to_lowercase(address);
    }
    let letters = "abcdefghijklmnopqrstuvwxyz";
    proof {
        reveal_strlit("abcdefghijklmnopqrstuvwxyz");
    }
    let n = address.unicode_len();
    let mut key = String::new();
    let mut i: usize = 0;
    while i < n
        invariant
            i <= n,
            n == address@.len(),
            is_ascii_chars(address@),
            letters@ == lower_letters(),
            letters.is_ascii(),
            key@ == ascii_lowercase(address@.subrange(0, i as int)),
        decreases n - i,
    {
        let b = address.get_ascii(i);
        let ghost c = address@[i as int];
        if 65 <= b && b <= 90 {
            let at: usize = (b - 65) as usize;
            key.append(letters.substring_ascii(at, at + 1));
        } else {
            key.append(address.substring_ascii(i, i + 1));
        }
        assert(key@ =~= ascii_lowercase(address@.subrange(0, i as int)).push(ascii_lower(c)));
        assert(ascii_lowercase(address@.subrange(0, i + 1)) =~= ascii_lowercase(
            address@.subrange(0, i as int),
        ).push(ascii_lower(c)));
        i = i + 1;
    }
    assert(address@.subrange(0, i as int) =~= address@);
    key
}

/// Returns the cache directory under the home directory `home`.
pub fn cache_dir_under(home: &str) -> (dir: String)
    ensures
        dir@ == cache_dir_of(home@),
{
    let mut dir = String::from_str(home);
    dir.append("/.txdecode/cache");
    dir
}

/// Returns the cache file path for a given contract address.
pub fn cache_path(cache_dir: &str, address: &str) -> (path: String)
    ensures
        path@ == cache_path_of(cache_dir@, address@),
{
    let mut path = String::from_str(cache_dir);
    path.append("/");
    path.append(normalize_address(address).as_str());
    path.append(".json");
    assert(path@ =~= cache_path_of(cache_dir@, address@));
    path
}

/// The functions that `serde_json::from_str` reads from the text of a
/// cache file as a list of `alloy_json_abi::Function`: for each its name
/// and, for each input, its name and canonical type. `None` where the text
/// is no such list.
pub uninterp spec fn cached_functions(text: Seq<char>) -> Option<Seq<SignatureView>>;

/// The text that `serde_json::to_string_pretty` writes for a list of
/// functions with the given names and inputs, where it writes one.
pub uninterp spec fn rendered_functions(functions: Seq<SignatureView>) -> Option<Seq<char>>;

/// The content of a list of parsed functions that may be missing.
pub open spec fn signatures_option_view(r: Option<Vec<Signature>>) -> Option<
    Seq<SignatureView>,
> {
    match r {
        Some(signatures) => Some(signature_views(signatures@)),
        None => None,
    }
}

/// The names and the inputs of the functions in `functions`, in order.
pub open spec fn signatures_of(functions: Seq<DescriptorView>) -> Seq<SignatureView> {
    functions.map_values(|f: DescriptorView| SignatureView { name: f.name, inputs: f.inputs })
}

/// Reads a list of functions from JSON with `serde_json::from_str`, and
/// hands out their names and inputs.
///
/// The outcome is taken to be a function of the text alone.
#[verifier::external_body]
fn read_functions(text: &str) -> (r: Option<Vec<Signature>>)
    ensures
        signatures_option_view(r) == cached_functions(text@),
{
    let slot = |p: &alloy_json_abi::Param| {
        Param { name: p.name.clone(), ty: p.selector_type().into_owned() }
    };
    let declared = |f: &Function| {
        Signature { name: f.name.clone(), inputs: f.inputs.iter().map(slot).collect() }
    };
    match serde_json::from_str::<Vec<Function>>(text) {
        Ok(functions) => Some(functions.iter().map(declared).collect()),
        Err(_) => None,
    }
}

/// Writes a list of functions as indented JSON with
/// `serde_json::to_string_pretty`.
///
/// The text is taken to be a function of the names and inputs alone.
#[verifier::external_body]
fn write_functions(functions: &Vec<FunctionDescriptor>) -> (r: Option<String>)
    ensures
        text_option(r) == rendered_functions(
            signatures_of(descriptor_views(functions@)),
        ),
{
    let slot = |p: &Param| {
        alloy_json_abi::Param { ty: p.ty.clone(), name: p.name.clone(), ..Default::default() }
    };
    let outside = |f: &FunctionDescriptor| {
        let inputs = f.inputs.iter().map(slot).collect();
        let state_mutability = Default::default();
        Function { name: f.name.clone(), inputs, outputs: Vec::new(), state_mutability }
    };
    let list: Vec<Function> = functions.iter().map(outside).collect();
    serde_json::to_string_pretty(&list).ok()
}

/// The descriptors that the text of a cache file holds, if it holds any.
pub open spec fn cache_content(text: Seq<char>) -> Option<Seq<DescriptorView>> {
    match cached_functions(text) {
        Some(parsed) => Some(described_all(parsed)),
        None => None,
    }
}

/// The content of a list of descriptors that may be missing.
pub open spec fn descriptors_option_view(r: Option<Vec<FunctionDescriptor>>) -> Option<
    Seq<DescriptorView>,
> {
    match r {
        Some(functions) => Some(descriptor_views(functions@)),
        None => None,
    }
}

/// Reads the ABI that the text of a cache file holds. A text that is no
/// list of functions counts as a missing entry.
pub fn read_cached_abi(content: &str) -> (r: Option<Vec<FunctionDescriptor>>)
    ensures
        descriptors_option_view(r) == cache_content(content@),
        r matches Some(functions) ==> forall|i: int|
            0 <= i < functions.len() ==> (#[trigger] functions[i]).wf(),
{
    match read_functions(content) {
        Some(signatures) => Some(describe_all(&signatures)),
        None => None,
    }
}

/// Writes the text of the cache file for the given ABI. The whole list is
/// written; nothing of an earlier entry is kept.
pub fn render_cached_abi(abi: &Vec<FunctionDescriptor>) -> (r: Option<String>)
    ensures
        text_option(r) == rendered_functions(
            signatures_of(descriptor_views(abi@)),
        ),
{
    write_functions(abi)
}

/// Lower-casing an ASCII text leaves an ASCII text in which no capital
/// letter is left to replace.
proof fn ascii_lowercase_is_settled(text: Seq<char>)
    requires
        is_ascii_chars(text),
    ensures
        is_ascii_chars(ascii_lowercase(text)),
        ascii_lowercase(ascii_lowercase(text)) == ascii_lowercase(text),
{
    let lower = ascii_lowercase(text);
    assert forall|i: int| 0 <= i < lower.len() implies '\0' <= #[trigger] lower[i] <= '\u{7f}'
        && ascii_lower(lower[i]) == lower[i] by {
        let c = text[i];
        assert(lower[i] == ascii_lower(c));
    }
    assert(ascii_lowercase(lower) =~= lower);
}

/// The cache does not tell apart addresses that differ in the case of
/// their letters only: both have the same cache file.
pub proof fn cache_path_ignores_case(cache_dir: Seq<char>, a: Seq<char>, b: Seq<char>)
    requires
        is_ascii_chars(a),
        is_ascii_chars(b),
        a.len() == b.len(),
        forall|i: int| 0 <= i < a.len() ==> ascii_lower(a[i]) == ascii_lower(b[i]),
    ensures
        cache_path_of(cache_dir, a) == cache_path_of(cache_dir, b),
{
    assert(ascii_lowercase(a) =~= ascii_lowercase(b));
}

/// Normalising a cache key again changes nothing: an address in lower case
/// is its own cache key.
pub proof fn cache_key_is_settled(address: Seq<char>)
    requires
        is_ascii_chars(address),
    ensures
        normalized_address(normalized_address(address)) == normalized_address(address),
{
    ascii_lowercase_is_settled(address);
}

} // verus!

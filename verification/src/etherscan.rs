//! The verified ABI of a contract, from the cache or from the ABI service.
//!
//! The lookup is a state machine: it says which file to read, which
//! address to fetch and what to write back; the caller does so and reports
//! what came of it.

use crate::abi::{
    signature_views, well_formed, DescriptorView, FunctionDescriptor, Param, Signature,
    SignatureView,
};
use crate::cache::{
    cache_content, cache_path, cache_path_of, read_cached_abi, render_cached_abi,
    rendered_functions, signatures_of,
};
use crate::error::{DecodeError, ErrorView};
use crate::signatures::{
    describe_all, described_all, descriptor_result_view, descriptor_views, same_selector,
};
use crate::text::{decimal, decimal_of, same_text, text_option};
use alloy_json_abi::{Function, JsonAbi};
use vstd::prelude::*;
use vstd::string::*;

verus! {

/// The first function in `functions` with the given selector, if there is
/// one.
pub open spec fn first_match(functions: Seq<DescriptorView>, selector: Seq<u8>) -> Option<
    DescriptorView,
>
    decreases functions.len(),
{
    if functions.len() == 0 {
        None
    } else if functions[0].selector == selector {
        Some(functions[0])
    } else {
        first_match(functions.drop_first(), selector)
    }
}

/// The content of an optional descriptor.
pub open spec fn descriptor_option_view(r: Option<FunctionDescriptor>) -> Option<DescriptorView> {
    match r {
        Some(f) => Some(f@),
        None => None,
    }
}

/// Finds the first function with the given selector.
pub fn find_by_selector(functions: &Vec<FunctionDescriptor>, selector: &[u8; 4]) -> (r: Option<
    FunctionDescriptor,
>)
    ensures
        descriptor_option_view(r) == first_match(descriptor_views(functions@), selector@),
{
    let ghost all = descriptor_views(functions@);
    let mut i: usize = 0;
    assert(all.subrange(0, all.len() as int) =~= all);
    while i < functions.len()
        invariant
            i <= functions.len(),
            all == descriptor_views(functions@),
            first_match(all, selector@) == first_match(
                all.subrange(i as int, all.len() as int),
                selector@,
            ),
        decreases functions.len() - i,
    {
        proof {
            let here = all.subrange(i as int, all.len() as int);
            assert(here[0] == functions@[i as int]@);
            assert(here.drop_first() =~= all.subrange(i + 1, all.len() as int));
        }
        if same_selector(&functions[i].selector, selector) {
            return Some(functions[i].clone());
        }
        i = i + 1;
    }
    None
}

/// The address at which the ABI service gives the ABI of a contract.
pub open spec fn abi_url_of(chain_id: u64, address: Seq<char>, api_key: Seq<char>) -> Seq<char> {
    "https://api.etherscan.io/v2/api?module=contract&action=getabi&address="@ + address
        + "&apikey="@ + api_key + "&chainid="@ + decimal_of(chain_id as nat)
}

/// Builds the address at which the ABI service gives the ABI of the
/// contract at `address` on the chain `chain_id`.
pub fn abi_url(chain_id: u64, address: &str, api_key: &str) -> (url: String)
    ensures
        url@ == abi_url_of(chain_id, address@, api_key@),
{
    let mut url = String::from_str(
        "https://api.etherscan.io/v2/api?module=contract&action=getabi&address=",
    );
    url.append(address);
    url.append("&apikey=");
    url.append(api_key);
    url.append("&chainid=");
    url.append(decimal(chain_id).as_str());
    url
}

/// The functions of an ABI document: what `serde_json::from_str` reads from
/// the text as an `alloy_json_abi::JsonAbi`, and for each function that
/// `JsonAbi::functions` then yields its name and, for each input, its name
/// and canonical type; or the parser's message where the text is no ABI.
pub uninterp spec fn abi_document(text: Seq<char>) -> Result<Seq<SignatureView>, Seq<char>>;

/// The content of a parsed document.
pub open spec fn document_view(r: Result<Vec<Signature>, String>) -> Result<
    Seq<SignatureView>,
    Seq<char>,
> {
    match r {
        Ok(signatures) => Ok(signature_views(signatures@)),
        Err(detail) => Err(detail@),
    }
}

/// Reads an ABI document with `serde_json::from_str`, and hands out the
/// names and inputs of its functions in the order of `JsonAbi::functions`.
///
/// The outcome is taken to be a function of the text alone.
#[verifier::external_body]
fn read_abi_document(text: &str) -> (r: Result<Vec<Signature>, String>)
    ensures
        document_view(r) == abi_document(text@),
{
    let slot = |p: &alloy_json_abi::Param| {
        Param { name: p.name.clone(), ty: p.selector_type().into_owned() }
    };
    let declared = |f: &Function| {
        Signature { name: f.name.clone(), inputs: f.inputs.iter().map(slot).collect() }
    };
    match serde_json::from_str::<JsonAbi>(text) {
        Ok(abi) => Ok(abi.functions().map(declared).collect()),
        Err(e) => Err(e.to_string()),
    }
}

/// The functions that an ABI document declares, or why it is no ABI.
pub open spec fn document_functions(text: Seq<char>) -> Result<Seq<DescriptorView>, ErrorView> {
    match abi_document(text) {
        Ok(parsed) => Ok(described_all(parsed)),
        Err(detail) => Err(ErrorView::AbiParseError { detail }),
    }
}

/// The content of a list of descriptors or an error.
pub open spec fn functions_view(r: Result<Vec<FunctionDescriptor>, DecodeError>) -> Result<
    Seq<DescriptorView>,
    ErrorView,
> {
    match r {
        Ok(functions) => Ok(descriptor_views(functions@)),
        Err(e) => Err(e@),
    }
}

/// Parses an ABI document into the descriptors of its functions.
pub fn parse_abi(document: &str) -> (r: Result<Vec<FunctionDescriptor>, DecodeError>)
    ensures
        functions_view(r) == document_functions(document@),
        r matches Ok(functions) ==> forall|i: int|
            0 <= i < functions.len() ==> (#[trigger] functions[i]).wf(),
{
    match read_abi_document(document) {
        Ok(signatures) => Ok(describe_all(&signatures)),
        Err(detail) => Err(DecodeError::AbiParseError { detail }),
    }
}

/// What the ABI service answered: a status, and the ABI document or, where
/// the status reports a failure, the reason.
#[derive(Debug, PartialEq, Eq)]
pub struct ServiceReply {
    pub status: String,
    pub result: String,
}

/// The content of a [`ServiceReply`].
pub struct ServiceReplyView {
    pub status: Seq<char>,
    pub result: Seq<char>,
}

impl View for ServiceReply {
    type V = ServiceReplyView;

    open spec fn view(&self) -> ServiceReplyView {
        ServiceReplyView { status: self.status@, result: self.result@ }
    }
}

/// The function with `selector` among `functions`, or that there is none.
pub open spec fn selected(functions: Seq<DescriptorView>, selector: Seq<u8>) -> Result<
    DescriptorView,
    ErrorView,
> {
    match first_match(functions, selector) {
        Some(function) => Ok(function),
        None => Err(ErrorView::FunctionNotFound { selector }),
    }
}

/// What the service's answer holds: the functions of the contract, or why
/// there are none.
pub open spec fn reply_functions(reply: ServiceReplyView) -> Result<
    Seq<DescriptorView>,
    ErrorView,
> {
    if reply.status != "1"@ {
        Err(ErrorView::AbiServiceRejected { reason: reply.result })
    } else {
        document_functions(reply.result)
    }
}

/// Reads the functions of the contract from the service's answer.
pub fn read_reply(reply: ServiceReply) -> (r: Result<Vec<FunctionDescriptor>, DecodeError>)
    ensures
        functions_view(r) == reply_functions(reply@),
        r matches Ok(functions) ==> forall|i: int|
            0 <= i < functions.len() ==> (#[trigger] functions[i]).wf(),
{
    if !same_text(reply.status.as_str(), "1") {
        return Err(DecodeError::AbiServiceRejected { reason: reply.result });
    }
    parse_abi(reply.result.as_str())
}

/// Picks the function with `selector` from the functions of a contract.
pub fn select(functions: &Vec<FunctionDescriptor>, selector: &[u8; 4]) -> (r: Result<
    FunctionDescriptor,
    DecodeError,
>)
    ensures
        descriptor_result_view(r) == selected(descriptor_views(functions@), selector@),
{
    match find_by_selector(functions, selector) {
        Some(function) => Ok(function),
        None => Err(DecodeError::FunctionNotFound { selector: *selector }),
    }
}

/// The chain that is meant where none is named.
pub const DEFAULT_CHAIN: u64 = 1;

/// Which function is looked for, and where.
#[derive(Debug, PartialEq, Eq)]
pub struct AbiQuery {
    /// The address of the contract.
    pub address: String,
    /// The selector of the function.
    pub selector: [u8; 4],
    /// The credential for the ABI service.
    pub api_key: String,
    /// The chain of the contract; the default chain where none is named.
    pub chain_id: Option<u64>,
    /// The cache directory; without one the cache is neither read nor
    /// written.
    pub cache_dir: Option<String>,
}

/// The content of an [`AbiQuery`].
pub struct AbiQueryView {
    pub address: Seq<char>,
    pub selector: Seq<u8>,
    pub api_key: Seq<char>,
    pub chain_id: Option<u64>,
    pub cache_dir: Option<Seq<char>>,
}

impl View for AbiQuery {
    type V = AbiQueryView;

    open spec fn view(&self) -> AbiQueryView {
        AbiQueryView {
            address: self.address@,
            selector: self.selector@,
            api_key: self.api_key@,
            chain_id: self.chain_id,
            cache_dir: text_option(self.cache_dir),
        }
    }
}

/// How far a lookup has come.
#[derive(Debug, PartialEq, Eq)]
pub enum LookupStage {
    /// Nothing has been done yet.
    Start,
    /// The cache file is being read.
    ReadingCache,
    /// The ABI service has been asked.
    Fetching,
    /// The cache file is being written; the outcome is already known.
    Saving(Result<FunctionDescriptor, DecodeError>),
    /// The outcome has been handed out.
    Finished,
}

/// The content of a [`LookupStage`].
pub enum LookupStageView {
    Start,
    ReadingCache,
    Fetching,
    Saving(Result<DescriptorView, ErrorView>),
    Finished,
}

impl View for LookupStage {
    type V = LookupStageView;

    open spec fn view(&self) -> LookupStageView {
        match self {
            LookupStage::Start => LookupStageView::Start,
            LookupStage::ReadingCache => LookupStageView::ReadingCache,
            LookupStage::Fetching => LookupStageView::Fetching,
            LookupStage::Saving(outcome) => LookupStageView::Saving(
                descriptor_result_view(*outcome),
            ),
            LookupStage::Finished => LookupStageView::Finished,
        }
    }
}

/// What the caller reports to a lookup.
#[derive(Debug, PartialEq, Eq)]
pub enum LookupEvent {
    /// The lookup is to begin.
    Begin,
    /// The cache file was read; `None` where there is none or it cannot be
    /// read.
    CacheRead(Option<String>),
    /// The ABI service answered, or could not be reached.
    Fetched(Result<ServiceReply, DecodeError>),
    /// The cache file was written, or writing it failed; the lookup goes on
    /// either way.
    Saved,
    /// The lookup in flight was cancelled or timed out.
    Cancel,
}

/// The content of a [`LookupEvent`].
pub enum LookupEventView {
    Begin,
    CacheRead(Option<Seq<char>>),
    Fetched(Result<ServiceReplyView, ErrorView>),
    Saved,
    Cancel,
}

impl View for LookupEvent {
    type V = LookupEventView;

    open spec fn view(&self) -> LookupEventView {
        match self {
            LookupEvent::Begin => LookupEventView::Begin,
            LookupEvent::CacheRead(content) => LookupEventView::CacheRead(text_option(*content)),
            LookupEvent::Fetched(reply) => LookupEventView::Fetched(
                match reply {
                    Ok(answer) => Ok(answer@),
                    Err(e) => Err(e@),
                },
            ),
            LookupEvent::Saved => LookupEventView::Saved,
            LookupEvent::Cancel => LookupEventView::Cancel,
        }
    }
}

/// What a lookup asks of the caller.
#[derive(Debug, PartialEq, Eq)]
pub enum LookupAction {
    /// Read the file at `path`, and report it with
    /// [`LookupEvent::CacheRead`].
    ReadCache { path: String },
    /// Fetch `url`, and report the answer with [`LookupEvent::Fetched`].
    Fetch { url: String },
    /// Write `content` to the file at `path`, replacing what it held, and
    /// report with [`LookupEvent::Saved`].
    WriteCache { path: String, content: String },
    /// The lookup has ended with this outcome.
    Finish(Result<FunctionDescriptor, DecodeError>),
    /// The event was not waited for; nothing has changed.
    Idle,
}

/// The content of a [`LookupAction`].
pub enum LookupActionView {
    ReadCache { path: Seq<char> },
    Fetch { url: Seq<char> },
    WriteCache { path: Seq<char>, content: Seq<char> },
    Finish(Result<DescriptorView, ErrorView>),
    Idle,
}

impl View for LookupAction {
    type V = LookupActionView;

    open spec fn view(&self) -> LookupActionView {
        match self {
            LookupAction::ReadCache { path } => LookupActionView::ReadCache { path: path@ },
            LookupAction::Fetch { url } => LookupActionView::Fetch { url: url@ },
            LookupAction::WriteCache { path, content } => LookupActionView::WriteCache {
                path: path@,
                content: content@,
            },
            LookupAction::Finish(outcome) => LookupActionView::Finish(
                descriptor_result_view(*outcome),
            ),
            LookupAction::Idle => LookupActionView::Idle,
        }
    }
}

/// The chain that a query means.
pub open spec fn chain_of(query: AbiQueryView) -> u64 {
    match query.chain_id {
        Some(chain) => chain,
        None => DEFAULT_CHAIN,
    }
}

/// The request to the ABI service for the contract of `query`.
pub open spec fn fetch_of(query: AbiQueryView) -> LookupActionView {
    LookupActionView::Fetch { url: abi_url_of(chain_of(query), query.address, query.api_key) }
}

/// The first step: the cache is consulted where there is one.
pub open spec fn at_start(query: AbiQueryView) -> (LookupStageView, LookupActionView) {
    match query.cache_dir {
        Some(dir) => (
            LookupStageView::ReadingCache,
            LookupActionView::ReadCache { path: cache_path_of(dir, query.address) },
        ),
        None => (LookupStageView::Fetching, fetch_of(query)),
    }
}

/// The function that the cache gives for a query, if it gives one.
pub open spec fn cache_hit(query: AbiQueryView, content: Option<Seq<char>>) -> Option<
    DescriptorView,
> {
    match content {
        Some(text) => match cache_content(text) {
            Some(functions) => first_match(functions, query.selector),
            None => None,
        },
        None => None,
    }
}

/// What follows the reading of the cache: a hit ends the lookup without
/// any request to the service; else the service is asked.
pub open spec fn after_cache(query: AbiQueryView, content: Option<Seq<char>>) -> (
    LookupStageView,
    LookupActionView,
) {
    match cache_hit(query, content) {
        Some(function) => (LookupStageView::Finished, LookupActionView::Finish(Ok(function))),
        None => (LookupStageView::Fetching, fetch_of(query)),
    }
}

/// What follows the service's answer: a failure ends the lookup; an ABI is
/// written to the cache whole, where there is a cache, before the function
/// with the selector is handed out.
pub open spec fn after_fetch(query: AbiQueryView, reply: Result<ServiceReplyView, ErrorView>) -> (
    LookupStageView,
    LookupActionView,
) {
    match reply {
        Err(e) => (LookupStageView::Finished, LookupActionView::Finish(Err(e))),
        Ok(answer) => match reply_functions(answer) {
            Err(e) => (LookupStageView::Finished, LookupActionView::Finish(Err(e))),
            Ok(functions) => {
                let outcome = selected(functions, query.selector);
                match (query.cache_dir, rendered_functions(signatures_of(functions))) {
                    (Some(dir), Some(content)) => (
                        LookupStageView::Saving(outcome),
                        LookupActionView::WriteCache {
                            path: cache_path_of(dir, query.address),
                            content,
                        },
                    ),
                    _ => (LookupStageView::Finished, LookupActionView::Finish(outcome)),
                }
            },
        },
    }
}

/// The next stage and the action for an event at a stage.
pub open spec fn lookup_step(query: AbiQueryView, stage: LookupStageView, event: LookupEventView) -> (
    LookupStageView,
    LookupActionView,
) {
    match (stage, event) {
        (LookupStageView::Finished, _) => (LookupStageView::Finished, LookupActionView::Idle),
        (_, LookupEventView::Cancel) => (
            LookupStageView::Finished,
            LookupActionView::Finish(Err(ErrorView::Cancelled)),
        ),
        (LookupStageView::Start, LookupEventView::Begin) => at_start(query),
        (LookupStageView::ReadingCache, LookupEventView::CacheRead(content)) => after_cache(
            query,
            content,
        ),
        (LookupStageView::Fetching, LookupEventView::Fetched(reply)) => after_fetch(query, reply),
        (LookupStageView::Saving(outcome), LookupEventView::Saved) => (
            LookupStageView::Finished,
            LookupActionView::Finish(outcome),
        ),
        _ => (stage, LookupActionView::Idle),
    }
}

/// A lookup in progress.
#[derive(Debug, PartialEq, Eq)]
pub struct AbiLookup {
    pub query: AbiQuery,
    pub stage: LookupStage,
}

impl AbiLookup {
    /// A lookup for `query` that has not begun.
    pub fn new(query: AbiQuery) -> (lookup: Self)
        ensures
            lookup.query == query,
            lookup.stage == LookupStage::Start,
    {
        AbiLookup { query, stage: LookupStage::Start }
    }

    /// The request to the ABI service.
    fn fetch(&self) -> (action: LookupAction)
        ensures
            action@ == fetch_of(self.query@),
    {
        let chain = match self.query.chain_id {
            Some(chain) => chain,
            None => DEFAULT_CHAIN,
        };
        LookupAction::Fetch {
            url: abi_url(chain, self.query.address.as_str(), self.query.api_key.as_str()),
        }
    }

    /// Looks for the function in what the cache file held.
    fn look_in_cache(&self, content: Option<String>) -> (r: Option<FunctionDescriptor>)
        ensures
            descriptor_option_view(r) == cache_hit(self.query@, text_option(content)),
    {
        match content {
            Some(text) => match read_cached_abi(text.as_str()) {
                Some(functions) => find_by_selector(&functions, &self.query.selector),
                None => None,
            },
            None => None,
        }
    }

    /// Takes an event and says what is to be done next.
    pub fn step(&mut self, event: LookupEvent) -> (action: LookupAction)
        ensures
            final(self).query == old(self).query,
            (final(self).stage@, action@) == lookup_step(
                old(self).query@,
                old(self).stage@,
                event@,
            ),
    {
        let mut stage = LookupStage::Finished;
        core::mem::swap(&mut self.stage, &mut stage);
        match (stage, event) {
            (LookupStage::Finished, _) => LookupAction::Idle,
            (_, LookupEvent::Cancel) => LookupAction::Finish(Err(DecodeError::Cancelled)),
            (LookupStage::Start, LookupEvent::Begin) => match &self.query.cache_dir {
                Some(dir) => {
                    let path = cache_path(dir.as_str(), self.query.address.as_str());
                    self.stage = LookupStage::ReadingCache;
                    LookupAction::ReadCache { path }
                },
                None => {
                    self.stage = LookupStage::Fetching;
                    self.fetch()
                },
            },
            (LookupStage::ReadingCache, LookupEvent::CacheRead(content)) => {
                match self.look_in_cache(content) {
                    Some(function) => LookupAction::Finish(Ok(function)),
                    None => {
                        self.stage = LookupStage::Fetching;
                        self.fetch()
                    },
                }
            },
            (LookupStage::Fetching, LookupEvent::Fetched(reply)) => match reply {
                Err(e) => LookupAction::Finish(Err(e)),
                Ok(answer) => match read_reply(answer) {
                    Err(e) => LookupAction::Finish(Err(e)),
                    Ok(functions) => {
                        let outcome = select(&functions, &self.query.selector);
                        match (&self.query.cache_dir, render_cached_abi(&functions)) {
                            (Some(dir), Some(content)) => {
                                let path = cache_path(dir.as_str(), self.query.address.as_str());
                                self.stage = LookupStage::Saving(outcome);
                                LookupAction::WriteCache { path, content }
                            },
                            _ => LookupAction::Finish(outcome),
                        }
                    },
                },
            },
            (LookupStage::Saving(outcome), LookupEvent::Saved) => LookupAction::Finish(outcome),
            (stage, _) => {
                self.stage = stage;
                LookupAction::Idle
            },
        }
    }
}

/// A function that is found has the selector that was looked for, and is
/// the first such function; none is found exactly where no function has
/// the selector.
pub proof fn first_match_is_the_first(functions: Seq<DescriptorView>, selector: Seq<u8>)
    ensures
        match first_match(functions, selector) {
            Some(function) => function.selector == selector && exists|i: int|
                0 <= i < functions.len() && #[trigger] functions[i] == function && forall|j: int|
                    0 <= j < i ==> (#[trigger] functions[j]).selector != selector,
            None => forall|j: int|
                0 <= j < functions.len() ==> (#[trigger] functions[j]).selector != selector,
        },
    decreases functions.len(),
{
    if functions.len() > 0 && functions[0].selector != selector {
        let rest = functions.drop_first();
        first_match_is_the_first(rest, selector);
        match first_match(rest, selector) {
            Some(function) => {
                let i = choose|i: int|
                    0 <= i < rest.len() && #[trigger] rest[i] == function && forall|j: int|
                        0 <= j < i ==> (#[trigger] rest[j]).selector != selector;
                assert(functions[i + 1] == rest[i]);
                assert forall|j: int| 0 <= j < i + 1 implies (#[trigger] functions[j]).selector
                    != selector by {
                    if j > 0 {
                        assert(functions[j] == rest[j - 1]);
                    }
                }
            },
            None => {
                assert forall|j: int| 0 <= j < functions.len() implies (
                #[trigger] functions[j]).selector != selector by {
                    if j > 0 {
                        assert(functions[j] == rest[j - 1]);
                    }
                }
            },
        }
    } else if functions.len() > 0 {
        assert(functions[0] == first_match(functions, selector)->0);
    }
}

/// Whether a stage can hold what it holds: an outcome that is kept while
/// the cache is written is a well-formed function with the selector of the
/// query, or a failure.
pub open spec fn stage_fits(query: AbiQueryView, stage: LookupStageView) -> bool {
    stage matches LookupStageView::Saving(Ok(function)) ==> function.selector == query.selector
        && well_formed(function)
}

/// The descriptors of parsed signatures are well-formed.
proof fn described_are_well_formed(parsed: Seq<SignatureView>)
    ensures
        forall|i: int|
            0 <= i < described_all(parsed).len() ==> well_formed(
                #[trigger] described_all(parsed)[i],
            ),
{
}

/// A lookup only ever hands out a well-formed function with the selector
/// that was looked for, and every stage it reaches fits the query.
pub proof fn lookup_keeps_the_selector(
    query: AbiQueryView,
    stage: LookupStageView,
    event: LookupEventView,
)
    requires
        stage_fits(query, stage),
    ensures
        stage_fits(query, lookup_step(query, stage, event).0),
        lookup_step(query, stage, event).1 matches LookupActionView::Finish(Ok(function))
            ==> function.selector == query.selector && well_formed(function),
{
    match (stage, event) {
        (LookupStageView::ReadingCache, LookupEventView::CacheRead(Some(text))) => {
            if let Some(parsed) = crate::cache::cached_functions(text) {
                described_are_well_formed(parsed);
                first_match_is_the_first(described_all(parsed), query.selector);
            }
        },
        (LookupStageView::Fetching, LookupEventView::Fetched(Ok(answer))) => {
            if answer.status == "1"@ {
                if let Ok(parsed) = abi_document(answer.result) {
                    described_are_well_formed(parsed);
                    first_match_is_the_first(described_all(parsed), query.selector);
                }
            }
        },
        _ => {},
    }
}

/// The service is asked after the cache was read exactly where the cache
/// gave no function with the selector: a hit costs no request.
pub proof fn cache_hit_asks_nothing(query: AbiQueryView, content: Option<Seq<char>>)
    ensures
        lookup_step(query, LookupStageView::ReadingCache, LookupEventView::CacheRead(content)).1
            is Fetch <==> cache_hit(query, content) is None,
        cache_hit(query, content) matches Some(function) ==> lookup_step(
            query,
            LookupStageView::ReadingCache,
            LookupEventView::CacheRead(content),
        ) == (LookupStageView::Finished, LookupActionView::Finish(Ok(function))),
{
}

/// A failure to write the cache is never the outcome of a lookup: once the
/// cache is being written, the outcome is the one that the service's answer
/// gave.
pub proof fn saving_changes_no_outcome(
    query: AbiQueryView,
    outcome: Result<DescriptorView, ErrorView>,
)
    ensures
        lookup_step(query, LookupStageView::Saving(outcome), LookupEventView::Saved) == (
            LookupStageView::Finished,
            LookupActionView::Finish(outcome),
        ),
{
}

/// What one lookup writes to the cache serves later lookups for the same
/// contract, however the address is cased: the later lookup reads the file
/// that the earlier one wrote and, where the text reads back as the
/// functions that were written, finds every function of the contract
/// there without asking the service.
pub proof fn cached_abi_serves_later_lookups(
    first: AbiQueryView,
    later: AbiQueryView,
    answer: ServiceReplyView,
    path: Seq<char>,
    content: Seq<char>,
)
    requires
        first.cache_dir is Some,
        later.cache_dir == first.cache_dir,
        vstd::utf8::is_ascii_chars(first.address),
        vstd::utf8::is_ascii_chars(later.address),
        first.address.len() == later.address.len(),
        forall|i: int|
            0 <= i < first.address.len() ==> crate::cache::ascii_lower(first.address[i])
                == crate::cache::ascii_lower(later.address[i]),
        after_fetch(first, Ok(answer)).1 == (LookupActionView::WriteCache { path, content }),
        cache_content(content) == Some(reply_functions(answer)->Ok_0),
    ensures
        at_start(later).1 == (LookupActionView::ReadCache { path }),
        lookup_step(later, LookupStageView::ReadingCache, LookupEventView::CacheRead(Some(content)))
            == match first_match(reply_functions(answer)->Ok_0, later.selector) {
            Some(function) => (LookupStageView::Finished, LookupActionView::Finish(Ok(function))),
            None => (LookupStageView::Fetching, fetch_of(later)),
        },
{
    crate::cache::cache_path_ignores_case(first.cache_dir->0, first.address, later.address);
}

} // verus!

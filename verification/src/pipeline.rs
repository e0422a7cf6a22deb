//! The decoder as a state machine.
//!
//! A decode needs up to two lookups that this crate does not make itself:
//! the candidates that a signature directory lists for the selector, and,
//! where no candidate fits, the verified ABI of the called contract. The
//! machine says which lookup is due; the caller makes it and hands the
//! answer back as an event.

use crate::abi::{well_formed, DescriptorView, FunctionDescriptor};
use crate::decode::{
    first_success, judge, judged, run_trials, DecodeResult, DecodedView, Trial, TrialView,
};
use crate::error::{DecodeError, ErrorView};
use crate::etherscan::DEFAULT_CHAIN;
use crate::ranking::{rank_candidates, ranked};
use crate::signatures::{leading_selector, selector};
use crate::text::{text_option, texts};
use vstd::prelude::*;

verus! {

/// What is to be decoded, and what is known of the call.
#[derive(Debug, PartialEq, Eq)]
pub struct Request {
    /// The calldata: a selector followed by the encoded parameters.
    pub calldata: Vec<u8>,
    /// The address of the called contract, where it is known.
    pub contract_address: Option<String>,
    /// The credential for the ABI service, where there is one.
    pub etherscan_key: Option<String>,
    /// The chain of the contract; the default chain where none is named.
    pub chain: Option<u64>,
}

/// The content of a [`Request`].
pub struct RequestView {
    pub calldata: Seq<u8>,
    pub contract_address: Option<Seq<char>>,
    pub etherscan_key: Option<Seq<char>>,
    pub chain: Option<u64>,
}

impl View for Request {
    type V = RequestView;

    open spec fn view(&self) -> RequestView {
        RequestView {
            calldata: self.calldata@,
            contract_address: text_option(self.contract_address),
            etherscan_key: text_option(self.etherscan_key),
            chain: self.chain,
        }
    }
}

/// How far a decode has come.
#[derive(Debug, Clone, Copy, PartialEq, Eq, Structural)]
pub enum Stage {
    /// Nothing has been done yet.
    Start,
    /// The directory has been asked for candidates.
    AwaitingDirectory,
    /// The ABI service has been asked for the contract's ABI.
    AwaitingAbi,
    /// The result has been handed out.
    Finished,
}

/// What the caller reports to the machine.
#[derive(Debug, PartialEq, Eq)]
pub enum Event {
    /// The decode is to begin.
    Begin,
    /// The directory answered with its candidates, or could not be asked.
    Directory(Result<Vec<String>, DecodeError>),
    /// The ABI service gave the function with the selector, or failed.
    Abi(Result<FunctionDescriptor, DecodeError>),
    /// The lookup in flight was cancelled or timed out.
    Cancel,
}

/// The content of an [`Event`].
pub enum EventView {
    Begin,
    Directory(Result<Seq<Seq<char>>, ErrorView>),
    Abi(Result<DescriptorView, ErrorView>),
    Cancel,
}

impl View for Event {
    type V = EventView;

    open spec fn view(&self) -> EventView {
        match self {
            Event::Begin => EventView::Begin,
            Event::Directory(reply) => EventView::Directory(
                match reply {
                    Ok(candidates) => Ok(texts(candidates@)),
                    Err(e) => Err(e@),
                },
            ),
            Event::Abi(reply) => EventView::Abi(
                match reply {
                    Ok(function) => Ok(function@),
                    Err(e) => Err(e@),
                },
            ),
            Event::Cancel => EventView::Cancel,
        }
    }
}

/// What the machine asks of the caller.
#[derive(Debug, PartialEq, Eq)]
pub enum Action {
    /// Ask the signature directory for the candidates of `selector`, and
    /// report them with [`Event::Directory`].
    QueryDirectory { selector: [u8; 4] },
    /// Ask the ABI service for the function with `selector` in the contract
    /// at `address`, and report it with [`Event::Abi`].
    FetchAbi { address: String, selector: [u8; 4], key: String, chain_id: u64 },
    /// The decode has ended with this result.
    Finish(Result<DecodeResult, DecodeError>),
    /// The event was not waited for; nothing has changed.
    Idle,
}

/// The content of an [`Action`].
pub enum ActionView {
    QueryDirectory { selector: Seq<u8> },
    FetchAbi { address: Seq<char>, selector: Seq<u8>, key: Seq<char>, chain_id: u64 },
    Finish(Result<DecodedView, ErrorView>),
    Idle,
}

impl View for Action {
    type V = ActionView;

    open spec fn view(&self) -> ActionView {
        match self {
            Action::QueryDirectory { selector } => ActionView::QueryDirectory {
                selector: selector@,
            },
            Action::FetchAbi { address, selector, key, chain_id } => ActionView::FetchAbi {
                address: address@,
                selector: selector@,
                key: key@,
                chain_id: *chain_id,
            },
            Action::Finish(result) => ActionView::Finish(
                match result {
                    Ok(decoded) => Ok(decoded@),
                    Err(e) => Err(e@),
                },
            ),
            Action::Idle => ActionView::Idle,
        }
    }
}

/// The chain that a request means.
pub open spec fn chain_of(request: RequestView) -> u64 {
    match request.chain {
        Some(chain) => chain,
        None => DEFAULT_CHAIN,
    }
}

/// Whether the request names both a contract and a credential, so that the
/// contract's verified ABI can be asked for.
pub open spec fn has_fallback(request: RequestView) -> bool {
    request.contract_address is Some && request.etherscan_key is Some
}

/// Where no candidate fits: the ABI service is asked where the request
/// allows it; else the decode ends with `otherwise`.
pub open spec fn or_fallback(request: RequestView, otherwise: ErrorView) -> (Stage, ActionView) {
    if has_fallback(request) {
        (
            Stage::AwaitingAbi,
            ActionView::FetchAbi {
                address: request.contract_address->0,
                selector: leading_selector(request.calldata),
                key: request.etherscan_key->0,
                chain_id: chain_of(request),
            },
        )
    } else {
        (Stage::Finished, ActionView::Finish(Err(otherwise)))
    }
}

/// What follows the directory's answer: the candidates are ranked and
/// tried in turn, and the first decode ends the work. A directory that
/// failed counts as one without candidates, but for the error reported
/// where there is no fallback.
pub open spec fn after_directory(
    request: RequestView,
    reply: Result<Seq<Seq<char>>, ErrorView>,
) -> (Stage, ActionView) {
    match reply {
        Ok(candidates) => match first_success(ranked(candidates), request.calldata) {
            Some(decoded) => (Stage::Finished, ActionView::Finish(Ok(decoded))),
            None => or_fallback(
                request,
                ErrorView::AllCandidatesExhausted {
                    selector: leading_selector(request.calldata),
                    attempted: candidates.len(),
                },
            ),
        },
        Err(e) => or_fallback(request, e),
    }
}

/// What follows the ABI service's answer: one decode against the function
/// it gave, whose outcome is final.
pub open spec fn after_abi(
    request: RequestView,
    reply: Result<DescriptorView, ErrorView>,
) -> Result<DecodedView, ErrorView> {
    match reply {
        Ok(function) => match judged(function, request.calldata) {
            TrialView::Success(decoded) => Ok(decoded),
            TrialView::DecodeError(e) => Err(e),
            _ => Err(
                ErrorView::FunctionNotFound { selector: leading_selector(request.calldata) },
            ),
        },
        Err(e) => Err(e),
    }
}

/// The next stage and the action for an event at a stage.
pub open spec fn step_of(request: RequestView, stage: Stage, event: EventView) -> (
    Stage,
    ActionView,
) {
    match (stage, event) {
        (Stage::Finished, _) => (Stage::Finished, ActionView::Idle),
        (_, EventView::Cancel) => (
            Stage::Finished,
            ActionView::Finish(Err(ErrorView::Cancelled)),
        ),
        (Stage::Start, EventView::Begin) => if request.calldata.len() < 4 {
            (Stage::Finished, ActionView::Finish(Err(ErrorView::MalformedCalldata)))
        } else {
            (
                Stage::AwaitingDirectory,
                ActionView::QueryDirectory { selector: leading_selector(request.calldata) },
            )
        },
        (Stage::AwaitingDirectory, EventView::Directory(reply)) => if request.calldata.len()
            < 4 {
            (Stage::Finished, ActionView::Finish(Err(ErrorView::MalformedCalldata)))
        } else {
            after_directory(request, reply)
        },
        (Stage::AwaitingAbi, EventView::Abi(reply)) => if request.calldata.len() < 4 {
            (Stage::Finished, ActionView::Finish(Err(ErrorView::MalformedCalldata)))
        } else {
            (Stage::Finished, ActionView::Finish(after_abi(request, reply)))
        },
        _ => (stage, ActionView::Idle),
    }
}

/// A decode in progress.
#[derive(Debug, PartialEq, Eq)]
pub struct Decoder {
    pub request: Request,
    pub stage: Stage,
}

impl Decoder {
    /// A decode of `request` that has not begun.
    pub fn new(request: Request) -> (decoder: Self)
        ensures
            decoder.request == request,
            decoder.stage == Stage::Start,
    {
        Decoder { request, stage: Stage::Start }
    }

    /// Asks the ABI service where the request allows it; else ends with
    /// `otherwise`.
    fn fall_back(&mut self, sel: [u8; 4], otherwise: DecodeError) -> (action: Action)
        requires
            sel@ == leading_selector(old(self).request@.calldata),
        ensures
            final(self).request == old(self).request,
            (final(self).stage, action@) == or_fallback(old(self).request@, otherwise@),
    {
        match (&self.request.contract_address, &self.request.etherscan_key) {
            (Some(address), Some(key)) => {
                let chain_id = match self.request.chain {
                    Some(chain) => chain,
                    None => DEFAULT_CHAIN,
                };
                let action = Action::FetchAbi {
                    address: address.clone(),
                    selector: sel,
                    key: key.clone(),
                    chain_id,
                };
                self.stage = Stage::AwaitingAbi;
                action
            },
            _ => {
                self.stage = Stage::Finished;
                Action::Finish(Err(otherwise))
            },
        }
    }

    /// Takes an event and says what is to be done next.
    pub fn step(&mut self, event: Event) -> (action: Action)
        ensures
            final(self).request == old(self).request,
            (final(self).stage, action@) == step_of(old(self).request@, old(self).stage, event@),
            action matches Action::Finish(Ok(decoded)) ==> decoded.aligned(),
    {
        match (self.stage, event) {
            (Stage::Finished, _) => Action::Idle,
            (_, Event::Cancel) => {
                self.stage = Stage::Finished;
                Action::Finish(Err(DecodeError::Cancelled))
            },
            (Stage::Start, Event::Begin) => match selector(self.request.calldata.as_slice()) {
                Ok(sel) => {
                    self.stage = Stage::AwaitingDirectory;
                    Action::QueryDirectory { selector: sel }
                },
                Err(e) => {
                    self.stage = Stage::Finished;
                    Action::Finish(Err(e))
                },
            },
            (Stage::AwaitingDirectory, Event::Directory(reply)) => {
                match selector(self.request.calldata.as_slice()) {
                    Err(e) => {
                        self.stage = Stage::Finished;
                        Action::Finish(Err(e))
                    },
                    Ok(sel) => match reply {
                        Ok(candidates) => {
                            let order = rank_candidates(&candidates);
                            match run_trials(&order, self.request.calldata.as_slice()) {
                                Some(decoded) => {
                                    self.stage = Stage::Finished;
                                    Action::Finish(Ok(decoded))
                                },
                                None => self.fall_back(
                                    sel,
                                    DecodeError::AllCandidatesExhausted {
                                        selector: sel,
                                        attempted: candidates.len(),
                                    },
                                ),
                            }
                        },
                        Err(e) => self.fall_back(sel, e),
                    },
                }
            },
            (Stage::AwaitingAbi, Event::Abi(reply)) => {
                self.stage = Stage::Finished;
                let result = match selector(self.request.calldata.as_slice()) {
                    Err(e) => Err(e),
                    Ok(sel) => match reply {
                        Ok(function) => match judge(function, self.request.calldata.as_slice()) {
                            Trial::Success(decoded) => Ok(decoded),
                            Trial::DecodeError(e) => Err(e),
                            _ => Err(DecodeError::FunctionNotFound { selector: sel }),
                        },
                        Err(e) => Err(e),
                    },
                };
                Action::Finish(result)
            },
            _ => Action::Idle,
        }
    }
}

/// Calldata that is too short to hold a selector is refused at the first
/// step.
pub proof fn short_calldata_is_refused(request: RequestView)
    requires
        request.calldata.len() < 4,
    ensures
        step_of(request, Stage::Start, EventView::Begin) == (
            Stage::Finished,
            ActionView::Finish(Err(ErrorView::MalformedCalldata)),
        ),
{
}

/// For calldata that is too short to hold a selector no lookup is ever
/// asked for, at any stage and whatever is reported.
pub proof fn short_calldata_asks_for_nothing(request: RequestView, stage: Stage, event: EventView)
    requires
        request.calldata.len() < 4,
    ensures
        !(step_of(request, stage, event).1 is QueryDirectory),
        !(step_of(request, stage, event).1 is FetchAbi),
{
}

/// The ABI service is only ever asked where the request names both a
/// contract and a credential.
pub proof fn abi_is_asked_only_with_fallback(request: RequestView, stage: Stage, event: EventView)
    requires
        !has_fallback(request),
    ensures
        !(step_of(request, stage, event).1 is FetchAbi),
{
}

/// None of the candidates that a ranked list holds is new.
proof fn ranked_holds_candidates(candidates: Seq<Seq<char>>, i: int)
    requires
        0 <= i < ranked(candidates).len(),
    ensures
        candidates.contains(ranked(candidates)[i]),
{
    crate::ranking::ranking_is_a_reordering(candidates);
    let order = ranked(candidates);
    assert(order.contains(order[i]));
    vstd::seq_lib::to_multiset_contains(order, order[i]);
    vstd::seq_lib::to_multiset_contains(candidates, order[i]);
}

/// Where every candidate of the directory fails to parse or to decode, and
/// the request names no contract or no credential, the decode ends with
/// `AllCandidatesExhausted` and the number of candidates.
pub proof fn exhausted_without_fallback(request: RequestView, candidates: Seq<Seq<char>>)
    requires
        request.calldata.len() >= 4,
        !has_fallback(request),
        forall|i: int|
            0 <= i < candidates.len() ==> !(crate::decode::trial_of(
                #[trigger] candidates[i],
                request.calldata,
            ) is Success),
    ensures
        step_of(request, Stage::AwaitingDirectory, EventView::Directory(Ok(candidates))) == (
            Stage::Finished,
            ActionView::Finish(
                Err(
                    ErrorView::AllCandidatesExhausted {
                        selector: leading_selector(request.calldata),
                        attempted: candidates.len(),
                    },
                ),
            ),
        ),
{
    let order = ranked(candidates);
    crate::decode::first_success_is_the_first(order, request.calldata);
    if first_success(order, request.calldata) is Some {
        let i = choose|i: int|
            0 <= i < order.len() && crate::decode::trial_of(#[trigger] order[i], request.calldata)
                is Success;
        ranked_holds_candidates(candidates, i);
        let j = choose|j: int| 0 <= j < candidates.len() && candidates[j] == order[i];
        assert(!(crate::decode::trial_of(candidates[j], request.calldata) is Success));
    }
}

/// A directory without candidates and a directory that failed lead the same
/// way: to the ABI service where the request allows it, and else to the end
/// of the decode.
pub proof fn empty_directory_counts_as_failed(request: RequestView, failure: ErrorView)
    ensures
        after_directory(request, Ok(Seq::empty())).0 == after_directory(request, Err(failure)).0,
        has_fallback(request) ==> after_directory(request, Ok(Seq::empty())) == after_directory(
            request,
            Err(failure),
        ),
{
    reveal(Seq::filter);
    let none = Seq::<Seq<char>>::empty();
    assert(ranked(none) =~= none);
}

/// A decode is only ever handed out for a function whose selector is the
/// one that the calldata starts with. Where the ABI service gave a
/// well-formed function, the function handed out is well-formed too: the
/// calldata starts with the hash of its signature.
pub proof fn result_has_the_selector(request: RequestView, stage: Stage, event: EventView)
    requires
        event matches EventView::Abi(Ok(function)) ==> well_formed(function),
    ensures
        step_of(request, stage, event).1 matches ActionView::Finish(Ok(decoded))
            ==> request.calldata.len() >= 4 && decoded.function.selector == leading_selector(
            request.calldata,
        ) && well_formed(decoded.function),
{
    match (stage, event) {
        (Stage::AwaitingDirectory, EventView::Directory(Ok(candidates))) => {
            crate::decode::success_has_the_selector(ranked(candidates), request.calldata);
        },
        _ => {},
    }
}

/// Candidates with a well-known name win over the others: where one of
/// them decodes, the result is the decode of the first of them in the
/// directory's order, whatever the directory lists before it. The others
/// are tried, in the directory's order, only where none of them decodes.
pub proof fn common_candidates_win(candidates: Seq<Seq<char>>, calldata: Seq<u8>)
    ensures
        first_success(ranked(candidates), calldata) == match first_success(
            candidates.filter(crate::ranking::common()),
            calldata,
        ) {
            Some(decoded) => Some(decoded),
            None => first_success(candidates.filter(crate::ranking::uncommon()), calldata),
        },
{
    crate::decode::first_success_of_two(
        candidates.filter(crate::ranking::common()),
        candidates.filter(crate::ranking::uncommon()),
        calldata,
    );
}

/// Decoding is repeatable: what a step gives is fixed by the request, the
/// stage and the event, so the same calldata with the same answers of the
/// directory and the ABI service decodes to the same result.
pub proof fn decoding_is_repeatable(
    request: RequestView,
    stage: Stage,
    event: EventView,
    first: (Stage, ActionView),
    second: (Stage, ActionView),
)
    requires
        first == step_of(request, stage, event),
        second == step_of(request, stage, event),
    ensures
        first == second,
{
}

} // verus!

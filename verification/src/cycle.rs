//! One update cycle: verify the credential, the zone and the record, read
//! the record, find the public address, and write where the two differ.
//!
//! The cycle sends nothing itself. Each step names the request to send next
//! and takes the reply to the request named before.

use crate::cloudflare::{
    content_read, read_request, record_url, records_listed, records_url, records_view, token_url,
    verified, write_request, written, zone_url, Cloudflare, ProviderError, ProviderErrorView,
    RecordInfo, RecordInfoView,
};
use crate::config::ConfigView;
use crate::http::{HttpReply, HttpReplyView, HttpRequest, HttpRequestView, Method};
use crate::ip::{
    ask_source, begin_lookup, fetch_public_ip, lookup_step, Lookup, LookupStep, LookupStepView,
};
use vstd::prelude::*;
use vstd::string::*;

verus! {

/// Why a cycle failed.
#[derive(Debug, PartialEq, Eq)]
pub enum CycleError {
    /// The provider does not accept the credential.
    CredentialInvalid,
    /// The zone cannot be reached under the credential.
    ZoneInvalid,
    /// The record does not exist in the zone. `listing` holds the records
    /// that the zone does have, or why they could not be listed.
    RecordInvalid { listing: Result<Vec<RecordInfo>, ProviderError> },
    /// A call that reads from the provider gave no result.
    ProviderReadFailed { error: ProviderError },
    /// No echo service gave an address.
    ResolverUnavailable,
    /// The provider did not take the new address.
    WriteFailed { error: ProviderError },
}

pub enum CycleErrorView {
    CredentialInvalid,
    ZoneInvalid,
    RecordInvalid { listing: Result<Seq<RecordInfoView>, ProviderErrorView> },
    ProviderReadFailed { error: ProviderErrorView },
    ResolverUnavailable,
    WriteFailed { error: ProviderErrorView },
}

/// A listing, or the reason why there is none, by its view.
pub open spec fn listing_view(listing: Result<Vec<RecordInfo>, ProviderError>) -> Result<
    Seq<RecordInfoView>,
    ProviderErrorView,
> {
    match listing {
        Ok(records) => Ok(records_view(records@)),
        Err(error) => Err(error@),
    }
}

impl View for CycleError {
    type V = CycleErrorView;

    open spec fn view(&self) -> CycleErrorView {
        match self {
            CycleError::CredentialInvalid => CycleErrorView::CredentialInvalid,
            CycleError::ZoneInvalid => CycleErrorView::ZoneInvalid,
            CycleError::RecordInvalid { listing } => CycleErrorView::RecordInvalid {
                listing: listing_view(*listing),
            },
            CycleError::ProviderReadFailed { error } => CycleErrorView::ProviderReadFailed {
                error: error@,
            },
            CycleError::ResolverUnavailable => CycleErrorView::ResolverUnavailable,
            CycleError::WriteFailed { error } => CycleErrorView::WriteFailed { error: error@ },
        }
    }
}

impl CycleError {
    /// The sentence that reports this error.
    pub open spec fn message_text(self) -> Seq<char> {
        match self {
            CycleError::CredentialInvalid => "API token is invalid"@,
            CycleError::ZoneInvalid => "Zone ID is invalid"@,
            CycleError::RecordInvalid { listing } => "Record ID is invalid"@,
            CycleError::ProviderReadFailed { error } => error.message_text(),
            CycleError::ResolverUnavailable => "No valid public IP address could be determined"@,
            CycleError::WriteFailed { error } => error.message_text(),
        }
    }

    /// The sentence that reports this error.
    pub fn message(&self) -> (r: String)
        ensures
            r@ == self.message_text(),
    {
        match self {
            CycleError::CredentialInvalid => String::from_str("API token is invalid"),
            CycleError::ZoneInvalid => String::from_str("Zone ID is invalid"),
            CycleError::RecordInvalid { listing } => String::from_str("Record ID is invalid"),
            CycleError::ProviderReadFailed { error } => error.message(),
            CycleError::ResolverUnavailable => String::from_str(
                "No valid public IP address could be determined",
            ),
            CycleError::WriteFailed { error } => error.message(),
        }
    }
}

/// How a cycle ended.
#[derive(Debug, PartialEq, Eq)]
pub enum CycleOutcome {
    /// The record already holds the public address.
    NoChangeNeeded,
    /// The record held `from` and now holds `to`.
    Updated { from: String, to: String },
    Failed { error: CycleError },
}

pub enum CycleOutcomeView {
    NoChangeNeeded,
    Updated { from: Seq<char>, to: Seq<char> },
    Failed { error: CycleErrorView },
}

impl View for CycleOutcome {
    type V = CycleOutcomeView;

    open spec fn view(&self) -> CycleOutcomeView {
        match self {
            CycleOutcome::NoChangeNeeded => CycleOutcomeView::NoChangeNeeded,
            CycleOutcome::Updated { from, to } => CycleOutcomeView::Updated { from: from@, to: to@ },
            CycleOutcome::Failed { error } => CycleOutcomeView::Failed { error: error@ },
        }
    }
}

impl CycleOutcome {
    /// Whether the cycle failed.
    pub fn is_failure(&self) -> (r: bool)
        ensures
            r == (self@ is Failed),
    {
        match self {
            CycleOutcome::Failed { error } => true,
            _ => false,
        }
    }
}

/// The verification whose reply is awaited.
#[derive(Debug, Clone, Copy, PartialEq, Eq, Structural)]
pub enum Check {
    Token,
    Zone,
    Record,
    /// The record is known to be missing; the zone's records are being
    /// listed for the operator.
    Listing,
}

/// What the verifications do next.
#[derive(Debug, PartialEq, Eq)]
pub enum CheckStep {
    /// Send `request` and come back with its reply and `state`.
    Ask { state: Check, request: HttpRequest },
    /// Credential, zone and record are in order.
    Passed,
    Failed { error: CycleError },
}

pub enum CheckStepView {
    Ask { state: Check, request: HttpRequestView },
    Passed,
    Failed { error: CycleErrorView },
}

impl View for CheckStep {
    type V = CheckStepView;

    open spec fn view(&self) -> CheckStepView {
        match self {
            CheckStep::Ask { state, request } => CheckStepView::Ask {
                state: *state,
                request: request@,
            },
            CheckStep::Passed => CheckStepView::Passed,
            CheckStep::Failed { error } => CheckStepView::Failed { error: error@ },
        }
    }
}

/// The request whose reply the verification `state` awaits.
pub open spec fn check_request(config: ConfigView, state: Check) -> HttpRequestView {
    match state {
        Check::Token => read_request(config, token_url()),
        Check::Zone => read_request(config, zone_url(config)),
        Check::Record => read_request(config, record_url(config)),
        Check::Listing => read_request(config, records_url(config)),
    }
}

/// Asking for the verification `state`.
pub open spec fn ask_check(config: ConfigView, state: Check) -> CheckStepView {
    CheckStepView::Ask { state, request: check_request(config, state) }
}

/// One step of the verifications, in the order credential, zone, record. A
/// call without a result, or a negative answer, ends them at once, with one
/// exception: when the record is missing, the records of the zone are
/// listed first, and the failure carries the listing, or the reason why
/// there is none. Whatever the listing gives, the failure is that of the
/// missing record.
pub open spec fn check_step(config: ConfigView, state: Check, reply: HttpReplyView) -> CheckStepView {
    match state {
        Check::Token => match verified(reply) {
            Err(error) => CheckStepView::Failed {
                error: CycleErrorView::ProviderReadFailed { error },
            },
            Ok(false) => CheckStepView::Failed { error: CycleErrorView::CredentialInvalid },
            Ok(true) => ask_check(config, Check::Zone),
        },
        Check::Zone => match verified(reply) {
            Err(error) => CheckStepView::Failed {
                error: CycleErrorView::ProviderReadFailed { error },
            },
            Ok(false) => CheckStepView::Failed { error: CycleErrorView::ZoneInvalid },
            Ok(true) => ask_check(config, Check::Record),
        },
        Check::Record => match verified(reply) {
            Err(error) => CheckStepView::Failed {
                error: CycleErrorView::ProviderReadFailed { error },
            },
            Ok(false) => ask_check(config, Check::Listing),
            Ok(true) => CheckStepView::Passed,
        },
        Check::Listing => CheckStepView::Failed {
            error: CycleErrorView::RecordInvalid { listing: records_listed(reply) },
        },
    }
}

fn ask_for(cf: &Cloudflare, state: Check) -> (r: CheckStep)
    ensures
        r@ == ask_check(cf@, state),
{
    let request = match state {
        Check::Token => cf.token_request(),
        Check::Zone => cf.zone_request(),
        Check::Record => cf.record_request(),
        Check::Listing => cf.listing_request(),
    };
    CheckStep::Ask { state, request }
}

/// Begins the verifications with that of the credential.
pub fn begin_checks(cf: &Cloudflare) -> (r: CheckStep)
    ensures
        r@ == ask_check(cf@, Check::Token),
{
    ask_for(cf, Check::Token)
}

/// Continues the verifications with the reply to the request they asked
/// for last.
pub fn check_all_info(cf: &Cloudflare, state: Check, reply: &HttpReply) -> (r: CheckStep)
    ensures
        r@ == check_step(cf@, state, reply@),
{
    match state {
        Check::Token => match cf.api_token_right(reply) {
            Err(error) => CheckStep::Failed { error: CycleError::ProviderReadFailed { error } },
            Ok(false) => CheckStep::Failed { error: CycleError::CredentialInvalid },
            Ok(true) => ask_for(cf, Check::Zone),
        },
        Check::Zone => match cf.zone_id_right(reply) {
            Err(error) => CheckStep::Failed { error: CycleError::ProviderReadFailed { error } },
            Ok(false) => CheckStep::Failed { error: CycleError::ZoneInvalid },
            Ok(true) => ask_for(cf, Check::Record),
        },
        Check::Record => match cf.record_id_right(reply) {
            Err(error) => CheckStep::Failed { error: CycleError::ProviderReadFailed { error } },
            Ok(false) => ask_for(cf, Check::Listing),
            Ok(true) => CheckStep::Passed,
        },
        Check::Listing => {
            let listing = cf.list_records(reply);
            CheckStep::Failed { error: CycleError::RecordInvalid { listing } }
        },
    }
}

/// Where a cycle stands: the reply that it awaits, and what it has learnt.
#[derive(Debug, Clone, PartialEq, Eq)]
pub enum Cycle {
    /// Credential, zone and record are being verified.
    Checking { check: Check },
    /// The record is being read.
    Reading,
    /// The record holds `current`; the public address is being looked up.
    Resolving { current: String, lookup: Lookup },
    /// The record is being overwritten: it held `from` and is to hold `to`.
    Writing { from: String, to: String },
}

pub enum CycleView {
    Checking { check: Check },
    Reading,
    Resolving { current: Seq<char>, lookup: Lookup },
    Writing { from: Seq<char>, to: Seq<char> },
}

impl View for Cycle {
    type V = CycleView;

    open spec fn view(&self) -> CycleView {
        match self {
            Cycle::Checking { check } => CycleView::Checking { check: *check },
            Cycle::Reading => CycleView::Reading,
            Cycle::Resolving { current, lookup } => CycleView::Resolving {
                current: current@,
                lookup: *lookup,
            },
            Cycle::Writing { from, to } => CycleView::Writing { from: from@, to: to@ },
        }
    }
}

/// What a cycle does next.
#[derive(Debug, PartialEq, Eq)]
pub enum CycleStep {
    /// Send `request` and come back with its reply and `state`.
    Ask { state: Cycle, request: HttpRequest },
    /// The cycle has ended.
    Done { outcome: CycleOutcome },
}

pub enum CycleStepView {
    Ask { state: CycleView, request: HttpRequestView },
    Done { outcome: CycleOutcomeView },
}

impl View for CycleStep {
    type V = CycleStepView;

    open spec fn view(&self) -> CycleStepView {
        match self {
            CycleStep::Ask { state, request } => CycleStepView::Ask {
                state: state@,
                request: request@,
            },
            CycleStep::Done { outcome } => CycleStepView::Done { outcome: outcome@ },
        }
    }
}

/// A cycle that failed with `error`.
pub open spec fn failed(error: CycleErrorView) -> CycleStepView {
    CycleStepView::Done { outcome: CycleOutcomeView::Failed { error } }
}

/// The cycle after a step of its verifications: they go on, or fail the
/// cycle, or make way for reading the record.
pub open spec fn after_check(config: ConfigView, step: CheckStepView) -> CycleStepView {
    match step {
        CheckStepView::Ask { state, request } => CycleStepView::Ask {
            state: CycleView::Checking { check: state },
            request,
        },
        CheckStepView::Failed { error } => failed(error),
        CheckStepView::Passed => CycleStepView::Ask {
            state: CycleView::Reading,
            request: read_request(config, record_url(config)),
        },
    }
}

/// The comparison at the heart of a cycle. Where the record already holds
/// the public address, the two being the same text, nothing is written.
/// Otherwise the record is overwritten with the public address.
pub open spec fn compare(config: ConfigView, current: Seq<char>, public: Seq<char>) -> CycleStepView {
    if current == public {
        CycleStepView::Done { outcome: CycleOutcomeView::NoChangeNeeded }
    } else {
        CycleStepView::Ask {
            state: CycleView::Writing { from: current, to: public },
            request: write_request(config, public),
        }
    }
}

/// The cycle after a step of its lookup: the lookup goes on, or fails the
/// cycle, or gives the address to compare the record with.
pub open spec fn after_lookup(
    config: ConfigView,
    current: Seq<char>,
    step: LookupStepView,
) -> CycleStepView {
    match step {
        LookupStepView::Ask { state, request } => CycleStepView::Ask {
            state: CycleView::Resolving { current, lookup: state },
            request,
        },
        LookupStepView::Resolved { ip } => compare(config, current, ip),
        LookupStepView::Unavailable => failed(CycleErrorView::ResolverUnavailable),
    }
}

/// The step that asks for the verification `state`.
pub open spec fn ask_step(config: ConfigView, state: Check) -> CycleStepView {
    after_check(config, ask_check(config, state))
}

/// How a cycle begins: with the first verification.
pub open spec fn cycle_begin(config: ConfigView) -> CycleStepView {
    ask_step(config, Check::Token)
}

/// One step of a cycle. The first failure ends the cycle; nothing is tried
/// again.
pub open spec fn cycle_step(config: ConfigView, state: CycleView, reply: HttpReplyView) -> CycleStepView {
    match state {
        CycleView::Checking { check } => after_check(config, check_step(config, check, reply)),
        CycleView::Reading => match content_read(reply) {
            Err(error) => failed(CycleErrorView::ProviderReadFailed { error }),
            Ok(current) => after_lookup(config, current, ask_source(0)),
        },
        CycleView::Resolving { current, lookup } => after_lookup(
            config,
            current,
            lookup_step(lookup, reply),
        ),
        CycleView::Writing { from, to } => match written(reply) {
            Ok(done) => CycleStepView::Done { outcome: CycleOutcomeView::Updated { from, to } },
            Err(error) => failed(CycleErrorView::WriteFailed { error }),
        },
    }
}

fn failure(error: CycleError) -> (r: CycleStep)
    ensures
        r@ == failed(error@),
{
    CycleStep::Done { outcome: CycleOutcome::Failed { error } }
}

fn checked(cf: &Cloudflare, step: CheckStep) -> (r: CycleStep)
    ensures
        r@ == after_check(cf@, step@),
{
    match step {
        CheckStep::Ask { state, request } => CycleStep::Ask {
            state: Cycle::Checking { check: state },
            request,
        },
        CheckStep::Failed { error } => failure(error),
        CheckStep::Passed => CycleStep::Ask { state: Cycle::Reading, request: cf.record_request() },
    }
}

/// Decides, once the record's content and the public address are known,
/// whether the record is to be written.
pub fn decide(cf: &Cloudflare, current: String, public: String) -> (r: CycleStep)
    ensures
        r@ == compare(cf@, current@, public@),
{
    if current == public {
        CycleStep::Done { outcome: CycleOutcome::NoChangeNeeded }
    } else {
        let request = cf.update_request(public.as_str());
        CycleStep::Ask { state: Cycle::Writing { from: current, to: public }, request }
    }
}

fn looked_up(cf: &Cloudflare, current: String, step: LookupStep) -> (r: CycleStep)
    ensures
        r@ == after_lookup(cf@, current@, step@),
{
    match step {
        LookupStep::Ask { state, request } => CycleStep::Ask {
            state: Cycle::Resolving { current, lookup: state },
            request,
        },
        LookupStep::Resolved { ip } => decide(cf, current, ip),
        LookupStep::Unavailable => failure(CycleError::ResolverUnavailable),
    }
}

/// Begins a cycle.
pub fn begin_update(cf: &Cloudflare) -> (r: CycleStep)
    ensures
        r@ == cycle_begin(cf@),
{
    checked(cf, begin_checks(cf))
}

/// Continues a cycle with the reply to the request it asked for last.
pub fn update(cf: &Cloudflare, state: Cycle, reply: &HttpReply) -> (r: CycleStep)
    ensures
        r@ == cycle_step(cf@, state@, reply@),
{
    match state {
        Cycle::Checking { check } => checked(cf, check_all_info(cf, check, reply)),
        Cycle::Reading => match cf.current_ip(reply) {
            Err(error) => failure(CycleError::ProviderReadFailed { error }),
            Ok(current) => looked_up(cf, current, begin_lookup()),
        },
        Cycle::Resolving { current, lookup } => looked_up(
            cf,
            current,
            fetch_public_ip(lookup, reply),
        ),
        Cycle::Writing { from, to } => match cf.update_ip(reply) {
            Ok(done) => CycleStep::Done { outcome: CycleOutcome::Updated { from, to } },
            Err(error) => failure(CycleError::WriteFailed { error }),
        },
    }
}

/// Where a cycle stands after the replies `replies`, handed to it one by
/// one from `step` on. Replies that come after its end change nothing.
pub open spec fn cycle_run(
    config: ConfigView,
    step: CycleStepView,
    replies: Seq<HttpReplyView>,
) -> CycleStepView
    decreases replies.len(),
{
    match step {
        CycleStepView::Ask { state, request } => if replies.len() == 0 {
            step
        } else {
            cycle_run(config, cycle_step(config, state, replies[0]), replies.drop_first())
        },
        CycleStepView::Done { outcome } => step,
    }
}

/// The request that a step asks for, if it asks for one.
pub open spec fn asked_in(step: CycleStepView) -> Seq<HttpRequestView> {
    match step {
        CycleStepView::Ask { state, request } => seq![request],
        CycleStepView::Done { outcome } => Seq::empty(),
    }
}

/// The requests that a cycle asks for, in order, while the replies
/// `replies` are handed to it from `step` on. The request of `step` itself
/// is not among them.
pub open spec fn cycle_asked(
    config: ConfigView,
    step: CycleStepView,
    replies: Seq<HttpReplyView>,
) -> Seq<HttpRequestView>
    decreases replies.len(),
{
    match step {
        CycleStepView::Ask { state, request } => if replies.len() == 0 {
            Seq::empty()
        } else {
            let next = cycle_step(config, state, replies[0]);
            asked_in(next) + cycle_asked(config, next, replies.drop_first())
        },
        CycleStepView::Done { outcome } => Seq::empty(),
    }
}

/// Every request of a cycle that is handed the replies `replies`.
pub open spec fn cycle_requests(config: ConfigView, replies: Seq<HttpReplyView>) -> Seq<
    HttpRequestView,
> {
    asked_in(cycle_begin(config)) + cycle_asked(config, cycle_begin(config), replies)
}

/// The address that a request writes, if it writes one.
pub open spec fn written_by(request: HttpRequestView) -> Seq<Seq<char>> {
    match request.body {
        Some(update) => if request.method == Method::Put {
            seq![update.content]
        } else {
            Seq::empty()
        },
        None => Seq::empty(),
    }
}

/// The addresses that the requests `requests` write, in order.
pub open spec fn written_addresses(requests: Seq<HttpRequestView>) -> Seq<Seq<char>>
    decreases requests.len(),
{
    if requests.len() == 0 {
        Seq::empty()
    } else {
        written_by(requests[0]) + written_addresses(requests.drop_first())
    }
}

proof fn lemma_written_addresses_add(front: Seq<HttpRequestView>, back: Seq<HttpRequestView>)
    ensures
        written_addresses(front + back) == written_addresses(front) + written_addresses(back),
    decreases front.len(),
{
    if front.len() == 0 {
        assert(front + back =~= back);
        assert(written_addresses(front) + written_addresses(back) =~= written_addresses(back));
    } else {
        lemma_written_addresses_add(front.drop_first(), back);
        assert((front + back).drop_first() =~= front.drop_first() + back);
        assert(written_by(front[0]) + (written_addresses(front.drop_first()) + written_addresses(
            back,
        )) =~= (written_by(front[0]) + written_addresses(front.drop_first()))
            + written_addresses(back));
    }
}

proof fn lemma_written_addresses_one(request: HttpRequestView)
    ensures
        written_addresses(seq![request]) == written_by(request),
{
    let one = seq![request];
    assert(one.drop_first() =~= Seq::<HttpRequestView>::empty());
    assert(written_by(request) + written_addresses(one.drop_first()) =~= written_by(request));
}

/// Handing a cycle the replies in two parts is handing them over at once.
pub proof fn lemma_cycle_run_split(
    config: ConfigView,
    step: CycleStepView,
    replies: Seq<HttpReplyView>,
    k: int,
)
    requires
        0 <= k <= replies.len(),
    ensures
        cycle_run(config, step, replies) == cycle_run(
            config,
            cycle_run(config, step, replies.take(k)),
            replies.skip(k),
        ),
        cycle_asked(config, step, replies) == cycle_asked(config, step, replies.take(k))
            + cycle_asked(config, cycle_run(config, step, replies.take(k)), replies.skip(k)),
    decreases k,
{
    let front = replies.take(k);
    let back = replies.skip(k);
    if k == 0 {
        assert(back =~= replies);
        assert(cycle_run(config, step, front) == step);
        assert(cycle_asked(config, step, front) =~= Seq::<HttpRequestView>::empty());
        assert(Seq::<HttpRequestView>::empty() + cycle_asked(config, step, replies)
            =~= cycle_asked(config, step, replies));
    } else {
        match step {
            CycleStepView::Ask { state, request } => {
                let next = cycle_step(config, state, replies[0]);
                let rest = replies.drop_first();
                lemma_cycle_run_split(config, next, rest, k - 1);
                assert(rest.take(k - 1) =~= front.drop_first());
                assert(rest.skip(k - 1) =~= back);
                assert(front[0] == replies[0]);
                let mid = cycle_run(config, next, rest.take(k - 1));
                assert(asked_in(next) + (cycle_asked(config, next, rest.take(k - 1)) + cycle_asked(
                    config,
                    mid,
                    back,
                )) =~= (asked_in(next) + cycle_asked(config, next, rest.take(k - 1)))
                    + cycle_asked(config, mid, back));
            },
            CycleStepView::Done { outcome } => {
                assert(cycle_run(config, step, front) == step);
                assert(cycle_asked(config, step, replies) =~= cycle_asked(config, step, front)
                    + cycle_asked(config, step, back));
            },
        }
    }
}

/// A step that awaits anything but the reply to a write asks for nothing that
/// writes.
proof fn lemma_reading_step(config: ConfigView, state: CycleView, reply: HttpReplyView)
    ensures
        cycle_step(config, state, reply) matches CycleStepView::Ask { state: next, request }
            ==> (state !is Writing) && (next !is Writing ==> written_by(request)
            == Seq::<Seq<char>>::empty()),
{
}

/// Before a cycle has compared the two addresses it has written nothing.
proof fn lemma_nothing_written_before(
    config: ConfigView,
    step: CycleStepView,
    replies: Seq<HttpReplyView>,
)
    requires
        cycle_run(config, step, replies) matches CycleStepView::Ask { state, request }
            && state !is Writing,
    ensures
        written_addresses(cycle_asked(config, step, replies)) == Seq::<Seq<char>>::empty(),
    decreases replies.len(),
{
    if replies.len() > 0 {
        match step {
            CycleStepView::Ask { state, request } => {
                let next = cycle_step(config, state, replies[0]);
                let rest = replies.drop_first();
                lemma_reading_step(config, state, replies[0]);
                match next {
                    CycleStepView::Ask { state: after, request: asked } => {
                        if after is Writing {
                            if rest.len() > 0 {
                                let last = cycle_step(config, after, rest[0]);
                                assert(cycle_run(config, last, rest.drop_first()) == last);
                            }
                        } else {
                            lemma_nothing_written_before(config, next, rest);
                            lemma_written_addresses_one(asked);
                            lemma_written_addresses_add(
                                asked_in(next),
                                cycle_asked(config, next, rest),
                            );
                        }
                    },
                    CycleStepView::Done { outcome } => {},
                }
            },
            CycleStepView::Done { outcome } => {},
        }
    }
}

/// What a cycle does from the moment it learns the public address: where
/// the record holds that very address, the cycle ends and nothing more is
/// asked for; otherwise exactly one more request is asked for, the write of
/// the public address.
proof fn lemma_asked_after_lookup(
    config: ConfigView,
    current: Seq<char>,
    lookup: Lookup,
    request: HttpRequestView,
    ip: Seq<char>,
    replies: Seq<HttpReplyView>,
)
    requires
        replies.len() > 0,
        lookup_step(lookup, replies[0]) == (LookupStepView::Resolved { ip }),
    ensures
        ({
            let step = CycleStepView::Ask {
                state: CycleView::Resolving { current, lookup },
                request,
            };
            &&& ip == current ==> cycle_asked(config, step, replies)
                == Seq::<HttpRequestView>::empty() && cycle_run(config, step, replies) == (
            CycleStepView::Done { outcome: CycleOutcomeView::NoChangeNeeded })
            &&& ip != current ==> cycle_asked(config, step, replies) == seq![
                write_request(config, ip),
            ]
        }),
{
    let step = CycleStepView::Ask { state: CycleView::Resolving { current, lookup }, request };
    let next = cycle_step(config, CycleView::Resolving { current, lookup }, replies[0]);
    let rest = replies.drop_first();
    assert(next == compare(config, current, ip));
    if ip == current {
        assert(cycle_asked(config, next, rest) =~= Seq::<HttpRequestView>::empty());
        assert(cycle_asked(config, step, replies) =~= Seq::<HttpRequestView>::empty());
        assert(cycle_run(config, next, rest) == next);
    } else {
        if rest.len() > 0 {
            let last = cycle_step(config, CycleView::Writing { from: current, to: ip }, rest[0]);
            assert(cycle_asked(config, last, rest.drop_first())
                =~= Seq::<HttpRequestView>::empty());
        }
        assert(cycle_asked(config, next, rest) =~= Seq::<HttpRequestView>::empty());
        assert(cycle_asked(config, step, replies) =~= seq![write_request(config, ip)]);
    }
}

/// A cycle that finds the record holding the public address writes
/// nothing, from its first request to its last, and ends with no change
/// needed. `k` replies bring the cycle to the lookup, the record holding
/// `current`; the next reply gives the public address, and it is `current`.
pub proof fn lemma_unchanged_address_is_never_written(
    config: ConfigView,
    replies: Seq<HttpReplyView>,
    k: int,
    current: Seq<char>,
    lookup: Lookup,
)
    requires
        0 <= k < replies.len(),
        cycle_run(config, cycle_begin(config), replies.take(k)) matches CycleStepView::Ask {
            state,
            request,
        } && state == (CycleView::Resolving { current, lookup }),
        lookup_step(lookup, replies[k]) == (LookupStepView::Resolved { ip: current }),
    ensures
        written_addresses(cycle_requests(config, replies)) == Seq::<Seq<char>>::empty(),
        cycle_run(config, cycle_begin(config), replies) == (CycleStepView::Done {
            outcome: CycleOutcomeView::NoChangeNeeded,
        }),
{
    lemma_written_at_comparison(config, replies, k, current, lookup, current);
}

/// A cycle that finds the record holding another address than the public
/// one writes exactly once, from its first request to its last, and what it
/// writes is the public address. `k` replies bring the cycle to the lookup,
/// the record holding `current`; the next reply gives the public address
/// `ip`, and it is not `current`.
pub proof fn lemma_changed_address_is_written_once(
    config: ConfigView,
    replies: Seq<HttpReplyView>,
    k: int,
    current: Seq<char>,
    lookup: Lookup,
    ip: Seq<char>,
)
    requires
        0 <= k < replies.len(),
        cycle_run(config, cycle_begin(config), replies.take(k)) matches CycleStepView::Ask {
            state,
            request,
        } && state == (CycleView::Resolving { current, lookup }),
        lookup_step(lookup, replies[k]) == (LookupStepView::Resolved { ip }),
        ip != current,
    ensures
        written_addresses(cycle_requests(config, replies)) == seq![ip],
{
    lemma_written_at_comparison(config, replies, k, current, lookup, ip);
}

proof fn lemma_written_at_comparison(
    config: ConfigView,
    replies: Seq<HttpReplyView>,
    k: int,
    current: Seq<char>,
    lookup: Lookup,
    ip: Seq<char>,
)
    requires
        0 <= k < replies.len(),
        cycle_run(config, cycle_begin(config), replies.take(k)) matches CycleStepView::Ask {
            state,
            request,
        } && state == (CycleView::Resolving { current, lookup }),
        lookup_step(lookup, replies[k]) == (LookupStepView::Resolved { ip }),
    ensures
        ip == current ==> written_addresses(cycle_requests(config, replies)) == Seq::<
            Seq<char>,
        >::empty() && cycle_run(config, cycle_begin(config), replies) == (CycleStepView::Done {
            outcome: CycleOutcomeView::NoChangeNeeded,
        }),
        ip != current ==> written_addresses(cycle_requests(config, replies)) == seq![ip],
{
    let begin = cycle_begin(config);
    let front = replies.take(k);
    let back = replies.skip(k);
    let mid = cycle_run(config, begin, front);
    let before = cycle_asked(config, begin, front);
    let after = cycle_asked(config, mid, back);
    lemma_cycle_run_split(config, begin, replies, k);
    lemma_nothing_written_before(config, begin, front);
    assert(back[0] == replies[k]);
    lemma_asked_after_lookup(config, current, lookup, mid->request, ip, back);
    lemma_written_addresses_one(asked_in(begin)[0]);
    lemma_written_addresses_add(asked_in(begin), before + after);
    lemma_written_addresses_add(before, after);
    assert(cycle_requests(config, replies) == asked_in(begin) + (before + after));
    if ip == current {
        assert(written_addresses(after) =~= Seq::<Seq<char>>::empty());
        assert(written_addresses(cycle_requests(config, replies)) =~= Seq::<Seq<char>>::empty());
    } else {
        lemma_written_addresses_one(write_request(config, ip));
        assert(written_addresses(cycle_requests(config, replies)) =~= seq![ip]);
    }
}

/// Whether a cycle has ended for want of the record.
pub open spec fn ended_for_missing_record(step: CycleStepView) -> bool {
    step matches CycleStepView::Done { outcome: CycleOutcomeView::Failed { error } }
        && error is RecordInvalid
}

/// Once the verifications have passed, a cycle does not end for want of
/// the record.
proof fn lemma_record_is_missed_by_checks_only(
    config: ConfigView,
    step: CycleStepView,
    replies: Seq<HttpReplyView>,
)
    requires
        step matches CycleStepView::Ask { state, request } ==> state !is Checking,
        !ended_for_missing_record(step),
    ensures
        !ended_for_missing_record(cycle_run(config, step, replies)),
    decreases replies.len(),
{
    if replies.len() > 0 {
        match step {
            CycleStepView::Ask { state, request } => {
                let next = cycle_step(config, state, replies[0]);
                lemma_record_is_missed_by_checks_only(config, next, replies.drop_first());
            },
            CycleStepView::Done { outcome } => {},
        }
    }
}

/// Whatever the listing gives, a cycle that lists the zone's records ends
/// for want of the record, and its failure carries what the listing gave.
pub proof fn lemma_listing_keeps_the_failure(config: ConfigView, reply: HttpReplyView)
    ensures
        cycle_step(config, CycleView::Checking { check: Check::Listing }, reply) == failed(
            CycleErrorView::RecordInvalid { listing: records_listed(reply) },
        ),
{
}

/// The request that lists the zone's records is none of the requests that
/// verify.
pub proof fn lemma_listing_request_is_its_own(config: ConfigView)
    ensures
        check_request(config, Check::Listing) != check_request(config, Check::Token),
        check_request(config, Check::Listing) != check_request(config, Check::Zone),
        check_request(config, Check::Listing) != check_request(config, Check::Record),
{
    reveal_strlit("https://api.cloudflare.com/client/v4/user/tokens/verify");
    reveal_strlit("https://api.cloudflare.com/client/v4/zones/");
    reveal_strlit("/dns_records");
    reveal_strlit("/");
    assert(token_url()[37] == 'u');
    assert(records_url(config)[37] == 'z');
    assert(records_url(config).len() == zone_url(config).len() + 12);
    assert(record_url(config).len() > records_url(config).len());
}

/// A cycle that ends for want of the record has asked for four things and
/// no more: the three verifications and, once, the listing of the zone's
/// records. Its failure carries what the reply to the listing gave.
pub proof fn lemma_missing_record_is_listed_once(
    config: ConfigView,
    replies: Seq<HttpReplyView>,
    listing: Result<Seq<RecordInfoView>, ProviderErrorView>,
)
    requires
        cycle_run(config, cycle_begin(config), replies) == failed(
            CycleErrorView::RecordInvalid { listing },
        ),
    ensures
        replies.len() >= 4,
        listing == records_listed(replies[3]),
        cycle_requests(config, replies) == seq![
            check_request(config, Check::Token),
            check_request(config, Check::Zone),
            check_request(config, Check::Record),
            check_request(config, Check::Listing),
        ],
{
    let begin = cycle_begin(config);
    let end = cycle_run(config, begin, replies);
    assert(ended_for_missing_record(end));
    assert(replies.len() > 0);
    let s1 = cycle_step(config, CycleView::Checking { check: Check::Token }, replies[0]);
    let r1 = replies.drop_first();
    assert(end == cycle_run(config, s1, r1));
    assert(s1 is Ask && r1.len() > 0);
    let s2 = cycle_step(config, CycleView::Checking { check: Check::Zone }, r1[0]);
    let r2 = r1.drop_first();
    assert(end == cycle_run(config, s2, r2));
    assert(s2 is Ask && r2.len() > 0);
    let s3 = cycle_step(config, CycleView::Checking { check: Check::Record }, r2[0]);
    let r3 = r2.drop_first();
    assert(end == cycle_run(config, s3, r3));
    if s3 == ask_step(config, Check::Listing) {
        assert(r3.len() > 0);
        let s4 = cycle_step(config, CycleView::Checking { check: Check::Listing }, r3[0]);
        let r4 = r3.drop_first();
        assert(end == cycle_run(config, s4, r4));
        assert(end == s4);
        assert(r3[0] == replies[3]);
        assert(cycle_asked(config, s4, r4) =~= Seq::<HttpRequestView>::empty());
        assert(cycle_asked(config, s3, r3) =~= Seq::<HttpRequestView>::empty());
        assert(cycle_asked(config, s2, r2) =~= seq![check_request(config, Check::Listing)]);
        assert(cycle_asked(config, s1, r1) =~= seq![
            check_request(config, Check::Record),
            check_request(config, Check::Listing),
        ]);
        assert(cycle_asked(config, begin, replies) =~= seq![
            check_request(config, Check::Zone),
            check_request(config, Check::Record),
            check_request(config, Check::Listing),
        ]);
        assert(cycle_requests(config, replies) =~= seq![
            check_request(config, Check::Token),
            check_request(config, Check::Zone),
            check_request(config, Check::Record),
            check_request(config, Check::Listing),
        ]);
    } else {
        lemma_record_is_missed_by_checks_only(config, s3, r3);
    }
}

} // verus!

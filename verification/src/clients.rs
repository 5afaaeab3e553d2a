//! The upstream client: the request that each source is fetched with, and
//! the policy by which a fetch is retried.

use vstd::prelude::*;
use vstd::string::*;
use crate::config::AppConfig;
use crate::error::{ApiError, ApiErrorModel};
use crate::json::{Json, JsonModel};
use crate::text::{decimal, u64_text};

verus! {

/// How often one fetch is attempted at most.
pub const MAX_ATTEMPTS: u8 = 3;

/// The pause after a failed attempt, in milliseconds.
pub const BACKOFF_MILLIS: u64 = 250;

/// One outbound request: where it goes, its query parameters in order, and
/// the tag that names the source in error messages.
#[derive(Debug)]
pub struct RequestSpec {
    pub url: String,
    pub query: Vec<(String, String)>,
    pub code: &'static str,
}

/// The model of a [`RequestSpec`].
pub struct RequestModel {
    pub url: Seq<char>,
    pub query: Seq<(Seq<char>, Seq<char>)>,
    pub code: Seq<char>,
}

impl View for RequestSpec {
    type V = RequestModel;

    open spec fn view(&self) -> RequestModel {
        RequestModel { url: self.url@, query: pair_texts(self.query@), code: self.code@ }
    }
}

/// The pairs of `pairs` as texts, in order.
pub open spec fn pair_texts(pairs: Seq<(String, String)>) -> Seq<(Seq<char>, Seq<char>)> {
    Seq::new(pairs.len(), |i: int| (pairs[i].0@, pairs[i].1@))
}

/// The query parameter that carries the API key: none where no key is
/// configured.
pub open spec fn api_key_params(key: Seq<char>) -> Seq<(Seq<char>, Seq<char>)> {
    if key.len() == 0 {
        seq![]
    } else {
        seq![("api_key"@, key)]
    }
}

/// The request for the current position: the configured URL as it stands.
pub open spec fn iss_request(url: Seq<char>) -> RequestModel {
    RequestModel { url, query: seq![], code: "UPSTREAM_ISS"@ }
}

/// The request for the catalog: the configured URL as it stands.
pub open spec fn osdr_request(url: Seq<char>) -> RequestModel {
    RequestModel { url, query: seq![], code: "UPSTREAM_OSDR"@ }
}

/// The request for the picture of the day: thumbnails asked for, then the
/// API key where one is configured.
pub open spec fn apod_request(key: Seq<char>) -> RequestModel {
    RequestModel {
        url: "https://api.nasa.gov/planetary/apod"@,
        query: seq![("thumbs"@, "true"@)] + api_key_params(key),
        code: "UPSTREAM_APOD"@,
    }
}

/// The request for the near-earth objects between two dates, then the API
/// key where one is configured.
pub open spec fn neo_request(key: Seq<char>, start: Seq<char>, end: Seq<char>) -> RequestModel {
    RequestModel {
        url: "https://api.nasa.gov/neo/rest/v1/feed"@,
        query: seq![("start_date"@, start), ("end_date"@, end)] + api_key_params(key),
        code: "UPSTREAM_NEO"@,
    }
}

/// The request for the space-weather events under `path` between two dates,
/// then the API key where one is configured.
pub open spec fn donki_request(
    key: Seq<char>,
    path: Seq<char>,
    start: Seq<char>,
    end: Seq<char>,
) -> RequestModel {
    RequestModel {
        url: "https://api.nasa.gov/DONKI/"@ + path,
        query: seq![("startDate"@, start), ("endDate"@, end)] + api_key_params(key),
        code: "UPSTREAM_DONKI"@,
    }
}

/// The request for the next launch.
pub open spec fn spacex_request() -> RequestModel {
    RequestModel {
        url: "https://api.spacexdata.com/v4/launches/next"@,
        query: seq![],
        code: "UPSTREAM_SPACEX"@,
    }
}

/// Whether `status` is an HTTP status of success: 200 to 299.
pub open spec fn status_is_success(status: u16) -> bool {
    200 <= status < 300
}

/// Whether `status` is an HTTP status of success: 200 to 299.
pub fn is_success(status: u16) -> (yes: bool)
    ensures
        yes == status_is_success(status),
{
    200 <= status && status < 300
}

/// What the transport is set up with, once for all requests: the timeout of
/// one request in whole seconds, and the user agent that requests name.
#[derive(Debug)]
pub struct Transport {
    pub timeout_secs: u64,
    pub user_agent: String,
}

/// The clients of the upstream sources. They hold the configuration and
/// say how each source is asked; sending is left to the caller.
#[derive(Debug)]
pub struct UpstreamClients {
    cfg: AppConfig,
}

/// The query `first` followed by the API key parameter, where a key is
/// configured.
fn with_api_key(first: Vec<(String, String)>, key: &String) -> (query: Vec<(String, String)>)
    ensures
        pair_texts(query@) == pair_texts(first@) + api_key_params(key@),
{
    let mut query = first;
    if !key.as_str().is_empty() {
        query.push(("api_key".to_owned(), key.clone()));
    }
    query
}

/// The query of the two parameters given.
fn two_params(name_a: &str, value_a: &str, name_b: &str, value_b: &str) -> (query: Vec<
    (String, String),
>)
    ensures
        pair_texts(query@) == seq![(name_a@, value_a@), (name_b@, value_b@)],
{
    let mut query: Vec<(String, String)> = Vec::new();
    query.push((name_a.to_owned(), value_a.to_owned()));
    query.push((name_b.to_owned(), value_b.to_owned()));
    query
}

impl UpstreamClients {
    /// The configuration that the clients were made with.
    pub closed spec fn config(&self) -> AppConfig {
        self.cfg
    }

    /// The clients for the sources that `cfg` names.
    pub fn new(cfg: AppConfig) -> (clients: Self)
        ensures
            clients.config() == cfg,
    {
        UpstreamClients { cfg }
    }

    /// The set-up of the transport: the configured timeout and user agent,
    /// the same for every request.
    pub fn transport(&self) -> (transport: Transport)
        ensures
            transport.timeout_secs == self.config().http_timeout,
            transport.user_agent@ == self.config().http_user_agent@,
    {
        Transport {
            timeout_secs: self.cfg.http_timeout,
            user_agent: self.cfg.http_user_agent.clone(),
        }
    }

    /// The request for the current position: the configured position URL.
    pub fn fetch_iss(&self) -> (request: RequestSpec)
        ensures
            request@ == iss_request(self.config().where_iss_url@),
    {
        let request = RequestSpec {
            url: self.cfg.where_iss_url.clone(),
            query: Vec::new(),
            code: "UPSTREAM_ISS",
        };
        assert(request@.query =~= seq![]);
        request
    }

    /// The request for the catalog: the configured catalog URL.
    pub fn fetch_osdr(&self) -> (request: RequestSpec)
        ensures
            request@ == osdr_request(self.config().nasa_url@),
    {
        let request = RequestSpec {
            url: self.cfg.nasa_url.clone(),
            query: Vec::new(),
            code: "UPSTREAM_OSDR",
        };
        assert(request@.query =~= seq![]);
        request
    }

    /// The request for the picture of the day, with thumbnails asked for and
    /// the API key where one is configured.
    pub fn fetch_apod(&self) -> (request: RequestSpec)
        ensures
            request@ == apod_request(self.config().nasa_key@),
    {
        let mut first: Vec<(String, String)> = Vec::new();
        first.push(("thumbs".to_owned(), "true".to_owned()));
        assert(pair_texts(first@) =~= seq![("thumbs"@, "true"@)]);
        RequestSpec {
            url: "https://api.nasa.gov/planetary/apod".to_owned(),
            query: with_api_key(first, &self.cfg.nasa_key),
            code: "UPSTREAM_APOD",
        }
    }

    /// The request for the near-earth objects between two dates, with the
    /// API key where one is configured.
    pub fn fetch_neo(&self, start: &str, end: &str) -> (request: RequestSpec)
        ensures
            request@ == neo_request(self.config().nasa_key@, start@, end@),
    {
        let first = two_params("start_date", start, "end_date", end);
        RequestSpec {
            url: "https://api.nasa.gov/neo/rest/v1/feed".to_owned(),
            query: with_api_key(first, &self.cfg.nasa_key),
            code: "UPSTREAM_NEO",
        }
    }

    /// The request for the space-weather events of the kind `path` between
    /// two dates, with the API key where one is configured.
    pub fn fetch_donki(&self, path: &str, start: &str, end: &str) -> (request: RequestSpec)
        ensures
            request@ == donki_request(self.config().nasa_key@, path@, start@, end@),
    {
        let first = two_params("startDate", start, "endDate", end);
        let mut url = "https://api.nasa.gov/DONKI/".to_owned();
        url.append(path);
        RequestSpec { url, query: with_api_key(first, &self.cfg.nasa_key), code: "UPSTREAM_DONKI" }
    }

    /// The request for the next launch.
    pub fn fetch_spacex(&self) -> (request: RequestSpec)
        ensures
            request@ == spacex_request(),
    {
        let request = RequestSpec {
            url: "https://api.spacexdata.com/v4/launches/next".to_owned(),
            query: Vec::new(),
            code: "UPSTREAM_SPACEX",
        };
        assert(request@.query =~= seq![]);
        request
    }
}

/// What one attempt to fetch came to.
#[derive(Debug)]
pub enum AttemptOutcome {
    /// No response arrived; the message of the transport failure.
    SendFailed(String),
    /// A response arrived whose status is no success.
    Rejected(u16),
    /// A response of success arrived and its body is this JSON value.
    Parsed(Json),
    /// A response of success arrived and its body is no JSON; the message of
    /// the decoding failure.
    Unreadable(String),
}

/// The model of an [`AttemptOutcome`].
pub enum OutcomeModel {
    SendFailed(Seq<char>),
    Rejected(u16),
    Parsed(JsonModel),
    Unreadable(Seq<char>),
}

impl View for AttemptOutcome {
    type V = OutcomeModel;

    open spec fn view(&self) -> OutcomeModel {
        match self {
            AttemptOutcome::SendFailed(m) => OutcomeModel::SendFailed(m@),
            AttemptOutcome::Rejected(status) => OutcomeModel::Rejected(*status),
            AttemptOutcome::Parsed(json) => OutcomeModel::Parsed(json@),
            AttemptOutcome::Unreadable(m) => OutcomeModel::Unreadable(m@),
        }
    }
}

/// The status that an upstream error is reported with: the upstream's own
/// where it is a status at all (100 to 999), else 502.
pub open spec fn reported_status(status: u16) -> u16 {
    if 100 <= status <= 999 {
        status
    } else {
        502
    }
}

/// The error that a failed attempt leaves behind, for the source tagged
/// `code`; none for an attempt that got a response of success.
pub open spec fn failure_of(code: Seq<char>, outcome: OutcomeModel) -> Option<ApiErrorModel> {
    match outcome {
        OutcomeModel::SendFailed(m) => Some(ApiErrorModel::Http(m)),
        OutcomeModel::Rejected(status) => Some(
            ApiErrorModel::UpstreamStatus(
                reported_status(status),
                code + " status "@ + decimal(status as nat),
            ),
        ),
        _ => None,
    }
}

/// The error of a fetch that ends without any recorded failure.
pub open spec fn empty_error(code: Seq<char>) -> ApiErrorModel {
    ApiErrorModel::UpstreamStatus(502, code + " empty"@)
}

/// The error that a fetch gives up with: the failure of its last attempt,
/// or the error of a fetch without one.
pub open spec fn concluded(code: Seq<char>, last: Option<ApiErrorModel>) -> ApiErrorModel {
    match last {
        Some(e) => e,
        None => empty_error(code),
    }
}

/// The model of a [`RetryState`]: the source tag and the number of attempts
/// made.
pub struct RetryModel {
    pub code: Seq<char>,
    pub attempts: nat,
}

/// The model of what follows the pause after a failed attempt.
pub enum AfterPauseModel {
    Retry(RetryModel),
    GiveUp(ApiErrorModel),
}

/// The model of what [`RetryState::record`] decides.
pub enum StepModel {
    Done(Result<JsonModel, ApiErrorModel>),
    Backoff(u64, AfterPauseModel),
}

impl RetryModel {
    /// The state before the first attempt.
    pub open spec fn start(code: Seq<char>) -> RetryModel {
        RetryModel { code, attempts: 0 }
    }

    /// What follows an attempt. A parsed body ends the fetch with success; a
    /// body that is no JSON ends it with a transport error at once. Any
    /// other failure is followed by the pause, and then by another attempt
    /// while fewer than three were made, else by giving up with that
    /// failure.
    pub open spec fn record(self, outcome: OutcomeModel) -> StepModel {
        match outcome {
            OutcomeModel::Parsed(json) => StepModel::Done(Ok(json)),
            OutcomeModel::Unreadable(m) => StepModel::Done(Err(ApiErrorModel::Http(m))),
            _ => StepModel::Backoff(
                BACKOFF_MILLIS,
                if self.attempts + 1 < MAX_ATTEMPTS {
                    AfterPauseModel::Retry(
                        RetryModel { code: self.code, attempts: self.attempts + 1 },
                    )
                } else {
                    AfterPauseModel::GiveUp(concluded(self.code, failure_of(self.code, outcome)))
                },
            ),
        }
    }
}

/// Where one fetch stands before an attempt: the source tag and the number
/// of attempts made, which is less than the number allowed.
#[derive(Debug)]
pub struct RetryState {
    code: String,
    attempts: u8,
}

/// What follows the pause after a failed attempt.
#[derive(Debug)]
pub enum AfterPause {
    /// Send the request once more, from this state.
    Retry(RetryState),
    /// Stop and report this error.
    GiveUp(ApiError),
}

/// What follows one attempt.
#[derive(Debug)]
pub enum RetryStep {
    /// The fetch is over, with this result.
    Done(Result<Json, ApiError>),
    /// The attempt failed: pause for so many milliseconds, then go on as
    /// said.
    Backoff(u64, AfterPause),
}

/// The view of an optional error.
pub open spec fn opt_error(e: Option<ApiError>) -> Option<ApiErrorModel> {
    match e {
        Some(e) => Some(e@),
        None => None,
    }
}

impl View for RetryState {
    type V = RetryModel;

    closed spec fn view(&self) -> RetryModel {
        RetryModel { code: self.code@, attempts: self.attempts as nat }
    }
}

impl View for AfterPause {
    type V = AfterPauseModel;

    open spec fn view(&self) -> AfterPauseModel {
        match self {
            AfterPause::Retry(state) => AfterPauseModel::Retry(state@),
            AfterPause::GiveUp(e) => AfterPauseModel::GiveUp(e@),
        }
    }
}

impl View for RetryStep {
    type V = StepModel;

    open spec fn view(&self) -> StepModel {
        match self {
            RetryStep::Done(Ok(json)) => StepModel::Done(Ok(json@)),
            RetryStep::Done(Err(e)) => StepModel::Done(Err(e@)),
            RetryStep::Backoff(millis, then) => StepModel::Backoff(*millis, then@),
        }
    }
}

/// The error that a fetch from the source tagged `code` gives up with: the
/// failure of its last attempt, or a generic upstream error where no attempt
/// left one.
pub fn conclude(code: &str, last: Option<ApiError>) -> (error: ApiError)
    ensures
        error@ == concluded(code@, opt_error(last)),
{
    match last {
        Some(e) => e,
        None => {
            let mut message = code.to_owned();
            message.append(" empty");
            ApiError::UpstreamStatus(502, message)
        },
    }
}

/// The error that a failed attempt leaves behind.
fn failure(code: &str, outcome: AttemptOutcome) -> (error: Option<ApiError>)
    ensures
        opt_error(error) == failure_of(code@, outcome@),
{
    match outcome {
        AttemptOutcome::SendFailed(m) => Some(ApiError::Http(m)),
        AttemptOutcome::Rejected(status) => {
            let reported = if 100 <= status && status <= 999 {
                status
            } else {
                502
            };
            let mut message = code.to_owned();
            message.append(" status ");
            let digits = u64_text(status as u64);
            message.append(digits.as_str());
            Some(ApiError::UpstreamStatus(reported, message))
        },
        _ => None,
    }
}

impl RetryState {
    #[verifier::type_invariant]
    spec fn attempts_left(self) -> bool {
        self.attempts < MAX_ATTEMPTS
    }

    /// The state of a fetch from the source tagged `code`, before its first
    /// attempt.
    pub fn new(code: &str) -> (state: RetryState)
        ensures
            state@ == RetryModel::start(code@),
    {
        RetryState { code: code.to_owned(), attempts: 0 }
    }

    /// The number of attempts made so far.
    pub fn attempts(&self) -> (n: u8)
        ensures
            n == self@.attempts,
            n < MAX_ATTEMPTS,
    {
        proof {
            use_type_invariant(self);
        }
        self.attempts
    }

    /// Takes in what the attempt made from this state came to, and decides
    /// what follows.
    pub fn record(self, outcome: AttemptOutcome) -> (step: RetryStep)
        ensures
            step@ == self@.record(outcome@),
    {
        proof {
            use_type_invariant(&self);
        }
        match outcome {
            AttemptOutcome::Parsed(json) => RetryStep::Done(Ok(json)),
            AttemptOutcome::Unreadable(m) => RetryStep::Done(Err(ApiError::Http(m))),
            failed => {
                let made = self.attempts + 1;
                let then = if made < MAX_ATTEMPTS {
                    AfterPause::Retry(RetryState { code: self.code, attempts: made })
                } else {
                    let last = failure(self.code.as_str(), failed);
                    AfterPause::GiveUp(conclude(self.code.as_str(), last))
                };
                RetryStep::Backoff(BACKOFF_MILLIS, then)
            },
        }
    }
}

/// How one fetch goes, given what its attempts come to: its result, if the
/// outcomes at hand suffice to conclude, the number of attempts made and the
/// number of pauses taken.
pub struct FetchModel {
    pub result: Option<Result<JsonModel, ApiErrorModel>>,
    pub attempts: nat,
    pub pauses: nat,
}

/// The course of a fetch that stands at `state` and whose further attempts
/// come to `outcomes`, in order. Outcomes past the end of the fetch are not
/// looked at.
pub open spec fn fetch_from(state: RetryModel, outcomes: Seq<OutcomeModel>) -> FetchModel
    decreases outcomes.len(),
{
    if outcomes.len() == 0 {
        FetchModel { result: None, attempts: 0, pauses: 0 }
    } else {
        match state.record(outcomes[0]) {
            StepModel::Done(result) => FetchModel { result: Some(result), attempts: 1, pauses: 0 },
            StepModel::Backoff(_, AfterPauseModel::GiveUp(e)) => FetchModel {
                result: Some(Err(e)),
                attempts: 1,
                pauses: 1,
            },
            StepModel::Backoff(_, AfterPauseModel::Retry(next)) => {
                let rest = fetch_from(next, outcomes.skip(1));
                FetchModel {
                    result: rest.result,
                    attempts: rest.attempts + 1,
                    pauses: rest.pauses + 1,
                }
            },
        }
    }
}

/// A fetch never makes more attempts than are allowed, and it concludes as
/// soon as that many outcomes are at hand: counted from a state with
/// `state.attempts` made, the attempts stay within the allowance, there are
/// no more pauses than attempts, and outcomes enough to fill the allowance
/// give a result.
pub proof fn lemma_fetch_is_bounded(state: RetryModel, outcomes: Seq<OutcomeModel>)
    requires
        state.attempts < MAX_ATTEMPTS,
    ensures
        state.attempts + fetch_from(state, outcomes).attempts <= MAX_ATTEMPTS,
        fetch_from(state, outcomes).attempts <= outcomes.len(),
        fetch_from(state, outcomes).pauses <= fetch_from(state, outcomes).attempts,
        state.attempts + outcomes.len() >= MAX_ATTEMPTS ==> fetch_from(state, outcomes).result is Some,
    decreases outcomes.len(),
{
    if outcomes.len() > 0 {
        if let StepModel::Backoff(_, AfterPauseModel::Retry(next)) = state.record(outcomes[0]) {
            lemma_fetch_is_bounded(next, outcomes.skip(1));
        }
    }
}

/// Three failing attempts for one fetch give exactly one error and exactly
/// three attempts: whatever outcomes might follow, the fetch ends after the
/// third attempt, with three attempts made, three pauses taken, and the
/// failure of the third attempt as its one result.
pub proof fn lemma_three_failures_end_fetch(code: Seq<char>, outcomes: Seq<OutcomeModel>)
    requires
        outcomes.len() >= 3,
        failure_of(code, outcomes[0]) is Some,
        failure_of(code, outcomes[1]) is Some,
        failure_of(code, outcomes[2]) is Some,
    ensures
        fetch_from(RetryModel::start(code), outcomes) == (FetchModel {
            result: Some(Err(failure_of(code, outcomes[2])->0)),
            attempts: 3,
            pauses: 3,
        }),
{
    reveal_with_fuel(fetch_from, 4);
    let s1 = RetryModel { code, attempts: 1 };
    let s2 = RetryModel { code, attempts: 2 };
    assert(outcomes.skip(1)[0] == outcomes[1]);
    assert(outcomes.skip(1).skip(1)[0] == outcomes[2]);
    assert(fetch_from(s2, outcomes.skip(1).skip(1)) == (FetchModel {
        result: Some(Err(failure_of(code, outcomes[2])->0)),
        attempts: 1,
        pauses: 1,
    }));
    assert(fetch_from(s1, outcomes.skip(1)).attempts == 2);
}

/// Three attempts that fail in a row end one fetch: after the first and the
/// second the request is sent again, after the third the fetch gives up
/// with the failure of that third attempt, and with no other error. Each of
/// the three is followed by the same pause.
pub proof fn lemma_three_failures_one_error(
    code: Seq<char>,
    first: OutcomeModel,
    second: OutcomeModel,
    third: OutcomeModel,
)
    requires
        failure_of(code, first) is Some,
        failure_of(code, second) is Some,
        failure_of(code, third) is Some,
    ensures
        ({
            let s0 = RetryModel::start(code);
            let s1 = RetryModel { code, attempts: 1 };
            let s2 = RetryModel { code, attempts: 2 };
            &&& s0.record(first) == StepModel::Backoff(BACKOFF_MILLIS, AfterPauseModel::Retry(s1))
            &&& s1.record(second) == StepModel::Backoff(BACKOFF_MILLIS, AfterPauseModel::Retry(s2))
            &&& s2.record(third) == StepModel::Backoff(
                BACKOFF_MILLIS,
                AfterPauseModel::GiveUp(failure_of(code, third)->0),
            )
        }),
{
}

/// A response of success ends the fetch at once, whatever came before: its
/// parsed body is the result, and a body that is no JSON is a transport
/// error that no further attempt follows.
pub proof fn lemma_success_ends_fetch(state: RetryModel, outcome: OutcomeModel)
    requires
        failure_of(state.code, outcome) is None,
    ensures
        state.record(outcome) is Done,
        outcome matches OutcomeModel::Parsed(json) ==> state.record(outcome) == StepModel::Done(
            Ok(json),
        ),
        outcome matches OutcomeModel::Unreadable(m) ==> state.record(outcome) == StepModel::Done(
            Err(ApiErrorModel::Http(m)),
        ),
{
}

} // verus!

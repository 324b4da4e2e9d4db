//! The health prober: bounded polling of the backend server's readiness
//! endpoint, with a pause that grows by a fixed amount after each failure.

use vstd::prelude::*;
use crate::text::{decimal, join, option_view, push_decimal, starts_with};

verus! {

/// Path of the readiness endpoint below the base address.
pub const HEALTH_PATH: &'static str = "/health";

/// Number of requests after which probing gives up.
pub const HEALTH_RETRIES: usize = 30;

/// Pause after the first failed request, in milliseconds; the pause after
/// the n-th failure is n times as long.
pub const HEALTH_BASE_BACKOFF_MS: u64 = 100;

/// Time allowed to each request, in milliseconds.
pub const HEALTH_REQUEST_TIMEOUT_MS: u64 = 2000;

/// How one request to the readiness endpoint ended.
#[derive(Clone, Debug, PartialEq, Eq)]
pub enum ProbeReply {
    /// A response arrived, with this status code.
    Status(u16),
    /// No response arrived; the text says why.
    Failed(String),
}

/// Whether a status code means success: 200 to 299.
pub open spec fn is_success(code: u16) -> bool {
    200 <= code < 300
}

/// A status code as the http crate displays it.
pub uninterp spec fn status_line(code: u16) -> Seq<char>;

/// `StatusCode::from_u16` of the http crate, as reqwest hands it on, takes
/// the numbers from 100 to 999 for status codes and no others; `to_string`
/// on a status code gives its number in decimal, a space and its reason
/// phrase.
#[verifier::external_body]
fn status_text(code: u16) -> (text: Option<String>)
    ensures
        text is Some <==> 100 <= code <= 999,
        text matches Some(t) ==> t@ == status_line(code),
        text matches Some(t) ==> starts_with(t@, decimal(code as nat).push(' ')),
{
    match reqwest::StatusCode::from_u16(code) {
        Ok(status) => Some(status.to_string()),
        Err(_) => None,
    }
}

/// The error for a response with the status `code` that is no success,
/// given the text `line` that the http crate has for the code, if it has
/// one: the code is shown by that text, or else by its bare number.
pub open spec fn status_failure_text(
    health_url: Seq<char>,
    code: u16,
    line: Option<Seq<char>>,
) -> Seq<char> {
    "health check returned unexpected status "@ + (match line {
        Some(shown) => shown,
        None => decimal(code as nat),
    }) + " at "@ + health_url
}

/// Builds the error for a response with the status `code` that is no
/// success, from the text `line` that the http crate has for the code.
pub fn status_failure(health_url: &str, code: u16, line: Option<String>) -> (message: String)
    ensures
        message@ == status_failure_text(health_url@, code, option_view(line)),
{
    let mut message = String::from_str("health check returned unexpected status ");
    match line {
        Some(shown) => {
            message.append(shown.as_str());
        },
        None => {
            push_decimal(&mut message, code as u64);
        },
    }
    message.append(" at ");
    message.append(health_url);
    message
}

/// The text that the http crate has for `code`: its display where `code` is
/// one that HTTP allows, none otherwise.
pub open spec fn status_shown(code: u16) -> Option<Seq<char>> {
    if 100 <= code <= 999 {
        Some(status_line(code))
    } else {
        None
    }
}

/// The error that a reply leaves behind, or `None` for a reply that shows
/// the server to be ready.
pub open spec fn failure_text(health_url: Seq<char>, reply: ProbeReply) -> Option<Seq<char>> {
    match reply {
        ProbeReply::Status(code) => if is_success(code) {
            None
        } else {
            Some(status_failure_text(health_url, code, status_shown(code)))
        },
        ProbeReply::Failed(e) => Some(
            "health check request failed at "@ + health_url + ": "@ + e@,
        ),
    }
}

/// Computes the error that a reply leaves behind, if it is a failure. The
/// error for a status that HTTP allows names the status by its number first.
pub fn failure_message(health_url: &str, reply: &ProbeReply) -> (message: Option<String>)
    ensures
        message is Some <==> failure_text(health_url@, *reply) is Some,
        message matches Some(m) ==> failure_text(health_url@, *reply) == Some(m@),
        message matches Some(m) ==> (match *reply {
            ProbeReply::Status(code) => 100 <= code <= 999 ==> starts_with(
                m@,
                "health check returned unexpected status "@ + decimal(code as nat).push(' '),
            ),
            ProbeReply::Failed(_) => true,
        }),
{
    match reply {
        ProbeReply::Status(code) => {
            if 200 <= *code && *code < 300 {
                None
            } else {
                let line = status_text(*code);
                let message = status_failure(health_url, *code, line);
                proof {
                    if line is Some {
                        let head = "health check returned unexpected status "@;
                        let number = decimal(*code as nat).push(' ');
                        let shown = line->0@;
                        assert((head + shown + " at "@ + health_url@).subrange(
                            0,
                            (head + number).len() as int,
                        ) =~= head + shown.subrange(0, number.len() as int));
                    }
                }
                Some(message)
            }
        },
        ProbeReply::Failed(e) => {
            let mut message = join("health check request failed at ", health_url);
            message.append(": ");
            message.append(e.as_str());
            Some(message)
        },
    }
}

/// The error of a probe that could not even set up its HTTP client.
pub open spec fn client_failure_text(detail: Seq<char>) -> Seq<char> {
    "failed to construct health-check client: "@ + detail
}

/// Renders the error of a probe that could not set up its HTTP client.
pub fn client_failure(detail: &str) -> (text: String)
    ensures
        text@ == client_failure_text(detail@),
{
    join("failed to construct health-check client: ", detail)
}

/// Where a probe stands.
#[derive(Clone, Copy, Debug, PartialEq, Eq, Structural)]
pub enum ProbePhase {
    /// Requests are still being made.
    Probing,
    /// A request succeeded.
    Healthy,
    /// Every allowed request failed.
    Exhausted,
}

/// What to do after a reply.
#[derive(Clone, Debug, PartialEq, Eq)]
pub enum ProbeStep {
    /// Wait this many milliseconds, then make the next request.
    Retry { delay_ms: u64 },
    /// The server is ready: stop.
    Healthy,
    /// Give up with this error: stop.
    Unhealthy { error: String },
}

/// A step by the characters of its text.
pub enum StepView {
    Retry { delay_ms: u64 },
    Healthy,
    Unhealthy { error: Seq<char> },
}

impl View for ProbeStep {
    type V = StepView;

    open spec fn view(&self) -> StepView {
        match *self {
            ProbeStep::Retry { delay_ms } => StepView::Retry { delay_ms },
            ProbeStep::Healthy => StepView::Healthy,
            ProbeStep::Unhealthy { error } => StepView::Unhealthy { error: error@ },
        }
    }
}

/// The request that a probe makes: a GET of `url` that carries `bearer` as
/// its bearer credential, goes through no proxy and is given up after
/// `timeout_ms` milliseconds.
#[derive(Clone, Debug, PartialEq, Eq)]
pub struct ProbeRequest {
    pub url: String,
    pub bearer: String,
    pub timeout_ms: u64,
}

/// The state of a probe as a mathematical value.
pub struct ProbeModel {
    pub health_url: Seq<char>,
    pub token: Seq<char>,
    /// Number of failed requests so far.
    pub attempts: nat,
    pub last_error: Seq<char>,
    pub phase: ProbePhase,
}

impl ProbeModel {
    /// The probe before its first request.
    pub open spec fn start(base_url: Seq<char>, token: Seq<char>) -> ProbeModel {
        ProbeModel {
            health_url: base_url + HEALTH_PATH@,
            token,
            attempts: 0,
            last_error: "health check failed"@,
            phase: ProbePhase::Probing,
        }
    }

    /// The probe after a reply, and what is to be done next. A probe that
    /// has stopped stays as it is and repeats its verdict.
    pub open spec fn record(self, reply: ProbeReply) -> (ProbeModel, StepView) {
        match self.phase {
            ProbePhase::Healthy => (self, StepView::Healthy),
            ProbePhase::Exhausted => (self, StepView::Unhealthy { error: self.last_error }),
            ProbePhase::Probing => match failure_text(self.health_url, reply) {
                None => (ProbeModel { phase: ProbePhase::Healthy, ..self }, StepView::Healthy),
                Some(error) => if self.attempts + 1 < HEALTH_RETRIES {
                    (
                        ProbeModel { attempts: self.attempts + 1, last_error: error, ..self },
                        StepView::Retry {
                            delay_ms: (HEALTH_BASE_BACKOFF_MS * (self.attempts + 1)) as u64,
                        },
                    )
                } else {
                    (
                        ProbeModel {
                            attempts: HEALTH_RETRIES as nat,
                            last_error: error,
                            phase: ProbePhase::Exhausted,
                            ..self
                        },
                        StepView::Unhealthy { error },
                    )
                },
            },
        }
    }

    /// The probe after a series of replies.
    pub open spec fn after(self, replies: Seq<ProbeReply>) -> ProbeModel
        decreases replies.len(),
    {
        if replies.len() == 0 {
            self
        } else {
            self.after(replies.drop_last()).record(replies.last()).0
        }
    }

    /// The step that the last of a series of replies leads to.
    pub open spec fn verdict(self, replies: Seq<ProbeReply>) -> StepView
        recommends
            replies.len() > 0,
    {
        self.after(replies.drop_last()).record(replies.last()).1
    }

    /// The pauses, in milliseconds, that a series of replies adds up to.
    pub open spec fn waited_ms(self, replies: Seq<ProbeReply>) -> nat
        decreases replies.len(),
    {
        if replies.len() == 0 {
            0
        } else {
            self.waited_ms(replies.drop_last()) + pause_of(self.verdict(replies))
        }
    }
}

/// The pause that a step asks for.
pub open spec fn pause_of(step: StepView) -> nat {
    match step {
        StepView::Retry { delay_ms } => delay_ms as nat,
        _ => 0,
    }
}

/// The polling of one backend server's readiness endpoint.
pub struct HealthProbe {
    health_url: String,
    token: String,
    attempts: usize,
    last_error: String,
    phase: ProbePhase,
}

impl View for HealthProbe {
    type V = ProbeModel;

    closed spec fn view(&self) -> ProbeModel {
        ProbeModel {
            health_url: self.health_url@,
            token: self.token@,
            attempts: self.attempts as nat,
            last_error: self.last_error@,
            phase: self.phase,
        }
    }
}

impl HealthProbe {
    /// A probe of the server at `base_url` that presents `token`.
    pub fn new(base_url: &str, token: &str) -> (probe: HealthProbe)
        ensures
            probe@ == ProbeModel::start(base_url@, token@),
    {
        HealthProbe {
            health_url: join(base_url, HEALTH_PATH),
            token: String::from_str(token),
            attempts: 0,
            last_error: String::from_str("health check failed"),
            phase: ProbePhase::Probing,
        }
    }

    /// The request to make, the same for every attempt.
    pub fn request(&self) -> (request: ProbeRequest)
        ensures
            request.url@ == self@.health_url,
            request.bearer@ == self@.token,
            request.timeout_ms == HEALTH_REQUEST_TIMEOUT_MS,
    {
        ProbeRequest {
            url: self.health_url.clone(),
            bearer: self.token.clone(),
            timeout_ms: HEALTH_REQUEST_TIMEOUT_MS,
        }
    }

    /// Where the probe stands.
    pub fn phase(&self) -> (phase: ProbePhase)
        ensures
            phase == self@.phase,
    {
        self.phase
    }

    /// Takes the reply to the latest request and decides how to go on.
    pub fn record(&mut self, reply: &ProbeReply) -> (step: ProbeStep)
        ensures
            (final(self)@, step@) == old(self)@.record(*reply),
    {
        match self.phase {
            ProbePhase::Healthy => ProbeStep::Healthy,
            ProbePhase::Exhausted => ProbeStep::Unhealthy { error: self.last_error.clone() },
            ProbePhase::Probing => match failure_message(self.health_url.as_str(), reply) {
                None => {
                    self.phase = ProbePhase::Healthy;
                    ProbeStep::Healthy
                },
                Some(error) => {
                    self.last_error = error.clone();
                    if self.attempts < HEALTH_RETRIES - 1 {
                        self.attempts = self.attempts + 1;
                        let attempt: u64 = self.attempts as u64;
                        ProbeStep::Retry { delay_ms: HEALTH_BASE_BACKOFF_MS * attempt }
                    } else {
                        self.attempts = HEALTH_RETRIES;
                        self.phase = ProbePhase::Exhausted;
                        ProbeStep::Unhealthy { error }
                    }
                },
            },
        }
    }
}

/// The pauses after the first `failures` failed requests, added up.
pub open spec fn backoff_total(failures: nat) -> nat
    decreases failures,
{
    if failures == 0 {
        0
    } else {
        backoff_total((failures - 1) as nat) + (HEALTH_BASE_BACKOFF_MS * failures) as nat
    }
}

/// The pauses add up to 100 + 200 + ... + 100 * `failures` milliseconds.
pub proof fn lemma_backoff_total(failures: nat)
    ensures
        backoff_total(failures) == 50 * failures * (failures + 1),
    decreases failures,
{
    let f = failures as int;
    if failures > 0 {
        lemma_backoff_total((failures - 1) as nat);
        assert(backoff_total(failures) == backoff_total((failures - 1) as nat) + 100 * f);
        assert(50 * (f - 1) * ((f - 1) + 1) + 100 * f == 50 * f * (f + 1)) by (nonlinear_arith);
    } else {
        assert(50 * f * (f + 1) == 0) by (nonlinear_arith)
            requires
                f == 0,
        ;
    }
}

/// Whether each of `replies` is a failure.
pub open spec fn all_fail(health_url: Seq<char>, replies: Seq<ProbeReply>) -> bool {
    forall|i: int| 0 <= i < replies.len() ==> failure_text(health_url, #[trigger] replies[i]) is Some
}

/// While fewer requests have failed than are allowed, the probe goes on: it
/// has counted each failure, keeps the error of the latest one and has paused
/// after each.
pub proof fn lemma_failures_keep_probing(
    base_url: Seq<char>,
    token: Seq<char>,
    replies: Seq<ProbeReply>,
)
    requires
        replies.len() < HEALTH_RETRIES,
        all_fail(base_url + HEALTH_PATH@, replies),
    ensures
        ProbeModel::start(base_url, token).after(replies) == (ProbeModel {
            attempts: replies.len(),
            last_error: if replies.len() == 0 {
                "health check failed"@
            } else {
                failure_text(base_url + HEALTH_PATH@, replies.last())->0
            },
            ..ProbeModel::start(base_url, token)
        }),
        ProbeModel::start(base_url, token).waited_ms(replies) == backoff_total(replies.len()),
        replies.len() > 0 ==> ProbeModel::start(base_url, token).verdict(replies)
            == (StepView::Retry { delay_ms: (HEALTH_BASE_BACKOFF_MS * replies.len()) as u64 }),
    decreases replies.len(),
{
    if replies.len() > 0 {
        let earlier = replies.drop_last();
        assert forall|i: int| 0 <= i < earlier.len() implies failure_text(
            base_url + HEALTH_PATH@,
            #[trigger] earlier[i],
        ) is Some by {
            assert(earlier[i] == replies[i]);
        }
        lemma_failures_keep_probing(base_url, token, earlier);
        assert(failure_text(base_url + HEALTH_PATH@, replies.last()) is Some) by {
            assert(replies.last() == replies[replies.len() - 1]);
        }
    }
}

/// A server that fails `k` requests, `k` below the number allowed, and then
/// answers with success is found healthy by the request after those, and the
/// pauses before it add up to 100 + 200 + ... + 100 * `k` milliseconds.
pub proof fn lemma_probe_succeeds_after_failures(
    base_url: Seq<char>,
    token: Seq<char>,
    replies: Seq<ProbeReply>,
)
    requires
        0 < replies.len() <= HEALTH_RETRIES,
        all_fail(base_url + HEALTH_PATH@, replies.drop_last()),
        failure_text(base_url + HEALTH_PATH@, replies.last()) is None,
    ensures
        ProbeModel::start(base_url, token).verdict(replies) == StepView::Healthy,
        ProbeModel::start(base_url, token).after(replies).phase == ProbePhase::Healthy,
        ProbeModel::start(base_url, token).waited_ms(replies) == 50 * (replies.len() - 1)
            * replies.len(),
{
    lemma_failures_keep_probing(base_url, token, replies.drop_last());
    lemma_backoff_total((replies.len() - 1) as nat);
}

/// A server that fails every request is given up after exactly as many
/// requests as are allowed, with the error of the last one; no pause follows
/// the last request.
pub proof fn lemma_probe_gives_up(base_url: Seq<char>, token: Seq<char>, replies: Seq<ProbeReply>)
    requires
        replies.len() == HEALTH_RETRIES,
        all_fail(base_url + HEALTH_PATH@, replies),
    ensures
        ProbeModel::start(base_url, token).after(replies.drop_last()).phase == ProbePhase::Probing,
        ProbeModel::start(base_url, token).verdict(replies) == (StepView::Unhealthy {
            error: failure_text(base_url + HEALTH_PATH@, replies.last())->0,
        }),
        ProbeModel::start(base_url, token).after(replies).phase == ProbePhase::Exhausted,
        ProbeModel::start(base_url, token).after(replies).attempts == HEALTH_RETRIES,
        ProbeModel::start(base_url, token).waited_ms(replies) == backoff_total(
            (HEALTH_RETRIES - 1) as nat,
        ),
        backoff_total((HEALTH_RETRIES - 1) as nat) == 43500,
{
    let earlier = replies.drop_last();
    assert forall|i: int| 0 <= i < earlier.len() implies failure_text(
        base_url + HEALTH_PATH@,
        #[trigger] earlier[i],
    ) is Some by {
        assert(earlier[i] == replies[i]);
    }
    lemma_failures_keep_probing(base_url, token, earlier);
    assert(failure_text(base_url + HEALTH_PATH@, replies.last()) is Some) by {
        assert(replies.last() == replies[replies.len() - 1]);
    }
    lemma_backoff_total((HEALTH_RETRIES - 1) as nat);
}

/// Whatever the server answers, and however long the driver goes on
/// reporting, a probe counts at most as many failures as requests are allowed
/// and never asks for more than 43.5 seconds of pauses in all.
pub proof fn lemma_probe_is_bounded(base_url: Seq<char>, token: Seq<char>, replies: Seq<ProbeReply>)
    ensures
        ProbeModel::start(base_url, token).after(replies).attempts <= HEALTH_RETRIES,
        ProbeModel::start(base_url, token).after(replies).phase == ProbePhase::Probing
            ==> ProbeModel::start(base_url, token).after(replies).attempts < HEALTH_RETRIES,
        ProbeModel::start(base_url, token).after(replies).phase == ProbePhase::Exhausted
            ==> ProbeModel::start(base_url, token).after(replies).attempts == HEALTH_RETRIES,
        ProbeModel::start(base_url, token).waited_ms(replies) == backoff_total(
            if ProbeModel::start(base_url, token).after(replies).attempts < HEALTH_RETRIES {
                ProbeModel::start(base_url, token).after(replies).attempts
            } else {
                (HEALTH_RETRIES - 1) as nat
            },
        ),
        ProbeModel::start(base_url, token).waited_ms(replies) <= 43500,
    decreases replies.len(),
{
    let start = ProbeModel::start(base_url, token);
    if replies.len() > 0 {
        lemma_probe_is_bounded(base_url, token, replies.drop_last());
    }
    let counted = if start.after(replies).attempts < HEALTH_RETRIES {
        start.after(replies).attempts
    } else {
        (HEALTH_RETRIES - 1) as nat
    };
    lemma_backoff_total(counted);
    assert(50 * counted * (counted + 1) <= 43500) by (nonlinear_arith)
        requires
            counted <= 29,
    ;
}

/// A probe that has stopped gives the same verdict to whatever comes next.
pub proof fn lemma_stopped_probe_stays(probe: ProbeModel, reply: ProbeReply)
    requires
        probe.phase != ProbePhase::Probing,
    ensures
        probe.record(reply).0 == probe,
        probe.phase == ProbePhase::Healthy ==> probe.record(reply).1 == StepView::Healthy,
        probe.phase == ProbePhase::Exhausted ==> probe.record(reply).1 == (StepView::Unhealthy {
            error: probe.last_error,
        }),
{
}

} // verus!

//! The retry client: how one network call is attempted again after failures
//! that may pass, and when it is given up.
//!
//! The client decides; its host acts. The host holds the call and the
//! transport. It asks the client for the first [`RetryStep`], does what the
//! step says, tells the client what came of it as a [`RetryEvent`], and gets
//! the next step, until a step ends the call.

use vstd::prelude::*;
use vstd::string::*;

verus! {

/// The number of attempts a client makes unless told otherwise.
pub const DEFAULT_MAX_RETRIES: u32 = 3;

/// The seconds the transport gives each attempt unless told otherwise.
pub const DEFAULT_TIMEOUT_SECS: u64 = 45;

/// The milliseconds that the waits between attempts are doubled from.
pub const BASE_DELAY_MILLIS: u64 = 1000;

/// Why a call was given up.
#[derive(Debug, Clone, PartialEq, Eq)]
pub enum RetryError {
    /// Every attempt failed in a way that may pass; the text describes the
    /// last failure.
    AllRetriesFailed(String),
    /// The call failed in a way that another attempt would not mend.
    NonRetryable(String),
}

/// A [`RetryError`] with its description as a sequence of characters.
pub enum RetryErrorView {
    AllRetriesFailed(Seq<char>),
    NonRetryable(Seq<char>),
}

impl View for RetryError {
    type V = RetryErrorView;

    open spec fn view(&self) -> RetryErrorView {
        match *self {
            RetryError::AllRetriesFailed(description) => RetryErrorView::AllRetriesFailed(
                description@,
            ),
            RetryError::NonRetryable(description) => RetryErrorView::NonRetryable(description@),
        }
    }
}

impl RetryError {
    /// The text of the error.
    pub open spec fn text(&self) -> Seq<char> {
        match *self {
            RetryError::AllRetriesFailed(description) => "Request failed after all retries: "@
                + description@,
            RetryError::NonRetryable(description) => "Non-retryable error: "@ + description@,
        }
    }

    /// Writes the error out.
    pub fn message(&self) -> (text: String)
        ensures
            text@ == self.text(),
    {
        match self {
            RetryError::AllRetriesFailed(description) => String::from_str(
                "Request failed after all retries: ",
            ).concat(description.as_str()),
            RetryError::NonRetryable(description) => String::from_str(
                "Non-retryable error: ",
            ).concat(description.as_str()),
        }
    }
}

/// A failure of the transport itself: no response came.
#[derive(Debug, Clone, PartialEq, Eq)]
pub struct TransportFault {
    /// The attempt ran out of time.
    pub timeout: bool,
    /// No connection could be made.
    pub connect: bool,
    /// The request could not be built or sent.
    pub request: bool,
    /// The transport's own words for the failure.
    pub description: String,
}

/// What the host reports to the client.
#[derive(Debug, Clone, PartialEq, Eq)]
pub enum RetryEvent {
    /// An independent copy of the call is at hand.
    Copied,
    /// The call cannot be copied, so it cannot be sent more than once.
    NotReplayable,
    /// The transport brought a response with this status code; `status_text`
    /// is the status as the transport writes it.
    Responded { status: u16, status_text: String },
    /// The transport failed.
    Faulted(TransportFault),
    /// The wait is over.
    Waited,
}

/// What the host is to do next.
#[derive(Debug, Clone, PartialEq, Eq)]
pub enum RetryStep {
    /// Obtain an independent copy of the call, for the attempt with this
    /// index, and report [`RetryEvent::Copied`] or
    /// [`RetryEvent::NotReplayable`]. The transport is not involved.
    Copy { attempt: u32 },
    /// Hand the copy to the transport and report
    /// [`RetryEvent::Responded`] or [`RetryEvent::Faulted`].
    Send { attempt: u32 },
    /// Suspend for so many milliseconds before the attempt with index
    /// `next_attempt`, then report [`RetryEvent::Waited`].
    Wait { next_attempt: u32, millis: u64 },
    /// Return the response of the last attempt: the call succeeded.
    Done,
    /// Return this error: the call is given up.
    Fail(RetryError),
}

/// A [`RetryStep`] with its texts as sequences of characters.
pub enum RetryStepView {
    Copy { attempt: u32 },
    Send { attempt: u32 },
    Wait { next_attempt: u32, millis: u64 },
    Done,
    Fail(RetryErrorView),
}

impl View for RetryStep {
    type V = RetryStepView;

    open spec fn view(&self) -> RetryStepView {
        match *self {
            RetryStep::Copy { attempt } => RetryStepView::Copy { attempt },
            RetryStep::Send { attempt } => RetryStepView::Send { attempt },
            RetryStep::Wait { next_attempt, millis } => RetryStepView::Wait {
                next_attempt,
                millis,
            },
            RetryStep::Done => RetryStepView::Done,
            RetryStep::Fail(error) => RetryStepView::Fail(error@),
        }
    }
}

/// A status code that reports success: 200 to 299.
pub open spec fn success_status(status: u16) -> bool {
    200 <= status < 300
}

/// A status code after which the call is attempted again: a server error,
/// 500 to 599, or 429, "too many requests".
pub open spec fn retryable_status(status: u16) -> bool {
    500 <= status < 600 || status == 429
}

/// A transport fault after which the call is attempted again: a timeout, a
/// failed connection, or a request that could not be built or sent.
pub open spec fn retryable_fault(fault: TransportFault) -> bool {
    fault.timeout || fault.connect || fault.request
}

/// The wait after the failed attempt with index `attempt`, were there no
/// limit to a number: the base delay doubled once for the first attempt and
/// once more for each attempt after it.
pub open spec fn backoff_millis(attempt: nat) -> nat
    decreases attempt,
{
    if attempt == 0 {
        2 * (BASE_DELAY_MILLIS as nat)
    } else {
        2 * backoff_millis((attempt - 1) as nat)
    }
}

/// The wait after the failed attempt with index `attempt`, in milliseconds:
/// [`backoff_millis`] where that fits in 64 bits, and the largest number of
/// 64 bits where it does not.
pub open spec fn delay_after(attempt: u32) -> u64 {
    if backoff_millis(attempt as nat) <= u64::MAX {
        backoff_millis(attempt as nat) as u64
    } else {
        u64::MAX
    }
}

/// How a response is described in an error.
pub open spec fn response_text(status_text: Seq<char>) -> Seq<char> {
    "HTTP "@ + status_text
}

/// What follows the failure, described by `description`, of the attempt with
/// index `attempt`, where the failure may pass: a wait and another attempt
/// while attempts are left, and the end of the call when none is.
pub open spec fn after_failure(max_retries: u32, attempt: u32, description: Seq<char>)
    -> RetryStepView {
    if attempt + 1 < max_retries {
        RetryStepView::Wait { next_attempt: (attempt + 1) as u32, millis: delay_after(attempt) }
    } else {
        RetryStepView::Fail(RetryErrorView::AllRetriesFailed(description))
    }
}

/// The step that a client of `max_retries` attempts begins a call with.
pub open spec fn first_step(max_retries: u32) -> RetryStepView {
    if max_retries == 0 {
        RetryStepView::Fail(RetryErrorView::AllRetriesFailed("Unknown error"@))
    } else {
        RetryStepView::Copy { attempt: 0 }
    }
}

/// The step that follows `step` when the host reports `event`. An event that
/// does not answer the step leaves the step as it is.
pub open spec fn next_step(max_retries: u32, step: RetryStepView, event: RetryEvent)
    -> RetryStepView {
    match (step, event) {
        (RetryStepView::Copy { attempt }, RetryEvent::Copied) => RetryStepView::Send { attempt },
        (RetryStepView::Copy { .. }, RetryEvent::NotReplayable) => RetryStepView::Fail(
            RetryErrorView::NonRetryable("Request body not cloneable"@),
        ),
        (RetryStepView::Send { attempt }, RetryEvent::Responded { status, status_text }) => {
            if success_status(status) {
                RetryStepView::Done
            } else if retryable_status(status) {
                after_failure(max_retries, attempt, response_text(status_text@))
            } else {
                RetryStepView::Fail(RetryErrorView::NonRetryable(response_text(status_text@)))
            }
        },
        (RetryStepView::Send { attempt }, RetryEvent::Faulted(fault)) => {
            if retryable_fault(fault) {
                after_failure(max_retries, attempt, fault.description@)
            } else {
                RetryStepView::Fail(RetryErrorView::NonRetryable(fault.description@))
            }
        },
        (RetryStepView::Wait { next_attempt, .. }, RetryEvent::Waited) => RetryStepView::Copy {
            attempt: next_attempt,
        },
        _ => step,
    }
}

/// Tells whether a response with this status code has the call attempted
/// again.
pub fn should_retry_status(status: u16) -> (retry: bool)
    ensures
        retry == retryable_status(status),
{
    (500 <= status && status < 600) || status == 429
}

/// Tells whether this fault of the transport has the call attempted again.
pub fn should_retry_error(fault: &TransportFault) -> (retry: bool)
    ensures
        retry == retryable_fault(*fault),
{
    fault.timeout || fault.connect || fault.request
}

/// The milliseconds to wait after the failed attempt with index `attempt`.
pub fn backoff_delay(attempt: u32) -> (millis: u64)
    ensures
        millis == delay_after(attempt),
{
    let mut millis: u64 = 2 * BASE_DELAY_MILLIS;
    let mut done: u32 = 0;
    while done < attempt && millis <= u64::MAX / 2
        invariant
            done <= attempt,
            millis == delay_after(done),
        decreases attempt - done,
    {
        millis = millis * 2;
        done = done + 1;
    }
    if done < attempt {
        proof {
            let next = (done + 1) as u32;
            if next < attempt {
                law_waits_grow(next, attempt);
            }
        }
        u64::MAX
    } else {
        millis
    }
}

/// The part of an HTTP client that decides about attempts: how many a call
/// gets, which failures earn another one, and how long to wait in between.
#[derive(Debug, Clone, PartialEq, Eq)]
pub struct RetryableClient {
    max_retries: u32,
}

impl Default for RetryableClient {
    fn default() -> (client: RetryableClient)
        ensures
            client.attempts() == DEFAULT_MAX_RETRIES,
    {
        RetryableClient { max_retries: DEFAULT_MAX_RETRIES }
    }
}

impl RetryableClient {
    /// The number of attempts that the client gives a call.
    pub closed spec fn attempts(&self) -> u32 {
        self.max_retries
    }

    /// A client that gives each call [`DEFAULT_MAX_RETRIES`] attempts.
    pub fn new() -> (client: RetryableClient)
        ensures
            client.attempts() == DEFAULT_MAX_RETRIES,
    {
        RetryableClient { max_retries: DEFAULT_MAX_RETRIES }
    }

    /// A client that gives each call `max_retries` attempts.
    pub fn with_retries(max_retries: u32) -> (client: RetryableClient)
        ensures
            client.attempts() == max_retries,
    {
        RetryableClient { max_retries }
    }

    /// The number of attempts that the client gives a call.
    pub fn max_retries(&self) -> (attempts: u32)
        ensures
            attempts == self.attempts(),
    {
        self.max_retries
    }

    /// The step a call begins with: a first attempt, or, for a client of no
    /// attempts, the end of the call.
    pub fn start(&self) -> (step: RetryStep)
        ensures
            step@ == first_step(self.attempts()),
    {
        if self.max_retries == 0 {
            RetryStep::Fail(RetryError::AllRetriesFailed(String::from_str("Unknown error")))
        } else {
            RetryStep::Copy { attempt: 0 }
        }
    }

    /// The step after the failure of the attempt with index `attempt`, where
    /// the failure may pass.
    fn retry_or_give_up(&self, attempt: u32, description: String) -> (step: RetryStep)
        ensures
            step@ == after_failure(self.attempts(), attempt, description@),
    {
        if self.max_retries > 0 && attempt < self.max_retries - 1 {
            RetryStep::Wait { next_attempt: attempt + 1, millis: backoff_delay(attempt) }
        } else {
            RetryStep::Fail(RetryError::AllRetriesFailed(description))
        }
    }

    /// Carries a call on by one step: the step that follows `step` now that
    /// the host reports `event`. The host begins with [`Self::start`] and
    /// goes on until the step is [`RetryStep::Done`] or [`RetryStep::Fail`].
    pub fn execute_with_retry(&self, step: RetryStep, event: RetryEvent) -> (next: RetryStep)
        ensures
            next@ == next_step(self.attempts(), step@, event),
    {
        match step {
            RetryStep::Copy { attempt } => match event {
                RetryEvent::Copied => RetryStep::Send { attempt },
                RetryEvent::NotReplayable => RetryStep::Fail(
                    RetryError::NonRetryable(String::from_str("Request body not cloneable")),
                ),
                _ => RetryStep::Copy { attempt },
            },
            RetryStep::Send { attempt } => match event {
                RetryEvent::Responded { status, status_text } => {
                    if 200 <= status && status < 300 {
                        RetryStep::Done
                    } else {
                        let description = String::from_str("HTTP ").concat(status_text.as_str());
                        if should_retry_status(status) {
                            self.retry_or_give_up(attempt, description)
                        } else {
                            RetryStep::Fail(RetryError::NonRetryable(description))
                        }
                    }
                },
                RetryEvent::Faulted(fault) => {
                    if should_retry_error(&fault) {
                        self.retry_or_give_up(attempt, fault.description)
                    } else {
                        RetryStep::Fail(RetryError::NonRetryable(fault.description))
                    }
                },
                _ => RetryStep::Send { attempt },
            },
            RetryStep::Wait { next_attempt, millis } => match event {
                RetryEvent::Waited => RetryStep::Copy { attempt: next_attempt },
                _ => RetryStep::Wait { next_attempt, millis },
            },
            RetryStep::Done => RetryStep::Done,
            RetryStep::Fail(error) => RetryStep::Fail(error),
        }
    }
}

/// What a whole call came to: how often the transport was asked, the waits
/// in between, in order, and the step it stopped at.
pub struct Played {
    pub sends: nat,
    pub waits: Seq<u64>,
    pub end: RetryStepView,
}

/// A call played from `step` on by a host that does what each step says, for
/// at most `fuel` steps: the call can be copied or not, as `replayable` says,
/// and the transport answers the attempt with index `a` with `replies(a)`.
pub open spec fn play(
    max_retries: u32,
    step: RetryStepView,
    replayable: bool,
    replies: spec_fn(u32) -> RetryEvent,
    fuel: nat,
) -> Played
    decreases fuel,
{
    if fuel == 0 {
        Played { sends: 0, waits: Seq::empty(), end: step }
    } else {
        match step {
            RetryStepView::Copy { .. } => {
                let event = if replayable {
                    RetryEvent::Copied
                } else {
                    RetryEvent::NotReplayable
                };
                play(
                    max_retries,
                    next_step(max_retries, step, event),
                    replayable,
                    replies,
                    (fuel - 1) as nat,
                )
            },
            RetryStepView::Send { attempt } => {
                let rest = play(
                    max_retries,
                    next_step(max_retries, step, replies(attempt)),
                    replayable,
                    replies,
                    (fuel - 1) as nat,
                );
                Played { sends: rest.sends + 1, waits: rest.waits, end: rest.end }
            },
            RetryStepView::Wait { millis, .. } => {
                let rest = play(
                    max_retries,
                    next_step(max_retries, step, RetryEvent::Waited),
                    replayable,
                    replies,
                    (fuel - 1) as nat,
                );
                Played { sends: rest.sends, waits: seq![millis] + rest.waits, end: rest.end }
            },
            _ => Played { sends: 0, waits: Seq::empty(), end: step },
        }
    }
}

/// An answer of the transport that is a failure which may pass.
pub open spec fn passing_failure(event: RetryEvent) -> bool {
    match event {
        RetryEvent::Responded { status, .. } => retryable_status(status),
        RetryEvent::Faulted(fault) => retryable_fault(fault),
        _ => false,
    }
}

/// An answer of the transport that is a failure which another attempt would
/// not mend.
pub open spec fn lasting_failure(event: RetryEvent) -> bool {
    match event {
        RetryEvent::Responded { status, .. } => !success_status(status) && !retryable_status(
            status,
        ),
        RetryEvent::Faulted(fault) => !retryable_fault(fault),
        _ => false,
    }
}

/// How an answer of the transport is described in an error.
pub open spec fn failure_text(event: RetryEvent) -> Seq<char> {
    match event {
        RetryEvent::Responded { status_text, .. } => response_text(status_text@),
        RetryEvent::Faulted(fault) => fault.description@,
        _ => Seq::empty(),
    }
}

/// What [`law_passing_failures_use_every_attempt`] says, from the attempt
/// with index `attempt` on, by induction on the attempts that are left.
proof fn lemma_failures_from(
    max_retries: u32,
    attempt: u32,
    replies: spec_fn(u32) -> RetryEvent,
    fuel: nat,
)
    requires
        attempt < max_retries,
        forall|a: u32| attempt <= a < max_retries ==> passing_failure(#[trigger] replies(a)),
        fuel >= 3 * (max_retries - attempt),
    ensures
        ({
            let played = play(
                max_retries,
                RetryStepView::Copy { attempt },
                true,
                replies,
                fuel,
            );
            &&& played.sends == max_retries - attempt
            &&& played.waits == Seq::new(
                (max_retries - 1 - attempt) as nat,
                |i: int| delay_after((attempt + i) as u32),
            )
            &&& played.end == RetryStepView::Fail(
                RetryErrorView::AllRetriesFailed(failure_text(replies((max_retries - 1) as u32))),
            )
        }),
    decreases max_retries - attempt,
{
    // One attempt takes three steps: the copy, the send and, unless it was
    // the last, the wait. The play from each is named, so that each is
    // unfolded once.
    let copy = RetryStepView::Copy { attempt };
    let send = RetryStepView::Send { attempt };
    let reply = replies(attempt);
    let after = next_step(max_retries, send, reply);
    let played = play(max_retries, copy, true, replies, fuel);
    let sent = play(max_retries, send, true, replies, (fuel - 1) as nat);
    let rest = play(max_retries, after, true, replies, (fuel - 2) as nat);
    if attempt + 1 < max_retries {
        let next = (attempt + 1) as u32;
        let again = RetryStepView::Copy { attempt: next };
        let tail = play(max_retries, again, true, replies, (fuel - 3) as nat);
        lemma_failures_from(max_retries, next, replies, (fuel - 3) as nat);
    }
}

/// A call whose every attempt fails in a way that may pass is attempted as
/// often as the client allows and no more, waits after each attempt but the
/// last, for [`delay_after`] that attempt, and ends with
/// [`RetryError::AllRetriesFailed`], which describes the last failure.
pub proof fn law_passing_failures_use_every_attempt(
    max_retries: u32,
    replies: spec_fn(u32) -> RetryEvent,
    fuel: nat,
)
    requires
        max_retries >= 1,
        forall|a: u32| a < max_retries ==> passing_failure(#[trigger] replies(a)),
        fuel >= 3 * max_retries,
    ensures
        ({
            let played = play(max_retries, first_step(max_retries), true, replies, fuel);
            &&& played.sends == max_retries
            &&& played.waits == Seq::new(
                (max_retries - 1) as nat,
                |i: int| delay_after(i as u32),
            )
            &&& played.end == RetryStepView::Fail(
                RetryErrorView::AllRetriesFailed(failure_text(replies((max_retries - 1) as u32))),
            )
        }),
{
    lemma_failures_from(max_retries, 0, replies, fuel);
}

/// A call whose first attempt fails in a way that another attempt would not
/// mend is attempted once, without any wait, and ends with
/// [`RetryError::NonRetryable`], which describes that failure.
pub proof fn law_lasting_failure_ends_the_call(
    max_retries: u32,
    replies: spec_fn(u32) -> RetryEvent,
    fuel: nat,
)
    requires
        max_retries >= 1,
        lasting_failure(replies(0)),
        fuel >= 3,
    ensures
        play(max_retries, first_step(max_retries), true, replies, fuel) == (Played {
            sends: 1,
            waits: Seq::empty(),
            end: RetryStepView::Fail(RetryErrorView::NonRetryable(failure_text(replies(0)))),
        }),
{
    reveal_with_fuel(play, 4);
}

/// A call whose first attempt succeeds is attempted once, without any wait.
pub proof fn law_success_ends_the_call(
    max_retries: u32,
    replies: spec_fn(u32) -> RetryEvent,
    fuel: nat,
)
    requires
        max_retries >= 1,
        replies(0) matches RetryEvent::Responded { status, .. } && success_status(status),
        fuel >= 3,
    ensures
        play(max_retries, first_step(max_retries), true, replies, fuel) == (Played {
            sends: 1,
            waits: Seq::empty(),
            end: RetryStepView::Done,
        }),
{
    reveal_with_fuel(play, 4);
}

/// A call that cannot be copied ends with [`RetryError::NonRetryable`]
/// before the transport is asked even once.
pub proof fn law_unreplayable_call_is_never_sent(
    max_retries: u32,
    replies: spec_fn(u32) -> RetryEvent,
    fuel: nat,
)
    requires
        max_retries >= 1,
        fuel >= 2,
    ensures
        play(max_retries, first_step(max_retries), false, replies, fuel) == (Played {
            sends: 0,
            waits: Seq::empty(),
            end: RetryStepView::Fail(
                RetryErrorView::NonRetryable("Request body not cloneable"@),
            ),
        }),
{
    reveal_with_fuel(play, 3);
}

/// The wait after an attempt is never shorter than the wait after an
/// earlier one, and it is longer as long as the doubling fits in 64 bits.
pub proof fn law_waits_grow(earlier: u32, later: u32)
    requires
        earlier < later,
    ensures
        delay_after(earlier) <= delay_after(later),
        backoff_millis(later as nat) <= u64::MAX ==> delay_after(earlier) < delay_after(later),
    decreases later - earlier,
{
    lemma_backoff_positive(earlier as nat);
    if earlier + 1 < later {
        law_waits_grow(earlier, (later - 1) as u32);
        lemma_backoff_positive((later - 1) as nat);
    }
}

/// No wait is shorter than the first.
proof fn lemma_backoff_positive(attempt: nat)
    ensures
        backoff_millis(attempt) >= 2 * BASE_DELAY_MILLIS,
    decreases attempt,
{
    if attempt > 0 {
        lemma_backoff_positive((attempt - 1) as nat);
    }
}

/// The wait after the attempt with index `attempt`, before any limit of
/// size, is the base delay times two to the power of `attempt + 1`.
pub proof fn law_backoff_doubles(attempt: nat)
    ensures
        backoff_millis(attempt) == BASE_DELAY_MILLIS * vstd::arithmetic::power2::pow2(attempt + 1),
    decreases attempt,
{
    vstd::arithmetic::power2::lemma2_to64();
    vstd::arithmetic::power2::lemma_pow2_unfold(attempt + 1);
    if attempt > 0 {
        law_backoff_doubles((attempt - 1) as nat);
    }
}

} // verus!

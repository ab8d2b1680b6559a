//! Polling the WeChat platform for updates.
//!
//! A poll either brings updates or fails. Failures are answered by waiting longer and longer, and
//! are logged once when they begin and once when they end.

use vstd::arithmetic::power2;
use vstd::prelude::*;
use vstd::string::*;

use crate::text;
use crate::text::{decimal_text, same_text};
use crate::types::{PluginCredentialUpdate, PluginCredentialUpdateView};
use crate::weixin;
use crate::weixin::{
    persist_poll_cursor, WeixinRawMessage, WeixinRawMessageView, WeixinUpdates, WeixinUpdatesView,
};

verus! {

/// The longest wait after a failed poll.
pub const WEIXIN_MAX_BACKOFF_SECS: u64 = 600;

/// The seconds to wait after that many failures in a row: twice as many for each of them, up to the
/// longest wait.
pub open spec fn backoff_secs(failures: nat) -> nat {
    if power2::pow2(failures) <= WEIXIN_MAX_BACKOFF_SECS {
        power2::pow2(failures)
    } else {
        WEIXIN_MAX_BACKOFF_SECS as nat
    }
}

proof fn lemma_pow2_grows(a: nat, b: nat)
    requires
        a <= b,
    ensures
        power2::pow2(a) <= power2::pow2(b),
{
    if a < b {
        power2::lemma_pow2_strictly_increases(a, b);
    }
}

/// The seconds to wait after that many failures in a row.
pub fn backoff_delay(consecutive_failures: u32) -> (r: u64)
    ensures
        r == backoff_secs(consecutive_failures as nat),
{
    let mut secs: u64 = 1;
    let mut i: u32 = 0;
    proof {
        power2::lemma2_to64();
    }
    while i < consecutive_failures && secs <= WEIXIN_MAX_BACKOFF_SECS
        invariant
            i <= consecutive_failures,
            secs == power2::pow2(i as nat),
            secs <= 2 * WEIXIN_MAX_BACKOFF_SECS,
        decreases consecutive_failures - i,
    {
        proof {
            power2::lemma_pow2_unfold(i as nat + 1);
        }
        secs = secs * 2;
        i = i + 1;
    }
    proof {
        lemma_pow2_grows(i as nat, consecutive_failures as nat);
    }
    if secs > WEIXIN_MAX_BACKOFF_SECS {
        WEIXIN_MAX_BACKOFF_SECS
    } else {
        secs
    }
}

/// The wait never shrinks while the failures go on, and never exceeds the longest wait.
pub proof fn backoff_grows_to_its_limit(a: nat, b: nat)
    requires
        a <= b,
    ensures
        backoff_secs(a) <= backoff_secs(b) <= WEIXIN_MAX_BACKOFF_SECS,
{
    lemma_pow2_grows(a, b);
}

/// What to log for a poll.
#[derive(Debug, Clone, Copy, PartialEq, Eq, Structural)]
pub enum PollLogAction {
    /// A success while all is well: nothing.
    Silent,
    /// The first failure: once, as a warning.
    StartedFailing,
    /// A failure after others: for debugging only.
    StillFailing,
    /// The first success after failures: once.
    Recovered,
}

impl DeepView for PollLogAction {
    type V = PollLogAction;

    open spec fn deep_view(&self) -> PollLogAction {
        *self
    }
}

/// What to log for a poll, from the failures in a row before it.
pub open spec fn log_action(prev_failures: nat, succeeded: bool) -> PollLogAction {
    if succeeded {
        if prev_failures == 0 {
            PollLogAction::Silent
        } else {
            PollLogAction::Recovered
        }
    } else if prev_failures == 0 {
        PollLogAction::StartedFailing
    } else {
        PollLogAction::StillFailing
    }
}

/// What to log for a poll, from the failures in a row before it.
pub fn poll_log_action(prev_failures: u32, succeeded: bool) -> (r: PollLogAction)
    ensures
        r == log_action(prev_failures as nat, succeeded),
{
    if succeeded {
        if prev_failures == 0 {
            PollLogAction::Silent
        } else {
            PollLogAction::Recovered
        }
    } else if prev_failures == 0 {
        PollLogAction::StartedFailing
    } else {
        PollLogAction::StillFailing
    }
}

// ── A poll ──────────────────────────────────────────────────────────

/// What came of a poll.
#[derive(Debug, PartialEq, Eq)]
pub enum PollResponse {
    /// The platform answered.
    Updates(WeixinUpdates),
    /// The platform could not be reached: why.
    Failed(String),
}

/// The mathematical value of a [`PollResponse`].
#[verifier::ext_equal]
pub enum PollResponseView {
    Updates(WeixinUpdatesView),
    Failed(Seq<char>),
}

impl DeepView for PollResponse {
    type V = PollResponseView;

    open spec fn deep_view(&self) -> PollResponseView {
        match self {
            PollResponse::Updates(value) => PollResponseView::Updates(value.deep_view()),
            PollResponse::Failed(value) => PollResponseView::Failed(value@),
        }
    }
}

/// What a poll leads to.
#[derive(Debug, PartialEq, Eq)]
pub struct PollStep {
    /// An entry to keep with the credentials.
    pub update: Option<PluginCredentialUpdate>,
    /// The messages to handle.
    pub messages: Vec<WeixinRawMessage>,
    pub log: PollLogAction,
    /// Why the poll failed, if it did.
    pub failure: Option<String>,
    /// How long to wait before the next poll.
    pub wait_secs: Option<u64>,
}

/// The mathematical value of a [`PollStep`].
#[verifier::ext_equal]
pub struct PollStepView {
    pub update: Option<PluginCredentialUpdateView>,
    pub messages: Seq<WeixinRawMessageView>,
    pub log: PollLogAction,
    pub failure: Option<Seq<char>>,
    pub wait_secs: Option<u64>,
}

impl DeepView for PollStep {
    type V = PollStepView;

    open spec fn deep_view(&self) -> PollStepView {
        PollStepView {
            update: self.update.deep_view(),
            messages: self.messages.deep_view(),
            log: self.log,
            failure: self.failure.deep_view(),
            wait_secs: self.wait_secs.deep_view(),
        }
    }
}

/// The state of polling.
#[verifier::ext_equal]
pub struct PollView {
    /// Where the next poll goes on.
    pub cursor: Seq<char>,
    /// The failures in a row.
    pub failures: nat,
}

/// Whether the platform no longer knows the cursor.
pub open spec fn is_expired(updates: WeixinUpdatesView) -> bool {
    updates.ret == Some(-14i64) || updates.errcode == Some(-14i64)
}

/// Whether the platform reports an error.
pub open spec fn is_api_error(updates: WeixinUpdatesView) -> bool {
    (updates.ret matches Some(code) && code != 0) || (updates.errcode matches Some(code) && code != 0)
}

/// A code, where there is one.
pub open spec fn code_text(code: Option<i64>) -> Seq<char> {
    match code {
        Some(n) => "Some("@ + text::decimal(n as int) + ")"@,
        None => "None"@,
    }
}

/// Why a poll failed, if it did. A cursor that has expired is no failure.
pub open spec fn failure_of(response: PollResponseView) -> Option<Seq<char>> {
    match response {
        PollResponseView::Failed(reason) => Some(reason),
        PollResponseView::Updates(updates) => if is_expired(updates) || !is_api_error(updates) {
            None
        } else {
            Some(
                "getupdates API error ret="@ + code_text(updates.ret) + " errcode="@ + code_text(
                    updates.errcode,
                ),
            )
        },
    }
}

/// Where the next poll goes on: from the start where the cursor has expired.
pub open spec fn cursor_after(cursor: Seq<char>, response: PollResponseView) -> Seq<char> {
    match response {
        PollResponseView::Updates(updates) => if is_expired(updates) {
            Seq::empty()
        } else if is_api_error(updates) {
            cursor
        } else {
            match updates.get_updates_buf {
                Some(next) => next,
                None => cursor,
            }
        },
        PollResponseView::Failed(_) => cursor,
    }
}

/// Polling after a poll.
pub open spec fn poll_after(poll: PollView, response: PollResponseView) -> PollView {
    PollView {
        cursor: cursor_after(poll.cursor, response),
        failures: if failure_of(response) is Some {
            poll.failures + 1
        } else {
            0
        },
    }
}

/// What a poll leads to: the cursor is kept where it changed or expired, the messages are handled
/// where the platform reports no error, and a failure is waited out.
pub open spec fn poll_step(poll: PollView, response: PollResponseView) -> PollStepView {
    let next = cursor_after(poll.cursor, response);
    let expired = response matches PollResponseView::Updates(updates) && is_expired(updates);
    PollStepView {
        update: if expired || next != poll.cursor {
            Some(weixin::cursor_update(next))
        } else {
            None
        },
        messages: match response {
            PollResponseView::Updates(updates) => if is_expired(updates) || is_api_error(updates) {
                Seq::empty()
            } else {
                match updates.msgs {
                    Some(msgs) => msgs,
                    None => Seq::empty(),
                }
            },
            PollResponseView::Failed(_) => Seq::empty(),
        },
        log: log_action(poll.failures, failure_of(response) is None),
        failure: failure_of(response),
        wait_secs: if failure_of(response) is Some {
            Some(backoff_secs(poll.failures + 1) as u64)
        } else {
            None
        },
    }
}

/// The state of polling.
#[derive(Debug)]
pub struct WeixinPoll {
    cursor: String,
    failures: u32,
}

impl View for WeixinPoll {
    type V = PollView;

    closed spec fn view(&self) -> PollView {
        PollView { cursor: self.cursor@, failures: self.failures as nat }
    }
}

fn code_shown(code: Option<i64>) -> (r: String)
    ensures
        r@ == code_text(code),
{
    match code {
        Some(n) => {
            let digits = decimal_text(n);
            "Some(".to_owned().concat(digits.as_str()).concat(")")
        },
        None => "None".to_owned(),
    }
}

fn code_is(code: Option<i64>, value: i64) -> (r: bool)
    ensures
        r == (code == Some(value)),
{
    match code {
        Some(n) => n == value,
        None => false,
    }
}

fn has_expired(updates: &WeixinUpdates) -> (r: bool)
    ensures
        r == is_expired(updates.deep_view()),
{
    code_is(updates.ret, -14) || code_is(updates.errcode, -14)
}

fn reports_error(updates: &WeixinUpdates) -> (r: bool)
    ensures
        r == is_api_error(updates.deep_view()),
{
    let ret_ok = updates.ret.is_none() || code_is(updates.ret, 0);
    let errcode_ok = updates.errcode.is_none() || code_is(updates.errcode, 0);
    !ret_ok || !errcode_ok
}

impl PollResponse {
    /// Whether a poll with this response has failed.
    pub fn is_failure(&self) -> (r: bool)
        ensures
            r == (failure_of(self.deep_view()) is Some),
    {
        match self {
            PollResponse::Failed(_) => true,
            PollResponse::Updates(updates) => !has_expired(updates) && reports_error(updates),
        }
    }
}

fn no_messages() -> (r: Vec<WeixinRawMessage>)
    ensures
        r.deep_view() == Seq::<WeixinRawMessageView>::empty(),
{
    let r: Vec<WeixinRawMessage> = Vec::new();
    assert(r.deep_view() =~= Seq::empty());
    r
}

impl WeixinPoll {
    /// Polling that goes on at `cursor`.
    pub fn new(cursor: String) -> (r: Self)
        ensures
            r@ == (PollView { cursor: cursor@, failures: 0 }),
    {
        WeixinPoll { cursor, failures: 0 }
    }

    /// Where the next poll goes on.
    pub fn cursor(&self) -> (r: &str)
        ensures
            r@ == self@.cursor,
    {
        self.cursor.as_str()
    }

    /// The failures in a row.
    pub fn failures(&self) -> (r: u32)
        ensures
            r == self@.failures,
    {
        self.failures
    }

    fn succeed(
        &mut self,
        update: Option<PluginCredentialUpdate>,
        messages: Vec<WeixinRawMessage>,
    ) -> (r: PollStep)
        ensures
            final(self)@ == (PollView { failures: 0, ..old(self)@ }),
            r.deep_view() == (PollStepView {
                update: update.deep_view(),
                messages: messages.deep_view(),
                log: log_action(old(self)@.failures, true),
                failure: None,
                wait_secs: None,
            }),
    {
        let log = poll_log_action(self.failures, true);
        self.failures = 0;
        PollStep { update, messages, log, failure: None, wait_secs: None }
    }

    fn fail(&mut self, reason: String) -> (r: PollStep)
        requires
            old(self)@.failures < u32::MAX,
        ensures
            final(self)@ == (PollView { failures: old(self)@.failures + 1, ..old(self)@ }),
            r.deep_view() == (PollStepView {
                update: None,
                messages: Seq::empty(),
                log: log_action(old(self)@.failures, false),
                failure: Some(reason@),
                wait_secs: Some(backoff_secs(old(self)@.failures + 1) as u64),
            }),
    {
        let log = poll_log_action(self.failures, false);
        self.failures = self.failures + 1;
        PollStep {
            update: None,
            messages: no_messages(),
            log,
            failure: Some(reason),
            wait_secs: Some(backoff_delay(self.failures)),
        }
    }

    /// Tells what came of a poll.
    pub fn advance(&mut self, response: PollResponse) -> (r: PollStep)
        requires
            failure_of(response.deep_view()) is Some ==> old(self)@.failures < u32::MAX,
        ensures
            final(self)@ == poll_after(old(self)@, response.deep_view()),
            r.deep_view() == poll_step(old(self)@, response.deep_view()),
    {
        match response {
            PollResponse::Failed(reason) => self.fail(reason),
            PollResponse::Updates(updates) => {
                if has_expired(&updates) {
                    self.cursor = String::new();
                    let update = persist_poll_cursor(self.cursor.as_str());
                    return self.succeed(Some(update), no_messages());
                }
                if reports_error(&updates) {
                    let ret = code_shown(updates.ret);
                    let errcode = code_shown(updates.errcode);
                    let reason = "getupdates API error ret=".to_owned().concat(ret.as_str()).concat(
                        " errcode=",
                    ).concat(errcode.as_str());
                    return self.fail(reason);
                }
                let update = match updates.get_updates_buf {
                    Some(next) => if same_text(next.as_str(), self.cursor.as_str()) {
                        None
                    } else {
                        self.cursor = next;
                        Some(persist_poll_cursor(self.cursor.as_str()))
                    },
                    None => None,
                };
                let messages = match updates.msgs {
                    Some(msgs) => msgs,
                    None => no_messages(),
                };
                self.succeed(update, messages)
            },
        }
    }
}

// ── Laws ────────────────────────────────────────────────────────────

/// The cursor that is kept is the one in use: whenever the cursor changes, the new one is kept.
pub proof fn cursor_in_use_is_kept(poll: PollView, response: PollResponseView)
    ensures
        match poll_step(poll, response).update {
            Some(update) => update == weixin::cursor_update(poll_after(poll, response).cursor),
            None => poll_after(poll, response).cursor == poll.cursor,
        },
{
}

/// A failed poll changes nothing but the count of failures: the cursor stays, no message is
/// handled, nothing is kept, and the next poll waits. A poll that did not fail ends the failures
/// and waits for nothing.
pub proof fn failed_poll_is_repeated(poll: PollView, response: PollResponseView)
    ensures
        poll_step(poll, response).failure is Some ==> {
            &&& poll_after(poll, response).cursor == poll.cursor
            &&& poll_step(poll, response).messages.len() == 0
            &&& poll_step(poll, response).update is None
            &&& poll_step(poll, response).wait_secs is Some
        },
        poll_step(poll, response).failure is None ==> poll_after(poll, response).failures == 0
            && poll_step(poll, response).wait_secs is None,
{
}

/// A streak of failures is announced once, by its first failure, and its end once.
pub proof fn streak_is_announced_once(
    poll: PollView,
    first: PollResponseView,
    second: PollResponseView,
)
    ensures
        poll_step(poll_after(poll, first), second).log == (match (failure_of(first), failure_of(second)) {
            (Some(_), Some(_)) => PollLogAction::StillFailing,
            (Some(_), None) => PollLogAction::Recovered,
            (None, Some(_)) => PollLogAction::StartedFailing,
            (None, None) => PollLogAction::Silent,
        }),
{
}

/// What a poll leads to, by what came back. An answer without an error brings its messages and its
/// cursor, which is kept where it is a new one. An expired cursor is forgotten, and that is kept. An
/// error, or no answer at all, changes nothing and is waited out.
pub proof fn polls_lead_to_their_steps(poll: PollView, updates: WeixinUpdatesView, reason: Seq<char>)
    ensures
        ({
            let response = PollResponseView::Updates(updates);
            let expired = updates.ret == Some(-14i64) || updates.errcode == Some(-14i64);
            let fine = (updates.ret is None || updates.ret == Some(0i64)) && (updates.errcode is None
                || updates.errcode == Some(0i64));
            let step = poll_step(poll, response);
            let after = poll_after(poll, response);
            &&& fine ==> {
                &&& step.failure is None
                &&& step.wait_secs is None
                &&& after.failures == 0
                &&& updates.msgs matches Some(msgs) ==> step.messages == msgs
                &&& updates.msgs is None ==> step.messages.len() == 0
                &&& updates.get_updates_buf matches Some(next) ==> after.cursor == next && (next
                    == poll.cursor ==> step.update is None) && (next != poll.cursor ==> step.update
                    == Some(weixin::cursor_update(next)))
                &&& updates.get_updates_buf is None ==> after.cursor == poll.cursor && step.update is None
            }
            &&& expired ==> {
                &&& step.failure is None
                &&& step.wait_secs is None
                &&& step.messages.len() == 0
                &&& after.cursor.len() == 0
                &&& after.failures == 0
                &&& step.update == Some(weixin::cursor_update(Seq::empty()))
            }
            &&& !expired && !fine ==> {
                &&& step.failure is Some
                &&& step.messages.len() == 0
                &&& step.update is None
                &&& after.cursor == poll.cursor
                &&& after.failures == poll.failures + 1
            }
        }),
        poll_step(poll, PollResponseView::Failed(reason)).failure == Some(reason),
        poll_step(poll, PollResponseView::Failed(reason)).messages.len() == 0,
        poll_step(poll, PollResponseView::Failed(reason)).update is None,
        poll_after(poll, PollResponseView::Failed(reason)) == (PollView {
            cursor: poll.cursor,
            failures: poll.failures + 1,
        }),
{
}

/// The wait doubles with every failure in a row, from two seconds after the first one up to ten
/// minutes.
pub proof fn wait_doubles(poll: PollView, response: PollResponseView)
    requires
        failure_of(response) is Some,
    ensures
        poll.failures == 0 ==> poll_step(poll, response).wait_secs == Some(2u64),
        backoff_secs(poll.failures + 1) == (if 2 * backoff_secs(poll.failures) < 600 {
            2 * backoff_secs(poll.failures)
        } else {
            600
        }),
        poll_step(poll, response).wait_secs matches Some(secs) && secs == backoff_secs(
            poll.failures + 1,
        ),
{
    power2::lemma2_to64();
    power2::lemma_pow2_unfold(poll.failures + 1);
}

/// A streak of failures is logged at its beginning and at its end, and quietly in between.
pub proof fn streaks_are_logged(failures: nat)
    ensures
        log_action(0, true) == PollLogAction::Silent,
        log_action(0, false) == PollLogAction::StartedFailing,
        failures > 0 ==> log_action(failures, true) == PollLogAction::Recovered,
        failures > 0 ==> log_action(failures, false) == PollLogAction::StillFailing,
{
}

/// An error of the platform is reported with both of its codes.
pub proof fn codes_are_reported(updates: WeixinUpdatesView, code: i64)
    ensures
        code_text(None) == "None"@,
        code_text(Some(code)) == "Some("@ + text::decimal(code as int) + ")"@,
        failure_of(PollResponseView::Updates(updates)) matches Some(reason) ==> reason
            == "getupdates API error ret="@ + code_text(updates.ret) + " errcode="@ + code_text(
            updates.errcode,
        ),
{
}

} // verus!

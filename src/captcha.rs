use vstd::prelude::*;
use crate::error::{ApiOutcome, ClientError};

verus! {

/// Reserved error code by which the remote service demands a fresh captcha token.
pub const CAPTCHA_REQUIRED: i64 = 9;

/// Upper bound on the requests that one captcha-aware call sends.
pub const MAX_CAPTCHA_ATTEMPTS: u32 = 2;

/// Where a captcha-aware call stands.
#[derive(Debug, Clone, Copy, PartialEq, Eq)]
pub enum CallPhase {
    /// A request is on its way; its outcome is awaited.
    Attempting,
    /// The captcha token is being exchanged for a new one.
    CaptchaRefreshing,
    Succeeded,
    Failed,
}

/// What the caller must do next.
#[derive(Debug, Clone, PartialEq, Eq)]
pub enum CallStep {
    /// Hand the success payload back to the caller.
    Deliver,
    /// Exchange the captcha token, scoped to the call's method and path.
    RefreshCaptcha,
    /// Rebuild the request with the current tokens and send it.
    Send,
    /// Stop with this error.
    Fail(ClientError),
}

/// How a reply reads to the protocol: `None` for success, else the error code.
pub open spec fn reply_code<T>(o: &ApiOutcome<T>) -> Option<i64> {
    match o {
        ApiOutcome::Success(_) => None,
        ApiOutcome::Error { code, .. } => Some(*code),
    }
}

/// The state of a call after the reply `code` to its request in flight.
pub open spec fn after_reply(c: CaptchaCall, code: Option<i64>) -> CaptchaCall {
    match code {
        None => CaptchaCall { phase: CallPhase::Succeeded, ..c },
        Some(k) => if k == CAPTCHA_REQUIRED && c.attempts < MAX_CAPTCHA_ATTEMPTS {
            CaptchaCall { phase: CallPhase::CaptchaRefreshing, refreshes: (c.refreshes + 1) as u32, ..c }
        } else {
            CaptchaCall { phase: CallPhase::Failed, ..c }
        },
    }
}

/// The state of a call after its captcha exchange succeeded or failed.
pub open spec fn after_exchange(c: CaptchaCall, exchanged: bool) -> CaptchaCall {
    if exchanged {
        CaptchaCall { phase: CallPhase::Attempting, attempts: (c.attempts + 1) as u32, ..c }
    } else {
        CaptchaCall { phase: CallPhase::Failed, ..c }
    }
}

/// A call whose requests are answered by `codes` in turn and whose captcha
/// exchanges all succeed, followed until it ends or the replies run out.
pub open spec fn replay(c: CaptchaCall, codes: Seq<Option<i64>>) -> CaptchaCall
    decreases codes.len(),
{
    if codes.len() == 0 || c.phase != CallPhase::Attempting {
        c
    } else {
        let d = after_reply(c, codes[0]);
        let e = if d.phase == CallPhase::CaptchaRefreshing { after_exchange(d, true) } else { d };
        replay(e, codes.drop_first())
    }
}

/// The decisions of the captcha-aware call protocol, one call at a time.
pub struct CaptchaCall {
    /// Requests sent so far (the first one included).
    pub attempts: u32,
    /// Captcha exchanges started so far.
    pub refreshes: u32,
    pub phase: CallPhase,
}

impl CaptchaCall {
    pub open spec fn wf(&self) -> bool {
        &&& 1 <= self.attempts <= MAX_CAPTCHA_ATTEMPTS
        &&& self.refreshes <= 1
        &&& self.phase == CallPhase::CaptchaRefreshing ==> self.refreshes == self.attempts
        &&& self.phase == CallPhase::Attempting ==> self.refreshes + 1 == self.attempts
        &&& self.refreshes <= self.attempts
    }

    /// A call whose first request has just been sent.
    pub fn new() -> (r: Self)
        ensures
            r.wf(),
            r.attempts == 1,
            r.refreshes == 0,
            r.phase == CallPhase::Attempting,
    {
        CaptchaCall { attempts: 1, refreshes: 0, phase: CallPhase::Attempting }
    }

    /// Decides on the outcome of the request in flight.
    pub fn on_outcome<T>(&mut self, outcome: &ApiOutcome<T>) -> (step: CallStep)
        requires
            old(self).wf(),
            old(self).phase == CallPhase::Attempting,
        ensures
            final(self).wf(),
            *final(self) == after_reply(*old(self), reply_code(outcome)),
            final(self).attempts == old(self).attempts,
            match outcome {
                ApiOutcome::Success(_) => step == CallStep::Deliver && final(self).phase
                    == CallPhase::Succeeded && final(self).refreshes == old(self).refreshes,
                ApiOutcome::Error { code, message } => if *code != CAPTCHA_REQUIRED {
                    &&& step == CallStep::Fail(ClientError::Remote { code: *code, message: *message })
                    &&& final(self).phase == CallPhase::Failed
                    &&& final(self).refreshes == old(self).refreshes
                } else if old(self).attempts < MAX_CAPTCHA_ATTEMPTS {
                    &&& step == CallStep::RefreshCaptcha
                    &&& final(self).phase == CallPhase::CaptchaRefreshing
                    &&& final(self).refreshes == old(self).refreshes + 1
                } else {
                    &&& step == CallStep::Fail(ClientError::CallFailed)
                    &&& final(self).phase == CallPhase::Failed
                    &&& final(self).refreshes == old(self).refreshes
                },
            },
    {
        match outcome {
            ApiOutcome::Success(_) => {
                self.phase = CallPhase::Succeeded;
                CallStep::Deliver
            },
            ApiOutcome::Error { code, message } => {
                if *code != CAPTCHA_REQUIRED {
                    self.phase = CallPhase::Failed;
                    CallStep::Fail(ClientError::Remote { code: *code, message: message.clone() })
                } else if self.attempts < MAX_CAPTCHA_ATTEMPTS {
                    self.phase = CallPhase::CaptchaRefreshing;
                    self.refreshes = self.refreshes + 1;
                    CallStep::RefreshCaptcha
                } else {
                    self.phase = CallPhase::Failed;
                    CallStep::Fail(ClientError::CallFailed)
                }
            },
        }
    }

    /// Decides on the result of the captcha exchange.
    pub fn on_refreshed(&mut self, exchanged: bool) -> (step: CallStep)
        requires
            old(self).wf(),
            old(self).phase == CallPhase::CaptchaRefreshing,
        ensures
            final(self).wf(),
            *final(self) == after_exchange(*old(self), exchanged),
            final(self).refreshes == old(self).refreshes,
            exchanged ==> step == CallStep::Send && final(self).phase == CallPhase::Attempting
                && final(self).attempts == old(self).attempts + 1,
            !exchanged ==> step == CallStep::Fail(ClientError::Auth) && final(self).phase
                == CallPhase::Failed && final(self).attempts == old(self).attempts,
    {
        if exchanged {
            self.attempts = self.attempts + 1;
            self.phase = CallPhase::Attempting;
            CallStep::Send
        } else {
            self.phase = CallPhase::Failed;
            CallStep::Fail(ClientError::Auth)
        }
    }
}

/// A call refreshes the captcha at most once and sends at most
/// `MAX_CAPTCHA_ATTEMPTS` requests; once it has refreshed, the request in flight
/// is its last, so a second sentinel ends it with `CallFailed`.
pub proof fn lemma_at_most_one_refresh(c: CaptchaCall)
    requires
        c.wf(),
    ensures
        c.refreshes <= 1,
        c.attempts <= MAX_CAPTCHA_ATTEMPTS,
        c.phase == CallPhase::Attempting && c.refreshes == 1 ==> c.attempts == MAX_CAPTCHA_ATTEMPTS,
{
}

proof fn lemma_replay_wf(c: CaptchaCall, codes: Seq<Option<i64>>)
    requires
        c.wf(),
    ensures
        replay(c, codes).wf(),
        replay(c, codes).refreshes >= c.refreshes,
    decreases codes.len(),
{
    if codes.len() > 0 && c.phase == CallPhase::Attempting {
        let d = after_reply(c, codes[0]);
        let e = if d.phase == CallPhase::CaptchaRefreshing { after_exchange(d, true) } else { d };
        lemma_replay_wf(e, codes.drop_first());
    }
}

/// Whatever the replies, a call refreshes the captcha at most once and sends at
/// most `MAX_CAPTCHA_ATTEMPTS` requests; the sentinel twice in a row ends it in
/// failure after exactly one refresh.
pub proof fn lemma_sentinel_refreshes_once(codes: Seq<Option<i64>>)
    ensures
        ({
            let r = replay(CaptchaCall { attempts: 1, refreshes: 0, phase: CallPhase::Attempting }, codes);
            &&& r.refreshes <= 1
            &&& r.attempts <= MAX_CAPTCHA_ATTEMPTS
            &&& codes.len() >= 2 && codes[0] == Some(CAPTCHA_REQUIRED) && codes[1] == Some(CAPTCHA_REQUIRED)
                ==> r.phase == CallPhase::Failed && r.refreshes == 1 && r.attempts == MAX_CAPTCHA_ATTEMPTS
        }),
{
    let c = CaptchaCall { attempts: 1, refreshes: 0, phase: CallPhase::Attempting };
    lemma_replay_wf(c, codes);
    if codes.len() >= 2 && codes[0] == Some(CAPTCHA_REQUIRED) && codes[1] == Some(CAPTCHA_REQUIRED) {
        let e = after_exchange(after_reply(c, codes[0]), true);
        let rest = codes.drop_first();
        assert(rest[0] == Some(CAPTCHA_REQUIRED));
        let f = after_reply(e, rest[0]);
        assert(f.phase == CallPhase::Failed);
        assert(replay(f, rest.drop_first()) == f);
        assert(replay(e, rest) == replay(f, rest.drop_first()));
        assert(replay(c, codes) == replay(e, rest));
    }
}

/// Whatever the replies, an error code other than the sentinel in reply to the
/// first request ends the call at once, without any refresh.
pub proof fn lemma_other_code_ends_call(codes: Seq<Option<i64>>, code: i64)
    requires
        codes.len() >= 1,
        codes[0] == Some(code),
        code != CAPTCHA_REQUIRED,
    ensures
        ({
            let r = replay(CaptchaCall { attempts: 1, refreshes: 0, phase: CallPhase::Attempting }, codes);
            r.phase == CallPhase::Failed && r.refreshes == 0 && r.attempts == 1
        }),
{
    let c = CaptchaCall { attempts: 1, refreshes: 0, phase: CallPhase::Attempting };
    let f = after_reply(c, codes[0]);
    assert(replay(f, codes.drop_first()) == f);
}

} // verus!

use vstd::prelude::*;
use crate::error::ClientError;

verus! {

/// How one send attempt ended at the transport level.
#[derive(Debug, Clone, Copy, PartialEq, Eq)]
pub enum SendEvent {
    /// A response came back, whatever its HTTP status.
    Delivered,
    /// The connection failed or timed out.
    TransportFailed,
    /// The request could not be rebuilt for the next attempt.
    CloneFailed,
}

/// What the caller must do next.
#[derive(Debug, Clone, PartialEq, Eq)]
pub enum SendStep {
    /// Hand the response to the caller, uninterpreted.
    Return,
    /// Clone the original request and send the clone.
    CloneAndResend,
    /// Stop with this error.
    Fail(ClientError),
}

/// The decisions of the retry-send protocol for one request.
pub struct RetrySend {
    /// Extra attempts allowed beyond the first.
    pub budget: u8,
    /// Attempts sent or being prepared so far (the first one included).
    pub sends: u32,
    /// Clones asked for so far: one for each attempt after the first.
    pub clones: u32,
    pub done: bool,
}

impl RetrySend {
    pub open spec fn wf(&self) -> bool {
        &&& 1 <= self.sends
        &&& self.sends <= self.budget + 1
        &&& self.clones == self.sends - 1
    }

    /// A protocol whose first attempt has just been sent.
    pub fn new(budget: u8) -> (r: Self)
        ensures
            r.wf(),
            r.budget == budget,
            r.sends == 1,
            r.clones == 0,
            !r.done,
    {
        RetrySend { budget, sends: 1, clones: 0, done: false }
    }

    /// Whether the budget still allows another attempt.
    pub open spec fn may_retry(&self) -> bool {
        self.sends <= self.budget
    }

    /// Decides on how the last send, or the clone for the next one, ended.
    pub fn on_event(&mut self, event: SendEvent) -> (step: SendStep)
        requires
            old(self).wf(),
            !old(self).done,
            event == SendEvent::CloneFailed ==> old(self).clones > 0,
        ensures
            final(self).wf(),
            final(self).budget == old(self).budget,
            match event {
                SendEvent::Delivered => step == SendStep::Return && final(self).done
                    && final(self).sends == old(self).sends && final(self).clones == old(self).clones,
                SendEvent::TransportFailed => if old(self).may_retry() {
                    &&& step == SendStep::CloneAndResend
                    &&& !final(self).done
                    &&& final(self).sends == old(self).sends + 1
                    &&& final(self).clones == old(self).clones + 1
                } else {
                    &&& step == SendStep::Fail(ClientError::Transport)
                    &&& final(self).done
                    &&& final(self).sends == old(self).sends
                    &&& final(self).clones == old(self).clones
                },
                SendEvent::CloneFailed => step == SendStep::Fail(ClientError::RequestClone)
                    && final(self).done && final(self).sends == old(self).sends && final(self).clones == old(self).clones,
            },
    {
        match event {
            SendEvent::Delivered => {
                self.done = true;
                SendStep::Return
            },
            SendEvent::TransportFailed => {
                if self.sends <= self.budget as u32 {
                    self.sends = self.sends + 1;
                    self.clones = self.clones + 1;
                    SendStep::CloneAndResend
                } else {
                    self.done = true;
                    SendStep::Fail(ClientError::Transport)
                }
            },
            SendEvent::CloneFailed => {
                self.done = true;
                SendStep::Fail(ClientError::RequestClone)
            },
        }
    }
}

/// With a budget of zero, a transport failure of the first and only attempt ends the
/// protocol with a transport error at once, and no clone is ever asked for.
pub proof fn lemma_zero_budget_single_attempt(r: RetrySend)
    requires
        r.wf(),
        r.budget == 0,
    ensures
        r.sends == 1,
        r.clones == 0,
        !r.may_retry(),
{
}

/// However the attempts go, no more than the budget plus one are ever sent.
pub proof fn lemma_sends_within_budget(r: RetrySend)
    requires
        r.wf(),
    ensures
        r.sends <= r.budget + 1,
        r.clones <= r.budget,
{
}

} // verus!

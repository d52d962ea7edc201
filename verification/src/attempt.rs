//! The interface side of one authentication attempt.
//!
//! A [`PendingAttempt`] is the consumer end of the single-producer,
//! single-consumer message queue between the worker and the interface thread.
//! The worker delivers diagnostics and, exactly once, the final verdict; the
//! interface drains the queue with [`PendingAttempt::poll`], which never
//! blocks — on an empty queue it reports "nothing yet" at once, whatever the
//! backend's latency. A [`Session`] adds the busy guard over attempts: at most
//! one is in flight, and a new one may begin only once the previous verdict
//! has been observed.

use vstd::prelude::*;

use crate::auth::{
    AuthError,
    ConversationMessage,
    Credentials,
    CredentialsView,
    MessageView,
    lemma_message_views_concat,
    lemma_message_views_push,
    lemma_message_views_remove_first,
    message_views,
};
use crate::backend::{BackendScript, attempt_messages, lemma_exactly_one_login_result, run_transaction};

verus! {

/// The consumer end of one attempt's message queue, together with the
/// credentials its worker answers prompts from.
pub struct PendingAttempt {
    conversation: Credentials,
    queue: Vec<ConversationMessage>,
    result_delivered: bool,
    result_observed: bool,
}

/// The mathematical value of a [`PendingAttempt`].
pub ghost struct PendingAttemptView {
    pub conversation: CredentialsView,
    pub queue: Seq<MessageView>,
    pub result_delivered: bool,
    pub result_observed: bool,
}

impl View for PendingAttempt {
    type V = PendingAttemptView;

    closed spec fn view(&self) -> PendingAttemptView {
        PendingAttemptView {
            conversation: self.conversation@,
            queue: message_views(self.queue@),
            result_delivered: self.result_delivered,
            result_observed: self.result_observed,
        }
    }
}

impl PendingAttempt {
    /// Invariant of the queue: a verdict message can stand only at the back,
    /// and only once the worker has delivered it; after the verdict has been
    /// polled the queue is empty for good.
    pub open spec fn wf(self) -> bool {
        &&& (forall|i: int|
            0 <= i < self@.queue.len() && (#[trigger] self@.queue[i]) is LoginResult ==> i
                == self@.queue.len() - 1 && self@.result_delivered)
        &&& (self@.result_observed ==> self@.result_delivered && self@.queue.len() == 0)
    }

    /// The username the attempt's conversation answers plain prompts with is
    /// never empty: attempts are dispatched for an operating-system user.
    pub open spec fn wf_conversation(self) -> bool {
        self@.conversation.wf()
    }

    /// Whether the final verdict has been polled: the attempt is over and its
    /// queue is spent.
    pub fn settled(&self) -> (r: bool)
        ensures
            r == self@.result_observed,
    {
        self.result_observed
    }

    /// Deliver one informational line from the stack.
    pub fn deliver_info(&mut self, text: String)
        requires
            old(self).wf(),
            !old(self)@.result_delivered,
        ensures
            final(self).wf(),
            final(self)@.queue == old(self)@.queue.push(MessageView::InfoMessage(text@)),
            final(self)@.conversation == old(self)@.conversation,
            final(self)@.result_delivered == old(self)@.result_delivered,
            final(self)@.result_observed == old(self)@.result_observed,
    {
        let m = ConversationMessage::InfoMessage(text);
        proof {
            lemma_message_views_push(self.queue@, m);
        }
        self.queue.push(m);
    }

    /// Deliver one error line from the stack.
    pub fn deliver_error(&mut self, text: String)
        requires
            old(self).wf(),
            !old(self)@.result_delivered,
        ensures
            final(self).wf(),
            final(self)@.queue == old(self)@.queue.push(MessageView::ErrorMessage(text@)),
            final(self)@.conversation == old(self)@.conversation,
            final(self)@.result_delivered == old(self)@.result_delivered,
            final(self)@.result_observed == old(self)@.result_observed,
    {
        let m = ConversationMessage::ErrorMessage(text);
        proof {
            lemma_message_views_push(self.queue@, m);
        }
        self.queue.push(m);
    }

    /// Deliver the attempt's final verdict. It is the last delivery: the
    /// channel closes behind it.
    pub fn deliver_result(&mut self, verdict: Result<(), AuthError>)
        requires
            old(self).wf(),
            !old(self)@.result_delivered,
        ensures
            final(self).wf(),
            final(self)@.queue == old(self)@.queue.push(MessageView::LoginResult(verdict)),
            final(self)@.conversation == old(self)@.conversation,
            final(self)@.result_delivered,
            final(self)@.result_observed == old(self)@.result_observed,
    {
        let m = ConversationMessage::LoginResult(verdict);
        proof {
            lemma_message_views_push(self.queue@, m);
        }
        self.queue.push(m);
        self.result_delivered = true;
    }

    /// Run a whole scripted backend as the worker would, delivering its
    /// entire stream: the diagnostics in emission order, then the one
    /// verdict, last.
    pub fn run_scripted(&mut self, script: &BackendScript)
        requires
            old(self).wf(),
            !old(self)@.result_delivered,
        ensures
            final(self).wf(),
            final(self)@.queue == old(self)@.queue + attempt_messages(script@),
            final(self)@.conversation == old(self)@.conversation,
            final(self)@.result_delivered,
            final(self)@.result_observed == old(self)@.result_observed,
    {
        let mut msgs = run_transaction(&self.conversation, script);
        proof {
            lemma_message_views_concat(self.queue@, msgs@);
            lemma_exactly_one_login_result(script@);
        }
        self.queue.append(&mut msgs);
        self.result_delivered = true;
    }

    /// Take the next message if one is waiting, in delivery order.
    ///
    /// Never blocks: on an empty queue it returns `None` at once and changes
    /// nothing, however long the worker still has to run. Polling the verdict
    /// settles the attempt.
    pub fn poll(&mut self) -> (r: Option<ConversationMessage>)
        requires
            old(self).wf(),
        ensures
            final(self).wf(),
            final(self)@.conversation == old(self)@.conversation,
            final(self)@.result_delivered == old(self)@.result_delivered,
            match r {
                None => old(self)@.queue.len() == 0 && *final(self) == *old(self),
                Some(m) => {
                    &&& old(self)@.queue.len() > 0
                    &&& m@ == old(self)@.queue[0]
                    &&& final(self)@.queue == old(self)@.queue.drop_first()
                    &&& final(self)@.result_observed == (old(self)@.result_observed || m@
                        is LoginResult)
                },
            },
    {
        if self.queue.len() == 0 {
            None
        } else {
            let ghost q0: Seq<MessageView> = self@.queue;
            proof {
                lemma_message_views_remove_first(self.queue@);
            }
            let m = self.queue.remove(0);
            if m.is_login_result() {
                self.result_observed = true;
                proof {
                    // The verdict stands only at the back, so it was the sole
                    // queued message: the queue is spent.
                    assert(q0[0] is LoginResult);
                    assert(q0.len() == 1);
                    assert(self@.queue.len() == 0);
                }
            }
            proof {
                assert forall|i: int|
                    0 <= i < self@.queue.len() && (#[trigger] self@.queue[i])
                        is LoginResult implies i == self@.queue.len() - 1
                    && self@.result_delivered by {
                    assert(self@.queue[i] == q0[i + 1]);
                }
            }
            Some(m)
        }
    }
}

impl PendingAttempt {
    /// Take every waiting message, in delivery order: the whole of one idle
    /// tick. The messages come back exactly as delivered — first in, first
    /// out — and the queue is left empty; the attempt settles when the
    /// verdict was among them.
    pub fn drain(&mut self) -> (msgs: Vec<ConversationMessage>)
        requires
            old(self).wf(),
        ensures
            final(self).wf(),
            message_views(msgs@) == old(self)@.queue,
            final(self)@.queue == Seq::<MessageView>::empty(),
            final(self)@.conversation == old(self)@.conversation,
            final(self)@.result_delivered == old(self)@.result_delivered,
            final(self)@.result_observed == (old(self)@.result_observed || exists|i: int|
                0 <= i < old(self)@.queue.len() && (#[trigger] old(self)@.queue[i])
                    is LoginResult),
    {
        let ghost q0: Seq<MessageView> = self@.queue;
        let ghost c0: CredentialsView = self@.conversation;
        let ghost d0: bool = self@.result_delivered;
        let ghost obs0: bool = self@.result_observed;
        let mut msgs: Vec<ConversationMessage> = Vec::new();
        let mut done = false;
        while !done
            invariant
                self.wf(),
                self@.conversation == c0,
                self@.result_delivered == d0,
                q0 == message_views(msgs@) + self@.queue,
                self@.result_observed == (obs0 || exists|i: int|
                    0 <= i < message_views(msgs@).len() && (#[trigger] message_views(msgs@)[i])
                        is LoginResult),
                done ==> self@.queue.len() == 0,
            decreases self@.queue.len(), (if done {
                0int
            } else {
                1int
            }),
        {
            let ghost mv: Seq<MessageView> = message_views(msgs@);
            let ghost pre: Seq<MessageView> = self@.queue;
            match self.poll() {
                Some(m) => {
                    proof {
                        lemma_message_views_push(msgs@, m);
                        assert(mv.push(m@) + self@.queue =~= mv + pre);
                        if m@ is LoginResult {
                            assert(mv.push(m@)[mv.len() as int] is LoginResult);
                        }
                        assert forall|i: int|
                            0 <= i < mv.push(m@).len() && (#[trigger] mv.push(m@)[i])
                                is LoginResult implies (m@ is LoginResult || exists|j: int|
                            0 <= j < mv.len() && (#[trigger] mv[j]) is LoginResult) by {
                            if i < mv.len() {
                                assert(mv[i] is LoginResult);
                            }
                        }
                    }
                    msgs.push(m);
                },
                None => {
                    done = true;
                },
            }
        }
        proof {
            assert(message_views(msgs@) =~= q0);
        }
        msgs
    }
}

/// Dispatch one authentication attempt for the given credentials.
///
/// The username must name an operating-system user (non-empty); the password
/// may be empty — an empty password is a legitimate failing attempt, not a
/// misuse. The returned attempt starts with an empty queue and owns the
/// credentials; its worker is then driven through the delivery operations, so
/// nothing of any earlier attempt can reach this one's stream.
pub fn authenticate(username: String, password: String) -> (a: PendingAttempt)
    requires
        username@.len() > 0,
    ensures
        a.wf(),
        a.wf_conversation(),
        a@.queue == Seq::<MessageView>::empty(),
        !a@.result_delivered,
        !a@.result_observed,
        a@.conversation == (CredentialsView { username: username@, password: password@ }),
{
    let a = PendingAttempt {
        conversation: Credentials::new(username, password),
        queue: Vec::new(),
        result_delivered: false,
        result_observed: false,
    };
    proof {
        assert(a@.queue =~= Seq::<MessageView>::empty());
    }
    a
}

/// What the interface does with one polled message.
#[derive(Debug, PartialEq)]
pub enum UiAction {
    /// The verdict was success: release the session lock.
    Unlock,
    /// The verdict was a failure: display it and re-enable the input field.
    ShowError(AuthError),
    /// Diagnostic text: append a line to the scrolling feed; the attempt
    /// continues.
    AppendFeed(String),
}

/// The mathematical value of a [`UiAction`].
pub ghost enum UiActionView {
    Unlock,
    ShowError(AuthError),
    AppendFeed(Seq<char>),
}

impl View for UiAction {
    type V = UiActionView;

    open spec fn view(&self) -> UiActionView {
        match self {
            UiAction::Unlock => UiActionView::Unlock,
            UiAction::ShowError(e) => UiActionView::ShowError(*e),
            UiAction::AppendFeed(s) => UiActionView::AppendFeed(s@),
        }
    }
}

/// The feed line shown for one diagnostic message, tagged by its kind.
pub open spec fn spec_feed_line(m: MessageView) -> Seq<char> {
    match m {
        MessageView::InfoMessage(t) => "info: "@ + t,
        MessageView::ErrorMessage(t) => "error: "@ + t,
        MessageView::LoginResult(_) => Seq::empty(),
    }
}

/// The interface's reaction to one message.
pub open spec fn spec_ui_reaction(m: MessageView) -> UiActionView {
    match m {
        MessageView::LoginResult(r) => match r {
            Ok(_) => UiActionView::Unlock,
            Err(e) => UiActionView::ShowError(e),
        },
        MessageView::InfoMessage(_) => UiActionView::AppendFeed(spec_feed_line(m)),
        MessageView::ErrorMessage(_) => UiActionView::AppendFeed(spec_feed_line(m)),
    }
}

/// Decide what the interface does with one polled message: unlock on
/// success, display the failure on an error verdict, and append tagged
/// diagnostic text to the feed otherwise.
pub fn ui_reaction(m: &ConversationMessage) -> (a: UiAction)
    ensures
        a@ == spec_ui_reaction(m@),
{
    match m {
        ConversationMessage::LoginResult(r) => match r {
            Ok(_) => UiAction::Unlock,
            Err(e) => UiAction::ShowError(*e),
        },
        ConversationMessage::InfoMessage(t) => {
            let mut line = String::from_str("info: ");
            line.append(t.as_str());
            UiAction::AppendFeed(line)
        },
        ConversationMessage::ErrorMessage(t) => {
            let mut line = String::from_str("error: ");
            line.append(t.as_str());
            UiAction::AppendFeed(line)
        },
    }
}

/// The lifecycle of the interface across attempts: a new attempt may begin
/// only when none is in flight; an attempt is in flight from its dispatch
/// until its verdict is observed.
#[derive(Clone, Copy, Debug, PartialEq, Eq, Structural)]
pub enum SessionState {
    /// No attempt yet, or the last one failed and input was re-enabled.
    Idle,
    /// An attempt is in flight: input is disabled, the interface is busy.
    Pending,
    /// The last attempt succeeded: the lock is to be released.
    Succeeded,
    /// The last attempt failed: its error is on display.
    Failed,
}

/// The interface's attempt tracker: the busy guard and the current attempt.
pub struct Session {
    pub state: SessionState,
    pub attempt: Option<PendingAttempt>,
}

impl Session {
    /// Invariant: an attempt exists exactly while one is in flight or its
    /// outcome is on display; in flight its verdict is still unobserved, and
    /// afterwards it has been.
    pub open spec fn wf(self) -> bool {
        &&& (self.state == SessionState::Idle ==> self.attempt is None)
        &&& (self.attempt matches Some(a) ==> a.wf() && a.wf_conversation())
        &&& (self.state == SessionState::Pending ==> (self.attempt matches Some(a)
            && !a@.result_observed))
        &&& ((self.state == SessionState::Succeeded || self.state == SessionState::Failed) ==> (
        self.attempt matches Some(a) && a@.result_observed))
    }

    /// Which lifecycle state the session is in.
    pub fn state(&self) -> (s: SessionState)
        ensures
            s == self.state,
    {
        self.state
    }

    /// Whether an attempt is in flight: the busy guard that disables input
    /// and forbids dispatching another attempt.
    pub open spec fn spec_busy(self) -> bool {
        self.state == SessionState::Pending
    }

    /// Whether an attempt is in flight.
    pub fn busy(&self) -> (r: bool)
        ensures
            r == self.spec_busy(),
    {
        match self.state {
            SessionState::Pending => true,
            _ => false,
        }
    }

    pub fn new() -> (s: Session)
        ensures
            s.wf(),
            s.state == SessionState::Idle,
    {
        Session { state: SessionState::Idle, attempt: None }
    }

    /// Dispatch a new attempt for the given credentials.
    ///
    /// Only allowed from rest: the busy guard the interface holds keeps a
    /// second attempt out while one is in flight, and a displayed failure is
    /// acknowledged first. The new attempt starts with an empty queue
    /// whatever any earlier attempt delivered: streams of sequential
    /// attempts cannot mix.
    pub fn authenticate(&mut self, username: String, password: String)
        requires
            old(self).wf(),
            old(self).state == SessionState::Idle,
            username@.len() > 0,
        ensures
            final(self).wf(),
            final(self).state == SessionState::Pending,
            final(self).attempt matches Some(a) && a@ == (PendingAttemptView {
                conversation: CredentialsView { username: username@, password: password@ },
                queue: Seq::<MessageView>::empty(),
                result_delivered: false,
                result_observed: false,
            }),
    {
        self.attempt = Some(authenticate(username, password));
        self.state = SessionState::Pending;
    }

    /// Run the in-flight attempt against a whole scripted backend,
    /// delivering its entire stream at once.
    pub fn run_scripted(&mut self, script: &BackendScript)
        requires
            old(self).wf(),
            old(self).spec_busy(),
            old(self).attempt matches Some(a) && !a@.result_delivered,
        ensures
            final(self).wf(),
            final(self).state == SessionState::Pending,
            final(self).attempt matches Some(a) && old(self).attempt matches Some(a0) && a@.queue
                == a0@.queue + attempt_messages(script@) && a@.result_delivered
                && a@.conversation == a0@.conversation,
    {
        if let Some(a) = &mut self.attempt {
            a.run_scripted(script);
        }
    }

    /// One idle tick: take the next message of the in-flight attempt, if one
    /// is waiting, and settle the session on a verdict.
    ///
    /// Never blocks: with no attempt in flight or nothing delivered yet it
    /// returns `None` at once.
    pub fn poll(&mut self) -> (r: Option<ConversationMessage>)
        requires
            old(self).wf(),
        ensures
            final(self).wf(),
            match r {
                None => *final(self) == *old(self) && (old(self).spec_busy() ==> (old(
                    self,
                ).attempt matches Some(a) && a@.queue.len() == 0)),
                Some(m) => {
                    &&& old(self).spec_busy()
                    &&& old(self).attempt matches Some(a0) && a0@.queue.len() > 0 && m@
                        == a0@.queue[0]
                    &&& final(self).attempt matches Some(a) && old(self).attempt matches Some(a0)
                        && a@.queue == a0@.queue.drop_first() && a@.conversation
                        == a0@.conversation
                    &&& final(self).state == (match m@ {
                        MessageView::LoginResult(v) => if v is Ok {
                            SessionState::Succeeded
                        } else {
                            SessionState::Failed
                        },
                        _ => SessionState::Pending,
                    })
                },
            },
    {
        match self.state {
            SessionState::Pending => {
                let polled = if let Some(a) = &mut self.attempt {
                    a.poll()
                } else {
                    None
                };
                match polled {
                    Some(m) => {
                        if let ConversationMessage::LoginResult(v) = &m {
                            self.state = if v.is_ok() {
                                SessionState::Succeeded
                            } else {
                                SessionState::Failed
                            };
                        }
                        Some(m)
                    },
                    None => None,
                }
            },
            _ => None,
        }
    }

    /// Acknowledge a displayed failure and re-enable input: the session
    /// returns to rest, ready for a user-initiated retry.
    pub fn acknowledge_failure(&mut self)
        requires
            old(self).wf(),
            old(self).state == SessionState::Failed,
        ensures
            final(self).wf(),
            final(self).state == SessionState::Idle,
    {
        self.state = SessionState::Idle;
        self.attempt = None;
    }
}

} // verus!

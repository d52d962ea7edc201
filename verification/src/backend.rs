//! The worker side of one authentication attempt.
//!
//! The authentication stack drives a conversation: it prompts, emits text, and
//! finally pronounces a verdict for each management step. A stub backend (or a
//! recording of a live one) is a [`BackendScript`]; the worker logic here
//! answers its prompts from the credentials, forwards its text to the message
//! stream, and sequences the two management steps — the account-validity check
//! runs only after a successful primary check. The stream it produces carries
//! exactly one verdict, and the verdict comes last.

use vstd::prelude::*;

use crate::auth::{
    AuthError,
    ConversationMessage,
    Credentials,
    CredentialsView,
    MessageView,
    lemma_message_views_push,
    message_views,
};

verus! {

/// One callback from the authentication stack during a management step.
#[derive(Debug)]
pub enum StackRequest {
    /// A plain prompt: the stack asks for a login name.
    Prompt(String),
    /// A masked prompt: the stack asks for a secret.
    MaskedPrompt(String),
    /// Informational text to surface to the user.
    InfoMsg(String),
    /// Error text to surface to the user.
    ErrorMsg(String),
}

/// The mathematical value of a [`StackRequest`].
pub ghost enum RequestView {
    Prompt(Seq<char>),
    MaskedPrompt(Seq<char>),
    InfoMsg(Seq<char>),
    ErrorMsg(Seq<char>),
}

impl View for StackRequest {
    type V = RequestView;

    open spec fn view(&self) -> RequestView {
        match self {
            StackRequest::Prompt(s) => RequestView::Prompt(s@),
            StackRequest::MaskedPrompt(s) => RequestView::MaskedPrompt(s@),
            StackRequest::InfoMsg(s) => RequestView::InfoMsg(s@),
            StackRequest::ErrorMsg(s) => RequestView::ErrorMsg(s@),
        }
    }
}

/// The values of a sequence of requests, element by element.
pub open spec fn request_views(s: Seq<StackRequest>) -> Seq<RequestView> {
    s.map_values(|r: StackRequest| r@)
}

/// The adapter's reply to one request: a plain prompt is answered with the
/// username verbatim, a masked prompt with the password verbatim; text
/// requests get no reply.
pub open spec fn spec_answer(req: RequestView, c: CredentialsView) -> Option<Seq<char>> {
    match req {
        RequestView::Prompt(_) => Some(c.username),
        RequestView::MaskedPrompt(_) => Some(c.password),
        RequestView::InfoMsg(_) => None,
        RequestView::ErrorMsg(_) => None,
    }
}

/// The channel message one request forwards: informational and error text is
/// relayed to the interface; prompts produce no message.
pub open spec fn spec_forward(req: RequestView) -> Option<MessageView> {
    match req {
        RequestView::Prompt(_) => None,
        RequestView::MaskedPrompt(_) => None,
        RequestView::InfoMsg(t) => Some(MessageView::InfoMessage(t)),
        RequestView::ErrorMsg(t) => Some(MessageView::ErrorMessage(t)),
    }
}

impl StackRequest {
    /// The reply the conversation adapter returns to the stack for this
    /// request, if the request is a prompt.
    pub fn answer(&self, creds: &Credentials) -> (r: Option<String>)
        ensures
            match r {
                Some(s) => spec_answer(self@, creds@) matches Some(v) && s@ == v,
                None => spec_answer(self@, creds@) is None,
            },
    {
        match self {
            StackRequest::Prompt(_) => Some(creds.prompt_answer()),
            StackRequest::MaskedPrompt(_) => Some(creds.masked_prompt_answer()),
            StackRequest::InfoMsg(_) => None,
            StackRequest::ErrorMsg(_) => None,
        }
    }

    /// The message the conversation adapter forwards to the interface for
    /// this request, if the request carries text to surface.
    pub fn forward(&self) -> (r: Option<ConversationMessage>)
        ensures
            match r {
                Some(m) => spec_forward(self@) matches Some(v) && m@ == v,
                None => spec_forward(self@) is None,
            },
    {
        match self {
            StackRequest::Prompt(_) => None,
            StackRequest::MaskedPrompt(_) => None,
            StackRequest::InfoMsg(t) => Some(ConversationMessage::InfoMessage(t.clone())),
            StackRequest::ErrorMsg(t) => Some(ConversationMessage::ErrorMessage(t.clone())),
        }
    }
}

/// What the stack does during one management step: its callbacks in emission
/// order, then the step's verdict.
#[derive(Debug)]
pub struct StepRun {
    pub requests: Vec<StackRequest>,
    pub verdict: Result<(), AuthError>,
}

/// The mathematical value of a [`StepRun`].
pub ghost struct StepRunView {
    pub requests: Seq<RequestView>,
    pub verdict: Result<(), AuthError>,
}

impl View for StepRun {
    type V = StepRunView;

    open spec fn view(&self) -> StepRunView {
        StepRunView { requests: request_views(self.requests@), verdict: self.verdict }
    }
}

/// One whole transaction's backend behaviour: whether the transaction could
/// be built at all, then the primary authentication step, then the
/// account-validity step.
#[derive(Debug)]
pub struct BackendScript {
    /// Outcome of building the transaction; a failure here is reported as the
    /// attempt's verdict without any step being run.
    pub setup: Result<(), AuthError>,
    /// The primary authentication check.
    pub primary: StepRun,
    /// The account-validity check, run only after the primary check succeeds.
    pub account: StepRun,
}

/// The mathematical value of a [`BackendScript`].
pub ghost struct BackendScriptView {
    pub setup: Result<(), AuthError>,
    pub primary: StepRunView,
    pub account: StepRunView,
}

impl View for BackendScript {
    type V = BackendScriptView;

    open spec fn view(&self) -> BackendScriptView {
        BackendScriptView { setup: self.setup, primary: self.primary@, account: self.account@ }
    }
}

/// The messages one step forwards, in emission order.
pub open spec fn forwarded_messages(reqs: Seq<RequestView>) -> Seq<MessageView>
    decreases reqs.len(),
{
    if reqs.len() == 0 {
        Seq::empty()
    } else {
        forwarded_messages(reqs.drop_last()) + (match spec_forward(reqs.last()) {
            Some(m) => seq![m],
            None => Seq::empty(),
        })
    }
}

/// The prompt answers one step returns to the stack, in order.
pub open spec fn prompt_answers(reqs: Seq<RequestView>, c: CredentialsView) -> Seq<Seq<char>>
    decreases reqs.len(),
{
    if reqs.len() == 0 {
        Seq::empty()
    } else {
        prompt_answers(reqs.drop_last(), c) + (match spec_answer(reqs.last(), c) {
            Some(a) => seq![a],
            None => Seq::empty(),
        })
    }
}

/// The verdict of one whole attempt: a setup failure when the transaction
/// could not be built, else the primary step's failure when that step
/// failed, else the account step's verdict.
pub open spec fn combined_verdict(s: BackendScriptView) -> Result<(), AuthError> {
    if s.setup is Err {
        s.setup
    } else if s.primary.verdict is Err {
        s.primary.verdict
    } else {
        s.account.verdict
    }
}

/// The diagnostic messages of one attempt, in emission order: the primary
/// step's, then — only if the primary step succeeded — the account step's.
/// A setup failure emits no diagnostics.
pub open spec fn attempt_diagnostics(s: BackendScriptView) -> Seq<MessageView> {
    if s.setup is Err {
        Seq::empty()
    } else if s.primary.verdict is Err {
        forwarded_messages(s.primary.requests)
    } else {
        forwarded_messages(s.primary.requests) + forwarded_messages(s.account.requests)
    }
}

/// The whole message stream of one attempt: its diagnostics, then exactly one
/// verdict message, last.
pub open spec fn attempt_messages(s: BackendScriptView) -> Seq<MessageView> {
    attempt_diagnostics(s).push(MessageView::LoginResult(combined_verdict(s)))
}

proof fn lemma_forwarded_messages_step(reqs: Seq<RequestView>, i: int)
    requires
        0 <= i < reqs.len(),
    ensures
        forwarded_messages(reqs.take(i + 1)) == forwarded_messages(reqs.take(i)) + (match spec_forward(
            reqs[i],
        ) {
            Some(m) => seq![m],
            None => Seq::<MessageView>::empty(),
        }),
{
    assert(reqs.take(i + 1).drop_last() =~= reqs.take(i));
    assert(reqs.take(i + 1).last() == reqs[i]);
}

proof fn lemma_prompt_answers_step(reqs: Seq<RequestView>, c: CredentialsView, i: int)
    requires
        0 <= i < reqs.len(),
    ensures
        prompt_answers(reqs.take(i + 1), c) == prompt_answers(reqs.take(i), c) + (match spec_answer(
            reqs[i],
            c,
        ) {
            Some(a) => seq![a],
            None => Seq::<Seq<char>>::empty(),
        }),
{
    assert(reqs.take(i + 1).drop_last() =~= reqs.take(i));
    assert(reqs.take(i + 1).last() == reqs[i]);
}

/// The values of a sequence of answer strings, element by element.
pub open spec fn answer_views(s: Seq<String>) -> Seq<Seq<char>> {
    s.map_values(|a: String| a@)
}

proof fn lemma_answer_views_push(s: Seq<String>, a: String)
    ensures
        answer_views(s.push(a)) == answer_views(s).push(a@),
{
    assert(answer_views(s.push(a)) =~= answer_views(s).push(a@));
}

proof fn lemma_forwarded_no_login_result(reqs: Seq<RequestView>)
    ensures
        forall|i: int|
            0 <= i < forwarded_messages(reqs).len() ==> !(#[trigger] forwarded_messages(reqs)[i]
                is LoginResult),
    decreases reqs.len(),
{
    if reqs.len() > 0 {
        lemma_forwarded_no_login_result(reqs.drop_last());
    }
}

/// Law: every attempt's stream carries exactly one verdict message; it is the
/// last message, and it carries the combined verdict — a setup failure, else
/// the primary step's failure, else the account step's verdict.
pub proof fn lemma_exactly_one_login_result(s: BackendScriptView)
    ensures
        attempt_messages(s).len() > 0,
        attempt_messages(s).last() == MessageView::LoginResult(combined_verdict(s)),
        forall|i: int|
            0 <= i < attempt_messages(s).len() - 1 ==> !(#[trigger] attempt_messages(s)[i]
                is LoginResult),
{
    lemma_forwarded_no_login_result(s.primary.requests);
    lemma_forwarded_no_login_result(s.account.requests);
}

/// Law: a failing attempt never reports success — when the combined verdict
/// is an error, the one verdict message of the stream carries that error, and
/// no message of the stream carries `Ok`.
pub proof fn lemma_failed_attempt_never_ok(s: BackendScriptView)
    requires
        combined_verdict(s) is Err,
    ensures
        forall|i: int|
            0 <= i < attempt_messages(s).len() ==> (#[trigger] attempt_messages(s)[i] matches
                MessageView::LoginResult(r) ==> r == combined_verdict(s)),
{
    lemma_exactly_one_login_result(s);
}

/// Law: an attempt the backend accepts reports success exactly once — the
/// stream's last message is `LoginResult(Ok)`, and no earlier message is a
/// verdict.
pub proof fn lemma_accepted_attempt_one_ok(s: BackendScriptView)
    requires
        combined_verdict(s) is Ok,
    ensures
        attempt_messages(s).last() matches MessageView::LoginResult(r) && r is Ok,
        forall|i: int|
            0 <= i < attempt_messages(s).len() - 1 ==> !(#[trigger] attempt_messages(s)[i]
                is LoginResult),
{
    lemma_exactly_one_login_result(s);
}

/// Law: attempts run one after the other compose without cross-talk — the
/// stream observed over both is the first attempt's messages followed by the
/// second's, each segment exactly as if the other attempt had never run.
pub proof fn lemma_sequential_attempts(s1: BackendScriptView, s2: BackendScriptView)
    ensures
        (attempt_messages(s1) + attempt_messages(s2)).subrange(
            0,
            attempt_messages(s1).len() as int,
        ) == attempt_messages(s1),
        (attempt_messages(s1) + attempt_messages(s2)).subrange(
            attempt_messages(s1).len() as int,
            (attempt_messages(s1).len() + attempt_messages(s2).len()) as int,
        ) == attempt_messages(s2),
{
    let both = attempt_messages(s1) + attempt_messages(s2);
    assert(both.subrange(0, attempt_messages(s1).len() as int) =~= attempt_messages(s1));
    assert(both.subrange(
        attempt_messages(s1).len() as int,
        (attempt_messages(s1).len() + attempt_messages(s2).len()) as int,
    ) =~= attempt_messages(s2));
}

/// Conduct one management step's conversation: answer each of the stack's
/// prompts from the credentials, forward each of its text messages to the
/// stream, and report the step's verdict.
pub fn run_step(
    creds: &Credentials,
    step: &StepRun,
    stream: &mut Vec<ConversationMessage>,
    answers: &mut Vec<String>,
) -> (verdict: Result<(), AuthError>)
    ensures
        message_views(final(stream)@) == message_views(old(stream)@) + forwarded_messages(
            step@.requests,
        ),
        answer_views(final(answers)@) == answer_views(old(answers)@) + prompt_answers(
            step@.requests,
            creds@,
        ),
        verdict == step@.verdict,
{
    let ghost reqs: Seq<RequestView> = step@.requests;
    let ghost stream0: Seq<MessageView> = message_views(stream@);
    let ghost answers0: Seq<Seq<char>> = answer_views(answers@);
    let n = step.requests.len();
    let mut i: usize = 0;
    while i < n
        invariant
            n == step.requests.len(),
            i <= n,
            reqs == request_views(step.requests@),
            message_views(stream@) == stream0 + forwarded_messages(reqs.take(i as int)),
            answer_views(answers@) == answers0 + prompt_answers(reqs.take(i as int), creds@),
        decreases n - i,
    {
        let req = &step.requests[i];
        assert(req@ == reqs[i as int]);
        if let Some(a) = req.answer(creds) {
            proof {
                lemma_answer_views_push(answers@, a);
                lemma_prompt_answers_step(reqs, creds@, i as int);
            }
            answers.push(a);
        } else {
            proof {
                lemma_prompt_answers_step(reqs, creds@, i as int);
                assert(answer_views(answers@) =~= answers0 + prompt_answers(
                    reqs.take(i + 1),
                    creds@,
                ));
            }
        }
        if let Some(m) = req.forward() {
            proof {
                lemma_message_views_push(stream@, m);
                lemma_forwarded_messages_step(reqs, i as int);
            }
            stream.push(m);
        } else {
            proof {
                lemma_forwarded_messages_step(reqs, i as int);
                assert(message_views(stream@) =~= stream0 + forwarded_messages(reqs.take(i + 1)));
            }
        }
        i = i + 1;
    }
    proof {
        assert(reqs.take(n as int) =~= reqs);
    }
    step.verdict
}

/// Run a whole scripted transaction as the worker does, in order: the primary
/// authentication check, then — only if it succeeded — the account-validity
/// check; the combined verdict is appended as the final message. The stream
/// returned is exactly the attempt's: its diagnostics, then one verdict, last.
pub fn run_transaction(creds: &Credentials, script: &BackendScript) -> (msgs: Vec<
    ConversationMessage,
>)
    ensures
        message_views(msgs@) == attempt_messages(script@),
{
    let mut stream: Vec<ConversationMessage> = Vec::new();
    let mut answers: Vec<String> = Vec::new();
    if let Err(e) = script.setup {
        proof {
            lemma_message_views_push(stream@, ConversationMessage::LoginResult(Err(e)));
            assert(message_views(stream@) =~= Seq::<MessageView>::empty());
            assert(attempt_diagnostics(script@) =~= Seq::<MessageView>::empty());
        }
        stream.push(ConversationMessage::LoginResult(Err(e)));
        return stream;
    }
    let ghost empty_stream: Seq<MessageView> = message_views(stream@);
    proof {
        assert(empty_stream =~= Seq::<MessageView>::empty());
    }
    let primary = run_step(creds, &script.primary, &mut stream, &mut answers);
    if let Err(e) = primary {
        proof {
            lemma_message_views_push(stream@, ConversationMessage::LoginResult(Err(e)));
            assert(Seq::<MessageView>::empty() + forwarded_messages(script@.primary.requests)
                =~= forwarded_messages(script@.primary.requests));
        }
        stream.push(ConversationMessage::LoginResult(Err(e)));
        return stream;
    }
    let account = run_step(creds, &script.account, &mut stream, &mut answers);
    proof {
        lemma_message_views_push(stream@, ConversationMessage::LoginResult(account));
        assert((Seq::<MessageView>::empty() + forwarded_messages(script@.primary.requests))
            + forwarded_messages(script@.account.requests) =~= forwarded_messages(
            script@.primary.requests,
        ) + forwarded_messages(script@.account.requests));
    }
    stream.push(ConversationMessage::LoginResult(account));
    stream
}

} // verus!

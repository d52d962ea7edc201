//! The vocabulary of one authentication attempt: the failure taxonomy of the
//! system authentication stack, the messages a worker sends back to the
//! interface thread, and the credentials that answer the stack's prompts.

use vstd::prelude::*;

verus! {

/// A failure class of the authentication stack, as the interface reports it.
#[derive(Clone, Copy, Debug, PartialEq, Eq, Structural)]
pub enum AuthError {
    /// The credentials were wrong.
    AuthenticationError,
    /// The credentials are no longer valid and must be renewed.
    CredentialExpired,
    /// The account itself has expired.
    AccountExpired,
    /// The account is locked or otherwise restricted.
    AccountLocked,
    /// The conversation with the stack was cancelled.
    Abort,
    /// The stack is misconfigured or a resource failed.
    SystemError,
}

impl AuthError {
    /// The text the interface shows for this failure class.
    pub open spec fn spec_describe(self) -> Seq<char> {
        match self {
            AuthError::AuthenticationError => "authentication failed"@,
            AuthError::CredentialExpired => "credentials expired"@,
            AuthError::AccountExpired => "account expired"@,
            AuthError::AccountLocked => "account locked"@,
            AuthError::Abort => "authentication aborted"@,
            AuthError::SystemError => "authentication system error"@,
        }
    }

    /// Human-readable description of the failure, for the error label.
    pub fn describe(&self) -> (r: &'static str)
        ensures
            r@ == self.spec_describe(),
    {
        match self {
            AuthError::AuthenticationError => "authentication failed",
            AuthError::CredentialExpired => "credentials expired",
            AuthError::AccountExpired => "account expired",
            AuthError::AccountLocked => "account locked",
            AuthError::Abort => "authentication aborted",
            AuthError::SystemError => "authentication system error",
        }
    }
}

/// One message from the worker to the interface thread.
///
/// Informational and error text may arrive in any number during an attempt;
/// the final verdict arrives exactly once, after all of them.
#[derive(Debug, PartialEq)]
pub enum ConversationMessage {
    /// The verdict that closes the attempt.
    LoginResult(Result<(), AuthError>),
    /// Informational text from the stack, for the diagnostic feed.
    InfoMessage(String),
    /// Error text from the stack, for the diagnostic feed.
    ErrorMessage(String),
}

/// The mathematical value of a [`ConversationMessage`].
pub ghost enum MessageView {
    LoginResult(Result<(), AuthError>),
    InfoMessage(Seq<char>),
    ErrorMessage(Seq<char>),
}

impl View for ConversationMessage {
    type V = MessageView;

    open spec fn view(&self) -> MessageView {
        match self {
            ConversationMessage::LoginResult(r) => MessageView::LoginResult(*r),
            ConversationMessage::InfoMessage(s) => MessageView::InfoMessage(s@),
            ConversationMessage::ErrorMessage(s) => MessageView::ErrorMessage(s@),
        }
    }
}

/// The values of a sequence of messages, element by element.
pub open spec fn message_views(s: Seq<ConversationMessage>) -> Seq<MessageView> {
    s.map_values(|m: ConversationMessage| m@)
}

/// Appending a message appends its value.
pub proof fn lemma_message_views_push(s: Seq<ConversationMessage>, m: ConversationMessage)
    ensures
        message_views(s.push(m)) == message_views(s).push(m@),
{
    assert(message_views(s.push(m)) =~= message_views(s).push(m@));
}

/// Concatenating message sequences concatenates their values.
pub proof fn lemma_message_views_concat(s: Seq<ConversationMessage>, t: Seq<ConversationMessage>)
    ensures
        message_views(s + t) == message_views(s) + message_views(t),
{
    assert(message_views(s + t) =~= message_views(s) + message_views(t));
}

/// Taking the front message off drops the front value.
pub proof fn lemma_message_views_remove_first(s: Seq<ConversationMessage>)
    requires
        s.len() > 0,
    ensures
        message_views(s.remove(0)) == message_views(s).drop_first(),
{
    assert(message_views(s.remove(0)) =~= message_views(s).drop_first());
}

impl ConversationMessage {
    /// Whether this message is the attempt's final verdict.
    pub fn is_login_result(&self) -> (r: bool)
        ensures
            r == (self@ is LoginResult),
    {
        match self {
            ConversationMessage::LoginResult(_) => true,
            _ => false,
        }
    }
}

/// The username and password of one attempt, owned by its worker.
///
/// The stack's plain prompts are answered with the username verbatim and its
/// masked prompts with the password verbatim; the password may be empty (an
/// empty password is a legitimate failing attempt, not a misuse).
#[derive(Debug)]
pub struct Credentials {
    pub username: String,
    pub password: String,
}

/// The mathematical value of [`Credentials`].
pub ghost struct CredentialsView {
    pub username: Seq<char>,
    pub password: Seq<char>,
}

impl CredentialsView {
    /// A well-formed pair names an operating-system user: the username is
    /// non-empty. The password may be anything, the empty string included.
    pub open spec fn wf(self) -> bool {
        self.username.len() > 0
    }
}

impl View for Credentials {
    type V = CredentialsView;

    open spec fn view(&self) -> CredentialsView {
        CredentialsView { username: self.username@, password: self.password@ }
    }
}

impl Credentials {
    /// Well-formedness, as [`CredentialsView::wf`] states it.
    pub open spec fn wf(self) -> bool {
        self@.wf()
    }

    pub fn new(username: String, password: String) -> (c: Credentials)
        ensures
            c@.username == username@,
            c@.password == password@,
    {
        Credentials { username, password }
    }

    /// The answer to a plain (non-masked) prompt: the username, verbatim.
    pub fn prompt_answer(&self) -> (r: String)
        ensures
            r@ == self@.username,
    {
        self.username.clone()
    }

    /// The answer to a masked (secret) prompt: the password, verbatim.
    pub fn masked_prompt_answer(&self) -> (r: String)
        ensures
            r@ == self@.password,
    {
        self.password.clone()
    }
}

} // verus!

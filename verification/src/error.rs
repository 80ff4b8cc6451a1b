//! Errors: the chain of messages that a failed operation reports, and the
//! HTTP error that an endpoint answers with.
use vstd::prelude::*;
use vstd::std_specs::convert::FromSpecImpl;

verus! {

/// `anyhow::Error`, opaque to the proofs. What they know of one is
/// [`error_messages`].
#[verifier::external_type_specification]
#[verifier::external_body]
pub struct ExAnyhowError(anyhow::Error);

/// What an `anyhow::Error` holds: the text of each error in its chain, as
/// `Display` writes it, from the outermost context to the root cause. The errors
/// of this library are made of texts alone, so how one was made settles them.
pub uninterp spec fn error_messages(error: anyhow::Error) -> Seq<Seq<char>>;

/// Calls `anyhow::Error::msg`: an error of one message, with no cause.
#[verifier::external_body]
fn error_msg(message: String) -> (error: anyhow::Error)
    ensures
        error_messages(error) == seq![message@],
{
    anyhow::Error::msg(message)
}

/// Calls `anyhow::Error::context`: the given text becomes the outermost
/// message, and the error that it is put on becomes its cause.
#[verifier::external_body]
fn error_context(error: anyhow::Error, context: String) -> (wrapped: anyhow::Error)
    ensures
        error_messages(wrapped) == seq![context@] + error_messages(error),
{
    error.context(context)
}

/// Formats an `anyhow::Error` with `{:#}`, that is with the `Display` of
/// `anyhow::Error` in its alternate form: all messages of the chain, outermost
/// first, with a colon and a space between each two.
#[verifier::external_body]
fn error_alternate(error: &anyhow::Error) -> (text: String)
    ensures
        text@ == joined(error_messages(*error)),
{
    format!("{:#}", error)
}

/// Reads the number of `http::StatusCode::INTERNAL_SERVER_ERROR` with
/// `http::StatusCode::as_u16`: it is 500.
#[verifier::external_body]
fn internal_server_error() -> (code: u16)
    ensures
        code == 500,
{
    http::StatusCode::INTERNAL_SERVER_ERROR.as_u16()
}

/// The messages, one after the other, with a colon and a space between each two.
pub open spec fn joined(messages: Seq<Seq<char>>) -> Seq<char>
    decreases messages.len(),
{
    if messages.len() == 0 {
        Seq::empty()
    } else if messages.len() == 1 {
        messages[0]
    } else {
        messages[0] + seq![':', ' '] + joined(messages.drop_first())
    }
}

/// The text of each string.
pub open spec fn texts(strings: Seq<String>) -> Seq<Seq<char>> {
    strings.map_values(|s: String| s@)
}

/// What a failed operation reports: a message and what caused it, each cause
/// followed by its own.
#[derive(Debug)]
pub struct ErrorChain {
    pub message: String,
    pub causes: Vec<String>,
}

impl View for ErrorChain {
    type V = Seq<Seq<char>>;

    /// All messages, outermost first.
    open spec fn view(&self) -> Seq<Seq<char>> {
        seq![self.message@] + texts(self.causes@)
    }
}

/// Wraps `anyhow::Error` so that it can be answered as an [`HttpError`].
///
/// It is only made here, from texts, and always holds a message.
#[derive(Debug)]
pub struct ErrorWrap(anyhow::Error);

impl View for ErrorWrap {
    type V = Seq<Seq<char>>;

    /// All messages, outermost first.
    closed spec fn view(&self) -> Seq<Seq<char>> {
        error_messages(self.0)
    }
}

impl ErrorWrap {
    /// There is a message in every error.
    #[verifier::type_invariant]
    spec fn has_a_message(self) -> bool {
        error_messages(self.0).len() > 0
    }

    /// An error of a single message.
    pub fn msg(message: String) -> (error: ErrorWrap)
        ensures
            error@ == seq![message@],
    {
        ErrorWrap(error_msg(message))
    }

    /// The error that a failed operation reported.
    pub fn from_chain(chain: ErrorChain) -> (error: ErrorWrap)
        ensures
            error@ == chain@,
            error@.len() == chain.causes@.len() + 1,
            error@[0] == chain.message@,
            forall|i: int|
                0 <= i < chain.causes@.len() ==> error@[i + 1] == (#[trigger] chain.causes@[i])@,
    {
        let ErrorChain { message, mut causes } = chain;
        let ghost all = causes@;
        let mut error = match causes.pop() {
            None => {
                return ErrorWrap::msg(message);
            },
            Some(root) => ErrorWrap::msg(root),
        };
        assert(texts(all.skip(all.len() - 1)) =~= seq![all.last()@]);
        while causes.len() > 0
            invariant
                causes@.len() < all.len(),
                causes@ == all.take(causes@.len() as int),
                error@ == texts(all.skip(causes@.len() as int)),
            decreases causes.len(),
        {
            let ghost n = causes@.len() as int;
            if let Some(cause) = causes.pop() {
                error = error.context(cause.as_str());
                assert(seq![all[n - 1]@] + texts(all.skip(n)) =~= texts(all.skip(n - 1)));
                assert(all.take(n).drop_last() =~= all.take(n - 1));
            }
        }
        assert(all.skip(0) =~= all);
        error.context(message.as_str())
    }

    /// Says what was being done when the error came. Whatever the error, that stands
    /// first in the text, before a colon, a space and the text that the error had.
    pub fn context(self, context: &str) -> (error: ErrorWrap)
        ensures
            error@ == seq![context@] + self@,
            joined(error@) == context@ + seq![':', ' '] + joined(self@),
    {
        proof {
            use_type_invariant(&self);
            law_context_stands_first(context@, self@);
        }
        ErrorWrap(error_context(self.0, context.to_owned()))
    }

    /// The error itself. It holds a message.
    pub fn into_error(self) -> (error: anyhow::Error)
        ensures
            error_messages(error) == self@,
            error_messages(error).len() > 0,
    {
        proof {
            use_type_invariant(&self);
        }
        self.0
    }
}

/// The error that an endpoint answers with.
#[derive(Debug)]
pub struct HttpError {
    /// The HTTP status.
    pub status_code: u16,
    /// A code for programs to go by, where there is one.
    pub error_code: Option<String>,
    /// What the client is told.
    pub external_message: String,
    /// What the server's log is told.
    pub internal_message: String,
}

impl HttpError {
    /// Status 500, no code, and the same message for the client and for the log.
    pub open spec fn is_internal(self, message: Seq<char>) -> bool {
        &&& self.status_code == 500
        &&& self.error_code is None
        &&& self.external_message@ == message
        &&& self.internal_message@ == message
    }
}

impl From<ErrorWrap> for HttpError {
    /// Status 500 with the whole chain of messages, of which there is at least one.
    fn from(value: ErrorWrap) -> (error: HttpError)
        ensures
            error.is_internal(joined(value@)),
            error.status_code == 500,
            error.error_code is None,
            error.external_message@ == joined(value@),
            error.internal_message@ == error.external_message@,
            value@.len() > 0,
    {
        proof {
            use_type_invariant(&value);
        }
        let message = error_alternate(&value.0);
        HttpError {
            status_code: internal_server_error(),
            error_code: None,
            external_message: message.clone(),
            internal_message: message,
        }
    }
}

impl FromSpecImpl<ErrorWrap> for HttpError {
    /// Two strings of one text are not one value, so `from` says what its result
    /// holds in its own `ensures`.
    open spec fn obeys_from_spec() -> bool {
        false
    }

    open spec fn from_spec(value: ErrorWrap) -> HttpError {
        arbitrary()
    }
}

/// An error that is answered for a failure always has status 500 and no code, and tells
/// the client and the log the same, all of the message, however long it is.
pub proof fn law_failure_is_an_internal_server_error(error: HttpError, message: Seq<char>)
    requires
        error.is_internal(message),
    ensures
        error.status_code == 500,
        error.error_code is None,
        error.external_message@ == message,
        error.internal_message@ == message,
{
}

/// Two failures that read differently are answered differently, under the same status.
pub proof fn law_failures_are_told_apart(
    first: HttpError,
    second: HttpError,
    first_message: Seq<char>,
    second_message: Seq<char>,
)
    requires
        first.is_internal(first_message),
        second.is_internal(second_message),
    ensures
        first.status_code == second.status_code,
        first.external_message@ == second.external_message@ <==> first_message == second_message,
        first.internal_message@ == second.internal_message@ <==> first_message == second_message,
{
}

/// A chain is its message and then its causes, all of them and each in its place.
pub proof fn law_chain_is_message_and_causes(chain: ErrorChain)
    ensures
        chain@.len() == chain.causes@.len() + 1,
        chain@[0] == chain.message@,
        forall|i: int|
            0 <= i < chain.causes@.len() ==> chain@[i + 1] == (#[trigger] chain.causes@[i])@,
{
}

/// A message that nothing caused is the whole text, whatever it says.
pub proof fn law_lone_message_is_the_text(message: Seq<char>)
    ensures
        joined(seq![message]) == message,
{
}

/// The text is as long as its messages together, and two characters more for each cause.
pub proof fn law_text_is_not_cut(messages: Seq<Seq<char>>)
    requires
        messages.len() > 0,
    ensures
        joined(messages).len() + 2 == messages.fold_right(
            |message: Seq<char>, length: int| length + message.len() + 2,
            0int,
        ),
    decreases messages.len(),
{
    let lengths = |message: Seq<char>, length: int| length + message.len() + 2;
    let rest = messages.drop_first();
    messages.lemma_fold_right_split(lengths, 0int, 1);
    assert(messages.subrange(0, 1) =~= seq![messages[0]]);
    assert(messages.subrange(1, messages.len() as int) =~= rest);
    reveal_with_fuel(Seq::fold_right, 2);
    if messages.len() > 1 {
        law_text_is_not_cut(rest);
    }
}

/// What was being done stands first in the text, before what caused the error.
pub proof fn law_context_stands_first(context: Seq<char>, messages: Seq<Seq<char>>)
    requires
        messages.len() > 0,
    ensures
        joined(seq![context] + messages) == context + seq![':', ' '] + joined(messages),
{
    assert((seq![context] + messages).drop_first() =~= messages);
}

/// No message of the chain is lost: each stands in the text.
pub proof fn law_every_message_is_shown(messages: Seq<Seq<char>>, i: int)
    requires
        0 <= i < messages.len(),
    ensures
        exists|start: int|
            0 <= start <= joined(messages).len() - messages[i].len() && #[trigger] joined(
                messages,
            ).subrange(start, start + messages[i].len()) == messages[i],
    decreases messages.len(),
{
    let text = joined(messages);
    let length = messages[i].len() as int;
    if i == 0 {
        assert(text.subrange(0, 0 + length) =~= messages[i]);
    } else {
        let rest = messages.drop_first();
        let shift = messages[0].len() + 2;
        law_every_message_is_shown(rest, i - 1);
        let start = choose|start: int|
            0 <= start <= joined(rest).len() - length && #[trigger] joined(rest).subrange(
                start,
                start + length,
            ) == rest[i - 1];
        assert(text == messages[0] + seq![':', ' '] + joined(rest));
        assert(text.subrange(start + shift, start + shift + length) =~= joined(rest).subrange(
            start,
            start + length,
        ));
    }
}

} // verus!

use vstd::prelude::*;

verus! {

/// The text that asks a new connection for its display name.
pub open spec fn prompt_text() -> Seq<char> {
    "Please enter your username:"@
}

/// The notice that `name` has come in.
pub open spec fn joined(name: Seq<char>) -> Seq<char> {
    name + " has joined the chat"@
}

/// The notice that `name` has gone.
pub open spec fn left(name: Seq<char>) -> Seq<char> {
    name + " has left the chat"@
}

/// A chat line: the sender's display name, a colon, a space, and the body as
/// it was sent.
pub open spec fn said(name: Seq<char>, body: Seq<char>) -> Seq<char> {
    name + ": "@ + body
}

/// The prompt line.
pub fn prompt() -> (line: String)
    ensures
        line@ == prompt_text(),
{
    String::from_str("Please enter your username:")
}

/// The join notice for `name`.
pub fn joined_notice(name: &str) -> (line: String)
    ensures
        line@ == joined(name@),
{
    String::from_str(name).concat(" has joined the chat")
}

/// The leave notice for `name`.
pub fn left_notice(name: &str) -> (line: String)
    ensures
        line@ == left(name@),
{
    String::from_str(name).concat(" has left the chat")
}

/// The chat line by which `body`, sent by `name`, reaches the others.
pub fn chat_line(name: &str, body: &str) -> (line: String)
    ensures
        line@ == said(name@, body@),
{
    String::from_str(name).concat(": ").concat(body)
}

} // verus!

//! The registration retry loop, as decisions: each answer of the bridge to
//! a "create user" request decides whether to stop with the issued token,
//! to wait and ask again, or to give up.

use vstd::prelude::*;
use crate::text::views;

verus! {

/// How the bridge answered one "create user" request.
#[derive(Clone, Debug, PartialEq, Eq)]
pub enum Attempt {
    /// The bridge issued this user token.
    Registered(String),
    /// The link button on the bridge has not been pressed yet.
    LinkButtonNotPressed,
    /// Any other bridge or transport failure, with its message.
    Failed(String),
}

/// What the loop does next.
#[derive(Clone, Debug, PartialEq, Eq)]
pub enum Step {
    /// Stop: registration succeeded with this token.
    Done(String),
    /// Wait the fixed interval, then ask again.
    WaitAndRetry,
    /// Stop: registration failed with this message.
    Abort(String),
}

/// The number of seconds waited before asking again.
pub const RETRY_SECONDS: u64 = 5;

/// The text put before the message of a failure that ends the loop.
pub open spec fn failure_prefix() -> Seq<char> {
    "Unexpected error occured: "@
}

/// Whether the message of a step matches what the loop reports for it:
/// the same token on success, the message with its prefix on failure.
pub open spec fn reports(s: Step, a: Attempt) -> bool {
    match (s, a) {
        (Step::Done(t), Attempt::Registered(u)) => t == u,
        (Step::WaitAndRetry, Attempt::LinkButtonNotPressed) => true,
        (Step::Abort(m), Attempt::Failed(e)) => m@ == failure_prefix() + e@,
        _ => false,
    }
}

/// Whether an answer ends the loop.
pub open spec fn ends(a: Attempt) -> bool {
    !(a is LinkButtonNotPressed)
}

/// Decides the next step on the bridge's answer: a token ends the loop
/// with success, an unpressed link button asks for another try after the
/// wait, and anything else ends the loop with the failure.
pub fn decide(a: Attempt) -> (r: Step)
    ensures
        reports(r, a),
        r is WaitAndRetry <==> !ends(a),
{
    match a {
        Attempt::Registered(t) => Step::Done(t),
        Attempt::LinkButtonNotPressed => Step::WaitAndRetry,
        Attempt::Failed(e) => {
            let mut m = "Unexpected error occured: ".to_owned();
            m.append(e.as_str());
            Step::Abort(m)
        },
    }
}

/// The number of waits the loop makes on a run of answers before the
/// first one that ends it.
pub open spec fn waits(answers: Seq<Attempt>) -> nat
    decreases answers.len(),
{
    if answers.len() == 0 || ends(answers[0]) {
        0
    } else {
        1 + waits(answers.drop_first())
    }
}

/// The answer that ends the loop on a run of answers, if any does.
pub open spec fn final_answer(answers: Seq<Attempt>) -> Option<Attempt>
    decreases answers.len(),
{
    if answers.len() == 0 {
        None
    } else if ends(answers[0]) {
        Some(answers[0])
    } else {
        final_answer(answers.drop_first())
    }
}

/// `n` answers that the link button is not pressed, then `last`.
pub open spec fn after_unpressed(n: nat, last: Attempt) -> Seq<Attempt> {
    Seq::new(n, |i: int| Attempt::LinkButtonNotPressed).push(last)
}

/// A bridge that answers "link button not pressed" `n` times and then
/// issues a token: the loop waits exactly `n` times, asks `n + 1` times,
/// and ends with that token.
pub proof fn lemma_retries_then_token(n: nat, token: String)
    ensures
        waits(after_unpressed(n, Attempt::Registered(token))) == n,
        final_answer(after_unpressed(n, Attempt::Registered(token)))
            == Some(Attempt::Registered(token)),
    decreases n,
{
    let s = after_unpressed(n, Attempt::Registered(token));
    if n > 0 {
        lemma_retries_then_token((n - 1) as nat, token);
        assert(s.drop_first() =~= after_unpressed((n - 1) as nat, Attempt::Registered(token)));
    }
}

/// A bridge whose first answer is a failure other than the unpressed link
/// button: the loop ends on that answer, without waiting.
pub proof fn lemma_failure_ends_at_once(e: String, rest: Seq<Attempt>)
    ensures
        waits(seq![Attempt::Failed(e)] + rest) == 0,
        final_answer(seq![Attempt::Failed(e)] + rest) == Some(Attempt::Failed(e)),
{
    assert((seq![Attempt::Failed(e)] + rest)[0] == Attempt::Failed(e));
}

/// A quoted value: `"v"`.
pub open spec fn quoted(v: Seq<char>) -> Seq<char> {
    "\""@ + v + "\""@
}

/// The lines shown after a successful registration: the issued token and,
/// when the settings file has a place, the settings that would make this
/// bridge and user the defaults. Nothing is written.
pub open spec fn registered_lines(user: Seq<char>, bridge: Seq<char>, path: Option<String>) -> Seq<
    Seq<char>,
> {
    let first = "Successfully user regestered: "@ + quoted(user) + "."@;
    match path {
        None => seq![first],
        Some(p) => seq![
            first,
            "I recommend you make default bridge setting such as following:"@,
            "```"@,
            "cat <<EOF > "@ + p@,
            "user = "@ + quoted(user),
            "bridge = "@ + quoted(bridge),
            "EOF"@,
            "```"@,
        ],
    }
}

fn quote(v: &str) -> (r: String)
    ensures
        r@ == quoted(v@),
{
    let mut out = "\"".to_owned();
    out.append(v);
    out.append("\"");
    out
}

fn concat2(a: &str, b: &str) -> (r: String)
    ensures
        r@ == a@ + b@,
{
    let mut out = a.to_owned();
    out.append(b);
    out
}

/// Builds the lines shown after a successful registration, for the
/// settings file at `path` if there is one.
pub fn registered_message(user: &str, bridge: &str, path: &Option<String>) -> (r: Vec<String>)
    ensures
        views(r@) == registered_lines(user@, bridge@, *path),
{
    let mut first = concat2("Successfully user regestered: ", quote(user).as_str());
    first.append(".");
    let mut lines = vec![first];
    match path {
        None => {},
        Some(p) => {
            lines.push("I recommend you make default bridge setting such as following:".to_owned());
            lines.push("```".to_owned());
            lines.push(concat2("cat <<EOF > ", p.as_str()));
            lines.push(concat2("user = ", quote(user).as_str()));
            lines.push(concat2("bridge = ", quote(bridge).as_str()));
            lines.push("EOF".to_owned());
            lines.push("```".to_owned());
        },
    }
    assert(views(lines@) =~= registered_lines(user@, bridge@, *path));
    lines
}

} // verus!

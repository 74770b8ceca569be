//! The one-shot notification event that tells a waiting client how a
//! signing request ended: a JSON object with the user id and an error
//! text, where the literal text `none` stands for success.

use vstd::prelude::*;
use vstd::string::StringExecFns;

verus! {

/// How a notification request ended; each variant carries its own
/// terminal event text.
#[derive(Clone, Copy, Debug, PartialEq, Eq, Structural)]
pub enum EventOutcome {
    /// A signature was produced and stored; the client should collect it.
    Done,
    /// The request carried no session at all.
    NoSession,
    /// The session token is not bound to any logged-in user.
    NoUser,
    /// The session's user is not the user the event was asked for.
    WrongUser,
    /// The user had no pending message to sign.
    NoPending,
    /// The user holds no signing key.
    NoKey,
    /// The signing backend rejected the key or failed to sign.
    SigningFailed,
}

/// The digit character for `d`.
pub open spec fn spec_digit(d: nat) -> char {
    if d == 0 {
        '0'
    } else if d == 1 {
        '1'
    } else if d == 2 {
        '2'
    } else if d == 3 {
        '3'
    } else if d == 4 {
        '4'
    } else if d == 5 {
        '5'
    } else if d == 6 {
        '6'
    } else if d == 7 {
        '7'
    } else if d == 8 {
        '8'
    } else {
        '9'
    }
}

/// The decimal digits of `n`, most significant first, with no leading
/// zeroes (a single `'0'` for zero itself).
pub open spec fn spec_decimal(n: nat) -> Seq<char>
    decreases n,
{
    if n < 10 {
        seq![spec_digit(n)]
    } else {
        spec_decimal(n / 10).push(spec_digit(n % 10))
    }
}

fn digit_str(d: u64) -> (r: &'static str)
    requires
        d < 10,
    ensures
        r@ == seq![spec_digit(d as nat)],
{
    proof {
        reveal_strlit("0");
        reveal_strlit("1");
        reveal_strlit("2");
        reveal_strlit("3");
        reveal_strlit("4");
        reveal_strlit("5");
        reveal_strlit("6");
        reveal_strlit("7");
        reveal_strlit("8");
        reveal_strlit("9");
    }
    if d == 0 {
        "0"
    } else if d == 1 {
        "1"
    } else if d == 2 {
        "2"
    } else if d == 3 {
        "3"
    } else if d == 4 {
        "4"
    } else if d == 5 {
        "5"
    } else if d == 6 {
        "6"
    } else if d == 7 {
        "7"
    } else if d == 8 {
        "8"
    } else {
        "9"
    }
}

/// Renders `n` in decimal.
pub fn u64_string(n: u64) -> (r: String)
    ensures
        r@ == spec_decimal(n as nat),
    decreases n,
{
    if n < 10 {
        let r = String::from_str(digit_str(n));
        proof {
            assert(r@ =~= spec_decimal(n as nat));
        }
        r
    } else {
        let mut s = u64_string(n / 10);
        s.append(digit_str(n % 10));
        proof {
            assert(s@ =~= spec_decimal(n as nat));
        }
        s
    }
}

/// The terminal event text of an outcome.
pub open spec fn spec_outcome_text(o: EventOutcome) -> Seq<char> {
    match o {
        EventOutcome::Done => "none"@,
        EventOutcome::NoSession => "No session for current user!"@,
        EventOutcome::NoUser => "No current user!"@,
        EventOutcome::WrongUser => "User not matched with the session!"@,
        EventOutcome::NoPending => "No pending message for current user!"@,
        EventOutcome::NoKey => "Key not found!"@,
        EventOutcome::SigningFailed => "Signing of message failed!"@,
    }
}

/// The terminal event text of an outcome.
pub fn outcome_text(o: &EventOutcome) -> (r: &'static str)
    ensures
        r@ == spec_outcome_text(*o),
{
    match o {
        EventOutcome::Done => "none",
        EventOutcome::NoSession => "No session for current user!",
        EventOutcome::NoUser => "No current user!",
        EventOutcome::WrongUser => "User not matched with the session!",
        EventOutcome::NoPending => "No pending message for current user!",
        EventOutcome::NoKey => "Key not found!",
        EventOutcome::SigningFailed => "Signing of message failed!",
    }
}

/// The one event object pushed for a finished signing request.
pub open spec fn spec_event_json(user_id: u64, text: Seq<char>) -> Seq<char> {
    "{\"user_id\": "@ + spec_decimal(user_id as nat) + ", \"error\": \""@ + text + "\"}"@
}

/// Renders the one event object pushed for a finished signing request,
/// for instance `{"user_id": 1, "error": "none"}`.
pub fn event_json(user_id: u64, outcome: &EventOutcome) -> (r: String)
    ensures
        r@ == spec_event_json(user_id, spec_outcome_text(*outcome)),
{
    let digits = u64_string(user_id);
    let mut s = String::from_str("{\"user_id\": ");
    s.append(digits.as_str());
    s.append(", \"error\": \"");
    s.append(outcome_text(outcome));
    s.append("\"}");
    proof {
        assert(s@ =~= spec_event_json(user_id, spec_outcome_text(*outcome)));
    }
    s
}

} // verus!

//! The session registry: an opaque random token stands for a logged-in
//! user.  A token is minted at login, resolves to exactly one user, and
//! is destroyed at logout; destroying it again changes nothing.  A
//! minted token is never one that is currently in use: a random draw
//! that collides is redrawn, and if every redraw collides, a counting
//! argument over deterministic candidates still finds a free token.

use vstd::prelude::*;
use crate::db::UserId;
use crate::random::random_printable_char;
use crate::strmap::StrMap;

verus! {

/// A well-formed session token: 16 printable-ASCII characters.
pub open spec fn token_shape(s: Seq<char>) -> bool {
    &&& s.len() == 16
    &&& forall|i: int| 0 <= i < s.len() ==> 32 <= ((#[trigger] s[i]) as u32) && (s[i] as u32) < 127
}

/// Relies on `String::push`: appends exactly the one character.
#[verifier::external_body]
fn string_push(s: &mut String, c: char)
    ensures
        final(s)@ == old(s)@.push(c),
{
    s.push(c);
}

/// A random token of the right shape.
fn random_token() -> (r: String)
    ensures
        token_shape(r@),
{
    let mut token = String::new();
    let mut i: usize = 0;
    while i < 16
        invariant
            i <= 16,
            token@.len() == i,
            forall|j: int| 0 <= j < token@.len() ==> 32 <= ((#[trigger] token@[j]) as u32) && (token@[j] as u32) < 127,
        decreases 16 - i,
    {
        let c = random_printable_char();
        string_push(&mut token, c);
        i = i + 1;
    }
    token
}

/// The digit of `c` at bit offset `sh`, as one of the 32 characters
/// from `'!'` on.
pub open spec fn spec_fallback_digit(c: u64, sh: u64) -> char {
    ((33 + ((c >> sh) & 31)) as u8) as char
}

/// The fallback token for the counter `c`: a space, thirteen base-32
/// digits that together cover every bit of `c`, and two closing marks.
pub open spec fn spec_fallback_token(c: u64) -> Seq<char> {
    seq![
        ' ',
        spec_fallback_digit(c, 0),
        spec_fallback_digit(c, 5),
        spec_fallback_digit(c, 10),
        spec_fallback_digit(c, 15),
        spec_fallback_digit(c, 20),
        spec_fallback_digit(c, 25),
        spec_fallback_digit(c, 30),
        spec_fallback_digit(c, 35),
        spec_fallback_digit(c, 40),
        spec_fallback_digit(c, 45),
        spec_fallback_digit(c, 50),
        spec_fallback_digit(c, 55),
        spec_fallback_digit(c, 60),
        '!',
        '!',
    ]
}

proof fn lemma_fallback_digit_range(c: u64, sh: u64)
    ensures
        33 <= (spec_fallback_digit(c, sh) as u32) && (spec_fallback_digit(c, sh) as u32) < 65,
{
    assert((c >> sh) & 31 < 32) by (bit_vector);
}

proof fn lemma_fallback_token_shape(c: u64)
    ensures
        token_shape(spec_fallback_token(c)),
{
    let t = spec_fallback_token(c);
    assert forall|i: int| 0 <= i < t.len() implies 32 <= ((#[trigger] t[i]) as u32) && (t[i] as u32)
        < 127 by {
        if 1 <= i <= 13 {
            let sh = (5 * (i - 1)) as u64;
            assert(t[i] == spec_fallback_digit(c, sh));
            lemma_fallback_digit_range(c, sh);
        }
    }
}

/// Distinct counters give distinct fallback tokens: the thirteen
/// digits together determine the counter.
proof fn lemma_fallback_injective(a: u64, b: u64)
    requires
        spec_fallback_token(a) == spec_fallback_token(b),
    ensures
        a == b,
{
    let ta = spec_fallback_token(a);
    let tb = spec_fallback_token(b);
    assert forall|sh: u64| sh == 0 || sh == 5 || sh == 10 || sh == 15 || sh == 20 || sh == 25 || sh
        == 30 || sh == 35 || sh == 40 || sh == 45 || sh == 50 || sh == 55 || sh
        == 60 implies (a >> sh) & 31 == (b >> sh) & 31 by {
        let i = (sh / 5) as int + 1;
        assert(ta[i] == tb[i]);
        assert(spec_fallback_digit(a, sh) == spec_fallback_digit(b, sh));
        assert((a >> sh) & 31 < 32 && (b >> sh) & 31 < 32) by (bit_vector);
        assert((33 + ((a >> sh) & 31)) as u8 as char as u32 == 33 + ((a >> sh) & 31));
        assert((33 + ((b >> sh) & 31)) as u8 as char as u32 == 33 + ((b >> sh) & 31));
    }
    assert(a == b) by (bit_vector)
        requires
            (a >> 0u64) & 31 == (b >> 0u64) & 31,
            (a >> 5u64) & 31 == (b >> 5u64) & 31,
            (a >> 10u64) & 31 == (b >> 10u64) & 31,
            (a >> 15u64) & 31 == (b >> 15u64) & 31,
            (a >> 20u64) & 31 == (b >> 20u64) & 31,
            (a >> 25u64) & 31 == (b >> 25u64) & 31,
            (a >> 30u64) & 31 == (b >> 30u64) & 31,
            (a >> 35u64) & 31 == (b >> 35u64) & 31,
            (a >> 40u64) & 31 == (b >> 40u64) & 31,
            (a >> 45u64) & 31 == (b >> 45u64) & 31,
            (a >> 50u64) & 31 == (b >> 50u64) & 31,
            (a >> 55u64) & 31 == (b >> 55u64) & 31,
            (a >> 60u64) & 31 == (b >> 60u64) & 31,
    ;
}

fn fallback_digit(c: u64, sh: u64) -> (r: char)
    requires
        sh < 64,
    ensures
        r == spec_fallback_digit(c, sh),
{
    proof {
        assert((c >> sh) & 31 < 32) by (bit_vector);
    }
    ((33 + ((c >> sh) & 31)) as u8) as char
}

fn fallback_token(c: u64) -> (r: String)
    ensures
        r@ == spec_fallback_token(c),
{
    let mut t = String::new();
    string_push(&mut t, ' ');
    string_push(&mut t, fallback_digit(c, 0));
    string_push(&mut t, fallback_digit(c, 5));
    string_push(&mut t, fallback_digit(c, 10));
    string_push(&mut t, fallback_digit(c, 15));
    string_push(&mut t, fallback_digit(c, 20));
    string_push(&mut t, fallback_digit(c, 25));
    string_push(&mut t, fallback_digit(c, 30));
    string_push(&mut t, fallback_digit(c, 35));
    string_push(&mut t, fallback_digit(c, 40));
    string_push(&mut t, fallback_digit(c, 45));
    string_push(&mut t, fallback_digit(c, 50));
    string_push(&mut t, fallback_digit(c, 55));
    string_push(&mut t, fallback_digit(c, 60));
    string_push(&mut t, '!');
    string_push(&mut t, '!');
    proof {
        assert(t@ =~= spec_fallback_token(c));
    }
    t
}

/// Maps each live session token to the user that logged in with it.
/// In specifications a registry is its view, a `Map<Seq<char>, UserId>`.
pub struct SessionRegistry {
    sessions: StrMap<UserId>,
}

impl View for SessionRegistry {
    type V = Map<Seq<char>, UserId>;

    closed spec fn view(&self) -> Map<Seq<char>, UserId> {
        self.sessions@
    }
}

impl SessionRegistry {
    /// No sessions.
    pub fn new() -> (r: Self)
        ensures
            r@ == Map::<Seq<char>, UserId>::empty(),
    {
        SessionRegistry { sessions: StrMap::new() }
    }

    /// Mints a token not currently in use and binds it to `user_id`.
    /// The token is drawn at random; a draw that collides with a live
    /// token is redrawn, and if every redraw collides, the registry
    /// walks deterministic candidates, of which it holds fewer than
    /// there are.
    pub fn create(&mut self, user_id: UserId) -> (token: String)
        ensures
            token_shape(token@),
            !old(self)@.contains_key(token@),
            final(self)@ == old(self)@.insert(token@, user_id),
    {
        let mut attempts: usize = 0;
        while attempts < 16
            invariant
                self == old(self),
            decreases 16 - attempts,
        {
            let token = random_token();
            if !self.sessions.contains_key(token.as_str()) {
                self.sessions.insert(token.clone(), user_id);
                return token;
            }
            attempts = attempts + 1;
        }

        let n = self.sessions.num_entries();
        let mut c: u128 = 0;
        while c <= n as u128
            invariant
                self == old(self),
                n == self.sessions.entries_seq().len(),
                c <= n as u128 + 1,
                forall|j: u64| (j as u128) < c ==> self@.contains_key(
                    #[trigger] spec_fallback_token(j),
                ),
            decreases n as u128 + 1 - c,
        {
            let token = fallback_token(c as u64);
            proof {
                lemma_fallback_token_shape(c as u64);
            }
            if !self.sessions.contains_key(token.as_str()) {
                self.sessions.insert(token.clone(), user_id);
                return token;
            }
            c = c + 1;
        }

        // Every one of the n + 1 distinct candidates is a live token,
        // yet only n tokens are live: this point is unreachable.
        proof {
            broadcast use vstd::seq_lib::seq_to_set_is_finite;

            let cands = Seq::new(n as nat + 1, |j: int| spec_fallback_token(j as u64));
            assert forall|i: int, j: int| 0 <= i < j < cands.len() implies cands[i]
                != cands[j] by {
                if cands[i] == cands[j] {
                    lemma_fallback_injective(i as u64, j as u64);
                }
            }
            assert(cands.no_duplicates());
            cands.unique_seq_to_set();
            assert forall|k: Seq<char>| cands.to_set().contains(k) implies self@.dom().contains(
                k,
            ) by {
                let j = choose|j: int| 0 <= j < cands.len() && cands[j] == k;
                assert(self@.contains_key(spec_fallback_token(j as u64)));
            }
            use_type_invariant(&self.sessions);
            self.sessions.lemma_dom_card();
            vstd::set_lib::lemma_len_subset(cands.to_set(), self@.dom());
            assert(false);
        }
        String::new()
    }

    /// The user the token stands for, if it is live.
    pub fn resolve(&self, token: &str) -> (r: Option<UserId>)
        ensures
            match r {
                Some(uid) => self@.contains_key(token@) && uid == self@[token@],
                None => !self@.contains_key(token@),
            },
    {
        match self.sessions.get(token) {
            Some(uid) => Some(*uid),
            None => None,
        }
    }

    /// Ends the session of `token`; ending an unknown token changes
    /// nothing.
    pub fn destroy(&mut self, token: &str)
        ensures
            final(self)@ == old(self)@.remove(token@),
    {
        let _ = self.sessions.remove(token);
    }
}

} // verus!

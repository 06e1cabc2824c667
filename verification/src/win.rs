//! The win counter that chat drives with commands such as `_inc` or `_set 3`.
use vstd::prelude::*;
use crate::cache::{Cache, WinsMessage};
use crate::command::{
    action_error, action_of, action_value, amount_of, check_action, command_amount, command_error,
    command_value, counter_action, decrement_count, decrement_value, increment_count,
    increment_value, is_decrement_word, is_increment_word, lemma_action_words, set_count,
    set_value, CommandError, CounterAction,
};
use crate::text::{command_args, parse_u32_spec, read_args, word_views};

verus! {

/// The value `_set` leaves: the given amount, or the stored value when none was given.
pub fn set(stored: u32, amount: Option<u32>) -> (r: u32)
    ensures
        r == set_value(stored, amount),
{
    set_count(stored, amount)
}

/// The value an increment leaves: the stored value plus the amount (1 by default).
pub fn increment(stored: u32, amount: Option<u32>) -> (r: u32)
    requires
        increment_value(stored, amount) <= u32::MAX,
    ensures
        r == increment_value(stored, amount),
{
    increment_count(stored, amount)
}

/// The value a decrement leaves: the stored value minus the amount (1 by
/// default), with an empty count left empty.
pub fn decrement(stored: u32, amount: Option<u32>) -> (r: u32)
    requires
        decrement_value(stored, amount) >= 0,
    ensures
        r == decrement_value(stored, amount),
{
    decrement_count(stored, amount)
}

/// The stored win count under `key`: 0 when nothing is stored.
pub open spec fn stored_wins(cache: Map<Seq<char>, u32>, key: Seq<char>) -> u32 {
    if cache.contains_key(key) {
        cache[key]
    } else {
        0
    }
}

/// The count that command words `args` leave, starting from `stored`.
pub fn win_value(stored: u32, args: &Vec<Vec<char>>) -> (r: u32)
    requires
        args@.len() >= 1,
        action_error(stored, action_of(args@[0]@), amount_of(word_views(args@))) is None,
    ensures
        r == action_value(stored, action_of(args@[0]@), amount_of(word_views(args@))),
{
    command_value(stored, args)
}

/// The answer to a win command: the count after it, and the message to
/// announce when the count changed.
pub struct WinReply {
    pub value: u32,
    pub message: Option<WinsMessage>,
}

/// What running the win command words `args` on the count under `key` does:
/// from the cache `before` to the cache `after`, answering `r`.
///
/// The count starts at 0 when nothing is stored. A changed count is stored and
/// announced; an unchanged one leaves the cache as it was. A command with no
/// word, or one whose result does not fit in a `u32`, is refused and changes nothing.
pub open spec fn win_command_done(
    before: Map<Seq<char>, u32>,
    key: Seq<char>,
    args: Seq<Seq<char>>,
    r: Result<WinReply, CommandError>,
    after: Map<Seq<char>, u32>,
) -> bool {
    let stored = stored_wins(before, key);
    match command_error(stored, args) {
        Some(e) => r == Err::<WinReply, CommandError>(e) && after == before,
        None => {
            let v = action_value(stored, action_of(args[0]), amount_of(args));
            &&& r is Ok
            &&& r->Ok_0.value == v
            &&& if v != stored {
                &&& after == before.insert(key, v as u32)
                &&& r->Ok_0.message == Some(WinsMessage { wins: v as u32 })
            } else {
                &&& after == before
                &&& r->Ok_0.message is None
            }
        },
    }
}

/// Runs the win command words `args` on the count stored under `key`.
pub fn apply_win_args(cache: &mut Cache<u32>, key: String, args: &Vec<Vec<char>>) -> (r: Result<
    WinReply,
    CommandError,
>)
    ensures
        win_command_done(old(cache)@, key@, word_views(args@), r, final(cache)@),
        r matches Ok(reply) ==> stored_wins(final(cache)@, key@) == reply.value,
{
    let cached = match cache.get(key.as_str()) {
        Some(cached) => cached,
        None => 0,
    };
    if args.len() == 0 {
        return Err(CommandError::MissingCommand);
    }
    let action = counter_action(&args[0]);
    let amount = command_amount(args);
    match check_action(cached, action, amount) {
        Some(e) => {
            return Err(e);
        },
        None => {},
    }
    let value = win_value(cached, args);
    if value != cached {
        cache.insert(key, value);
        Ok(WinReply { value, message: Some(WinsMessage { wins: value }) })
    } else {
        Ok(WinReply { value, message: None })
    }
}

/// Runs the win command `command` (for example `_inc 2`) on the count stored
/// under `key`: its first two words, trimmed and lower-cased, are the command.
pub fn get_win(cache: &mut Cache<u32>, key: String, command: &str) -> (r: Result<
    WinReply,
    CommandError,
>)
    ensures
        win_command_done(old(cache)@, key@, command_args(command@), r, final(cache)@),
        r matches Ok(reply) ==> stored_wins(final(cache)@, key@) == reply.value,
{
    let args = read_args(command);
    apply_win_args(cache, key, &args)
}

/// After `_set n`, `_get` answers `n` and changes nothing.
pub proof fn law_set_then_get(
    m0: Map<Seq<char>, u32>,
    key: Seq<char>,
    amount: Seq<char>,
    n: u32,
    r1: Result<WinReply, CommandError>,
    m1: Map<Seq<char>, u32>,
    r2: Result<WinReply, CommandError>,
    m2: Map<Seq<char>, u32>,
)
    requires
        parse_u32_spec(amount) == Some(n),
        win_command_done(m0, key, seq!["_set"@, amount], r1, m1),
        win_command_done(m1, key, seq!["_get"@], r2, m2),
    ensures
        r1 matches Ok(reply) && reply.value == n,
        r2 matches Ok(reply) && reply.value == n,
        r2->Ok_0.message is None,
        m2 == m1,
{
    lemma_action_words("_get"@);
    lemma_action_words("_set"@);
    lemma_action_words("_inc"@);
    lemma_action_words("_dec"@);
    let a1 = seq!["_set"@, amount];
    assert(a1[0] == "_set"@);
    assert(amount_of(a1) == Some(n));
    let a2 = seq!["_get"@];
    assert(a2[0] == "_get"@);
}

/// `_dec a` undoes an accepted `_inc a`: the count and the cache come back to
/// where they were, except that a count that was absent is now stored as 0.
pub proof fn law_decrement_command_undoes_increment(
    m0: Map<Seq<char>, u32>,
    key: Seq<char>,
    amount: Seq<char>,
    r1: Result<WinReply, CommandError>,
    m1: Map<Seq<char>, u32>,
    r2: Result<WinReply, CommandError>,
    m2: Map<Seq<char>, u32>,
)
    requires
        win_command_done(m0, key, seq!["_inc"@, amount], r1, m1),
        r1 is Ok,
        win_command_done(m1, key, seq!["_dec"@, amount], r2, m2),
    ensures
        r2 matches Ok(reply) && reply.value == stored_wins(m0, key),
        stored_wins(m2, key) == stored_wins(m0, key),
{
    lemma_action_words("_get"@);
    lemma_action_words("_set"@);
    lemma_action_words("_inc"@);
    lemma_action_words("_dec"@);
    let a1 = seq!["_inc"@, amount];
    assert(a1[0] == "_inc"@);
    let a2 = seq!["_dec"@, amount];
    assert(a2[0] == "_dec"@);
    assert(amount_of(a1) == amount_of(a2));
}

/// What a win command answers, for every command word, in terms of the count
/// `s` stored before (0 when none) and the amount `n` its second word reads as:
/// `_get` answers `s`; `_set n` answers `n` (`s` without an amount); an
/// increment answers `s + n` (`s + 1` without an amount) unless that exceeds
/// `u32::MAX`; a decrement answers `s - n` (`s - 1` without an amount), leaves
/// an empty count at 0, and is refused when `n` exceeds a non-zero `s`; any
/// other word answers `s`. An answer that differs from `s` is stored under
/// the key and announced; an equal one, or a refusal, leaves the cache as it was.
pub proof fn law_win_command_values(
    before: Map<Seq<char>, u32>,
    key: Seq<char>,
    args: Seq<Seq<char>>,
    r: Result<WinReply, CommandError>,
    after: Map<Seq<char>, u32>,
)
    requires
        win_command_done(before, key, args, r, after),
    ensures
        args.len() == 0 ==> r == Err::<WinReply, CommandError>(CommandError::MissingCommand),
        args.len() >= 1 ==> ({
            let s: int = if before.contains_key(key) {
                before[key] as int
            } else {
                0
            };
            let w = args[0];
            let amt: Option<u32> = if args.len() > 1 {
                parse_u32_spec(args[1])
            } else {
                None
            };
            let step: int = match amt {
                Some(n) => n as int,
                None => 1,
            };
            &&& w == "_get"@ ==> (r matches Ok(rep) && rep.value == s)
            &&& w == "_set"@ ==> (r matches Ok(rep) && rep.value == match amt {
                Some(n) => n as int,
                None => s,
            })
            &&& is_increment_word(w) ==> if s + step <= u32::MAX {
                r matches Ok(rep) && rep.value == s + step
            } else {
                r == Err::<WinReply, CommandError>(CommandError::AddOverflow)
            }
            &&& is_decrement_word(w) ==> if s == 0 {
                r matches Ok(rep) && rep.value == 0
            } else if step <= s {
                r matches Ok(rep) && rep.value == s - step
            } else {
                r == Err::<WinReply, CommandError>(CommandError::SubtractOverflow)
            }
            &&& !(w == "_get"@ || w == "_set"@ || is_increment_word(w) || is_decrement_word(w))
                ==> (r matches Ok(rep) && rep.value == s)
            &&& r matches Ok(rep) ==> {
                &&& after.contains_key(key) || rep.value == 0
                &&& (if after.contains_key(key) {
                    after[key] as int
                } else {
                    0
                }) == rep.value
                &&& rep.value != s ==> after == before.insert(key, rep.value) && rep.message
                    == Some(WinsMessage { wins: rep.value })
                &&& rep.value == s ==> after == before && rep.message is None
            }
            &&& r is Err ==> after == before
        }),
{
    if args.len() >= 1 {
        lemma_action_words(args[0]);
    }
}

} // verus!

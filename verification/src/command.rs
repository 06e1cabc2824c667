//! The counter commands that chat sends (`_get`, `_set`, `_inc`, `_dec` and
//! their aliases) and what each does to a stored count.
use vstd::prelude::*;
use crate::text::{parse_u32, parse_u32_spec, word_is, word_views};

verus! {

/// What the first word of a counter command asks for.
#[derive(PartialEq, Eq, Structural, Clone, Copy, Debug)]
pub enum CounterAction {
    /// `_get`: report the stored count.
    Get,
    /// `_set`: store the given amount.
    Assign,
    /// `_inc`, `_increment`, `_add`, `_+`: add the amount (1 by default).
    Increment,
    /// `_dec`, `_decrement`, `_-`: subtract the amount (1 by default).
    Decrement,
    /// Any other word: leave the count as it is.
    Other,
}

/// The action a command word names.
pub open spec fn action_of(word: Seq<char>) -> CounterAction {
    if word == "_get"@ {
        CounterAction::Get
    } else if word == "_set"@ {
        CounterAction::Assign
    } else if word == "_inc"@ || word == "_increment"@ || word == "_add"@ || word == "_+"@ {
        CounterAction::Increment
    } else if word == "_dec"@ || word == "_decrement"@ || word == "_-"@ {
        CounterAction::Decrement
    } else {
        CounterAction::Other
    }
}

/// The action that `word` names.
pub fn counter_action(word: &Vec<char>) -> (r: CounterAction)
    ensures
        r == action_of(word@),
{
    if word_is(word, "_get") {
        CounterAction::Get
    } else if word_is(word, "_set") {
        CounterAction::Assign
    } else if word_is(word, "_inc") || word_is(word, "_increment") || word_is(word, "_add")
        || word_is(word, "_+") {
        CounterAction::Increment
    } else if word_is(word, "_dec") || word_is(word, "_decrement") || word_is(word, "_-") {
        CounterAction::Decrement
    } else {
        CounterAction::Other
    }
}

/// The amount a command carries: its second word read as a `u32`, if it is one.
pub open spec fn amount_of(args: Seq<Seq<char>>) -> Option<u32> {
    if args.len() > 1 {
        parse_u32_spec(args[1])
    } else {
        None
    }
}

/// The amount the command `args` carries.
pub fn command_amount(args: &Vec<Vec<char>>) -> (r: Option<u32>)
    ensures
        r == amount_of(word_views(args@)),
{
    if args.len() > 1 {
        parse_u32(&args[1])
    } else {
        None
    }
}

/// The value `_set` leaves.
pub open spec fn set_value(stored: u32, amount: Option<u32>) -> int {
    match amount {
        Some(v) => v as int,
        None => stored as int,
    }
}

/// The value an increment leaves, before any bound is applied.
pub open spec fn increment_value(stored: u32, amount: Option<u32>) -> int {
    match amount {
        Some(v) => stored + v,
        None => stored + 1,
    }
}

/// The value a decrement leaves, before any bound is applied: an empty count stays empty.
pub open spec fn decrement_value(stored: u32, amount: Option<u32>) -> int {
    if stored == 0 {
        0
    } else {
        match amount {
            Some(v) => stored - v,
            None => stored - 1,
        }
    }
}

/// The mathematical value an action leaves.
pub open spec fn action_value(stored: u32, action: CounterAction, amount: Option<u32>) -> int {
    match action {
        CounterAction::Get => stored as int,
        CounterAction::Assign => set_value(stored, amount),
        CounterAction::Increment => increment_value(stored, amount),
        CounterAction::Decrement => decrement_value(stored, amount),
        CounterAction::Other => stored as int,
    }
}

/// Why a counter command is refused.
#[derive(PartialEq, Eq, Structural, Clone, Copy, Debug)]
pub enum CommandError {
    /// The command holds no word at all.
    MissingCommand,
    /// The new count would be larger than a `u32` holds.
    AddOverflow,
    /// The new count would be below zero.
    SubtractOverflow,
}

/// Whether an action's value fits in a `u32`, and if not, why not.
pub open spec fn action_error(stored: u32, action: CounterAction, amount: Option<u32>) -> Option<
    CommandError,
> {
    let v = action_value(stored, action, amount);
    if v > u32::MAX {
        Some(CommandError::AddOverflow)
    } else if v < 0 {
        Some(CommandError::SubtractOverflow)
    } else {
        None
    }
}

/// Only an increment can go over the top, and only a decrement below zero.
pub proof fn law_error_kinds(stored: u32, action: CounterAction, amount: Option<u32>)
    ensures
        action_error(stored, action, amount) == Some(CommandError::AddOverflow) ==> action
            == CounterAction::Increment,
        action_error(stored, action, amount) == Some(CommandError::SubtractOverflow) ==> action
            == CounterAction::Decrement,
        action != CounterAction::Increment && action != CounterAction::Decrement ==> action_error(
            stored,
            action,
            amount,
        ) is None,
{
}

/// A decrement undoes an increment by the same amount.
pub proof fn law_decrement_undoes_increment(stored: u32, amount: Option<u32>)
    requires
        increment_value(stored, amount) <= u32::MAX,
    ensures
        decrement_value(increment_value(stored, amount) as u32, amount) == stored,
{
}

/// A decrement never takes an empty count below zero: it stays empty.
pub proof fn law_empty_count_stays_empty(amount: Option<u32>)
    ensures
        action_value(0, CounterAction::Decrement, amount) == 0,
        action_error(0, CounterAction::Decrement, amount) is None,
{
}

/// `_set` with an amount stores exactly that amount, and `_get` changes nothing.
pub proof fn law_set_stores_amount(stored: u32, amount: u32)
    ensures
        action_value(stored, CounterAction::Assign, Some(amount)) == amount,
        action_value(amount, CounterAction::Get, None) == amount,
        action_error(stored, CounterAction::Assign, Some(amount)) is None,
{
}

} // verus!
verus! {

/// Whether `action` can be carried out on `stored`, and if not, why not.
pub fn check_action(stored: u32, action: CounterAction, amount: Option<u32>) -> (r: Option<
    CommandError,
>)
    ensures
        r == action_error(stored, action, amount),
{
    match action {
        CounterAction::Increment => {
            let a: u32 = match amount {
                Some(v) => v,
                None => 1,
            };
            if a > u32::MAX - stored {
                Some(CommandError::AddOverflow)
            } else {
                None
            }
        },
        CounterAction::Decrement => {
            let a: u32 = match amount {
                Some(v) => v,
                None => 1,
            };
            if stored != 0 && a > stored {
                Some(CommandError::SubtractOverflow)
            } else {
                None
            }
        },
        _ => None,
    }
}

} // verus!
verus! {

/// The value `_set` leaves: the given amount, or the stored value when none was given.
pub fn set_count(stored: u32, amount: Option<u32>) -> (r: u32)
    ensures
        r == set_value(stored, amount),
{
    match amount {
        Some(amount) => amount,
        None => stored,
    }
}

/// The value an increment leaves: the stored value plus the amount (1 by default).
pub fn increment_count(stored: u32, amount: Option<u32>) -> (r: u32)
    requires
        increment_value(stored, amount) <= u32::MAX,
    ensures
        r == increment_value(stored, amount),
{
    match amount {
        Some(amount) => stored + amount,
        None => stored + 1,
    }
}

/// The value a decrement leaves: the stored value minus the amount (1 by
/// default), with an empty count left empty.
pub fn decrement_count(stored: u32, amount: Option<u32>) -> (r: u32)
    requires
        decrement_value(stored, amount) >= 0,
    ensures
        r == decrement_value(stored, amount),
{
    if stored == 0 {
        return 0;
    }
    match amount {
        Some(amount) => stored - amount,
        None => stored - 1,
    }
}

/// Why the command words `args` are refused on the count `stored`, if they are.
pub open spec fn command_error(stored: u32, args: Seq<Seq<char>>) -> Option<CommandError> {
    if args.len() == 0 {
        Some(CommandError::MissingCommand)
    } else {
        action_error(stored, action_of(args[0]), amount_of(args))
    }
}

/// The count that command words `args` leave, starting from `stored`.
pub fn command_value(stored: u32, args: &Vec<Vec<char>>) -> (r: u32)
    requires
        args@.len() >= 1,
        action_error(stored, action_of(args@[0]@), amount_of(word_views(args@))) is None,
    ensures
        r == action_value(stored, action_of(args@[0]@), amount_of(word_views(args@))),
{
    let action = counter_action(&args[0]);
    let amount = command_amount(args);
    match action {
        CounterAction::Get => stored,
        CounterAction::Assign => set_count(stored, amount),
        CounterAction::Increment => increment_count(stored, amount),
        CounterAction::Decrement => decrement_count(stored, amount),
        CounterAction::Other => stored,
    }
}

} // verus!
verus! {

/// The words that ask for an increment.
pub open spec fn is_increment_word(w: Seq<char>) -> bool {
    w == "_inc"@ || w == "_increment"@ || w == "_add"@ || w == "_+"@
}

/// The words that ask for a decrement.
pub open spec fn is_decrement_word(w: Seq<char>) -> bool {
    w == "_dec"@ || w == "_decrement"@ || w == "_-"@
}

/// Each command word names its action, and only these words name one.
pub proof fn lemma_action_words(w: Seq<char>)
    ensures
        w == "_get"@ ==> action_of(w) == CounterAction::Get,
        w == "_set"@ ==> action_of(w) == CounterAction::Assign,
        is_increment_word(w) ==> action_of(w) == CounterAction::Increment,
        is_decrement_word(w) ==> action_of(w) == CounterAction::Decrement,
        !(w == "_get"@ || w == "_set"@ || is_increment_word(w) || is_decrement_word(w))
            ==> action_of(w) == CounterAction::Other,
{
    reveal_strlit("_get");
    reveal_strlit("_set");
    reveal_strlit("_inc");
    reveal_strlit("_increment");
    reveal_strlit("_add");
    reveal_strlit("_+");
    reveal_strlit("_dec");
    reveal_strlit("_decrement");
    reveal_strlit("_-");
    assert("_get"@[1] == 'g' && "_set"@[1] == 's' && "_inc"@[1] == 'i' && "_increment"@[1]
        == 'i' && "_add"@[1] == 'a' && "_+"@[1] == '+' && "_dec"@[1] == 'd' && "_decrement"@[1]
        == 'd' && "_-"@[1] == '-');
}

} // verus!

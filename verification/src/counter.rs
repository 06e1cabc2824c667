//! The general counter driven by chat commands, and the decisions of the
//! websocket that streams its changes.
use vstd::prelude::*;
use crate::cache::Cache;
use crate::command::{
    action_error, action_of, action_value, amount_of, check_action, command_amount, command_error,
    command_value, counter_action, decrement_count, decrement_value, increment_count,
    increment_value, is_decrement_word, is_increment_word, lemma_action_words, set_count,
    set_value, CommandError, CounterAction,
};
use crate::text::{command_args, parse_u32_spec, read_args, word_views};

verus! {

/// The message announcing a new counter value.
pub struct CounterMessage {
    pub counter: u32,
}

/// The value `_set` leaves: the given amount, or the stored value when none was given.
pub fn set(stored: u32, amount: Option<u32>) -> (r: u32)
    ensures
        r == set_value(stored, amount),
{
    set_count(stored, amount)
}

/// The value an increment leaves: the stored value plus the amount (1 by default).
pub fn increment(stored: u32, amount: Option<u32>) -> (r: u32)
    requires
        increment_value(stored, amount) <= u32::MAX,
    ensures
        r == increment_value(stored, amount),
{
    increment_count(stored, amount)
}

/// The value a decrement leaves: the stored value minus the amount (1 by
/// default), with an empty count left empty.
pub fn decrement(stored: u32, amount: Option<u32>) -> (r: u32)
    requires
        decrement_value(stored, amount) >= 0,
    ensures
        r == decrement_value(stored, amount),
{
    decrement_count(stored, amount)
}

/// The count that command words `args` leave, starting from `stored`.
pub fn counter_value(stored: u32, args: &Vec<Vec<char>>) -> (r: u32)
    requires
        args@.len() >= 1,
        action_error(stored, action_of(args@[0]@), amount_of(word_views(args@))) is None,
    ensures
        r == action_value(stored, action_of(args@[0]@), amount_of(word_views(args@))),
{
    command_value(stored, args)
}

/// The cache once a counter has been looked up: a missing key is created with 0.
pub open spec fn with_counter(cache: Map<Seq<char>, u32>, key: Seq<char>) -> Map<Seq<char>, u32> {
    if cache.contains_key(key) {
        cache
    } else {
        cache.insert(key, 0)
    }
}

/// The answer to a counter command: the count after it, and the message to
/// announce when the count changed.
pub struct CounterReply {
    pub value: u32,
    pub message: Option<CounterMessage>,
}

/// What running the counter command words `args` on the counter `key` does:
/// from the cache `before` to the cache `after`, answering `r`.
///
/// A counter that does not exist yet is created with 0 before the command is
/// read, even when the command is then refused. A changed count is stored and
/// announced. A command with no word, or one whose result does not fit in a
/// `u32`, is refused.
pub open spec fn counter_command_done(
    before: Map<Seq<char>, u32>,
    key: Seq<char>,
    args: Seq<Seq<char>>,
    r: Result<CounterReply, CommandError>,
    after: Map<Seq<char>, u32>,
) -> bool {
    let looked_up = with_counter(before, key);
    let stored = looked_up[key];
    match command_error(stored, args) {
        Some(e) => r == Err::<CounterReply, CommandError>(e) && after == looked_up,
        None => {
            let v = action_value(stored, action_of(args[0]), amount_of(args));
            &&& r is Ok
            &&& r->Ok_0.value == v
            &&& if v != stored {
                &&& after == looked_up.insert(key, v as u32)
                &&& r->Ok_0.message == Some(CounterMessage { counter: v as u32 })
            } else {
                &&& after == looked_up
                &&& r->Ok_0.message is None
            }
        },
    }
}

/// Runs the counter command words `args` on the counter stored under `key`.
pub fn apply_counter_args(cache: &mut Cache<u32>, key: String, args: &Vec<Vec<char>>) -> (r:
    Result<CounterReply, CommandError>)
    ensures
        counter_command_done(old(cache)@, key@, word_views(args@), r, final(cache)@),
        final(cache)@.contains_key(key@),
        r matches Ok(reply) ==> final(cache)@[key@] == reply.value,
{
    let cached = match cache.get(key.as_str()) {
        Some(cached) => cached,
        None => {
            let initial_value: u32 = 0;
            cache.insert(key.clone(), initial_value);
            initial_value
        },
    };
    if args.len() == 0 {
        return Err(CommandError::MissingCommand);
    }
    let action = counter_action(&args[0]);
    let amount = command_amount(args);
    match check_action(cached, action, amount) {
        Some(e) => {
            return Err(e);
        },
        None => {},
    }
    let value = counter_value(cached, args);
    if value != cached {
        cache.insert(key, value);
        Ok(CounterReply { value, message: Some(CounterMessage { counter: value }) })
    } else {
        Ok(CounterReply { value, message: None })
    }
}

/// Runs the counter command `command` (for example `_inc 2`) on the counter
/// stored under `key`: its first two words, trimmed and lower-cased, are the command.
pub fn command_handler(cache: &mut Cache<u32>, key: String, command: &str) -> (r: Result<
    CounterReply,
    CommandError,
>)
    ensures
        counter_command_done(old(cache)@, key@, command_args(command@), r, final(cache)@),
        final(cache)@.contains_key(key@),
        r matches Ok(reply) ==> final(cache)@[key@] == reply.value,
{
    let args = read_args(command);
    apply_counter_args(cache, key, &args)
}

/// The websocket close code for a policy violation.
pub const POLICY_VIOLATION: u16 = 1008;

/// How a websocket for a counter starts.
pub enum SocketStart {
    /// The key names no counter: close the socket with this code and reason.
    Reject { code: u16, reason: String },
    /// The key names a counter: announce its current value, then stream changes.
    Accept(CounterMessage),
}

/// How a websocket opened for the counter `key` starts.
pub fn ws_open(cache: &Cache<u32>, key: &str) -> (r: SocketStart)
    ensures
        match r {
            SocketStart::Reject { code, reason } => {
                &&& !cache@.contains_key(key@)
                &&& code == POLICY_VIOLATION
                &&& reason@ == "Invalid key!"@
            },
            SocketStart::Accept(msg) => cache@.contains_key(key@) && msg.counter == cache@[key@],
        },
{
    match cache.get(key) {
        Some(cached) => SocketStart::Accept(CounterMessage { counter: cached }),
        None => SocketStart::Reject { code: POLICY_VIOLATION, reason: "Invalid key!".to_owned() },
    }
}

/// What happens on an open counter websocket.
pub enum SocketEvent {
    /// A change was announced.
    Announced(String),
    /// Announcements can no longer be received (the channel closed or fell behind).
    AnnouncementsLost,
    /// Sending to the client failed.
    SendFailed,
}

/// What the websocket does next.
pub enum SocketAction {
    /// Send this text to the client.
    Send(String),
    /// Stop serving the socket.
    Stop,
}

/// The next step of a counter websocket: every announcement is passed on to
/// the client; the socket stops when announcements are lost or sending fails.
pub fn ws_step(event: SocketEvent) -> (r: SocketAction)
    ensures
        match event {
            SocketEvent::Announced(m) => r matches SocketAction::Send(s) && s@ == m@,
            _ => r is Stop,
        },
{
    match event {
        SocketEvent::Announced(m) => SocketAction::Send(m),
        SocketEvent::AnnouncementsLost => SocketAction::Stop,
        SocketEvent::SendFailed => SocketAction::Stop,
    }
}

/// What a counter command answers, for every command word, in terms of the
/// count `s` stored before (0 when none) and the amount `n` its second word
/// reads as: `_get` answers `s`; `_set n` answers `n` (`s` without an amount);
/// an increment answers `s + n` (`s + 1` without an amount) unless that
/// exceeds `u32::MAX`; a decrement answers `s - n` (`s - 1` without an amount),
/// leaves an empty count at 0, and is refused when `n` exceeds a non-zero `s`;
/// any other word answers `s`. Afterwards the counter always exists and holds
/// the answer; a changed answer is announced.
pub proof fn law_counter_command_values(
    before: Map<Seq<char>, u32>,
    key: Seq<char>,
    args: Seq<Seq<char>>,
    r: Result<CounterReply, CommandError>,
    after: Map<Seq<char>, u32>,
)
    requires
        counter_command_done(before, key, args, r, after),
    ensures
        after.contains_key(key),
        args.len() == 0 ==> r == Err::<CounterReply, CommandError>(CommandError::MissingCommand),
        args.len() >= 1 ==> ({
            let s: int = if before.contains_key(key) {
                before[key] as int
            } else {
                0
            };
            let w = args[0];
            let amt: Option<u32> = if args.len() > 1 {
                parse_u32_spec(args[1])
            } else {
                None
            };
            let step: int = match amt {
                Some(n) => n as int,
                None => 1,
            };
            &&& w == "_get"@ ==> (r matches Ok(rep) && rep.value == s)
            &&& w == "_set"@ ==> (r matches Ok(rep) && rep.value == match amt {
                Some(n) => n as int,
                None => s,
            })
            &&& is_increment_word(w) ==> if s + step <= u32::MAX {
                r matches Ok(rep) && rep.value == s + step
            } else {
                r == Err::<CounterReply, CommandError>(CommandError::AddOverflow)
            }
            &&& is_decrement_word(w) ==> if s == 0 {
                r matches Ok(rep) && rep.value == 0
            } else if step <= s {
                r matches Ok(rep) && rep.value == s - step
            } else {
                r == Err::<CounterReply, CommandError>(CommandError::SubtractOverflow)
            }
            &&& !(w == "_get"@ || w == "_set"@ || is_increment_word(w) || is_decrement_word(w))
                ==> (r matches Ok(rep) && rep.value == s)
            &&& r matches Ok(rep) ==> {
                &&& after[key] == rep.value
                &&& rep.value != s ==> rep.message == Some(CounterMessage { counter: rep.value })
                &&& rep.value == s ==> rep.message is None
            }
            &&& r is Err ==> after[key] == s
            &&& forall|k: Seq<char>|
                k != key ==> (#[trigger] after.contains_key(k) == before.contains_key(k)
                    && (before.contains_key(k) ==> after[k] == before[k]))
        }),
{
    if args.len() >= 1 {
        lemma_action_words(args[0]);
    }
}

/// After `_set n`, `_get` answers `n` and changes nothing.
pub proof fn law_counter_set_then_get(
    m0: Map<Seq<char>, u32>,
    key: Seq<char>,
    amount: Seq<char>,
    n: u32,
    r1: Result<CounterReply, CommandError>,
    m1: Map<Seq<char>, u32>,
    r2: Result<CounterReply, CommandError>,
    m2: Map<Seq<char>, u32>,
)
    requires
        parse_u32_spec(amount) == Some(n),
        counter_command_done(m0, key, seq!["_set"@, amount], r1, m1),
        counter_command_done(m1, key, seq!["_get"@], r2, m2),
    ensures
        r1 matches Ok(reply) && reply.value == n,
        r2 matches Ok(reply) && reply.value == n,
        r2->Ok_0.message is None,
        m2 == m1,
{
    law_counter_command_values(m0, key, seq!["_set"@, amount], r1, m1);
    law_counter_command_values(m1, key, seq!["_get"@], r2, m2);
    let a1 = seq!["_set"@, amount];
    assert(a1[0] == "_set"@ && a1[1] == amount);
    let a2 = seq!["_get"@];
    assert(a2[0] == "_get"@);
    assert(m2 =~= m1);
}

/// `_dec a` undoes an accepted `_inc a`: the counter comes back to its value.
pub proof fn law_counter_decrement_undoes_increment(
    m0: Map<Seq<char>, u32>,
    key: Seq<char>,
    amount: Seq<char>,
    r1: Result<CounterReply, CommandError>,
    m1: Map<Seq<char>, u32>,
    r2: Result<CounterReply, CommandError>,
    m2: Map<Seq<char>, u32>,
)
    requires
        counter_command_done(m0, key, seq!["_inc"@, amount], r1, m1),
        r1 is Ok,
        counter_command_done(m1, key, seq!["_dec"@, amount], r2, m2),
    ensures
        r2 matches Ok(reply) && reply.value == (if m0.contains_key(key) {
            m0[key]
        } else {
            0
        }),
        m2[key] == (if m0.contains_key(key) {
            m0[key]
        } else {
            0
        }),
{
    law_counter_command_values(m0, key, seq!["_inc"@, amount], r1, m1);
    law_counter_command_values(m1, key, seq!["_dec"@, amount], r2, m2);
    let a1 = seq!["_inc"@, amount];
    assert(a1[0] == "_inc"@ && a1[1] == amount);
    let a2 = seq!["_dec"@, amount];
    assert(a2[0] == "_dec"@ && a2[1] == amount);
}

} // verus!

//! The life of one table and one item: the table is created under a
//! random name, the item is written, read back and compared, and both are
//! deleted again.

use vstd::prelude::*;
use crate::backoff::Backoff;
use crate::tables::CreateTableInput;
use crate::tables::keyed_table;
use crate::tables::keyed_table_input;
use crate::values::Attribute;
use crate::values::AttributeValue;
use crate::values::Entries;
use crate::values::Item;
use crate::values::law_lookup_after_put;
use crate::values::lookup;
use crate::values::put;
use crate::script::Report;
use crate::script::Round;
use crate::script::run;
use crate::waiter::AfterFetch;
use crate::waiter::AfterSleep;
use crate::waiter::DEFAULT_TRANSIENT_FAILURES;
use crate::waiter::PollOutcome;
use crate::waiter::PollRequest;
use crate::waiter::begin;
use crate::waiter::spec_begin;
use crate::waiter::Verdict;

verus! {

/// Whether a code point is that of an ASCII letter or digit.
pub open spec fn alphanumeric_code(code: int) -> bool {
    ||| 48 <= code <= 57
    ||| 65 <= code <= 90
    ||| 97 <= code <= 122
}

/// Whether a character is an ASCII letter or digit.
pub open spec fn alphanumeric(c: char) -> bool {
    alphanumeric_code(c as u32 as int)
}

/// Draws one random ASCII letter or digit.
///
/// Trusted: the body samples `rand::distributions::Alphanumeric` with the
/// thread-local generator of `rand`. That distribution picks a byte from
/// the letters A to Z and a to z and the digits 0 to 9. Which one it picks
/// is left open.
#[verifier::external_body]
fn sample_alphanumeric() -> (byte: u8)
    ensures
        alphanumeric_code(byte as int),
{
    rand::Rng::sample(&mut rand::thread_rng(), rand::distributions::Alphanumeric)
}

/// Makes a random string of `n` characters, each an ASCII letter or digit.
pub fn random_string(n: usize) -> (text: String)
    ensures
        text@.len() == n,
        forall|i: int| 0 <= i < n ==> alphanumeric(#[trigger] text@[i]),
{
    let mut text = String::new();
    let mut i: usize = 0;
    while i < n
        invariant
            i <= n,
            text@.len() == i,
            forall|j: int| 0 <= j < i ==> alphanumeric(#[trigger] text@[j]),
        decreases n - i,
    {
        let byte = sample_alphanumeric();
        let c = byte as char;
        assert(c as u32 == byte as u32);
        text.push(c);
        i = i + 1;
    }
    text
}

/// Builds the request for a table named `table` whose key is the string
/// attribute `key`, with ten reads and five writes per second.
pub fn create_table(table: &str, key: &str) -> (input: CreateTableInput)
    ensures
        input@ == keyed_table(table@, key@, 5),
{
    keyed_table_input(table, key, 5)
}

/// The item that describes a user: the key attribute, then the account
/// type, the age and the two names, each a string. Where `key` is the name
/// of one of the others, that other value stands.
pub open spec fn user_item(
    key: Seq<char>,
    value: Seq<char>,
    first_name: Seq<char>,
    last_name: Seq<char>,
    age: Seq<char>,
    utype: Seq<char>,
) -> Entries {
    let keyed = put(Seq::empty(), key, Attribute::S(value));
    let typed = put(keyed, "account_type"@, Attribute::S(utype));
    let aged = put(typed, "age"@, Attribute::S(age));
    let named = put(aged, "first_name"@, Attribute::S(first_name));
    put(named, "last_name"@, Attribute::S(last_name))
}

/// Builds the item that describes a user.
pub fn add_item(
    key: &str,
    value: &str,
    first_name: &str,
    last_name: &str,
    age: &str,
    utype: &str,
) -> (item: Item)
    ensures
        item@ == user_item(key@, value@, first_name@, last_name@, age@, utype@),
{
    Item::new().item(key, AttributeValue::S(value.to_owned())).item(
        "account_type",
        AttributeValue::S(utype.to_owned()),
    ).item("age", AttributeValue::S(age.to_owned())).item(
        "first_name",
        AttributeValue::S(first_name.to_owned()),
    ).item("last_name", AttributeValue::S(last_name.to_owned()))
}

/// Whether `entries` holds the string `text` under `key`.
pub open spec fn holds_text(entries: Entries, key: Seq<char>, text: Seq<char>) -> bool {
    lookup(entries, key) == Some(Attribute::S(text))
}

/// Whether an item describes the given user: it holds each of the five
/// values, as a string, under its name.
pub open spec fn describes_user(
    entries: Entries,
    key: Seq<char>,
    value: Seq<char>,
    first_name: Seq<char>,
    last_name: Seq<char>,
    age: Seq<char>,
    utype: Seq<char>,
) -> bool {
    &&& holds_text(entries, key, value)
    &&& holds_text(entries, "age"@, age)
    &&& holds_text(entries, "first_name"@, first_name)
    &&& holds_text(entries, "last_name"@, last_name)
    &&& holds_text(entries, "account_type"@, utype)
}

/// Tells whether `item` holds the string `text` under `key`.
pub fn has_text(item: &Item, key: &str, text: &str) -> (held: bool)
    ensures
        held == holds_text(item@, key@, text@),
{
    match item.get(key) {
        Some(AttributeValue::S(s)) => *s == text.to_owned(),
        _ => false,
    }
}

/// Compares the items that a scan of the table gave with the given user:
/// the answer is yes if every one of them describes that user.
pub fn scan(
    items: &Vec<Item>,
    key: &str,
    value: &str,
    first_name: &str,
    last_name: &str,
    age: &str,
    utype: &str,
) -> (found_match: bool)
    ensures
        found_match == forall|i: int|
            0 <= i < items@.len() ==> describes_user(
                (#[trigger] items@[i])@,
                key@,
                value@,
                first_name@,
                last_name@,
                age@,
                utype@,
            ),
{
    let mut found_match = true;
    let mut i: usize = 0;
    while i < items.len()
        invariant
            i <= items.len(),
            found_match == forall|j: int|
                0 <= j < i ==> describes_user(
                    (#[trigger] items@[j])@,
                    key@,
                    value@,
                    first_name@,
                    last_name@,
                    age@,
                    utype@,
                ),
        decreases items.len() - i,
    {
        let item = &items[i];
        if !has_text(item, key, value) {
            found_match = false;
        }
        if !has_text(item, "age", age) {
            found_match = false;
        }
        if !has_text(item, "first_name", first_name) {
            found_match = false;
        }
        if !has_text(item, "last_name", last_name) {
            found_match = false;
        }
        if !has_text(item, "account_type", utype) {
            found_match = false;
        }
        i = i + 1;
    }
    found_match
}

/// What [`add_item`] builds, [`scan`] finds: the item of a user describes
/// that user, as long as the key attribute is not named like one of the
/// four others.
pub proof fn law_added_item_describes_user(
    key: Seq<char>,
    value: Seq<char>,
    first_name: Seq<char>,
    last_name: Seq<char>,
    age: Seq<char>,
    utype: Seq<char>,
)
    requires
        key != "account_type"@,
        key != "age"@,
        key != "first_name"@,
        key != "last_name"@,
    ensures
        describes_user(
            user_item(key, value, first_name, last_name, age, utype),
            key,
            value,
            first_name,
            last_name,
            age,
            utype,
        ),
{
    reveal_strlit("account_type");
    reveal_strlit("age");
    reveal_strlit("first_name");
    reveal_strlit("last_name");
    assert("account_type"@.len() == 12 && "age"@.len() == 3 && "first_name"@.len() == 10
        && "last_name"@.len() == 9);
    let keyed = put(Seq::empty(), key, Attribute::S(value));
    let typed = put(keyed, "account_type"@, Attribute::S(utype));
    let aged = put(typed, "age"@, Attribute::S(age));
    let named = put(aged, "first_name"@, Attribute::S(first_name));
    let whole = put(named, "last_name"@, Attribute::S(last_name));
    law_lookup_after_put(Seq::empty(), key, Attribute::S(value), key);
    law_lookup_after_put(keyed, "account_type"@, Attribute::S(utype), key);
    law_lookup_after_put(typed, "age"@, Attribute::S(age), key);
    law_lookup_after_put(typed, "age"@, Attribute::S(age), "account_type"@);
    law_lookup_after_put(aged, "first_name"@, Attribute::S(first_name), key);
    law_lookup_after_put(aged, "first_name"@, Attribute::S(first_name), "account_type"@);
    law_lookup_after_put(aged, "first_name"@, Attribute::S(first_name), "age"@);
    law_lookup_after_put(named, "last_name"@, Attribute::S(last_name), key);
    law_lookup_after_put(named, "last_name"@, Attribute::S(last_name), "account_type"@);
    law_lookup_after_put(named, "last_name"@, Attribute::S(last_name), "age"@);
    law_lookup_after_put(named, "last_name"@, Attribute::S(last_name), "first_name"@);
}

/// Builds the key of the item to delete: the string `value` under `key`.
pub fn delete_item(key: &str, value: &str) -> (item_key: Item)
    ensures
        item_key@ == put(Seq::empty(), key@, Attribute::S(value@)),
{
    Item::new().item(key, AttributeValue::S(value.to_owned()))
}

/// How long the wait for a new table sleeps after its first poll, in
/// milliseconds.
pub const TABLE_WAIT_MILLIS: u64 = 10000;

/// The request that governs the wait for a new table: the first sleep
/// lasts ten seconds and each later one twice as long as the one before,
/// up to `max_delay`; polling ends at `deadline`; as many transient
/// failures in a row are tolerated as a waiter tolerates by default.
pub open spec fn table_wait(max_delay: u64, deadline: u64) -> PollRequest {
    PollRequest {
        backoff: Backoff { initial_delay: TABLE_WAIT_MILLIS, max_delay, backoff_multiplier: 2 },
        deadline,
        max_transient_failures: DEFAULT_TRANSIENT_FAILURES,
    }
}

/// Builds the request that governs the wait for a new table, with the
/// given ceiling for a sleep and the given deadline.
pub fn table_request(max_delay: u64, deadline: u64) -> (request: PollRequest)
    ensures
        request == table_wait(max_delay, deadline),
{
    PollRequest::new(
        Backoff { initial_delay: TABLE_WAIT_MILLIS, max_delay, backoff_multiplier: 2 },
        deadline,
    )
}

/// Waits for a table against a record of what the service and the caller
/// did, one round per fetch, and reports how the wait unfolded: its
/// outcome, the number of fetches and the sleeps taken.
///
/// The wait starts with a fetch. A round whose fetch fails for good, or
/// transiently once too often, ends it as a transport error with that
/// cause; a terminal status ends it as a terminal failure and a ready one
/// as ready, each with that status. After any other round the wait is
/// cancelled if the caller says so before or after the sleep, times out if
/// the sleep would reach the deadline, and else sleeps as the schedule
/// says and goes on with the next round. Rounds beyond the end of the wait
/// are not looked at; the outcome is `None` if the record ends first.
pub fn wait_for_table<S, E>(request: PollRequest, rounds: Vec<Round<S, E>>) -> (report: Report<
    S,
    E,
>)
    ensures
        report@ == run(spec_begin(request), rounds@),
{
    let ghost script = rounds@;
    let mut rest = rounds;
    let total = rest.len();
    let mut state = begin(request);
    let mut fetches: usize = 0;
    let mut sleeps: Vec<u64> = Vec::new();
    while rest.len() > 0
        invariant
            script == rounds@,
            fetches + rest@.len() == total,
            run(spec_begin(request), script) == run(state, rest@).after(fetches as nat, sleeps@),
        decreases rest@.len(),
    {
        let ghost before = rest@;
        let ghost slept = sleeps@;
        let round = rest.remove(0);
        assert(rest@ =~= before.drop_first());
        assert(round == before[0]);
        fetches = fetches + 1;
        match state.fetched(round.fetched, round.now, round.cancelled_before_sleep) {
            AfterFetch::Done(outcome) => {
                assert(sleeps@ + Seq::<u64>::empty() =~= sleeps@);
                return Report { outcome: Some(outcome), fetches, sleeps };
            },
            AfterFetch::Sleep(sleeping, delay) => {
                sleeps.push(delay);
                assert(slept + seq![delay] =~= sleeps@);
                match sleeping.woke(round.cancelled_after_sleep) {
                    AfterSleep::Cancelled => {
                        return Report { outcome: Some(PollOutcome::Cancelled), fetches, sleeps };
                    },
                    AfterSleep::Fetch(next) => {
                        assert(run(next, rest@).after(1, seq![delay]).after(
                            (fetches - 1) as nat,
                            slept,
                        ) == run(next, rest@).after(fetches as nat, sleeps@)) by {
                            assert(slept + (seq![delay] + run(next, rest@).sleeps) =~= (slept
                                + seq![delay]) + run(next, rest@).sleeps);
                        }
                        state = next;
                    },
                }
            },
        }
    }
    assert(sleeps@ + Seq::<u64>::empty() =~= sleeps@);
    Report { outcome: None, fetches, sleeps }
}

/// Judges the answer to a request that describes the table `table`:
/// `described` is the name in the answer, if it holds one. The table is
/// there once the answer names it.
pub fn table_exists(described: &Option<String>, table: &str) -> (verdict: Verdict)
    ensures
        verdict == if described matches Some(name) && name@ == table@ {
            Verdict::Ready
        } else {
            Verdict::Pending
        },
{
    match described {
        Some(name) => if *name == table.to_owned() {
            Verdict::Ready
        } else {
            Verdict::Pending
        },
        None => Verdict::Pending,
    }
}

} // verus!

//! What the fuzzer takes from outside crates on trust: the types it holds
//! without looking inside, and the calls whose contracts are stated here and
//! not proved.

use vstd::prelude::*;
use libafl::feedbacks::MapFeedbackMetadata;
use libafl_bolts::rands::Rand;
use libafl_bolts::rands::StdRand;
use libafl_bolts::serdeany::NamedSerdeAnyMap;
use libafl_bolts::serdeany::SerdeAnyMap;
use std::time::Duration;
use std::time::Instant;

verus! {

/// The random number generator of `libafl_bolts` that the fuzzer draws from.
#[verifier::external_type_specification]
#[verifier::external_body]
pub struct ExStdRand(StdRand);

/// The map of `libafl_bolts` that holds one piece of metadata per type.
#[verifier::external_type_specification]
#[verifier::external_body]
pub struct ExSerdeAnyMap(SerdeAnyMap);

/// The map of `libafl_bolts` that holds metadata by type and name.
#[verifier::external_type_specification]
#[verifier::external_body]
pub struct ExNamedSerdeAnyMap(NamedSerdeAnyMap);

/// The coverage history maps (the `history_map` of each
/// `MapFeedbackMetadata<u8>`) that a named metadata map holds, by the name
/// under which each is stored.
pub uninterp spec fn history_maps(map: NamedSerdeAnyMap) -> Map<Seq<char>, Seq<u8>>;

/// Whether a named metadata map holds no coverage history map at all.
pub open spec fn holds_no_history_map(map: NamedSerdeAnyMap) -> bool {
    forall|name: Seq<char>| !(#[trigger] history_maps(map).contains_key(name))
}

/// `SerdeAnyMap::new` of `libafl_bolts`: a map with nothing in it. The
/// fuzzer reads nothing from such a map, so nothing is claimed of it.
pub assume_specification[ SerdeAnyMap::new ]() -> (r: SerdeAnyMap);

/// `NamedSerdeAnyMap::new` of `libafl_bolts`: the new map holds nothing, so
/// no history map either.
pub assume_specification[ NamedSerdeAnyMap::new ]() -> (r: NamedSerdeAnyMap)
    ensures
        holds_no_history_map(r),
;

/// `NamedSerdeAnyMap::get::<MapFeedbackMetadata<u8>>` of `libafl_bolts`,
/// followed by a copy of the `history_map` field of what was found: the
/// history map stored under `name`, or `None` where the map holds no
/// `MapFeedbackMetadata<u8>` of that name.
#[verifier::external_body]
pub(crate) fn history_map(map: &NamedSerdeAnyMap, name: &str) -> (r: Option<Vec<u8>>)
    ensures
        r is Some <==> history_maps(*map).contains_key(name@),
        r is Some ==> r->Some_0@ == history_maps(*map)[name@],
{
    map.get::<MapFeedbackMetadata<u8>>(name).map(|m| m.history_map.clone())
}

/// `Rand::below` of `libafl_bolts` on its standard generator: some number
/// under the bound, and 0 where the bound is 0 or 1. Which number is drawn
/// depends on the generator's seed, so no more is said.
#[verifier::external_body]
pub(crate) fn rand_below(rand: &mut StdRand, upper_bound_excl: u64) -> (r: u64)
    ensures
        upper_bound_excl >= 1 ==> r < upper_bound_excl,
        upper_bound_excl <= 1 ==> r == 0,
{
    rand.below(upper_bound_excl)
}

/// `DEFAULT_MAX_SIZE` of `libafl`: the largest input a fresh state accepts,
/// one mebibyte.
#[verifier::external_body]
pub(crate) fn default_max_size() -> (r: usize)
    ensures
        r == 1_048_576,
{
    libafl::state::DEFAULT_MAX_SIZE
}

/// Whether a wait status says that the child was ended by a signal: its low
/// seven bits are neither all clear nor all set.
pub open spec fn wifsignaled(status: i32) -> bool {
    1 <= (status & 0x7f) && (status & 0x7f) <= 0x7e
}

/// Whether a wait status says that the child is stopped: its low eight bits
/// are `0x7f`.
pub open spec fn wifstopped(status: i32) -> bool {
    (status & 0xff) == 0x7f
}

/// `WIFSIGNALED` of `libc`, as Linux has it: one more than the low seven
/// bits of the status, taken as a signed byte, is at least 2. That is so
/// exactly where those bits are neither all clear nor all set.
#[verifier::external_body]
pub(crate) fn status_is_signaled(status: i32) -> (r: bool)
    ensures
        r == wifsignaled(status),
{
    nix::libc::WIFSIGNALED(status)
}

/// `WIFSTOPPED` of `libc`, as Linux has it: the low eight bits of the status
/// are `0x7f`.
#[verifier::external_body]
pub(crate) fn status_is_stopped(status: i32) -> (r: bool)
    ensures
        r == wifstopped(status),
{
    nix::libc::WIFSTOPPED(status)
}

/// `SIGTERM` of `libc`, as Linux has it: the signal of number 15.
#[verifier::external_body]
pub(crate) fn sigterm() -> (r: i32)
    ensures
        r == 15,
{
    nix::libc::SIGTERM
}

/// The character that stands for a digit.
pub open spec fn digit_char(digit: nat) -> char {
    (('0' as nat) + digit) as char
}

/// The characters of a number written in decimal: its digits, the highest
/// first, with no sign and no leading zeros, and `0` for the number 0.
pub open spec fn decimal_text(n: nat) -> Seq<char>
    decreases n,
{
    if n < 10 {
        seq![digit_char(n)]
    } else {
        decimal_text(n / 10).push(digit_char(n % 10))
    }
}

/// `format!` of std on a number: the number written in decimal.
#[verifier::external_body]
pub(crate) fn decimal_string(n: usize) -> (r: String)
    ensures
        r@ == decimal_text(n as nat),
{
    format!("{n}")
}

/// `get_unique_std_input_file` of `libafl_bolts`: the name of the input
/// file, made from the identifier of this process. It differs from process
/// to process, so nothing is claimed of it.
#[verifier::external_body]
pub(crate) fn unique_std_input_file() -> (r: String) {
    libafl_bolts::fs::get_unique_std_input_file()
}

/// A point in time of std's monotonic clock.
#[verifier::external_type_specification]
#[verifier::external_body]
pub struct ExInstant(Instant);

/// The length of a duration in nanoseconds.
pub uninterp spec fn duration_nanos(d: Duration) -> nat;

/// The longest duration that std can hold, in nanoseconds: the largest
/// `u64` of seconds and just under one second more.
pub open spec fn max_duration_nanos() -> nat {
    18446744073709551615 * 1000000000 + 999999999
}

/// `Instant::now` of std: the present moment. Nothing is claimed of it.
#[verifier::external_body]
pub(crate) fn instant_now() -> (r: Instant) {
    Instant::now()
}

/// `Instant::elapsed` of std: the time that has passed since the instant.
/// Nothing is claimed of it.
#[verifier::external_body]
pub(crate) fn instant_elapsed(start: &Instant) -> (r: Duration) {
    start.elapsed()
}

/// `Duration::new` of std with no seconds and no nanoseconds: the duration
/// of length 0.
#[verifier::external_body]
pub(crate) fn zero_duration() -> (r: Duration)
    ensures
        duration_nanos(r) == 0,
{
    Duration::new(0, 0)
}

/// `Duration::saturating_add` of std: the two durations added, and the
/// longest duration where the sum would be longer than that.
#[verifier::external_body]
pub(crate) fn add_durations(a: Duration, b: Duration) -> (r: Duration)
    ensures
        duration_nanos(r) == (if duration_nanos(a) + duration_nanos(b) <= max_duration_nanos() {
            duration_nanos(a) + duration_nanos(b)
        } else {
            max_duration_nanos()
        }),
{
    a.saturating_add(b)
}

/// `Duration::as_nanos` of std: the length of the duration in nanoseconds.
#[verifier::external_body]
pub(crate) fn duration_as_nanos(d: &Duration) -> (r: u128)
    ensures
        r == duration_nanos(*d),
{
    d.as_nanos()
}

/// Whether a character is one of the ten digits.
pub open spec fn is_digit(c: char) -> bool {
    '0' <= c && c <= '9'
}

/// The number that a sequence of digits stands for in decimal.
pub open spec fn digits_value(digits: Seq<char>) -> nat
    decreases digits.len(),
{
    if digits.len() == 0 {
        0
    } else {
        digits_value(digits.drop_last()) * 10 + ((digits.last() as nat) - ('0' as nat)) as nat
    }
}

/// The number that a text stands for: the text is an optional plus sign and
/// then at least one digit, nothing else, and the number fits into a
/// `usize`.
pub open spec fn decimal_usize(text: Seq<char>) -> Option<usize> {
    let digits = if text.len() > 0 && text[0] == '+' {
        text.skip(1)
    } else {
        text
    };
    if digits.len() > 0 && (forall|i: int| 0 <= i < digits.len() ==> is_digit(#[trigger] digits[i]))
        && digits_value(digits) <= usize::MAX {
        Some(digits_value(digits) as usize)
    } else {
        None
    }
}

/// `str::parse::<usize>` of std: the number that the text stands for in
/// decimal, if it is an optional plus sign followed by digits and nothing
/// else, and the number is not too large.
#[verifier::external_body]
pub(crate) fn parse_usize(text: &str) -> (r: Option<usize>)
    ensures
        r == decimal_usize(text@),
{
    text.parse::<usize>().ok()
}

/// A text without the white space at its beginning and at its end.
pub uninterp spec fn trimmed(text: Seq<char>) -> Seq<char>;

/// `str::trim` of std: the text without leading and trailing white space,
/// as Unicode defines white space.
#[verifier::external_body]
pub(crate) fn trim(text: &str) -> (r: &str)
    ensures
        r@ == trimmed(text@),
{
    text.trim()
}

} // verus!

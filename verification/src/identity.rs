//! Identifiers and points in time, held as plain values.
//!
//! A wallet, a transaction or an event is identified by a UUID, held here as
//! its 128-bit value in big-endian order (`Uuid::as_u128`).  A point in time
//! is held as whole seconds since the Unix epoch and the nanoseconds past them
//! (`DateTime::<Utc>::timestamp` and `timestamp_subsec_nanos`).

use vstd::prelude::*;
use vstd::arithmetic::div_mod::{lemma_breakdown, lemma_div_pos_is_pos, lemma_mod_pos_bound, lemma_small_mod};
use vstd::arithmetic::power2::{lemma2_to64, lemma_pow2_adds, lemma_pow2_pos, pow2};
use chrono::Utc;
use uuid::Uuid;

verus! {

/// A point in time: seconds since the Unix epoch and nanoseconds past them.
#[derive(Clone, Copy, Debug, PartialEq, Eq, Structural)]
pub struct Timestamp {
    pub seconds: i64,
    pub nanos: u32,
}

/// The lowercase hexadecimal digit of `n` (for `0 <= n < 16`).
pub open spec fn hex_digit(n: int) -> char {
    if n < 10 {
        (48 + n) as char
    } else {
        (87 + n) as char
    }
}

/// The `k`-th 4-bit group of `id`, counted from the most significant (`0 <= k < 32`).
pub open spec fn nibble(id: u128, k: int) -> int {
    (id as int / pow2((4 * (31 - k)) as nat) as int) % 16
}

/// The positions of the four hyphens in the hyphenated form.
pub open spec fn is_hyphen_position(i: int) -> bool {
    i == 8 || i == 13 || i == 18 || i == 23
}

/// Which 4-bit group the character at position `i` of the hyphenated form shows.
pub open spec fn nibble_at(i: int) -> int {
    if i < 8 {
        i
    } else if i < 13 {
        i - 1
    } else if i < 18 {
        i - 2
    } else if i < 23 {
        i - 3
    } else {
        i - 4
    }
}

/// The hyphenated lowercase form of a UUID, such as
/// `67e55044-10b1-426f-9247-bb680e5fe0c8`: 32 hexadecimal digits, most
/// significant first, in groups of 8, 4, 4, 4 and 12.
pub open spec fn uuid_text(id: u128) -> Seq<char> {
    Seq::new(
        36,
        |i: int|
            if is_hyphen_position(i) {
                '-'
            } else {
                hex_digit(nibble(id, nibble_at(i)))
            },
    )
}

proof fn lemma_hex_digit_injective(n: int, m: int)
    requires
        0 <= n < 16,
        0 <= m < 16,
        hex_digit(n) == hex_digit(m),
    ensures
        n == m,
{
    let cn = if n < 10 { 48 + n } else { 87 + n };
    let cm = if m < 10 { 48 + m } else { 87 + m };
    assert(hex_digit(n) as int == cn);
    assert(hex_digit(m) as int == cm);
}

proof fn lemma_nibble_range(id: u128, k: int)
    ensures
        0 <= nibble(id, k) < 16,
{
    let p = pow2((4 * (31 - k)) as nat) as int;
    lemma_pow2_pos((4 * (31 - k)) as nat);
    lemma_div_pos_is_pos(id as int, p);
    lemma_mod_pos_bound(id as int / p, 16);
}

/// Two values that agree in their lowest `n` 4-bit groups agree modulo `2^(4n)`.
proof fn lemma_low_nibbles(a: u128, b: u128, n: nat)
    requires
        n <= 32,
        forall|k: int| 32 - n <= k < 32 ==> #[trigger] nibble(a, k) == nibble(b, k),
    ensures
        a as int % pow2(4 * n) as int == b as int % pow2(4 * n) as int,
    decreases n,
{
    lemma2_to64();
    if n == 0 {
        assert(a as int % 1 == 0 && b as int % 1 == 0);
    } else {
        let m = (n - 1) as nat;
        lemma_low_nibbles(a, b, m);
        let p = pow2(4 * m) as int;
        lemma_pow2_pos(4 * m);
        lemma_pow2_adds(4 * m, 4);
        assert(4 * n == 4 * m + 4);
        assert(pow2(4 * n) as int == p * 16);
        lemma_breakdown(a as int, p, 16);
        lemma_breakdown(b as int, p, 16);
        let k = 31 - m;
        assert(4 * (31 - k) == 4 * m);
        assert(nibble(a, k) == (a as int / p) % 16);
        assert(nibble(b, k) == (b as int / p) % 16);
    }
}

/// The hyphenated form determines the UUID: different identifiers have
/// different texts.
pub proof fn lemma_uuid_text_injective(a: u128, b: u128)
    requires
        uuid_text(a) == uuid_text(b),
    ensures
        a == b,
{
    assert forall|k: int| 0 <= k < 32 implies #[trigger] nibble(a, k) == nibble(b, k) by {
        let i = if k < 8 {
            k
        } else if k < 12 {
            k + 1
        } else if k < 16 {
            k + 2
        } else if k < 20 {
            k + 3
        } else {
            k + 4
        };
        assert(!is_hyphen_position(i) && nibble_at(i) == k);
        assert(0 <= i < 36);
        assert(uuid_text(a)[i] == hex_digit(nibble(a, nibble_at(i))));
        assert(uuid_text(b)[i] == hex_digit(nibble(b, nibble_at(i))));
        assert(uuid_text(a)[i] == uuid_text(b)[i]);
        lemma_nibble_range(a, k);
        lemma_nibble_range(b, k);
        lemma_hex_digit_injective(nibble(a, k), nibble(b, k));
    }
    lemma_low_nibbles(a, b, 32);
    lemma2_to64();
    lemma_pow2_adds(64, 64);
    assert(pow2(128) == 0x1_0000_0000_0000_0000 * 0x1_0000_0000_0000_0000);
    lemma_small_mod(a as nat, pow2(128));
    lemma_small_mod(b as nat, pow2(128));
}

/// Whether `id` is a random (version 4, RFC 4122 variant) UUID: its version
/// field, bits 76 to 79, holds 4, and its variant field, bits 62 and 63,
/// holds `0b10`.
pub open spec fn is_random_v4(id: u128) -> bool {
    &&& (id >> 76u128) & 0xfu128 == 4u128
    &&& (id >> 62u128) & 0x3u128 == 2u128
}

/// Whether `id` is a value that a draw of a random UUID returned: an outcome
/// of [`new_v4`], not a value made up in code.
pub closed spec fn drawn_at_random(id: u128) -> bool {
    call_ensures(new_v4, (), id)
}

/// A fresh random (version 4) identifier, drawn from `Uuid::new_v4`.
pub(crate) fn draw_id() -> (r: u128)
    ensures
        drawn_at_random(r),
        is_random_v4(r),
{
    new_v4()
}

/// `Uuid::new_v4`, as its 128-bit value.  `v4.rs` masks a random 128-bit
/// value with `0xFFFFFFFFFFFF4FFFBFFFFFFFFFFFFFFF` and sets
/// `0x40008000000000000000`, so the version and variant fields are fixed; the
/// other bits are random, and nothing is stated of them.
#[verifier::external_body]
pub(crate) fn new_v4() -> (r: u128)
    ensures
        is_random_v4(r),
{
    Uuid::new_v4().as_u128()
}

/// Whether `t` can be a reading of the system clock: not before the Unix
/// epoch, and with fewer than 10^9 nanoseconds.
pub open spec fn is_clock_reading(t: Timestamp) -> bool {
    t.seconds >= 0 && t.nanos < 1_000_000_000
}

/// Whether `t` is a value that a reading of the system clock returned: an
/// outcome of [`now`], not a value made up in code.
pub closed spec fn read_from_clock(t: Timestamp) -> bool {
    call_ensures(now, (), t)
}

/// The current time, read from `Utc::now`.
pub(crate) fn read_clock() -> (r: Timestamp)
    ensures
        read_from_clock(r),
        is_clock_reading(r),
{
    now()
}

/// `Utc::now()`, as seconds and nanoseconds.  `offset/utc.rs` builds it with
/// `DateTime::from_timestamp(d.as_secs() as i64, d.subsec_nanos())` from the
/// `Duration` since the Unix epoch (it panics on a clock set before 1970), so
/// `timestamp()` gives those seconds back and `timestamp_subsec_nanos()`
/// those nanoseconds, fewer than 10^9.  Which time it reads is the clock's.
#[verifier::external_body]
pub(crate) fn now() -> (r: Timestamp)
    ensures
        is_clock_reading(r),
{
    let t = Utc::now();
    Timestamp { seconds: t.timestamp(), nanos: t.timestamp_subsec_nanos() }
}

/// `Uuid::from_u128(id).to_string()`.  `Display` for `Uuid` goes through
/// `LowerHex` to the hyphenated form (`fmt::format_hyphenated`), whose digits
/// are those of the big-endian bytes that `from_u128` stores.
#[verifier::external_body]
pub(crate) fn uuid_to_string(id: u128) -> (r: String)
    ensures
        r@ == uuid_text(id),
{
    Uuid::from_u128(id).to_string()
}

} // verus!

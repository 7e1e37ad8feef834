//! A 128-bit identity that any process can produce without coordination.
//!
//! The identity is made of the process id, the creation time (seconds and
//! nanoseconds) and a per-process counter, each 32 bits wide, packed into a
//! single `u128` with the process id in the lowest bits.

use vstd::prelude::*;
use vstd::string::StringExecFns;

verus! {

/// The clock a [`Time`] was read from.
#[derive(Clone, Copy, Debug, PartialEq, Eq, Structural)]
pub enum ClockType {
    Realtime,
    Monotonic,
}

/// A point in time as read from a clock.
#[derive(Clone, Copy, Debug, PartialEq, Eq, Structural)]
pub struct Time {
    pub clock_type: ClockType,
    pub seconds: u64,
    pub nanoseconds: u32,
}

impl Time {
    pub fn seconds(&self) -> (r: u64)
        ensures
            r == self.seconds,
    {
        self.seconds
    }

    pub fn nanoseconds(&self) -> (r: u32)
        ensures
            r == self.nanoseconds,
    {
        self.nanoseconds
    }

    pub fn clock_type(&self) -> (r: ClockType)
        ensures
            r == self.clock_type,
    {
        self.clock_type
    }
}

/// The id of an operating-system process.
#[derive(Clone, Copy, Debug, PartialEq, Eq, Structural)]
pub struct ProcessId {
    pub value: u32,
}

impl ProcessId {
    pub fn new(value: u32) -> (r: ProcessId)
        ensures
            r.value == value,
    {
        ProcessId { value }
    }

    pub fn value(&self) -> (r: u32)
        ensures
            r == self.value,
    {
        self.value
    }
}

/// Why no [`UniqueSystemId`] could be made.
#[derive(Clone, Copy, Debug, PartialEq, Eq, Structural)]
pub enum UniqueSystemIdCreationError {
    FailedToAcquireTime,
}

/// The process-wide source of counter values. One instance is shared (by
/// reference) by everything in a process that creates identities; it is
/// made once and never reset.
#[derive(Debug)]
pub struct UniqueSystemIdCounter {
    next: u32,
}

impl UniqueSystemIdCounter {
    pub closed spec fn next_value(&self) -> u32 {
        self.next
    }

    pub fn new() -> (r: UniqueSystemIdCounter)
        ensures
            r.next_value() == 0,
    {
        UniqueSystemIdCounter { next: 0 }
    }

    /// Hands out the current counter value and advances the counter by one,
    /// wrapping around after `u32::MAX`.
    pub fn fetch_next(&mut self) -> (r: u32)
        ensures
            r == old(self).next_value(),
            final(self).next_value() == successor(old(self).next_value()),
    {
        let r = self.next;
        self.next = self.next.wrapping_add(1);
        r
    }
}

/// The counter value that follows `c`.
pub open spec fn successor(c: u32) -> u32 {
    ((c + 1) % 0x1_0000_0000) as u32
}

/// The counter value after `n` steps from `c`.
pub open spec fn counter_after(c: u32, n: nat) -> u32 {
    ((c + n) % 0x1_0000_0000) as u32
}

/// A single step of the counter moves it from `counter_after(c, n)` to
/// `counter_after(c, n + 1)`.
pub proof fn lemma_counter_step(c: u32, n: nat)
    ensures
        successor(counter_after(c, n)) == counter_after(c, n + 1),
{
    let m: int = 0x1_0000_0000;
    assert((((c + n) % m) + 1) % m == (c + n + 1) % m) by (nonlinear_arith)
        requires m == 0x1_0000_0000;
}

/// Counter values handed out by one counter never repeat within `2^32`
/// consecutive calls: the `i`-th and the `j`-th value differ.
pub proof fn lemma_counter_no_repeat(c: u32, i: nat, j: nat)
    requires
        i < j < 0x1_0000_0000,
    ensures
        counter_after(c, i) != counter_after(c, j),
{
    let m: int = 0x1_0000_0000;
    assert((c + i) % m != (c + j) % m) by (nonlinear_arith)
        requires m == 0x1_0000_0000, 0 <= i < j < m, 0 <= c < m;
}

/// The 128-bit value of the four 32-bit fields, the process id lowest.
pub open spec fn packed(pid: u32, seconds: u32, nanoseconds: u32, counter: u32) -> u128 {
    ((pid as u128) | ((seconds as u128) << 32u128) | ((nanoseconds as u128) << 64u128) | (
    (counter as u128) << 96u128)) as u128
}

/// A system-wide unique identity.
#[derive(Clone, Copy, Debug, PartialEq, Eq, Hash, Structural)]
pub struct UniqueSystemId {
    pid: u32,
    seconds: u32,
    nanoseconds: u32,
    counter: u32,
}

impl UniqueSystemId {
    pub closed spec fn spec_pid(&self) -> u32 {
        self.pid
    }

    pub closed spec fn spec_seconds(&self) -> u32 {
        self.seconds
    }

    pub closed spec fn spec_nanoseconds(&self) -> u32 {
        self.nanoseconds
    }

    pub closed spec fn spec_counter(&self) -> u32 {
        self.counter
    }

    /// The 128-bit value of this identity.
    pub open spec fn spec_value(&self) -> u128 {
        packed(self.spec_pid(), self.spec_seconds(), self.spec_nanoseconds(), self.spec_counter())
    }

    /// Creates a new identity from the id of the calling process, the time
    /// read from the clock (`None` when the clock could not be read) and the
    /// process-wide counter, which advances by one on success.
    pub fn new(counter: &mut UniqueSystemIdCounter, pid: u32, now: Option<Time>) -> (r: Result<
        UniqueSystemId,
        UniqueSystemIdCreationError,
    >)
        ensures
            match now {
                None => r == Err::<UniqueSystemId, _>(UniqueSystemIdCreationError::FailedToAcquireTime)
                    && final(counter).next_value() == old(counter).next_value(),
                Some(t) => r is Ok && r->Ok_0.spec_pid() == pid && r->Ok_0.spec_seconds() == (
                t.seconds as u32) && r->Ok_0.spec_nanoseconds() == t.nanoseconds
                    && r->Ok_0.spec_counter() == old(counter).next_value()
                    && final(counter).next_value() == successor(old(counter).next_value()),
            },
    {
        match now {
            None => Err(UniqueSystemIdCreationError::FailedToAcquireTime),
            Some(t) => Ok(
                UniqueSystemId {
                    pid,
                    seconds: t.seconds as u32,
                    nanoseconds: t.nanoseconds,
                    counter: counter.fetch_next(),
                },
            ),
        }
    }

    /// Returns the 128-bit value of the identity.
    pub fn value(&self) -> (r: u128)
        ensures
            r == self.spec_value(),
    {
        (self.pid as u128) | ((self.seconds as u128) << 32u128) | ((self.nanoseconds as u128)
            << 64u128) | ((self.counter as u128) << 96u128)
    }

    /// Returns the 128-bit value of the identity as decimal text.
    pub fn to_decimal_string(&self) -> (r: String)
        ensures
            r@ == decimal(self.spec_value() as nat),
    {
        decimal_string(self.value())
    }

    /// Returns the id of the process that created the identity.
    pub fn pid(&self) -> (r: ProcessId)
        ensures
            r.value == self.spec_pid(),
    {
        ProcessId::new(self.pid)
    }

    /// Returns when the identity was created.
    pub fn creation_time(&self) -> (r: Time)
        ensures
            r.clock_type == ClockType::Monotonic,
            r.seconds == self.spec_seconds() as u64,
            r.nanoseconds == self.spec_nanoseconds(),
    {
        Time {
            clock_type: ClockType::Monotonic,
            seconds: self.seconds as u64,
            nanoseconds: self.nanoseconds,
        }
    }
}

/// The 32-bit field of `v` that starts at bit `shift`.
pub open spec fn field_of(v: u128, shift: u128) -> u32 {
    ((v >> shift) & 0xffff_ffffu128) as u32
}

impl From<u128> for UniqueSystemId {
    /// Reads the four 32-bit fields back out of a 128-bit value.
    fn from(value: u128) -> (r: UniqueSystemId)
        ensures
            r.spec_pid() == field_of(value, 0),
            r.spec_seconds() == field_of(value, 32),
            r.spec_nanoseconds() == field_of(value, 64),
            r.spec_counter() == field_of(value, 96),
    {
        let pid = value & 0xffff_ffffu128;
        let seconds = (value >> 32u128) & 0xffff_ffffu128;
        let nanoseconds = (value >> 64u128) & 0xffff_ffffu128;
        let counter = (value >> 96u128) & 0xffff_ffffu128;
        proof {
            assert(value >> 0u128 == value) by (bit_vector);
            lemma_low_word_fits(value);
            lemma_low_word_fits(value >> 32u128);
            lemma_low_word_fits(value >> 64u128);
            lemma_low_word_fits(value >> 96u128);
        }
        UniqueSystemId {
            pid: pid as u32,
            seconds: seconds as u32,
            nanoseconds: nanoseconds as u32,
            counter: counter as u32,
        }
    }
}

proof fn lemma_low_word_fits(x: u128)
    ensures
        x & 0xffff_ffffu128 <= 0xffff_ffffu128,
{
    assert(x & 0xffff_ffffu128 <= 0xffff_ffffu128) by (bit_vector);
}

impl vstd::std_specs::convert::FromSpecImpl<u128> for UniqueSystemId {
    open spec fn obeys_from_spec() -> bool {
        true
    }

    closed spec fn from_spec(v: u128) -> UniqueSystemId {
        UniqueSystemId {
            pid: field_of(v, 0),
            seconds: field_of(v, 32),
            nanoseconds: field_of(v, 64),
            counter: field_of(v, 96),
        }
    }
}

/// Reading the fields back out of a value and packing them again gives the
/// value unchanged: `UniqueSystemId::from(v).value() == v` for every `v`.
pub proof fn lemma_value_round_trip(v: u128)
    ensures
        packed(field_of(v, 0), field_of(v, 32), field_of(v, 64), field_of(v, 96)) == v,
{
    assert(((((v >> 0u128) & 0xffff_ffffu128) as u32) as u128 | (((((v >> 32u128)
        & 0xffff_ffffu128) as u32) as u128) << 32u128) | (((((v >> 64u128) & 0xffff_ffffu128)
        as u32) as u128) << 64u128) | (((((v >> 96u128) & 0xffff_ffffu128) as u32) as u128)
        << 96u128)) == v) by (bit_vector);
}

/// Packing four fields and reading them back gives the same fields.
pub proof fn lemma_fields_round_trip(pid: u32, seconds: u32, nanoseconds: u32, counter: u32)
    ensures
        field_of(packed(pid, seconds, nanoseconds, counter), 0) == pid,
        field_of(packed(pid, seconds, nanoseconds, counter), 32) == seconds,
        field_of(packed(pid, seconds, nanoseconds, counter), 64) == nanoseconds,
        field_of(packed(pid, seconds, nanoseconds, counter), 96) == counter,
{
    let v = packed(pid, seconds, nanoseconds, counter);
    assert(v == ((pid as u128) | ((seconds as u128) << 32u128) | ((nanoseconds as u128) << 64u128)
        | ((counter as u128) << 96u128)));
    assert((((((pid as u128) | ((seconds as u128) << 32u128) | ((nanoseconds as u128) << 64u128)
        | ((counter as u128) << 96u128)) >> 0u128) & 0xffff_ffffu128) as u32) == pid)
        by (bit_vector);
    assert((((((pid as u128) | ((seconds as u128) << 32u128) | ((nanoseconds as u128) << 64u128)
        | ((counter as u128) << 96u128)) >> 32u128) & 0xffff_ffffu128) as u32) == seconds)
        by (bit_vector);
    assert((((((pid as u128) | ((seconds as u128) << 32u128) | ((nanoseconds as u128) << 64u128)
        | ((counter as u128) << 96u128)) >> 64u128) & 0xffff_ffffu128) as u32) == nanoseconds)
        by (bit_vector);
    assert((((((pid as u128) | ((seconds as u128) << 32u128) | ((nanoseconds as u128) << 64u128)
        | ((counter as u128) << 96u128)) >> 96u128) & 0xffff_ffffu128) as u32) == counter)
        by (bit_vector);
}

/// Two identities are equal exactly when their values are: the packing loses
/// nothing.
pub proof fn lemma_value_injective(a: UniqueSystemId, b: UniqueSystemId)
    ensures
        a.spec_value() == b.spec_value() <==> a == b,
{
    lemma_fields_round_trip(a.spec_pid(), a.spec_seconds(), a.spec_nanoseconds(), a.spec_counter());
    lemma_fields_round_trip(b.spec_pid(), b.spec_seconds(), b.spec_nanoseconds(), b.spec_counter());
}

/// Identities whose counters are the `i`-th and the `j`-th value of one
/// counter, fewer than `2^32` steps apart, have different values: repeated
/// creation within one process never repeats a value.
pub proof fn lemma_ids_of_one_counter_differ(
    a: UniqueSystemId,
    b: UniqueSystemId,
    start: u32,
    i: nat,
    j: nat,
)
    requires
        i < j < 0x1_0000_0000,
        a.spec_counter() == counter_after(start, i),
        b.spec_counter() == counter_after(start, j),
    ensures
        a.spec_value() != b.spec_value(),
{
    lemma_counter_no_repeat(start, i, j);
    lemma_value_injective(a, b);
}

/// The character of decimal digit `d`.
pub open spec fn digit_char(d: nat) -> char {
    if d == 0 { '0' } else if d == 1 { '1' } else if d == 2 { '2' } else if d == 3 { '3' }
    else if d == 4 { '4' } else if d == 5 { '5' } else if d == 6 { '6' } else if d == 7 { '7' }
    else if d == 8 { '8' } else { '9' }
}

/// The decimal text of `n`, without leading zeros.
pub open spec fn decimal(n: nat) -> Seq<char>
    decreases n,
{
    if n < 10 {
        seq![digit_char(n)]
    } else {
        decimal(n / 10) + seq![digit_char(n % 10)]
    }
}

fn digit_str(d: u8) -> (r: &'static str)
    requires
        d < 10,
    ensures
        r@ == seq![digit_char(d as nat)],
{
    proof {
        reveal_strlit("0");
        reveal_strlit("1");
        reveal_strlit("2");
        reveal_strlit("3");
        reveal_strlit("4");
        reveal_strlit("5");
        reveal_strlit("6");
        reveal_strlit("7");
        reveal_strlit("8");
        reveal_strlit("9");
    }
    let r = if d == 0 { "0" } else if d == 1 { "1" } else if d == 2 { "2" } else if d == 3 { "3" }
    else if d == 4 { "4" } else if d == 5 { "5" } else if d == 6 { "6" } else if d == 7 { "7" }
    else if d == 8 { "8" } else { "9" };
    assert(r@ =~= seq![digit_char(d as nat)]);
    r
}

/// The decimal text of `v`.
fn decimal_string(v: u128) -> (r: String)
    ensures
        r@ == decimal(v as nat),
{
    let mut digits: Vec<u8> = Vec::new();
    let ghost mut tail: Seq<char> = Seq::empty();
    let mut m: u128 = v;
    while m >= 10
        invariant
            decimal(v as nat) == decimal(m as nat) + tail,
            tail.len() == digits.len(),
            forall|i: int| 0 <= i < digits.len() ==> digits[i] < 10,
            forall|i: int|
                0 <= i < tail.len() ==> #[trigger] tail[i] == digit_char(
                    digits[digits.len() - 1 - i] as nat,
                ),
        decreases m,
    {
        let d = (m % 10) as u8;
        proof {
            assert(decimal(m as nat) == decimal((m / 10) as nat) + seq![digit_char((m % 10) as nat)]);
            let t = seq![digit_char(d as nat)] + tail;
            assert(decimal(v as nat) =~= decimal((m / 10) as nat) + t);
            tail = t;
        }
        digits.push(d);
        m = m / 10;
    }
    let d = m as u8;
    proof {
        tail = seq![digit_char(d as nat)] + tail;
    }
    digits.push(d);
    assert(decimal(v as nat) =~= tail);
    let mut r = String::new();
    let mut i: usize = digits.len();
    while i > 0
        invariant
            i <= digits.len(),
            tail.len() == digits.len(),
            forall|k: int| 0 <= k < digits.len() ==> digits[k] < 10,
            forall|k: int|
                0 <= k < tail.len() ==> #[trigger] tail[k] == digit_char(
                    digits[digits.len() - 1 - k] as nat,
                ),
            r@ == tail.subrange(0, digits.len() - i),
        decreases i,
    {
        i = i - 1;
        r.append(digit_str(digits[i]));
        assert(r@ =~= tail.subrange(0, digits.len() - i));
    }
    assert(r@ =~= tail);
    r
}

} // verus!

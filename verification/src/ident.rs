//! Identifiers for elements and callback registrations.
//!
//! An identifier is the text `el_<time>_<count>`, where `<time>` is a clock
//! reading in lowercase hexadecimal and `<count>` is a per-generator counter
//! in decimal. The counter alone makes two identifiers of one generator
//! differ, whatever the clock says.

use vstd::prelude::*;

verus! {

/// The character for a single digit below sixteen, lowercase.
pub open spec fn digit_char(d: int) -> char {
    if d == 0 {
        '0'
    } else if d == 1 {
        '1'
    } else if d == 2 {
        '2'
    } else if d == 3 {
        '3'
    } else if d == 4 {
        '4'
    } else if d == 5 {
        '5'
    } else if d == 6 {
        '6'
    } else if d == 7 {
        '7'
    } else if d == 8 {
        '8'
    } else if d == 9 {
        '9'
    } else if d == 10 {
        'a'
    } else if d == 11 {
        'b'
    } else if d == 12 {
        'c'
    } else if d == 13 {
        'd'
    } else if d == 14 {
        'e'
    } else {
        'f'
    }
}

/// `n` in lowercase hexadecimal, most significant digit first, without
/// leading zeros; zero is the single digit `0`.
pub open spec fn hex_text(n: nat) -> Seq<char>
    decreases n,
{
    if n < 16 {
        seq![digit_char(n as int)]
    } else {
        hex_text(n / 16).push(digit_char((n % 16) as int))
    }
}

/// `n` in decimal, most significant digit first, without leading zeros; zero
/// is the single digit `0`.
pub open spec fn dec_text(n: nat) -> Seq<char>
    decreases n,
{
    if n < 10 {
        seq![digit_char(n as int)]
    } else {
        dec_text(n / 10).push(digit_char((n % 10) as int))
    }
}

/// The text of the identifier made from a clock reading and a counter value.
pub open spec fn id_text(nanos: nat, count: nat) -> Seq<char> {
    seq!['e', 'l', '_'] + hex_text(nanos) + seq!['_'] + dec_text(count)
}

fn digit_str(d: u8) -> (r: &'static str)
    requires
        d < 16,
    ensures
        r@ == seq![digit_char(d as int)],
{
    let r = match d {
        0 => "0",
        1 => "1",
        2 => "2",
        3 => "3",
        4 => "4",
        5 => "5",
        6 => "6",
        7 => "7",
        8 => "8",
        9 => "9",
        10 => "a",
        11 => "b",
        12 => "c",
        13 => "d",
        14 => "e",
        _ => "f",
    };
    proof {
        reveal_strlit("0");
        reveal_strlit("1");
        reveal_strlit("2");
        reveal_strlit("3");
        reveal_strlit("4");
        reveal_strlit("5");
        reveal_strlit("6");
        reveal_strlit("7");
        reveal_strlit("8");
        reveal_strlit("9");
        reveal_strlit("a");
        reveal_strlit("b");
        reveal_strlit("c");
        reveal_strlit("d");
        reveal_strlit("e");
        reveal_strlit("f");
        assert(r@ =~= seq![digit_char(d as int)]);
    }
    r
}

/// Appends `n` in lowercase hexadecimal to `out`.
pub fn push_hex(out: &mut String, n: u128)
    ensures
        final(out)@ == old(out)@ + hex_text(n as nat),
    decreases n,
{
    if n >= 16 {
        push_hex(out, n / 16);
    }
    let last: u8 = (n % 16) as u8;
    out.append(digit_str(last));
    assert(out@ =~= old(out)@ + hex_text(n as nat));
}

/// Appends `n` in decimal to `out`.
pub fn push_dec(out: &mut String, n: u64)
    ensures
        final(out)@ == old(out)@ + dec_text(n as nat),
    decreases n,
{
    if n >= 10 {
        push_dec(out, n / 10);
    }
    let last: u8 = (n % 10) as u8;
    out.append(digit_str(last));
    assert(out@ =~= old(out)@ + dec_text(n as nat));
}

/// The number that a sequence of decimal digit characters writes.
pub open spec fn dec_value(s: Seq<char>) -> nat
    decreases s.len(),
{
    if s.len() == 0 {
        0
    } else {
        (dec_value(s.drop_last()) * 10 + (s.last() as int - '0' as int)) as nat
    }
}

/// Decimal text holds digits only, and reads back as the number it was
/// written from.
pub proof fn lemma_dec_text_reads_back(n: nat)
    ensures
        dec_text(n).len() >= 1,
        forall|i: int| 0 <= i < dec_text(n).len() ==> '0' <= #[trigger] dec_text(n)[i] <= '9',
        dec_value(dec_text(n)) == n,
    decreases n,
{
    if n < 10 {
        assert(dec_text(n).drop_last() =~= Seq::<char>::empty());
        assert(dec_value(dec_text(n).drop_last()) == 0);
    } else {
        lemma_dec_text_reads_back(n / 10);
        assert(dec_text(n).drop_last() =~= dec_text(n / 10));
    }
}

/// Two identifiers made from different counter values are different texts,
/// whatever the two clock readings were.
pub proof fn lemma_ids_differ_by_count(nanos_a: nat, count_a: nat, nanos_b: nat, count_b: nat)
    requires
        count_a != count_b,
    ensures
        id_text(nanos_a, count_a) != id_text(nanos_b, count_b),
{
    let a = id_text(nanos_a, count_a);
    let b = id_text(nanos_b, count_b);
    let da = dec_text(count_a);
    let db = dec_text(count_b);
    lemma_dec_text_reads_back(count_a);
    lemma_dec_text_reads_back(count_b);
    if a == b {
        let head_a = a.len() - da.len();
        let head_b = b.len() - db.len();
        assert(a[head_a - 1] == '_');
        assert(b[head_b - 1] == '_');
        if da.len() < db.len() {
            assert(b[head_a - 1] == db[head_a - 1 - head_b]);
        } else if db.len() < da.len() {
            assert(a[head_b - 1] == da[head_b - 1 - head_a]);
        } else {
            assert(da =~= a.subrange(head_a, a.len() as int));
            assert(db =~= b.subrange(head_b, b.len() as int));
            assert(dec_value(da) == dec_value(db));
        }
    }
}

/// The system clock, as `std::time::SystemTime` holds it.
#[verifier::external_type_specification]
#[verifier::external_body]
pub struct ExSystemTime(std::time::SystemTime);

/// `SystemTime::now`: a reading of the system clock. Nothing is claimed of
/// the reading.
#[verifier::external_body]
fn clock_now() -> std::time::SystemTime {
    std::time::SystemTime::now()
}

/// `SystemTime::duration_since`, measured from `UNIX_EPOCH`: the time from
/// the epoch to the reading, or nothing where the reading lies before the
/// epoch. Nothing is claimed of the duration.
#[verifier::external_body]
fn since_epoch(reading: &std::time::SystemTime) -> Option<core::time::Duration> {
    reading.duration_since(std::time::UNIX_EPOCH).ok()
}

/// `Duration::as_nanos`: the duration in whole nanoseconds. Nothing is
/// claimed of the number.
#[verifier::external_body]
fn whole_nanos(span: &core::time::Duration) -> u128 {
    span.as_nanos()
}

/// The count of a generator after it handed out one identifier: one more,
/// and zero after the largest count.
pub open spec fn next_count(count: nat) -> nat {
    if count == u64::MAX {
        0
    } else {
        count + 1
    }
}

/// Hands out identifiers; each one carries the generator's counter, which
/// then moves on by one.
pub struct IdGenerator {
    counter: u64,
}

impl IdGenerator {
    /// The counter value that the next identifier will carry.
    pub closed spec fn count(&self) -> nat {
        self.counter as nat
    }

    /// A generator whose first identifier carries the count zero.
    pub fn new() -> (r: Self)
        ensures
            r.count() == 0,
    {
        IdGenerator { counter: 0 }
    }

    /// The identifier for the given clock reading and the current count. The
    /// count moves on by one, and returns to zero after `u64::MAX`.
    pub fn issue(&mut self, nanos: u128) -> (id: String)
        ensures
            id@ == id_text(nanos as nat, old(self).count()),
            final(self).count() == next_count(old(self).count()),
    {
        let mut id = String::from_str("el_");
        proof {
            reveal_strlit("el_");
            reveal_strlit("_");
            assert(id@ =~= seq!['e', 'l', '_']);
        }
        push_hex(&mut id, nanos);
        id.append("_");
        push_dec(&mut id, self.counter);
        assert(id@ =~= id_text(nanos as nat, self.count()));
        self.counter = self.counter.wrapping_add(1);
        id
    }

    /// The identifier for the current reading of the system clock and the
    /// current count; a clock that reads before the epoch counts as zero.
    pub fn next_id(&mut self) -> (id: String)
        ensures
            exists|nanos: nat| id@ == id_text(nanos, old(self).count()),
            final(self).count() == next_count(old(self).count()),
    {
        let reading = clock_now();
        let nanos: u128 = match since_epoch(&reading) {
            Some(span) => whole_nanos(&span),
            None => 0,
        };
        self.issue(nanos)
    }
}

} // verus!

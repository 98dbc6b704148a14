//! What a command uses, as the environment tells it: three files of the
//! control group, read one after the other. The first line is the memory
//! in use, in bytes; the second is the number of processes; the third
//! starts with `usage_usec ` and gives the processor time in
//! microseconds. What follows the third line is not looked at.

use crate::limits::Usage;
use crate::monitor::Event;
use vstd::prelude::*;

verus! {

/// The byte that ends a line.
pub const NEWLINE: u8 = 10;

/// The length of the first line of `s`, without the byte that ends it.
pub open spec fn line_length(s: Seq<u8>) -> nat
    decreases s.len(),
{
    if s.len() == 0 || s[0] == NEWLINE {
        0
    } else {
        1 + line_length(s.drop_first())
    }
}

/// The first line of `s`, without the byte that ends it.
pub open spec fn first_line(s: Seq<u8>) -> Seq<u8> {
    s.take(line_length(s) as int)
}

/// What follows the first line of `s` and the byte that ends it.
pub open spec fn after_line(s: Seq<u8>) -> Seq<u8> {
    if line_length(s) < s.len() {
        s.skip(line_length(s) as int + 1)
    } else {
        Seq::empty()
    }
}

/// Whether a byte is a decimal digit.
pub open spec fn is_digit(b: u8) -> bool {
    48 <= b <= 57
}

/// Whether `s` holds decimal digits and nothing else.
pub open spec fn all_digits(s: Seq<u8>) -> bool {
    forall|i: int| 0 <= i < s.len() ==> is_digit(#[trigger] s[i])
}

/// The number that the digits of `s` write.
pub open spec fn digits_value(s: Seq<u8>) -> nat
    decreases s.len(),
{
    if s.len() == 0 {
        0
    } else {
        digits_value(s.drop_last()) * 10 + (s.last() - 48) as nat
    }
}

/// The number that `s` writes: `s` is one digit at least and digits
/// only, and the number fits in 64 bits.
pub open spec fn number_of(s: Seq<u8>) -> Option<u64> {
    if s.len() > 0 && all_digits(s) && digits_value(s) <= u64::MAX {
        Some(digits_value(s) as u64)
    } else {
        None
    }
}

/// The words before the processor time, as bytes: `usage_usec `.
pub open spec fn cpu_label() -> Seq<u8> {
    seq![117u8, 115u8, 97u8, 103u8, 101u8, 95u8, 117u8, 115u8, 101u8, 99u8, 32u8]
}

/// The processor time that a line tells, in microseconds.
pub open spec fn cpu_time_of(line: Seq<u8>) -> Option<u64> {
    if cpu_label().is_prefix_of(line) {
        number_of(line.skip(cpu_label().len() as int))
    } else {
        None
    }
}

/// The usage that `text` tells, if it has the three lines.
pub open spec fn reading_of(text: Seq<u8>) -> Option<Usage> {
    let memory = number_of(first_line(text));
    let processes = number_of(first_line(after_line(text)));
    let cpu = cpu_time_of(first_line(after_line(after_line(text))));
    if memory is Some && processes is Some && cpu is Some {
        Some(
            Usage {
                cpu_ms: cpu->Some_0 / 1000,
                memory_bytes: memory->Some_0,
                processes: processes->Some_0,
            },
        )
    } else {
        None
    }
}

/// What the watch is told after an attempt to read the usage: the
/// reading, or only that time has passed.
pub open spec fn event_of(text: Seq<u8>) -> Event {
    match reading_of(text) {
        Some(usage) => Event::Sample(usage),
        None => Event::Tick,
    }
}

proof fn lemma_line_length_bound(s: Seq<u8>)
    ensures
        line_length(s) <= s.len(),
        line_length(s) < s.len() ==> s[line_length(s) as int] == NEWLINE,
        forall|i: int| 0 <= i < line_length(s) ==> s[i] != NEWLINE,
    decreases s.len(),
{
    if s.len() == 0 || s[0] == NEWLINE {
    } else {
        let t = s.drop_first();
        lemma_line_length_bound(t);
        assert forall|i: int| 0 <= i < line_length(s) implies s[i] != NEWLINE by {
            if i > 0 {
                assert(s[i] == t[i - 1]);
            }
        }
        if line_length(s) < s.len() {
            assert(s[line_length(s) as int] == t[line_length(t) as int]);
        }
    }
}

/// The first line ends at the first byte that ends a line, or where the
/// text ends.
proof fn lemma_line_length_is(s: Seq<u8>, n: int)
    requires
        0 <= n <= s.len(),
        forall|i: int| 0 <= i < n ==> s[i] != NEWLINE,
        n < s.len() ==> s[n] == NEWLINE,
    ensures
        line_length(s) == n,
{
    lemma_line_length_bound(s);
    let m = line_length(s) as int;
    if m < n {
        assert(s[m] == NEWLINE);
    } else if m > n {
        assert(s[n] != NEWLINE);
    }
}

proof fn lemma_digits_value_grows(s: Seq<u8>, n: int)
    requires
        0 <= n <= s.len(),
        all_digits(s),
    ensures
        digits_value(s.take(n)) <= digits_value(s),
    decreases s.len() - n,
{
    if n < s.len() {
        let longer = s.take(n + 1);
        assert(longer.drop_last() =~= s.take(n));
        assert(is_digit(s[n]));
        assert(longer.last() == s[n]);
        lemma_digits_value_grows(s, n + 1);
    } else {
        assert(s.take(n) =~= s);
    }
}

/// Where the line ends that starts at `from`.
fn line_end(text: &[u8], from: usize) -> (end: usize)
    requires
        from <= text@.len(),
    ensures
        from <= end <= text@.len(),
        end - from == line_length(text@.skip(from as int)),
{
    let mut end = from;
    while end < text.len() && text[end] != NEWLINE
        invariant
            from <= end <= text@.len(),
            forall|i: int| from <= i < end ==> text@[i] != NEWLINE,
        decreases text@.len() - end,
    {
        end += 1;
    }
    proof {
        lemma_line_length_is(text@.skip(from as int), end - from);
    }
    end
}

/// Reads the number that the bytes from `from` up to `to` write.
fn number_between(text: &[u8], from: usize, to: usize) -> (r: Option<u64>)
    requires
        from <= to <= text@.len(),
    ensures
        r == number_of(text@.subrange(from as int, to as int)),
{
    let ghost s = text@.subrange(from as int, to as int);
    if from == to {
        return None;
    }
    let mut value: u64 = 0;
    let mut i = from;
    while i < to
        invariant
            from <= i <= to <= text@.len(),
            s == text@.subrange(from as int, to as int),
            all_digits(s.take(i - from)),
            value == digits_value(s.take(i - from)),
        decreases to - i,
    {
        let byte = text[i];
        let ghost upto = s.take(i - from + 1);
        proof {
            assert(upto.drop_last() =~= s.take(i - from));
            assert(upto.last() == byte);
            assert(s[i - from] == byte);
        }
        if byte < 48 || byte > 57 {
            assert(!all_digits(s));
            return None;
        }
        let digit = (byte - 48) as u64;
        proof {
            assert forall|k: int| 0 <= k < upto.len() implies is_digit(#[trigger] upto[k]) by {
                if k < i - from {
                    assert(upto[k] == s.take(i - from)[k]);
                }
            }
            assert(digits_value(upto) == value * 10 + digit);
        }
        if value > (u64::MAX - digit) / 10 {
            proof {
                if all_digits(s) {
                    lemma_digits_value_grows(s, i - from + 1);
                }
            }
            return None;
        }
        value = value * 10 + digit;
        i += 1;
    }
    assert(s.take(to - from) =~= s);
    Some(value)
}

/// Whether the bytes from `from` on start with `usage_usec `.
fn has_cpu_label(text: &[u8], from: usize, to: usize) -> (r: bool)
    requires
        from <= to <= text@.len(),
    ensures
        r == cpu_label().is_prefix_of(text@.subrange(from as int, to as int)),
{
    let ghost line = text@.subrange(from as int, to as int);
    let ghost label = cpu_label();
    if to - from < 11 {
        return false;
    }
    let r = text[from] == 117 && text[from + 1] == 115 && text[from + 2] == 97 && text[from + 3]
        == 103 && text[from + 4] == 101 && text[from + 5] == 95 && text[from + 6] == 117 && text[from
        + 7] == 115 && text[from + 8] == 101 && text[from + 9] == 99 && text[from + 10] == 32;
    proof {
        assert(label.len() == 11);
        if r {
            assert(label =~= line.subrange(0, 11));
        } else {
            if label.is_prefix_of(line) {
                assert(forall|k: int| 0 <= k < 11 ==> label[k] == line[k]);
                assert(line[0] == label[0] && line[1] == label[1] && line[2] == label[2] && line[3]
                    == label[3] && line[4] == label[4] && line[5] == label[5] && line[6]
                    == label[6] && line[7] == label[7] && line[8] == label[8] && line[9]
                    == label[9] && line[10] == label[10]);
            }
        }
    }
    r
}

/// Where the text goes on after the line that ends at `end`.
fn next_line(text: &[u8], end: usize) -> (next: usize)
    requires
        end <= text@.len(),
    ensures
        end <= next <= text@.len(),
        next == if end < text@.len() {
            end + 1
        } else {
            end as int
        },
{
    if end < text.len() {
        end + 1
    } else {
        end
    }
}

/// Reads the usage that `text` tells; nothing where a line is missing or
/// is not what it should be.
pub fn parse_reading(text: &[u8]) -> (r: Option<Usage>)
    ensures
        r == reading_of(text@),
{
    let ghost whole = text@;
    let end1 = line_end(text, 0);
    let start2 = next_line(text, end1);
    let end2 = line_end(text, start2);
    let start3 = next_line(text, end2);
    let end3 = line_end(text, start3);
    proof {
        assert(whole.skip(0) =~= whole);
        assert(first_line(whole) =~= whole.subrange(0, end1 as int));
        assert(after_line(whole) =~= whole.skip(start2 as int));
        let second = after_line(whole);
        assert(first_line(second) =~= whole.subrange(start2 as int, end2 as int));
        assert(after_line(second) =~= whole.skip(start3 as int)) by {
            if line_length(second) < second.len() {
                assert(second.skip(line_length(second) as int + 1) =~= whole.skip(start3 as int));
            }
        }
        let third = after_line(second);
        assert(first_line(third) =~= whole.subrange(start3 as int, end3 as int));
    }
    let memory = number_between(text, 0, end1);
    let processes = number_between(text, start2, end2);
    let cpu = if has_cpu_label(text, start3, end3) {
        proof {
            let line = whole.subrange(start3 as int, end3 as int);
            assert(line.skip(11) =~= whole.subrange(start3 + 11, end3 as int));
        }
        number_between(text, start3 + 11, end3)
    } else {
        None
    };
    match (memory, processes, cpu) {
        (Some(memory_bytes), Some(processes), Some(cpu_usec)) => Some(
            Usage { cpu_ms: cpu_usec / 1000, memory_bytes, processes },
        ),
        _ => None,
    }
}

/// What the watch is told after an attempt to read the usage.
pub fn reading_event(text: &[u8]) -> (r: Event)
    ensures
        r == event_of(text@),
{
    match parse_reading(text) {
        Some(usage) => Event::Sample(usage),
        None => Event::Tick,
    }
}

} // verus!

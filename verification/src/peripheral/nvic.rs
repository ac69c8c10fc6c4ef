//! Nested Vector Interrupt Controller
//!
//! [`Registers`] models the controller's register banks in memory. The banks
//! behave as the hardware's do: a line is enabled, or made pending, by writing
//! a 1 to its bit of a *set* register, and disabled, or made idle, by writing a
//! 1 to its bit of a *clear* register. A 0 written to either changes nothing,
//! so no write ever touches a line other than the one it names.

use vstd::prelude::*;
use crate::bits::{bit, with_bit, lemma_mask_reads_bit, lemma_with_bit};
use crate::interrupt::Nr;

verus! {

/// Number of interrupt lines that the controller serves.
pub const LINES: usize = 240;

/// What the controller holds about one interrupt line.
pub struct Line {
    /// The line may interrupt the processor.
    pub enabled: bool,
    /// The line waits to be served.
    pub pending: bool,
    /// The line is being served, or was pre-empted while being served.
    pub active: bool,
    /// The line's priority.
    pub priority: u8,
}

/// The bit that a bank of 32-bit words holds for line `n`.
pub open spec fn line_bit(bank: Seq<u32>, n: int) -> bool {
    bit(bank[n / 32], (n % 32) as u32)
}

/// The state of each line, by line number, that the four banks encode.
pub open spec fn lines_of(iser: Seq<u32>, ispr: Seq<u32>, iabr: Seq<u32>, ipr: Seq<u8>) -> Seq<
    Line,
> {
    Seq::new(
        LINES as nat,
        |n: int|
            Line {
                enabled: line_bit(iser, n),
                pending: line_bit(ispr, n),
                active: line_bit(iabr, n),
                priority: ipr[n],
            },
    )
}

/// `lines` with line `n` enabled or disabled.
pub open spec fn with_enabled(lines: Seq<Line>, n: int, enabled: bool) -> Seq<Line> {
    lines.update(n, Line { enabled, ..lines[n] })
}

/// `lines` with line `n` pending or not.
pub open spec fn with_pending(lines: Seq<Line>, n: int, pending: bool) -> Seq<Line> {
    lines.update(n, Line { pending, ..lines[n] })
}

/// `lines` with the priority of line `n` replaced.
pub open spec fn with_priority(lines: Seq<Line>, n: int, priority: u8) -> Seq<Line> {
    lines.update(n, Line { priority, ..lines[n] })
}

/// Enabling a line makes it read as enabled and disabling it makes it read as
/// disabled, whatever the state of the other lines, and neither changes
/// anything about another line.
pub proof fn lemma_enable_is_isolated(lines: Seq<Line>, n: int, m: int, enabled: bool)
    requires
        0 <= n < lines.len(),
        0 <= m < lines.len(),
    ensures
        with_enabled(lines, n, enabled)[n].enabled == enabled,
        m != n ==> with_enabled(lines, n, enabled)[m] == lines[m],
{
}

/// A line that is made pending and then cleared reads as not pending, and
/// neither step changes anything about another line, its pending bit
/// included.
pub proof fn lemma_pending_is_isolated(lines: Seq<Line>, n: int, m: int)
    requires
        0 <= n < lines.len(),
        0 <= m < lines.len(),
    ensures
        with_pending(lines, n, true)[n].pending,
        !with_pending(with_pending(lines, n, true), n, false)[n].pending,
        m != n ==> with_pending(lines, n, true)[m] == lines[m],
        m != n ==> with_pending(with_pending(lines, n, true), n, false)[m] == lines[m],
{
}

/// A priority that was set is the priority that is read back, for every line
/// and every byte, and setting it changes nothing about another line.
pub proof fn lemma_priority_round_trip(lines: Seq<Line>, n: int, m: int, priority: u8)
    requires
        0 <= n < lines.len(),
        0 <= m < lines.len(),
    ensures
        with_priority(lines, n, priority)[n].priority == priority,
        m != n ==> with_priority(lines, n, priority)[m] == lines[m],
{
}

/// Index of the 32-bit word that holds the bit of line `nr`.
pub fn word_index(nr: u8) -> (index: usize)
    ensures
        index == nr / 32,
        index < 8,
{
    (nr / 32) as usize
}

/// The word in which only the bit of line `nr` is set.
pub fn bit_mask(nr: u8) -> (mask: u32)
    ensures
        mask == 1u32 << ((nr % 32) as u32),
        forall|i: u32| i < 32 ==> bit(mask, i) == (i == nr % 32),
{
    let shift: u32 = (nr % 32) as u32;
    assert(forall|i: u32| i < 32 ==> bit(1u32 << shift, i) == (i == shift)) by (bit_vector)
        requires
            shift < 32,
    ;
    1u32 << shift
}

/// Index of the byte that holds the priority of line `nr`: each line has a
/// byte of its own, however the device packs the bytes into words.
pub fn priority_index(nr: u8) -> (index: usize)
    ensures
        index == nr,
{
    nr as usize
}

/// Replacing the bit of line `nr` in its word changes that line and no other.
proof fn lemma_line_written(before: Seq<u32>, after: Seq<u32>, nr: u8, value: bool)
    requires
        before.len() == 8,
        after == before.update(
            nr as int / 32,
            with_bit(before[nr as int / 32], (nr % 32) as u32, value),
        ),
    ensures
        forall|m: int|
            0 <= m < 256 ==> #[trigger] line_bit(after, m) == (if m == nr {
                value
            } else {
                line_bit(before, m)
            }),
{
    assert forall|m: int| 0 <= m < 256 implies #[trigger] line_bit(after, m) == (if m == nr {
        value
    } else {
        line_bit(before, m)
    }) by {
        lemma_with_bit(before[nr as int / 32], (nr % 32) as u32, value, (m % 32) as u32);
    }
}

/// What a write of `value` to word `index` of a set register does to the bank
/// behind it: each 1 sets its bit, each 0 leaves its bit alone.
fn write_set(bank: &mut [u32; 8], index: usize, value: u32)
    requires
        index < 8,
    ensures
        final(bank)@ == old(bank)@.update(index as int, old(bank)@[index as int] | value),
{
    bank[index] = bank[index] | value;
}

/// What a write of `value` to word `index` of a clear register does to the
/// bank behind it: each 1 clears its bit, each 0 leaves its bit alone.
fn write_clear(bank: &mut [u32; 8], index: usize, value: u32)
    requires
        index < 8,
    ensures
        final(bank)@ == old(bank)@.update(index as int, old(bank)@[index as int] & !value),
{
    bank[index] = bank[index] & !value;
}

/// Registers
pub struct Registers {
    /// Interrupt enable state, as Set-Enable and Clear-Enable read it
    iser: [u32; 8],
    /// Interrupt pending state, as Set-Pending and Clear-Pending read it
    ispr: [u32; 8],
    /// Interrupt Active Bit
    iabr: [u32; 8],
    /// Interrupt Priority
    ipr: [u8; 240],
}

impl View for Registers {
    type V = Seq<Line>;

    /// The state of each of the `LINES` lines, by line number.
    closed spec fn view(&self) -> Seq<Line> {
        lines_of(self.iser@, self.ispr@, self.iabr@, self.ipr@)
    }
}

impl Registers {
    /// The controller after reset: every line disabled, idle and of priority 0.
    pub fn new() -> (registers: Self)
        ensures
            registers@ == Seq::new(
                LINES as nat,
                |n: int| Line { enabled: false, pending: false, active: false, priority: 0 },
            ),
    {
        assert(forall|i: u32| i < 32 ==> !bit(0u32, i)) by (bit_vector);
        Registers { iser: [0; 8], ispr: [0; 8], iabr: [0; 8], ipr: [0; 240] }
    }

    /// The controller with the given contents of its banks: the enable state,
    /// the pending state and the active bits, 32 lines to a word, and one
    /// priority byte for each line.
    pub fn from_banks(iser: [u32; 8], ispr: [u32; 8], iabr: [u32; 8], ipr: [u8; 240]) -> (registers:
        Self)
        ensures
            registers@ == lines_of(iser@, ispr@, iabr@, ipr@),
    {
        Registers { iser, ispr, iabr, ipr }
    }

    /// Clears `interrupt` pending state
    pub fn clear_pending<I>(&mut self, interrupt: I) where I: Nr
        ensures
            final(self)@ == with_pending(old(self)@, interrupt.line() as int, false),
    {
        let nr = interrupt.nr();

        write_clear(&mut self.ispr, word_index(nr), bit_mask(nr));
        proof {
            lemma_line_written(old(self).ispr@, self.ispr@, nr, false);
            assert(self@ =~= with_pending(old(self)@, nr as int, false));
        }
    }

    /// Disables `interrupt`
    pub fn disable<I>(&mut self, interrupt: I) where I: Nr
        ensures
            final(self)@ == with_enabled(old(self)@, interrupt.line() as int, false),
    {
        let nr = interrupt.nr();

        write_clear(&mut self.iser, word_index(nr), bit_mask(nr));
        proof {
            lemma_line_written(old(self).iser@, self.iser@, nr, false);
            assert(self@ =~= with_enabled(old(self)@, nr as int, false));
        }
    }

    /// Enables `interrupt`
    pub fn enable<I>(&mut self, interrupt: I) where I: Nr
        ensures
            final(self)@ == with_enabled(old(self)@, interrupt.line() as int, true),
    {
        let nr = interrupt.nr();

        write_set(&mut self.iser, word_index(nr), bit_mask(nr));
        proof {
            lemma_line_written(old(self).iser@, self.iser@, nr, true);
            assert(self@ =~= with_enabled(old(self)@, nr as int, true));
        }
    }

    /// Gets the priority of `interrupt`
    pub fn get_priority<I>(&mut self, interrupt: I) -> (priority: u8) where I: Nr
        ensures
            priority == old(self)@[interrupt.line() as int].priority,
            *final(self) == *old(self),
    {
        let nr = interrupt.nr();

        self.ipr[priority_index(nr)]
    }

    /// Is `interrupt` active or pre-empted and stacked
    pub fn is_active<I>(&self, interrupt: I) -> (active: bool) where I: Nr
        ensures
            active == self@[interrupt.line() as int].active,
    {
        let nr = interrupt.nr();
        let mask = bit_mask(nr);
        let word = self.iabr[word_index(nr)];
        proof {
            lemma_mask_reads_bit(word, (nr % 32) as u32);
        }

        (word & mask) == mask
    }

    /// Checks if `interrupt` is enabled
    pub fn is_enabled<I>(&self, interrupt: I) -> (enabled: bool) where I: Nr
        ensures
            enabled == self@[interrupt.line() as int].enabled,
    {
        let nr = interrupt.nr();
        let mask = bit_mask(nr);
        let word = self.iser[word_index(nr)];
        proof {
            lemma_mask_reads_bit(word, (nr % 32) as u32);
        }

        (word & mask) == mask
    }

    /// Checks if `interrupt` is pending
    pub fn is_pending<I>(&self, interrupt: I) -> (pending: bool) where I: Nr
        ensures
            pending == self@[interrupt.line() as int].pending,
    {
        let nr = interrupt.nr();
        let mask = bit_mask(nr);
        let word = self.ispr[word_index(nr)];
        proof {
            lemma_mask_reads_bit(word, (nr % 32) as u32);
        }

        (word & mask) == mask
    }

    /// Forces `interrupt` into pending state
    pub fn set_pending<I>(&mut self, interrupt: I) where I: Nr
        ensures
            final(self)@ == with_pending(old(self)@, interrupt.line() as int, true),
    {
        let nr = interrupt.nr();

        write_set(&mut self.ispr, word_index(nr), bit_mask(nr));
        proof {
            lemma_line_written(old(self).ispr@, self.ispr@, nr, true);
            assert(self@ =~= with_pending(old(self)@, nr as int, true));
        }
    }

    /// Sets the priority of `interrupt` to `prio`
    pub fn set_priority<I>(&mut self, interrupt: I, prio: u8) where I: Nr
        ensures
            final(self)@ == with_priority(old(self)@, interrupt.line() as int, prio),
    {
        let nr = interrupt.nr();

        let index = priority_index(nr);
        self.ipr[index] = prio;
        proof {
            assert(self@ =~= with_priority(old(self)@, nr as int, prio));
        }
    }
}

} // verus!

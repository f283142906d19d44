use vstd::prelude::*;

use crate::bits::{bit32, lemma_bit32_ext, lemma_mask_bit, lemma_or_bit};
use crate::logic::{LogicError, LogicValue};

verus! {

/// The cell that `set_unsigned` writes for bit `i` of `value`: a strongly
/// driven High where the bit is set, Low where it is clear.
pub open spec fn cell_of_bit(value: u32, i: int) -> LogicValue {
    if bit32(value, i) {
        LogicValue::High
    } else {
        LogicValue::Low
    }
}

/// Every cell of a sequence resolves to a plain boolean level.
pub open spec fn all_driven(cells: Seq<LogicValue>) -> bool {
    forall|i: int| 0 <= i < cells.len() ==> cells[i].spec_driven()
}

/// An indexable, bit-addressable view of a parallel signal bus: a fixed
/// number of nine-valued cells, bit `i` carrying weight `2^i`.
///
/// The backing cells are owned here; the adapter at the simulator boundary
/// copies them from and back to the simulator-owned buffer for the duration
/// of one callback.
pub struct LogicVector {
    cells: Vec<LogicValue>,
}

impl View for LogicVector {
    type V = Seq<LogicValue>;

    closed spec fn view(&self) -> Seq<LogicValue> {
        self.cells@
    }
}

impl LogicVector {
    /// Builds a vector over the given cells; the width is their number.
    pub fn from_cells(cells: Vec<LogicValue>) -> (r: LogicVector)
        ensures
            r@ == cells@,
    {
        LogicVector { cells }
    }

    /// A fresh bus of `width` uninitialized cells.
    pub fn new(width: usize) -> (r: LogicVector)
        ensures
            r@.len() == width,
            forall|i: int| 0 <= i < width ==> r@[i] == LogicValue::Uninitialized,
    {
        let mut cells: Vec<LogicValue> = Vec::new();
        let mut x: usize = 0;
        while x < width
            invariant
                x <= width,
                cells@.len() == x,
                forall|i: int| 0 <= i < x ==> cells@[i] == LogicValue::Uninitialized,
            decreases width - x,
        {
            cells.push(LogicValue::Uninitialized);
            x += 1;
        }
        LogicVector { cells }
    }

    pub fn width(&self) -> (r: usize)
        ensures
            r == self@.len(),
    {
        self.cells.len()
    }

    /// The state of one cell; an index at or past the width is a protocol
    /// mismatch and is rejected, never clamped.
    pub fn get(&self, index: usize) -> (r: Result<LogicValue, LogicError>)
        ensures
            (index < self@.len()) <==> r is Ok,
            r is Ok ==> r->Ok_0 == self@[index as int],
            index >= self@.len() ==> r == Result::<LogicValue, LogicError>::Err(
                LogicError::IndexOutOfRange,
            ),
    {
        if index < self.cells.len() {
            Ok(self.cells[index])
        } else {
            Err(LogicError::IndexOutOfRange)
        }
    }

    /// Drives one cell to the given state; an index at or past the width is
    /// rejected and the vector is left unchanged.
    pub fn set(&mut self, index: usize, val: LogicValue) -> (r: Result<(), LogicError>)
        ensures
            (index < old(self)@.len()) <==> r is Ok,
            r is Ok ==> final(self)@ == old(self)@.update(index as int, val),
            r is Err ==> final(self)@ == old(self)@ && r == Result::<(), LogicError>::Err(
                LogicError::IndexOutOfRange,
            ),
    {
        if index < self.cells.len() {
            self.cells.set(index, val);
            Ok(())
        } else {
            Err(LogicError::IndexOutOfRange)
        }
    }

    /// Reads the whole bus as a little-endian-by-bit-index unsigned value.
    /// The read is meaningful only when every cell is driven to a boolean
    /// level; otherwise it reports the bus as unresolved rather than
    /// defaulting undriven bits.
    pub fn get_unsigned(&self) -> (r: Result<u32, LogicError>)
        requires
            self@.len() <= 32,
        ensures
            all_driven(self@) <==> r is Ok,
            r is Ok ==> forall|i: int|
                0 <= i < self@.len() ==> bit32(r->Ok_0, i) == self@[i].spec_bool(),
            r is Ok ==> forall|j: int| self@.len() <= j < 32 ==> !bit32(r->Ok_0, j),
            r is Err ==> r == Result::<u32, LogicError>::Err(LogicError::UnresolvedState),
    {
        let w = self.cells.len();
        let mut out: u32 = 0;
        let mut x: usize = 0;
        proof {
            assert forall|j: int| 0 <= j < 32 implies !bit32(0u32, j) by {
                let ju = j as u32;
                assert(ju < 32 ==> ((0u32 >> ju) & 1u32) == 0u32) by (bit_vector);
            }
        }
        while x < w
            invariant
                x <= w,
                w == self@.len() <= 32,
                forall|i: int| 0 <= i < x ==> (#[trigger] self@[i]).spec_driven(),
                forall|i: int| 0 <= i < x ==> #[trigger] bit32(out, i) == self@[i].spec_bool(),
                forall|j: int| x <= j < 32 ==> !(#[trigger] bit32(out, j)),
            decreases w - x,
        {
            match self.cells[x].try_to_bool() {
                Err(e) => {
                    return Err(e);
                },
                Ok(level) => {
                    if level {
                        let prev = out;
                        out = out | (1u32 << (x as u32));
                        proof {
                            assert forall|j: int| 0 <= j < 32 implies #[trigger] bit32(out, j) == (
                            j == x || bit32(prev, j)) by {
                                lemma_or_bit(prev, x as u32, j);
                            }
                            assert(bit32(out, x as int) == self@[x as int].spec_bool());
                        }
                    } else {
                        proof {
                            assert(bit32(out, x as int) == self@[x as int].spec_bool());
                        }
                    }
                },
            }
            x += 1;
        }
        Ok(out)
    }

    /// Drives every cell from the matching bit of `value`: High where the
    /// bit is set, Low where it is clear. Bits of `value` at or past the
    /// width are truncated away; a value narrower than the bus Low-extends.
    pub fn set_unsigned(&mut self, value: u32)
        requires
            old(self)@.len() <= 32,
        ensures
            final(self)@.len() == old(self)@.len(),
            forall|i: int|
                0 <= i < final(self)@.len() ==> #[trigger] final(self)@[i] == cell_of_bit(value, i),
            // every cell ends driven, so a following aggregate read succeeds
            all_driven(final(self)@),
    {
        let w = self.cells.len();
        let mut x: usize = 0;
        while x < w
            invariant
                x <= w,
                w == self@.len() <= 32,
                forall|i: int| 0 <= i < x ==> #[trigger] self@[i] == cell_of_bit(value, i),
            decreases w - x,
        {
            let mask_set = value & (1u32 << (x as u32)) != 0;
            proof {
                lemma_mask_bit(value, x as u32);
            }
            self.cells.set(x, LogicValue::from_bool(mask_set));
            x += 1;
        }
        proof {
            assert forall|i: int| 0 <= i < self@.len() implies self@[i].spec_driven() by {
                assert(self@[i] == cell_of_bit(value, i));
            }
        }
    }

    /// The bus rendered as a quoted bit-vector literal, one canonical
    /// character per cell in index order.
    pub fn to_bit_string(&self) -> (r: Vec<char>)
        ensures
            r@.len() == self@.len() + 2,
            r@[0] == '"',
            r@[r@.len() - 1] == '"',
            forall|i: int| 0 <= i < self@.len() ==> r@[i + 1] == self@[i].spec_to_char(),
    {
        let mut out: Vec<char> = Vec::new();
        out.push('"');
        let w = self.cells.len();
        let mut x: usize = 0;
        while x < w
            invariant
                x <= w,
                w == self@.len(),
                out@.len() == x + 1,
                out@[0] == '"',
                forall|i: int| 0 <= i < x ==> out@[i + 1] == self@[i].spec_to_char(),
            decreases w - x,
        {
            out.push(self.cells[x].to_char());
            x += 1;
        }
        out.push('"');
        out
    }
}

/// Writing an unsigned value `n` onto a bus of width at most 32 drives every
/// cell to a boolean level (so a following aggregate read succeeds), and the
/// value read back agrees with `n` on every bit the bus can hold. When `n`
/// has no bits at or past the width — `n` in `[0, 2^width)` — the read-back
/// value is exactly `n`: the unsigned round trip is the identity there.
pub proof fn lemma_unsigned_round_trip(cells: Seq<LogicValue>, n: u32, v: u32)
    requires
        cells.len() <= 32,
        forall|i: int| 0 <= i < cells.len() ==> cells[i] == cell_of_bit(n, i),
        forall|j: int| cells.len() <= j < 32 ==> !bit32(n, j),
        forall|i: int| 0 <= i < cells.len() ==> bit32(v, i) == cells[i].spec_bool(),
        forall|j: int| cells.len() <= j < 32 ==> !bit32(v, j),
    ensures
        all_driven(cells),
        v == n,
{
    assert forall|i: int| 0 <= i < 32 implies bit32(v, i) == bit32(n, i) by {
        if i < cells.len() {
            assert(cells[i] == cell_of_bit(n, i));
            assert(bit32(v, i) == cells[i].spec_bool());
        }
    }
    lemma_bit32_ext(v, n);
}

} // verus!

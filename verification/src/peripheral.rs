use vstd::prelude::*;

use crate::bits::{
    bit8, bit32, lemma_bit32_ext, lemma_reverse8_bit, lemma_u8_widen_bit, lemma_u32_low_byte_bit,
    reverse8, spec_reverse8,
};
use crate::channel::{send_byte, try_recv_byte, RecvPoll, SendStatus};
use crate::logic::{LogicError, LogicValue};
use crate::vector::{all_driven, cell_of_bit, LogicVector};

verus! {

/// The data bus a byte exchange drives back: cell `i` carries bit `7 - i`
/// of the master's byte, since the simulated shift register samples its
/// most significant bit first while the bus is indexed least significant
/// bit first.
pub open spec fn spec_response_cells(rxb: u8) -> Seq<LogicValue> {
    Seq::new(
        8,
        |i: int|
            if bit8(rxb, 7 - i) {
                LogicValue::High
            } else {
                LogicValue::Low
            },
    )
}

/// A bus driven to the exchange's response cells reads back, as an
/// unsigned value, exactly the bit-order-reversed master byte: crossing
/// the boundary applies the shift-register reversal exactly once, so the
/// reply the master shifts out is the reversal of what it sent in.
pub proof fn lemma_response_reads_back(rxb: u8, v: u32)
    requires
        forall|i: int| 0 <= i < 8 ==> bit32(v, i) == spec_response_cells(rxb)[i].spec_bool(),
        forall|j: int| 8 <= j < 32 ==> !bit32(v, j),
    ensures
        v == spec_reverse8(rxb) as u32,
{
    assert forall|i: int| 0 <= i < 32 implies bit32(v, i) == bit32(
        spec_reverse8(rxb) as u32,
        i,
    ) by {
        lemma_u8_widen_bit(spec_reverse8(rxb), i);
        if i < 8 {
            lemma_reverse8_bit(rxb, i);
            assert(spec_response_cells(rxb)[i].spec_bool() == bit8(rxb, 7 - i));
        }
    }
    lemma_bit32_ext(v, spec_reverse8(rxb) as u32);
}

/// One byte exchange on the simulated bus: samples the byte currently
/// driven on `data` (whose physical order is the reverse of the bus's bit
/// order), returns it in physical order, and drives the bit-order-reversed
/// master byte `rxb` back onto `data` as the reply the master will shift
/// out. Fails, leaving the bus untouched, when some bus cell is not driven
/// to a boolean level — an unresolved bus is a simulation defect and is
/// never defaulted away.
pub fn rxtx_exchange(data: &mut LogicVector, rxb: u8) -> (r: Result<u8, LogicError>)
    requires
        old(data)@.len() == 8,
    ensures
        all_driven(old(data)@) <==> r is Ok,
        r is Ok ==> final(data)@ == spec_response_cells(rxb) && (forall|i: int|
            0 <= i < 8 ==> bit8(r->Ok_0, i) == old(data)@[7 - i].spec_bool()),
        r is Err ==> final(data)@ == old(data)@ && r == Result::<u8, LogicError>::Err(
            LogicError::UnresolvedState,
        ),
{
    match data.get_unsigned() {
        Err(e) => Err(e),
        Ok(sampled) => {
            let sampled_byte = (sampled & 0xff) as u8;
            let tx = reverse8(sampled_byte);
            proof {
                assert forall|i: int| 0 <= i < 8 implies bit8(tx, i) == old(data)@[7
                    - i].spec_bool() by {
                    lemma_reverse8_bit(sampled_byte, i);
                    lemma_u32_low_byte_bit(sampled, 7 - i);
                }
            }
            let reply = reverse8(rxb) as u32;
            data.set_unsigned(reply);
            proof {
                assert forall|i: int| 0 <= i < 8 implies data@[i] == spec_response_cells(rxb)[i] by {
                    lemma_u8_widen_bit(crate::bits::spec_reverse8(rxb), i);
                    lemma_reverse8_bit(rxb, i);
                    assert(data@[i] == cell_of_bit(reply, i));
                }
                assert(data@ =~= spec_response_cells(rxb));
            }
            Ok(tx)
        },
    }
}

/// One simulated sample event of the peripheral's shift register, as the
/// simulation kernel sees it. Polls the master-to-peripheral channel
/// without ever blocking; on a queued byte it performs the exchange of
/// `rxtx_exchange` and queues the sampled byte for the master, reporting
/// the outcome in the flag bits: bit 3 (data valid) is raised on a
/// completed exchange, cleared when no byte was queued or the reply could
/// not be delivered, and bit 0 (error) is raised on a torn-down channel or
/// an unresolved bus. Flag bits 1 and 2 are reserved and always left
/// untouched. An empty queue is expected steady-state behaviour, not an
/// error.
pub fn peripheral_rxtx(
    rx: &std::sync::mpsc::Receiver<u8>,
    tx: &std::sync::mpsc::Sender<u8>,
    data: &mut LogicVector,
    flags: &mut LogicVector,
) -> (r: Result<(), LogicError>)
    requires
        old(data)@.len() == 8,
        old(flags)@.len() == 4,
    ensures
        final(data)@.len() == 8,
        final(flags)@.len() == 4,
        final(flags)@[1] == old(flags)@[1] && final(flags)@[2] == old(flags)@[2],
        // no byte queued this cycle: the bus is untouched, data-valid is cleared
        (r is Ok && final(data)@ == old(data)@ && final(flags)@ == old(flags)@.update(
            3,
            LogicValue::Low,
        ))
        // the master's sending end is gone: the error flag is raised
         || (r is Ok && final(data)@ == old(data)@ && final(flags)@ == old(flags)@.update(
            0,
            LogicValue::High,
        ))
        // a byte was exchanged and the reply queued for the master
         || (r is Ok && all_driven(old(data)@) && (exists|rxb: u8|
            final(data)@ == spec_response_cells(rxb)) && final(flags)@ == old(flags)@.update(
            3,
            LogicValue::High,
        ))
        // a byte was exchanged but the reply channel is gone
         || (r is Ok && all_driven(old(data)@) && (exists|rxb: u8|
            final(data)@ == spec_response_cells(rxb)) && final(flags)@ == old(flags)@.update(
            3,
            LogicValue::Low,
        ).update(0, LogicValue::High))
        // a byte arrived but the bus is unresolved: surfaced on the error flag
        // and propagated to the caller
         || (r == Result::<(), LogicError>::Err(LogicError::UnresolvedState) && !all_driven(
            old(data)@,
        ) && final(data)@ == old(data)@ && final(flags)@ == old(flags)@.update(
            0,
            LogicValue::High,
        )),
{
    match try_recv_byte(rx) {
        RecvPoll::Empty => {
            let _ = flags.set(3, LogicValue::Low);
            Ok(())
        },
        RecvPoll::Disconnected => {
            let _ = flags.set(0, LogicValue::High);
            Ok(())
        },
        RecvPoll::Byte(rxb) => {
            match rxtx_exchange(data, rxb) {
                Err(e) => {
                    let _ = flags.set(0, LogicValue::High);
                    Err(e)
                },
                Ok(txb) => {
                    match send_byte(tx, txb) {
                        SendStatus::Sent => {
                            let _ = flags.set(3, LogicValue::High);
                            Ok(())
                        },
                        SendStatus::Closed => {
                            let _ = flags.set(3, LogicValue::Low);
                            let _ = flags.set(0, LogicValue::High);
                            Ok(())
                        },
                    }
                },
            }
        },
    }
}

} // verus!

//! The driver's protocol core: which transactions each operation consists
//! of, and when a new operation may be issued.
//!
//! The core owns no bus. An operation hands out the transactions that make
//! it up, to be carried out in order by whoever owns the bus and the
//! chip-select line, and takes back what the chip answered where the answer
//! matters. What the core keeps is the chip's geometry and the state of the
//! conversation: [`Ready`], or [`Busy`] while an erase or program cycle may be
//! running inside the chip.

use vstd::prelude::*;
use vstd::arithmetic::div_mod::lemma_add_mod_noop;
use vstd::arithmetic::mul::lemma_mul_inequality;
use vstd::slice::{slice_subrange, slice_to_vec};
use core::task::Poll;
use crate::identification::{decode, Identification};
use crate::opcode::Opcode;
use crate::script::{
    erase_script, erase_units, lemma_next_unit_address, lemma_page_count, page_chunk, page_count,
    program_script, script_view,
};
use crate::status::Status;
use crate::transaction::{Transaction, TransactionView};

verus! {

/// `core::task::Poll`, the outcome of a poll, as the standard library defines
/// it: `Ready` with a value, or `Pending`. Nothing is claimed of it but its
/// two variants.
#[verifier::external_type_specification]
pub struct ExPoll<T>(Poll<T>);

/// Ready state: no erase or program cycle is outstanding.
#[derive(Debug)]
pub struct Ready {}

/// Busy state: an erase or program cycle may be running inside the chip.
#[derive(Debug)]
pub struct Busy {
    /// Whether a poll has found the chip idle since.
    done: bool,
}

/// The chip's geometry, in bytes. It is taken from the caller as it is and
/// never compared with the chip.
#[derive(Clone, Copy, Debug, PartialEq, Eq)]
pub struct InternalSizes {
    /// The unit of a program command.
    pub page_size: usize,
    /// The smaller unit of erasure.
    pub sector_size: usize,
    /// The larger unit of erasure.
    pub block_size: usize,
    /// The size of the whole memory.
    pub chip_size: usize,
}

/// The protocol core of a driver for one 25-series chip.
///
/// `STATE` is [`Ready`] or [`Busy`]. Each erase and program operation takes a
/// `Flash<Ready>` and gives a `Flash<Busy>`, so that no further operation can
/// be issued until the chip has been found idle.
#[derive(Debug)]
pub struct Flash<STATE> {
    sizes: InternalSizes,
    state: STATE,
}

/// Whether completion counts as observed after a poll that read the raw
/// status `raw`, where `done` says whether it did before: once observed it
/// stays so, and an idle chip makes it so.
pub open spec fn observed_after_poll(done: bool, raw: u8) -> bool {
    done || !Status::decode(raw).spec_is_busy()
}

/// Whether completion counts as observed after one poll for each of the raw
/// status values `reads`, in order.
pub open spec fn observed_after_polls(done: bool, reads: Seq<u8>) -> bool
    decreases reads.len(),
{
    if reads.len() == 0 {
        done
    } else {
        observed_after_polls(observed_after_poll(done, reads[0]), reads.drop_first())
    }
}

impl<STATE> Flash<STATE> {
    /// The geometry that the core was made with.
    pub closed spec fn spec_sizes(&self) -> InternalSizes {
        self.sizes
    }

    /// The geometry that the core was made with.
    #[verifier::when_used_as_spec(spec_sizes)]
    pub fn sizes(&self) -> (sizes: InternalSizes)
        ensures
            sizes == self.spec_sizes(),
    {
        self.sizes
    }

    /// The transaction that reads the status register: the opcode and one
    /// padding byte. The second byte of the response is the register.
    pub fn status_request(&self) -> (transaction: Transaction)
        ensures
            transaction@ == TransactionView::read_status(),
    {
        Transaction::read_status()
    }
}

impl Flash<Busy> {
    /// Whether a poll has found the chip idle.
    pub closed spec fn spec_is_done(&self) -> bool {
        self.state.done
    }

    /// Creates the core of a new 25-series flash driver.
    ///
    /// The chip may still be busy with what it was doing when the controller
    /// was last reset. So the core starts out in the busy state, and becomes
    /// ready as after any operation: by [`Flash::wait`] until a status read
    /// finds the chip idle, then [`Flash::finish_waiting`].
    pub fn init(sizes: InternalSizes) -> (flash: Flash<Busy>)
        ensures
            flash.spec_sizes() == sizes,
            !flash.spec_is_done(),
    {
        Flash { sizes, state: Busy { done: false } }
    }

    /// Whether a poll has found the chip idle.
    #[verifier::when_used_as_spec(spec_is_done)]
    pub fn is_done(&self) -> (done: bool)
        ensures
            done == self.spec_is_done(),
    {
        self.state.done
    }

    /// Takes the response to one [`Flash::status_request`] and says
    /// whether the chip is through: `Pending` if the response shows it busy,
    /// else `Ready`, and completion then counts as observed. It never
    /// blocks; poll again, after a delay or not, until it says `Ready`.
    pub fn wait(&mut self, response: &[u8]) -> (poll: Poll<()>)
        requires
            response@.len() >= 2,
        ensures
            poll is Pending <==> Status::decode(response@[1]).spec_is_busy(),
            final(self).spec_is_done() == observed_after_poll(
                old(self).spec_is_done(),
                response@[1],
            ),
            poll is Ready ==> final(self).spec_is_done(),
            final(self).spec_sizes() == old(self).spec_sizes(),
    {
        let status: Status = Status::from_bits_truncate(response[1]);
        if status.is_busy() {
            return Poll::Pending;
        }
        self.state.done = true;
        Poll::Ready(())
    }

    /// Goes back to the ready state, once a poll has found the chip idle.
    pub fn finish_waiting(self) -> (flash: Flash<Ready>)
        requires
            self.spec_is_done(),
        ensures
            flash.spec_sizes() == self.spec_sizes(),
    {
        Flash { sizes: self.sizes, state: Ready {  } }
    }
}

impl Flash<Ready> {
    /// The transaction that reads the JEDEC identification: the opcode and
    /// eleven padding bytes, though some identifications are shorter.
    pub fn jedec_id_request(&self) -> (transaction: Transaction)
        ensures
            transaction@ == TransactionView::read_jedec_id(),
    {
        Transaction::read_jedec_id()
    }

    /// Reads the JEDEC manufacturer/device identification from the response
    /// to [`Flash::jedec_id_request`]. The first byte of the response came
    /// in while the opcode went out, and is passed over.
    pub fn read_jedec_id(&self, response: &[u8]) -> (id: Identification)
        requires
            response@.len() >= 4,
        ensures
            id@ == decode(response@.skip(1)),
    {
        let rest: &[u8] = slice_subrange(response, 1, response.len());
        Identification::from_jedec_id(rest)
    }

    /// Reads the status register from the response to
    /// [`Flash::status_request`]: its second byte.
    pub fn read_status(&self, response: &[u8]) -> (status: Status)
        requires
            response@.len() >= 2,
        ensures
            status == Status::decode(response@[1]),
    {
        Status::from_bits_truncate(response[1])
    }

    /// Reads flash contents, starting at `addr`, into the buffer that is
    /// exchanged in the transaction's data phase.
    ///
    /// Note that `addr` is not fully decoded: flash chips will typically only
    /// look at the lowest `N` bits needed to encode their size, which means
    /// that the contents are "mirrored" to addresses that are a multiple of
    /// the flash size. Only 24 bits of `addr` are transferred to the device
    /// in any case, limiting the maximum size of 25-series SPI flash chips to
    /// 16 MiB.
    pub fn read(&self, addr: u32) -> (transaction: Transaction)
        ensures
            transaction@ == TransactionView::read(addr as int),
    {
        Transaction::read(addr)
    }

    /// Erases `amount` sectors from the memory chip, starting at `addr`. If
    /// the address is not on a sector boundary, the chip may ignore its lower
    /// bits.
    ///
    /// Nothing holds the sectors to the size of the chip, and of each
    /// address the low 24 bits are sent, as ever.
    pub fn erase_sectors(self, addr: u32, amount: usize) -> (out: (Flash<Busy>, Vec<Transaction>))
        ensures
            script_view(out.1@) == erase_script(
                Opcode::SectorErase,
                addr,
                amount as nat,
                self.spec_sizes().sector_size as nat,
            ),
            out.0.spec_sizes() == self.spec_sizes(),
            !out.0.spec_is_done(),
    {
        let script = erase_units(Opcode::SectorErase, addr, amount, self.sizes.sector_size);
        (Flash { sizes: self.sizes, state: Busy { done: false } }, script)
    }

    /// Erases `amount` blocks from the memory chip, starting at `addr`. If
    /// the address is not on a block boundary, the chip may ignore its lower
    /// bits.
    ///
    /// Nothing holds the blocks to the size of the chip, and of each
    /// address the low 24 bits are sent, as ever.
    pub fn erase_blocks(self, addr: u32, amount: usize) -> (out: (Flash<Busy>, Vec<Transaction>))
        ensures
            script_view(out.1@) == erase_script(
                Opcode::BlockErase,
                addr,
                amount as nat,
                self.spec_sizes().block_size as nat,
            ),
            out.0.spec_sizes() == self.spec_sizes(),
            !out.0.spec_is_done(),
    {
        let script = erase_units(Opcode::BlockErase, addr, amount, self.sizes.block_size);
        (Flash { sizes: self.sizes, state: Busy { done: false } }, script)
    }

    /// Writes bytes onto the memory chip, page by page. The sectors written
    /// to are taken to be erased already: nothing is erased here.
    ///
    /// The page size must not be zero.
    pub fn write_bytes(self, addr: u32, data: &[u8]) -> (out: (Flash<Busy>, Vec<Transaction>))
        requires
            self.spec_sizes().page_size > 0,
        ensures
            script_view(out.1@) == program_script(
                addr,
                data@,
                self.spec_sizes().page_size as nat,
            ),
            out.0.spec_sizes() == self.spec_sizes(),
            !out.0.spec_is_done(),
    {
        let page_size: usize = self.sizes.page_size;
        let len: usize = data.len();
        let ghost pages: nat = page_count(len as nat, page_size as nat);
        let mut script: Vec<Transaction> = Vec::new();
        let mut c: usize = 0;
        let mut start: usize = 0;
        proof {
            lemma_page_count(len as nat, page_size as nat);
        }
        while start < len
            invariant
                page_size > 0,
                len == data@.len(),
                pages == page_count(len as nat, page_size as nat),
                (pages - 1) * page_size < len || len == 0,
                len <= pages * page_size,
                pages <= len,
                c <= pages,
                start == (if c < pages {
                    c * page_size
                } else {
                    len as int
                }),
                script@.len() == 2 * c,
                forall|j: int|
                    0 <= j < 2 * c ==> (#[trigger] script@[j])@ == program_script(
                        addr,
                        data@,
                        page_size as nat,
                    )[j],
            decreases len - start,
        {
            proof {
                lemma_mul_inequality(c as int, pages - 1, page_size as int);
                if c + 1 < pages {
                    lemma_mul_inequality(c + 1, pages - 1, page_size as int);
                    assert((c + 1) * page_size == c * page_size + page_size) by (nonlinear_arith);
                } else {
                    assert(pages * page_size == (pages - 1) * page_size + page_size)
                        by (nonlinear_arith);
                }
            }
            let end: usize = if len - start > page_size {
                start + page_size
            } else {
                len
            };
            // Only the low 24 bits of the address are sent.
            let offset: u32 = (start % 0x100_0000) as u32;
            let current_addr: u32 = (addr % 0x100_0000 + offset) % 0x100_0000;
            proof {
                assert(start == c * page_size);
                lemma_next_unit_address(addr, c as int, page_size as nat);
                lemma_add_mod_noop(addr as int, start as int, 0x100_0000);
            }
            let chunk: Vec<u8> = slice_to_vec(slice_subrange(data, start, end));
            script.push(Transaction::write_enable());
            script.push(Transaction::page_program(current_addr, chunk));
            c += 1;
            start = end;
        }
        proof {
            if c < pages {
                lemma_mul_inequality(c as int, pages - 1, page_size as int);
            }
        }
        (Flash { sizes: self.sizes, state: Busy { done: false } }, script)
    }

    /// Erases the memory chip fully.
    ///
    /// Warning: full erase operations can take a significant amount of time.
    /// Check your device's datasheet for precise numbers.
    pub fn erase_all(self) -> (out: (Flash<Busy>, Vec<Transaction>))
        ensures
            script_view(out.1@) == seq![
                TransactionView::write_enable(),
                TransactionView::chip_erase(),
            ],
            out.0.spec_sizes() == self.spec_sizes(),
            !out.0.spec_is_done(),
    {
        let mut script: Vec<Transaction> = Vec::with_capacity(2);
        script.push(Transaction::write_enable());
        script.push(Transaction::chip_erase());
        assert(script_view(script@) =~= seq![
            TransactionView::write_enable(),
            TransactionView::chip_erase(),
        ]);
        (Flash { sizes: self.sizes, state: Busy { done: false } }, script)
    }
}

/// Completion counts as observed after a run of polls exactly if it did
/// before or one of the polls read a status that is not busy. So a core
/// that starts out with nothing observed cannot be made ready by polls that
/// all read busy, however many they are, and can be as soon as one does not.
pub proof fn lemma_observed_iff_idle_read(done: bool, reads: Seq<u8>)
    ensures
        observed_after_polls(done, reads) <==> done || exists|i: int|
            0 <= i < reads.len() && !Status::decode(#[trigger] reads[i]).spec_is_busy(),
    decreases reads.len(),
{
    if reads.len() > 0 {
        let rest = reads.drop_first();
        let next = observed_after_poll(done, reads[0]);
        lemma_observed_iff_idle_read(next, rest);
        if exists|i: int|
            0 <= i < reads.len() && !Status::decode(#[trigger] reads[i]).spec_is_busy() {
            let i = choose|i: int|
                0 <= i < reads.len() && !Status::decode(#[trigger] reads[i]).spec_is_busy();
            if i > 0 {
                assert(rest[i - 1] == reads[i]);
            }
        }
    }
}

} // verus!

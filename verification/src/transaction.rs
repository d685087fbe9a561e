//! Bus transactions: what is exchanged with the chip while it is selected.
//!
//! A transaction is one unit on the bus. The chip is selected, a header of
//! opcode, address and padding bytes is exchanged in full duplex, a data phase
//! may follow, and the chip is released. Nothing here touches a bus: a
//! transaction is a value, and whoever owns the bus carries it out step by
//! step.
//!
//! Transactions are made by the driver's core alone, so that holding one
//! means that the core was in a state to issue it.

use vstd::prelude::*;
use vstd::arithmetic::div_mod::{lemma_breakdown, lemma_div_denominator, lemma_small_mod};
use crate::opcode::Opcode;

verus! {

/// The three bytes that carry the address `addr` on the wire: its low 24
/// bits, most significant byte first. Higher bits are not sent.
pub open spec fn address_bytes(addr: int) -> Seq<u8> {
    seq![
        ((addr / 0x1_0000) % 0x100) as u8,
        ((addr / 0x100) % 0x100) as u8,
        (addr % 0x100) as u8,
    ]
}

/// What follows the header while the chip stays selected.
#[derive(Debug, PartialEq, Eq)]
pub enum Data {
    /// Nothing: the transaction ends with the header.
    Absent,
    /// A second full-duplex exchange, over the caller's destination buffer,
    /// which the chip fills with its contents.
    Read,
    /// These bytes are sent; what comes back meanwhile is ignored.
    Write(Vec<u8>),
}

/// What a [`Data`] holds.
pub enum DataView {
    /// Nothing.
    Absent,
    /// An exchange over the caller's destination buffer.
    Read,
    /// The bytes that are sent.
    Write(Seq<u8>),
}

impl View for Data {
    type V = DataView;

    open spec fn view(&self) -> DataView {
        match self {
            Data::Absent => DataView::Absent,
            Data::Read => DataView::Read,
            Data::Write(bytes) => DataView::Write(bytes@),
        }
    }
}

/// One unit of bus traffic.
#[derive(Debug, PartialEq, Eq)]
pub struct Transaction {
    /// What is exchanged first: the opcode, then address or padding bytes.
    header: Vec<u8>,
    /// What follows the header.
    data: Data,
}

/// What a [`Transaction`] holds.
pub struct TransactionView {
    /// The header bytes.
    pub header: Seq<u8>,
    /// The data phase.
    pub data: DataView,
}

impl View for Transaction {
    type V = TransactionView;

    closed spec fn view(&self) -> TransactionView {
        TransactionView { header: self.header@, data: self.data@ }
    }
}

/// One thing done on the bus or on the chip-select line.
#[derive(Clone, Copy, Debug, PartialEq, Eq, Structural)]
pub enum Step {
    /// Drive chip-select active (low).
    Select,
    /// Exchange the header in full duplex.
    ExchangeHeader,
    /// Exchange the caller's destination buffer in full duplex.
    ExchangeData,
    /// Send the data bytes.
    WriteData,
    /// Drive chip-select inactive (high).
    Deselect,
}

impl TransactionView {
    /// A transaction of one exchange: `bytes` go out, and nothing follows.
    pub open spec fn command(bytes: Seq<u8>) -> TransactionView {
        TransactionView { header: bytes, data: DataView::Absent }
    }

    /// The header of a command that names an address: the opcode, then the
    /// three address bytes.
    pub open spec fn addressed_header(opcode: Opcode, addr: int) -> Seq<u8> {
        seq![opcode.spec_code()] + address_bytes(addr)
    }

    /// Sets the write enable latch.
    pub open spec fn write_enable() -> TransactionView {
        Self::command(seq![Opcode::WriteEnable.spec_code()])
    }

    /// Reads the status register: the opcode and one padding byte.
    pub open spec fn read_status() -> TransactionView {
        Self::command(seq![Opcode::ReadStatus.spec_code(), 0u8])
    }

    /// Reads the JEDEC identification: the opcode and eleven padding bytes.
    pub open spec fn read_jedec_id() -> TransactionView {
        Self::command(seq![Opcode::ReadJedecId.spec_code()] + Seq::new(11, |i: int| 0u8))
    }

    /// Reads contents from `addr` on into the caller's buffer.
    pub open spec fn read(addr: int) -> TransactionView {
        TransactionView {
            header: Self::addressed_header(Opcode::Read, addr),
            data: DataView::Read,
        }
    }

    /// A command that names an address and has no data phase, such as the
    /// erasure of the sector or block at `addr`.
    pub open spec fn addressed(opcode: Opcode, addr: int) -> TransactionView {
        Self::command(Self::addressed_header(opcode, addr))
    }

    /// Programs `chunk` at `addr`.
    pub open spec fn page_program(addr: int, chunk: Seq<u8>) -> TransactionView {
        TransactionView {
            header: Self::addressed_header(Opcode::PageProg, addr),
            data: DataView::Write(chunk),
        }
    }

    /// Erases the whole chip.
    pub open spec fn chip_erase() -> TransactionView {
        Self::command(seq![Opcode::ChipErase.spec_code()])
    }

    /// What is done, in order, to carry the transaction out. The chip is
    /// selected first and released last, and stays selected in between.
    pub open spec fn steps(self) -> Seq<Step> {
        match self.data {
            DataView::Absent => seq![Step::Select, Step::ExchangeHeader, Step::Deselect],
            DataView::Read => seq![
                Step::Select,
                Step::ExchangeHeader,
                Step::ExchangeData,
                Step::Deselect,
            ],
            DataView::Write(_) => seq![
                Step::Select,
                Step::ExchangeHeader,
                Step::WriteData,
                Step::Deselect,
            ],
        }
    }
}

/// The three bytes that carry `addr` on the wire.
pub fn encode_address(addr: u32) -> (bytes: [u8; 3])
    ensures
        bytes@ == address_bytes(addr as int),
{
    let high: u8 = ((addr >> 16) & 0xFF) as u8;
    let middle: u8 = ((addr >> 8) & 0xFF) as u8;
    let low: u8 = (addr & 0xFF) as u8;
    assert(high == (addr / 0x1_0000) % 0x100) by (bit_vector)
        requires
            high == ((addr >> 16) & 0xFF) as u8,
    ;
    assert(middle == (addr / 0x100) % 0x100) by (bit_vector)
        requires
            middle == ((addr >> 8) & 0xFF) as u8,
    ;
    assert(low == addr % 0x100) by (bit_vector)
        requires
            low == (addr & 0xFF) as u8,
    ;
    [high, middle, low]
}

fn addressed_header(opcode: Opcode, addr: u32) -> (header: Vec<u8>)
    ensures
        header@ == TransactionView::addressed_header(opcode, addr as int),
{
    let address: [u8; 3] = encode_address(addr);
    let mut header: Vec<u8> = Vec::with_capacity(4);
    header.push(opcode.code());
    header.push(address[0]);
    header.push(address[1]);
    header.push(address[2]);
    header
}

impl Transaction {
    /// A transaction of one exchange: `bytes` go out, and nothing follows.
    pub(crate) fn command(bytes: Vec<u8>) -> (transaction: Transaction)
        ensures
            transaction@ == TransactionView::command(bytes@),
    {
        Transaction { header: bytes, data: Data::Absent }
    }

    /// Sets the write enable latch. The chip asks for this before each erase
    /// and each program command.
    pub(crate) fn write_enable() -> (transaction: Transaction)
        ensures
            transaction@ == TransactionView::write_enable(),
    {
        let mut header: Vec<u8> = Vec::with_capacity(1);
        header.push(Opcode::WriteEnable.code());
        Transaction::command(header)
    }

    /// Reads the status register. The second byte of the response is the
    /// register.
    pub(crate) fn read_status() -> (transaction: Transaction)
        ensures
            transaction@ == TransactionView::read_status(),
    {
        let mut header: Vec<u8> = Vec::with_capacity(2);
        header.push(Opcode::ReadStatus.code());
        header.push(0);
        assert(header@ =~= seq![Opcode::ReadStatus.spec_code(), 0u8]);
        Transaction::command(header)
    }

    /// Reads the JEDEC identification. Twelve bytes are exchanged, though
    /// some identifications are shorter.
    pub(crate) fn read_jedec_id() -> (transaction: Transaction)
        ensures
            transaction@ == TransactionView::read_jedec_id(),
    {
        let mut header: Vec<u8> = Vec::with_capacity(12);
        header.push(Opcode::ReadJedecId.code());
        let mut i: usize = 0;
        while i < 11
            invariant
                i <= 11,
                header@.len() == i + 1,
                header@[0] == Opcode::ReadJedecId.spec_code(),
                forall|j: int| 1 <= j <= i ==> header@[j] == 0u8,
            decreases 11 - i,
        {
            header.push(0);
            i += 1;
        }
        assert(header@ =~= TransactionView::read_jedec_id().header);
        Transaction::command(header)
    }

    /// Reads contents from `addr` on into the caller's buffer.
    pub(crate) fn read(addr: u32) -> (transaction: Transaction)
        ensures
            transaction@ == TransactionView::read(addr as int),
    {
        Transaction { header: addressed_header(Opcode::Read, addr), data: Data::Read }
    }

    /// A command that names an address and has no data phase.
    pub(crate) fn addressed(opcode: Opcode, addr: u32) -> (transaction: Transaction)
        ensures
            transaction@ == TransactionView::addressed(opcode, addr as int),
    {
        Transaction::command(addressed_header(opcode, addr))
    }

    /// Programs `chunk` at `addr`.
    pub(crate) fn page_program(addr: u32, chunk: Vec<u8>) -> (transaction: Transaction)
        ensures
            transaction@ == TransactionView::page_program(addr as int, chunk@),
    {
        Transaction { header: addressed_header(Opcode::PageProg, addr), data: Data::Write(chunk) }
    }

    /// Erases the whole chip.
    pub(crate) fn chip_erase() -> (transaction: Transaction)
        ensures
            transaction@ == TransactionView::chip_erase(),
    {
        let mut header: Vec<u8> = Vec::with_capacity(1);
        header.push(Opcode::ChipErase.code());
        Transaction::command(header)
    }

    /// The bytes that are exchanged first. What the chip sends meanwhile is
    /// the response to the transaction.
    pub fn header(&self) -> (header: &[u8])
        ensures
            header@ == self@.header,
    {
        self.header.as_slice()
    }

    /// What follows the header.
    pub fn data(&self) -> (data: &Data)
        ensures
            data@ == self@.data,
    {
        &self.data
    }

    /// What is to be done, in order, to carry the transaction out.
    pub fn steps(&self) -> (steps: Vec<Step>)
        ensures
            steps@ == self@.steps(),
    {
        let mut steps: Vec<Step> = Vec::with_capacity(4);
        steps.push(Step::Select);
        steps.push(Step::ExchangeHeader);
        match &self.data {
            Data::Absent => {},
            Data::Read => {
                steps.push(Step::ExchangeData);
            },
            Data::Write(_) => {
                steps.push(Step::WriteData);
            },
        }
        steps.push(Step::Deselect);
        steps
    }
}

/// The address bytes are the base-256 digits of the low 24 bits of `addr`.
pub proof fn lemma_address_bytes_value(addr: int)
    requires
        0 <= addr,
    ensures
        address_bytes(addr).len() == 3,
        address_bytes(addr)[0] * 0x1_0000 + address_bytes(addr)[1] * 0x100 + address_bytes(
            addr,
        )[2] == addr % 0x100_0000,
{
    lemma_breakdown(addr, 0x100, 0x1_0000);
    lemma_breakdown(addr / 0x100, 0x100, 0x100);
    lemma_div_denominator(addr, 0x100, 0x100);
}

/// Bits of an address above the low 24 change nothing on the wire.
pub proof fn lemma_address_bytes_wrap(addr: int)
    requires
        0 <= addr,
    ensures
        address_bytes(addr) == address_bytes(addr % 0x100_0000),
{
    let low = addr % 0x100_0000;
    lemma_address_bytes_value(addr);
    lemma_address_bytes_value(low);
    lemma_small_mod(low as nat, 0x100_0000);
    let a = address_bytes(addr);
    let b = address_bytes(low);
    assert(a[0] == b[0] && a[1] == b[1] && a[2] == b[2]) by (nonlinear_arith)
        requires
            a[0] * 0x1_0000 + a[1] * 0x100 + a[2] == b[0] * 0x1_0000 + b[1] * 0x100 + b[2],
            0 <= a[0] < 0x100,
            0 <= a[1] < 0x100,
            0 <= a[2] < 0x100,
            0 <= b[0] < 0x100,
            0 <= b[1] < 0x100,
            0 <= b[2] < 0x100,
    ;
    assert(a =~= b);
}

/// Every command that names an address carries it in the three bytes that
/// follow the opcode, whatever the opcode and whatever follows the header.
pub proof fn lemma_address_follows_opcode(opcode: Opcode, addr: int, chunk: Seq<u8>)
    ensures
        TransactionView::addressed_header(opcode, addr).len() == 4,
        TransactionView::addressed_header(opcode, addr)[0] == opcode.spec_code(),
        TransactionView::addressed_header(opcode, addr).subrange(1, 4) == address_bytes(addr),
        TransactionView::read(addr).header.subrange(1, 4) == address_bytes(addr),
        TransactionView::addressed(opcode, addr).header.subrange(1, 4) == address_bytes(addr),
        TransactionView::page_program(addr, chunk).header.subrange(1, 4) == address_bytes(addr),
{
    assert(TransactionView::addressed_header(opcode, addr).subrange(1, 4) =~= address_bytes(addr));
    assert(TransactionView::addressed_header(Opcode::Read, addr).subrange(1, 4) =~= address_bytes(
        addr,
    ));
    assert(TransactionView::addressed_header(Opcode::PageProg, addr).subrange(1, 4)
        =~= address_bytes(addr));
}

/// Whatever the transaction, the chip is selected first, the header is
/// exchanged next, the chip is released last, and it is neither selected nor
/// released in between.
pub proof fn lemma_steps_bracketed(transaction: TransactionView)
    ensures
        ({
            let steps = transaction.steps();
            &&& 3 <= steps.len() <= 4
            &&& steps.first() == Step::Select
            &&& steps[1] == Step::ExchangeHeader
            &&& steps.last() == Step::Deselect
            &&& forall|i: int|
                0 < i < steps.len() - 1 ==> steps[i] != Step::Select && steps[i] != Step::Deselect
        }),
{
}

} // verus!

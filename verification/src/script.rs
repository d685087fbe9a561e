//! Scripts: the transactions that an erase or a write consists of, in the
//! order in which they are to be carried out.
//!
//! The chip takes an erase or program command only while its write enable
//! latch is set, and clears the latch when the command is done. So each unit
//! of work is a pair of transactions: a write enable, then the command.

use vstd::prelude::*;
use vstd::arithmetic::div_mod::lemma_add_mod_noop;
use vstd::arithmetic::mul::lemma_mul_inequality;
use crate::opcode::Opcode;
use crate::transaction::{address_bytes, lemma_address_bytes_wrap, Transaction, TransactionView};

verus! {

/// The views of the transactions of a script, in order.
pub open spec fn script_view(script: Seq<Transaction>) -> Seq<TransactionView> {
    script.map_values(|transaction: Transaction| transaction@)
}

/// The address of unit `i`, where units of `unit` bytes are counted from
/// `addr`. It may be more than the 24 bits that go over the wire can hold:
/// see [`address_bytes`].
pub open spec fn unit_address(addr: u32, i: int, unit: nat) -> int {
    addr + i * unit
}

/// The transactions that erase `amount` units of `unit` bytes from `addr` on:
/// for each unit in turn a write enable, then the erase command at the
/// unit's address.
pub open spec fn erase_script(opcode: Opcode, addr: u32, amount: nat, unit: nat) -> Seq<
    TransactionView,
> {
    Seq::new(
        2 * amount,
        |j: int|
            if j % 2 == 0 {
                TransactionView::write_enable()
            } else {
                TransactionView::addressed(opcode, unit_address(addr, j / 2, unit))
            },
    )
}

/// The number of pages that `len` bytes take: `len / page_size`, rounded up.
pub open spec fn page_count(len: nat, page_size: nat) -> nat {
    if len % page_size == 0 {
        len / page_size
    } else {
        len / page_size + 1
    }
}

/// The bytes of `data` that go into page `i`: `page_size` of them, or what is
/// left of `data` where that is less.
pub open spec fn page_chunk(data: Seq<u8>, page_size: nat, i: int) -> Seq<u8> {
    let start = i * page_size;
    let end = if start + page_size <= data.len() {
        start + page_size
    } else {
        data.len() as int
    };
    data.subrange(start, end)
}

/// The transactions that write `data` from `addr` on: for each page in turn
/// a write enable, then the program command at the page's address with the
/// page's bytes.
pub open spec fn program_script(addr: u32, data: Seq<u8>, page_size: nat) -> Seq<TransactionView> {
    Seq::new(
        2 * page_count(data.len(), page_size),
        |j: int|
            if j % 2 == 0 {
                TransactionView::write_enable()
            } else {
                TransactionView::page_program(
                    unit_address(addr, j / 2, page_size),
                    page_chunk(data, page_size, j / 2),
                )
            },
    )
}

/// The script that erases `amount` units of `unit` bytes from `addr` on.
pub(crate) fn erase_units(opcode: Opcode, addr: u32, amount: usize, unit: usize) -> (script: Vec<
    Transaction,
>)
    ensures
        script_view(script@) == erase_script(opcode, addr, amount as nat, unit as nat),
{
    // Only the low 24 bits of an address are sent, so that much of each
    // address is kept, and no sum can overflow.
    let stride: u32 = (unit % 0x100_0000) as u32;
    let mut current_addr: u32 = addr % 0x100_0000;
    let mut script: Vec<Transaction> = Vec::new();
    let mut c: usize = 0;
    while c < amount
        invariant
            c <= amount,
            stride == unit % 0x100_0000,
            current_addr == unit_address(addr, c as int, unit as nat) % 0x100_0000,
            script@.len() == 2 * c,
            forall|j: int|
                0 <= j < 2 * c ==> (#[trigger] script@[j])@ == erase_script(
                    opcode,
                    addr,
                    amount as nat,
                    unit as nat,
                )[j],
        decreases amount - c,
    {
        proof {
            lemma_next_unit_address(addr, c as int, unit as nat);
        }
        script.push(Transaction::write_enable());
        script.push(Transaction::addressed(opcode, current_addr));
        current_addr = (current_addr + stride) % 0x100_0000;
        c += 1;
    }
    assert(script_view(script@) =~= erase_script(opcode, addr, amount as nat, unit as nat));
    script
}

/// The address of a unit goes over the wire as its low 24 bits do, and the
/// low 24 bits of the next unit's address are had from those and from the
/// low 24 bits of the unit's size.
pub(crate) proof fn lemma_next_unit_address(addr: u32, i: int, unit: nat)
    requires
        0 <= i,
    ensures
        0 <= unit_address(addr, i, unit),
        address_bytes(unit_address(addr, i, unit) % 0x100_0000) == address_bytes(
            unit_address(addr, i, unit),
        ),
        unit_address(addr, i + 1, unit) % 0x100_0000 == (unit_address(addr, i, unit) % 0x100_0000
            + unit % 0x100_0000) % 0x100_0000,
{
    assert(0 <= i * unit) by (nonlinear_arith)
        requires
            0 <= i,
    ;
    assert((i + 1) * unit == i * unit + unit) by (nonlinear_arith);
    lemma_address_bytes_wrap(unit_address(addr, i, unit));
    lemma_add_mod_noop(unit_address(addr, i, unit), unit as int, 0x100_0000);
}

/// Erasing `amount` units issues exactly `amount` pairs of a write enable
/// and an erase command, one pair for each unit and in the order of the
/// units, and the pair of unit `i` names the address `addr + i * unit`,
/// however large that is.
pub proof fn lemma_erase_script_pairs(opcode: Opcode, addr: u32, amount: nat, unit: nat)
    ensures
        erase_script(opcode, addr, amount, unit).len() == 2 * amount,
        forall|i: int|
            0 <= i < amount ==> erase_script(opcode, addr, amount, unit).subrange(2 * i, 2 * i + 2)
                == seq![
                TransactionView::write_enable(),
                TransactionView::addressed(opcode, #[trigger] unit_address(addr, i, unit)),
            ],
{
    let script = erase_script(opcode, addr, amount, unit);
    assert forall|i: int| 0 <= i < amount implies script.subrange(2 * i, 2 * i + 2) == seq![
        TransactionView::write_enable(),
        TransactionView::addressed(opcode, #[trigger] unit_address(addr, i, unit)),
    ] by {
        assert(script.subrange(2 * i, 2 * i + 2) =~= seq![
            TransactionView::write_enable(),
            TransactionView::addressed(opcode, unit_address(addr, i, unit)),
        ]);
    }
}

/// Writing `data` issues exactly one pair of a write enable and a program
/// command for each page, in the order of the pages: `data.len() /
/// page_size` pairs, rounded up. The pair of page `i` names the address
/// `addr + i * page_size` and carries the bytes of that page. Every page
/// but the last carries `page_size` bytes. Where the length of `data` is no
/// multiple of `page_size`, the last page carries only the bytes that are
/// left over.
pub proof fn lemma_program_script_pages(addr: u32, data: Seq<u8>, page_size: nat)
    requires
        page_size > 0,
    ensures
        program_script(addr, data, page_size).len() == 2 * page_count(data.len(), page_size),
        forall|i: int|
            0 <= i < page_count(data.len(), page_size) ==> program_script(
                addr,
                data,
                page_size,
            ).subrange(2 * i, 2 * i + 2) == seq![
                TransactionView::write_enable(),
                TransactionView::page_program(
                    #[trigger] unit_address(addr, i, page_size),
                    page_chunk(data, page_size, i),
                ),
            ],
        forall|i: int|
            0 <= i < page_count(data.len(), page_size) - 1 ==> (#[trigger] page_chunk(
                data,
                page_size,
                i,
            )).len() == page_size,
        data.len() % page_size != 0 ==> {
            let last = page_count(data.len(), page_size) - 1;
            &&& last == data.len() / page_size
            &&& page_chunk(data, page_size, last).len() == data.len() % page_size
            &&& page_chunk(data, page_size, last) == data.skip(data.len() - data.len() % page_size)
        },
        data.len() % page_size == 0 && data.len() > 0 ==> page_chunk(
            data,
            page_size,
            page_count(data.len(), page_size) - 1,
        ).len() == page_size,
{
    let script = program_script(addr, data, page_size);
    let pages = page_count(data.len(), page_size);
    let len = data.len();
    let q = len / page_size;
    let r = len % page_size;
    lemma_page_count(len, page_size);
    assert(len == q * page_size + r) by (nonlinear_arith)
        requires
            page_size > 0,
            q == len / page_size,
            r == len % page_size,
    ;
    assert forall|i: int| 0 <= i < pages implies script.subrange(2 * i, 2 * i + 2) == seq![
        TransactionView::write_enable(),
        TransactionView::page_program(
            #[trigger] unit_address(addr, i, page_size),
            page_chunk(data, page_size, i),
        ),
    ] by {
        assert(script.subrange(2 * i, 2 * i + 2) =~= seq![
            TransactionView::write_enable(),
            TransactionView::page_program(
                unit_address(addr, i, page_size),
                page_chunk(data, page_size, i),
            ),
        ]);
    }
    assert forall|i: int| 0 <= i < pages - 1 implies (#[trigger] page_chunk(
        data,
        page_size,
        i,
    )).len() == page_size by {
        lemma_mul_inequality(i + 1, pages - 1, page_size as int);
        assert((i + 1) * page_size == i * page_size + page_size) by (nonlinear_arith);
        assert(0 <= i * page_size) by (nonlinear_arith)
            requires
                0 <= i,
        ;
    }
    if r == 0 && len > 0 {
        assert((q - 1) * page_size == q * page_size - page_size) by (nonlinear_arith);
    }
}

/// No byte is lost, doubled or moved: byte `b` of `data` travels in page
/// `b / page_size`, at the place `b % page_size` within it.
pub proof fn lemma_page_chunks_cover(data: Seq<u8>, page_size: nat, b: int)
    requires
        page_size > 0,
        0 <= b < data.len(),
    ensures
        0 <= b / (page_size as int) < page_count(data.len(), page_size),
        0 <= b % (page_size as int) < page_chunk(data, page_size, b / (page_size as int)).len(),
        page_chunk(data, page_size, b / (page_size as int))[b % (page_size as int)] == data[b],
{
    let p = page_size as int;
    let i = b / p;
    let o = b % p;
    lemma_page_count(data.len(), page_size);
    assert(b == i * p + o && 0 <= o < p && 0 <= i) by (nonlinear_arith)
        requires
            p > 0,
            0 <= b,
            i == b / p,
            o == b % p,
    ;
    let pages = page_count(data.len(), page_size) as int;
    assert(i < pages) by (nonlinear_arith)
        requires
            b == i * p + o,
            0 <= o,
            b < data.len(),
            data.len() <= pages * p,
            p > 0,
    ;
}

/// The pages of `len` bytes cover them, and the last page is not empty.
pub proof fn lemma_page_count(len: nat, page_size: nat)
    requires
        page_size > 0,
    ensures
        len <= page_count(len, page_size) * page_size,
        len > 0 ==> (page_count(len, page_size) - 1) * page_size < len,
        len == 0 <==> page_count(len, page_size) == 0,
        page_count(len, page_size) <= len,
{
    let q = len / page_size;
    let r = len % page_size;
    assert(len == q * page_size + r) by (nonlinear_arith)
        requires
            page_size > 0,
            q == len / page_size,
            r == len % page_size,
    ;
    assert((q + 1) * page_size == q * page_size + page_size) by (nonlinear_arith);
    assert((q - 1) * page_size == q * page_size - page_size) by (nonlinear_arith);
    assert(q <= q * page_size) by (nonlinear_arith)
        requires
            page_size > 0,
            q >= 0,
    ;
}

} // verus!

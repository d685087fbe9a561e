//! JEDEC manufacturer and device identification.

use vstd::prelude::*;
use vstd::array::array_as_slice;
use vstd::slice::slice_subrange;

verus! {

/// The continuation code: a byte that says the manufacturer's code stands in
/// a later bank, and so comes after it.
pub const CONTINUATION: u8 = 0x7F;

/// What an [`Identification`] holds.
pub struct IdentificationView {
    /// The JEDEC manufacturer code.
    pub mfr_code: u8,
    /// The manufacturer-specific device ID: two bytes.
    pub device_id: Seq<u8>,
    /// The number of continuation codes that precede the manufacturer code.
    pub continuations: nat,
}

/// Whether `k` is the place in `buf` at which the manufacturer's code is
/// read.
///
/// The last two bytes of `buf` are no candidates, as two bytes of device ID
/// have to follow the code. Among the others the code is the first byte that
/// is no continuation code. Where they are continuation codes throughout, the
/// place is 0, and the byte read as the manufacturer's code is a continuation
/// code.
pub open spec fn is_code_index(buf: Seq<u8>, k: int) -> bool {
    ||| {
        &&& 0 <= k < buf.len() - 2
        &&& buf[k] != CONTINUATION
        &&& forall|j: int| 0 <= j < k ==> buf[j] == CONTINUATION
    }
    ||| {
        &&& k == 0
        &&& forall|j: int| 0 <= j < buf.len() - 2 ==> buf[j] == CONTINUATION
    }
}

/// The place in `buf` at which the manufacturer's code is read.
pub open spec fn code_index(buf: Seq<u8>) -> int {
    choose|k: int| is_code_index(buf, k)
}

/// What is read from `buf` with the manufacturer's code at `k`.
pub open spec fn read_at(buf: Seq<u8>, k: int) -> IdentificationView {
    IdentificationView {
        mfr_code: buf[k],
        device_id: buf.subrange(k + 1, k + 3),
        continuations: k as nat,
    }
}

/// The identification that the response `buf` decodes to.
pub open spec fn decode(buf: Seq<u8>) -> IdentificationView {
    read_at(buf, code_index(buf))
}

/// One buffer has one place for the manufacturer's code: whatever place
/// meets [`is_code_index`] is [`code_index`].
pub proof fn lemma_code_index_unique(buf: Seq<u8>, k: int)
    requires
        is_code_index(buf, k),
    ensures
        code_index(buf) == k,
{
}

/// 3-byte JEDEC manufacturer and device identification.
#[derive(Clone, Copy, Debug, PartialEq, Eq)]
pub struct Identification {
    /// The manufacturer's code, then the two bytes of the device ID.
    bytes: [u8; 3],
    /// The number of continuation codes that precede the manufacturer's code.
    continuations: usize,
}

impl View for Identification {
    type V = IdentificationView;

    closed spec fn view(&self) -> IdentificationView {
        IdentificationView {
            mfr_code: self.bytes[0],
            device_id: self.bytes@.subrange(1, 3),
            continuations: self.continuations as nat,
        }
    }
}

impl Identification {
    /// Build an Identification from JEDEC ID bytes.
    ///
    /// For example the response `7F 7F 7F 7F 7F 7F C2 22 08` has six
    /// continuation codes, the manufacturer code `C2` and the device ID
    /// `22 08`.
    pub fn from_jedec_id(buf: &[u8]) -> (id: Identification)
        requires
            buf@.len() >= 3,
        ensures
            id@ == decode(buf@),
            is_code_index(buf@, id@.continuations as int),
    {
        let window: usize = buf.len() - 2;
        let mut start: usize = 0;
        let mut i: usize = 0;
        while i < window
            invariant_except_break
                start == 0,
                forall|j: int| 0 <= j < i ==> buf@[j] == CONTINUATION,
            invariant
                i <= window,
                window == buf@.len() - 2,
            ensures
                is_code_index(buf@, start as int),
            decreases window - i,
        {
            if buf[i] != CONTINUATION {
                start = i;
                break ;
            }
            i += 1;
        }
        let id = Identification {
            bytes: [buf[start], buf[start + 1], buf[start + 2]],
            continuations: start,
        };
        proof {
            lemma_code_index_unique(buf@, start as int);
            assert(id@.device_id =~= buf@.subrange(start + 1, start + 3));
        }
        id
    }

    /// The JEDEC manufacturer code for this chip.
    pub fn mfr_code(&self) -> (code: u8)
        ensures
            code == self@.mfr_code,
    {
        self.bytes[0]
    }

    /// The manufacturer-specific device ID for this chip.
    pub fn device_id(&self) -> (id: &[u8])
        ensures
            id@ == self@.device_id,
            id@.len() == 2,
    {
        slice_subrange(array_as_slice(&self.bytes), 1, 3)
    }

    /// Number of continuation codes in this chip ID.
    ///
    /// For example the ARM Ltd identifier is `7F 7F 7F 7F 3B` (5 bytes), so
    /// in a response that holds it, and a device ID after it, the
    /// continuation count is 4.
    pub fn continuation_count(&self) -> (count: usize)
        ensures
            count == self@.continuations,
    {
        self.continuations
    }
}

/// A buffer made of `k` continuation codes and then the three bytes `m`,
/// `d0`, `d1`, where `m` is no continuation code, decodes to the continuation
/// count `k`, the manufacturer's code `m` and the device ID `d0`, `d1`.
pub proof fn lemma_continuations_then_code(k: nat, m: u8, d0: u8, d1: u8)
    requires
        m != CONTINUATION,
    ensures
        decode(Seq::new(k, |j: int| CONTINUATION) + seq![m, d0, d1]) == (IdentificationView {
            mfr_code: m,
            device_id: seq![d0, d1],
            continuations: k,
        }),
{
    let buf = Seq::new(k, |j: int| CONTINUATION) + seq![m, d0, d1];
    lemma_code_index_unique(buf, k as int);
    assert(buf.subrange(k as int + 1, k as int + 3) =~= seq![d0, d1]);
}

/// Where every byte but the last two is a continuation code, the first of
/// them is read as the manufacturer's code, and the continuation count is 0.
pub proof fn lemma_continuations_throughout(buf: Seq<u8>)
    requires
        buf.len() >= 3,
        forall|j: int| 0 <= j < buf.len() - 2 ==> buf[j] == CONTINUATION,
    ensures
        decode(buf) == read_at(buf, 0),
        decode(buf).mfr_code == CONTINUATION,
        decode(buf).continuations == 0,
{
    lemma_code_index_unique(buf, 0);
}

} // verus!

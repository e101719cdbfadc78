//! The process image: one contiguous byte buffer shared with the bus.
//!
//! The buffer is partitioned per the bus layout for `N` devices: the output
//! region `[0, N * EC_OUTPUT_FRAME_SIZE)` carries the TX frames, the input
//! region of `N * EC_INPUT_FRAME_SIZE` bytes follows it, and one trailing
//! sync-manager handshake byte per device closes the buffer. Writers never
//! touch the input region; readers never read the output region.

use vstd::prelude::*;

use crate::message::{EC_OUTPUT_FRAME_SIZE, RxMessage, TX_PAYLOAD_SIZE, TxMessage, zero_bytes};

verus! {

/// Bytes of the process image taken by one device: its output frame, its
/// input frame and its handshake byte.
pub const BYTES_PER_DEVICE: usize = 629;

/// Largest device count the map accepts; configured addresses are 16-bit.
pub const MAX_DEVICES: usize = 0xFFFF;

/// The flattened output region that a TX vector denotes.
pub open spec fn tx_flat_bytes(s: Seq<TxMessage>) -> Seq<u8> {
    Seq::new(
        (s.len() * EC_OUTPUT_FRAME_SIZE) as nat,
        |i: int| s[i / (EC_OUTPUT_FRAME_SIZE as int)].byte_at(i % (EC_OUTPUT_FRAME_SIZE as int)),
    )
}

/// The process image for a fixed number of devices.
pub struct IOMap {
    /// The backing byte buffer.
    pub buf: Vec<u8>,
    /// The number of devices the buffer is laid out for.
    pub num_devices: usize,
}

impl IOMap {
    /// The buffer has exactly the size the layout demands.
    pub open spec fn wf(self) -> bool {
        &&& self.num_devices <= MAX_DEVICES
        &&& self.buf@.len() == BYTES_PER_DEVICE * self.num_devices
    }

    /// Start of the input region.
    pub open spec fn input_offset(self) -> int {
        EC_OUTPUT_FRAME_SIZE * self.num_devices
    }

    /// Allocates a zeroed process image for `num_devices` devices.
    pub fn new(num_devices: usize) -> (r: IOMap)
        requires
            num_devices <= MAX_DEVICES,
        ensures
            r.wf(),
            r.num_devices == num_devices,
            r.buf@ == Seq::new((BYTES_PER_DEVICE * num_devices) as nat, |i: int| 0u8),
    {
        let size: usize = BYTES_PER_DEVICE * num_devices;
        IOMap { buf: zero_bytes(size), num_devices }
    }

    /// The backing bytes, for inspection.
    pub fn bytes(&self) -> (r: &Vec<u8>)
        ensures
            r@ == self.buf@,
    {
        &self.buf
    }

    /// The number of devices the buffer is laid out for.
    pub fn num_devices(&self) -> (r: usize)
        ensures
            r == self.num_devices,
    {
        self.num_devices
    }

    /// Writes the TX frames into the output region, bit-exactly, leaving the
    /// rest of the buffer untouched.
    pub fn copy_from(&mut self, tx: &Vec<TxMessage>)
        requires
            old(self).wf(),
            tx@.len() == old(self).num_devices,
            forall|d: int| 0 <= d < tx@.len() ==> (#[trigger] tx@[d]).wf(),
        ensures
            final(self).wf(),
            final(self).num_devices == old(self).num_devices,
            final(self).buf@.len() == old(self).buf@.len(),
            forall|d: int, j: int|
                0 <= d < tx@.len() && 0 <= j < EC_OUTPUT_FRAME_SIZE
                    ==> final(self).buf@[d * EC_OUTPUT_FRAME_SIZE + j] == (#[trigger] tx@[
                    d].byte_at(j)),
            forall|i: int|
                old(self).input_offset() <= i < old(self).buf@.len()
                    ==> final(self).buf@[i] == old(self).buf@[i],
    {
        let n = self.num_devices;
        let mut d: usize = 0;
        while d < n
            invariant
                self.wf(),
                self.num_devices == n,
                tx@.len() == n,
                forall|dd: int| 0 <= dd < n ==> (#[trigger] tx@[dd]).wf(),
                d <= n,
                self.buf@.len() == old(self).buf@.len(),
                forall|dd: int, j: int|
                    0 <= dd < d && 0 <= j < EC_OUTPUT_FRAME_SIZE
                        ==> self.buf@[dd * EC_OUTPUT_FRAME_SIZE + j] == (#[trigger] tx@[
                        dd].byte_at(j)),
                forall|i: int|
                    d * EC_OUTPUT_FRAME_SIZE <= i < self.buf@.len()
                        ==> self.buf@[i] == old(self).buf@[i],
            decreases n - d,
        {
            let base: usize = d * EC_OUTPUT_FRAME_SIZE;
            let msg = &tx[d];
            self.buf.set(base, msg.header.msg_id);
            self.buf.set(base + 1, 0u8);
            self.buf.set(base + 2, (msg.header.slot_2_offset & 0xff) as u8);
            self.buf.set(base + 3, (msg.header.slot_2_offset >> 8) as u8);
            let mut k: usize = 0;
            while k < TX_PAYLOAD_SIZE
                invariant
                    self.wf(),
                    self.num_devices == n,
                    tx@.len() == n,
                    forall|dd: int| 0 <= dd < n ==> (#[trigger] tx@[dd]).wf(),
                    d < n,
                    msg == tx@[d as int],
                    k <= TX_PAYLOAD_SIZE,
                    base == d * EC_OUTPUT_FRAME_SIZE,
                    self.buf@.len() == old(self).buf@.len(),
                    forall|dd: int, j: int|
                        0 <= dd < d && 0 <= j < EC_OUTPUT_FRAME_SIZE
                            ==> self.buf@[dd * EC_OUTPUT_FRAME_SIZE + j] == (#[trigger] tx@[dd].byte_at(j)),
                    forall|j: int|
                        0 <= j < k + 4 ==> self.buf@[base + j] == tx@[d as int].byte_at(j),
                    forall|i: int|
                        base + 4 + k <= i < self.buf@.len()
                            ==> self.buf@[i] == old(self).buf@[i],
                decreases TX_PAYLOAD_SIZE - k,
            {
                self.buf.set(base + 4 + k, msg.payload[k]);
                k = k + 1;
            }
            d = d + 1;
            assert forall|dd: int, j: int|
                0 <= dd < d && 0 <= j < EC_OUTPUT_FRAME_SIZE implies self.buf@[dd
                * EC_OUTPUT_FRAME_SIZE + j] == (#[trigger] tx@[dd].byte_at(j)) by {
                if dd == d - 1 {
                    assert(self.buf@[base + j] == tx@[dd].byte_at(j));
                }
            }
        }
    }

    /// Reads the input region back as RX messages.
    pub fn input(&self) -> (r: Vec<RxMessage>)
        requires
            self.wf(),
        ensures
            r@.len() == self.num_devices,
            forall|i: int|
                0 <= i < self.num_devices ==> (#[trigger] r@[i]) == (RxMessage {
                    data: self.buf@[self.input_offset() + 2 * i],
                    ack: self.buf@[self.input_offset() + 2 * i + 1],
                }),
    {
        let n = self.num_devices;
        let off: usize = EC_OUTPUT_FRAME_SIZE * n;
        let mut r: Vec<RxMessage> = Vec::new();
        let mut i: usize = 0;
        while i < n
            invariant
                self.wf(),
                self.num_devices == n,
                off == EC_OUTPUT_FRAME_SIZE * n,
                i <= n,
                r@.len() == i,
                forall|ii: int|
                    0 <= ii < i ==> (#[trigger] r@[ii]) == (RxMessage {
                        data: self.buf@[self.input_offset() + 2 * ii],
                        ack: self.buf@[self.input_offset() + 2 * ii + 1],
                    }),
            decreases n - i,
        {
            let data = self.buf[off + 2 * i];
            let ack = self.buf[off + 2 * i + 1];
            r.push(RxMessage { data, ack });
            i = i + 1;
        }
        r
    }

    /// Zeroes the whole buffer, keeping its layout.
    pub fn clear(&mut self)
        ensures
            final(self).num_devices == old(self).num_devices,
            final(self).buf@ == Seq::new(old(self).buf@.len(), |i: int| 0u8),
    {
        let len = self.buf.len();
        let mut i: usize = 0;
        while i < len
            invariant
                self.buf@.len() == len,
                self.num_devices == old(self).num_devices,
                i <= len,
                forall|j: int| 0 <= j < i ==> self.buf@[j] == 0u8,
            decreases len - i,
        {
            self.buf.set(i, 0u8);
            i = i + 1;
        }
        proof {
            assert(self.buf@ =~= Seq::new(old(self).buf@.len(), |i: int| 0u8));
        }
    }
}

/// A freshly allocated map that received one `copy_from` holds exactly the
/// TX bytes followed by zeros: the input region and the handshake bytes are
/// still clear.
pub proof fn lemma_fresh_copy_round_trip(m0: IOMap, m1: IOMap, tx: Seq<TxMessage>)
    requires
        m0.wf(),
        m0.buf@ == Seq::new((BYTES_PER_DEVICE * m0.num_devices) as nat, |i: int| 0u8),
        tx.len() == m0.num_devices,
        m1.wf(),
        m1.num_devices == m0.num_devices,
        m1.buf@.len() == m0.buf@.len(),
        forall|d: int, j: int|
            0 <= d < tx.len() && 0 <= j < EC_OUTPUT_FRAME_SIZE ==> m1.buf@[d * EC_OUTPUT_FRAME_SIZE
                + j] == (#[trigger] tx[d].byte_at(j)),
        forall|i: int| m0.input_offset() <= i < m0.buf@.len() ==> m1.buf@[i] == m0.buf@[i],
    ensures
        m1.buf@ =~= tx_flat_bytes(tx) + Seq::new((3 * m0.num_devices) as nat, |i: int| 0u8),
{
    let n = m0.num_devices as int;
    let out = EC_OUTPUT_FRAME_SIZE as int;
    assert forall|i: int| 0 <= i < n * out implies m1.buf@[i] == tx_flat_bytes(tx)[i] by {
        let d = i / out;
        let j = i % out;
        vstd::arithmetic::div_mod::lemma_fundamental_div_mod(i, out);
        assert(0 <= j < out);
        assert(i == d * out + j);
        assert(d < n) by {
            if d >= n {
                assert(i == d * out + j);
                assert(d * out >= n * out) by (nonlinear_arith)
                    requires
                        d >= n,
                        out > 0,
                ;
            }
        }
        assert(0 <= d);
        assert(m1.buf@[d * out + j] == tx[d].byte_at(j));
    }
}

} // verus!

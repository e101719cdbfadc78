//! The TX buffer pool: a fixed set of preallocated buffers that bounds
//! memory and avoids a fresh allocation per send.
//!
//! Conservation invariant: at all times the buffers held by the pool plus
//! the buffers lent out add up to the pool's capacity. A buffer leaves the
//! pool with `alloc_tx_buffer` and comes back with `return_buffer` once the
//! cycle thread has consumed it.

use vstd::prelude::*;

use crate::iomap::MAX_DEVICES;
use crate::message::TxMessage;

verus! {

/// The pool of TX buffers, each holding one message per device.
pub struct TxBufferPool {
    /// The buffers currently in the pool.
    pub free: Vec<Vec<TxMessage>>,
    /// How many buffers the pool was created with.
    pub capacity: usize,
    /// How many buffers are lent out.
    pub lent: usize,
    /// The number of devices each buffer covers.
    pub num_devices: usize,
}

/// A buffer the pool accepts: one well-formed message per device.
pub open spec fn buffer_wf(buf: Seq<TxMessage>, num_devices: usize) -> bool {
    buf.len() == num_devices && forall|j: int| 0 <= j < buf.len() ==> (#[trigger] buf[j]).wf()
}

impl TxBufferPool {
    /// The conservation invariant, with every held buffer well formed.
    pub open spec fn wf(self) -> bool {
        &&& self.free@.len() + self.lent == self.capacity
        &&& self.num_devices <= MAX_DEVICES
        &&& forall|i: int|
            0 <= i < self.free@.len() ==> buffer_wf(
                (#[trigger] self.free@[i])@,
                self.num_devices,
            )
    }

    /// Creates a pool of `capacity` zero-initialized buffers for
    /// `num_devices` devices.
    pub fn new(capacity: usize, num_devices: usize) -> (r: TxBufferPool)
        requires
            1 <= capacity,
            num_devices <= MAX_DEVICES,
        ensures
            r.wf(),
            r.capacity == capacity,
            r.lent == 0,
            r.num_devices == num_devices,
            r.free@.len() == capacity,
    {
        let mut free: Vec<Vec<TxMessage>> = Vec::new();
        let mut i: usize = 0;
        while i < capacity
            invariant
                i <= capacity,
                free@.len() == i,
                forall|k: int|
                    0 <= k < i ==> buffer_wf((#[trigger] free@[k])@, num_devices),
            decreases capacity - i,
        {
            let mut buf: Vec<TxMessage> = Vec::new();
            let mut j: usize = 0;
            while j < num_devices
                invariant
                    j <= num_devices,
                    buf@.len() == j,
                    forall|k: int| 0 <= k < j ==> (#[trigger] buf@[k]).wf(),
                decreases num_devices - j,
            {
                buf.push(TxMessage::new());
                j = j + 1;
            }
            free.push(buf);
            i = i + 1;
        }
        TxBufferPool { free, capacity, lent: 0, num_devices }
    }

    /// Takes a buffer out of the pool; empty-handed when all buffers are
    /// lent out.
    pub fn alloc_tx_buffer(&mut self) -> (r: Option<Vec<TxMessage>>)
        requires
            old(self).wf(),
        ensures
            final(self).wf(),
            final(self).capacity == old(self).capacity,
            final(self).num_devices == old(self).num_devices,
            old(self).free@.len() == 0 ==> r is None && *final(self) == *old(self),
            old(self).free@.len() > 0 ==> (r matches Some(buf) && buf == old(self).free@.last()
                && final(self).free@ == old(self).free@.drop_last() && final(self).lent == old(
                self,
            ).lent + 1),
    {
        if self.free.len() == 0 {
            None
        } else {
            let buf = self.free.pop().unwrap();
            self.lent = self.lent + 1;
            Some(buf)
        }
    }

    /// Returns a lent buffer to the pool.
    pub fn return_buffer(&mut self, buf: Vec<TxMessage>)
        requires
            old(self).wf(),
            old(self).lent > 0,
            buffer_wf(buf@, old(self).num_devices),
        ensures
            final(self).wf(),
            final(self).capacity == old(self).capacity,
            final(self).num_devices == old(self).num_devices,
            final(self).free@ == old(self).free@.push(buf),
            final(self).lent == old(self).lent - 1,
    {
        self.free.push(buf);
        self.lent = self.lent - 1;
    }
}

} // verus!

//! Sampling sessions. The session's capture switch cycles Disabled →
//! Enabled → Disabled; bytes already buffered are independent of that
//! state and remain consumable until drained. Consuming a record advances
//! the consumer position, and once advanced a record cannot be re-read.

use vstd::prelude::*;
use crate::bits::bit64;
use crate::builder::{valid_ring_buffer_pages, Builder};
use crate::error::{BuildError, DecodeError};
use crate::raw_attr::{FLAG_SAMPLE_ID_ALL, READ_BIT_LOST};
use crate::record::{
    body_fits, decode_record, header_at, record_available, record_matches, DecodeConfig, Record,
};
use crate::sampling::attr::Attr;

verus! {

/// A sampling session: one descriptor opened against one pid/cpu target,
/// a ring buffer of the requested page count, and the decoder state
/// captured from the descriptor. Bytes the kernel wrote are fed into the
/// session's buffer and drained one record at a time.
#[derive(Debug)]
pub struct Sampling {
    /// Selector mask captured at descriptor-build time.
    pub sample_type: u64,
    /// Whether every record kind trails a sample id block.
    pub sample_id_all: bool,
    /// Whether read-format entries carry a lost-event count.
    pub read_lost: bool,
    pub pid: i32,
    pub cpu: i32,
    pub ring_buffer_pages: usize,
    /// The kernel-side capture switch this session has requested.
    pub enabled: bool,
    /// Bytes taken from the ring buffer and not yet decoded.
    pub buf: Vec<u8>,
    /// Consumer position: everything before it has been yielded and can
    /// never be re-read.
    pub pos: usize,
}

impl Sampling {
    /// The consumer position lies within the buffered bytes.
    pub open spec fn wf(self) -> bool {
        self.pos <= self.buf@.len()
    }

    /// The decoder configuration this session captured from its
    /// descriptor.
    pub open spec fn spec_decode_config(self) -> DecodeConfig {
        DecodeConfig {
            sample_type: self.sample_type,
            sample_id_all: self.sample_id_all,
            read_lost: self.read_lost,
        }
    }

    /// Requests the kernel-side capture switch on; a no-op at the kernel
    /// when already on. Buffered bytes are unaffected.
    pub fn enable(&mut self)
        ensures
            *final(self) == (Sampling { enabled: true, ..*old(self) }),
    {
        self.enabled = true;
    }

    /// Requests the kernel-side capture switch off; a no-op at the kernel
    /// when already off. Buffered bytes are unaffected and remain
    /// consumable.
    pub fn disable(&mut self)
        ensures
            *final(self) == (Sampling { enabled: false, ..*old(self) }),
    {
        self.enabled = false;
    }

    /// Feeds bytes the kernel wrote into the underlying ring buffer into
    /// this session's buffer, after everything already buffered.
    pub fn push_bytes(&mut self, chunk: &Vec<u8>)
        ensures
            final(self).buf@ == old(self).buf@ + chunk@,
            *final(self) == (Sampling { buf: final(self).buf, ..*old(self) }),
    {
        let mut k: usize = 0;
        while k < chunk.len()
            invariant
                k <= chunk@.len(),
                self.buf@ == old(self).buf@ + chunk@.take(k as int),
                *self == (Sampling { buf: self.buf, ..*old(self) }),
            decreases chunk@.len() - k,
        {
            let b = chunk[k];
            self.buf.push(b);
            proof {
                assert(old(self).buf@ + chunk@.take(k as int + 1) =~= (old(self).buf@ + chunk@.take(
                    k as int,
                )).push(chunk@[k as int]));
            }
            k = k + 1;
        }
        proof {
            assert(chunk@.take(chunk@.len() as int) =~= chunk@);
        }
    }

    /// Decodes the next buffered record, if a complete one is there, and
    /// advances the consumer position past it; the record can then never
    /// be re-read. Decoding is independent of the enabled state: draining
    /// continues after disable until the buffer is empty. `Ok(None)`
    /// means no complete record is buffered. A decode error is fatal to
    /// this step and changes nothing.
    pub fn next_record(&mut self) -> (r: Result<Option<Record>, DecodeError>)
        requires
            old(self).wf(),
        ensures
            final(self).wf(),
            final(self).buf == old(self).buf,
            *final(self) == (Sampling { pos: final(self).pos, ..*old(self) }),
            match r {
                Ok(None) => !record_available(old(self).buf@, old(self).pos as int)
                    && final(self).pos == old(self).pos,
                Ok(Some(rec)) => {
                    &&& record_available(old(self).buf@, old(self).pos as int)
                    &&& record_matches(
                        rec,
                        old(self).buf@,
                        old(self).pos as int,
                        old(self).spec_decode_config(),
                    )
                    &&& final(self).pos == old(self).pos + header_at(
                        old(self).buf@,
                        old(self).pos as int,
                    ).size
                },
                Err(e) => final(self).pos == old(self).pos && record_available(
                    old(self).buf@,
                    old(self).pos as int,
                ) && match e {
                    DecodeError::HeaderTooSmall => header_at(
                        old(self).buf@,
                        old(self).pos as int,
                    ).size < 8,
                    DecodeError::SizeMismatch => !body_fits(
                        old(self).buf@,
                        old(self).pos as int,
                        old(self).spec_decode_config(),
                    ),
                },
            },
    {
        let cfg = DecodeConfig {
            sample_type: self.sample_type,
            sample_id_all: self.sample_id_all,
            read_lost: self.read_lost,
        };
        match decode_record(&cfg, &self.buf, self.pos)? {
            None => Ok(None),
            Some((rec, next)) => {
                self.pos = next;
                Ok(Some(rec))
            },
        }
    }
}

impl Builder {
    /// Consumes the pending target state and a sampling descriptor into a
    /// sampling session. Fails with the target-not-set error exactly when
    /// pid or cpu targeting is unresolved, and with the page-count error
    /// exactly when, targets resolved, the ring-buffer page count is
    /// absent, zero, or not one more than a power of two — both checked
    /// here, before anything is handed to the kernel. It never fails for
    /// a fully resolved combination with a valid page count.
    pub fn build_sampling(&self, attr: &Attr) -> (r: Result<Sampling, BuildError>)
        ensures
            r is Err <==> (self.pid is None || self.cpu is None || self.ring_buffer_pages is None
                || !valid_ring_buffer_pages(self.ring_buffer_pages->0)),
            match r {
                Ok(s) => {
                    &&& s.sample_type == attr.raw().sample_type
                    &&& s.sample_id_all == bit64(attr.raw().flags, FLAG_SAMPLE_ID_ALL)
                    &&& s.read_lost == bit64(attr.raw().read_format, READ_BIT_LOST)
                    &&& s.pid == self.pid->0
                    &&& s.cpu == self.cpu->0
                    &&& s.ring_buffer_pages == self.ring_buffer_pages->0
                    &&& !s.enabled
                    &&& s.buf@.len() == 0
                    &&& s.pos == 0
                },
                Err(BuildError::PidAndCpuNotSet) => self.pid is None || self.cpu is None,
                Err(BuildError::RingBufferPagesInvalid) => self.pid is Some && self.cpu is Some && (
                self.ring_buffer_pages is None || !valid_ring_buffer_pages(
                    self.ring_buffer_pages->0,
                )),
                Err(_) => false,
            },
    {
        let (pid, cpu) = match (self.pid, self.cpu) {
            (Some(pid), Some(cpu)) => (pid, cpu),
            _ => {
                return Err(BuildError::PidAndCpuNotSet);
            },
        };
        let pages = match self.ring_buffer_pages {
            Some(pages) => pages,
            None => {
                return Err(BuildError::RingBufferPagesInvalid);
            },
        };
        if !crate::builder::check_ring_buffer_pages(pages) {
            return Err(BuildError::RingBufferPagesInvalid);
        }
        let raw = (*attr).into_raw();
        Ok(
            Sampling {
                sample_type: raw.sample_type,
                sample_id_all: crate::bits::get_bit64(raw.flags, FLAG_SAMPLE_ID_ALL),
                read_lost: crate::bits::get_bit64(raw.read_format, READ_BIT_LOST),
                pid,
                cpu,
                ring_buffer_pages: pages,
                enabled: false,
                buf: Vec::new(),
                pos: 0,
            },
        )
    }
}

} // verus!

//! The transport: a bound bulk endpoint pair and raw transfers over
//! it.  The rusb calls stand behind trusted wrappers; the
//! packetization around them is verified.

use vstd::prelude::*;

use crate::constants::{PACKET_SIZE, TIMEOUT_MS};

verus! {

/// Holds rusb's `DeviceHandle<Context>`.  Verus refuses to declare
/// that type (its parameter is bound by rusb's `UsbContext` trait),
/// so this struct hides it; only the trusted wrappers below reach
/// inside, and code outside the library fills it when it binds a
/// device.
#[verifier::external_body]
pub struct DeviceHandleBox {
    /// The open rusb handle.
    pub inner: rusb::DeviceHandle<rusb::Context>,
}

/// Relies on rusb's `DeviceHandle::write_bulk`: on success it reports
/// how many of the buffer's bytes were written, never more than the
/// buffer holds.
#[verifier::external_body]
fn bulk_write(
    handle: &DeviceHandleBox,
    endpoint: u8,
    data: &Vec<u8>,
    timeout_ms: u64,
) -> (r: Result<usize, String>)
    ensures
        r matches Ok(n) ==> n <= data@.len(),
{
    let timeout = std::time::Duration::from_millis(timeout_ms);
    match handle.inner.write_bulk(endpoint, data.as_slice(), timeout) {
        Ok(n) => Ok(n),
        Err(e) => Err(e.to_string()),
    }
}

/// Relies on rusb's `DeviceHandle::read_bulk`: on success it reports
/// how many bytes it put at the front of the buffer, never more than
/// the buffer holds; the buffer keeps its length.
#[verifier::external_body]
fn bulk_read(
    handle: &DeviceHandleBox,
    endpoint: u8,
    data: &mut Vec<u8>,
    timeout_ms: u64,
) -> (r: Result<usize, String>)
    ensures
        final(data)@.len() == old(data)@.len(),
        r matches Ok(n) ==> n <= final(data)@.len(),
{
    let timeout = std::time::Duration::from_millis(timeout_ms);
    match handle.inner.read_bulk(endpoint, data.as_mut_slice(), timeout) {
        Ok(n) => Ok(n),
        Err(e) => Err(e.to_string()),
    }
}

/// The bulk-OUT payloads one logical transmission issues: the data
/// itself, then a zero-length payload exactly when the data is a
/// whole number of packets — the convention that tells the receiver
/// the transfer is over.
pub open spec fn spec_transmit_chunks(data: Seq<u8>) -> Seq<Seq<u8>> {
    if data.len() % (PACKET_SIZE as nat) == 0 {
        seq![data, Seq::empty()]
    } else {
        seq![data]
    }
}

/// Computes the payloads one call of `transmit` writes, in order.
pub fn transmit_chunks(data: &Vec<u8>) -> (r: Vec<Vec<u8>>)
    ensures
        r@.map_values(|c: Vec<u8>| c@) == spec_transmit_chunks(data@),
{
    let mut out: Vec<Vec<u8>> = Vec::new();
    let copy = copy_range(data, 0, data.len());
    proof {
        assert(copy@ =~= data@);
    }
    out.push(copy);
    if data.len() % PACKET_SIZE == 0 {
        out.push(Vec::new());
    }
    proof {
        assert(out@.map_values(|c: Vec<u8>| c@) =~~= spec_transmit_chunks(data@));
    }
    out
}

/// Copies `len` bytes of `src` starting at `start`.
pub fn copy_range(src: &Vec<u8>, start: usize, len: usize) -> (r: Vec<u8>)
    requires
        start + len <= src@.len(),
    ensures
        r@ == src@.subrange(start as int, start + len),
{
    let n = src.len();
    let mut out: Vec<u8> = Vec::new();
    let mut i: usize = 0;
    while i < len
        invariant
            n == src@.len(),
            start + len <= src@.len(),
            i <= len,
            out@.len() == i,
            forall|k: int| 0 <= k < i ==> out@[k] == src@[start + k],
        decreases len - i,
    {
        out.push(src[start + i]);
        i = i + 1;
    }
    proof {
        assert(out@ =~= src@.subrange(start as int, start + len));
    }
    out
}

/// A bound bulk endpoint pair on an open device.
pub struct UsbDevice {
    /// The open rusb handle with its interface claimed.
    pub handle: DeviceHandleBox,
    /// Address of the bulk-OUT endpoint.
    pub write_endpoint: u8,
    /// Address of the bulk-IN endpoint.
    pub read_endpoint: u8,
}

impl UsbDevice {
    /// Binds an open handle to its endpoint pair.
    pub fn new(handle: DeviceHandleBox, write_endpoint: u8, read_endpoint: u8) -> (r: Self)
        ensures
            r.write_endpoint == write_endpoint,
            r.read_endpoint == read_endpoint,
    {
        UsbDevice { handle, write_endpoint, read_endpoint }
    }

    /// Sends one payload on the bulk-OUT endpoint: one write per chunk
    /// of `transmit_chunks`, so a payload of whole packets is followed
    /// by a zero-length write.  A short write is a failure of its own;
    /// whether the device accepted the data only the result shows.
    pub fn transmit(&mut self, data: &Vec<u8>) -> (r: Result<bool, String>)
        ensures
            *final(self) == *old(self),
            r matches Ok(b) ==> b,
    {
        let chunks = transmit_chunks(data);
        let mut k: usize = 0;
        while k < chunks.len()
            invariant
                *self == *old(self),
            decreases chunks@.len() - k,
        {
            match bulk_write(&self.handle, self.write_endpoint, &chunks[k], TIMEOUT_MS) {
                Ok(written) => {
                    if written != chunks[k].len() {
                        return Err(String::from_str("incomplete send"));
                    }
                },
                Err(e) => {
                    return Err(e);
                },
            }
            k = k + 1;
        }
        Ok(true)
    }

    /// Reads once from the bulk-IN endpoint into the front of `data`,
    /// reporting how many bytes arrived; the buffer keeps its length,
    /// and callers must go by the count, not the buffer size.
    pub fn receive(&mut self, data: &mut Vec<u8>) -> (r: Result<usize, String>)
        ensures
            *final(self) == *old(self),
            final(data)@.len() == old(data)@.len(),
            r matches Ok(n) ==> n <= final(data)@.len(),
    {
        bulk_read(&self.handle, self.read_endpoint, data, TIMEOUT_MS)
    }

    /// Tries `transmit` up to `max_retries` times, each attempt
    /// independent; no attempts means no success.
    pub fn transmit_with_retry(&mut self, data: &Vec<u8>, max_retries: usize) -> (r: Result<
        bool,
        String,
    >)
        ensures
            *final(self) == *old(self),
            r matches Ok(b) ==> b,
            max_retries == 0 ==> r is Err,
    {
        let mut retry: usize = 0;
        while retry < max_retries
            invariant
                *self == *old(self),
            decreases max_retries - retry,
        {
            if let Ok(true) = self.transmit(data) {
                return Ok(true);
            }
            retry = retry + 1;
        }
        Err(String::from_str("transmit retries exhausted"))
    }

    /// Tries `receive` up to `max_retries` times, accepting the first
    /// attempt that brings any bytes; no attempts means no success.
    pub fn receive_with_retry(&mut self, data: &mut Vec<u8>, max_retries: usize) -> (r: Result<
        usize,
        String,
    >)
        ensures
            *final(self) == *old(self),
            final(data)@.len() == old(data)@.len(),
            r matches Ok(n) ==> 0 < n <= final(data)@.len(),
            max_retries == 0 ==> r is Err,
    {
        let mut retry: usize = 0;
        while retry < max_retries
            invariant
                *self == *old(self),
                data@.len() == old(data)@.len(),
            decreases max_retries - retry,
        {
            match self.receive(data) {
                Ok(read) => {
                    if read > 0 {
                        return Ok(read);
                    }
                },
                Err(_) => {},
            }
            retry = retry + 1;
        }
        Err(String::from_str("receive retries exhausted"))
    }
}

} // verus!

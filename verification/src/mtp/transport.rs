//! The seams between the engine and the outside: the USB transport, where
//! data-in bytes go, where data-out bytes come from, progress reports, and
//! the pause the recovery ladder takes.
use vstd::prelude::*;
use super::error::{MtpError, TransportError};

verus! {

/// A bulk-pipe transport to one MTP device. Implemented over USB by the
/// application and by scripted fakes in tests.
pub trait Transport {
    /// The max packet size of the bulk endpoints, which no transfer changes.
    spec fn packet_size(&self) -> usize;

    /// Write one bulk-OUT transfer; returns the bytes written. An empty write
    /// requests a zero-length packet.
    fn bulk_out(&mut self, data: &[u8], timeout_ms: u64) -> (r: Result<usize, TransportError>)
        ensures
            r matches Ok(n) ==> n <= data@.len(),
            final(self).packet_size() == old(self).packet_size(),
    ;

    /// Read one bulk-IN transfer of at most `max_len` bytes.
    fn bulk_in(&mut self, max_len: usize, timeout_ms: u64) -> (r: Result<Vec<u8>, TransportError>)
        ensures
            r matches Ok(v) ==> v@.len() <= max_len,
            final(self).packet_size() == old(self).packet_size(),
    ;

    /// Reset the USB device.
    fn reset(&mut self) -> (r: Result<(), TransportError>)
        ensures
            final(self).packet_size() == old(self).packet_size(),
    ;

    /// Max packet size of the bulk endpoints.
    fn max_packet_size(&self) -> (r: usize)
        ensures
            r == self.packet_size(),
    ;

    /// Release the interface and close the handle. Idempotent.
    fn close(&mut self)
        ensures
            final(self).packet_size() == old(self).packet_size(),
    ;
}

/// Where a device-to-host data phase is written.
pub trait DataSink {
    /// Everything the sink has accepted so far, in order.
    spec fn received(&self) -> Seq<u8>;

    /// Whether the sink takes everything it is offered, every time.
    spec fn takes_all(&self) -> bool;

    /// Accept a prefix of `data`; returns how much was taken, or `None` on
    /// failure, when nothing was taken. A sink that takes all takes `data`
    /// whole.
    fn write(&mut self, data: &[u8]) -> (r: Option<usize>)
        ensures
            r matches Some(n) ==> n <= data@.len(),
            final(self).received() == old(self).received() + match r {
                Some(n) => data@.take(n as int),
                None => Seq::<u8>::empty(),
            },
            final(self).takes_all() == old(self).takes_all(),
            old(self).takes_all() ==> r == Some(data@.len() as usize),
    ;
}

/// Where a host-to-device data phase is read from.
pub trait DataSource {
    /// Everything the source has yielded so far, in order.
    spec fn yielded(&self) -> Seq<u8>;

    /// The bytes the source stands for, which it yields front to back.
    spec fn content(&self) -> Seq<u8>;

    /// Whether the last read found the end of the data or failed.
    spec fn ended(&self) -> bool;

    /// Whether every read returns as many bytes as it asks for, or all that
    /// is left of the content when that is less.
    spec fn fills(&self) -> bool;

    /// Read at most `max` bytes; an empty result is the end of the data, and
    /// `None` a read failure. What is read continues what was yielded, within
    /// the content.
    fn read(&mut self, max: usize) -> (r: Option<Vec<u8>>)
        ensures
            r matches Some(v) ==> v@.len() <= max,
            final(self).yielded() == old(self).yielded() + match r {
                Some(v) => v@,
                None => Seq::<u8>::empty(),
            },
            final(self).content() == old(self).content(),
            old(self).yielded().is_prefix_of(old(self).content()) ==> final(self).yielded().is_prefix_of(
                final(self).content(),
            ),
            final(self).ended() == match r {
                Some(v) => v@.len() == 0,
                None => true,
            },
            final(self).fills() == old(self).fills(),
            (old(self).fills() && old(self).yielded().is_prefix_of(old(self).content())) ==> (r matches Some(v)
                && v@.len() == if max < old(self).content().len() - old(self).yielded().len() {
                max as int
            } else {
                old(self).content().len() - old(self).yielded().len()
            }),
    ;
}

/// Receives the running byte count of a transfer, with the object handle
/// it concerns; an error aborts the transfer.
pub trait ObjectProgress {
    /// How many reports have failed so far.
    spec fn failures(&self) -> nat;

    /// Take one report; a failed one is counted.
    fn report(&mut self, sent: u64, handle: u32) -> (r: Result<(), MtpError>)
        ensures
            final(self).failures() == old(self).failures() + if r is Err {
                1nat
            } else {
                0nat
            },
    ;
}

/// The pause the session recovery ladder takes after a reset.
pub trait Pause {
    fn pause(&mut self, millis: u64);
}

impl DataSink for Vec<u8> {
    /// The vector's contents.
    open spec fn received(&self) -> Seq<u8> {
        self@
    }

    /// A vector takes everything.
    open spec fn takes_all(&self) -> bool {
        true
    }

    /// Appends all of `data`.
    fn write(&mut self, data: &[u8]) -> (r: Option<usize>)
        ensures
            final(self)@ == old(self)@ + data@,
            r == Some(data@.len() as usize),
    {
        let mut i: usize = 0;
        while i < data.len()
            invariant
                0 <= i <= data@.len(),
                self@ == old(self)@ + data@.take(i as int),
            decreases data@.len() - i,
        {
            self.push(data[i]);
            i = i + 1;
            proof {
                assert(self@ =~= old(self)@ + data@.take(i as int));
            }
        }
        proof {
            assert(data@.take(data@.len() as int) =~= data@);
        }
        Some(data.len())
    }
}

/// A sink that accepts and discards everything.
pub struct NullSink {
    taken: Ghost<Seq<u8>>,
}

impl NullSink {
    /// A sink that has taken nothing yet.
    pub fn new() -> (s: NullSink)
        ensures
            s.received() == Seq::<u8>::empty(),
    {
        NullSink { taken: Ghost(Seq::empty()) }
    }
}

impl DataSink for NullSink {
    /// What was offered and thrown away.
    closed spec fn received(&self) -> Seq<u8> {
        self.taken@
    }

    /// It takes everything.
    open spec fn takes_all(&self) -> bool {
        true
    }

    fn write(&mut self, data: &[u8]) -> (r: Option<usize>)
        ensures
            r == Some(data@.len() as usize),
    {
        self.taken = Ghost(self.taken@ + data@);
        proof {
            assert(data@.take(data@.len() as int) =~= data@);
        }
        Some(data.len())
    }
}

/// A data source over an in-memory buffer, read front to back.
pub struct SliceSource {
    data: Vec<u8>,
    pos: usize,
    done: Ghost<bool>,
}

impl SliceSource {
    /// A source that yields `data`.
    pub fn new(data: Vec<u8>) -> (s: SliceSource)
        ensures
            s.remaining() == data@,
            s.content() == data@,
            s.yielded() == Seq::<u8>::empty(),
            s.fills(),
    {
        let s = SliceSource { data, pos: 0, done: Ghost(false) };
        proof {
            assert(s.data@.take(0) =~= Seq::<u8>::empty());
        }
        s
    }

    /// The bytes not yet read.
    pub closed spec fn remaining(&self) -> Seq<u8> {
        if self.pos <= self.data@.len() {
            self.data@.skip(self.pos as int)
        } else {
            Seq::empty()
        }
    }
}

impl DataSource for SliceSource {
    /// The bytes read so far.
    closed spec fn yielded(&self) -> Seq<u8> {
        if self.pos <= self.data@.len() {
            self.data@.take(self.pos as int)
        } else {
            self.data@
        }
    }

    /// The buffer it reads from.
    closed spec fn content(&self) -> Seq<u8> {
        self.data@
    }

    /// Whether the last read returned nothing.
    closed spec fn ended(&self) -> bool {
        self.done@
    }

    /// A buffer yields all that is asked of it while it lasts.
    closed spec fn fills(&self) -> bool {
        true
    }

    /// Yields the next `max` bytes, or what is left.
    fn read(&mut self, max: usize) -> (r: Option<Vec<u8>>)
        ensures
            r matches Some(v) && v@ == old(self).remaining().take(
                if max < old(self).remaining().len() { max as int } else { old(self).remaining().len() as int },
            ),
            final(self).remaining() == old(self).remaining().skip(
                if max < old(self).remaining().len() { max as int } else { old(self).remaining().len() as int },
            ),
    {
        let len = self.data.len();
        let start = if self.pos < len { self.pos } else { len };
        let left = len - start;
        let take = if max < left { max } else { left };
        let data = &self.data;
        let mut v: Vec<u8> = Vec::new();
        let mut i: usize = 0;
        while i < take
            invariant
                0 <= i <= take,
                start + take <= data@.len(),
                len == data@.len(),
                v@ == data@.subrange(start as int, start + i),
            decreases take - i,
        {
            v.push(data[start + i]);
            i = i + 1;
            proof {
                assert(v@ =~= data@.subrange(start as int, start + i));
            }
        }
        self.pos = start + take;
        self.done = Ghost(take == 0);
        proof {
            assert(v@ =~= old(self).remaining().take(take as int));
            assert(self.remaining() =~= old(self).remaining().skip(take as int));
            assert(self.yielded() =~= old(self).yielded() + v@);
            assert(self.yielded() =~= self.data@.subrange(0, self.yielded().len() as int));
        }
        Some(v)
    }
}

/// A progress receiver that ignores every report.
pub struct NoProgress;

impl ObjectProgress for NoProgress {
    /// None ever fails.
    open spec fn failures(&self) -> nat {
        0
    }

    fn report(&mut self, sent: u64, handle: u32) -> (r: Result<(), MtpError>)
        ensures
            r is Ok,
    {
        Ok(())
    }
}

} // verus!

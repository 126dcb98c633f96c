//! A raw serial device modelled as a value.
//!
//! [`ScriptPort`] stands for the OS-level non-blocking port: a queue of
//! scripted per-attempt behaviours (would-block, spurious timeout, data,
//! fatal fault) consumed from the front, and a bounded loopback buffer fed
//! from the back by writes. Every byte the device ever made available and
//! every byte it ever delivered to a reader are tracked, and the device
//! invariant says no byte is dropped or reordered: what was fed equals what
//! was delivered followed by what is still pending.

use vstd::prelude::*;

use crate::outcome::RawResult;

verus! {

/// One scripted behaviour of the raw device on a single read attempt.
#[derive(Debug)]
pub enum ReadEvent {
    /// No data is available; the attempt would block.
    Block,
    /// The device reports a spurious physical timeout with this OS code.
    Timeout(i32),
    /// The device delivers these bytes.
    Data(Vec<u8>),
    /// The device fails fatally with this OS code.
    Fault(i32),
}

/// Ghost description of what one read call on a non-blocking handle
/// resolves to once every leading spurious timeout has been absorbed.
#[verifier::ext_equal]
pub enum ReadModel {
    /// The call succeeds and delivers exactly these bytes.
    Got(Seq<u8>),
    /// The device genuinely has no data; the caller must wait.
    Blocked,
    /// The device failed with this OS code.
    Faulted(i32),
}

/// The bytes an event makes available: a data chunk's contents, else none.
pub open spec fn chunk_of(e: ReadEvent) -> Seq<u8> {
    match e {
        ReadEvent::Data(d) => d@,
        _ => Seq::empty(),
    }
}

/// The bytes still pending in a script: the concatenation of every data
/// chunk not yet consumed, in device order.
pub open spec fn pending_bytes(s: Seq<ReadEvent>) -> Seq<u8>
    decreases s.len(),
{
    if s.len() == 0 {
        Seq::empty()
    } else {
        chunk_of(s[0]) + pending_bytes(s.skip(1))
    }
}

/// What one read call resolves to on this script: leading timeouts are
/// absorbed, then the first genuine event decides; an exhausted script
/// reports would-block.
pub open spec fn read_model(s: Seq<ReadEvent>) -> ReadModel
    decreases s.len(),
{
    if s.len() == 0 {
        ReadModel::Blocked
    } else {
        match s[0] {
            ReadEvent::Timeout(_) => read_model(s.skip(1)),
            ReadEvent::Block => ReadModel::Blocked,
            ReadEvent::Data(d) => ReadModel::Got(d@),
            ReadEvent::Fault(code) => ReadModel::Faulted(code),
        }
    }
}

/// How many script events one read call consumes: every leading timeout
/// and, if one follows, the first genuine event.
pub open spec fn read_consumed(s: Seq<ReadEvent>) -> nat
    decreases s.len(),
{
    if s.len() == 0 {
        0
    } else {
        match s[0] {
            ReadEvent::Timeout(_) => 1 + read_consumed(s.skip(1)),
            _ => 1,
        }
    }
}

/// How many raw attempts one read call makes on this script: one per
/// leading timeout, plus the final deciding attempt.
pub open spec fn read_attempts(s: Seq<ReadEvent>) -> nat
    decreases s.len(),
{
    if s.len() == 0 {
        1
    } else {
        match s[0] {
            ReadEvent::Timeout(_) => 1 + read_attempts(s.skip(1)),
            _ => 1,
        }
    }
}

/// Splitting a script splits its pending bytes.
pub proof fn lemma_pending_bytes_concat(a: Seq<ReadEvent>, b: Seq<ReadEvent>)
    ensures
        pending_bytes(a + b) == pending_bytes(a) + pending_bytes(b),
    decreases a.len(),
{
    if a.len() == 0 {
        assert(a + b =~= b);
        assert(pending_bytes(a) + pending_bytes(b) =~= pending_bytes(b));
    } else {
        assert((a + b)[0] == a[0]);
        assert((a + b).skip(1) =~= a.skip(1) + b);
        lemma_pending_bytes_concat(a.skip(1), b);
        assert(chunk_of(a[0]) + (pending_bytes(a.skip(1)) + pending_bytes(b)) =~= (chunk_of(
            a[0],
        ) + pending_bytes(a.skip(1))) + pending_bytes(b));
    }
}

/// Appending an event to a script appends that event's bytes to the
/// pending bytes.
pub proof fn lemma_pending_bytes_push(s: Seq<ReadEvent>, e: ReadEvent)
    ensures
        pending_bytes(s.push(e)) == pending_bytes(s) + chunk_of(e),
{
    assert(s.push(e) =~= s + seq![e]);
    lemma_pending_bytes_concat(s, seq![e]);
    assert(seq![e].skip(1) =~= Seq::<ReadEvent>::empty());
    assert(pending_bytes(seq![e]) == chunk_of(seq![e][0]) + pending_bytes(seq![e].skip(1)));
    assert(pending_bytes(Seq::<ReadEvent>::empty()) == Seq::<u8>::empty());
    assert(chunk_of(e) + Seq::<u8>::empty() =~= chunk_of(e));
    assert(pending_bytes(s) + pending_bytes(seq![e]) =~= pending_bytes(s) + chunk_of(e));
}

/// One read call consumes at most the whole script, and attempts at most
/// one raw read beyond what it consumes.
pub proof fn lemma_read_bounds(s: Seq<ReadEvent>)
    ensures
        read_consumed(s) <= s.len(),
        read_attempts(s) <= s.len() + 1,
    decreases s.len(),
{
    if s.len() > 0 && s[0] is Timeout {
        lemma_read_bounds(s.skip(1));
    }
}

/// A read attempt on a device that reports would-block never succeeds,
/// never retries silently, and resolves to the not-ready signal on the
/// very first raw attempt.
pub proof fn would_block_is_immediate(s: Seq<ReadEvent>)
    requires
        s.len() == 0 || s[0] is Block,
    ensures
        read_model(s) is Blocked,
        read_attempts(s) == 1,
        read_consumed(s) <= 1,
{
}

/// A device that reports a spurious timeout `n` times and then delivers a
/// data chunk: one read call returns exactly that chunk, makes `n + 1` raw
/// attempts, and surfaces no would-block and no error in between.
pub proof fn timeouts_are_absorbed(s: Seq<ReadEvent>, n: int, d: Seq<u8>)
    requires
        0 <= n < s.len(),
        forall|i: int| 0 <= i < n ==> s[i] is Timeout,
        s[n] is Data,
        chunk_of(s[n]) == d,
    ensures
        read_model(s) == ReadModel::Got(d),
        read_attempts(s) == n + 1,
        read_consumed(s) == n + 1,
    decreases n,
{
    if n == 0 {
    } else {
        assert(s[0] is Timeout);
        let t = s.skip(1);
        assert forall|i: int| 0 <= i < n - 1 implies t[i] is Timeout by {
            assert(t[i] == s[i + 1]);
        }
        assert(t[n - 1] == s[n]);
        timeouts_are_absorbed(t, n - 1, d);
    }
}

/// The raw serial device, modelled as a value: scripted read behaviour at
/// the front, a bounded loopback write buffer at the back.
pub struct ScriptPort {
    /// The behaviours the device will report, oldest first.
    events: Vec<ReadEvent>,
    /// Total length of the data chunks currently in `events`.
    pending: usize,
    /// The device buffer bound: `pending` never exceeds it.
    capacity: usize,
    /// How many raw read attempts were ever made on this device.
    attempts: usize,
    /// Every byte the device ever made available, oldest first.
    fed: Ghost<Seq<u8>>,
    /// Every byte the device ever delivered to a reader, oldest first.
    delivered: Ghost<Seq<u8>>,
}

impl ScriptPort {
    /// The behaviours the device will report next, oldest first.
    pub closed spec fn script(self) -> Seq<ReadEvent> {
        self.events@
    }

    /// The device buffer bound.
    pub closed spec fn capacity_of(self) -> nat {
        self.capacity as nat
    }

    /// How many raw read attempts were ever made on this device.
    pub closed spec fn attempts_of(self) -> nat {
        self.attempts as nat
    }

    /// Every byte the device ever made available, oldest first.
    pub closed spec fn fed(self) -> Seq<u8> {
        self.fed@
    }

    /// Every byte the device ever delivered to a reader, oldest first.
    pub closed spec fn delivered(self) -> Seq<u8> {
        self.delivered@
    }

    /// The device invariant: no byte is dropped or reordered — everything
    /// ever fed is what was delivered followed by what is still pending —
    /// and the pending bytes respect the buffer bound.
    pub closed spec fn wf(self) -> bool {
        &&& self.fed@ == self.delivered@ + pending_bytes(self.events@)
        &&& self.pending == pending_bytes(self.events@).len()
        &&& self.pending <= self.capacity
    }

    /// A fresh device with an empty script and this buffer bound.
    pub fn new(capacity: usize) -> (p: ScriptPort)
        ensures
            p.wf(),
            p.script() == Seq::<ReadEvent>::empty(),
            pending_bytes(p.script()) == Seq::<u8>::empty(),
            p.capacity_of() == capacity,
            p.attempts_of() == 0,
            p.fed() == Seq::<u8>::empty(),
            p.delivered() == Seq::<u8>::empty(),
    {
        let p = ScriptPort {
            events: Vec::new(),
            pending: 0,
            capacity,
            attempts: 0,
            fed: Ghost(Seq::empty()),
            delivered: Ghost(Seq::empty()),
        };
        proof {
            assert(p.delivered@ + pending_bytes(p.events@) =~= Seq::<u8>::empty());
        }
        p
    }

    /// How many raw read attempts were ever made on this device.
    pub fn attempts(&self) -> (n: usize)
        ensures
            n == self.attempts_of(),
    {
        self.attempts
    }

    /// The device buffer bound.
    pub fn capacity(&self) -> (n: usize)
        ensures
            n == self.capacity_of(),
    {
        self.capacity
    }

    /// How many scripted behaviours are still queued.
    pub fn script_len(&self) -> (n: usize)
        ensures
            n == self.script().len(),
    {
        self.events.len()
    }

    /// How many bytes are pending in the device buffer.
    pub fn pending_len(&self) -> (n: usize)
        requires
            self.wf(),
        ensures
            n == pending_bytes(self.script()).len(),
    {
        self.pending
    }

    /// Scripts a would-block report.
    pub fn push_block(&mut self)
        requires
            old(self).wf(),
        ensures
            final(self).wf(),
            final(self).script() == old(self).script().push(ReadEvent::Block),
            pending_bytes(final(self).script()) == pending_bytes(old(self).script()),
            final(self).capacity_of() == old(self).capacity_of(),
            final(self).attempts_of() == old(self).attempts_of(),
            final(self).fed() == old(self).fed(),
            final(self).delivered() == old(self).delivered(),
    {
        proof {
            lemma_pending_bytes_push(self.events@, ReadEvent::Block);
            assert(pending_bytes(self.events@) + chunk_of(ReadEvent::Block) =~= pending_bytes(
                self.events@,
            ));
        }
        self.events.push(ReadEvent::Block);
    }

    /// Scripts a spurious physical timeout with this OS code.
    pub fn push_timeout(&mut self, code: i32)
        requires
            old(self).wf(),
        ensures
            final(self).wf(),
            final(self).script() == old(self).script().push(ReadEvent::Timeout(code)),
            pending_bytes(final(self).script()) == pending_bytes(old(self).script()),
            final(self).capacity_of() == old(self).capacity_of(),
            final(self).attempts_of() == old(self).attempts_of(),
            final(self).fed() == old(self).fed(),
            final(self).delivered() == old(self).delivered(),
    {
        proof {
            lemma_pending_bytes_push(self.events@, ReadEvent::Timeout(code));
            assert(pending_bytes(self.events@) + chunk_of(ReadEvent::Timeout(code))
                =~= pending_bytes(self.events@));
        }
        self.events.push(ReadEvent::Timeout(code));
    }

    /// Scripts a fatal device fault with this OS code.
    pub fn push_fault(&mut self, code: i32)
        requires
            old(self).wf(),
        ensures
            final(self).wf(),
            final(self).script() == old(self).script().push(ReadEvent::Fault(code)),
            pending_bytes(final(self).script()) == pending_bytes(old(self).script()),
            final(self).capacity_of() == old(self).capacity_of(),
            final(self).attempts_of() == old(self).attempts_of(),
            final(self).fed() == old(self).fed(),
            final(self).delivered() == old(self).delivered(),
    {
        proof {
            lemma_pending_bytes_push(self.events@, ReadEvent::Fault(code));
            assert(pending_bytes(self.events@) + chunk_of(ReadEvent::Fault(code)) =~= pending_bytes(
                self.events@,
            ));
        }
        self.events.push(ReadEvent::Fault(code));
    }

    /// Scripts the device making these bytes available as one chunk.
    pub fn push_data(&mut self, bytes: Vec<u8>)
        requires
            old(self).wf(),
            pending_bytes(old(self).script()).len() + bytes@.len() <= old(self).capacity_of(),
        ensures
            final(self).wf(),
            final(self).script() == old(self).script().push(ReadEvent::Data(bytes)),
            pending_bytes(final(self).script()) == pending_bytes(old(self).script()) + bytes@,
            final(self).capacity_of() == old(self).capacity_of(),
            final(self).attempts_of() == old(self).attempts_of(),
            final(self).fed() == old(self).fed() + bytes@,
            final(self).delivered() == old(self).delivered(),
    {
        proof {
            lemma_pending_bytes_push(self.events@, ReadEvent::Data(bytes));
        }
        let ghost b = bytes@;
        self.pending = self.pending + bytes.len();
        self.fed = Ghost(self.fed@ + b);
        self.events.push(ReadEvent::Data(bytes));
        proof {
            assert(self.fed@ =~= self.delivered@ + pending_bytes(self.events@));
        }
    }

    /// One raw non-blocking read attempt: consumes and returns the front
    /// scripted behaviour; an exhausted script reports would-block. The
    /// bytes of a data chunk count as delivered to the reader.
    pub fn raw_read(&mut self) -> (e: ReadEvent)
        requires
            old(self).wf(),
            old(self).attempts_of() < usize::MAX,
        ensures
            final(self).wf(),
            final(self).capacity_of() == old(self).capacity_of(),
            final(self).attempts_of() == old(self).attempts_of() + 1,
            final(self).fed() == old(self).fed(),
            old(self).script().len() == 0 ==> {
                &&& e is Block
                &&& final(self).script() == old(self).script()
                &&& final(self).delivered() == old(self).delivered()
            },
            old(self).script().len() > 0 ==> {
                &&& e == old(self).script()[0]
                &&& final(self).script() == old(self).script().skip(1)
                &&& final(self).delivered() == old(self).delivered() + chunk_of(
                    old(self).script()[0],
                )
            },
    {
        self.attempts = self.attempts + 1;
        if self.events.len() == 0 {
            proof {
                assert(old(self).delivered() + chunk_of(ReadEvent::Block) =~= old(
                    self,
                ).delivered());
            }
            ReadEvent::Block
        } else {
            let e = self.events.remove(0);
            proof {
                assert(self.events@ =~= old(self).events@.skip(1));
            }
            match &e {
                ReadEvent::Data(d) => {
                    proof {
                        assert(pending_bytes(old(self).events@) == chunk_of(old(self).events@[0])
                            + pending_bytes(self.events@));
                    }
                    self.pending = self.pending - d.len();
                    self.delivered = Ghost(self.delivered@ + d@);
                    proof {
                        assert(self.fed@ =~= self.delivered@ + pending_bytes(self.events@));
                    }
                },
                _ => {
                    proof {
                        assert(pending_bytes(old(self).events@) == chunk_of(old(self).events@[0])
                            + pending_bytes(self.events@));
                        assert(chunk_of(old(self).events@[0]) + pending_bytes(self.events@)
                            =~= pending_bytes(self.events@));
                        assert(self.delivered@ + chunk_of(old(self).events@[0])
                            =~= self.delivered@);
                    }
                },
            }
            e
        }
    }

    /// How many bytes one raw write of `len` bytes accepts here: as many
    /// as the free part of the buffer bound allows.
    pub open spec fn write_accepts(self, len: nat) -> int {
        let free = self.capacity_of() - pending_bytes(self.script()).len();
        if len <= free {
            len as int
        } else {
            free as int
        }
    }

    /// One raw non-blocking write attempt: accepts as many of the bytes as
    /// the buffer bound allows, appending them as one pending data chunk,
    /// and reports how many were accepted; a full buffer would block. No
    /// byte is ever silently dropped: bytes beyond the accepted count are
    /// left for the caller to retry.
    pub fn raw_write(&mut self, data: &Vec<u8>) -> (r: RawResult)
        requires
            old(self).wf(),
        ensures
            final(self).wf(),
            final(self).capacity_of() == old(self).capacity_of(),
            final(self).attempts_of() == old(self).attempts_of(),
            final(self).delivered() == old(self).delivered(),
            r is Transferred || r is WouldBlock,
            0 <= old(self).write_accepts(data@.len()) <= data@.len(),
            data@.len() == 0 ==> {
                &&& r == RawResult::Transferred(0)
                &&& final(self).script() == old(self).script()
                &&& final(self).fed() == old(self).fed()
            },
            data@.len() > 0 && old(self).write_accepts(data@.len()) == 0 ==> {
                &&& r == RawResult::WouldBlock
                &&& final(self).script() == old(self).script()
                &&& final(self).fed() == old(self).fed()
            },
            data@.len() > 0 && old(self).write_accepts(data@.len()) > 0 ==> {
                let k = old(self).write_accepts(data@.len());
                &&& r == RawResult::Transferred(k as usize)
                &&& final(self).script().len() == old(self).script().len() + 1
                &&& final(self).script() == old(self).script().push(final(self).script().last())
                &&& final(self).script().last() is Data
                &&& chunk_of(final(self).script().last()) == data@.take(k)
                &&& final(self).fed() == old(self).fed() + data@.take(k)
            },
    {
        if data.len() == 0 {
            return RawResult::Transferred(0);
        }
        let free = self.capacity - self.pending;
        if free == 0 {
            return RawResult::WouldBlock;
        }
        let k = if data.len() <= free {
            data.len()
        } else {
            free
        };
        let chunk = copy_prefix(data, k);
        let ghost accepted = data@.take(k as int);
        proof {
            lemma_pending_bytes_push(self.events@, ReadEvent::Data(chunk));
        }
        self.pending = self.pending + k;
        self.fed = Ghost(self.fed@ + accepted);
        self.events.push(ReadEvent::Data(chunk));
        proof {
            assert(self.fed@ =~= self.delivered@ + pending_bytes(self.events@));
        }
        RawResult::Transferred(k)
    }

} // impl

/// The byte stream round-trips: at every moment the bytes delivered to
/// readers are a prefix of the bytes fed in, in device order, and whenever
/// nothing is pending the two are equal — no byte is dropped, duplicated
/// or reordered between writes and the reads that drain them.
pub proof fn round_trip(p: ScriptPort)
    requires
        p.wf(),
    ensures
        p.delivered() == p.fed().take(p.delivered().len() as int),
        pending_bytes(p.script()).len() == 0 ==> p.delivered() == p.fed(),
{
    assert(p.fed().take(p.delivered().len() as int) =~= p.delivered());
    if pending_bytes(p.script()).len() == 0 {
        assert(p.delivered() + pending_bytes(p.script()) =~= p.delivered());
    }
}

/// The bytes of `data` from position `from` on, as a fresh vector.
pub fn copy_suffix(data: &Vec<u8>, from: usize) -> (r: Vec<u8>)
    requires
        from <= data@.len(),
    ensures
        r@ == data@.skip(from as int),
{
    let mut r: Vec<u8> = Vec::new();
    let mut i: usize = from;
    while i < data.len()
        invariant
            from <= i <= data@.len(),
            r@ == data@.subrange(from as int, i as int),
        decreases data@.len() - i,
    {
        r.push(data[i]);
        proof {
            assert(data@.subrange(from as int, i as int).push(data@[i as int]) =~= data@.subrange(
                from as int,
                i + 1,
            ));
        }
        i = i + 1;
    }
    proof {
        assert(data@.subrange(from as int, data@.len() as int) =~= data@.skip(from as int));
    }
    r
}

/// The first `k` bytes of `data`, as a fresh vector.
pub fn copy_prefix(data: &Vec<u8>, k: usize) -> (r: Vec<u8>)
    requires
        k <= data@.len(),
    ensures
        r@ == data@.take(k as int),
{
    let mut r: Vec<u8> = Vec::new();
    let mut i: usize = 0;
    while i < k
        invariant
            i <= k,
            k <= data@.len(),
            r@ == data@.take(i as int),
        decreases k - i,
    {
        r.push(data[i]);
        proof {
            assert(data@.take(i as int).push(data@[i as int]) =~= data@.take(i + 1));
        }
        i = i + 1;
    }
    r
}

} // verus!

use vstd::prelude::*;

use std::collections::VecDeque;
use vstd::string::StringSliceAdditionalSpecFns;

use crate::browser_cli::clone_string;
use crate::text::contains_seq;
use crate::text::contains_str;
use crate::text::str_eq;

verus! {

// ---------------------------------------------------------------------------
// Output retained for a process run by the browser host
// ---------------------------------------------------------------------------

/// At most this many output chunks are kept per process.
pub open spec fn retained_events_limit() -> int {
    512
}

/// At most this many output bytes are kept per process.
pub open spec fn retained_bytes_limit() -> int {
    0x10_0000
}

#[derive(Debug, Clone, Copy, PartialEq, Eq, Structural)]
pub enum ExecOutputStream {
    Stdout,
    Stderr,
}

/// A piece of a process's output with its sequence number.
#[derive(Debug)]
pub struct OutputChunk {
    pub seq: u64,
    pub stream: ExecOutputStream,
    pub chunk: Vec<u8>,
}

/// A chunk as the specification sees it: sequence number, stream, bytes.
pub type ChunkView = (u64, ExecOutputStream, Seq<u8>);

pub open spec fn chunk_len(c: ChunkView) -> int {
    c.2.len() as int
}

pub open spec fn chunk_views(s: Seq<OutputChunk>) -> Seq<ChunkView> {
    s.map_values(|c: OutputChunk| (c.seq, c.stream, c.chunk@))
}

/// The total size of the chunks.
pub open spec fn total_bytes(s: Seq<ChunkView>) -> int
    decreases s.len(),
{
    if s.len() == 0 {
        0
    } else {
        total_bytes(s.drop_last()) + chunk_len(s.last())
    }
}

/// The output that stays after a chunk is added: the oldest chunks go
/// until both limits hold again.
pub open spec fn evict(s: Seq<ChunkView>) -> Seq<ChunkView>
    decreases s.len(),
{
    if s.len() > 0 && (s.len() > retained_events_limit() || total_bytes(s)
        > retained_bytes_limit()) {
        evict(s.drop_first())
    } else {
        s
    }
}

fn clone_chunk(c: &OutputChunk) -> (r: OutputChunk)
    ensures
        r.seq == c.seq,
        r.stream == c.stream,
        r.chunk@ == c.chunk@,
{
    let mut bytes: Vec<u8> = Vec::new();
    let mut i: usize = 0;
    while i < c.chunk.len()
        invariant
            i <= c.chunk@.len(),
            bytes@ == c.chunk@.subrange(0, i as int),
        decreases c.chunk.len() - i,
    {
        bytes.push(c.chunk[i]);
        i = i + 1;
        assert(bytes@ =~= c.chunk@.subrange(0, i as int));
    }
    assert(bytes@ =~= c.chunk@);
    OutputChunk { seq: c.seq, stream: c.stream, chunk: bytes }
}

/// What a read of a process's output returns.
#[derive(Debug)]
pub struct ReadResponse {
    pub chunks: Vec<OutputChunk>,
    pub next_seq: u64,
    pub exited: bool,
    pub exit_code: Option<i32>,
    pub closed: bool,
    pub failure: Option<String>,
}

/// The chunks a read returns: those after `after_seq` (all without one),
/// oldest first, stopping before the first chunk that would start once
/// `max_bytes` bytes have been taken (no limit without one). `taken` counts
/// the bytes taken so far.
pub open spec fn snapshot_chunks(
    s: Seq<ChunkView>,
    after_seq: Option<u64>,
    max_bytes: Option<usize>,
    taken: int,
) -> Seq<ChunkView>
    decreases s.len(),
{
    if s.len() == 0 {
        Seq::empty()
    } else {
        let c = s[0];
        let passes = match after_seq {
            Some(after) => c.0 > after,
            None => true,
        };
        if !passes {
            snapshot_chunks(s.drop_first(), after_seq, max_bytes, taken)
        } else if max_bytes matches Some(m) && taken >= m {
            Seq::empty()
        } else {
            seq![c] + snapshot_chunks(
                s.drop_first(),
                after_seq,
                max_bytes,
                taken + chunk_len(c),
            )
        }
    }
}

/// What `exit` does: a closed process is left as it was and numbers no
/// event; otherwise the exit and close events take the next two numbers,
/// the exit code is kept and the process is closed, output and failure
/// unchanged.
pub open spec fn exit_effect(
    before: ProcessOutputState,
    after: ProcessOutputState,
    exit_code: i32,
    r: Option<(u64, u64)>,
) -> bool {
    if before.closed_spec() {
        r is None && after == before
    } else {
        &&& r == Some((before.next_seq_spec(), (before.next_seq_spec() + 1) as u64))
        &&& after.next_seq_spec() == before.next_seq_spec() + 2
        &&& after.exit_code_spec() == Some(exit_code)
        &&& after.closed_spec()
        &&& after.output_spec() == before.output_spec()
        &&& after.failure_spec() == before.failure_spec()
    }
}

/// What `fail` does: a closed process is left as it was and numbers no
/// event; otherwise the failure event takes the next number, the message is
/// kept and the process is closed, output and exit code unchanged.
pub open spec fn fail_effect(
    before: ProcessOutputState,
    after: ProcessOutputState,
    message: Seq<char>,
    r: Option<u64>,
) -> bool {
    if before.closed_spec() {
        r is None && after == before
    } else {
        &&& r == Some(before.next_seq_spec())
        &&& after.next_seq_spec() == before.next_seq_spec() + 1
        &&& after.failure_spec() == Some(message)
        &&& after.closed_spec()
        &&& after.exit_code_spec() == before.exit_code_spec()
        &&& after.output_spec() == before.output_spec()
    }
}

/// The retained output of a process: within both limits, with sequence
/// numbers that rise and stay below `next`.
pub open spec fn output_invariant(out: Seq<ChunkView>, next: u64) -> bool {
    &&& out.len() <= retained_events_limit()
    &&& total_bytes(out) <= retained_bytes_limit()
    &&& forall|i: int, j: int| 0 <= i < j < out.len() ==> #[trigger] out[i].0 < #[trigger] out[j].0
    &&& forall|i: int| 0 <= i < out.len() ==> #[trigger] out[i].0 < next
}

/// Whether keeping all of `s` would break one of the limits.
pub open spec fn over_limits(s: Seq<ChunkView>) -> bool {
    s.len() > retained_events_limit() || total_bytes(s) > retained_bytes_limit()
}

/// The output, exit status and failure of a process run by the host.
pub struct ProcessOutputState {
    output: VecDeque<OutputChunk>,
    retained_bytes: usize,
    next_seq: u64,
    exit_code: Option<i32>,
    closed: bool,
    failure: Option<String>,
}

impl View for ProcessOutputState {
    type V = ProcessOutputState;

    open spec fn view(&self) -> ProcessOutputState {
        *self
    }
}

impl ProcessOutputState {
    /// The next sequence number.
    pub fn next_seq(&self) -> (r: u64)
        ensures
            r == self.next_seq_spec(),
    {
        self.next_seq
    }

    pub closed spec fn output_spec(&self) -> Seq<ChunkView> {
        chunk_views(self.output@)
    }

    pub closed spec fn next_seq_spec(&self) -> u64 {
        self.next_seq
    }

    pub closed spec fn exit_code_spec(&self) -> Option<i32> {
        self.exit_code
    }

    pub closed spec fn closed_spec(&self) -> bool {
        self.closed
    }

    pub closed spec fn failure_spec(&self) -> Option<Seq<char>> {
        match self.failure {
            Some(f) => Some(f@),
            None => None,
        }
    }

    /// The retained output stays within both limits, its sequence numbers
    /// rise and stay below the next one, and the byte count is exact.
    pub closed spec fn wf(&self) -> bool {
        &&& self.retained_bytes == total_bytes(chunk_views(self.output@))
        &&& self.output@.len() <= retained_events_limit()
        &&& self.retained_bytes <= retained_bytes_limit()
        &&& self.next_seq >= 1
        &&& forall|i: int, j: int|
            0 <= i < j < self.output@.len() ==> #[trigger] self.output@[i].seq
                < #[trigger] self.output@[j].seq
        &&& forall|i: int| 0 <= i < self.output@.len() ==> #[trigger] self.output@[i].seq
            < self.next_seq
    }

    /// A well-formed state's retained output meets the output invariant.
    pub proof fn lemma_wf_output_invariant(&self)
        requires
            self.wf(),
        ensures
            output_invariant(self.output_spec(), self.next_seq_spec()),
    {
        let v = chunk_views(self.output@);
        assert forall|i: int, j: int| 0 <= i < j < v.len() implies #[trigger] v[i].0
            < #[trigger] v[j].0 by {
            assert(v[i].0 == self.output@[i].seq);
            assert(v[j].0 == self.output@[j].seq);
        }
        assert forall|i: int| 0 <= i < v.len() implies #[trigger] v[i].0 < self.next_seq by {
            assert(v[i].0 == self.output@[i].seq);
        }
    }

    /// A process that has produced nothing: the first chunk gets number 1.
    pub fn new() -> (r: Self)
        ensures
            r.wf(),
            r.output_spec().len() == 0,
            r.next_seq_spec() == 1,
            r.exit_code_spec() is None,
            !r.closed_spec(),
            r.failure_spec() is None,
    {
        ProcessOutputState {
            output: VecDeque::new(),
            retained_bytes: 0,
            next_seq: 1,
            exit_code: None,
            closed: false,
            failure: None,
        }
    }

    /// Records a chunk of output under the next sequence number, dropping
    /// the oldest chunks while more than 512 chunks or more than 1 MiB are
    /// kept; returns the chunk for the process's event log.
    pub fn push_output(&mut self, stream: ExecOutputStream, bytes: Vec<u8>) -> (r: OutputChunk)
        requires
            old(self).wf(),
            old(self).next_seq_spec() < u64::MAX,
            bytes@.len() <= u64::MAX - retained_bytes_limit(),
        ensures
            final(self).wf(),
            r.seq == old(self).next_seq_spec(),
            r.stream == stream,
            r.chunk@ == bytes@,
            final(self).next_seq_spec() == old(self).next_seq_spec() + 1,
            final(self).output_spec() == evict(
                old(self).output_spec().push((old(self).next_seq_spec(), stream, bytes@)),
            ),
            final(self).exit_code_spec() == old(self).exit_code_spec(),
            final(self).closed_spec() == old(self).closed_spec(),
            final(self).failure_spec() == old(self).failure_spec(),
    {
        let seq = self.next_seq;
        self.next_seq = self.next_seq + 1;
        let chunk = OutputChunk { seq, stream, chunk: bytes };
        let kept = clone_chunk(&chunk);
        let ghost pushed = self.output@.push(chunk);
        assert(chunk_views(pushed) =~= chunk_views(self.output@).push((seq, stream, chunk.chunk@)));
        assert(total_bytes(chunk_views(pushed)) == total_bytes(chunk_views(self.output@))
            + chunk.chunk@.len()) by {
            assert(chunk_views(pushed).drop_last() =~= chunk_views(self.output@));
        }
        assert(chunk.chunk@.len() == chunk.chunk.len());
        let total: u64 = self.retained_bytes as u64 + chunk.chunk.len() as u64;
        self.output.push_back(chunk);
        assert(self.output@ == pushed);
        let remaining = evict_oldest(&mut self.output, total);
        proof {
            let k = pushed.len() - self.output@.len();
            assert forall|i: int, j: int|
                0 <= i < j < self.output@.len() implies #[trigger] self.output@[i].seq
                < #[trigger] self.output@[j].seq by {
                assert(self.output@[i] == pushed[i + k]);
                assert(self.output@[j] == pushed[j + k]);
                if j + k == pushed.len() - 1 {
                    assert(pushed[i + k] == old(self).output@[i + k]);
                } else {
                    assert(pushed[i + k] == old(self).output@[i + k]);
                    assert(pushed[j + k] == old(self).output@[j + k]);
                }
            }
            assert forall|i: int| 0 <= i < self.output@.len() implies #[trigger] self.output@[i].seq
                < self.next_seq by {
                assert(self.output@[i] == pushed[i + k]);
                if i + k < pushed.len() - 1 {
                    assert(pushed[i + k] == old(self).output@[i + k]);
                }
            }
        }
        self.retained_bytes = remaining as usize;
        kept
    }

    /// Records the exit code and closes the process, numbering both events;
    /// returns their sequence numbers, or `None` (changing nothing) when the
    /// process was already closed.
    pub fn exit(&mut self, exit_code: i32) -> (r: Option<(u64, u64)>)
        requires
            old(self).wf(),
            old(self).next_seq_spec() < u64::MAX - 1,
        ensures
            final(self).wf(),
            exit_effect(*old(self), *final(self), exit_code, r),
    {
        if self.closed {
            return None;
        }
        let exit_seq = self.next_seq;
        self.next_seq = self.next_seq + 1;
        self.exit_code = Some(exit_code);
        let closed_seq = self.next_seq;
        self.next_seq = self.next_seq + 1;
        self.closed = true;
        Some((exit_seq, closed_seq))
    }

    /// Records a failure and closes the process, numbering the event;
    /// returns its sequence number, or `None` (changing nothing) when the
    /// process was already closed.
    pub fn fail(&mut self, message: String) -> (r: Option<u64>)
        requires
            old(self).wf(),
            old(self).next_seq_spec() < u64::MAX,
        ensures
            final(self).wf(),
            fail_effect(*old(self), *final(self), message@, r),
    {
        if self.closed {
            return None;
        }
        self.failure = Some(message);
        self.closed = true;
        let seq = self.next_seq;
        self.next_seq = self.next_seq + 1;
        Some(seq)
    }

    /// The output after `after_seq` within the byte budget (see
    /// `snapshot_chunks`), with the next sequence number and the exit and
    /// failure status.
    pub fn read_snapshot(&self, after_seq: Option<u64>, max_bytes: Option<usize>) -> (r:
        ReadResponse)
        requires
            self.wf(),
        ensures
            chunk_views(r.chunks@) == snapshot_chunks(self.output_spec(), after_seq, max_bytes, 0),
            r.next_seq == self.next_seq_spec(),
            r.exited == self.exit_code_spec() is Some,
            r.exit_code == self.exit_code_spec(),
            r.closed == self.closed_spec(),
            match r.failure {
                Some(f) => self.failure_spec() == Some(f@),
                None => self.failure_spec() is None,
            },
    {
        let mut chunks: Vec<OutputChunk> = Vec::new();
        let mut taken: usize = 0;
        let mut i: usize = 0;
        let n = self.output.len();
        proof {
            let all = chunk_views(self.output@);
            lemma_total_nonneg(all);
            assert(all.subrange(0, n as int) =~= all);
            assert(chunk_views(chunks@) + snapshot_chunks(all, after_seq, max_bytes, 0)
                =~= snapshot_chunks(all, after_seq, max_bytes, 0));
            assert(all.subrange(0, 0) =~= Seq::<ChunkView>::empty());
        }
        while i < n
            invariant_except_break
                self.wf(),
                n == self.output@.len(),
                i <= n,
                taken as int <= total_bytes(chunk_views(self.output@).subrange(0, i as int)),
                snapshot_chunks(chunk_views(self.output@), after_seq, max_bytes, 0) == chunk_views(
                    chunks@,
                ) + snapshot_chunks(
                    chunk_views(self.output@).subrange(i as int, n as int),
                    after_seq,
                    max_bytes,
                    taken as int,
                ),
            ensures
                snapshot_chunks(chunk_views(self.output@), after_seq, max_bytes, 0) == chunk_views(
                    chunks@,
                ),
            decreases n - i,
        {
            let ghost all = chunk_views(self.output@);
            let ghost rest = all.subrange(i as int, n as int);
            assert(rest[0] == all[i as int]);
            assert(rest.drop_first() =~= all.subrange(i + 1, n as int));
            proof {
                lemma_total_prefix(all, i as int);
            }
            let c = &self.output[i];
            let passes = match after_seq {
                Some(after) => c.seq > after,
                None => true,
            };
            if passes {
                let stop = match max_bytes {
                    Some(m) => taken >= m,
                    None => false,
                };
                if stop {
                    assert(snapshot_chunks(rest, after_seq, max_bytes, taken as int)
                        =~= Seq::empty());
                    assert(chunk_views(chunks@) + Seq::empty() =~= chunk_views(chunks@));
                    break;
                }
                let copy = clone_chunk(c);
                taken = taken + c.chunk.len();
                let ghost before = chunks@;
                chunks.push(copy);
                assert(chunk_views(chunks@) =~= chunk_views(before).push(
                    (copy.seq, copy.stream, copy.chunk@),
                ));
                assert(chunk_views(before) + snapshot_chunks(
                    rest,
                    after_seq,
                    max_bytes,
                    (taken - c.chunk.len()) as int,
                ) =~= chunk_views(chunks@) + snapshot_chunks(
                    all.subrange(i + 1, n as int),
                    after_seq,
                    max_bytes,
                    taken as int,
                ));
            }
            i = i + 1;
        }
        ReadResponse {
            chunks,
            next_seq: self.next_seq,
            exited: self.exit_code.is_some(),
            exit_code: self.exit_code,
            closed: self.closed,
            failure: match &self.failure {
                Some(f) => Some(clone_string(f)),
                None => None,
            },
        }
    }
}

proof fn lemma_total_nonneg(s: Seq<ChunkView>)
    ensures
        total_bytes(s) >= 0,
    decreases s.len(),
{
    if s.len() > 0 {
        lemma_total_nonneg(s.drop_last());
    }
}

/// The first chunk's bytes are part of the total.
proof fn lemma_total_first(s: Seq<ChunkView>)
    requires
        s.len() > 0,
    ensures
        total_bytes(s) == chunk_len(s[0]) + total_bytes(s.drop_first()),
    decreases s.len(),
{
    if s.len() == 1 {
        assert(s.drop_first() =~= Seq::<ChunkView>::empty());
        assert(s.drop_last() =~= Seq::<ChunkView>::empty());
    } else {
        lemma_total_first(s.drop_last());
        assert(s.drop_last().drop_first() =~= s.drop_first().drop_last());
        assert(s.drop_first().last() == s.last());
    }
}

/// The bytes of a prefix grow by one chunk at a time, within the total.
proof fn lemma_total_prefix(s: Seq<ChunkView>, i: int)
    requires
        0 <= i < s.len(),
    ensures
        total_bytes(s.subrange(0, i + 1)) == total_bytes(s.subrange(0, i)) + chunk_len(s[i]),
        total_bytes(s.subrange(0, i + 1)) <= total_bytes(s),
    decreases s.len() - i,
{
    assert(s.subrange(0, i + 1).drop_last() =~= s.subrange(0, i));
    if i + 1 < s.len() {
        lemma_total_prefix(s, i + 1);
        lemma_total_nonneg(s.subrange(0, i + 1));
        assert(chunk_len(s[i + 1]) >= 0);
    } else {
        assert(s.subrange(0, i + 1) =~= s);
    }
}


/// What eviction keeps is the newest part of `s`, within both limits, and
/// every longer newest part breaks a limit.
proof fn lemma_evict_suffix(s: Seq<ChunkView>)
    ensures
        evict(s).len() <= s.len(),
        evict(s) == s.subrange(s.len() - evict(s).len(), s.len() as int),
        !over_limits(evict(s)),
        forall|k: int|
            0 <= k < s.len() - evict(s).len() ==> over_limits(#[trigger] s.subrange(k, s.len() as int)),
    decreases s.len(),
{
    if s.len() > 0 && over_limits(s) {
        let d = s.drop_first();
        lemma_evict_suffix(d);
        let e = evict(d);
        assert(e =~= s.subrange(s.len() - e.len(), s.len() as int));
        assert forall|k: int| 0 <= k < s.len() - e.len() implies over_limits(
            #[trigger] s.subrange(k, s.len() as int),
        ) by {
            if k == 0 {
                assert(s.subrange(0, s.len() as int) =~= s);
            } else {
                assert(s.subrange(k, s.len() as int) =~= d.subrange(k - 1, d.len() as int));
            }
        }
    } else {
        assert(s.subrange(0, s.len() as int) =~= s);
    }
}

/// A chunk within the byte limit is never evicted as the newest one.
proof fn lemma_evict_keeps_newest(s: Seq<ChunkView>)
    requires
        s.len() > 0,
        chunk_len(s.last()) <= retained_bytes_limit(),
    ensures
        evict(s).len() >= 1,
    decreases s.len(),
{
    if s.len() == 1 {
        assert(s.drop_last() =~= Seq::<ChunkView>::empty());
        assert(total_bytes(s.drop_last()) == 0);
        assert(total_bytes(s) == chunk_len(s.last()));
    } else if over_limits(s) {
        assert(s.drop_first().last() == s.last());
        lemma_evict_keeps_newest(s.drop_first());
    }
}

/// Adding a chunk keeps the retained output's invariant: the chunk takes
/// the number `next` and the next number moves on by one; what stays is the
/// newest part of the output with the chunk added, and only as many of the
/// oldest chunks go as the limits ask for; a chunk within the byte limit
/// always stays, as the newest one.
pub proof fn law_push_keeps_output_invariant(
    out: Seq<ChunkView>,
    next: u64,
    stream: ExecOutputStream,
    bytes: Seq<u8>,
)
    requires
        output_invariant(out, next),
        next < u64::MAX,
    ensures
        ({
            let pushed = out.push((next, stream, bytes));
            let kept = evict(pushed);
            &&& output_invariant(kept, (next + 1) as u64)
            &&& kept == pushed.subrange(pushed.len() - kept.len(), pushed.len() as int)
            &&& forall|k: int|
                0 <= k < pushed.len() - kept.len() ==> over_limits(
                    #[trigger] pushed.subrange(k, pushed.len() as int),
                )
            &&& bytes.len() <= retained_bytes_limit() ==> kept.len() >= 1 && kept.last() == (
                next,
                stream,
                bytes,
            )
        }),
{
    let pushed = out.push((next, stream, bytes));
    lemma_evict_suffix(pushed);
    let kept = evict(pushed);
    let k = pushed.len() - kept.len();
    assert forall|i: int, j: int| 0 <= i < j < kept.len() implies #[trigger] kept[i].0
        < #[trigger] kept[j].0 by {
        assert(kept[i] == pushed[i + k]);
        assert(kept[j] == pushed[j + k]);
    }
    assert forall|i: int| 0 <= i < kept.len() implies #[trigger] kept[i].0 < next + 1 by {
        assert(kept[i] == pushed[i + k]);
    }
    if bytes.len() <= retained_bytes_limit() {
        lemma_evict_keeps_newest(pushed);
        assert(kept.last() == pushed[kept.len() - 1 + k]);
    }
}

/// Exit is final: once a process has exited it stays closed with that exit
/// code, and a later exit or failure changes nothing and numbers no event.
pub proof fn law_exit_is_final(
    s0: ProcessOutputState,
    code: i32,
    s1: ProcessOutputState,
    r1: Option<(u64, u64)>,
    later_code: i32,
    s2: ProcessOutputState,
    r2: Option<(u64, u64)>,
    message: Seq<char>,
    s3: ProcessOutputState,
    r3: Option<u64>,
)
    requires
        !s0.closed_spec(),
        exit_effect(s0, s1, code, r1),
        exit_effect(s1, s2, later_code, r2),
        fail_effect(s1, s3, message, r3),
    ensures
        r1 is Some,
        s1.closed_spec(),
        s1.exit_code_spec() == Some(code),
        r2 is None,
        s2 == s1,
        r3 is None,
        s3 == s1,
{
}

/// Drops the oldest chunks while more than 512 chunks or more than 1 MiB are
/// kept; `total` is the size of what `out` holds, and the size of what stays
/// is returned.
fn evict_oldest(out: &mut VecDeque<OutputChunk>, total: u64) -> (r: u64)
    requires
        total == total_bytes(chunk_views(old(out)@)),
    ensures
        chunk_views(final(out)@) == evict(chunk_views(old(out)@)),
        final(out)@.len() <= old(out)@.len(),
        final(out)@ == old(out)@.subrange(old(out)@.len() - final(out)@.len(), old(out)@.len() as int),
        r == total_bytes(chunk_views(final(out)@)),
        r <= retained_bytes_limit(),
        final(out)@.len() <= retained_events_limit(),
{
    let ghost start = out@;
    let mut total = total;
    proof {
        assert(start.subrange(0, start.len() as int) =~= start);
    }
    while out.len() > 512 || total > 0x10_0000
        invariant
            total == total_bytes(chunk_views(out@)),
            evict(chunk_views(out@)) == evict(chunk_views(start)),
            out@.len() <= start.len(),
            out@ == start.subrange(start.len() - out@.len(), start.len() as int),
        decreases out@.len(),
    {
        let ghost before = out@;
        let ghost bv = chunk_views(before);
        proof {
            if before.len() > 0 {
                lemma_total_first(bv);
                lemma_total_nonneg(bv.drop_first());
            }
        }
        match out.pop_front() {
            Some(evicted) => {
                assert(before.drop_first() =~= out@);
                assert(chunk_views(out@) =~= bv.drop_first());
                assert(bv[0].2 == evicted.chunk@);
                assert(evicted.chunk@.len() == evicted.chunk.len());
                total = total - evicted.chunk.len() as u64;
                assert(out@ =~= start.subrange(start.len() - out@.len(), start.len() as int));
            },
            None => {
                assert(out@.len() == 0);
                assert(chunk_views(out@) =~= Seq::<ChunkView>::empty());
                assert(false);
            },
        }
    }
    total
}


// ---------------------------------------------------------------------------
// Events and answers from the host
// ---------------------------------------------------------------------------

/// The bytes of a text, as UTF-8.
fn text_bytes(s: &str) -> (r: Vec<u8>)
    ensures
        r@ == s.spec_bytes(),
{
    vstd::slice::slice_to_vec(s.as_bytes())
}

/// What finishing a process from the host's exit report produced: the
/// chunks recorded for its remaining stdout and stderr (none for empty
/// text) and the sequence numbers of the exit and close events.
pub struct FinishEvents {
    pub stdout: Option<OutputChunk>,
    pub stderr: Option<OutputChunk>,
    pub exit: Option<(u64, u64)>,
}

impl ProcessOutputState {
    /// Takes the host's report that the process exited: the remaining
    /// stdout, then the remaining stderr, are recorded as output when not
    /// empty, then the exit code.
    pub fn finish_from_host_result(&mut self, stdout: &str, stderr: &str, exit_code: i32) -> (r:
        FinishEvents)
        requires
            old(self).wf(),
            old(self).next_seq_spec() < u64::MAX - 3,
            stdout.spec_bytes().len() <= u64::MAX - retained_bytes_limit(),
            stderr.spec_bytes().len() <= u64::MAX - retained_bytes_limit(),
        ensures
            final(self).wf(),
            r.stdout is Some <==> stdout@.len() > 0,
            r.stderr is Some <==> stderr@.len() > 0,
            r.stdout matches Some(c) ==> (c.seq == old(self).next_seq_spec() && c.stream
                == ExecOutputStream::Stdout && c.chunk@ == stdout.spec_bytes()),
            r.stderr matches Some(c) ==> (c.stream == ExecOutputStream::Stderr && c.chunk@
                == stderr.spec_bytes()),
            final(self).exit_code_spec() == if old(self).closed_spec() {
                old(self).exit_code_spec()
            } else {
                Some(exit_code)
            },
            final(self).closed_spec(),
            r.exit is Some <==> !old(self).closed_spec(),
    {
        let out_chunk = if stdout.unicode_len() > 0 {
            proof {
                lemma_encode_nonempty(stdout@);
            }
            Some(self.push_output(ExecOutputStream::Stdout, text_bytes(stdout)))
        } else {
            None
        };
        let err_chunk = if stderr.unicode_len() > 0 {
            proof {
                lemma_encode_nonempty(stderr@);
            }
            Some(self.push_output(ExecOutputStream::Stderr, text_bytes(stderr)))
        } else {
            None
        };
        let exit = self.exit(exit_code);
        FinishEvents { stdout: out_chunk, stderr: err_chunk, exit }
    }
}

proof fn lemma_encode_nonempty(s: Seq<char>)
    requires
        s.len() > 0,
    ensures
        vstd::utf8::encode_utf8(s).len() > 0,
{
    vstd::utf8::encode_utf8_first_scalar(s);
}

/// The output stream a host event names: `stdout` or `stderr`; other names
/// are ignored.
pub fn host_output_stream(name: &str) -> (r: Option<ExecOutputStream>)
    ensures
        r == if name@ == "stdout"@ {
            Some(ExecOutputStream::Stdout)
        } else if name@ == "stderr"@ {
            Some(ExecOutputStream::Stderr)
        } else {
            None
        },
{
    if str_eq(name, "stdout") {
        Some(ExecOutputStream::Stdout)
    } else if str_eq(name, "stderr") {
        Some(ExecOutputStream::Stderr)
    } else {
        None
    }
}

/// What the host is asked to run for a process: its handle, command line,
/// directory and environment, whether it gets a terminal, and which of its
/// streams are relayed.
#[derive(Debug, Clone)]
pub struct HostProcessSpawnRequest {
    pub process_handle: String,
    pub command: Vec<String>,
    pub cwd: String,
    pub env: Vec<(String, String)>,
    pub tty: bool,
    pub stream_stdin: bool,
    pub stream_stdout_stderr: bool,
}

/// The spawn request for process `process_id`: stdin is streamed for a
/// terminal or where it is piped; stdout and stderr are always streamed.
pub fn host_process_spawn_request(
    process_id: &str,
    argv: &Vec<String>,
    cwd: &str,
    env: &Vec<(String, String)>,
    tty: bool,
    pipe_stdin: bool,
) -> (r: HostProcessSpawnRequest)
    ensures
        r.process_handle@ == process_id@,
        crate::text::string_views(r.command@) == crate::text::string_views(argv@),
        r.cwd@ == cwd@,
        crate::browser_cli::env_view(r.env@) == crate::browser_cli::env_view(env@),
        r.tty == tty,
        r.stream_stdin == (tty || pipe_stdin),
        r.stream_stdout_stderr,
{
    HostProcessSpawnRequest {
        process_handle: crate::text::owned(process_id),
        command: crate::browser_cli::clone_strings(argv),
        cwd: crate::text::owned(cwd),
        env: crate::browser_cli::clone_env(env),
        tty,
        stream_stdin: tty || pipe_stdin,
        stream_stdout_stderr: true,
    }
}

/// The failure recorded when the host answers a spawn with another
/// process's handle; `None` when the handles agree.
pub fn spawn_handle_mismatch(returned: &str, expected: &str) -> (r: Option<String>)
    ensures
        returned@ == expected@ ==> r is None,
        returned@ != expected@ ==> (r matches Some(m) && m@
            == "host process/spawn returned handle `"@ + returned@ + "` for `"@ + expected@
            + "`"@),
{
    if str_eq(returned, expected) {
        None
    } else {
        let a = crate::browser_cli::cat3("host process/spawn returned handle `", returned, "` for `");
        let b = crate::browser_cli::cat3(a.as_str(), expected, "`");
        Some(b)
    }
}

#[derive(Debug, Clone, Copy, PartialEq, Eq, Structural)]
pub enum IoErrorKind {
    NotFound,
    Unsupported,
    InvalidData,
    Other,
}

/// How a host failure is reported as an I/O error: "not found" when its
/// message mentions `ENOENT` or `NotFound`, else "other".
pub fn io_error_kind_for(message: &str) -> (r: IoErrorKind)
    ensures
        r == if contains_seq(message@, "ENOENT:"@) || contains_seq(message@, "ENOENT"@)
            || contains_seq(message@, "NotFound"@) {
            IoErrorKind::NotFound
        } else {
            IoErrorKind::Other
        },
{
    if contains_str(message, "ENOENT:") || contains_str(message, "ENOENT") || contains_str(
        message,
        "NotFound",
    ) {
        IoErrorKind::NotFound
    } else {
        IoErrorKind::Other
    }
}

/// What the host reports of a path.
#[derive(Debug, Clone, Copy)]
pub struct FileMetadata {
    pub is_directory: bool,
    pub is_file: bool,
    pub is_symlink: bool,
    pub created_at_ms: i64,
    pub modified_at_ms: i64,
}

/// Metadata from the host's answer: its type tells directory from file, it
/// never reports a symlink or a creation time, and `modified_at_ms` is the
/// modification time in whole milliseconds.
pub fn file_metadata_from_host(kind: &str, modified_at_ms: i64) -> (r: FileMetadata)
    ensures
        r.is_directory == (kind@ == "directory"@),
        r.is_file == (kind@ == "file"@),
        !r.is_symlink,
        r.created_at_ms == 0,
        r.modified_at_ms == modified_at_ms,
{
    FileMetadata {
        is_directory: str_eq(kind, "directory"),
        is_file: str_eq(kind, "file"),
        is_symlink: false,
        created_at_ms: 0,
        modified_at_ms,
    }
}

#[derive(Debug, Clone)]
pub struct ReadDirectoryEntry {
    pub file_name: String,
    pub is_directory: bool,
    pub is_file: bool,
}

/// A directory entry from the host's answer: anything that is not a
/// directory counts as a file.
pub fn directory_entry_from_host(name: String, kind: &str) -> (r: ReadDirectoryEntry)
    ensures
        r.file_name@ == name@,
        r.is_directory == (kind@ == "directory"@),
        r.is_file == (kind@ != "directory"@),
{
    let is_directory = str_eq(kind, "directory");
    ReadDirectoryEntry { file_name: name, is_directory, is_file: !is_directory }
}

} // verus!

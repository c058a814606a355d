//! The published sink chain, modeled: an asynchronous first-in-first-out
//! buffer in front of exactly one file.
//!
//! Producers hand records over and return at once; a single worker takes
//! records off the front of the buffer, one at a time, and writes each as
//! the next line of the file. The model keeps the records themselves rather
//! than their rendered text: the line format belongs to the text formatter,
//! an outside collaborator, and is not fixed here.

use crate::plan::spec_log_file_name;
use crate::record::Level;
use crate::record::Record;
use vstd::prelude::*;

verus! {

/// The observable state of the chain: the path of its one file, the records
/// still queued in the buffering stage, and the records already written,
/// oldest first. There is no second file, and no state besides these.
pub struct ChainModel {
    pub path: Seq<char>,
    pub queued: Seq<Record>,
    pub on_file: Seq<Record>,
}

/// The chain as the bootstrap publishes it: nothing queued, nothing written,
/// aimed at the fixed log file.
pub open spec fn initial_chain() -> ChainModel {
    ChainModel { path: spec_log_file_name(), queued: Seq::empty(), on_file: Seq::empty() }
}

/// One producer-side step: the record goes to the back of the queue, behind
/// every record handed over before; the file and its path are untouched.
pub open spec fn spec_emit(m: ChainModel, r: Record) -> ChainModel {
    ChainModel { path: m.path, queued: m.queued.push(r), on_file: m.on_file }
}

/// One worker step on a non-empty queue: the front record leaves the queue
/// and becomes the next record on the file.
pub open spec fn spec_drain_one(m: ChainModel) -> ChainModel
    recommends
        m.queued.len() > 0,
{
    ChainModel {
        path: m.path,
        queued: m.queued.drop_first(),
        on_file: m.on_file.push(m.queued.first()),
    }
}

/// The worker caught up: everything queued is on the file, in queue order.
pub open spec fn spec_flush(m: ChainModel) -> ChainModel {
    ChainModel { path: m.path, queued: Seq::empty(), on_file: m.on_file + m.queued }
}

/// The chain after the records `rs` were handed over in order, front first.
pub open spec fn after_emits(m: ChainModel, rs: Seq<Record>) -> ChainModel
    decreases rs.len(),
{
    if rs.len() == 0 {
        m
    } else {
        after_emits(spec_emit(m, rs.first()), rs.drop_first())
    }
}

/// The sink chain itself, as far as this library tracks it: the buffering
/// stage's queue and the file's content, each as the records it holds.
pub struct SinkChain {
    queue: Vec<Record>,
    written: Vec<Record>,
}

impl SinkChain {
    /// The chain's observable state.
    pub closed spec fn model(&self) -> ChainModel {
        ChainModel { path: spec_log_file_name(), queued: self.queue@, on_file: self.written@ }
    }

    /// A freshly built chain: the state the bootstrap publishes.
    pub fn new() -> (c: Self)
        ensures
            c.model() == initial_chain(),
    {
        SinkChain { queue: Vec::new(), written: Vec::new() }
    }

    /// Producer side: hand a record to the chain. It queues up behind every
    /// record handed over before; nothing reaches the file yet.
    pub fn emit(&mut self, r: Record)
        ensures
            final(self).model() == spec_emit(old(self).model(), r),
    {
        self.queue.push(r);
    }

    /// The bridged ad-hoc call surface: a leveled call with a message turns
    /// into a record and goes to the same chain as a structured call would.
    pub fn emit_bridged(&mut self, level: Level, msg: String)
        ensures
            final(self).model() == spec_emit(old(self).model(), (Record { level: level, msg: msg })),
    {
        let r = Record { level: level, msg: msg };
        self.emit(r);
    }

    /// One worker step: write the front record, if any, as the next line.
    pub fn drain_one(&mut self) -> (wrote: bool)
        ensures
            wrote == (old(self).model().queued.len() > 0),
            wrote ==> final(self).model() == spec_drain_one(old(self).model()),
            !wrote ==> final(self).model() == old(self).model(),
    {
        let ghost q0 = self.queue@;
        if self.queue.len() == 0 {
            return false;
        }
        let r = self.queue.remove(0);
        self.written.push(r);
        proof {
            assert(q0.remove(0) =~= q0.drop_first());
        }
        true
    }

    /// The worker catches up: pump until the queue is empty. Every record
    /// queued at the call lands on the file, behind what was already there,
    /// in the order the producers handed them over.
    pub fn flush(&mut self)
        ensures
            final(self).model() == spec_flush(old(self).model()),
    {
        let ghost m0 = self.model();
        while self.queue.len() > 0
            invariant
                self.model().path == m0.path,
                self.model().on_file + self.model().queued == m0.on_file + m0.queued,
            decreases self.queue.len(),
        {
            let ghost before = self.model();
            self.drain_one();
            proof {
                assert(before.on_file.push(before.queued.first()) + before.queued.drop_first()
                    =~= before.on_file + before.queued);
            }
        }
        proof {
            assert(self.model().queued =~= Seq::<Record>::empty());
            assert(self.model().on_file + self.model().queued =~= self.model().on_file);
        }
    }

    /// The name of the one file the chain writes, whatever state it is in.
    pub fn path(&self) -> (s: &'static str)
        ensures
            s@ == self.model().path,
    {
        crate::plan::log_file_name()
    }

    /// How many records wait in the buffering stage.
    pub fn queued_len(&self) -> (n: usize)
        ensures
            n == self.model().queued.len(),
    {
        self.queue.len()
    }

    /// How many records the worker has written so far.
    pub fn written_len(&self) -> (n: usize)
        ensures
            n == self.model().on_file.len(),
    {
        self.written.len()
    }

    /// The record at position `i` of the file, oldest first.
    pub fn written_at(&self, i: usize) -> (r: &Record)
        requires
            i < self.model().on_file.len(),
        ensures
            *r == self.model().on_file[i as int],
    {
        &self.written[i]
    }
}

/// After the bootstrap, one record handed over and then flushed stands as
/// the single record on the file, and it carries the message given.
pub proof fn lemma_one_record_on_file(r: Record)
    ensures
        spec_flush(spec_emit(initial_chain(), r)).on_file =~= seq![r],
        spec_flush(spec_emit(initial_chain(), r)).on_file.first().msg == r.msg,
{
    assert(spec_flush(spec_emit(initial_chain(), r)).on_file =~= seq![r]);
}

/// Two records handed over in sequence after one bootstrap both land on the
/// same one file, in the order issued.
pub proof fn lemma_two_records_in_order(r1: Record, r2: Record)
    ensures
        ({
            let end = spec_flush(spec_emit(spec_emit(initial_chain(), r1), r2));
            end.path == spec_log_file_name() && end.on_file =~= seq![r1, r2]
        }),
{
    assert(spec_flush(spec_emit(spec_emit(initial_chain(), r1), r2)).on_file =~= seq![r1, r2]);
}

/// A record through the structured surface and one through the bridged
/// ad-hoc surface land on the same file, in arrival order.
pub proof fn lemma_bridged_call_shares_file(direct: Record, level: Level, msg: String)
    ensures
        ({
            let end = spec_flush(
                spec_emit(spec_emit(initial_chain(), direct), (Record { level: level, msg: msg })),
            );
            end.path == spec_log_file_name() && end.on_file =~= seq![
                direct,
                (Record { level: level, msg: msg }),
            ]
        }),
{
    assert(spec_flush(
        spec_emit(spec_emit(initial_chain(), direct), (Record { level: level, msg: msg })),
    ).on_file =~= seq![direct, (Record { level: level, msg: msg })]);
}

/// No step of the chain moves it to another file or adds one: handing a
/// record over, a worker step and a flush all keep the single path.
pub proof fn lemma_no_rotation(m: ChainModel, r: Record)
    ensures
        spec_emit(m, r).path == m.path,
        spec_drain_one(m).path == m.path,
        spec_flush(m).path == m.path,
{
}

/// However many records are handed over after a state `m`, a flush leaves
/// the file holding what a flush at `m` would have written, followed by
/// those records in exactly the order issued.
pub proof fn lemma_emits_then_flush(m: ChainModel, rs: Seq<Record>)
    ensures
        spec_flush(after_emits(m, rs)).on_file == spec_flush(m).on_file + rs,
    decreases rs.len(),
{
    if rs.len() == 0 {
        assert(spec_flush(m).on_file + rs =~= spec_flush(m).on_file);
    } else {
        lemma_emits_then_flush(spec_emit(m, rs.first()), rs.drop_first());
        assert(spec_flush(spec_emit(m, rs.first())).on_file + rs.drop_first()
            =~= spec_flush(m).on_file + rs);
    }
}

/// However many records are handed over after the bootstrap, a flush leaves
/// the one file holding exactly those records, in the order issued.
pub proof fn lemma_all_records_in_order(rs: Seq<Record>)
    ensures
        spec_flush(after_emits(initial_chain(), rs)).on_file == rs,
{
    lemma_emits_then_flush(initial_chain(), rs);
    assert(spec_flush(initial_chain()).on_file + rs =~= rs);
}

} // verus!

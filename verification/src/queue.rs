//! The cross-context command buffer.
//!
//! The tray service produces [`Command`]s and the GUI poller consumes them,
//! one per tick. The two contexts share nothing else; the caller serializes
//! access with a lock held only for the duration of a single call. Within
//! that discipline every operation is atomic, so any concurrent execution is
//! some sequential interleaving of `enqueue` and `drain_one` calls; the
//! history lemma below shows that no interleaving loses or duplicates a
//! command.
//!
//! Consumption is deliberately last-in-first-out: `drain_one` returns the
//! most recently enqueued command, so under a burst of tray clicks the newest
//! intent is serviced first.

use vstd::prelude::*;

use crate::command::Command;

verus! {

/// An ordered buffer of pending cross-context intents. Produced into by the
/// tray service, drained by the GUI poller.
pub struct CommandQueue {
    items: Vec<Command>,
}

impl View for CommandQueue {
    type V = Seq<Command>;

    closed spec fn view(&self) -> Seq<Command> {
        self.items@
    }
}

impl CommandQueue {
    /// An empty buffer; created once at process start.
    pub fn new() -> (q: CommandQueue)
        ensures
            q@ == Seq::<Command>::empty(),
    {
        CommandQueue { items: Vec::new() }
    }

    /// Append one command at the back.
    pub fn enqueue(&mut self, cmd: Command)
        ensures
            final(self)@ == old(self)@.push(cmd),
    {
        self.items.push(cmd);
    }

    /// Remove and return the most recently added command (last-in-first-out),
    /// or report emptiness and leave the buffer unchanged.
    pub fn drain_one(&mut self) -> (r: Option<Command>)
        ensures
            old(self)@.len() == 0 ==> r is None && final(self)@ == old(self)@,
            old(self)@.len() > 0 ==> r == Some(old(self)@.last()) && final(self)@ == old(
                self,
            )@.drop_last(),
    {
        self.items.pop()
    }

    /// The number of pending commands.
    pub fn len(&self) -> (n: usize)
        ensures
            n == self@.len(),
    {
        self.items.len()
    }

    /// Whether no command is pending.
    pub fn is_empty(&self) -> (b: bool)
        ensures
            b <==> self@.len() == 0,
    {
        self.items.len() == 0
    }
}

/// One atomic operation on the buffer, as either owner may issue it: the tray
/// service enqueues, the GUI poller drains. A concurrent execution is an
/// arbitrary sequence of these.
pub enum QueueOp {
    /// The producer appends this command.
    Enqueue(Command),
    /// The consumer removes the newest command, if any.
    Drain,
}

/// The buffer contents after one operation, mirroring the `ensures` of
/// `enqueue` and `drain_one` exactly.
pub open spec fn apply_op(q: Seq<Command>, op: QueueOp) -> Seq<Command> {
    match op {
        QueueOp::Enqueue(cmd) => q.push(cmd),
        QueueOp::Drain => if q.len() == 0 {
            q
        } else {
            q.drop_last()
        },
    }
}

/// The buffer contents after a sequence of operations, starting from `q`.
pub open spec fn run_ops(q: Seq<Command>, ops: Seq<QueueOp>) -> Seq<Command>
    decreases ops.len(),
{
    if ops.len() == 0 {
        q
    } else {
        run_ops(apply_op(q, ops.first()), ops.drop_first())
    }
}

/// Every command enqueued by a sequence of operations, in order.
pub open spec fn enqueued_of(ops: Seq<QueueOp>) -> Seq<Command>
    decreases ops.len(),
{
    if ops.len() == 0 {
        Seq::<Command>::empty()
    } else {
        match ops.first() {
            QueueOp::Enqueue(cmd) => seq![cmd] + enqueued_of(ops.drop_first()),
            QueueOp::Drain => enqueued_of(ops.drop_first()),
        }
    }
}

/// Every command a drain returned during a sequence of operations, starting
/// from buffer contents `q`, in the order drained.
pub open spec fn drained_of(q: Seq<Command>, ops: Seq<QueueOp>) -> Seq<Command>
    decreases ops.len(),
{
    if ops.len() == 0 {
        Seq::<Command>::empty()
    } else {
        match ops.first() {
            QueueOp::Enqueue(cmd) => drained_of(q.push(cmd), ops.drop_first()),
            QueueOp::Drain => if q.len() == 0 {
                drained_of(q, ops.drop_first())
            } else {
                seq![q.last()] + drained_of(q.drop_last(), ops.drop_first())
            },
        }
    }
}

/// Conservation under any interleaving: starting from buffer contents `q`,
/// after any sequence of enqueue and drain operations, the commands drained
/// plus the commands still buffered are, as a multiset, exactly the initial
/// contents plus the commands enqueued. No command is lost, none is
/// duplicated, and none is invented: in particular a drain starting from an
/// empty buffer only ever returns previously enqueued commands, and never
/// more of one than were enqueued.
pub proof fn lemma_queue_conservation(q: Seq<Command>, ops: Seq<QueueOp>)
    ensures
        drained_of(q, ops).to_multiset().add(run_ops(q, ops).to_multiset()) =~= q.to_multiset().add(
            enqueued_of(ops).to_multiset(),
        ),
    decreases ops.len(),
{
    broadcast use vstd::seq_lib::group_to_multiset_ensures;
    broadcast use vstd::multiset::group_multiset_axioms;

    if ops.len() == 0 {
        assert forall|c: Command|
            #[trigger] Seq::<Command>::empty().to_multiset().count(c) == 0 by {
            assert(!Seq::<Command>::empty().contains(c));
        }
    } else {
        let rest = ops.drop_first();
        match ops.first() {
            QueueOp::Enqueue(cmd) => {
                lemma_queue_conservation(q.push(cmd), rest);
                assert(enqueued_of(ops) == seq![cmd] + enqueued_of(rest));
                lemma_cons_to_multiset(cmd, enqueued_of(rest));
            },
            QueueOp::Drain => {
                if q.len() == 0 {
                    lemma_queue_conservation(q, rest);
                } else {
                    lemma_queue_conservation(q.drop_last(), rest);
                    assert(q =~= q.drop_last().push(q.last()));
                    assert(q.to_multiset() =~= q.drop_last().to_multiset().insert(q.last()));
                    lemma_cons_to_multiset(q.last(), drained_of(q.drop_last(), rest));
                    assert(drained_of(q, ops) == seq![q.last()] + drained_of(q.drop_last(), rest));
                    assert(run_ops(q, ops) == run_ops(q.drop_last(), rest));
                    assert(enqueued_of(ops) == enqueued_of(rest));
                    assert forall|c: Command|
                        drained_of(q, ops).to_multiset().add(
                            run_ops(q, ops).to_multiset(),
                        ).count(c) == q.to_multiset().add(enqueued_of(ops).to_multiset()).count(
                            c,
                        ) by {
                        let d_rest = drained_of(q.drop_last(), rest).to_multiset();
                        let r_rest = run_ops(q.drop_last(), rest).to_multiset();
                        let e_rest = enqueued_of(rest).to_multiset();
                        assert(d_rest.add(r_rest).count(c) == q.drop_last().to_multiset().add(
                            e_rest,
                        ).count(c));
                        assert(drained_of(q, ops).to_multiset().count(c) == d_rest.insert(
                            q.last(),
                        ).count(c));
                        assert(q.to_multiset().count(c) == q.drop_last().to_multiset().insert(
                            q.last(),
                        ).count(c));
                    }
                    assert(drained_of(q, ops).to_multiset().add(run_ops(q, ops).to_multiset())
                        =~= q.to_multiset().add(enqueued_of(ops).to_multiset()));
                }
            },
        }
    }
}

/// Prepending one element inserts it into the sequence's multiset.
proof fn lemma_cons_to_multiset(c: Command, s: Seq<Command>)
    ensures
        (seq![c] + s).to_multiset() =~= s.to_multiset().insert(c),
    decreases s.len(),
{
    broadcast use vstd::seq_lib::group_to_multiset_ensures;

    if s.len() == 0 {
        assert(seq![c] + s =~= Seq::<Command>::empty().push(c));
    } else {
        lemma_cons_to_multiset(c, s.drop_last());
        assert(seq![c] + s =~= (seq![c] + s.drop_last()).push(s.last()));
        assert(s =~= s.drop_last().push(s.last()));
    }
}

/// No invention: a command drained from an initially empty buffer was
/// previously enqueued, and no command is drained more often than it was
/// enqueued.
pub proof fn lemma_no_invention(ops: Seq<QueueOp>)
    ensures
        forall|c: Command|
            #[trigger] drained_of(Seq::<Command>::empty(), ops).to_multiset().count(c)
                <= enqueued_of(ops).to_multiset().count(c),
{
    broadcast use vstd::seq_lib::group_to_multiset_ensures;

    let empty = Seq::<Command>::empty();
    lemma_queue_conservation(empty, ops);
    assert forall|c: Command|
        #[trigger] drained_of(empty, ops).to_multiset().count(c) <= enqueued_of(
            ops,
        ).to_multiset().count(c) by {
        assert(drained_of(empty, ops).to_multiset().add(run_ops(empty, ops).to_multiset()).count(c)
            == empty.to_multiset().add(enqueued_of(ops).to_multiset()).count(c));
    }
}

} // verus!

//! The wire protocol as a script: the bus commands that a transaction issues,
//! in order, and the proof that a transfer never leaves that script.

use vstd::prelude::*;
use super::model::{
    address_request, clock_in_request, data_byte, data_request, nack_stop_request,
    start_request, stop_request, Direction, OperationView, Step, TransferView,
};
use super::request::{Exchange, Register, Request, ACKEN, GENSTART, GENSTOP};
use super::status::{fault, flag, Error, NoAcknowledgeSource, ACKFAIL};

verus! {

/// Accesses that act on the bus: a change of CTRL1 (START, STOP, acknowledge)
/// and every access to the data register. Reads of CTRL1 and of the status
/// registers, and status flags being cleared, only observe.
pub open spec fn is_command(r: Request) -> bool {
    match r {
        Request::Modify(Register::Ctrl1, _, _) => true,
        Request::Write(Register::Dt, _) => true,
        Request::Read(Register::Dt) => true,
        _ => false,
    }
}

/// The bus commands among the accesses of a log, in order.
pub open spec fn commands(log: Seq<Exchange>) -> Seq<Request>
    decreases log.len(),
{
    if log.len() == 0 {
        Seq::empty()
    } else if is_command(log.last().request) {
        commands(log.drop_last()).push(log.last().request)
    } else {
        commands(log.drop_last())
    }
}

/// Operation `i` needs an address phase of its own: it is the first one, or
/// its direction differs from that of the operation before it.
pub open spec fn starts_phase(ops: Seq<OperationView>, i: int) -> bool {
    i == 0 || ops[i].direction() != ops[i - 1].direction()
}

/// START and the address byte, where operation `i` needs them.
pub open spec fn lead(addr: u8, ops: Seq<OperationView>, i: int) -> Seq<Request> {
    if starts_phase(ops, i) {
        seq![start_request(ops[i].direction()), address_request(addr, ops[i].direction())]
    } else {
        Seq::empty()
    }
}

/// The data phase of operation `i`. A write sends its bytes. A read clocks in
/// one byte per buffer place; in last place, and not empty, it switches
/// acknowledge off and arms STOP ahead of its last byte.
pub open spec fn body(ops: Seq<OperationView>, i: int) -> Seq<Request> {
    match ops[i] {
        OperationView::Write(bytes) => Seq::new(bytes.len(), |k: int| data_request(bytes[k])),
        OperationView::Read(buf) => if i == ops.len() - 1 && buf.len() > 0 {
            Seq::new(
                buf.len() + 1,
                |k: int|
                    if k == buf.len() - 1 {
                        nack_stop_request()
                    } else {
                        clock_in_request()
                    },
            )
        } else {
            Seq::new(buf.len(), |k: int| clock_in_request())
        },
    }
}

/// STOP after the last operation, where that is a write.
pub open spec fn tail(ops: Seq<OperationView>, i: int) -> Seq<Request> {
    if i == ops.len() - 1 && ops[i] is Write {
        seq![stop_request()]
    } else {
        Seq::empty()
    }
}

/// All bus commands of operation `i`.
pub open spec fn segment(addr: u8, ops: Seq<OperationView>, i: int) -> Seq<Request> {
    lead(addr, ops, i) + body(ops, i) + tail(ops, i)
}

/// The bus commands of the first `n` operations.
pub open spec fn script_upto(addr: u8, ops: Seq<OperationView>, n: int) -> Seq<Request>
    decreases n,
{
    if n <= 0 {
        Seq::empty()
    } else {
        script_upto(addr, ops, n - 1) + segment(addr, ops, n - 1)
    }
}

/// The bus commands of a whole transaction that meets no fault.
pub open spec fn script(addr: u8, ops: Seq<OperationView>) -> Seq<Request> {
    script_upto(addr, ops, ops.len() as int)
}

/// The script up to operation `i`, and the first `k` commands of that
/// operation.
pub open spec fn partial(addr: u8, ops: Seq<OperationView>, i: int, k: int) -> Seq<Request> {
    script_upto(addr, ops, i) + segment(addr, ops, i).take(k)
}

impl TransferView {
    pub open spec fn lead_len(self) -> int {
        if starts_phase(self.ops, self.op) {
            2
        } else {
            0
        }
    }

    /// One, once a read in last place has armed STOP ahead of its last byte.
    pub open spec fn armed(self) -> int {
        if self.current() is Read && self.is_last() && self.current().len() > 0 && (self.pos
            == self.current().len() || (self.pos == self.current().len() - 1 && (self.step
            is RxWait || self.step is RxRead))) {
            1
        } else {
            0
        }
    }

    /// Number of commands of the current operation that have been performed.
    pub open spec fn progress(self) -> int {
        match self.step {
            Step::StopWait | Step::Start => 0,
            Step::StartWait | Step::MasterCheck | Step::MasterWait | Step::Address => 1,
            Step::AddressWait | Step::AddressClear => 2,
            Step::TxCompleteWait => self.lead_len() + self.pos + 1,
            _ => self.lead_len() + self.pos + self.armed(),
        }
    }

    /// What holds of every transfer: the state is well-formed, and the bus
    /// commands performed so far are the script up to the current position. A
    /// finished transfer has performed the whole script, a failed one a prefix
    /// of it.
    pub open spec fn inv(self) -> bool {
        &&& self.wf()
        &&& self.step.in_address_phase() ==> starts_phase(self.ops, self.op)
        &&& match self.step {
            Step::Failed(_) => commands(self.log).is_prefix_of(script(self.addr, self.ops)),
            Step::Finished => commands(self.log) == script(self.addr, self.ops),
            _ => commands(self.log) == partial(self.addr, self.ops, self.op, self.progress()),
        }
    }

    /// The condition under which the data phase is carried on from the current
    /// position.
    pub open spec fn at_data(self) -> bool {
        &&& 0 <= self.op < self.ops.len()
        &&& 0 <= self.pos <= self.current().len()
        &&& !self.clearing
        &&& commands(self.log) == partial(
            self.addr,
            self.ops,
            self.op,
            self.lead_len() + self.pos + (if self.current() is Read && self.is_last()
                && self.current().len() > 0 && self.pos == self.current().len() {
                1int
            } else {
                0int
            }),
        )
    }
}

pub proof fn lemma_commands_push(log: Seq<Exchange>, e: Exchange)
    ensures
        commands(log.push(e)) == if is_command(e.request) {
            commands(log).push(e.request)
        } else {
            commands(log)
        },
{
    assert(log.push(e).drop_last() =~= log);
}

pub proof fn lemma_segment_len(addr: u8, ops: Seq<OperationView>, i: int)
    requires
        0 <= i < ops.len(),
    ensures
        segment(addr, ops, i).len() == lead(addr, ops, i).len() + body(ops, i).len() + tail(
            ops,
            i,
        ).len(),
        lead(addr, ops, i).len() == if starts_phase(ops, i) {
            2int
        } else {
            0int
        },
        body(ops, i).len() == ops[i].len() + if ops[i] is Read && i == ops.len() - 1
            && ops[i].len() > 0 {
            1int
        } else {
            0int
        },
        tail(ops, i).len() == if i == ops.len() - 1 && ops[i] is Write {
            1int
        } else {
            0int
        },
{
}

proof fn lemma_partial_push(addr: u8, ops: Seq<OperationView>, i: int, k: int)
    requires
        0 <= k < segment(addr, ops, i).len(),
    ensures
        partial(addr, ops, i, k).push(segment(addr, ops, i)[k]) == partial(addr, ops, i, k + 1),
{
    assert(partial(addr, ops, i, k).push(segment(addr, ops, i)[k]) =~= partial(
        addr,
        ops,
        i,
        k + 1,
    ));
}

proof fn lemma_partial_turn(addr: u8, ops: Seq<OperationView>, i: int)
    requires
        0 <= i,
    ensures
        partial(addr, ops, i, segment(addr, ops, i).len() as int) == partial(addr, ops, i + 1, 0),
        partial(addr, ops, i, segment(addr, ops, i).len() as int) == script_upto(addr, ops, i + 1),
{
    let seg = segment(addr, ops, i);
    assert(seg.take(seg.len() as int) =~= seg);
    assert(script_upto(addr, ops, i + 1) == script_upto(addr, ops, i) + seg);
    assert(partial(addr, ops, i + 1, 0) =~= script_upto(addr, ops, i + 1));
}

proof fn lemma_upto_prefix(addr: u8, ops: Seq<OperationView>, i: int, j: int)
    requires
        0 <= i <= j,
    ensures
        script_upto(addr, ops, i).is_prefix_of(script_upto(addr, ops, j)),
    decreases j - i,
{
    if i < j {
        lemma_upto_prefix(addr, ops, i, j - 1);
        let a = script_upto(addr, ops, i);
        let b = script_upto(addr, ops, j - 1);
        let c = script_upto(addr, ops, j);
        assert(c == b + segment(addr, ops, j - 1));
        assert(a =~= c.subrange(0, a.len() as int));
    } else {
        let a = script_upto(addr, ops, i);
        assert(a =~= a.subrange(0, a.len() as int));
    }
}

/// Every position inside the script is a prefix of the whole script.
pub proof fn lemma_partial_prefix(addr: u8, ops: Seq<OperationView>, i: int, k: int)
    requires
        0 <= i < ops.len(),
        0 <= k <= segment(addr, ops, i).len(),
    ensures
        partial(addr, ops, i, k).is_prefix_of(script(addr, ops)),
{
    let p = partial(addr, ops, i, k);
    let next = script_upto(addr, ops, i + 1);
    assert(next == script_upto(addr, ops, i) + segment(addr, ops, i));
    assert(p =~= next.subrange(0, p.len() as int));
    lemma_upto_prefix(addr, ops, i + 1, ops.len() as int);
    let whole = script(addr, ops);
    assert(p =~= whole.subrange(0, p.len() as int));
}

/// What a read has received so far does not show in the script.
pub proof fn lemma_script_ignores_received(
    addr: u8,
    ops: Seq<OperationView>,
    i: int,
    buf: Seq<u8>,
    n: int,
)
    requires
        0 <= i < ops.len(),
        ops[i] is Read,
        buf.len() == ops[i].len(),
        n <= ops.len(),
    ensures
        script_upto(addr, ops.update(i, OperationView::Read(buf)), n) == script_upto(
            addr,
            ops,
            n,
        ),
        forall|j: int|
            0 <= j < ops.len() ==> #[trigger] segment(
                addr,
                ops.update(i, OperationView::Read(buf)),
                j,
            ) == segment(addr, ops, j),
    decreases n,
{
    let changed = ops.update(i, OperationView::Read(buf));
    assert forall|j: int| 0 <= j < ops.len() implies #[trigger] segment(addr, changed, j)
        == segment(addr, ops, j) by {
        assert(changed[j].direction() == ops[j].direction());
        if j > 0 {
            assert(changed[j - 1].direction() == ops[j - 1].direction());
        }
        assert(lead(addr, changed, j) =~= lead(addr, ops, j));
        assert(body(changed, j) =~= body(ops, j));
        assert(tail(changed, j) =~= tail(ops, j));
    }
    if n > 0 {
        lemma_script_ignores_received(addr, ops, i, buf, n - 1);
        assert(segment(addr, changed, n - 1) == segment(addr, ops, n - 1));
    }
}

/// Carrying on the data phase keeps a transfer on the script.
pub proof fn lemma_settle_inv(v: TransferView)
    requires
        v.at_data(),
    ensures
        v.settle().inv(),
    decreases v.ops.len() - v.op,
{
    let s = v.settle();
    lemma_segment_len(v.addr, v.ops, v.op);
    if v.pos < v.current().len() {
        assert(s.progress() == v.lead_len() + v.pos);
    } else if v.is_last() {
        match v.current() {
            OperationView::Write(_) => {
                assert(s.progress() == v.lead_len() + v.pos);
            },
            OperationView::Read(_) => {
                if v.current().len() == 0 {
                    lemma_partial_prefix(v.addr, v.ops, v.op, v.lead_len());
                } else {
                    lemma_partial_turn(v.addr, v.ops, v.op);
                }
            },
        }
    } else {
        lemma_partial_turn(v.addr, v.ops, v.op);
        let turned = TransferView { op: v.op + 1, pos: 0, ..v };
        if v.ops[v.op + 1].direction() != v.current().direction() {
            assert(s.progress() == 0);
        } else {
            assert(!starts_phase(turned.ops, turned.op));
            assert(turned.at_data());
            lemma_settle_inv(turned);
        }
    }
}

proof fn lemma_next_inv_address(v: TransferView, reply: u32)
    requires
        v.inv(),
        v.step is StopWait || v.step is Start || v.step is MasterWait || v.step is Address
            || v.step is AddressClear,
    ensures
        v.next(reply).inv(),
{
    let request = v.request().unwrap();
    lemma_commands_push(v.log, Exchange { request, reply });
    lemma_segment_len(v.addr, v.ops, v.op);
    let logged = TransferView { log: v.log.push(Exchange { request, reply }), ..v };
    let seg = segment(v.addr, v.ops, v.op);
    match v.step {
        Step::Start => {
            assert(seg[0] == request);
            lemma_partial_push(v.addr, v.ops, v.op, 0);
        },
        Step::Address => {
            assert(seg[1] == request);
            lemma_partial_push(v.addr, v.ops, v.op, 1);
        },
        Step::AddressClear => {
            assert(logged.at_data());
            lemma_settle_inv(logged);
        },
        _ => {},
    }
}

proof fn lemma_next_inv_watch(v: TransferView, reply: u32)
    requires
        v.inv(),
        v.step.watches_status(),
    ensures
        v.next(reply).inv(),
{
    let request = v.request().unwrap();
    lemma_commands_push(v.log, Exchange { request, reply });
    lemma_segment_len(v.addr, v.ops, v.op);
    let logged = TransferView { log: v.log.push(Exchange { request, reply }), ..v };
    assert(commands(logged.log) == commands(v.log));
    lemma_partial_prefix(v.addr, v.ops, v.op, v.progress());
    if v.clearing || super::status::flag_to_clear(reply) == 0 {
        let sts1 = if v.clearing {
            v.snapshot
        } else {
            reply
        };
        let calm = TransferView { clearing: false, ..logged };
        assert(v.next(reply) == calm.judge(sts1));
        if super::status::fault(sts1) is None && v.step is TxCompleteWait && super::status::flag(
            sts1,
            super::status::TDC,
        ) {
            let moved = TransferView { pos: calm.pos + 1, ..calm };
            assert(moved.at_data());
            lemma_settle_inv(moved);
        }
    }
}

proof fn lemma_next_inv_data(v: TransferView, reply: u32)
    requires
        v.inv(),
        v.step is TxWrite || v.step is NackStop || v.step is RxRead || v.step is Stop,
    ensures
        v.next(reply).inv(),
{
    let request = v.request().unwrap();
    lemma_commands_push(v.log, Exchange { request, reply });
    lemma_segment_len(v.addr, v.ops, v.op);
    let logged = TransferView { log: v.log.push(Exchange { request, reply }), ..v };
    let seg = segment(v.addr, v.ops, v.op);
    let k = v.progress();
    assert(seg[k] == request);
    lemma_partial_push(v.addr, v.ops, v.op, k);
    match v.step {
        Step::RxRead => {
            let buf = v.current().bytes().update(v.pos, super::model::data_byte(reply));
            let moved = TransferView {
                ops: v.ops.update(v.op, OperationView::Read(buf)),
                pos: v.pos + 1,
                ..logged
            };
            lemma_script_ignores_received(v.addr, v.ops, v.op, buf, v.op);
            assert(segment(v.addr, moved.ops, v.op) == seg);
            assert(moved.current().direction() == v.current().direction());
            if v.op > 0 {
                assert(moved.ops[v.op - 1] == v.ops[v.op - 1]);
            }
            assert(moved.at_data());
            lemma_settle_inv(moved);
        },
        Step::Stop => {
            lemma_partial_turn(v.addr, v.ops, v.op);
        },
        _ => {},
    }
}

/// Every step keeps a transfer on the script.
pub proof fn lemma_next_inv(v: TransferView, reply: u32)
    requires
        v.inv(),
    ensures
        v.next(reply).inv(),
{
    if v.step.is_terminal() {
    } else if v.step.watches_status() {
        lemma_next_inv_watch(v, reply);
    } else if v.step is TxWrite || v.step is NackStop || v.step is RxRead || v.step is Stop {
        lemma_next_inv_data(v, reply);
    } else {
        lemma_next_inv_address(v, reply);
    }
}

/// A fresh transfer is on the script: nothing has been performed.
pub proof fn lemma_initial_inv(addr: u8, ops: Seq<OperationView>)
    ensures
        TransferView::initial(addr, ops).inv(),
{
    let v = TransferView::initial(addr, ops);
    assert(partial(addr, ops, 0, 0) =~= Seq::<Request>::empty());
}

/// The state after the awaited accesses came back with `replies`, one after the
/// other.
pub open spec fn run(v: TransferView, replies: Seq<u32>) -> TransferView
    decreases replies.len(),
{
    if replies.len() == 0 {
        v
    } else {
        run(v, replies.drop_last()).next(replies.last())
    }
}

/// Whatever the registers answer, a transfer stays on the script.
pub proof fn lemma_run_inv(v: TransferView, replies: Seq<u32>)
    requires
        v.inv(),
    ensures
        run(v, replies).inv(),
    decreases replies.len(),
{
    if replies.len() > 0 {
        lemma_run_inv(v, replies.drop_last());
        lemma_next_inv(run(v, replies.drop_last()), replies.last());
    }
}

/// Whatever the registers answer to a transaction of `ops` with `addr`: when
/// it ends successfully, the bus commands it has issued are exactly the
/// script, and at any other time they are a prefix of it.
pub proof fn lemma_transaction_follows_script(
    addr: u8,
    ops: Seq<OperationView>,
    replies: Seq<u32>,
)
    ensures
        ({
            let end = run(TransferView::initial(addr, ops), replies);
            &&& end.addr == addr
            &&& commands(end.log).is_prefix_of(script(addr, end.ops))
            &&& end.step is Finished ==> commands(end.log) == script(addr, end.ops)
            &&& script(addr, end.ops) == script(addr, ops)
        }),
{
    lemma_initial_inv(addr, ops);
    lemma_run_keeps_script(TransferView::initial(addr, ops), replies);
    let end = run(TransferView::initial(addr, ops), replies);
    if end.step.is_terminal() {
        let s = script(addr, end.ops);
        assert(s =~= s.subrange(0, s.len() as int));
    } else {
        lemma_segment_len(end.addr, end.ops, end.op);
        lemma_partial_prefix(end.addr, end.ops, end.op, end.progress());
    }
}

/// A step changes neither the address nor the script of a transfer.
pub proof fn lemma_next_keeps_script(v: TransferView, reply: u32)
    requires
        v.inv(),
    ensures
        v.next(reply).addr == v.addr,
        v.next(reply).ops.len() == v.ops.len(),
        script(v.addr, v.next(reply).ops) == script(v.addr, v.ops),
{
    lemma_settle_keeps(v);
    match v.request() {
        None => {},
        Some(request) => {
            let logged = TransferView { log: v.log.push(Exchange { request, reply }), ..v };
            lemma_settle_keeps(logged);
            let calm = TransferView { clearing: false, ..logged };
            lemma_settle_keeps(TransferView { pos: calm.pos + 1, ..calm });
            lemma_settle_keeps(TransferView { pos: logged.pos + 1, ..logged });
            if v.step is RxRead {
                let buf = v.current().bytes().update(v.pos, super::model::data_byte(reply));
                let moved = TransferView {
                    ops: v.ops.update(v.op, OperationView::Read(buf)),
                    pos: v.pos + 1,
                    ..logged
                };
                lemma_settle_keeps(moved);
                lemma_script_ignores_received(v.addr, v.ops, v.op, buf, v.ops.len() as int);
            }
        },
    }
}

proof fn lemma_settle_keeps(v: TransferView)
    ensures
        v.settle().addr == v.addr,
        v.settle().ops == v.ops,
        v.settle().log == v.log,
    decreases v.ops.len() - v.op,
{
    if 0 <= v.op < v.ops.len() && !(v.pos < v.current().len()) && !v.is_last() {
        let turned = TransferView { op: v.op + 1, pos: 0, ..v };
        if v.ops[v.op + 1].direction() == v.current().direction() {
            lemma_settle_keeps(turned);
        }
    }
}

proof fn lemma_run_keeps_script(v: TransferView, replies: Seq<u32>)
    requires
        v.inv(),
    ensures
        run(v, replies).inv(),
        run(v, replies).addr == v.addr,
        script(v.addr, run(v, replies).ops) == script(v.addr, v.ops),
    decreases replies.len(),
{
    if replies.len() > 0 {
        lemma_run_keeps_script(v, replies.drop_last());
        let before = run(v, replies.drop_last());
        lemma_next_inv(before, replies.last());
        lemma_next_keeps_script(before, replies.last());
    }
}

/// A request that asks the controller for a START condition.
pub open spec fn is_start(r: Request) -> bool {
    r matches Request::Modify(Register::Ctrl1, _, set) && flag(set, GENSTART)
}

/// A request that asks the controller for a STOP condition.
pub open spec fn is_stop(r: Request) -> bool {
    r matches Request::Modify(Register::Ctrl1, _, set) && flag(set, GENSTOP)
}

/// A request that switches acknowledge off and asks for STOP at once.
pub open spec fn is_nack_stop(r: Request) -> bool {
    r matches Request::Modify(Register::Ctrl1, clear, set) && flag(clear, ACKEN) && flag(
        set,
        GENSTOP,
    )
}

/// Which of the named requests ask for START, which for STOP.
pub proof fn lemma_request_kinds(d: Direction)
    ensures
        is_start(start_request(d)),
        !is_stop(start_request(d)),
        !is_start(stop_request()),
        is_stop(stop_request()),
        !is_nack_stop(stop_request()),
        !is_start(nack_stop_request()),
        is_stop(nack_stop_request()),
        is_nack_stop(nack_stop_request()),
{
    assert(0x0100u32 & 0x0100u32 != 0) by (bit_vector);
    assert((0x0100u32 | 0x0400u32) & 0x0100u32 != 0) by (bit_vector);
    assert(0x0100u32 & 0x0200u32 == 0) by (bit_vector);
    assert((0x0100u32 | 0x0400u32) & 0x0200u32 == 0) by (bit_vector);
    assert(0x0200u32 & 0x0100u32 == 0) by (bit_vector);
    assert(0x0200u32 & 0x0200u32 != 0) by (bit_vector);
    assert(0u32 & 0x0400u32 == 0) by (bit_vector);
    assert(0x0400u32 & 0x0400u32 != 0) by (bit_vector);
}

/// Where the commands of one operation ask for START and for STOP. START
/// comes first, and only where the operation is the first one or turns the
/// direction: operations of one direction that follow each other share one
/// address phase. STOP comes in the last operation only: after the last byte of
/// a write, and, together with acknowledge being switched off, ahead of the
/// last byte of a read, when all bytes before it have been clocked in. An empty
/// read in last place, which fails, has no STOP.
pub proof fn lemma_segment_start_stop(addr: u8, ops: Seq<OperationView>, i: int)
    requires
        0 <= i < ops.len(),
    ensures
        forall|k: int|
            0 <= k < segment(addr, ops, i).len() ==> (is_start(
                #[trigger] segment(addr, ops, i)[k],
            ) <==> starts_phase(ops, i) && k == 0),
        forall|k: int|
            0 <= k < segment(addr, ops, i).len() ==> (is_stop(
                #[trigger] segment(addr, ops, i)[k],
            ) <==> i == ops.len() - 1 && (if ops[i] is Write {
                k == segment(addr, ops, i).len() - 1
            } else {
                ops[i].len() > 0 && k == segment(addr, ops, i).len() - 2
            })),
        forall|k: int|
            0 <= k < segment(addr, ops, i).len() ==> (is_nack_stop(
                #[trigger] segment(addr, ops, i)[k],
            ) <==> i == ops.len() - 1 && ops[i] is Read && ops[i].len() > 0 && k == segment(
                addr,
                ops,
                i,
            ).len() - 2),
        i == ops.len() - 1 && ops[i] is Read && ops[i].len() > 0 ==> {
            &&& segment(addr, ops, i).len() == lead(addr, ops, i).len() + ops[i].len() + 1
            &&& segment(addr, ops, i).last() == clock_in_request()
            &&& forall|k: int|
                lead(addr, ops, i).len() <= k < segment(addr, ops, i).len() - 2
                    ==> #[trigger] segment(addr, ops, i)[k] == clock_in_request()
        },
{
    lemma_segment_len(addr, ops, i);
    lemma_request_kinds(Direction::Read);
    lemma_request_kinds(Direction::Write);
    let seg = segment(addr, ops, i);
    let l = lead(addr, ops, i).len() as int;
    let b = body(ops, i).len() as int;
    assert forall|k: int| 0 <= k < seg.len() implies (is_start(#[trigger] seg[k])
        <==> starts_phase(ops, i) && k == 0) && (is_stop(seg[k]) <==> i == ops.len() - 1 && (
    if ops[i] is Write {
        k == seg.len() - 1
    } else {
        ops[i].len() > 0 && k == seg.len() - 2
    })) && (is_nack_stop(seg[k]) <==> i == ops.len() - 1 && ops[i] is Read && ops[i].len() > 0
        && k == seg.len() - 2) by {
        if k < l {
            assert(seg[k] == lead(addr, ops, i)[k]);
        } else if k < l + b {
            assert(seg[k] == body(ops, i)[k - l]);
        } else {
            assert(seg[k] == tail(ops, i)[k - l - b]);
        }
    }
    if i == ops.len() - 1 && ops[i] is Read && ops[i].len() > 0 {
        assert(seg.last() == body(ops, i)[b - 1]);
        assert forall|k: int| l <= k < seg.len() - 2 implies #[trigger] seg[k]
            == clock_in_request() by {
            assert(seg[k] == body(ops, i)[k - l]);
        }
    }
}

/// The bytes of a write, as commands.
pub open spec fn sends(bytes: Seq<u8>) -> Seq<Request> {
    Seq::new(bytes.len(), |k: int| data_request(bytes[k]))
}

/// `n` bytes being clocked in.
pub open spec fn clock_ins(n: int) -> Seq<Request> {
    Seq::new(n as nat, |k: int| clock_in_request())
}

/// A transaction without operations issues nothing.
pub proof fn lemma_empty_script(addr: u8)
    ensures
        script(addr, Seq::empty()) == Seq::<Request>::empty(),
        TransferView::initial(addr, Seq::empty()).step is Finished,
        TransferView::initial(addr, Seq::empty()).log.len() == 0,
{
}

/// Reading `n >= 1` bytes: START, the address, `n - 1` bytes clocked in, then
/// acknowledge off and STOP armed, then the last byte.
pub proof fn lemma_read_script(addr: u8, buf: Seq<u8>)
    requires
        buf.len() >= 1,
    ensures
        script(addr, seq![OperationView::Read(buf)]) == seq![
            start_request(Direction::Read),
            address_request(addr, Direction::Read),
        ] + clock_ins(buf.len() - 1) + seq![nack_stop_request(), clock_in_request()],
{
    let ops = seq![OperationView::Read(buf)];
    reveal_with_fuel(script_upto, 2);
    lemma_segment_len(addr, ops, 0);
    assert(script(addr, ops) =~= seq![
        start_request(Direction::Read),
        address_request(addr, Direction::Read),
    ] + clock_ins(buf.len() - 1) + seq![nack_stop_request(), clock_in_request()]);
}

/// Writing bytes: START, the address, the bytes, STOP.
pub proof fn lemma_write_script(addr: u8, bytes: Seq<u8>)
    ensures
        script(addr, seq![OperationView::Write(bytes)]) == seq![
            start_request(Direction::Write),
            address_request(addr, Direction::Write),
        ] + sends(bytes) + seq![stop_request()],
{
    let ops = seq![OperationView::Write(bytes)];
    reveal_with_fuel(script_upto, 2);
    lemma_segment_len(addr, ops, 0);
    assert(script(addr, ops) =~= seq![
        start_request(Direction::Write),
        address_request(addr, Direction::Write),
    ] + sends(bytes) + seq![stop_request()]);
}

/// Two writes in a row: one START, one address byte, the bytes of both without
/// anything in between, one STOP.
pub proof fn lemma_write_write_script(addr: u8, a: Seq<u8>, b: Seq<u8>)
    ensures
        script(addr, seq![OperationView::Write(a), OperationView::Write(b)]) == seq![
            start_request(Direction::Write),
            address_request(addr, Direction::Write),
        ] + sends(a) + sends(b) + seq![stop_request()],
{
    let ops = seq![OperationView::Write(a), OperationView::Write(b)];
    reveal_with_fuel(script_upto, 3);
    lemma_segment_len(addr, ops, 0);
    lemma_segment_len(addr, ops, 1);
    assert(script(addr, ops) =~= seq![
        start_request(Direction::Write),
        address_request(addr, Direction::Write),
    ] + sends(a) + sends(b) + seq![stop_request()]);
}

/// A write, then a read of `n >= 1` bytes: START, the address for writing, the
/// bytes, a second START, the address for reading, `n - 1` bytes clocked in,
/// acknowledge off and STOP armed, the last byte.
pub proof fn lemma_write_read_script(addr: u8, bytes: Seq<u8>, buf: Seq<u8>)
    requires
        buf.len() >= 1,
    ensures
        script(addr, seq![OperationView::Write(bytes), OperationView::Read(buf)]) == seq![
            start_request(Direction::Write),
            address_request(addr, Direction::Write),
        ] + sends(bytes) + seq![
            start_request(Direction::Read),
            address_request(addr, Direction::Read),
        ] + clock_ins(buf.len() - 1) + seq![nack_stop_request(), clock_in_request()],
{
    let ops = seq![OperationView::Write(bytes), OperationView::Read(buf)];
    reveal_with_fuel(script_upto, 3);
    lemma_segment_len(addr, ops, 0);
    lemma_segment_len(addr, ops, 1);
    assert(script(addr, ops) =~= seq![
        start_request(Direction::Write),
        address_request(addr, Direction::Write),
    ] + sends(bytes) + seq![
        start_request(Direction::Read),
        address_request(addr, Direction::Read),
    ] + clock_ins(buf.len() - 1) + seq![nack_stop_request(), clock_in_request()]);
}

/// A missing acknowledge is reported by the phase it was seen in. Once a
/// status word shows it, the transfer clears that flag and nothing else, and
/// then fails: with the address as source while the address acknowledge or the
/// transmit register is waited for, with the data as source while a byte is on
/// its way out or in.
pub proof fn lemma_nack_tagged_by_phase(v: TransferView, sts1: u32, ignored: u32)
    requires
        v.inv(),
        v.step.watches_status(),
        !v.clearing,
        fault(sts1) == Some(Error::NoAcknowledge(NoAcknowledgeSource::Unknown)),
    ensures
        v.request() == Some(Request::Read(Register::Sts1)),
        v.next(sts1).request() == Some(Request::Modify(Register::Sts1, ACKFAIL, 0)),
        v.step is AddressWait || v.step is TxEmptyWait ==> v.next(sts1).next(ignored).step
            == Step::Failed(Error::NoAcknowledge(NoAcknowledgeSource::Address)),
        v.step is TxCompleteWait || v.step is RxWait ==> v.next(sts1).next(ignored).step
            == Step::Failed(Error::NoAcknowledge(NoAcknowledgeSource::Data)),
        v.step is StartWait || v.step is MasterCheck ==> v.next(sts1).next(ignored).step
            == Step::Failed(Error::NoAcknowledge(NoAcknowledgeSource::Unknown)),
{
}

/// The bytes that came in: for every read of the data register in the log,
/// in order, the byte that the word read carries.
pub open spec fn received(log: Seq<Exchange>) -> Seq<u8>
    decreases log.len(),
{
    if log.len() == 0 {
        Seq::empty()
    } else if log.last().request == clock_in_request() {
        received(log.drop_last()).push(data_byte(log.last().reply))
    } else {
        received(log.drop_last())
    }
}

/// The read buffers of the first `n` operations, one behind the other.
pub open spec fn read_buffers(ops: Seq<OperationView>, n: int) -> Seq<u8>
    decreases n,
{
    if n <= 0 {
        Seq::empty()
    } else if ops[n - 1] is Read {
        read_buffers(ops, n - 1) + ops[n - 1].bytes()
    } else {
        read_buffers(ops, n - 1)
    }
}

impl TransferView {
    /// What has been stored in read buffers so far: the buffers of the
    /// operations that are done, and the part of the current one that is.
    pub open spec fn filled(self) -> Seq<u8> {
        if 0 <= self.op < self.ops.len() && self.current() is Read {
            read_buffers(self.ops, self.op) + self.current().bytes().take(self.pos)
        } else {
            read_buffers(self.ops, self.op)
        }
    }

    /// What holds of the data of every transfer: the read buffers hold, in
    /// order, exactly the bytes that came in.
    pub open spec fn data_inv(self) -> bool {
        &&& received(self.log) == self.filled()
        &&& self.step is Finished && self.ops.len() > 0 ==> self.is_last() && self.pos
            == self.current().len()
    }
}

pub proof fn lemma_received_push(log: Seq<Exchange>, e: Exchange)
    ensures
        received(log.push(e)) == if e.request == clock_in_request() {
            received(log).push(data_byte(e.reply))
        } else {
            received(log)
        },
{
    assert(log.push(e).drop_last() =~= log);
}

/// Read buffers up to `n` do not depend on operations from `n` on.
proof fn lemma_read_buffers_local(a: Seq<OperationView>, b: Seq<OperationView>, n: int)
    requires
        n <= a.len(),
        n <= b.len(),
        forall|i: int| 0 <= i < n ==> a[i] == b[i],
    ensures
        read_buffers(a, n) == read_buffers(b, n),
    decreases n,
{
    if n > 0 {
        lemma_read_buffers_local(a, b, n - 1);
    }
}

proof fn lemma_settle_data(v: TransferView)
    requires
        0 <= v.op < v.ops.len(),
        0 <= v.pos <= v.current().len(),
        v.data_inv(),
    ensures
        v.settle().data_inv(),
    decreases v.ops.len() - v.op,
{
    lemma_settle_keeps(v);
    let s = v.settle();
    if v.pos < v.current().len() || v.is_last() {
        assert(s.op == v.op && s.pos == v.pos);
    } else {
        let turned = TransferView { op: v.op + 1, pos: 0, ..v };
        assert(v.current().bytes().take(v.pos) =~= v.current().bytes());
        assert(turned.current().bytes().take(0) =~= Seq::<u8>::empty());
        assert(turned.filled() =~= v.filled());
        if v.ops[v.op + 1].direction() != v.current().direction() {
        } else {
            lemma_settle_data(turned);
        }
    }
}

/// Every step keeps the read buffers in line with the bytes that came in.
pub proof fn lemma_next_data_inv(v: TransferView, reply: u32)
    requires
        v.inv(),
        v.data_inv(),
    ensures
        v.next(reply).data_inv(),
{
    match v.request() {
        None => {},
        Some(request) => {
            lemma_received_push(v.log, Exchange { request, reply });
            let logged = TransferView { log: v.log.push(Exchange { request, reply }), ..v };
            match v.step {
                Step::RxRead => {
                    let buf = v.current().bytes().update(v.pos, data_byte(reply));
                    let moved = TransferView {
                        ops: v.ops.update(v.op, OperationView::Read(buf)),
                        pos: v.pos + 1,
                        ..logged
                    };
                    lemma_read_buffers_local(v.ops, moved.ops, v.op);
                    assert(buf.take(v.pos + 1) =~= v.current().bytes().take(v.pos).push(
                        data_byte(reply),
                    ));
                    assert(moved.filled() =~= v.filled().push(data_byte(reply)));
                    lemma_settle_data(moved);
                },
                Step::AddressClear => {
                    lemma_settle_data(logged);
                },
                Step::StopWait | Step::Start | Step::MasterWait | Step::Address | Step::TxWrite
                | Step::NackStop | Step::Stop => {},
                _ => {
                    if v.clearing || super::status::flag_to_clear(reply) == 0 {
                        let sts1 = if v.clearing {
                            v.snapshot
                        } else {
                            reply
                        };
                        let calm = TransferView { clearing: false, ..logged };
                        assert(v.next(reply) == calm.judge(sts1));
                        if super::status::fault(sts1) is None && v.step is TxCompleteWait
                            && super::status::flag(sts1, super::status::TDC) {
                            let moved = TransferView { pos: calm.pos + 1, ..calm };
                            assert(moved.filled() == v.filled());
                            lemma_settle_data(moved);
                        }
                    }
                },
            }
        },
    }
}

/// Whatever the registers answer to a transaction of `ops` with `addr`: the
/// read buffers hold, in order, exactly the bytes that came in, and once the
/// transaction has ended successfully these fill every read buffer.
pub proof fn lemma_transaction_stores_what_came_in(
    addr: u8,
    ops: Seq<OperationView>,
    replies: Seq<u32>,
)
    ensures
        ({
            let end = run(TransferView::initial(addr, ops), replies);
            &&& received(end.log) == end.filled()
            &&& end.step is Finished ==> received(end.log) == read_buffers(
                end.ops,
                end.ops.len() as int,
            )
        }),
{
    lemma_initial_inv(addr, ops);
    let start = TransferView::initial(addr, ops);
    assert(start.filled() =~= Seq::<u8>::empty()) by {
        assert(start.current().bytes().take(0) =~= Seq::<u8>::empty());
    }
    lemma_run_data_inv(start, replies);
    let end = run(start, replies);
    if ops.len() == 0 {
        lemma_run_of_done(start, replies);
    } else if end.step is Finished {
        lemma_run_keeps_script(start, replies);
        lemma_ops_len_kept(start, replies);
        assert(end.current().bytes().take(end.pos) =~= end.current().bytes());
        assert(read_buffers(end.ops, end.ops.len() as int) == end.filled());
    }
}

/// A transfer that is done stays as it is, whatever it is handed.
pub proof fn lemma_run_of_done(v: TransferView, replies: Seq<u32>)
    requires
        v.step.is_terminal(),
    ensures
        run(v, replies) == v,
    decreases replies.len(),
{
    if replies.len() > 0 {
        lemma_run_of_done(v, replies.drop_last());
    }
}

proof fn lemma_ops_len_kept(v: TransferView, replies: Seq<u32>)
    requires
        v.inv(),
    ensures
        run(v, replies).ops.len() == v.ops.len(),
    decreases replies.len(),
{
    if replies.len() > 0 {
        lemma_ops_len_kept(v, replies.drop_last());
        lemma_run_inv(v, replies.drop_last());
        lemma_next_keeps_script(run(v, replies.drop_last()), replies.last());
    }
}

proof fn lemma_run_data_inv(v: TransferView, replies: Seq<u32>)
    requires
        v.inv(),
        v.data_inv(),
    ensures
        run(v, replies).inv(),
        run(v, replies).data_inv(),
    decreases replies.len(),
{
    if replies.len() > 0 {
        lemma_run_data_inv(v, replies.drop_last());
        let before = run(v, replies.drop_last());
        lemma_next_inv(before, replies.last());
        lemma_next_data_inv(before, replies.last());
    }
}

} // verus!

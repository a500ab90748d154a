//! Planning an SPI transaction for the radio's worker thread: each
//! operation becomes a self-contained operation the thread can carry out,
//! and each delay is folded into the operation before it.

use crate::sound::SendableOperation;
use vstd::prelude::*;

verus! {

/// One operation of an SPI transaction, as the radio driver asks for it.
/// A read or transfer names only the length of the buffer it fills.
#[derive(Debug)]
pub enum SpiOp {
    Write(Vec<u8>),
    Read(usize),
    Transfer(usize, Vec<u8>),
    TransferInPlace(Vec<u8>),
    DelayNs(u32),
}

/// An SPI operation with its data as a sequence.
pub enum SpiOpView {
    Write(Seq<u8>),
    Read(usize),
    Transfer(usize, Seq<u8>),
    TransferInPlace(Seq<u8>),
    DelayNs(u32),
}

impl View for SpiOp {
    type V = SpiOpView;

    open spec fn view(&self) -> SpiOpView {
        match self {
            SpiOp::Write(d) => SpiOpView::Write(d@),
            SpiOp::Read(n) => SpiOpView::Read(*n),
            SpiOp::Transfer(n, d) => SpiOpView::Transfer(*n, d@),
            SpiOp::TransferInPlace(d) => SpiOpView::TransferInPlace(d@),
            SpiOp::DelayNs(ns) => SpiOpView::DelayNs(*ns),
        }
    }
}

/// A worker-thread operation with its data as a sequence.
pub enum SendableView {
    Write { data: Seq<u8>, delay: u16 },
    Read { count: usize, index: usize, delay: u16 },
    Transaction { data: Seq<u8>, count: usize, index: usize, delay: u16 },
}

impl View for SendableOperation {
    type V = SendableView;

    open spec fn view(&self) -> SendableView {
        match self {
            SendableOperation::Write { data, delay } => SendableView::Write {
                data: data@,
                delay: *delay,
            },
            SendableOperation::Read { count, index, delay } => SendableView::Read {
                count: *count,
                index: *index,
                delay: *delay,
            },
            SendableOperation::Transaction { data, count, index, delay } =>
                SendableView::Transaction { data: data@, count: *count, index: *index, delay: *delay },
        }
    }
}

/// Why a transaction cannot be planned.
#[derive(Debug, Clone, Copy, PartialEq, Eq, Structural)]
pub enum SpiPlanError {
    /// The first operation is a delay, with nothing before it to wait after.
    FirstIsDelay,
    /// A delay, or the delays after one operation together, pass 65535 µs.
    DelayTooLong,
}

/// A delay in nanoseconds as whole microseconds, rounded up.
pub open spec fn delay_micros(ns: u32) -> int {
    (ns + 999) / 1000
}

/// A delay is rounded up to whole microseconds: the rounded delay covers the
/// asked-for nanoseconds, and one microsecond less would not.
pub proof fn lemma_delay_rounds_up(ns: u32)
    ensures
        delay_micros(ns) * 1000 >= ns,
        (delay_micros(ns) - 1) * 1000 < ns || ns == 0,
        ns == 0 ==> delay_micros(ns) == 0,
{
    let q = delay_micros(ns);
    assert(q * 1000 >= ns && ((q - 1) * 1000 < ns || ns == 0)) by (nonlinear_arith)
        requires
            q == (ns + 999) / 1000,
            ns >= 0,
    ;
}

/// The delay of a planned operation.
pub open spec fn sendable_delay(op: SendableView) -> u16 {
    match op {
        SendableView::Write { delay, .. } => delay,
        SendableView::Read { delay, .. } => delay,
        SendableView::Transaction { delay, .. } => delay,
    }
}

/// The planned operation with another delay.
pub open spec fn with_delay(op: SendableView, d: u16) -> SendableView {
    match op {
        SendableView::Write { data, .. } => SendableView::Write { data, delay: d },
        SendableView::Read { count, index, .. } => SendableView::Read { count, index, delay: d },
        SendableView::Transaction { data, count, index, .. } => SendableView::Transaction {
            data,
            count,
            index,
            delay: d,
        },
    }
}

/// The plan of a transaction: every buffer operation in order, reads and
/// transfers carrying their position in `ops` and the length to fill (an
/// in-place transfer fills as much as it sends), each with no delay; a delay
/// is rounded up to whole microseconds and added to the operation before it.
/// Refused when the first operation is a delay, or when a delay or the sum
/// of the delays after one operation passes 65535 µs; the first refusal in
/// order is the one given.
pub open spec fn spi_plan(ops: Seq<SpiOpView>) -> Result<Seq<SendableView>, SpiPlanError>
    decreases ops.len(),
{
    if ops.len() == 0 {
        Ok(Seq::empty())
    } else {
        match spi_plan(ops.drop_last()) {
            Err(e) => Err(e),
            Ok(prev) => {
                let i = (ops.len() - 1) as usize;
                match ops.last() {
                    SpiOpView::Write(d) => Ok(prev.push(SendableView::Write { data: d, delay: 0 })),
                    SpiOpView::Read(n) => Ok(
                        prev.push(SendableView::Read { count: n, index: i, delay: 0 }),
                    ),
                    SpiOpView::Transfer(n, d) => Ok(
                        prev.push(
                            SendableView::Transaction { data: d, count: n, index: i, delay: 0 },
                        ),
                    ),
                    SpiOpView::TransferInPlace(d) => Ok(
                        prev.push(
                            SendableView::Transaction {
                                data: d,
                                count: d.len() as usize,
                                index: i,
                                delay: 0,
                            },
                        ),
                    ),
                    SpiOpView::DelayNs(ns) => if prev.len() == 0 {
                        Err(SpiPlanError::FirstIsDelay)
                    } else if delay_micros(ns) > u16::MAX || sendable_delay(prev.last())
                        + delay_micros(ns) > u16::MAX {
                        Err(SpiPlanError::DelayTooLong)
                    } else {
                        Ok(
                            prev.update(
                                prev.len() - 1,
                                with_delay(
                                    prev.last(),
                                    (sendable_delay(prev.last()) + delay_micros(ns)) as u16,
                                ),
                            ),
                        )
                    },
                }
            },
        }
    }
}

/// The views of a list of operations.
pub open spec fn op_views(ops: Seq<SpiOp>) -> Seq<SpiOpView> {
    ops.map_values(|o: SpiOp| o@)
}

/// The views of a list of planned operations.
pub open spec fn sendable_views(ops: Seq<SendableOperation>) -> Seq<SendableView> {
    ops.map_values(|o: SendableOperation| o@)
}

proof fn lemma_plan_refusal_stays(ops: Seq<SpiOpView>, j: int)
    requires
        0 <= j <= ops.len(),
        spi_plan(ops.take(j)) is Err,
    ensures
        spi_plan(ops) == spi_plan(ops.take(j)),
    decreases ops.len(),
{
    if j == ops.len() {
        assert(ops.take(j) =~= ops);
    } else {
        assert(ops.drop_last().take(j) =~= ops.take(j));
        lemma_plan_refusal_stays(ops.drop_last(), j);
    }
}

/// Plans a transaction for the worker thread; see `spi_plan`.
pub fn plan_spi_ops(ops: &[SpiOp]) -> (r: Result<Vec<SendableOperation>, SpiPlanError>)
    ensures
        match r {
            Ok(v) => spi_plan(op_views(ops@)) == Ok::<Seq<SendableView>, SpiPlanError>(
                sendable_views(v@),
            ),
            Err(e) => spi_plan(op_views(ops@)) == Err::<Seq<SendableView>, SpiPlanError>(e),
        },
{
    let ghost all = op_views(ops@);
    let mut out: Vec<SendableOperation> = Vec::new();
    let mut i: usize = 0;
    assert(all.take(0) =~= Seq::<SpiOpView>::empty());
    assert(sendable_views(out@) =~= Seq::<SendableView>::empty());
    while i < ops.len()
        invariant
            0 <= i <= ops@.len(),
            all == op_views(ops@),
            spi_plan(all.take(i as int)) == Ok::<Seq<SendableView>, SpiPlanError>(
                sendable_views(out@),
            ),
        decreases ops@.len() - i,
    {
        let ghost prev = sendable_views(out@);
        assert(all.take(i as int + 1).drop_last() =~= all.take(i as int));
        assert(all.take(i as int + 1).last() == ops@[i as int]@);
        match &ops[i] {
            SpiOp::Write(d) => {
                out.push(SendableOperation::Write { data: d.clone(), delay: 0 });
            },
            SpiOp::Read(n) => {
                out.push(SendableOperation::Read { count: *n, index: i, delay: 0 });
            },
            SpiOp::Transfer(n, d) => {
                out.push(SendableOperation::Transaction { data: d.clone(), count: *n, index: i, delay: 0 });
            },
            SpiOp::TransferInPlace(d) => {
                out.push(
                    SendableOperation::Transaction { data: d.clone(), count: d.len(), index: i, delay: 0 },
                );
            },
            SpiOp::DelayNs(ns) => {
                if out.len() == 0 {
                    proof {
                        lemma_plan_refusal_stays(all, i as int + 1);
                    }
                    return Err(SpiPlanError::FirstIsDelay);
                }
                let us: u64 = ((*ns as u64) + 999) / 1000;
                let k = out.len() - 1;
                let cur = out[k].delay();
                if us > 65535 || (cur as u64) + us > 65535 {
                    proof {
                        lemma_plan_refusal_stays(all, i as int + 1);
                    }
                    return Err(SpiPlanError::DelayTooLong);
                }
                let mut last = out.pop().unwrap();
                last.set_delay(cur + (us as u16));
                out.push(last);
            },
        }
        assert(sendable_views(out@) =~= spi_plan(all.take(i as int + 1))->Ok_0);
        i = i + 1;
    }
    assert(all.take(ops@.len() as int) =~= all);
    Ok(out)
}

} // verus!

//! The bus traffic of the driver, as a record and as a plan.
//!
//! The driver keeps a ghost record of every transaction it starts and how it ended. What an
//! operation does on the bus is then stated as a plan: the steps it takes in order. The
//! record of an operation follows its plan up to the first transaction that fails, and the
//! operation succeeds exactly when none fails.

use vstd::prelude::*;

verus! {

/// One transaction on the bus, as it ended.
pub ghost enum Transfer {
    /// `register` of the device at `address` was selected and `asked` bytes were asked
    /// for. `data` holds what the buffer held when the transaction had completed, or is
    /// `None` where the transaction failed.
    Read { address: u8, register: u8, asked: nat, data: Option<Seq<u8>> },
    /// `bytes` were sent to the device at `address`, the register's address first. `done`
    /// tells whether the transaction completed.
    Write { address: u8, bytes: Seq<u8>, done: bool },
}

impl Transfer {
    /// The bus address of the device that the transaction was with.
    pub open spec fn device(self) -> u8 {
        match self {
            Transfer::Read { address, .. } => address,
            Transfer::Write { address, .. } => address,
        }
    }

    /// Whether the transaction completed.
    pub open spec fn succeeded(self) -> bool {
        match self {
            Transfer::Read { data, .. } => data is Some,
            Transfer::Write { done, .. } => done,
        }
    }

    /// Whether the transaction is a write of `payload` to `register`.
    pub open spec fn writes(self, register: u8, payload: Seq<u8>) -> bool {
        match self {
            Transfer::Read { .. } => false,
            Transfer::Write { bytes, .. } => bytes =~= seq![register] + payload,
        }
    }

    /// Whether the transaction is a read of one byte from `register`: one byte was asked
    /// for, and where the transaction completed one byte came.
    pub open spec fn reads(self, register: u8) -> bool {
        match self {
            Transfer::Read { register: selected, asked, data, .. } => {
                &&& selected == register
                &&& asked == 1
                &&& data matches Some(bytes) ==> bytes.len() == 1
            },
            Transfer::Write { .. } => false,
        }
    }
}

/// One step of an operation.
pub ghost enum Step {
    /// Read one byte from `register`.
    Read { register: u8 },
    /// Write the bytes of `payload` to `register`.
    Write { register: u8, payload: Seq<u8> },
    /// Read `register`, keep the bits of `keep`, set the bits of `field`, write it back.
    Update { register: u8, keep: u8, field: u8 },
}

/// The plan that reads `registers` one after the other.
pub open spec fn reads(registers: Seq<u8>) -> Seq<Step> {
    Seq::new(registers.len(), |i: int| Step::Read { register: registers[i] })
}

/// Whether every transaction of `log` completed.
pub open spec fn all_succeeded(log: Seq<Transfer>) -> bool {
    forall|i: int| 0 <= i < log.len() ==> (#[trigger] log[i]).succeeded()
}

/// Whether every transaction of `log` was with the device at `address`.
pub open spec fn all_with(log: Seq<Transfer>, address: u8) -> bool {
    forall|i: int| 0 <= i < log.len() ==> (#[trigger] log[i]).device() == address
}

/// The bytes that the reads of `log` brought, in the order in which they came.
pub open spec fn bytes_read(log: Seq<Transfer>) -> Seq<u8>
    decreases log.len(),
{
    if log.len() == 0 {
        Seq::empty()
    } else {
        let earlier = bytes_read(log.drop_last());
        match log.last() {
            Transfer::Read { data: Some(bytes), .. } => earlier + bytes,
            _ => earlier,
        }
    }
}

/// Whether `log` is what `plan` leaves on the bus: its steps in order, each with the
/// transactions it calls for, and nothing after the first transaction that failed.
pub open spec fn follows(log: Seq<Transfer>, plan: Seq<Step>) -> bool
    decreases plan.len(),
{
    if plan.len() == 0 {
        log.len() == 0
    } else if log.len() == 0 {
        false
    } else {
        match plan[0] {
            Step::Read { register } => {
                &&& log[0].reads(register)
                &&& if log[0].succeeded() {
                    follows(log.skip(1), plan.skip(1))
                } else {
                    log.len() == 1
                }
            },
            Step::Write { register, payload } => {
                &&& log[0].writes(register, payload)
                &&& if log[0].succeeded() {
                    follows(log.skip(1), plan.skip(1))
                } else {
                    log.len() == 1
                }
            },
            Step::Update { register, keep, field } => {
                &&& log[0].reads(register)
                &&& match log[0] {
                    Transfer::Read { data: Some(old), .. } => {
                        &&& log.len() >= 2
                        &&& log[1].writes(register, seq![(old[0] & keep) | field])
                        &&& if log[1].succeeded() {
                            follows(log.skip(2), plan.skip(1))
                        } else {
                            log.len() == 2
                        }
                    },
                    _ => log.len() == 1,
                }
            },
        }
    }
}

/// The transactions of `after` that `before` does not hold yet.
pub open spec fn news(before: Seq<Transfer>, after: Seq<Transfer>) -> Seq<Transfer> {
    after.skip(before.len() as int)
}

/// Whether the record grew from `before` to `after` by what `plan` leaves on the bus.
pub open spec fn ran(before: Seq<Transfer>, after: Seq<Transfer>, plan: Seq<Step>) -> bool {
    &&& before.len() <= after.len()
    &&& after.take(before.len() as int) == before
    &&& follows(news(before, after), plan)
}

/// The bytes read over two stretches of the record are those of the first, then those of
/// the second.
pub proof fn lemma_bytes_read_joined(a: Seq<Transfer>, b: Seq<Transfer>)
    ensures
        bytes_read(a + b) == bytes_read(a) + bytes_read(b),
    decreases b.len(),
{
    if b.len() == 0 {
        assert(a + b =~= a);
        assert(bytes_read(a) + bytes_read(b) =~= bytes_read(a));
    } else {
        lemma_bytes_read_joined(a, b.drop_last());
        assert((a + b).drop_last() =~= a + b.drop_last());
        assert((a + b).last() == b.last());
        let earlier = bytes_read(a) + bytes_read(b.drop_last());
        match b.last() {
            Transfer::Read { data: Some(bytes), .. } => {
                assert(earlier + bytes =~= bytes_read(a) + (bytes_read(b.drop_last()) + bytes));
            },
            _ => {},
        }
    }
}

/// A single read brought the bytes it holds, and none where it failed.
pub proof fn lemma_bytes_read_one(read: Transfer)
    requires
        read is Read,
    ensures
        bytes_read(seq![read]) == match read {
            Transfer::Read { data: Some(bytes), .. } => bytes,
            _ => Seq::<u8>::empty(),
        },
{
    let log = seq![read];
    assert(log.drop_last() =~= Seq::<Transfer>::empty());
    assert(bytes_read(log.drop_last()) =~= Seq::<u8>::empty());
    reveal_with_fuel(bytes_read, 2);
    match read {
        Transfer::Read { data: Some(bytes), .. } => {
            assert(Seq::<u8>::empty() + bytes =~= bytes);
        },
        _ => {},
    }
}

/// Two stretches of the record completed exactly when each of them did.
pub proof fn lemma_all_succeeded_joined(a: Seq<Transfer>, b: Seq<Transfer>)
    ensures
        all_succeeded(a + b) <==> all_succeeded(a) && all_succeeded(b),
{
    if all_succeeded(a + b) {
        assert forall|i: int| 0 <= i < a.len() implies (#[trigger] a[i]).succeeded() by {
            assert((a + b)[i] == a[i]);
        }
        assert forall|i: int| 0 <= i < b.len() implies (#[trigger] b[i]).succeeded() by {
            assert((a + b)[a.len() + i] == b[i]);
        }
    }
    if all_succeeded(a) && all_succeeded(b) {
        assert forall|i: int| 0 <= i < (a + b).len() implies (#[trigger] (a
            + b)[i]).succeeded() by {
            if i < a.len() {
                assert((a + b)[i] == a[i]);
            } else {
                assert((a + b)[i] == b[i - a.len()]);
            }
        }
    }
}

/// Two stretches of the record were with one device exactly when each of them was.
pub proof fn lemma_all_with_joined(a: Seq<Transfer>, b: Seq<Transfer>, address: u8)
    ensures
        all_with(a + b, address) <==> all_with(a, address) && all_with(b, address),
{
    if all_with(a + b, address) {
        assert forall|i: int| 0 <= i < a.len() implies (#[trigger] a[i]).device() == address by {
            assert((a + b)[i] == a[i]);
        }
        assert forall|i: int| 0 <= i < b.len() implies (#[trigger] b[i]).device() == address by {
            assert((a + b)[a.len() + i] == b[i]);
        }
    }
    if all_with(a, address) && all_with(b, address) {
        assert forall|i: int| 0 <= i < (a + b).len() implies (#[trigger] (a + b)[i]).device()
            == address by {
            if i < a.len() {
                assert((a + b)[i] == a[i]);
            } else {
                assert((a + b)[i] == b[i - a.len()]);
            }
        }
    }
}

/// A plan that ran to its end, followed by a second plan, is the two plans run in a row.
pub proof fn lemma_follows_joined(a: Seq<Transfer>, p: Seq<Step>, b: Seq<Transfer>, q: Seq<Step>)
    requires
        follows(a, p),
        all_succeeded(a),
        follows(b, q),
    ensures
        follows(a + b, p + q),
    decreases p.len(),
{
    if p.len() == 0 {
        assert(a + b =~= b);
        assert(p + q =~= q);
    } else {
        assert((p + q)[0] == p[0]);
        assert((p + q).skip(1) =~= p.skip(1) + q);
        assert((a + b)[0] == a[0]);
        assert(a[0].succeeded());
        match p[0] {
            Step::Update { register, keep, field } => {
                assert((a + b)[1] == a[1]);
                assert(a[1].succeeded());
                assert((a + b).skip(2) =~= a.skip(2) + b);
                assert forall|i: int| 0 <= i < a.skip(2).len() implies (#[trigger] a.skip(
                    2,
                )[i]).succeeded() by {
                    assert(a.skip(2)[i] == a[i + 2]);
                }
                lemma_follows_joined(a.skip(2), p.skip(1), b, q);
            },
            _ => {
                assert((a + b).skip(1) =~= a.skip(1) + b);
                assert forall|i: int| 0 <= i < a.skip(1).len() implies (#[trigger] a.skip(
                    1,
                )[i]).succeeded() by {
                    assert(a.skip(1)[i] == a[i + 1]);
                }
                lemma_follows_joined(a.skip(1), p.skip(1), b, q);
            },
        }
    }
}

/// A plan that stopped at a failed transaction would have stopped there whatever was to
/// come after it.
pub proof fn lemma_follows_stalled(a: Seq<Transfer>, p: Seq<Step>, q: Seq<Step>)
    requires
        follows(a, p),
        !all_succeeded(a),
    ensures
        follows(a, p + q),
    decreases p.len(),
{
    if p.len() == 0 {
        assert(all_succeeded(a));
    } else {
        assert((p + q)[0] == p[0]);
        assert((p + q).skip(1) =~= p.skip(1) + q);
        let i = choose|i: int| 0 <= i < a.len() && !(#[trigger] a[i]).succeeded();
        match p[0] {
            Step::Update { register, keep, field } => {
                if a[0].succeeded() && a[1].succeeded() {
                    assert(a.skip(2)[i - 2] == a[i]);
                    lemma_follows_stalled(a.skip(2), p.skip(1), q);
                }
            },
            _ => {
                if a[0].succeeded() {
                    assert(a.skip(1)[i - 1] == a[i]);
                    lemma_follows_stalled(a.skip(1), p.skip(1), q);
                }
            },
        }
    }
}

/// Reads that all completed brought one byte for each register.
pub proof fn lemma_reads_complete(log: Seq<Transfer>, registers: Seq<u8>)
    requires
        follows(log, reads(registers)),
        all_succeeded(log),
    ensures
        log.len() == registers.len(),
        bytes_read(log).len() == registers.len(),
        forall|i: int|
            0 <= i < log.len() ==> #[trigger] log[i] == (Transfer::Read {
                address: log[i].device(),
                register: registers[i],
                asked: 1,
                data: Some(seq![bytes_read(log)[i]]),
            }),
    decreases registers.len(),
{
    let plan = reads(registers);
    if registers.len() == 0 {
    } else {
        assert(plan[0] == Step::Read { register: registers[0] });
        assert(log[0].succeeded());
        assert(plan.skip(1) =~= reads(registers.skip(1)));
        assert forall|i: int| 0 <= i < log.skip(1).len() implies (#[trigger] log.skip(
            1,
        )[i]).succeeded() by {
            assert(log.skip(1)[i] == log[i + 1]);
        }
        lemma_reads_complete(log.skip(1), registers.skip(1));
        let first = seq![log[0]];
        assert(log =~= first + log.skip(1));
        lemma_bytes_read_joined(first, log.skip(1));
        lemma_bytes_read_one(log[0]);
        match log[0] {
            Transfer::Read { data: Some(bytes), .. } => {
                assert(bytes =~= seq![bytes[0]]);
            },
            _ => {},
        }
        assert forall|i: int| 0 <= i < log.len() implies #[trigger] log[i] == (Transfer::Read {
            address: log[i].device(),
            register: registers[i],
            asked: 1,
            data: Some(seq![bytes_read(log)[i]]),
        }) by {
            if i > 0 {
                assert(log[i] == log.skip(1)[i - 1]);
                assert(registers[i] == registers.skip(1)[i - 1]);
            }
        }
    }
}

/// How the record of an operation is put together from the records of its parts: after
/// the plan `done` ran to its end from `before` to `mid`, and `next` ran from `mid` to
/// `after`, the two ran in a row; and where `next` stopped at a failure, so did any plan
/// that goes on with `rest`.
pub proof fn lemma_ran_joined(
    before: Seq<Transfer>,
    mid: Seq<Transfer>,
    after: Seq<Transfer>,
    done: Seq<Step>,
    next: Seq<Step>,
    rest: Seq<Step>,
)
    requires
        ran(before, mid, done),
        all_succeeded(news(before, mid)),
        ran(mid, after, next),
    ensures
        ran(before, after, done + next),
        news(before, after) == news(before, mid) + news(mid, after),
        all_succeeded(news(before, after)) <==> all_succeeded(news(mid, after)),
        bytes_read(news(before, after)) == bytes_read(news(before, mid)) + bytes_read(
            news(mid, after),
        ),
        !all_succeeded(news(mid, after)) ==> ran(before, after, done + next + rest),
        forall|address: u8| #[trigger]
            all_with(news(before, after), address) <==> all_with(news(before, mid), address)
                && all_with(news(mid, after), address),
{
    let a = news(before, mid);
    let b = news(mid, after);
    assert forall|address: u8| #[trigger]
        all_with(a + b, address) <==> all_with(a, address) && all_with(b, address) by {
        lemma_all_with_joined(a, b, address);
    }
    assert(after.take(before.len() as int) =~= mid.take(before.len() as int)) by {
        assert(mid =~= after.take(mid.len() as int));
    }
    assert(news(before, after) =~= a + b) by {
        assert(mid =~= after.take(mid.len() as int));
    }
    lemma_follows_joined(a, done, b, next);
    lemma_all_succeeded_joined(a, b);
    lemma_bytes_read_joined(a, b);
    if !all_succeeded(b) {
        lemma_follows_stalled(a + b, done + next, rest);
    }
}

/// How the record of an operation is put together from the records of its parts, by
/// places in one plan: after the first `i` steps of `plan` ran to their end from `before`
/// to `mid`, and the next ones up to the `j`th ran from `mid` to `after`, the first `j`
/// ran from `before` to `after`; and where one of them failed, the whole plan ran and
/// stopped there.
pub proof fn lemma_plan_joined(
    before: Seq<Transfer>,
    mid: Seq<Transfer>,
    after: Seq<Transfer>,
    plan: Seq<Step>,
    i: int,
    j: int,
)
    requires
        0 <= i <= j <= plan.len(),
        ran(before, mid, plan.take(i)),
        all_succeeded(news(before, mid)),
        ran(mid, after, plan.subrange(i, j)),
    ensures
        ran(before, after, plan.take(j)),
        all_succeeded(news(before, after)) <==> all_succeeded(news(mid, after)),
        !all_succeeded(news(mid, after)) ==> ran(before, after, plan),
        bytes_read(news(before, after)) == bytes_read(news(before, mid)) + bytes_read(
            news(mid, after),
        ),
        forall|address: u8| #[trigger]
            all_with(news(before, after), address) <==> all_with(news(before, mid), address)
                && all_with(news(mid, after), address),
{
    lemma_ran_joined(before, mid, after, plan.take(i), plan.subrange(i, j), plan.skip(j));
    assert(plan.take(i) + plan.subrange(i, j) =~= plan.take(j));
    assert(plan.take(i) + plan.subrange(i, j) + plan.skip(j) =~= plan);
}

/// Before its first step a plan has run nothing.
pub proof fn lemma_plan_started(before: Seq<Transfer>, plan: Seq<Step>)
    ensures
        ran(before, before, plan.take(0)),
        all_succeeded(news(before, before)),
        forall|address: u8| #[trigger] all_with(news(before, before), address),
{
    assert(before.take(before.len() as int) =~= before);
    assert(news(before, before) =~= Seq::<Transfer>::empty());
}

/// How a run of reads is put together from shorter runs: after the first `i` of
/// `registers` were read from `before` to `mid`, all with success, and the next ones up to
/// the `j`th were tried from `mid` to `after`, the first `j` were tried from `before` to
/// `after`. Where all completed, the bytes are those of the first run, then those of the
/// second; where one failed, the whole of `registers` was tried and stopped there.
pub proof fn lemma_reads_joined(
    before: Seq<Transfer>,
    mid: Seq<Transfer>,
    after: Seq<Transfer>,
    registers: Seq<u8>,
    i: int,
    j: int,
)
    requires
        0 <= i <= j <= registers.len(),
        ran(before, mid, reads(registers.take(i))),
        all_succeeded(news(before, mid)),
        ran(mid, after, reads(registers.subrange(i, j))),
    ensures
        ran(before, after, reads(registers.take(j))),
        all_succeeded(news(before, after)) <==> all_succeeded(news(mid, after)),
        !all_succeeded(news(mid, after)) ==> ran(before, after, reads(registers)),
        bytes_read(news(before, mid)).len() == i,
        bytes_read(news(before, after)) == bytes_read(news(before, mid)) + bytes_read(
            news(mid, after),
        ),
        all_succeeded(news(mid, after)) ==> bytes_read(news(mid, after)).len() == j - i,
        forall|address: u8| #[trigger]
            all_with(news(before, after), address) <==> all_with(news(before, mid), address)
                && all_with(news(mid, after), address),
{
    let done = reads(registers.take(i));
    let next = reads(registers.subrange(i, j));
    let rest = reads(registers.skip(j));
    lemma_ran_joined(before, mid, after, done, next, rest);
    assert(done + next =~= reads(registers.take(j)));
    assert(done + next + rest =~= reads(registers));
    lemma_reads_complete(news(before, mid), registers.take(i));
    if all_succeeded(news(mid, after)) {
        lemma_reads_complete(news(mid, after), registers.subrange(i, j));
    }
}

/// Nothing has happened yet: the record has run the empty plan from where it stands.
pub proof fn lemma_ran_nothing(before: Seq<Transfer>, registers: Seq<u8>)
    ensures
        ran(before, before, reads(registers.take(0))),
        all_succeeded(news(before, before)),
        forall|address: u8| #[trigger] all_with(news(before, before), address),
{
    assert(before.take(before.len() as int) =~= before);
    assert(news(before, before) =~= Seq::<Transfer>::empty());
}

} // verus!

//! Statements in sequence.
//!
//! Requests are handled at the same time, but each one is a single atomic
//! statement, so storage takes the statements of concurrent requests one
//! after another in some order. What this module proves of every order is
//! therefore true of every concurrent run: updates add up, none is lost, and
//! the order in which they arrive does not matter, as long as every sum on
//! the way fits the record.

use vstd::prelude::*;
use crate::memory::MemoryStore;
use crate::service::{Operation, DECREMENT, INCREMENT};
use crate::store::{Answer, Reply, Statement, StoreError, StoreModel, Table};

verus! {

impl StoreModel {
    /// Storage after the statements were sent in this order.
    pub open spec fn after_all(self, statements: Seq<Statement>) -> StoreModel
        decreases statements.len(),
    {
        if statements.len() == 0 {
            self
        } else {
            self.after_all(statements.drop_last()).after(statements.last())
        }
    }

    /// What storage says to the statement at `index` when the statements are
    /// sent in this order.
    pub open spec fn answer_at(self, statements: Seq<Statement>, index: int) -> Answer
        recommends
            0 <= index < statements.len(),
    {
        self.after_all(statements.take(index)).answer(statements[index])
    }

}

/// Runs the statements on the in-memory store in the order given and
/// collects the replies in the same order.
pub fn run_all(store: &mut MemoryStore, statements: &Vec<Statement>) -> (replies: Vec<Reply>)
    ensures
        final(store)@ == old(store)@.after_all(statements@),
        replies.len() == statements.len(),
        forall|i: int|
            0 <= i < statements.len() ==> (#[trigger] replies[i])@ == old(store)@.answer_at(
                statements@,
                i,
            ),
{
    let ghost before = store@;
    let mut replies: Vec<Reply> = Vec::new();
    let mut next: usize = 0;
    while next < statements.len()
        invariant
            next <= statements.len(),
            replies.len() == next,
            store@ == before.after_all(statements@.take(next as int)),
            forall|i: int|
                0 <= i < next ==> (#[trigger] replies[i])@ == before.answer_at(statements@, i),
        decreases statements.len() - next,
    {
        let reply = store.run(statements[next]);
        replies.push(reply);
        proof {
            let longer = statements@.take(next + 1);
            assert(longer.drop_last() =~= statements@.take(next as int));
            assert(longer.last() == statements[next as int]);
        }
        next = next + 1;
    }
    assert(statements@.take(next as int) =~= statements@);
    replies
}

/// The record is never lost: once storage holds it, no statement and no
/// sequence of statements takes it away, and reachability stays as it was.
pub proof fn lemma_record_stays(store: StoreModel, statements: Seq<Statement>)
    requires
        store.has_record(),
    ensures
        store.after_all(statements).has_record(),
        store.after_all(statements).online == store.online,
    decreases statements.len(),
{
    if statements.len() > 0 {
        lemma_record_stays(store, statements.drop_last());
    }
}

/// The sum of the deltas.
pub open spec fn total(deltas: Seq<i64>) -> int
    decreases deltas.len(),
{
    if deltas.len() == 0 {
        0
    } else {
        total(deltas.drop_last()) + deltas.last()
    }
}

/// Whether a record with this value can take the deltas in this order:
/// every sum on the way fits the record's 64-bit field.
pub open spec fn fit_in_turn(value: int, deltas: Seq<i64>) -> bool {
    forall|n: int|
        1 <= n <= deltas.len() ==> i64::MIN <= value + #[trigger] total(deltas.take(n))
            <= i64::MAX
}

/// One update statement for each delta, in the same order.
pub open spec fn updates(deltas: Seq<i64>) -> Seq<Statement> {
    Seq::new(deltas.len(), |i: int| Statement::ApplyDelta(deltas[i]))
}

/// The statement of the same operation, this many times.
pub open spec fn repeated(op: Operation, times: nat) -> Seq<Statement> {
    Seq::new(times, |i: int| op.spec_statement())
}

/// Updates add up: after any sequence of updates whose sums fit in turn, a
/// record that was there holds its old value plus the sum of all deltas.
/// Storage that is unreachable or has no record is left as it was by any
/// sequence of updates.
pub proof fn lemma_updates_add_up(store: StoreModel, deltas: Seq<i64>)
    ensures
        match store.table {
            Table::Holding(v) if store.online => fit_in_turn(v, deltas) ==> store.after_all(
                updates(deltas),
            ) == (StoreModel { online: true, table: Table::Holding(v + total(deltas)) }),
            _ => store.after_all(updates(deltas)) == store,
        },
    decreases deltas.len(),
{
    if deltas.len() > 0 {
        let earlier = deltas.drop_last();
        lemma_updates_add_up(store, earlier);
        assert(updates(deltas).drop_last() =~= updates(earlier));
        let v = store.table->Holding_0;
        if store.has_record() && store.online && fit_in_turn(v, deltas) {
            assert forall|n: int| 1 <= n <= earlier.len() implies i64::MIN <= v + #[trigger] total(
                earlier.take(n),
            ) <= i64::MAX by {
                assert(earlier.take(n) =~= deltas.take(n));
            }
            assert(deltas.take(deltas.len() as int) =~= deltas);
        }
    }
}

/// Every update in a sequence whose sums fit in turn is answered with the
/// record's value as that update left it: the old value plus all deltas up
/// to and including its own.
pub proof fn lemma_update_answers(store: StoreModel, deltas: Seq<i64>, index: int)
    requires
        store.online,
        store.has_record(),
        0 <= index < deltas.len(),
        fit_in_turn(store.table->Holding_0, deltas),
    ensures
        store.answer_at(updates(deltas), index) == Answer::Value(
            store.table->Holding_0 + total(deltas.take(index + 1)),
        ),
{
    let v = store.table->Holding_0;
    let before = deltas.take(index);
    assert forall|n: int| 1 <= n <= before.len() implies i64::MIN <= v + #[trigger] total(
        before.take(n),
    ) <= i64::MAX by {
        assert(before.take(n) =~= deltas.take(n));
    }
    lemma_updates_add_up(store, before);
    assert(updates(deltas).take(index) =~= updates(before));
    assert(deltas.take(index + 1).drop_last() =~= before);
}

proof fn lemma_total_without(deltas: Seq<i64>, index: int)
    requires
        0 <= index < deltas.len(),
    ensures
        total(deltas) == total(deltas.remove(index)) + deltas[index],
    decreases deltas.len(),
{
    if index == deltas.len() - 1 {
        assert(deltas.remove(index) =~= deltas.drop_last());
    } else {
        lemma_total_without(deltas.drop_last(), index);
        assert(deltas.remove(index).drop_last() =~= deltas.drop_last().remove(index));
    }
}

/// The sum of the deltas does not depend on their order.
pub proof fn lemma_total_ignores_order(first: Seq<i64>, second: Seq<i64>)
    requires
        first.to_multiset() == second.to_multiset(),
    ensures
        total(first) == total(second),
    decreases first.len(),
{
    broadcast use vstd::seq_lib::group_to_multiset_ensures;

    if first.len() == 0 {
        vstd::seq_lib::to_multiset_len(first);
        vstd::seq_lib::to_multiset_len(second);
    } else {
        let delta = first.last();
        assert(first =~= first.drop_last().push(delta));
        assert(second.to_multiset().count(delta) > 0);
        assert(second.contains(delta));
        let index = choose|i: int| 0 <= i < second.len() && second[i] == delta;
        assert(second.remove(index).to_multiset() =~= first.drop_last().to_multiset());
        lemma_total_ignores_order(first.drop_last(), second.remove(index));
        lemma_total_without(second, index);
        assert(total(second) == total(first.drop_last()) + delta);
    }
}

/// The order in which storage takes concurrent updates is irrelevant: two
/// runs of the same updates, in whatever order each, leave the same storage,
/// provided that in both orders every sum on the way fits the record.
pub proof fn lemma_order_of_updates_is_irrelevant(
    store: StoreModel,
    first: Seq<i64>,
    second: Seq<i64>,
)
    requires
        first.to_multiset() == second.to_multiset(),
        store.online && store.has_record() ==> fit_in_turn(store.table->Holding_0, first)
            && fit_in_turn(store.table->Holding_0, second),
    ensures
        store.after_all(updates(first)) == store.after_all(updates(second)),
{
    lemma_total_ignores_order(first, second);
    lemma_updates_add_up(store, first);
    lemma_updates_add_up(store, second);
}

proof fn lemma_total_of_constant(deltas: Seq<i64>, delta: i64)
    requires
        forall|i: int| 0 <= i < deltas.len() ==> deltas[i] == delta,
    ensures
        total(deltas) == deltas.len() * delta,
    decreases deltas.len(),
{
    if deltas.len() > 0 {
        lemma_total_of_constant(deltas.drop_last(), delta);
        assert(total(deltas) == (deltas.len() - 1) * delta + delta);
        assert((deltas.len() - 1) * delta + delta == deltas.len() * delta) by (nonlinear_arith);
    }
}

proof fn lemma_constant_fits_in_turn(value: int, delta: i64, times: nat)
    requires
        delta == 1 || delta == -1,
        i64::MIN <= value <= i64::MAX,
        i64::MIN <= value + times * delta <= i64::MAX,
    ensures
        fit_in_turn(value, Seq::new(times, |i: int| delta)),
{
    let deltas = Seq::new(times, |i: int| delta);
    assert forall|n: int| 1 <= n <= deltas.len() implies i64::MIN <= value + #[trigger] total(
        deltas.take(n),
    ) <= i64::MAX by {
        lemma_total_of_constant(deltas.take(n), delta);
        assert(total(deltas.take(n)) == n * delta);
        assert(n * delta == if delta == 1 { n } else { -n }) by (nonlinear_arith)
            requires
                delta == 1 || delta == -1,
        ;
        assert(times * delta == if delta == 1 { times as int } else { -times }) by (nonlinear_arith)
            requires
                delta == 1 || delta == -1,
        ;
    }
}

/// No increment and no decrement is lost: from a record with value `v`,
/// after `times` increments a get returns `v + times`, and after `times`
/// decrements it returns `v - times`, whether the requests came one after
/// another or at the same time. This holds as far as the record can count:
/// for increments if `v + times` fits it, for decrements if `v - times`
/// does.
pub proof fn lemma_steps_add_up(store: StoreModel, times: nat)
    requires
        store.online,
        store.has_record(),
        store.valid(),
    ensures
        store.table->Holding_0 + times <= i64::MAX ==> store.after_all(
            repeated(Operation::Increment, times),
        ).result_of(Operation::Get) == Ok::<int, StoreError>(store.table->Holding_0 + times),
        store.table->Holding_0 - times >= i64::MIN ==> store.after_all(
            repeated(Operation::Decrement, times),
        ).result_of(Operation::Get) == Ok::<int, StoreError>(store.table->Holding_0 - times),
{
    let v = store.table->Holding_0;
    let ups = Seq::new(times, |i: int| INCREMENT);
    let downs = Seq::new(times, |i: int| DECREMENT);
    assert(updates(ups) =~= repeated(Operation::Increment, times));
    assert(updates(downs) =~= repeated(Operation::Decrement, times));
    lemma_updates_add_up(store, ups);
    lemma_updates_add_up(store, downs);
    lemma_total_of_constant(ups, INCREMENT);
    lemma_total_of_constant(downs, DECREMENT);
    if v + times <= i64::MAX {
        lemma_constant_fits_in_turn(v, INCREMENT, times);
    }
    if v - times >= i64::MIN {
        lemma_constant_fits_in_turn(v, DECREMENT, times);
    }
}

/// A step that the record cannot count fails and changes nothing: an
/// increment at the largest value and a decrement at the smallest report
/// storage unavailable and leave the record as it was.
pub proof fn lemma_step_past_the_end_fails(store: StoreModel)
    requires
        store.online,
        store.has_record(),
    ensures
        store.table->Holding_0 == i64::MAX ==> store.result_of(Operation::Increment) == Err::<
            int,
            StoreError,
        >(StoreError::StoreUnavailable) && store.after(Operation::Increment.spec_statement())
            == store,
        store.table->Holding_0 == i64::MIN ==> store.result_of(Operation::Decrement) == Err::<
            int,
            StoreError,
        >(StoreError::StoreUnavailable) && store.after(Operation::Decrement.spec_statement())
            == store,
{
}

/// After a reset, a get returns 0. This is so on every storage: a reset
/// succeeds exactly if storage is reachable and holds the record, a reset
/// that succeeds returns 0, and the get that follows it returns 0 too.
pub proof fn lemma_get_after_reset(store: StoreModel)
    ensures
        store.result_of(Operation::Reset) is Ok <==> store.online && store.has_record(),
        store.result_of(Operation::Reset) is Ok ==> {
            &&& store.result_of(Operation::Reset) == Ok::<int, StoreError>(0)
            &&& store.after(Statement::Reset).result_of(Operation::Get) == Ok::<int, StoreError>(
                0,
            )
        },
{
}

} // verus!

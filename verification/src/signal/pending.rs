//! The table of calls that wait for a response, keyed by request id.

use crate::text::same_text;
use vstd::prelude::*;

verus! {

/// What can happen to the table: a call registers under an id, a response
/// with an id arrives, or the call under an id gives up.
pub ghost enum TableOp<T> {
    Register { id: Seq<char>, reply: T },
    Respond { id: Seq<char> },
    Abandon { id: Seq<char> },
}

/// The id that an operation names.
pub open spec fn op_id<T>(op: TableOp<T>) -> Seq<char> {
    match op {
        TableOp::Register { id, .. } => id,
        TableOp::Respond { id } => id,
        TableOp::Abandon { id } => id,
    }
}

/// The table after one operation: registering puts the call under its id,
/// in place of a call that waited there; a response or giving up takes the
/// id out, and leaves the table as it is where the id is not in it.
pub open spec fn apply<T>(m: Map<Seq<char>, T>, op: TableOp<T>) -> Map<Seq<char>, T> {
    match op {
        TableOp::Register { id, reply } => m.insert(id, reply),
        TableOp::Respond { id } => m.remove(id),
        TableOp::Abandon { id } => m.remove(id),
    }
}

/// The call that a response with the id `id` reaches, if one waits for it.
pub open spec fn waiting<T>(m: Map<Seq<char>, T>, id: Seq<char>) -> Option<T> {
    if m.contains_key(id) {
        Some(m[id])
    } else {
        None
    }
}

/// The table after the operations `ops`, applied in order.
pub open spec fn run<T>(m: Map<Seq<char>, T>, ops: Seq<TableOp<T>>) -> Map<Seq<char>, T>
    decreases ops.len(),
{
    if ops.len() == 0 {
        m
    } else {
        run(apply(m, ops.first()), ops.drop_first())
    }
}

/// Operations that do not name an id leave what waits under it alone.
pub proof fn lemma_run_keeps<T>(m: Map<Seq<char>, T>, ops: Seq<TableOp<T>>, id: Seq<char>)
    requires
        forall|i: int| 0 <= i < ops.len() ==> op_id(#[trigger] ops[i]) != id,
    ensures
        waiting(run(m, ops), id) == waiting(m, id),
    decreases ops.len(),
{
    if ops.len() > 0 {
        let rest = ops.drop_first();
        assert(op_id(ops[0]) != id);
        assert forall|i: int| 0 <= i < rest.len() implies op_id(#[trigger] rest[i]) != id by {
            assert(rest[i] == ops[i + 1]);
        }
        lemma_run_keeps(apply(m, ops.first()), rest, id);
    }
}

/// Once a call has registered under an id, the response with that id
/// reaches that call, whatever the other calls do in between and in
/// whatever order: register, complete or give up, each under an id of its
/// own.
pub proof fn lemma_response_reaches_its_call<T>(
    m: Map<Seq<char>, T>,
    id: Seq<char>,
    reply: T,
    others: Seq<TableOp<T>>,
)
    requires
        forall|i: int| 0 <= i < others.len() ==> op_id(#[trigger] others[i]) != id,
    ensures
        waiting(run(apply(m, TableOp::Register { id, reply }), others), id) == Some(reply),
{
    lemma_run_keeps(m.insert(id, reply), others, id);
}

/// Running one sequence of operations after another is running them all.
pub proof fn lemma_run_append<T>(
    m: Map<Seq<char>, T>,
    first: Seq<TableOp<T>>,
    second: Seq<TableOp<T>>,
)
    ensures
        run(m, first + second) == run(run(m, first), second),
    decreases first.len(),
{
    if first.len() == 0 {
        assert(first + second =~= second);
    } else {
        assert((first + second).first() == first.first());
        assert((first + second).drop_first() =~= first.drop_first() + second);
        lemma_run_append(apply(m, first.first()), first.drop_first(), second);
    }
}

/// The calls `replies` registering under the ids `ids`, one after the
/// other.
pub open spec fn registrations<T>(ids: Seq<Seq<char>>, replies: Seq<T>) -> Seq<TableOp<T>> {
    Seq::new(ids.len(), |i: int| TableOp::Register { id: ids[i], reply: replies[i] })
}

/// The responses to the commands that `order` names by their positions in
/// `ids`, in that order.
pub open spec fn responses<T>(ids: Seq<Seq<char>>, order: Seq<int>) -> Seq<TableOp<T>> {
    Seq::new(order.len(), |k: int| TableOp::Respond { id: ids[order[k]] })
}

/// `order` names positions below `n`, none of them twice.
pub open spec fn is_completion_order(order: Seq<int>, n: nat) -> bool {
    &&& forall|k: int| 0 <= k < order.len() ==> 0 <= #[trigger] order[k] < n
    &&& forall|k: int, l: int| 0 <= k < l < order.len() ==> order[k] != order[l]
}

/// Every call receives the response to its own command, in whatever order
/// the responses arrive. When calls have registered under ids that differ
/// from each other, and responses come back in any order, each response
/// reaches the call that registered under its id.
pub proof fn lemma_each_call_gets_its_response<T>(
    m: Map<Seq<char>, T>,
    ids: Seq<Seq<char>>,
    replies: Seq<T>,
    order: Seq<int>,
    k: int,
)
    requires
        ids.len() == replies.len(),
        forall|i: int, j: int| 0 <= i < j < ids.len() ==> ids[i] != ids[j],
        is_completion_order(order, ids.len()),
        0 <= k < order.len(),
    ensures
        waiting(
            run(run(m, registrations(ids, replies)), responses::<T>(ids, order.take(k))),
            ids[order[k]],
        ) == Some(replies[order[k]]),
{
    let j = order[k];
    let id = ids[j];
    let all = registrations(ids, replies);
    let before = all.take(j);
    let after = all.skip(j + 1);
    let this = seq![all[j]];
    assert(all =~= before + (this + after));
    lemma_run_append(m, before, this + after);
    let m1 = run(m, before);
    assert((this + after).first() == all[j]);
    assert((this + after).drop_first() =~= after);
    assert forall|i: int| 0 <= i < after.len() implies op_id(#[trigger] after[i]) != id by {
        assert(after[i] == all[j + 1 + i]);
        assert(ids[j] != ids[j + 1 + i]);
    }
    lemma_response_reaches_its_call(m1, id, replies[j], after);
    let table = run(m, all);
    assert(waiting(table, id) == Some(replies[j]));
    let earlier = responses::<T>(ids, order.take(k));
    assert forall|i: int| 0 <= i < earlier.len() implies op_id(#[trigger] earlier[i]) != id by {
        assert(order.take(k)[i] == order[i]);
        assert(order[i] != order[k]);
        let a = order[i];
        if a < j {
            assert(ids[a] != ids[j]);
        } else {
            assert(ids[j] != ids[a]);
        }
    }
    lemma_run_keeps(table, earlier, id);
}

/// A response whose id is not in the table reaches no call and changes
/// nothing: whatever happens afterwards happens as if it had not come.
pub proof fn lemma_orphan_response<T>(m: Map<Seq<char>, T>, id: Seq<char>, later: Seq<TableOp<T>>)
    requires
        !m.contains_key(id),
    ensures
        waiting(m, id) is None,
        apply(m, TableOp::Respond { id }) == m,
        run(apply(m, TableOp::Respond { id }), later) == run(m, later),
{
    assert(m.remove(id) =~= m);
}

/// A response consumes its id: a second response with the same id is an
/// orphan.
pub proof fn lemma_response_consumes_id<T>(m: Map<Seq<char>, T>, id: Seq<char>)
    ensures
        !apply(m, TableOp::Respond { id }).contains_key(id),
        waiting(apply(m, TableOp::Respond { id }), id) is None,
{
}

/// The calls that wait for a response, each under the id of its command.
pub struct PendingTable<T> {
    entries: Vec<(String, T)>,
}

/// No two entries carry the same id.
pub open spec fn distinct_ids<T>(entries: Seq<(String, T)>) -> bool {
    forall|i: int, j: int|
        0 <= i < j < entries.len() ==> (#[trigger] entries[i]).0@ != (#[trigger] entries[j]).0@
}

/// Some entry carries the id `k`.
pub open spec fn has_id<T>(entries: Seq<(String, T)>, k: Seq<char>) -> bool {
    exists|i: int| 0 <= i < entries.len() && (#[trigger] entries[i]).0@ == k
}

/// The position of an entry that carries the id `k`.
pub open spec fn index_of_id<T>(entries: Seq<(String, T)>, k: Seq<char>) -> int {
    choose|i: int| 0 <= i < entries.len() && (#[trigger] entries[i]).0@ == k
}

/// The entries as a map from id to call.
pub open spec fn as_map<T>(entries: Seq<(String, T)>) -> Map<Seq<char>, T> {
    Map::new(|k: Seq<char>| has_id(entries, k), |k: Seq<char>| entries[index_of_id(entries, k)].1)
}

proof fn lemma_as_map_entry<T>(entries: Seq<(String, T)>, i: int)
    requires
        distinct_ids(entries),
        0 <= i < entries.len(),
    ensures
        as_map(entries).contains_key(entries[i].0@),
        as_map(entries)[entries[i].0@] == entries[i].1,
{
    let k = entries[i].0@;
    assert(has_id(entries, k));
    let j = index_of_id(entries, k);
    assert(0 <= j < entries.len() && entries[j].0@ == k);
    if i < j {
        assert(entries[i].0@ != entries[j].0@);
    } else if j < i {
        assert(entries[j].0@ != entries[i].0@);
    }
}

proof fn lemma_as_map_push<T>(entries: Seq<(String, T)>, id: String, reply: T)
    requires
        distinct_ids(entries),
        !has_id(entries, id@),
    ensures
        distinct_ids(entries.push((id, reply))),
        as_map(entries.push((id, reply))) == as_map(entries).insert(id@, reply),
{
    let after = entries.push((id, reply));
    assert forall|i: int, j: int| 0 <= i < j < after.len() implies (#[trigger] after[i]).0@ != (
    #[trigger] after[j]).0@ by {
        if j == entries.len() {
            assert(after[i] == entries[i]);
            if entries[i].0@ == id@ {
                assert(has_id(entries, id@));
            }
        } else {
            assert(after[i] == entries[i] && after[j] == entries[j]);
        }
    }
    assert forall|k: Seq<char>| #[trigger] as_map(after).contains_key(k) == as_map(entries).insert(
        id@,
        reply,
    ).contains_key(k) by {
        if has_id(after, k) {
            let i = index_of_id(after, k);
            if i < entries.len() {
                assert(after[i] == entries[i]);
                assert(has_id(entries, k));
            }
        }
        if has_id(entries, k) {
            let i = index_of_id(entries, k);
            assert(after[i] == entries[i]);
            assert(has_id(after, k));
        }
        if k == id@ {
            assert(after[entries.len() as int].0@ == k);
            assert(has_id(after, k));
        }
    }
    assert forall|k: Seq<char>| as_map(after).contains_key(k) implies #[trigger] as_map(after)[k]
        == as_map(entries).insert(id@, reply)[k] by {
        let i = index_of_id(after, k);
        lemma_as_map_entry(after, i);
        if i < entries.len() {
            assert(after[i] == entries[i]);
            lemma_as_map_entry(entries, i);
        }
    }
    assert(as_map(after) =~= as_map(entries).insert(id@, reply));
}

proof fn lemma_as_map_remove<T>(entries: Seq<(String, T)>, i: int)
    requires
        distinct_ids(entries),
        0 <= i < entries.len(),
    ensures
        distinct_ids(entries.remove(i)),
        !has_id(entries.remove(i), entries[i].0@),
        as_map(entries.remove(i)) == as_map(entries).remove(entries[i].0@),
{
    let after = entries.remove(i);
    let gone = entries[i].0@;
    assert forall|a: int| 0 <= a < after.len() implies #[trigger] after[a] == entries[if a < i {
        a
    } else {
        a + 1
    }] by {}
    assert forall|a: int, b: int| 0 <= a < b < after.len() implies (#[trigger] after[a]).0@ != (
    #[trigger] after[b]).0@ by {
        let x = if a < i {
            a
        } else {
            a + 1
        };
        let y = if b < i {
            b
        } else {
            b + 1
        };
        assert(after[a] == entries[x] && after[b] == entries[y]);
        assert(entries[x].0@ != entries[y].0@);
    }
    if has_id(after, gone) {
        let a = index_of_id(after, gone);
        let x = if a < i {
            a
        } else {
            a + 1
        };
        assert(after[a] == entries[x]);
        if x < i {
            assert(entries[x].0@ != entries[i].0@);
        } else {
            assert(entries[i].0@ != entries[x].0@);
        }
    }
    assert forall|k: Seq<char>| #[trigger] as_map(after).contains_key(k) == as_map(entries).remove(
        gone,
    ).contains_key(k) by {
        if has_id(after, k) {
            let a = index_of_id(after, k);
            let x = if a < i {
                a
            } else {
                a + 1
            };
            assert(after[a] == entries[x]);
            assert(has_id(entries, k));
        }
        if has_id(entries, k) && k != gone {
            let x = index_of_id(entries, k);
            let a = if x < i {
                x
            } else {
                x - 1
            };
            assert(after[a] == entries[x]);
            assert(has_id(after, k));
        }
    }
    assert forall|k: Seq<char>| as_map(after).contains_key(k) implies #[trigger] as_map(after)[k]
        == as_map(entries).remove(gone)[k] by {
        let a = index_of_id(after, k);
        let x = if a < i {
            a
        } else {
            a + 1
        };
        assert(after[a] == entries[x]);
        lemma_as_map_entry(after, a);
        lemma_as_map_entry(entries, x);
    }
    assert(as_map(after) =~= as_map(entries).remove(gone));
}

impl<T> View for PendingTable<T> {
    type V = Map<Seq<char>, T>;

    closed spec fn view(&self) -> Map<Seq<char>, T> {
        as_map(self.entries@)
    }
}

impl<T> PendingTable<T> {
    #[verifier::type_invariant]
    spec fn well_formed(self) -> bool {
        distinct_ids(self.entries@)
    }

    /// A table in which no call waits.
    pub fn new() -> (r: Self)
        ensures
            r@ == Map::<Seq<char>, T>::empty(),
    {
        let r = PendingTable { entries: Vec::new() };
        assert(r@ =~= Map::<Seq<char>, T>::empty());
        r
    }

    /// The number of calls that wait.
    pub fn len(&self) -> (n: usize)
        ensures
            n == self@.len(),
            self@.dom().finite(),
    {
        proof {
            use_type_invariant(self);
            lemma_as_map_len(self.entries@);
        }
        self.entries.len()
    }

    fn position(&self, id: &str) -> (r: Option<usize>)
        ensures
            match r {
                Some(i) => i < self.entries.len() && self.entries[i as int].0@ == id@,
                None => !has_id(self.entries@, id@),
            },
    {
        let mut i: usize = 0;
        while i < self.entries.len()
            invariant
                i <= self.entries.len(),
                forall|j: int| 0 <= j < i ==> (#[trigger] self.entries[j]).0@ != id@,
            decreases self.entries.len() - i,
        {
            if same_text(self.entries[i].0.as_str(), id) {
                return Some(i);
            }
            i = i + 1;
        }
        None
    }

    /// Whether a call waits under `id`.
    pub fn contains(&self, id: &str) -> (r: bool)
        ensures
            r == self@.contains_key(id@),
    {
        self.position(id).is_some()
    }

    /// Puts the call `reply` under `id`. A call that waited under the same
    /// id leaves the table and is handed back.
    pub fn insert(&mut self, id: String, reply: T) -> (displaced: Option<T>)
        ensures
            final(self)@ == apply(old(self)@, TableOp::Register { id: id@, reply }),
            displaced == waiting(old(self)@, id@),
    {
        proof {
            use_type_invariant(&*self);
        }
        let found = self.position(id.as_str());
        let mut entries: Vec<(String, T)> = Vec::new();
        std::mem::swap(&mut entries, &mut self.entries);
        match found {
            Some(i) => {
                proof {
                    lemma_as_map_entry(entries@, i as int);
                    lemma_as_map_remove(entries@, i as int);
                    lemma_as_map_push(entries@.remove(i as int), id, reply);
                }
                let entry = entries.remove(i);
                entries.push((id, reply));
                self.entries = entries;
                assert(self@ =~= old(self)@.insert(id@, reply));
                Some(entry.1)
            },
            None => {
                proof {
                    lemma_as_map_push(entries@, id, reply);
                }
                entries.push((id, reply));
                self.entries = entries;
                None
            },
        }
    }

    /// Takes the call that waits under `id` out of the table. Where none
    /// waits there, the table stays as it is.
    pub fn remove(&mut self, id: &str) -> (r: Option<T>)
        ensures
            final(self)@ == apply(old(self)@, TableOp::Respond { id: id@ }),
            r == waiting(old(self)@, id@),
    {
        proof {
            use_type_invariant(&*self);
        }
        match self.position(id) {
            Some(i) => {
                let mut entries: Vec<(String, T)> = Vec::new();
                std::mem::swap(&mut entries, &mut self.entries);
                proof {
                    lemma_as_map_entry(entries@, i as int);
                    lemma_as_map_remove(entries@, i as int);
                }
                let entry = entries.remove(i);
                self.entries = entries;
                Some(entry.1)
            },
            None => {
                assert(self@.remove(id@) =~= self@);
                None
            },
        }
    }
}

proof fn lemma_as_map_len<T>(entries: Seq<(String, T)>)
    requires
        distinct_ids(entries),
    ensures
        as_map(entries).dom().finite(),
        as_map(entries).len() == entries.len(),
    decreases entries.len(),
{
    if entries.len() == 0 {
        assert(as_map(entries) =~= Map::<Seq<char>, T>::empty());
    } else {
        let last = (entries.len() - 1) as int;
        lemma_as_map_remove(entries, last);
        let rest = entries.remove(last);
        lemma_as_map_len(rest);
        lemma_as_map_entry(entries, last);
        let k = entries[last].0@;
        assert(as_map(entries) =~= as_map(rest).insert(k, entries[last].1));
    }
}

} // verus!

//! Store semantics: a single logical table of notification records keyed by
//! (partition key, sort key).
//!
//! [`DatabaseStoreService`] offers the four operations the rest of the
//! library is built on: a conditional create that fails with
//! [`StoreError::ConditionFailed`] when the key pair already exists (the
//! idempotency guard), a point get, a field update, and a range query that
//! returns a user's unread notifications newest-first, capped at
//! [`QUERY_LIMIT`]. The table invariant — no two rows share a key pair — is
//! established by the constructor and preserved by every operation.

use vstd::prelude::*;
use vstd::seq_lib::lemma_multiset_commutative;

use crate::errors::StoreError;
use crate::keys::{
    notification_sort_key, notification_sort_key_spec, user_partition_key,
    user_partition_key_spec,
};
use crate::model::{DBNotifcation, NotificationStatus};
use crate::timeorder::{lemma_lex_lt_transitive, lemma_lex_lt_trichotomy, lex_lt, str_lex_lt};

verus! {

/// Upper bound on the number of rows a range query returns.
pub const QUERY_LIMIT: usize = 20;

/// The row is stored under exactly this (partition key, sort key) pair.
pub open spec fn key_matches(row: DBNotifcation, pk: Seq<char>, sk: Seq<char>) -> bool {
    row.user_id@ == pk && row.notification_id@ == sk
}

/// Some row of `rows` is stored under the pair.
pub open spec fn contains_key(rows: Seq<DBNotifcation>, pk: Seq<char>, sk: Seq<char>) -> bool {
    exists|i: int| 0 <= i < rows.len() && key_matches(rows[i], pk, sk)
}

/// Table invariant: no two rows share a (partition key, sort key) pair.
pub open spec fn wf_rows(rows: Seq<DBNotifcation>) -> bool {
    forall|i: int, j: int|
        0 <= i < rows.len() && 0 <= j < rows.len() && i != j ==> !key_matches(
            #[trigger] rows[i],
            #[trigger] rows[j].user_id@,
            rows[j].notification_id@,
        )
}

/// The row belongs to the unread listing of the partition `pk`.
pub open spec fn unread_matches(row: DBNotifcation, pk: Seq<char>) -> bool {
    row.user_id@ == pk && row.status is UNREAD
}

/// The row with its status replaced and its update time set: the effect of
/// a field update on a single row.
pub open spec fn with_status(
    row: DBNotifcation,
    status: NotificationStatus,
    updated_time: String,
) -> DBNotifcation {
    DBNotifcation { status, updated_time: Some(updated_time), ..row }
}

/// Inserts `x` into a newest-first sequence, before the first row strictly
/// older than `x`. Rows created at the same instant keep their earlier
/// relative order, which makes the sort below stable.
pub open spec fn insert_desc(s: Seq<DBNotifcation>, x: DBNotifcation) -> Seq<DBNotifcation>
    decreases s.len(),
{
    if s.len() == 0 {
        seq![x]
    } else if lex_lt(s[0].created_time@, x.created_time@) {
        seq![x] + s
    } else {
        seq![s[0]] + insert_desc(s.skip(1), x)
    }
}

/// Stable insertion sort, newest creation time first.
pub open spec fn sort_desc(s: Seq<DBNotifcation>) -> Seq<DBNotifcation>
    decreases s.len(),
{
    if s.len() == 0 {
        Seq::empty()
    } else {
        insert_desc(sort_desc(s.drop_last()), s.last())
    }
}

/// Newest first: no row is strictly older than a row after it.
pub open spec fn sorted_desc(s: Seq<DBNotifcation>) -> bool {
    forall|i: int, j: int|
        0 <= i < j < s.len() ==> !lex_lt(#[trigger] s[i].created_time@, #[trigger] s[j].created_time@)
}

/// The membership test of the unread listing of partition `pk`, as a
/// predicate value.
pub open spec fn unread_pred(pk: Seq<char>) -> spec_fn(DBNotifcation) -> bool {
    |r: DBNotifcation| unread_matches(r, pk)
}

/// What a range query returns: the unread rows of the partition, newest
/// first, capped at [`QUERY_LIMIT`].
pub open spec fn query_results(rows: Seq<DBNotifcation>, pk: Seq<char>) -> Seq<DBNotifcation> {
    let sorted = sort_desc(rows.filter(unread_pred(pk)));
    if sorted.len() <= QUERY_LIMIT {
        sorted
    } else {
        sorted.take(QUERY_LIMIT as int)
    }
}

/// One filtering step: appending a row extends the filtered sequence by the
/// row exactly when the row satisfies the predicate.
proof fn lemma_filter_push(s: Seq<DBNotifcation>, e: DBNotifcation, pred: spec_fn(DBNotifcation) -> bool)
    ensures
        s.push(e).filter(pred) == if pred(e) {
            s.filter(pred).push(e)
        } else {
            s.filter(pred)
        },
{
    reveal(Seq::filter);
    assert(s.push(e).drop_last() =~= s);
    assert(s.push(e).last() == e);
}

/// One sorting step: appending a row and sorting is inserting it into the
/// sorted rest.
proof fn lemma_sort_desc_push(s: Seq<DBNotifcation>, e: DBNotifcation)
    ensures
        sort_desc(s.push(e)) == insert_desc(sort_desc(s), e),
{
    assert(s.push(e).drop_last() =~= s);
    assert(s.push(e).last() == e);
}

/// Where `insert_desc` puts the new row: at the first position whose row is
/// strictly older.
proof fn lemma_insert_desc_at(s: Seq<DBNotifcation>, x: DBNotifcation, j: int)
    requires
        0 <= j <= s.len(),
        forall|k: int| 0 <= k < j ==> !lex_lt(#[trigger] s[k].created_time@, x.created_time@),
        j < s.len() ==> lex_lt(s[j].created_time@, x.created_time@),
    ensures
        insert_desc(s, x) == s.take(j) + seq![x] + s.skip(j),
    decreases j,
{
    if j == 0 {
        if s.len() == 0 {
            assert(insert_desc(s, x) =~= s.take(0) + seq![x] + s.skip(0));
        } else {
            assert(lex_lt(s[0].created_time@, x.created_time@));
            assert(seq![x] + s =~= s.take(0) + seq![x] + s.skip(0));
        }
    } else {
        assert(!lex_lt(s[0].created_time@, x.created_time@));
        assert(forall|k: int|
            0 <= k < j - 1 ==> !lex_lt(#[trigger] s.skip(1)[k].created_time@, x.created_time@));
        lemma_insert_desc_at(s.skip(1), x, j - 1);
        assert(s.skip(1).take(j - 1) =~= s.subrange(1, j));
        assert(s.skip(1).skip(j - 1) =~= s.skip(j));
        assert(seq![s[0]] + (s.skip(1).take(j - 1) + seq![x] + s.skip(1).skip(j - 1)) =~= s.take(
            j,
        ) + seq![x] + s.skip(j));
    }
}

/// Inserting preserves sortedness and adds exactly the new row.
proof fn lemma_insert_desc_properties(s: Seq<DBNotifcation>, x: DBNotifcation)
    requires
        sorted_desc(s),
    ensures
        sorted_desc(insert_desc(s, x)),
        insert_desc(s, x).to_multiset() == s.to_multiset().insert(x),
        insert_desc(s, x).len() == s.len() + 1,
    decreases s.len(),
{
    broadcast use vstd::seq_lib::group_to_multiset_ensures;

    if s.len() == 0 {
        assert(seq![x] =~= Seq::empty().push(x));
        assert(insert_desc(s, x).to_multiset() =~= s.to_multiset().insert(x));
    } else if lex_lt(s[0].created_time@, x.created_time@) {
        let r = seq![x] + s;
        assert forall|i: int, j: int| 0 <= i < j < r.len() implies !lex_lt(
            r[i].created_time@,
            r[j].created_time@,
        ) by {
            if i == 0 {
                // r[j] is a row of s; the head of s is not newer than x,
                // so neither is any later row.
                if j == 1 {
                    lemma_lex_lt_trichotomy(r[j].created_time@, x.created_time@);
                } else {
                    assert(!lex_lt(s[0].created_time@, s[j - 1].created_time@));
                    lemma_lex_lt_trichotomy(s[j - 1].created_time@, s[0].created_time@);
                    if lex_lt(s[j - 1].created_time@, s[0].created_time@) {
                        lemma_lex_lt_transitive(
                            s[j - 1].created_time@,
                            s[0].created_time@,
                            x.created_time@,
                        );
                    }
                    lemma_lex_lt_trichotomy(x.created_time@, s[j - 1].created_time@);
                }
            }
        }
        assert(seq![x] =~= Seq::empty().push(x));
        lemma_multiset_commutative(seq![x], s);
        assert(r.to_multiset() =~= s.to_multiset().insert(x));
    } else {
        let rest = insert_desc(s.skip(1), x);
        let r = seq![s[0]] + rest;
        assert(forall|i: int, j: int|
            0 <= i < j < s.skip(1).len() ==> !lex_lt(
                #[trigger] s.skip(1)[i].created_time@,
                #[trigger] s.skip(1)[j].created_time@,
            ));
        lemma_insert_desc_properties(s.skip(1), x);
        // Every row of `rest` is either `x` or a row of `s.skip(1)`; in both
        // cases the head of `s` is at least as new.
        assert forall|j: int| 0 <= j < rest.len() implies !lex_lt(
            s[0].created_time@,
            rest[j].created_time@,
        ) by {
            assert(rest.to_multiset().count(rest[j]) > 0);
            if rest[j] != x {
                assert(s.skip(1).to_multiset().count(rest[j]) > 0);
                assert(s.skip(1).contains(rest[j]));
                let m = choose|m: int|
                    0 <= m < s.skip(1).len() && s.skip(1)[m] == rest[j];
                assert(s[m + 1] == rest[j]);
            }
        }
        assert forall|i: int, j: int| 0 <= i < j < r.len() implies !lex_lt(
            r[i].created_time@,
            r[j].created_time@,
        ) by {
            if i > 0 {
                assert(r[i] == rest[i - 1] && r[j] == rest[j - 1]);
            }
        }
        assert(sorted_desc(r));
        // Multiset bookkeeping for the cons-step.
        lemma_multiset_commutative(seq![s[0]], rest);
        lemma_multiset_commutative(seq![s[0]], s.skip(1));
        assert(seq![s[0]] + s.skip(1) =~= s);
        assert(seq![s[0]] =~= Seq::empty().push(s[0]));
        assert(r.to_multiset() =~= s.to_multiset().insert(x));
    }
}

/// The sort returns the same rows, newest first.
pub proof fn lemma_sort_desc_properties(s: Seq<DBNotifcation>)
    ensures
        sorted_desc(sort_desc(s)),
        sort_desc(s).to_multiset() == s.to_multiset(),
        sort_desc(s).len() == s.len(),
    decreases s.len(),
{
    broadcast use vstd::seq_lib::group_to_multiset_ensures;

    if s.len() == 0 {
        assert(sort_desc(s).to_multiset() =~= s.to_multiset());
    } else {
        lemma_sort_desc_properties(s.drop_last());
        lemma_insert_desc_properties(sort_desc(s.drop_last()), s.last());
        assert(s.drop_last().push(s.last()) =~= s);
        assert(sort_desc(s).to_multiset() =~= s.to_multiset());
    }
}

/// What every query result satisfies: it is newest-first, never exceeds
/// the cap, carries only unread rows of the queried partition, and — as
/// long as the cap is not hit — is exactly the unread rows of the
/// partition, reordered.
pub proof fn lemma_query_results_properties(rows: Seq<DBNotifcation>, pk: Seq<char>)
    ensures
        sorted_desc(query_results(rows, pk)),
        query_results(rows, pk).len() <= QUERY_LIMIT,
        rows.filter(unread_pred(pk)).len() <= QUERY_LIMIT ==> query_results(rows, pk)
            == sort_desc(rows.filter(unread_pred(pk))),
        rows.filter(unread_pred(pk)).len() <= QUERY_LIMIT ==> query_results(
            rows,
            pk,
        ).to_multiset() == rows.filter(unread_pred(pk)).to_multiset(),
        rows.filter(unread_pred(pk)).len() > QUERY_LIMIT ==> query_results(rows, pk).len()
            == QUERY_LIMIT,
        forall|k: int|
            0 <= k < query_results(rows, pk).len() ==> unread_matches(
                #[trigger] query_results(rows, pk)[k],
                pk,
            ),
{
    broadcast use vstd::seq_lib::group_to_multiset_ensures;

    let filtered = rows.filter(unread_pred(pk));
    let sorted = sort_desc(filtered);
    lemma_sort_desc_properties(filtered);
    assert forall|k: int| 0 <= k < query_results(rows, pk).len() implies unread_matches(
        query_results(rows, pk)[k],
        pk,
    ) by {
        assert(query_results(rows, pk)[k] == sorted[k]);
        assert(sorted.to_multiset().count(sorted[k]) > 0);
        assert(filtered.contains(sorted[k]));
        let m = choose|m: int| 0 <= m < filtered.len() && filtered[m] == sorted[k];
        rows.lemma_filter_pred(unread_pred(pk), m);
    }
}

/// List ordering: three notifications of one user, created at strictly
/// increasing times and all unread, come back newest first.
pub proof fn lemma_query_three_newest_first(
    rows: Seq<DBNotifcation>,
    pk: Seq<char>,
    a: DBNotifcation,
    b: DBNotifcation,
    c: DBNotifcation,
)
    requires
        rows == seq![a, b, c],
        unread_matches(a, pk),
        unread_matches(b, pk),
        unread_matches(c, pk),
        lex_lt(a.created_time@, b.created_time@),
        lex_lt(b.created_time@, c.created_time@),
    ensures
        query_results(rows, pk) == seq![c, b, a],
{
    reveal_with_fuel(Seq::filter, 4);
    assert(seq![a, b, c].drop_last() =~= seq![a, b]);
    assert(seq![a, b].drop_last() =~= seq![a]);
    assert(seq![a].drop_last() =~= Seq::<DBNotifcation>::empty());
    assert(rows.filter(unread_pred(pk)) =~= seq![a, b, c]);
    assert(sort_desc(seq![a]) == insert_desc(sort_desc(Seq::empty()), a));
    assert(sort_desc(seq![a]) =~= seq![a]);
    assert(sort_desc(seq![a, b]) == insert_desc(seq![a], b));
    assert(insert_desc(seq![a], b) =~= seq![b, a]);
    assert(sort_desc(seq![a, b, c]) == insert_desc(seq![b, a], c));
    assert(insert_desc(seq![b, a], c) =~= seq![c, b, a]);
    assert(query_results(rows, pk) =~= seq![c, b, a]);
}

/// The single logical table. The provider behind it is opaque to the rest
/// of the library: these operations are its entire observable behaviour.
pub struct DatabaseStoreService {
    rows: Vec<DBNotifcation>,
}

impl View for DatabaseStoreService {
    type V = Seq<DBNotifcation>;

    closed spec fn view(&self) -> Seq<DBNotifcation> {
        self.rows@
    }
}

impl DatabaseStoreService {
    /// Table invariant: key pairs are unique.
    pub open spec fn wf(&self) -> bool {
        wf_rows(self@)
    }

    pub fn new() -> (r: Self)
        ensures
            r@ == Seq::<DBNotifcation>::empty(),
            r.wf(),
    {
        DatabaseStoreService { rows: Vec::new() }
    }

    /// Index of the row stored under the pair, if any.
    fn find_by_key(&self, pk: &String, sk: &String) -> (r: Option<usize>)
        ensures
            r matches Some(i) ==> i < self@.len() && key_matches(self@[i as int], pk@, sk@),
            r is None ==> !contains_key(self@, pk@, sk@),
    {
        let mut i: usize = 0;
        while i < self.rows.len()
            invariant
                i <= self@.len(),
                forall|k: int| 0 <= k < i ==> !key_matches(#[trigger] self@[k], pk@, sk@),
            decreases self@.len() - i,
        {
            if self.rows[i].user_id == *pk && self.rows[i].notification_id == *sk {
                return Some(i);
            }
            i = i + 1;
        }
        None
    }

    /// Conditional create: writes `item` only if nothing is stored under
    /// its (partition key, sort key) pair, and reports `ConditionFailed`
    /// otherwise. This is the sole mechanism that keeps an at-least-once
    /// redelivery from materializing a duplicate notification.
    pub fn db_create_notification_message(&mut self, item: DBNotifcation) -> (r: Result<
        (),
        StoreError,
    >)
        requires
            old(self).wf(),
        ensures
            final(self).wf(),
            contains_key(old(self)@, item.user_id@, item.notification_id@) ==> r == Err::<
                (),
                StoreError,
            >(StoreError::ConditionFailed) && final(self)@ == old(self)@,
            !contains_key(old(self)@, item.user_id@, item.notification_id@) ==> r == Ok::<
                (),
                StoreError,
            >(()) && final(self)@ == old(self)@.push(item),
    {
        match self.find_by_key(&item.user_id, &item.notification_id) {
            Some(_) => Err(StoreError::ConditionFailed),
            None => {
                proof {
                    let post = self@.push(item);
                    assert forall|i: int, j: int|
                        0 <= i < post.len() && 0 <= j < post.len() && i != j implies !key_matches(
                        post[i],
                        post[j].user_id@,
                        post[j].notification_id@,
                    ) by {
                        if i == post.len() - 1 || j == post.len() - 1 {
                            assert(!contains_key(self@, item.user_id@, item.notification_id@));
                        }
                    }
                }
                self.rows.push(item);
                Ok(())
            },
        }
    }

    /// Point get by pre-namespaced keys. Returns a copy of the row, or
    /// `None` when nothing is stored under the pair.
    pub fn db_get_notification_item_with_pk_sk(&self, pk_value: String, sk_value: String) -> (r:
        Option<DBNotifcation>)
        ensures
            r is Some <==> contains_key(self@, pk_value@, sk_value@),
            r matches Some(row) ==> exists|i: int|
                0 <= i < self@.len() && self@[i] == row && key_matches(row, pk_value@, sk_value@),
    {
        match self.find_by_key(&pk_value, &sk_value) {
            Some(i) => Some(self.rows[i].duplicate()),
            None => None,
        }
    }

    /// Field update: sets the status and the update time of the row stored
    /// under the namespaced pair, leaving every other field and row
    /// untouched. Updating an absent row is a no-op, not an error; callers
    /// that need "nothing to update" to be observable check existence
    /// first.
    pub fn db_update_notification_message(
        &mut self,
        user_id: String,
        noti_id: String,
        status: NotificationStatus,
        updated_time: String,
    ) -> (r: Result<(), StoreError>)
        requires
            old(self).wf(),
        ensures
            final(self).wf(),
            r is Ok,
            !contains_key(
                old(self)@,
                user_partition_key_spec(user_id@),
                notification_sort_key_spec(noti_id@),
            ) ==> final(self)@ == old(self)@,
            contains_key(
                old(self)@,
                user_partition_key_spec(user_id@),
                notification_sort_key_spec(noti_id@),
            ) ==> exists|i: int|
                0 <= i < old(self)@.len() && key_matches(
                    #[trigger] old(self)@[i],
                    user_partition_key_spec(user_id@),
                    notification_sort_key_spec(noti_id@),
                ) && final(self)@ == old(self)@.update(
                    i,
                    with_status(old(self)@[i], status, updated_time),
                ),
    {
        let pk = user_partition_key(user_id.as_str());
        let sk = notification_sort_key(noti_id.as_str());
        match self.find_by_key(&pk, &sk) {
            None => Ok(()),
            Some(i) => {
                let ghost pre = self@;
                let row = self.rows.remove(i);
                let updated = DBNotifcation {
                    status,
                    updated_time: Some(updated_time.clone()),
                    ..row
                };
                self.rows.insert(i, updated);
                proof {
                    assert(self@ =~= pre.update(
                        i as int,
                        with_status(pre[i as int], status, updated_time),
                    )) by {
                        assert(self@ == pre.remove(i as int).insert(i as int, updated));
                    }
                    assert forall|a: int, b: int|
                        0 <= a < self@.len() && 0 <= b < self@.len() && a != b implies !key_matches(
                        self@[a],
                        self@[b].user_id@,
                        self@[b].notification_id@,
                    ) by {
                        assert(key_matches(pre[a], self@[a].user_id@, self@[a].notification_id@));
                        assert(key_matches(pre[b], self@[b].user_id@, self@[b].notification_id@));
                    }
                }
                Ok(())
            },
        }
    }

    /// Range query: the unread notifications of the user, most recently
    /// created first, capped at [`QUERY_LIMIT`] rows.
    pub fn db_get_notifications_by_user_id(&self, user_id: String) -> (r: Vec<DBNotifcation>)
        ensures
            r@ == query_results(self@, user_partition_key_spec(user_id@)),
    {
        let pk = user_partition_key(user_id.as_str());
        let ghost pkv = user_partition_key_spec(user_id@);
        let mut acc: Vec<DBNotifcation> = Vec::new();
        let mut i: usize = 0;
        while i < self.rows.len()
            invariant
                i <= self@.len(),
                pk@ == pkv,
                pkv == user_partition_key_spec(user_id@),
                acc@ == sort_desc(self@.take(i as int).filter(unread_pred(pkv))),
            decreases self@.len() - i,
        {
            let ghost taken = self@.take(i as int);
            let row_matches = self.rows[i].user_id == pk && self.rows[i].status
                == NotificationStatus::UNREAD;
            proof {
                assert(self@.take(i + 1 as int) =~= taken.push(self@[i as int]));
                lemma_filter_push(taken, self@[i as int], unread_pred(pkv));
                if row_matches {
                    lemma_sort_desc_push(taken.filter(unread_pred(pkv)), self@[i as int]);
                }
            }
            if row_matches {
                insert_sorted(&mut acc, self.rows[i].duplicate());
            }
            i = i + 1;
        }
        proof {
            assert(self@.take(self@.len() as int) =~= self@);
        }
        acc.truncate(QUERY_LIMIT);
        proof {
            let sorted = sort_desc(self@.filter(unread_pred(pkv)));
            if sorted.len() <= QUERY_LIMIT {
                assert(acc@ =~= sorted);
            } else {
                assert(acc@ =~= sorted.take(QUERY_LIMIT as int));
            }
        }
        acc
    }
}

/// Places `x` into the newest-first sequence `acc`, exactly where
/// [`insert_desc`] says it belongs.
fn insert_sorted(acc: &mut Vec<DBNotifcation>, x: DBNotifcation)
    ensures
        final(acc)@ == insert_desc(old(acc)@, x),
{
    let mut j: usize = 0;
    loop
        invariant
            j <= acc@.len(),
            acc@ == old(acc)@,
            forall|k: int| 0 <= k < j ==> !lex_lt(#[trigger] acc@[k].created_time@, x.created_time@),
        ensures
            j <= acc@.len(),
            acc@ == old(acc)@,
            forall|k: int| 0 <= k < j ==> !lex_lt(#[trigger] acc@[k].created_time@, x.created_time@),
            j < acc@.len() ==> lex_lt(acc@[j as int].created_time@, x.created_time@),
        decreases acc@.len() - j,
    {
        if j == acc.len() {
            break;
        }
        if str_lex_lt(acc[j].created_time.as_str(), x.created_time.as_str()) {
            break;
        }
        j = j + 1;
    }
    proof {
        lemma_insert_desc_at(acc@, x, j as int);
    }
    let ghost pre = acc@;
    acc.insert(j, x);
    proof {
        assert(pre.insert(j as int, x) =~= pre.take(j as int) + seq![x] + pre.skip(j as int));
    }
}

} // verus!

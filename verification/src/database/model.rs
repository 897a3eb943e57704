//! The abstract state of a storage backend: what has been committed, and how
//! the connection pool's bookkeeping stands.

use vstd::prelude::*;

use crate::domain::email_valid;
use crate::domain::name_valid;

verus! {

/// One persisted subscription, as contracts see it.
pub struct SubscriptionRow {
    pub id: u128,
    pub email: Seq<char>,
    pub name: Seq<char>,
    pub subscribed_at: i64,
}

/// One persisted subscription, as executable code carries it: the
/// identifier, the validated fields flattened to plain strings, and the UTC
/// timestamp in microseconds since the epoch.
pub struct SubscriptionRecord {
    pub id: u128,
    pub email: String,
    pub name: String,
    pub subscribed_at_micros: i64,
}

impl View for SubscriptionRecord {
    type V = SubscriptionRow;

    open spec fn view(&self) -> SubscriptionRow {
        SubscriptionRow {
            id: self.id,
            email: self.email@,
            name: self.name@,
            subscribed_at: self.subscribed_at_micros,
        }
    }
}

/// Relies on `chrono::Utc::now` (read as `timestamp_micros`): the current
/// UTC wall-clock time. Nothing can be promised of its value.
#[verifier::external_body]
pub(crate) fn now_utc_micros() -> i64 {
    chrono::Utc::now().timestamp_micros()
}

/// The abstract state of a pooled storage backend: how many connections it
/// may hand out at once, how many are checked out right now, and what has
/// been committed.
pub struct PoolModel {
    pub capacity: nat,
    pub in_use: nat,
    pub rows: Seq<SubscriptionRow>,
}

impl PoolModel {
    /// At least one connection is free, so an operation that needs one is
    /// not left to wait out the acquisition timeout.
    pub open spec fn has_free_connection(self) -> bool {
        self.in_use < self.capacity
    }

    pub open spec fn contains_id(self, id: u128) -> bool {
        exists|i: int| 0 <= i < self.rows.len() && self.rows[i].id == id
    }

    /// Well-formed: no more connections are out than exist, identifiers are
    /// distinct, and no committed row ever bypassed validation.
    pub open spec fn wf(self) -> bool {
        &&& self.in_use <= self.capacity
        &&& forall|i: int, j: int|
            #![trigger self.rows[i].id, self.rows[j].id]
            0 <= i < j < self.rows.len() ==> self.rows[i].id != self.rows[j].id
        &&& forall|i: int|
            0 <= i < self.rows.len() ==> name_valid(#[trigger] self.rows[i].name) && email_valid(
                self.rows[i].email,
            )
    }
}

/// The row that one insert of these fields commits, given the server-side
/// identifier and timestamp.
pub open spec fn sub_row(id: u128, email: Seq<char>, name: Seq<char>, at: i64) -> SubscriptionRow {
    SubscriptionRow { id, email, name, subscribed_at: at }
}

/// How a successful insert relates the backend's state before and after: one
/// row was appended, carrying the given fields, an identifier no earlier row
/// holds, and a server-side timestamp; the connection bookkeeping is
/// unchanged.
pub open spec fn inserted(m0: PoolModel, m1: PoolModel, email: Seq<char>, name: Seq<char>) -> bool {
    &&& m1.capacity == m0.capacity
    &&& m1.in_use == m0.in_use
    &&& exists|id: u128, at: i64|
        !m0.contains_id(id) && m1.rows == m0.rows.push(#[trigger] sub_row(id, email, name, at))
}

/// How many rows of `rows` carry exactly this email and name.
pub open spec fn count_matching_rows(rows: Seq<SubscriptionRow>, email: Seq<char>, name: Seq<char>) -> nat
    decreases rows.len(),
{
    if rows.len() == 0 {
        0
    } else {
        count_matching_rows(rows.drop_last(), email, name) + (if rows.last().email == email
            && rows.last().name == name {
            1nat
        } else {
            0nat
        })
    }
}

/// A successful insert into a state where no row carries these fields
/// leaves exactly one row carrying them: what a follow-up query for the
/// subscription finds.
pub proof fn lemma_inserted_unique_match(
    m0: PoolModel,
    m1: PoolModel,
    email: Seq<char>,
    name: Seq<char>,
)
    requires
        inserted(m0, m1, email, name),
        count_matching_rows(m0.rows, email, name) == 0,
    ensures
        count_matching_rows(m1.rows, email, name) == 1,
{
    let (id, at) = choose|id: u128, at: i64|
        !m0.contains_id(id) && m1.rows == m0.rows.push(sub_row(id, email, name, at));
    assert(m1.rows.drop_last() =~= m0.rows);
    assert(m1.rows.last() == sub_row(id, email, name, at));
}

/// One successful insert into a well-formed state keeps it well-formed,
/// appends exactly the requested fields, and leaves every earlier row as it
/// was.
pub proof fn lemma_insert_step(m0: PoolModel, m1: PoolModel, email: Seq<char>, name: Seq<char>)
    requires
        m0.wf(),
        inserted(m0, m1, email, name),
        name_valid(name),
        email_valid(email),
    ensures
        m1.wf(),
        m1.has_free_connection() == m0.has_free_connection(),
        m1.rows.len() == m0.rows.len() + 1,
        forall|i: int| 0 <= i < m0.rows.len() ==> m1.rows[i] == #[trigger] m0.rows[i],
        m1.rows[m0.rows.len() as int].email == email,
        m1.rows[m0.rows.len() as int].name == name,
{
    let (id, at) = choose|id: u128, at: i64|
        !m0.contains_id(id) && m1.rows == m0.rows.push(sub_row(id, email, name, at));
    let n = m0.rows.len() as int;
    assert forall|i: int, j: int|
        #![trigger m1.rows[i].id, m1.rows[j].id]
        0 <= i < j < m1.rows.len() implies m1.rows[i].id != m1.rows[j].id by {
        if j < n {
            assert(m1.rows[i] == m0.rows[i]);
            assert(m1.rows[j] == m0.rows[j]);
        } else {
            assert(m1.rows[j].id == id);
            assert(m1.rows[i] == m0.rows[i]);
            assert(!m0.contains_id(id));
        }
    }
}

/// Pool reuse: start from any well-formed backend state that has a free
/// connection, and let a whole batch of insertions run, each one relating
/// its state to the next as a successful insert does. Then every
/// intermediate state is well-formed and still has its free connection — so
/// each request in the batch was owed success — and at the end the committed
/// rows have grown by exactly one per request: the earlier rows unchanged,
/// each new row carrying the requested fields, and all identifiers distinct.
pub proof fn lemma_pool_reuse(models: Seq<PoolModel>, emails: Seq<Seq<char>>, names: Seq<Seq<char>>)
    requires
        models.len() == emails.len() + 1,
        names.len() == emails.len(),
        models[0].wf(),
        models[0].has_free_connection(),
        forall|k: int|
            0 <= k < emails.len() ==> name_valid(#[trigger] names[k]) && email_valid(emails[k]),
        forall|k: int|
            0 <= k < emails.len() ==> inserted(models[k], #[trigger] models[k + 1], emails[k], names[k]),
    ensures
        forall|k: int|
            0 <= k < models.len() ==> (#[trigger] models[k]).wf() && models[k].has_free_connection(),
        models.last().rows.len() == models[0].rows.len() + emails.len(),
        forall|i: int| 0 <= i < models[0].rows.len() ==> models.last().rows[i] == #[trigger] models[0].rows[i],
        forall|k: int|
            0 <= k < emails.len() ==> models.last().rows[models[0].rows.len() + k].email
                == #[trigger] emails[k] && models.last().rows[models[0].rows.len() + k].name
                == names[k],
    decreases emails.len(),
{
    if emails.len() == 0 {
        assert(models.last() == models[0]);
    } else {
        let n = emails.len() as int;
        let init = models.drop_last();
        assert(init[0] == models[0]);
        assert forall|k: int| 0 <= k < n - 1 implies inserted(init[k], #[trigger] init[k + 1], emails.drop_last()[k], names.drop_last()[k]) by {
            assert(init[k] == models[k]);
            assert(init[k + 1] == models[k + 1]);
            assert(emails.drop_last()[k] == emails[k]);
            assert(names.drop_last()[k] == names[k]);
        }
        lemma_pool_reuse(init, emails.drop_last(), names.drop_last());
        assert(init.last() == models[n - 1]);
        lemma_insert_step(models[n - 1], models[n], emails[n - 1], names[n - 1]);
        assert(models.last() == models[n]);
        assert forall|k: int| 0 <= k < models.len() implies (#[trigger] models[k]).wf()
            && models[k].has_free_connection() by {
            if k < n {
                assert(init[k] == models[k]);
            }
        }
        assert(models[n - 1].rows.len() == models[0].rows.len() + n - 1);
        assert forall|k: int| 0 <= k < n implies models.last().rows[models[0].rows.len() + k].email
            == #[trigger] emails[k] && models.last().rows[models[0].rows.len() + k].name
            == names[k] by {
            let base = models[0].rows.len() as int;
            if k < n - 1 {
                assert(init.last().rows[base + k].email == emails.drop_last()[k]);
                assert(init.last().rows[base + k].name == names.drop_last()[k]);
                assert(models[n].rows[base + k] == models[n - 1].rows[base + k]);
            } else {
                assert(models[n].rows[models[n - 1].rows.len() as int].email == emails[n - 1]);
            }
        }
    }
}

} // verus!

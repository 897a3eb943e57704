//! An in-memory storage backend: the substitutable test double the
//! capability interface promises, with the pool's bookkeeping modelled
//! exactly.

use vstd::prelude::*;

use crate::configuration::DatabaseSettings;
use crate::database::basic::build_connection_options;
use crate::database::basic::ConnectError;
use crate::database::basic::ConnectionOptions;
use crate::database::basic::QueryOutcome;
use crate::database::basic::StorageError;
use crate::database::basic::Zero2ProdDatabase;
use crate::database::model::count_matching_rows;
use crate::database::model::inserted;
use crate::database::model::now_utc_micros;
use crate::database::model::PoolModel;
use crate::database::model::SubscriptionRecord;
use crate::database::model::SubscriptionRow;
use crate::domain::email_valid;
use crate::domain::name_valid;
use crate::domain::NewSubscriber;

verus! {

/// How many connections a freshly connected pool hands out at most.
pub const DEFAULT_POOL_CAPACITY: usize = 10;

/// A storage backend kept entirely in memory. Connecting never touches any
/// network; an insert needs a free connection, commits one row, and hands
/// the connection straight back; [`InMemoryPool::acquire`] and
/// [`InMemoryPool::release`] model longer-held checkouts such as
/// administrative work on the raw pool.
pub struct InMemoryPool {
    capacity: usize,
    in_use: usize,
    rows: Vec<SubscriptionRecord>,
}

impl InMemoryPool {
    /// A fresh, empty pool that will hand out at most `capacity` connections
    /// at once.
    pub fn with_capacity(capacity: usize) -> (p: InMemoryPool)
        ensures
            p.inv(),
            p.db().capacity == capacity as nat,
            p.db().in_use == 0,
            p.db().rows == Seq::<SubscriptionRow>::empty(),
    {
        let p = InMemoryPool { capacity, in_use: 0, rows: Vec::new() };
        proof {
            assert(p.db().rows =~= Seq::<SubscriptionRow>::empty());
        }
        p
    }

    /// Check one connection out for longer-running work. If none is free,
    /// the acquisition times out and fails rather than blocking.
    pub fn acquire(&mut self) -> (r: Result<(), ConnectError>)
        requires
            old(self).inv(),
        ensures
            final(self).inv(),
            final(self).db().capacity == old(self).db().capacity,
            final(self).db().rows == old(self).db().rows,
            old(self).db().has_free_connection() ==> r == Ok::<(), ConnectError>(())
                && final(self).db().in_use == old(self).db().in_use + 1,
            !old(self).db().has_free_connection() ==> r == Err::<(), ConnectError>(
                ConnectError::PoolTimedOut,
            ) && final(self).db().in_use == old(self).db().in_use,
    {
        if self.in_use < self.capacity {
            self.in_use += 1;
            Ok(())
        } else {
            Err(ConnectError::PoolTimedOut)
        }
    }

    /// Hand a checked-out connection back.
    pub fn release(&mut self)
        requires
            old(self).inv(),
            old(self).db().in_use > 0,
        ensures
            final(self).inv(),
            final(self).db().capacity == old(self).db().capacity,
            final(self).db().rows == old(self).db().rows,
            final(self).db().in_use == old(self).db().in_use - 1,
    {
        self.in_use -= 1;
    }

    /// How many rows have been committed.
    pub fn row_count(&self) -> (n: usize)
        ensures
            n == self.db().rows.len(),
    {
        self.rows.len()
    }

    /// The identifier of the `i`-th committed row.
    pub fn row_id(&self, i: usize) -> (id: u128)
        requires
            i < self.db().rows.len(),
        ensures
            id == self.db().rows[i as int].id,
    {
        self.rows[i].id
    }

    /// How many committed rows carry exactly this email and name.
    pub fn count_matching(&self, email: &String, name: &String) -> (n: usize)
        ensures
            n as nat == count_matching_rows(self.db().rows, email@, name@),
    {
        let ghost all = self.db().rows;
        let mut n: usize = 0;
        let mut i: usize = 0;
        while i < self.rows.len()
            invariant
                i <= self.rows@.len(),
                n <= i,
                all == self.db().rows,
                all.len() == self.rows@.len(),
                n as nat == count_matching_rows(all.take(i as int), email@, name@),
            decreases self.rows@.len() - i,
        {
            proof {
                assert(all.take(i + 1).drop_last() =~= all.take(i as int));
                assert(all.take(i + 1).last() == all[i as int]);
                assert(all[i as int] == self.rows@[i as int]@);
            }
            if self.rows[i].email == *email && self.rows[i].name == *name {
                n += 1;
            }
            i += 1;
        }
        proof {
            assert(all.take(self.rows@.len() as int) =~= all);
        }
        n
    }
}

impl Zero2ProdDatabase for InMemoryPool {
    closed spec fn db(&self) -> PoolModel {
        PoolModel {
            capacity: self.capacity as nat,
            in_use: self.in_use as nat,
            rows: self.rows@.map_values(|r: SubscriptionRecord| r@),
        }
    }

    closed spec fn inv(&self) -> bool {
        &&& self.in_use <= self.capacity
        &&& forall|i: int|
            0 <= i < self.rows@.len() ==> (#[trigger] self.rows@[i])@.id == i as u128
        &&& forall|i: int|
            0 <= i < self.rows@.len() ==> name_valid((#[trigger] self.rows@[i])@.name)
                && email_valid(self.rows@[i]@.email)
    }

    proof fn inv_implies_wf(&self) {
        vstd::std_specs::vec::axiom_spec_len(&self.rows);
        assert forall|i: int, j: int|
            #![trigger self.db().rows[i].id, self.db().rows[j].id]
            0 <= i < j < self.db().rows.len() implies self.db().rows[i].id
            != self.db().rows[j].id by {
            assert(self.db().rows[i] == self.rows@[i]@);
            assert(self.db().rows[j] == self.rows@[j]@);
            assert(self.db().rows[i].id == i as u128);
            assert(self.db().rows[j].id == j as u128);
            assert(j <= self.rows@.len() <= usize::MAX);
        }
    }

    /// Construction is lazy and touches nothing outside the process, so it
    /// succeeds for every settings value: startup cannot fail just because
    /// the store is briefly unavailable.
    fn connect(_settings: &DatabaseSettings) -> (r: Result<Self, ConnectError>)
        ensures
            r is Ok,
    {
        Ok(Self::with_capacity(DEFAULT_POOL_CAPACITY))
    }

    fn connect_option_without_db(settings: &DatabaseSettings) -> (o: ConnectionOptions) {
        build_connection_options(settings, false)
    }

    fn connect_option_with_db(settings: &DatabaseSettings) -> (o: ConnectionOptions) {
        build_connection_options(settings, true)
    }

    fn insert_subscriber(&mut self, subscriber: &NewSubscriber) -> (r: Result<
        QueryOutcome,
        StorageError,
    >) {
        if self.in_use >= self.capacity {
            return Err(StorageError::Connect(ConnectError::PoolTimedOut));
        }
        let subscribed_at_micros = now_utc_micros();
        let id = self.rows.len() as u128;
        let record = SubscriptionRecord {
            id,
            email: subscriber.email.as_str().to_owned(),
            name: subscriber.name.as_str().to_owned(),
            subscribed_at_micros,
        };
        proof {
            use_type_invariant(&subscriber.email);
            use_type_invariant(&subscriber.name);
        }
        let ghost pre = self.db();
        let ghost new_row = record@;
        self.rows.push(record);
        proof {
            assert(self.db().rows =~= pre.rows.push(new_row));
            assert forall|i: int| 0 <= i < pre.rows.len() implies #[trigger] pre.rows[i].id
                != id by {
                assert(pre.rows[i].id == i as u128);
            }
            assert(!pre.contains_id(id));
            assert(new_row == crate::database::model::sub_row(
                id,
                subscriber.email@,
                subscriber.name@,
                subscribed_at_micros,
            ));
            assert(self.db().rows == pre.rows.push(
                crate::database::model::sub_row(
                    id,
                    subscriber.email@,
                    subscriber.name@,
                    subscribed_at_micros,
                ),
            ));
            assert(inserted(pre, self.db(), subscriber.email@, subscriber.name@));
        }
        Ok(QueryOutcome { rows_affected: 1 })
    }
}

} // verus!

//! The storage layer: the capability interface any relational backend must
//! satisfy, the abstract pool model behind its contracts, an in-memory
//! backend that implements it, and the values the relational backend
//! prepares for the wire.

mod basic;
mod in_memory;
mod model;
mod postgres;

pub use basic::build_connection_options;
pub use basic::connection_options_post;
pub use basic::ConnectError;
pub use basic::ConnectionOptions;
pub use basic::QueryOutcome;
pub use basic::SslMode;
pub use basic::StorageError;
pub use basic::Zero2ProdDatabase;
pub use basic::ACQUIRE_TIMEOUT_SECS;
pub use in_memory::InMemoryPool;
pub use in_memory::DEFAULT_POOL_CAPACITY;
pub use model::count_matching_rows;
pub use model::inserted;
pub use model::lemma_insert_step;
pub use model::lemma_inserted_unique_match;
pub use model::lemma_pool_reuse;
pub use model::PoolModel;
pub use model::SubscriptionRecord;
pub use model::SubscriptionRow;
pub use postgres::pg_insert_statement;
pub use postgres::prepare_subscription_record;

//! The capability any relational backend must provide: connect from
//! settings, derive connection options, and insert a validated record.

use vstd::prelude::*;

use crate::configuration::DatabaseSettings;
use crate::configuration::SecretString;
use crate::database::model::inserted;
use crate::database::model::PoolModel;
use crate::database::model::SubscriptionRow;
use crate::domain::NewSubscriber;

verus! {

/// Seconds a connection acquisition may wait before the pool gives up and
/// the operation fails instead of blocking indefinitely.
pub const ACQUIRE_TIMEOUT_SECS: u64 = 2;

/// A successful storage operation, reduced to what the service reads of it:
/// how many rows the statement touched.
pub struct QueryOutcome {
    pub rows_affected: u64,
}

/// Failure to obtain a usable connection.
#[derive(Clone, Copy, PartialEq, Eq, Structural, Debug)]
pub enum ConnectError {
    /// The host did not answer.
    HostUnreachable,
    /// The server refused the credentials.
    AuthRejected,
    /// No pooled connection became free within the acquisition timeout.
    PoolTimedOut,
}

/// Failure of one storage statement, passed through untouched: the caller
/// alone translates it into a user-facing response.
#[derive(Clone, Copy, PartialEq, Eq, Structural, Debug)]
pub enum StorageError {
    /// No usable connection: the statement never ran.
    Connect(ConnectError),
    /// The server refused the statement.
    ConstraintViolation,
    /// The connection dropped mid-statement.
    Transport,
}

/// Whether the driver must, or merely prefers to, encrypt the channel.
/// `Prefer` falls back silently to an unencrypted channel when negotiation
/// fails: a deliberately permissive default, not a security best practice.
#[derive(Clone, Copy, PartialEq, Eq, Structural, Debug)]
pub enum SslMode {
    Require,
    Prefer,
}

/// Connection options as plain values, exactly what the settings determine;
/// turning them into a driver's own options object happens outside the
/// library.
pub struct ConnectionOptions {
    pub host: String,
    pub username: String,
    pub password: SecretString,
    pub port: u16,
    pub ssl_mode: SslMode,
    pub database: Option<String>,
}

/// What connection options derived from `settings` hold: every field taken
/// as given, SSL required exactly when the settings require it, and the
/// target database selected exactly when asked for.
pub open spec fn connection_options_post(
    settings: DatabaseSettings,
    o: ConnectionOptions,
    with_db: bool,
) -> bool {
    &&& o.host@ == settings.host@
    &&& o.username@ == settings.username@
    &&& o.password@ == settings.password@
    &&& o.port == settings.port
    &&& o.ssl_mode == (if settings.require_ssl {
        SslMode::Require
    } else {
        SslMode::Prefer
    })
    &&& if with_db {
        o.database matches Some(d) && d@ == settings.database_name@
    } else {
        o.database is None
    }
}

/// Derive connection options from the settings. Selecting the target
/// database is the caller's choice: without it the options serve
/// administrative work (creating or dropping a database), with it they serve
/// normal operation.
pub fn build_connection_options(settings: &DatabaseSettings, with_db: bool) -> (o: ConnectionOptions)
    ensures
        connection_options_post(*settings, o, with_db),
{
    let database = if with_db {
        Some(settings.database_name.clone())
    } else {
        None
    };
    let ssl_mode = if settings.require_ssl {
        SslMode::Require
    } else {
        SslMode::Prefer
    };
    ConnectionOptions {
        host: settings.host.clone(),
        username: settings.username.clone(),
        password: settings.password.duplicate(),
        port: settings.port,
        ssl_mode,
        database,
    }
}

/// The capability interface over a relational backend. Every implementation
/// carries an abstract state ([`PoolModel`]) and an invariant that keeps it
/// well-formed; the handler is written against this contract alone, so a
/// test double substitutes for the production backend without touching it.
pub trait Zero2ProdDatabase: Sized {
    /// The backend's abstract state.
    spec fn db(&self) -> PoolModel;

    /// The backend's internal invariant.
    spec fn inv(&self) -> bool;

    /// The invariant keeps the abstract state well-formed.
    proof fn inv_implies_wf(&self)
        requires
            self.inv(),
        ensures
            self.db().wf(),
    ;

    /// Build a pool over `settings` without touching the network: the
    /// handshake is deferred to first use, so construction cannot fail just
    /// because the store is briefly unavailable. A backend that does succeed
    /// starts empty, with every connection free.
    fn connect(settings: &DatabaseSettings) -> (r: Result<Self, ConnectError>)
        ensures
            r matches Ok(pool) ==> pool.inv() && pool.db().rows
                == Seq::<SubscriptionRow>::empty() && pool.db().in_use == 0 && pool.db().capacity
                > 0,
    ;

    /// Connection options without a target database, for administrative use.
    fn connect_option_without_db(settings: &DatabaseSettings) -> (o: ConnectionOptions)
        ensures
            connection_options_post(*settings, o, false),
    ;

    /// Connection options with the target database selected, for normal
    /// operation.
    fn connect_option_with_db(settings: &DatabaseSettings) -> (o: ConnectionOptions)
        ensures
            connection_options_post(*settings, o, true),
    ;

    /// Insert one subscriber as a single atomic statement, generating the
    /// identifier and the timestamp server-side. Success is owed exactly
    /// when a connection is free: it committed exactly the given fields,
    /// once; a pool with no free connection always fails with the
    /// acquisition timeout instead of blocking, and committed nothing.
    fn insert_subscriber(&mut self, subscriber: &NewSubscriber) -> (r: Result<
        QueryOutcome,
        StorageError,
    >)
        requires
            old(self).inv(),
        ensures
            final(self).inv(),
            final(self).db().capacity == old(self).db().capacity,
            final(self).db().in_use == old(self).db().in_use,
            r is Ok <==> old(self).db().has_free_connection(),
            r matches Ok(outcome) ==> outcome.rows_affected == 1 && inserted(
                old(self).db(),
                final(self).db(),
                subscriber.email@,
                subscriber.name@,
            ),
            r is Err ==> r == Err::<QueryOutcome, StorageError>(
                StorageError::Connect(ConnectError::PoolTimedOut),
            ) && final(self).db() == old(self).db(),
    ;
}

} // verus!

//! Where the database is, and the session settings applied to each new
//! connection of the pool.

use crate::text::{decimal, decimal_string};
use vstd::prelude::*;

verus! {

/// The connection string used when none is configured.
pub open spec fn default_database_url() -> Seq<char> {
    "sqlite://./db/podcast.db"@
}

/// The connection string: the configured one, else the local default.
pub fn get_database_url(configured: Option<String>) -> (r: String)
    ensures
        configured is Some ==> r == configured->Some_0,
        configured is None ==> r@ == default_database_url(),
{
    match configured {
        Some(url) => url,
        None => String::from_str("sqlite://./db/podcast.db"),
    }
}

/// Session settings applied to each new connection. The busy timeout is in
/// milliseconds.
pub struct ConnectionOptions {
    pub enable_wal: bool,
    pub enable_foreign_keys: bool,
    pub busy_timeout: Option<u64>,
}

/// The session settings of a connection that the options touch.
#[derive(PartialEq, Eq, Structural)]
pub struct SessionState {
    pub journal_wal: bool,
    pub synchronous_normal: bool,
    pub foreign_keys: bool,
    pub busy_timeout: Option<u64>,
}

/// The session after the options' statements have run on it.
pub open spec fn tuned(o: ConnectionOptions, s: SessionState) -> SessionState {
    SessionState {
        journal_wal: s.journal_wal || o.enable_wal,
        synchronous_normal: s.synchronous_normal || o.enable_wal,
        foreign_keys: s.foreign_keys || o.enable_foreign_keys,
        busy_timeout: if o.busy_timeout is Some { o.busy_timeout } else { s.busy_timeout },
    }
}

/// A session setting that a statement sets.
pub enum Pragma {
    JournalWal,
    ForeignKeys,
    BusyTimeout(u64),
}

/// The statement that sets a pragma.
pub open spec fn pragma_text(p: Pragma) -> Seq<char> {
    match p {
        Pragma::JournalWal => "PRAGMA journal_mode = WAL; PRAGMA synchronous = NORMAL;"@,
        Pragma::ForeignKeys => "PRAGMA foreign_keys = ON;"@,
        Pragma::BusyTimeout(ms) => "PRAGMA busy_timeout = "@ + decimal(ms as nat) + ";"@,
    }
}

/// The session after a pragma's statement has run on it.
pub open spec fn pragma_effect(p: Pragma, s: SessionState) -> SessionState {
    match p {
        Pragma::JournalWal => SessionState { journal_wal: true, synchronous_normal: true, ..s },
        Pragma::ForeignKeys => SessionState { foreign_keys: true, ..s },
        Pragma::BusyTimeout(ms) => SessionState { busy_timeout: Some(ms), ..s },
    }
}

/// The session after the pragmas' statements have run on it, in order.
pub open spec fn apply_all(ps: Seq<Pragma>, s: SessionState) -> SessionState
    decreases ps.len(),
{
    if ps.len() == 0 {
        s
    } else {
        pragma_effect(ps.last(), apply_all(ps.drop_last(), s))
    }
}

/// The pragmas that the options ask for, in the order they run.
pub open spec fn pragmas_of(o: ConnectionOptions) -> Seq<Pragma> {
    let wal: Seq<Pragma> = if o.enable_wal { seq![Pragma::JournalWal] } else { seq![] };
    let fk: Seq<Pragma> = if o.enable_foreign_keys { seq![Pragma::ForeignKeys] } else { seq![] };
    let busy: Seq<Pragma> = match o.busy_timeout {
        Some(ms) => seq![Pragma::BusyTimeout(ms)],
        None => seq![],
    };
    wal + fk + busy
}

/// The statements for the options, in the order they run.
pub open spec fn pragma_statements_spec(o: ConnectionOptions) -> Seq<Seq<char>> {
    pragmas_of(o).map_values(|p: Pragma| pragma_text(p))
}

/// Running the options' statements on a session gives the tuned session.
pub proof fn lemma_statements_tune(o: ConnectionOptions, s: SessionState)
    ensures
        apply_all(pragmas_of(o), s) == tuned(o, s),
{
    let ps = pragmas_of(o);
    reveal_with_fuel(apply_all, 4);
    if o.enable_wal {
        if o.enable_foreign_keys {
            if o.busy_timeout is Some {
                assert(ps.drop_last().drop_last() =~= seq![Pragma::JournalWal]);
                assert(ps.drop_last().drop_last().drop_last() =~= Seq::<Pragma>::empty());
            } else {
                assert(ps.drop_last() =~= seq![Pragma::JournalWal]);
                assert(ps.drop_last().drop_last() =~= Seq::<Pragma>::empty());
            }
        } else if o.busy_timeout is Some {
            assert(ps.drop_last() =~= seq![Pragma::JournalWal]);
            assert(ps.drop_last().drop_last() =~= Seq::<Pragma>::empty());
        } else {
            assert(ps.drop_last() =~= Seq::<Pragma>::empty());
        }
    } else if o.enable_foreign_keys {
        if o.busy_timeout is Some {
            assert(ps.drop_last() =~= seq![Pragma::ForeignKeys]);
            assert(ps.drop_last().drop_last() =~= Seq::<Pragma>::empty());
        } else {
            assert(ps.drop_last() =~= Seq::<Pragma>::empty());
        }
    } else if o.busy_timeout is Some {
        assert(ps.drop_last() =~= Seq::<Pragma>::empty());
    } else {
        assert(ps =~= Seq::<Pragma>::empty());
    }
    assert(apply_all(ps, s) =~= tuned(o, s));
}

impl ConnectionOptions {
    /// The statements to run on each new connection.
    pub fn pragma_statements(&self) -> (r: Vec<String>)
        ensures
            r@.map_values(|s: String| s@) == pragma_statements_spec(*self),
    {
        let mut r: Vec<String> = Vec::new();
        if self.enable_wal {
            r.push(String::from_str("PRAGMA journal_mode = WAL; PRAGMA synchronous = NORMAL;"));
        }
        if self.enable_foreign_keys {
            r.push(String::from_str("PRAGMA foreign_keys = ON;"));
        }
        if let Some(ms) = self.busy_timeout {
            let mut s = String::from_str("PRAGMA busy_timeout = ");
            let digits = decimal_string(ms);
            s.append(digits.as_str());
            s.append(";");
            r.push(s);
        }
        assert(r@.map_values(|s: String| s@) =~= pragma_statements_spec(*self));
        r
    }

    /// The session state after the options are applied to `s`.
    pub fn tune(&self, s: SessionState) -> (r: SessionState)
        ensures
            r == tuned(*self, s),
    {
        SessionState {
            journal_wal: s.journal_wal || self.enable_wal,
            synchronous_normal: s.synchronous_normal || self.enable_wal,
            foreign_keys: s.foreign_keys || self.enable_foreign_keys,
            busy_timeout: if self.busy_timeout.is_some() { self.busy_timeout } else { s.busy_timeout },
        }
    }
}

/// Applying the options to a connection a second time changes nothing.
pub proof fn lemma_tuning_idempotent(o: ConnectionOptions, s: SessionState)
    ensures
        tuned(o, tuned(o, s)) == tuned(o, s),
{
}

} // verus!

use vstd::prelude::*;

use crate::engine::{EngineCall, ResourceKind};
use crate::error::Error;
use crate::helper::check_c_string;
use crate::ptrc::PtrContainer;

verus! {

/// The engine's log levels.
#[derive(Debug, Clone)]
pub enum LogLevel {
    Info,
    Debug,
    Error,
}

/// The string the engine expects for each log level.
pub open spec fn log_level_spec(l: LogLevel) -> Seq<char> {
    match l {
        LogLevel::Info => "info"@,
        LogLevel::Debug => "debug"@,
        LogLevel::Error => "err"@,
    }
}

/// No log level's string holds a NUL byte, so every level can cross the
/// boundary as a C string.
proof fn lemma_log_level_c_safe(l: LogLevel)
    ensures
        !log_level_spec(l).contains('\0'),
{
    reveal_strlit("info");
    reveal_strlit("debug");
    reveal_strlit("err");
    match l {
        LogLevel::Info => {
            assert forall|i: int| 0 <= i < log_level_spec(l).len() implies log_level_spec(l)[i]
                != '\0' by {}
        },
        LogLevel::Debug => {
            assert forall|i: int| 0 <= i < log_level_spec(l).len() implies log_level_spec(l)[i]
                != '\0' by {}
        },
        LogLevel::Error => {
            assert forall|i: int| 0 <= i < log_level_spec(l).len() implies log_level_spec(l)[i]
                != '\0' by {}
        },
    }
    if log_level_spec(l).contains('\0') {
        let i = choose|i: int| 0 <= i < log_level_spec(l).len() && log_level_spec(l)[i] == '\0';
    }
}

impl LogLevel {
    /// The level's string, as the engine expects it.
    fn as_str(&self) -> (r: &'static str)
        ensures
            r@ == log_level_spec(*self),
    {
        match self {
            LogLevel::Info => "info",
            LogLevel::Debug => "debug",
            LogLevel::Error => "err",
        }
    }
}

/// Collects what the engine needs to open a database: the path, the buffer
/// pool size, and the log level (`LogLevel::Error` unless set otherwise).
#[derive(Debug)]
pub struct DatabaseBuilder {
    database_path: String,
    buffer_pool_size: u64,
    log_level: LogLevel,
}

impl DatabaseBuilder {
    /// The database directory's path.
    pub closed spec fn spec_path(&self) -> Seq<char> {
        self.database_path@
    }

    /// The buffer pool size, in bytes; zero leaves the engine's default.
    pub closed spec fn spec_pool(&self) -> u64 {
        self.buffer_pool_size
    }

    /// The log level the database will be opened with.
    pub closed spec fn spec_level(&self) -> LogLevel {
        self.log_level
    }

    /// Starts a builder for the given path, with no buffer pool size set
    /// and errors-only logging.
    pub fn new(database_path: &str) -> (r: Self)
        ensures
            r.spec_path() == database_path@,
            r.spec_pool() == 0,
            r.spec_level() is Error,
    {
        DatabaseBuilder {
            database_path: database_path.to_owned(),
            buffer_pool_size: 0,
            log_level: LogLevel::Error,
        }
    }

    /// Sets the log level.
    pub fn with_log_level(self, log_level: LogLevel) -> (r: Self)
        ensures
            r.spec_path() == self.spec_path(),
            r.spec_pool() == self.spec_pool(),
            r.spec_level() == log_level,
    {
        DatabaseBuilder { log_level, ..self }
    }

    /// Sets the page buffer pool size.
    pub fn with_page_buffer_pool_size(self, buffer_pool_size: u64) -> (r: Self)
        ensures
            r.spec_path() == self.spec_path(),
            r.spec_pool() == buffer_pool_size,
            r.spec_level() == self.spec_level(),
    {
        DatabaseBuilder { buffer_pool_size, ..self }
    }

    /// Names the engine calls that open the database: the init call with
    /// the collected path and pool size, then the logging-level call. Fails
    /// with `Error::CStringEncodeError` exactly when the path holds an
    /// interior NUL byte; no level's string can.
    pub fn build(&self) -> (r: Result<(EngineCall, EngineCall), Error>)
        ensures
            r is Ok <==> !self.spec_path().contains('\0'),
            r matches Ok(p) ==> (p.0 matches EngineCall::DatabaseInit { path, buffer_pool_size }
                && path@ == self.spec_path() && buffer_pool_size == self.spec_pool()) && (
            p.1 matches EngineCall::SetLoggingLevel { level } && level@ == log_level_spec(
                self.spec_level(),
            )),
            r matches Err(e) ==> e matches Error::CStringEncodeError(t) && t@ == self.spec_path(),
    {
        check_c_string(self.database_path.as_str())?;
        let init = EngineCall::DatabaseInit {
            path: self.database_path.clone(),
            buffer_pool_size: self.buffer_pool_size,
        };
        let logging = match Database::set_logging_level(&self.log_level) {
            Ok(c) => c,
            Err(e) => Err(e)?,
        };
        Ok((init, logging))
    }
}

/// An opened database: the guard over the engine's database handle. The
/// engine's init entry point does not report failure through a null
/// handle, so the handle is wrapped unchecked; a null handle is owed no
/// destructor call.
#[derive(Debug)]
pub struct Database {
    inner: PtrContainer,
}

impl Database {
    /// The guard over the database handle.
    pub closed spec fn spec_guard(&self) -> PtrContainer {
        self.inner
    }

    /// The database handle.
    pub closed spec fn spec_raw(&self) -> u64 {
        self.inner.raw()
    }

    /// Starts a builder for the given path.
    pub fn builder(database_path: &str) -> (r: DatabaseBuilder)
        ensures
            r.spec_path() == database_path@,
            r.spec_pool() == 0,
            r.spec_level() is Error,
    {
        DatabaseBuilder::new(database_path)
    }

    /// Wraps the handle the engine's init call returned.
    pub fn new(raw: u64) -> (r: Database)
        ensures
            r.spec_raw() == raw,
            r.spec_guard().kind() == ResourceKind::Database,
            r.spec_guard().alive(),
    {
        Database { inner: PtrContainer::wrap(raw, ResourceKind::Database) }
    }

    /// Names the engine call that sets the logging level. Always succeeds:
    /// no level's string holds a NUL byte.
    pub fn set_logging_level(log_level: &LogLevel) -> (r: Result<EngineCall, Error>)
        ensures
            r is Ok,
            r matches Ok(c) ==> c matches EngineCall::SetLoggingLevel { level } && level@
                == log_level_spec(*log_level),
    {
        proof {
            lemma_log_level_c_safe(*log_level);
        }
        let s = log_level.as_str();
        match check_c_string(s) {
            Ok(_) => Ok(EngineCall::SetLoggingLevel { level: s.to_owned() }),
            Err(e) => Err(e),
        }
    }

    /// Gives up the database handle: the destroy call the driver must
    /// make, exactly once, and only for a non-null handle.
    pub fn release(&mut self) -> (c: Option<EngineCall>)
        ensures
            c is Some <==> old(self).spec_guard().alive() && old(self).spec_raw() != 0,
            c matches Some(call) ==> call == (EngineCall::Destroy {
                kind: old(self).spec_guard().kind(),
                raw: old(self).spec_raw(),
            }),
    {
        self.inner.release()
    }
}

} // verus!

//! The writer of an environment: who may write, and when.
//!
//! The store keeps the data of a transaction; this module keeps its
//! lifecycle. A writer is begun at the handle of the environment, which
//! admits one at a time and none where the environment is read-only, and it
//! ends by commit or by abort, each of which takes the writer away.

use vstd::prelude::*;
use crate::errors::AppError;

verus! {

/// The handle of an environment, as far as writers go: whether the
/// environment was opened read-only, and whether a writer is live.
pub struct EnvHandle {
    read_only: bool,
    writer_live: bool,
}

/// The handle as a mathematical value.
pub struct EnvView {
    /// The environment admits no writer.
    pub read_only: bool,
    /// A writer was begun and has not ended.
    pub writer_live: bool,
}

impl View for EnvHandle {
    type V = EnvView;

    closed spec fn view(&self) -> EnvView {
        EnvView { read_only: self.read_only, writer_live: self.writer_live }
    }
}

impl EnvHandle {
    /// The handle of an environment that was just opened: no writer is
    /// live.
    pub fn new(read_only: bool) -> (r: Self)
        ensures
            r@ == (EnvView { read_only, writer_live: false }),
    {
        EnvHandle { read_only, writer_live: false }
    }

    /// Whether the environment was opened read-only.
    pub fn is_read_only(&self) -> (r: bool)
        ensures
            r == self@.read_only,
    {
        self.read_only
    }

    /// Whether a writer is live.
    pub fn has_writer(&self) -> (r: bool)
        ensures
            r == self@.writer_live,
    {
        self.writer_live
    }
}

/// How a writer ended.
#[derive(Copy, Clone, Debug, PartialEq, Eq)]
pub enum End {
    /// Its writes were published together.
    Commit,
    /// Its writes were discarded.
    Abort,
}

/// The writer of an environment. There is at most one at a time; it ends by
/// `commit` or by `abort`, and only once, since both take it. A writer that
/// is dropped without either must be ended as by `abort`.
pub struct Txn {
    token: (),
}

impl Txn {
    /// Begins the writer of the environment. Fails with `ReadOnlyEnv` where
    /// the environment was opened read-only, and with `WriterBusy` where a
    /// writer is live; the handle is then left as it is.
    pub fn begin(env: &mut EnvHandle) -> (r: Result<Txn, AppError>)
        ensures
            old(env)@.read_only ==> r == Err::<Txn, AppError>(AppError::ReadOnlyEnv) && final(env)@
                == old(env)@,
            !old(env)@.read_only && old(env)@.writer_live ==> r == Err::<Txn, AppError>(
                AppError::WriterBusy,
            ) && final(env)@ == old(env)@,
            !old(env)@.read_only && !old(env)@.writer_live ==> r is Ok && final(env)@ == (EnvView {
                writer_live: true,
                ..old(env)@
            }),
    {
        if env.read_only {
            return Err(AppError::ReadOnlyEnv);
        }
        if env.writer_live {
            return Err(AppError::WriterBusy);
        }
        env.writer_live = true;
        Ok(Txn { token: () })
    }

    /// Ends the writer by publishing its writes. The environment admits the
    /// next writer.
    pub fn commit(self, env: &mut EnvHandle) -> (end: End)
        ensures
            end == End::Commit,
            final(env)@ == (EnvView { writer_live: false, ..old(env)@ }),
    {
        env.writer_live = false;
        End::Commit
    }

    /// Ends the writer by discarding its writes. The environment admits the
    /// next writer.
    pub fn abort(self, env: &mut EnvHandle) -> (end: End)
        ensures
            end == End::Abort,
            final(env)@ == (EnvView { writer_live: false, ..old(env)@ }),
    {
        env.writer_live = false;
        End::Abort
    }
}

} // verus!

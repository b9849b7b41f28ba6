//! The jobs of the statistics worker and the messages it sends back.

use vstd::prelude::*;
use crate::db::env::same_text;
use crate::db::stats::{DbStats, EnvStats};

verus! {

/// A request for statistics.
#[derive(Debug)]
pub enum Job {
    /// The statistics of the environment.
    Env,
    /// The statistics of the space of this name.
    Db(String),
}

/// A message of the worker: fresh statistics, with whose they are.
#[derive(Debug)]
pub enum JobResult {
    /// The statistics of the environment.
    Env(EnvStats),
    /// The statistics of the space of this name.
    Db(String, DbStats),
}

/// How the computation of a job ended.
#[derive(Debug)]
pub enum Outcome {
    /// The statistics of the environment were read.
    Env(EnvStats),
    /// The statistics of a space were read.
    Db(DbStats),
    /// The computation failed or was lost.
    Failed,
}

/// The message that the worker sends when a job has ended: the statistics
/// under the identity that the job asked for. A job that failed, and an
/// outcome that is not of the job's kind, send nothing: the worker reports
/// no error.
pub fn job_result(job: Job, outcome: Outcome) -> (message: Option<JobResult>)
    ensures
        message == match (job, outcome) {
            (Job::Env, Outcome::Env(stats)) => Some(JobResult::Env(stats)),
            (Job::Db(name), Outcome::Db(stats)) => Some(JobResult::Db(name, stats)),
            _ => None,
        },
{
    match (job, outcome) {
        (Job::Env, Outcome::Env(stats)) => Some(JobResult::Env(stats)),
        (Job::Db(name), Outcome::Db(stats)) => Some(JobResult::Db(name, stats)),
        _ => None,
    }
}

/// The newest statistics that the foreground has received.
#[derive(Debug)]
pub struct StatsBoard {
    /// The statistics of the environment, once they came.
    pub env: Option<EnvStats>,
    /// The statistics of a space with its name, once some came.
    pub db: Option<(String, DbStats)>,
}

impl StatsBoard {
    /// A board on which nothing has arrived.
    pub fn new() -> (r: Self)
        ensures
            r.env is None,
            r.db is None,
    {
        StatsBoard { env: None, db: None }
    }

    /// Takes a message of the worker as a refresh of what it is about: the
    /// environment's statistics replace the environment's, a space's
    /// replace the space's and carry its name. Messages may come in any
    /// order; the last one of each kind stands.
    pub fn refresh(&mut self, message: JobResult)
        ensures
            match message {
                JobResult::Env(stats) => {
                    &&& final(self).env == Some(stats)
                    &&& final(self).db == old(self).db
                },
                JobResult::Db(name, stats) => {
                    &&& final(self).db == Some((name, stats))
                    &&& final(self).env == old(self).env
                },
            },
    {
        match message {
            JobResult::Env(stats) => {
                self.env = Some(stats);
            },
            JobResult::Db(name, stats) => {
                self.db = Some((name, stats));
            },
        }
    }

    /// The statistics of the space `name`, if the newest ones received are
    /// its own.
    pub fn db_stats(&self, name: &str) -> (r: Option<&DbStats>)
        ensures
            match self.db {
                Some((held, stats)) => if held@ == name@ {
                    r == Some(&stats)
                } else {
                    r is None
                },
                None => r is None,
            },
    {
        match &self.db {
            Some((held, stats)) => if same_text(held.as_str(), name) {
                Some(stats)
            } else {
                None
            },
            None => None,
        }
    }
}

} // verus!

//! The supervisor of one spawned node process.
//!
//! A `JormungandrProcess` owns the bookkeeping for a node launched by the
//! test harness: the scanner bound to the node's log file, a snapshot of the
//! node's configuration, and the record of the single termination attempt
//! made when the owning scope ends. The process handle itself, the kill
//! signal, the graceful-shutdown request and all file reads are I/O and live
//! with the harness; every decision about what was read or what may happen
//! next is made here, on plain values, and verified.

use vstd::prelude::*;
use vstd::slice::slice_to_vec;
use vstd::string::StringExecFns;

use crate::config::{Explorer, JormungandrConfig, TrustedPeer, spec_node_address};
use crate::logger::{JormungandrLogger, error_lines_of};

verus! {

/// The recoverable outcome of the soft log check: the full log content, the
/// log's location and every matched error line, so the caller can decide how
/// to react.
#[derive(Debug)]
pub enum JormungandrError {
    ErrorInLogs { logs: Vec<u8>, log_location: String, error_lines: Vec<Vec<u8>> },
}

/// The supervisor of one spawned node process.
#[derive(Debug)]
pub struct JormungandrProcess {
    pub logger: JormungandrLogger,
    pub config: JormungandrConfig,
    pub description: String,
    pub termination_attempted: bool,
}

impl JormungandrProcess {
    /// Whether the one termination attempt of this supervisor's lifetime has
    /// already been recorded.
    pub open spec fn termination_recorded(&self) -> bool {
        self.termination_attempted
    }

    /// Whether the one termination attempt is still owed.
    pub open spec fn termination_pending(&self) -> bool {
        !self.termination_recorded()
    }

    pub fn new(description: String, log_file_path: String, config: JormungandrConfig) -> (r: Self)
        ensures
            r.description == description,
            r.logger.log_file_path == log_file_path,
            r.config == config,
            r.termination_pending(),
    {
        JormungandrProcess {
            logger: JormungandrLogger::new(log_file_path),
            config,
            description,
            termination_attempted: false,
        }
    }

    pub fn from_config(config: JormungandrConfig) -> (r: Self)
        ensures
            r.description@ == "Jormungandr node"@,
            r.logger.log_file_path == config.log_file_path,
            r.config == config,
            r.termination_pending(),
    {
        let log_file_path = config.log_file_path.clone();
        JormungandrProcess::new(String::from_str("Jormungandr node"), log_file_path, config)
    }

    /// The soft check of the node's log: returns a structured error exactly
    /// when the log has an error line — one with the error marker or the
    /// invalid-state marker — and succeeds otherwise. The error carries the
    /// full content, the log's location and every matched line. `content` is
    /// what the harness read from the log file at call time.
    pub fn check_no_errors_in_log(&self, content: &[u8]) -> (r: Result<(), JormungandrError>)
        ensures
            r is Ok <==> error_lines_of(content@).len() == 0,
            r matches Err(JormungandrError::ErrorInLogs { logs, log_location, error_lines })
                ==> logs@ == content@ && log_location == self.logger.log_file_path
                && error_lines.deep_view() == error_lines_of(content@),
    {
        let error_lines = self.logger.get_lines_with_error(content);
        if error_lines.len() != 0 {
            Err(
                JormungandrError::ErrorInLogs {
                    logs: slice_to_vec(content),
                    log_location: self.logger.log_file_path.clone(),
                    error_lines,
                },
            )
        } else {
            Ok(())
        }
    }

    /// The hard check of the node's log. An error line — one with the error
    /// marker or the invalid-state marker — is an unrecoverable test failure,
    /// which the harness surfaces by halting with the log's location and
    /// every matched line; this library's functions do not halt, so the
    /// caller establishes first that no error line exists, and the check then
    /// runs the same detection and returns.
    pub fn assert_no_errors_in_log(&self, content: &[u8])
        requires
            error_lines_of(content@).len() == 0,
    {
        let outcome = self.check_no_errors_in_log(content);
        proof {
            assert(outcome is Ok);
        }
    }

    /// The lines the guaranteed-release path surfaces as a diagnostic before
    /// the termination attempt: every error line of `content` — error marker
    /// or invalid-state marker — in file order. The same detection as the two
    /// checks, with printing as the reporting strategy.
    pub fn release_diagnostics(&self, content: &[u8]) -> (r: Vec<Vec<u8>>)
        ensures
            r.deep_view() == error_lines_of(content@),
    {
        self.logger.get_lines_with_error(content)
    }

    /// Records the termination attempt of the guaranteed-release path. The
    /// attempt is owed exactly once, at the end of the owning scope, so it
    /// can only be recorded while it is still pending; everything else the
    /// supervisor holds is left unchanged.
    pub fn mark_termination_attempt(&mut self)
        requires
            old(self).termination_pending(),
        ensures
            final(self).termination_recorded(),
            final(self).logger == old(self).logger,
            final(self).config == old(self).config,
            final(self).description == old(self).description,
    {
        self.termination_attempted = true;
    }

    /// Whether the termination attempt has been recorded, for the release
    /// path to consult before it acts.
    pub fn has_termination_attempt(&self) -> (r: bool)
        ensures
            r == self.termination_recorded(),
    {
        self.termination_attempted
    }

    /// The `host:port` address of the node's REST endpoint: a pure derivation
    /// from the configuration snapshot, with no hidden state.
    pub fn rest_address(&self) -> (r: String)
        ensures
            r@ == spec_node_address(self.config.rest_host@, self.config.rest_port),
    {
        self.config.get_node_address()
    }

    /// A copy of the configuration snapshot; the caller cannot mutate the
    /// supervisor's own copy through it.
    pub fn config(&self) -> (r: JormungandrConfig)
        ensures
            r == self.config,
    {
        self.config.clone()
    }

    /// A client for the node's exploration API, bound to the node's derived
    /// address. No I/O happens at construction.
    pub fn explorer(&self) -> (r: Explorer)
        ensures
            r.address@ == spec_node_address(self.config.rest_host@, self.config.rest_port),
    {
        Explorer::new(self.config.get_node_address())
    }

    /// The descriptor another node needs to trust-connect to this one.
    pub fn as_trusted_peer(&self) -> (r: TrustedPeer)
        ensures
            r.address == self.config.public_address,
            r.id == self.config.public_id,
    {
        self.config.as_trusted_peer()
    }
}

/// Law: across a supervisor's lifetime at most one termination attempt is
/// recorded. Recording one demands that it is still pending, and once it is
/// recorded it is never pending again, so no second recording is admitted.
/// That the attempt happens at least once is the guaranteed-release step the
/// harness runs when the owning scope ends, on every exit path.
pub proof fn lemma_termination_attempt_at_most_once(s: JormungandrProcess)
    requires
        s.termination_recorded(),
    ensures
        !s.termination_pending(),
{
}

} // verus!

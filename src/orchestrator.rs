//! The decisions of one run, as a state machine.
//!
//! A run goes: guard → capture the active ref → list the history → for each
//! commit {check out, run the command, render} → restore → finish. The
//! machine never touches the repository itself: each [`Orchestrator::step`]
//! takes the outcome of the last operation as an [`Event`] and answers with
//! an [`Action`]: text to emit first, then the next operation to perform.
//! Once the active ref is captured, no path reaches the end without passing
//! through a restore to that ref.

use vstd::prelude::*;
use crate::commit::{Commit, line_commit, log_lines, parse_log};
use crate::output::{IterationOutput, OutputView, lossy_utf8};
use crate::render::{
    OutMode,
    csv_header,
    csv_header_row,
    csv_row_text,
    fields_view,
    outputs_view,
    render_many,
    render_one,
    rendered_many,
    rendered_one,
};

verus! {

/// When results are rendered: all at the end, or each as soon as it exists.
#[derive(PartialEq, Eq, Structural, Clone, Copy)]
pub enum ExecMode {
    Batch,
    Streaming,
}

/// The configuration of one run.
pub struct RunContext {
    /// The repository as given.
    pub repo: String,
    /// The repository's absolute path, as the renderings report it.
    pub repo_abs: String,
    /// The command run at every commit.
    pub command: String,
    pub out_mode: OutMode,
    pub exec_mode: ExecMode,
    /// Proceed even when the working tree has uncommitted changes.
    pub allow_dirty: bool,
}

/// Why a run failed.
#[derive(PartialEq, Eq, Structural, Clone, Copy, Debug)]
pub enum RunError {
    /// The working tree has uncommitted changes; nothing was touched.
    DirtyRepository,
    /// The history log has a malformed line, at this index.
    Parse(usize),
    /// A commit could not be checked out.
    Checkout,
    /// The command could not be started.
    CommandExecution,
    /// The ref active at the start could not be checked out again.
    Restore,
}

/// What the run waits for.
#[derive(PartialEq, Eq, Structural, Clone, Copy)]
pub enum Phase {
    AwaitStatus,
    AwaitRef,
    AwaitLog,
    AwaitCheckout,
    AwaitRun,
    AwaitRestore,
    Done,
}

/// The outcome of the operation last asked for.
pub enum Event {
    /// The machine-readable status output of the working tree.
    Status(String),
    /// The ref active before the run.
    OriginalRef(String),
    /// The history log, one commit per line, in the order to process.
    Log(String),
    /// Whether the checkout of the current commit succeeded.
    CheckedOut(bool),
    /// The command ran at the current commit.
    Ran { stdout: Vec<u8>, stderr: Vec<u8>, status: i32 },
    /// The command could not be started.
    SpawnFailed,
    /// Whether the restore of the original ref succeeded.
    Restored(bool),
}

/// An operation for the caller to perform.
pub enum Op {
    QueryStatus,
    QueryRef,
    QueryLog,
    /// Check out this commit hash.
    Checkout(String),
    /// Run `command` at `commit`, with the commit described in its environment.
    Execute { commit: Commit, command: String },
    /// Check out this ref, the one active before the run.
    Restore(String),
    /// The run is over, with this outcome.
    Finish(Result<(), RunError>),
}

/// Text to emit, in order, and then the operation to perform.
pub struct Action {
    pub emit: Vec<String>,
    pub op: Op,
}

/// The state of one run.
pub struct Orchestrator {
    pub ctx: RunContext,
    pub phase: Phase,
    pub original_ref: String,
    pub commits: Vec<Commit>,
    /// The index of the commit being processed.
    pub next: usize,
    pub results: Vec<IterationOutput>,
    pub outcome: Result<(), RunError>,
    /// How many checkouts of a commit the run has asked for.
    pub checkouts: Ghost<nat>,
    /// A checkout was asked for since the last restore was.
    pub restore_pending: Ghost<bool>,
    /// The last restore succeeded.
    pub restored_ok: Ghost<bool>,
    /// How many results have been emitted.
    pub records_emitted: Ghost<nat>,
}

/// What a stream of rendered text emits before any commit is processed,
/// once the history of `n` commits is known.
pub open spec fn log_emits(ctx: RunContext, n: nat) -> Seq<Seq<char>> {
    (if ctx.exec_mode == ExecMode::Streaming && ctx.out_mode == OutMode::Csv {
        seq![csv_row_text(csv_header())]
    } else {
        Seq::empty()
    }) + (if ctx.exec_mode == ExecMode::Batch && n == 0 {
        seq![rendered_many(ctx.out_mode, Seq::empty(), ctx.repo_abs@)]
    } else {
        Seq::empty()
    })
}

/// Every line of the log describes a commit.
pub open spec fn log_parses(repo: Seq<char>, t: Seq<char>) -> bool {
    forall|k: int| 0 <= k < log_lines(t).len() ==> (#[trigger] line_commit(repo, log_lines(t)[k])) is Some
}

/// Line `k` is the log's first malformed line.
pub open spec fn first_bad_line(repo: Seq<char>, t: Seq<char>, k: int) -> bool {
    &&& 0 <= k < log_lines(t).len()
    &&& line_commit(repo, log_lines(t)[k]) is None
    &&& forall|j: int| 0 <= j < k ==> (#[trigger] line_commit(repo, log_lines(t)[j])) is Some
}

impl Orchestrator {
    /// The run's bookkeeping is consistent, and the run asks for a restore
    /// after its last checkout before it is over.
    pub open spec fn wf(&self) -> bool {
        &&& self.wf_core()
        &&& (self.phase == Phase::AwaitRestore || self.phase == Phase::Done)
            ==> !self.restore_pending@
    }

    /// The run's bookkeeping is consistent.
    pub open spec fn wf_core(&self) -> bool {
        &&& self.results@.len() <= self.commits@.len()
        &&& (self.phase == Phase::AwaitCheckout || self.phase == Phase::AwaitRun) ==> (self.next
            < self.commits@.len() && self.results@.len() == self.next)
        &&& forall|k: int|
            0 <= k < self.results@.len() ==> (#[trigger] self.results@[k])@.commit
                == self.commits@[k]@
        &&& (self.phase != Phase::AwaitRestore && self.phase != Phase::Done) ==> self.outcome is Ok
        &&& (self.phase == Phase::AwaitStatus || self.phase == Phase::AwaitRef || self.phase
            == Phase::AwaitLog) ==> self.results@.len() == 0 && self.checkouts@ == 0
                && !self.restore_pending@
        &&& self.outcome == Err::<(), RunError>(RunError::DirtyRepository) ==> self.checkouts@ == 0
        &&& (self.phase == Phase::Done && self.outcome is Ok) ==> self.restored_ok@
        &&& self.ctx.exec_mode == ExecMode::Streaming ==> self.records_emitted@
            == self.results@.len()
        &&& (self.ctx.exec_mode == ExecMode::Batch && self.records_emitted@ > 0) ==> {
            &&& self.records_emitted@ == self.results@.len()
            &&& self.results@.len() == self.commits@.len()
            &&& (self.phase == Phase::AwaitRestore || self.phase == Phase::Done)
        }
    }

    /// `op` is the operation that the current phase waits on.
    pub open spec fn issued(&self, op: Op) -> bool {
        match self.phase {
            Phase::AwaitStatus => op is QueryStatus,
            Phase::AwaitRef => op is QueryRef,
            Phase::AwaitLog => op is QueryLog,
            Phase::AwaitCheckout => op is Checkout && op->Checkout_0@ == self.commits@[self.next as int].hash@,
            Phase::AwaitRun => op is Execute && op->commit@ == self.commits@[self.next as int]@
                && op->command@ == self.ctx.command@,
            Phase::AwaitRestore => op is Restore && op->Restore_0@ == self.original_ref@,
            Phase::Done => op == Op::Finish(self.outcome),
        }
    }

    /// A run that has done nothing yet; it first asks for the status of the
    /// working tree.
    pub fn new(ctx: RunContext) -> (r: Orchestrator)
        ensures
            r.wf(),
            r.ctx == ctx,
            r.phase == Phase::AwaitStatus,
            r.commits@.len() == 0,
            r.results@.len() == 0,
            r.outcome is Ok,
            r.checkouts@ == 0,
            r.records_emitted@ == 0,
    {
        Orchestrator {
            ctx,
            phase: Phase::AwaitStatus,
            original_ref: String::new(),
            commits: Vec::new(),
            next: 0,
            results: Vec::new(),
            outcome: Ok(()),
            checkouts: Ghost(0),
            restore_pending: Ghost(false),
            restored_ok: Ghost(false),
            records_emitted: Ghost(0),
        }
    }

    /// The operation that the current phase waits on.
    pub fn current_op(&self) -> (r: Op)
        requires
            self.wf_core(),
        ensures
            self.issued(r),
    {
        match self.phase {
            Phase::AwaitStatus => Op::QueryStatus,
            Phase::AwaitRef => Op::QueryRef,
            Phase::AwaitLog => Op::QueryLog,
            Phase::AwaitCheckout => Op::Checkout(self.commits[self.next].hash.clone()),
            Phase::AwaitRun => Op::Execute {
                commit: self.commits[self.next].duplicate(),
                command: self.ctx.command.clone(),
            },
            Phase::AwaitRestore => Op::Restore(self.original_ref.clone()),
            Phase::Done => Op::Finish(self.outcome),
        }
    }
}

} // verus!

verus! {

/// `ev` answers the operation that `phase` waits on.
pub open spec fn expects(phase: Phase, ev: Event) -> bool {
    match phase {
        Phase::AwaitStatus => ev is Status,
        Phase::AwaitRef => ev is OriginalRef,
        Phase::AwaitLog => ev is Log,
        Phase::AwaitCheckout => ev is CheckedOut,
        Phase::AwaitRun => ev is Ran || ev is SpawnFailed,
        Phase::AwaitRestore => ev is Restored,
        Phase::Done => false,
    }
}

impl Orchestrator {
    /// Answers with `emit` and the operation that the current phase waits on,
    /// and counts it.
    fn reply(&mut self, emit: Vec<String>) -> (r: Action)
        requires
            old(self).wf_core(),
            old(self).phase == Phase::Done ==> !old(self).restore_pending@,
        ensures
            r.emit == emit,
            final(self).issued(r.op),
            final(self).wf(),
            final(self).ctx == old(self).ctx,
            final(self).phase == old(self).phase,
            final(self).original_ref == old(self).original_ref,
            final(self).commits == old(self).commits,
            final(self).next == old(self).next,
            final(self).results == old(self).results,
            final(self).outcome == old(self).outcome,
            final(self).restored_ok == old(self).restored_ok,
            final(self).records_emitted == old(self).records_emitted,
            final(self).checkouts@ == old(self).checkouts@ + if r.op is Checkout {
                1nat
            } else {
                0nat
            },
            r.op is Checkout ==> final(self).restore_pending@,
            r.op is Restore ==> !final(self).restore_pending@,
            !(r.op is Checkout) && !(r.op is Restore) ==> final(self).restore_pending
                == old(self).restore_pending,
    {
        let op = self.current_op();
        match op {
            Op::Checkout(_) => {
                self.checkouts = Ghost(self.checkouts@ + 1);
                self.restore_pending = Ghost(true);
            },
            Op::Restore(_) => {
                self.restore_pending = Ghost(false);
            },
            _ => {},
        }
        Action { emit, op }
    }

    /// Takes the outcome of the last operation and decides what comes next.
    /// An event that does not answer the operation waited on changes nothing,
    /// and that operation is asked for again.
    pub fn step(&mut self, ev: Event) -> (r: Action)
        requires
            old(self).wf(),
        ensures
            final(self).wf(),
            final(self).ctx == old(self).ctx,
            final(self).issued(r.op),
            final(self).checkouts@ == old(self).checkouts@ + if r.op is Checkout {
                1nat
            } else {
                0nat
            },
            !expects(old(self).phase, ev) ==> final(self).phase == old(self).phase
                && final(self).outcome == old(self).outcome,
            !(old(self).phase == Phase::AwaitRef && ev is OriginalRef) ==> final(self).original_ref
                == old(self).original_ref,
            !(old(self).phase == Phase::AwaitLog && ev is Log) ==> final(self).commits@
                == old(self).commits@,
            !(old(self).phase == Phase::AwaitRun && ev is Ran) ==> final(self).results@
                == old(self).results@,
            !(old(self).phase == Phase::AwaitRun && ev is Ran) && !(old(self).phase
                == Phase::AwaitLog && ev is Log) ==> final(self).next == old(self).next,
            !(old(self).phase == Phase::AwaitLog && ev is Log) && !(old(self).phase
                == Phase::AwaitRun && ev is Ran) ==> r.emit@.len() == 0,
            // the guard
            old(self).phase == Phase::AwaitStatus && ev is Status ==> if ev->Status_0@.len() == 0
                || old(self).ctx.allow_dirty {
                final(self).phase == Phase::AwaitRef
            } else {
                final(self).phase == Phase::Done && final(self).outcome == Err::<(), RunError>(
                    RunError::DirtyRepository,
                )
            },
            // capturing the active ref
            old(self).phase == Phase::AwaitRef && ev is OriginalRef ==> final(self).phase
                == Phase::AwaitLog && final(self).original_ref@ == ev->OriginalRef_0@,
            // listing the history
            old(self).phase == Phase::AwaitLog && ev is Log && log_parses(
                old(self).ctx.repo@,
                ev->Log_0@,
            ) ==> {
                &&& final(self).commits@.len() == log_lines(ev->Log_0@).len()
                &&& forall|k: int|
                    0 <= k < final(self).commits@.len() ==> line_commit(
                        old(self).ctx.repo@,
                        #[trigger] log_lines(ev->Log_0@)[k],
                    ) == Some(final(self).commits@[k]@)
                &&& fields_view(r.emit@) == log_emits(old(self).ctx, final(self).commits@.len())
                &&& final(self).commits@.len() == 0 ==> final(self).phase == Phase::AwaitRestore
                &&& final(self).commits@.len() > 0 ==> final(self).phase == Phase::AwaitCheckout
                    && final(self).next == 0
            },
            old(self).phase == Phase::AwaitLog && ev is Log && !log_parses(
                old(self).ctx.repo@,
                ev->Log_0@,
            ) ==> {
                &&& final(self).phase == Phase::AwaitRestore
                &&& r.emit@.len() == 0
                &&& final(self).outcome matches Err(RunError::Parse(k)) && first_bad_line(
                    old(self).ctx.repo@,
                    ev->Log_0@,
                    k as int,
                )
            },
            // checking out a commit
            old(self).phase == Phase::AwaitCheckout && ev is CheckedOut ==> if ev->CheckedOut_0 {
                final(self).phase == Phase::AwaitRun
            } else {
                final(self).phase == Phase::AwaitRestore && final(self).outcome == Err::<
                    (),
                    RunError,
                >(RunError::Checkout)
            },
            // running the command: any exit status is a result, and the run goes on
            old(self).phase == Phase::AwaitRun && ev is Ran ==> {
                &&& final(self).next == old(self).next + 1
                &&& outputs_view(final(self).results@) == outputs_view(old(self).results@).push(
                    OutputView {
                        commit: old(self).commits@[old(self).next as int]@,
                        stdout: lossy_utf8(ev->stdout@),
                        stderr: lossy_utf8(ev->stderr@),
                        status: ev->status,
                    },
                )
                &&& vstd::utf8::valid_utf8(ev->stdout@) ==> outputs_view(final(self).results@).last().stdout
                    == vstd::utf8::decode_utf8(ev->stdout@)
                &&& vstd::utf8::valid_utf8(ev->stderr@) ==> outputs_view(final(self).results@).last().stderr
                    == vstd::utf8::decode_utf8(ev->stderr@)
                &&& final(self).next < final(self).commits@.len() ==> final(self).phase
                    == Phase::AwaitCheckout
                &&& final(self).next == final(self).commits@.len() ==> final(self).phase
                    == Phase::AwaitRestore && final(self).outcome is Ok
                &&& fields_view(r.emit@) == if old(self).ctx.exec_mode == ExecMode::Streaming {
                    seq![
                        rendered_one(
                            old(self).ctx.out_mode,
                            outputs_view(final(self).results@).last(),
                            old(self).ctx.repo_abs@,
                        ),
                    ]
                } else if final(self).next == final(self).commits@.len() {
                    seq![
                        rendered_many(
                            old(self).ctx.out_mode,
                            outputs_view(final(self).results@),
                            old(self).ctx.repo_abs@,
                        ),
                    ]
                } else {
                    Seq::empty()
                }
            },
            old(self).phase == Phase::AwaitRun && ev is SpawnFailed ==> final(self).phase
                == Phase::AwaitRestore && final(self).outcome == Err::<(), RunError>(
                RunError::CommandExecution,
            ),
            // restoring: the run succeeds only if nothing failed and the restore worked
            old(self).phase == Phase::AwaitRestore && ev is Restored ==> final(self).phase
                == Phase::Done && final(self).outcome == (if old(self).outcome is Err {
                old(self).outcome
            } else if ev->Restored_0 {
                Ok::<(), RunError>(())
            } else {
                Err::<(), RunError>(RunError::Restore)
            }),
            // no checkout before the history is known, and the end is only
            // reached through a restore once the active ref is captured
            old(self).phase == Phase::AwaitStatus || old(self).phase == Phase::AwaitRef
                || old(self).phase == Phase::Done ==> !(r.op is Checkout),
            final(self).phase == Phase::Done ==> old(self).phase == Phase::Done || old(self).phase
                == Phase::AwaitRestore || old(self).phase == Phase::AwaitStatus,
    {
        match self.phase {
            Phase::AwaitStatus => match ev {
                Event::Status(s) => {
                    if s.as_str().is_empty() || self.ctx.allow_dirty {
                        self.phase = Phase::AwaitRef;
                    } else {
                        self.phase = Phase::Done;
                        self.outcome = Err(RunError::DirtyRepository);
                    }
                    self.reply(Vec::new())
                },
                _ => self.reply(Vec::new()),
            },
            Phase::AwaitRef => match ev {
                Event::OriginalRef(x) => {
                    self.original_ref = x;
                    self.phase = Phase::AwaitLog;
                    self.reply(Vec::new())
                },
                _ => self.reply(Vec::new()),
            },
            Phase::AwaitLog => match ev {
                Event::Log(t) => self.take_log(t),
                _ => self.reply(Vec::new()),
            },
            Phase::AwaitCheckout => match ev {
                Event::CheckedOut(ok) => {
                    if ok {
                        self.phase = Phase::AwaitRun;
                    } else {
                        self.phase = Phase::AwaitRestore;
                        self.outcome = Err(RunError::Checkout);
                    }
                    self.reply(Vec::new())
                },
                _ => self.reply(Vec::new()),
            },
            Phase::AwaitRun => match ev {
                Event::Ran { stdout, stderr, status } => self.take_result(
                    stdout.as_slice(),
                    stderr.as_slice(),
                    status,
                ),
                Event::SpawnFailed => {
                    self.phase = Phase::AwaitRestore;
                    self.outcome = Err(RunError::CommandExecution);
                    self.reply(Vec::new())
                },
                _ => self.reply(Vec::new()),
            },
            Phase::AwaitRestore => match ev {
                Event::Restored(ok) => {
                    self.restored_ok = Ghost(ok);
                    match self.outcome {
                        Ok(_) => {
                            self.outcome = if ok {
                                Ok(())
                            } else {
                                Err(RunError::Restore)
                            };
                        },
                        Err(_) => {},
                    }
                    self.phase = Phase::Done;
                    self.reply(Vec::new())
                },
                _ => self.reply(Vec::new()),
            },
            Phase::Done => self.reply(Vec::new()),
        }
    }
}

} // verus!

verus! {

impl Orchestrator {
    fn take_log(&mut self, t: String) -> (r: Action)
        requires
            old(self).wf(),
            old(self).phase == Phase::AwaitLog,
        ensures
            final(self).wf(),
            final(self).ctx == old(self).ctx,
            final(self).issued(r.op),
            final(self).checkouts@ == old(self).checkouts@ + if r.op is Checkout {
                1nat
            } else {
                0nat
            },
            final(self).original_ref == old(self).original_ref,
            final(self).results@ == old(self).results@,
            final(self).next == old(self).next || final(self).phase == Phase::AwaitCheckout,
            log_parses(old(self).ctx.repo@, t@) ==> {
                &&& final(self).commits@.len() == log_lines(t@).len()
                &&& forall|k: int|
                    0 <= k < final(self).commits@.len() ==> line_commit(
                        old(self).ctx.repo@,
                        #[trigger] log_lines(t@)[k],
                    ) == Some(final(self).commits@[k]@)
                &&& fields_view(r.emit@) == log_emits(old(self).ctx, final(self).commits@.len())
                &&& final(self).commits@.len() == 0 ==> final(self).phase == Phase::AwaitRestore
                &&& final(self).commits@.len() > 0 ==> final(self).phase == Phase::AwaitCheckout
                    && final(self).next == 0
            },
            !log_parses(old(self).ctx.repo@, t@) ==> {
                &&& final(self).phase == Phase::AwaitRestore
                &&& r.emit@.len() == 0
                &&& final(self).commits@ == old(self).commits@
                &&& final(self).outcome matches Err(RunError::Parse(k)) && first_bad_line(
                    old(self).ctx.repo@,
                    t@,
                    k as int,
                )
            },
    {
        match parse_log(self.ctx.repo.as_str(), t.as_str()) {
            Err(e) => {
                self.phase = Phase::AwaitRestore;
                self.outcome = Err(RunError::Parse(e.line));
                self.reply(Vec::new())
            },
            Ok(cs) => {
                self.commits = cs;
                let mut emit: Vec<String> = Vec::new();
                if self.ctx.exec_mode == ExecMode::Streaming && self.ctx.out_mode == OutMode::Csv {
                    emit.push(csv_header_row());
                }
                if self.commits.len() == 0 {
                    if self.ctx.exec_mode == ExecMode::Batch {
                        proof {
                            assert(outputs_view(self.results@) =~= Seq::<OutputView>::empty());
                        }
                        emit.push(
                            render_many(
                                &self.ctx.out_mode,
                                self.results.as_slice(),
                                self.ctx.repo_abs.as_str(),
                            ),
                        );
                    }
                    self.phase = Phase::AwaitRestore;
                } else {
                    self.next = 0;
                    self.phase = Phase::AwaitCheckout;
                }
                assert(fields_view(emit@) =~= log_emits(self.ctx, self.commits@.len()));
                self.reply(emit)
            },
        }
    }

    fn take_result(&mut self, stdout: &[u8], stderr: &[u8], status: i32) -> (r: Action)
        requires
            old(self).wf(),
            old(self).phase == Phase::AwaitRun,
        ensures
            final(self).wf(),
            final(self).ctx == old(self).ctx,
            final(self).issued(r.op),
            final(self).checkouts@ == old(self).checkouts@ + if r.op is Checkout {
                1nat
            } else {
                0nat
            },
            final(self).original_ref == old(self).original_ref,
            final(self).commits@ == old(self).commits@,
            final(self).next == old(self).next + 1,
            outputs_view(final(self).results@) == outputs_view(old(self).results@).push(
                OutputView {
                    commit: old(self).commits@[old(self).next as int]@,
                    stdout: lossy_utf8(stdout@),
                    stderr: lossy_utf8(stderr@),
                    status,
                },
            ),
            vstd::utf8::valid_utf8(stdout@) ==> outputs_view(final(self).results@).last().stdout
                == vstd::utf8::decode_utf8(stdout@),
            vstd::utf8::valid_utf8(stderr@) ==> outputs_view(final(self).results@).last().stderr
                == vstd::utf8::decode_utf8(stderr@),
            final(self).next < final(self).commits@.len() ==> final(self).phase
                == Phase::AwaitCheckout,
            final(self).next == final(self).commits@.len() ==> final(self).phase
                == Phase::AwaitRestore && final(self).outcome is Ok,
            fields_view(r.emit@) == if old(self).ctx.exec_mode == ExecMode::Streaming {
                seq![
                    rendered_one(
                        old(self).ctx.out_mode,
                        outputs_view(final(self).results@).last(),
                        old(self).ctx.repo_abs@,
                    ),
                ]
            } else if final(self).next == final(self).commits@.len() {
                seq![
                    rendered_many(
                        old(self).ctx.out_mode,
                        outputs_view(final(self).results@),
                        old(self).ctx.repo_abs@,
                    ),
                ]
            } else {
                Seq::empty()
            },
    {
        let o = IterationOutput::new(self.commits[self.next].duplicate(), stdout, stderr, status);
        let mut emit: Vec<String> = Vec::new();
        if self.ctx.exec_mode == ExecMode::Streaming {
            emit.push(render_one(&self.ctx.out_mode, &o, self.ctx.repo_abs.as_str()));
        }
        let ghost before = self.results@;
        self.results.push(o);
        proof {
            assert(outputs_view(self.results@) =~= outputs_view(before).push(o@));
        }
        let n = self.commits.len();
        self.next = self.next + 1;
        if self.ctx.exec_mode == ExecMode::Streaming {
            self.records_emitted = Ghost(self.records_emitted@ + 1);
        } else if self.next == n {
            self.records_emitted = Ghost(n as nat);
        }
        if self.next < n {
            self.phase = Phase::AwaitCheckout;
        } else {
            if self.ctx.exec_mode == ExecMode::Batch {
                emit.push(
                    render_many(
                        &self.ctx.out_mode,
                        self.results.as_slice(),
                        self.ctx.repo_abs.as_str(),
                    ),
                );
            }
            self.phase = Phase::AwaitRestore;
        }
        assert(self.results@.len() == self.next);
        self.reply(emit)
    }
}

} // verus!

verus! {

/// A run refused for a dirty working tree has checked out nothing.
pub proof fn lemma_dirty_run_checks_nothing_out(o: Orchestrator)
    requires
        o.wf(),
        o.outcome == Err::<(), RunError>(RunError::DirtyRepository),
    ensures
        o.checkouts@ == 0,
{
}

/// A finished run has asked, after its last checkout, for the ref that was
/// active at its start to be checked out again; and it finished well only
/// where that restore succeeded.
pub proof fn lemma_finished_run_is_restored(o: Orchestrator)
    requires
        o.wf(),
        o.phase == Phase::Done,
    ensures
        !o.restore_pending@,
        o.outcome is Ok ==> o.restored_ok@,
{
}

} // verus!

verus! {

/// In streaming mode every result is emitted as soon as it exists, so the
/// record of one commit goes out before the next commit is checked out. In
/// batch mode nothing is emitted before every commit has been processed,
/// and then all of them at once, in the order of the history.
pub proof fn lemma_emission_order(o: Orchestrator)
    requires
        o.wf(),
    ensures
        o.ctx.exec_mode == ExecMode::Streaming ==> o.records_emitted@ == o.results@.len(),
        o.ctx.exec_mode == ExecMode::Batch && o.records_emitted@ > 0 ==> o.records_emitted@
            == o.commits@.len() && o.results@.len() == o.commits@.len(),
        forall|k: int| 0 <= k < o.results@.len() ==> (#[trigger] o.results@[k])@.commit == o.commits@[k]@,
{
}

} // verus!

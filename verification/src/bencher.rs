//! The settings of a transaction benchmark, and which of its runs count.
use vstd::prelude::*;

verus! {

/// The number of accounts created by default.
pub const DEFAULT_NUM_ACCOUNTS: usize = 100;

/// The number of transactions created by default.
pub const DEFAULT_NUM_TRANSACTIONS: usize = 1000;

/// Benchmarking support for transactions: how many accounts and transactions
/// to generate, and the strategy that generates them.
#[derive(Clone, Debug)]
pub struct TransactionBencher<S> {
    num_accounts: usize,
    num_transactions: usize,
    strategy: S,
}

impl<S> TransactionBencher<S> {
    pub closed spec fn spec_accounts(&self) -> usize {
        self.num_accounts
    }

    pub closed spec fn spec_transactions(&self) -> usize {
        self.num_transactions
    }

    pub closed spec fn spec_strategy(&self) -> S {
        self.strategy
    }

    /// Creates a new transaction bencher with default settings.
    pub fn new(strategy: S) -> (bencher: Self)
        ensures
            bencher.spec_accounts() == DEFAULT_NUM_ACCOUNTS,
            bencher.spec_transactions() == DEFAULT_NUM_TRANSACTIONS,
            bencher.spec_strategy() == strategy,
    {
        Self {
            num_accounts: DEFAULT_NUM_ACCOUNTS,
            num_transactions: DEFAULT_NUM_TRANSACTIONS,
            strategy,
        }
    }

    /// Sets a custom number of accounts.
    pub fn num_accounts(&mut self, num_accounts: usize) -> (bencher: &mut Self)
        ensures
            bencher.spec_accounts() == num_accounts,
            bencher.spec_transactions() == old(self).spec_transactions(),
            bencher.spec_strategy() == old(self).spec_strategy(),
            *final(self) == *final(bencher),
    {
        self.num_accounts = num_accounts;
        self
    }

    /// Sets a custom number of transactions.
    pub fn num_transactions(&mut self, num_transactions: usize) -> (bencher: &mut Self)
        ensures
            bencher.spec_accounts() == old(self).spec_accounts(),
            bencher.spec_transactions() == num_transactions,
            bencher.spec_strategy() == old(self).spec_strategy(),
            *final(self) == *final(bencher),
    {
        self.num_transactions = num_transactions;
        self
    }

    /// The number of accounts to generate.
    #[verifier::when_used_as_spec(spec_accounts)]
    pub fn accounts(&self) -> (n: usize)
        ensures
            n == self.spec_accounts(),
    {
        self.num_accounts
    }

    /// The number of transactions to generate.
    #[verifier::when_used_as_spec(spec_transactions)]
    pub fn transactions(&self) -> (n: usize)
        ensures
            n == self.spec_transactions(),
    {
        self.num_transactions
    }

    /// The strategy that generates the transactions.
    pub fn strategy(&self) -> (strategy: &S)
        ensures
            *strategy == self.spec_strategy(),
    {
        &self.strategy
    }
}

/// What to do with the outcome of a run.
#[derive(Clone, Copy, Debug, PartialEq, Eq, Structural)]
pub enum RunKind {
    /// The run warms the machine up; its outcome is dropped.
    Warmup,
    /// The run is measured; its outcome is kept.
    Measured,
}

/// The outcomes that count among those of a benchmark's runs, in order: all
/// but those of the warm-up runs, which come first.
pub open spec fn measured_outcomes(
    outcomes: Seq<(usize, usize)>,
    num_warmups: nat,
) -> Seq<(usize, usize)> {
    if outcomes.len() <= num_warmups {
        Seq::empty()
    } else {
        outcomes.skip(num_warmups as int)
    }
}

/// The course of a benchmark of warm-up runs followed by measured runs. The
/// caller performs the runs; this keeps count of them and keeps the outcomes
/// of the measured ones, in order.
#[derive(Debug)]
pub struct BenchmarkRuns {
    num_warmups: usize,
    total_runs: usize,
    done: usize,
    kept: Vec<(usize, usize)>,
}

impl BenchmarkRuns {
    /// No more runs are made than were asked for, and an outcome is kept for
    /// each measured run that was made.
    pub closed spec fn wf(&self) -> bool {
        &&& self.num_warmups <= self.total_runs
        &&& self.done <= self.total_runs
        &&& self.kept@.len() == if self.done <= self.num_warmups {
            0
        } else {
            self.done - self.num_warmups
        }
    }

    /// The number of warm-up runs.
    pub closed spec fn spec_num_warmups(&self) -> usize {
        self.num_warmups
    }

    /// The number of runs in all.
    pub closed spec fn spec_total_runs(&self) -> usize {
        self.total_runs
    }

    /// The number of runs made so far.
    pub closed spec fn spec_done(&self) -> usize {
        self.done
    }

    /// The outcomes kept so far, in order.
    pub closed spec fn spec_kept(&self) -> Seq<(usize, usize)> {
        self.kept@
    }

    /// The kind of the run that is due, or nothing when all runs are made.
    pub open spec fn spec_next_run(&self) -> Option<RunKind> {
        if self.spec_done() >= self.spec_total_runs() {
            None
        } else if self.spec_done() < self.spec_num_warmups() {
            Some(RunKind::Warmup)
        } else {
            Some(RunKind::Measured)
        }
    }

    /// A benchmark of `num_warmups` warm-up runs and then `num_runs` measured
    /// runs, none of them made yet.
    pub fn new(num_warmups: usize, num_runs: usize) -> (runs: Self)
        requires
            num_warmups + num_runs <= usize::MAX,
        ensures
            runs.wf(),
            runs.spec_num_warmups() == num_warmups,
            runs.spec_total_runs() == num_warmups + num_runs,
            runs.spec_done() == 0,
            runs.spec_kept() == Seq::<(usize, usize)>::empty(),
    {
        BenchmarkRuns { num_warmups, total_runs: num_warmups + num_runs, done: 0, kept: Vec::new() }
    }

    /// The kind of the run that is due, or nothing when all runs are made.
    #[verifier::when_used_as_spec(spec_next_run)]
    pub fn next_run(&self) -> (kind: Option<RunKind>)
        ensures
            kind == self.spec_next_run(),
    {
        if self.done >= self.total_runs {
            None
        } else if self.done < self.num_warmups {
            Some(RunKind::Warmup)
        } else {
            Some(RunKind::Measured)
        }
    }

    /// Takes the outcome of the run that was due: drops it if the run was a
    /// warm-up, keeps it after those kept before if the run was measured.
    pub fn record(&mut self, outcome: (usize, usize))
        requires
            old(self).wf(),
            old(self).next_run().is_some(),
        ensures
            final(self).wf(),
            final(self).spec_num_warmups() == old(self).spec_num_warmups(),
            final(self).spec_total_runs() == old(self).spec_total_runs(),
            final(self).spec_done() == old(self).spec_done() + 1,
            final(self).spec_kept() == (if old(self).next_run() == Some(RunKind::Measured) {
                old(self).spec_kept().push(outcome)
            } else {
                old(self).spec_kept()
            }),
    {
        if self.done >= self.num_warmups {
            self.kept.push(outcome);
        }
        self.done = self.done + 1;
    }

    /// The outcomes of the measured runs made so far, in order.
    pub fn into_results(self) -> (results: Vec<(usize, usize)>)
        ensures
            results@ == self.spec_kept(),
    {
        self.kept
    }

    /// Recording the outcomes of a benchmark's runs one after the other keeps
    /// exactly those of the measured runs: if the outcomes kept are the
    /// measured ones among those seen so far, they still are after the next.
    pub proof fn lemma_record_keeps_measured(
        before: BenchmarkRuns,
        after: BenchmarkRuns,
        seen: Seq<(usize, usize)>,
        outcome: (usize, usize),
    )
        requires
            before.wf(),
            before.next_run().is_some(),
            seen.len() == before.spec_done(),
            before.spec_kept() == measured_outcomes(seen, before.spec_num_warmups() as nat),
            after.spec_num_warmups() == before.spec_num_warmups(),
            after.spec_done() == before.spec_done() + 1,
            after.spec_kept() == (if before.next_run() == Some(RunKind::Measured) {
                before.spec_kept().push(outcome)
            } else {
                before.spec_kept()
            }),
        ensures
            after.spec_kept() == measured_outcomes(
                seen.push(outcome),
                after.spec_num_warmups() as nat,
            ),
    {
        let warmups = before.spec_num_warmups() as int;
        let all = seen.push(outcome);
        if before.spec_done() < warmups {
        } else if before.spec_done() == warmups {
            assert(all.skip(warmups) =~= Seq::<(usize, usize)>::empty().push(outcome));
        } else {
            assert(all.skip(warmups) =~= seen.skip(warmups).push(outcome));
        }
    }
}

} // verus!

//! The course of one test run: which test comes next, when the run stops, and
//! what is left behind.
use vstd::prelude::*;

verus! {

#[verifier::external_type_specification]
#[verifier::external_body]
pub struct ExPathBuf(std::path::PathBuf);

#[verifier::external_type_specification]
#[verifier::external_body]
pub struct ExPlatform(rattler_conda_types::Platform);

/// The configuration for a test
#[derive(Default, Debug)]
pub struct TestConfiguration {
    /// The test prefix directory (will be created)
    pub test_prefix: std::path::PathBuf,
    /// The target platform
    pub target_platform: Option<rattler_conda_types::Platform>,
    /// If true, the test prefix will not be deleted after the test is run
    pub keep_test_prefix: bool,
    /// The channels to use for the test – do not forget to add the local build outputs channel
    /// if desired
    pub channels: Vec<String>,
}

/// Whether the test environment is removed once the run is over: unless the
/// configuration asks to keep it.
pub fn removes_test_prefix(config: &TestConfiguration) -> (r: bool)
    ensures
        r == !config.keep_test_prefix,
{
    !config.keep_test_prefix
}

/// The progress of running `total` tests in order.
#[derive(Clone, Copy, Debug, PartialEq, Eq, Structural)]
pub struct TestRun {
    pub total: usize,
    /// How many tests have passed so far; the next one has this index.
    pub passed: usize,
    /// Whether a test has failed, which ends the run.
    pub failed: bool,
}

/// What the run does next.
#[derive(Clone, Copy, Debug, PartialEq, Eq, Structural)]
pub enum RunStep {
    /// Run the test with this index.
    Run(usize),
    /// Every test passed.
    Passed,
    /// A test failed; no other test runs.
    Failed,
}

pub open spec fn step_of(run: TestRun) -> RunStep {
    if run.failed {
        RunStep::Failed
    } else if run.passed >= run.total {
        RunStep::Passed
    } else {
        RunStep::Run(run.passed)
    }
}

/// The run after the running test ended with `success`; a finished run stays as it is.
pub open spec fn after(run: TestRun, success: bool) -> TestRun {
    if run.failed || run.passed >= run.total {
        run
    } else if success {
        TestRun { passed: (run.passed + 1) as usize, ..run }
    } else {
        TestRun { failed: true, ..run }
    }
}

pub open spec fn start(total: usize) -> TestRun {
    TestRun { total, passed: 0, failed: false }
}

/// The run after the outcomes of the tests that it ran, in order.
pub open spec fn run_after(total: usize, outcomes: Seq<bool>) -> TestRun
    decreases outcomes.len(),
{
    if outcomes.len() == 0 {
        start(total)
    } else {
        after(run_after(total, outcomes.drop_last()), outcomes.last())
    }
}

impl TestRun {
    pub open spec fn wf(self) -> bool {
        self.passed <= self.total
    }

    /// A run of `total` tests, none of them run yet.
    pub fn new(total: usize) -> (r: TestRun)
        ensures
            r == start(total),
            r.wf(),
    {
        TestRun { total, passed: 0, failed: false }
    }

    /// What comes next.
    pub fn next_step(&self) -> (r: RunStep)
        ensures
            r == step_of(*self),
    {
        if self.failed {
            RunStep::Failed
        } else if self.passed >= self.total {
            RunStep::Passed
        } else {
            RunStep::Run(self.passed)
        }
    }

    /// Records how the test that `next_step` named ended.
    pub fn record(&mut self, success: bool)
        requires
            old(self).wf(),
        ensures
            *final(self) == after(*old(self), success),
            final(self).wf(),
    {
        if self.failed || self.passed >= self.total {
            return;
        }
        if success {
            self.passed = self.passed + 1;
        } else {
            self.failed = true;
        }
    }
}

/// While every outcome is a success, the run has passed that many tests.
pub proof fn lemma_all_passed(total: usize, outcomes: Seq<bool>)
    requires
        outcomes.len() <= total,
        forall|j: int| 0 <= j < outcomes.len() ==> #[trigger] outcomes[j],
    ensures
        run_after(total, outcomes) == (TestRun { total, passed: outcomes.len() as usize, failed: false }),
    decreases outcomes.len(),
{
    if outcomes.len() > 0 {
        let before = outcomes.drop_last();
        assert forall|j: int| 0 <= j < before.len() implies #[trigger] before[j] by {
            assert(before[j] == outcomes[j]);
        }
        lemma_all_passed(total, before);
        assert(outcomes.last() == outcomes[outcomes.len() - 1]);
    }
}

/// The run stops at the first failure: once test `k` has failed, the run
/// reports failure, and whatever outcomes follow, no test after `k` is run.
pub proof fn lemma_fail_fast(total: usize, outcomes: Seq<bool>, k: int)
    requires
        0 <= k < total,
        k < outcomes.len(),
        !outcomes[k],
        forall|j: int| 0 <= j < k ==> #[trigger] outcomes[j],
    ensures
        run_after(total, outcomes) == (TestRun { total, passed: k as usize, failed: true }),
        step_of(run_after(total, outcomes)) == RunStep::Failed,
    decreases outcomes.len(),
{
    let before = outcomes.drop_last();
    if outcomes.len() == k + 1 {
        assert forall|j: int| 0 <= j < before.len() implies #[trigger] before[j] by {
            assert(before[j] == outcomes[j]);
        }
        lemma_all_passed(total, before);
        assert(outcomes.last() == outcomes[k]);
    } else {
        assert(before[k] == outcomes[k]);
        assert forall|j: int| 0 <= j < k implies #[trigger] before[j] by {
            assert(before[j] == outcomes[j]);
        }
        lemma_fail_fast(total, before, k);
    }
}

/// The index of the first failed outcome, or the length where none failed.
pub open spec fn first_failure(outcomes: Seq<bool>) -> int
    decreases outcomes.len(),
{
    if outcomes.len() == 0 || !outcomes[0] {
        0
    } else {
        1 + first_failure(outcomes.drop_first())
    }
}

proof fn lemma_first_failure(outcomes: Seq<bool>)
    requires
        exists|j: int| 0 <= j < outcomes.len() && !outcomes[j],
    ensures
        0 <= first_failure(outcomes) < outcomes.len(),
        !outcomes[first_failure(outcomes)],
        forall|j: int| 0 <= j < first_failure(outcomes) ==> #[trigger] outcomes[j],
    decreases outcomes.len(),
{
    if outcomes[0] {
        let rest = outcomes.drop_first();
        let j = choose|j: int| 0 <= j < outcomes.len() && !outcomes[j];
        assert(!rest[j - 1]);
        lemma_first_failure(rest);
        assert forall|i: int| 0 <= i < first_failure(outcomes) implies #[trigger] outcomes[i] by {
            if i > 0 {
                assert(outcomes[i] == rest[i - 1]);
            }
        }
    }
}

/// The run reports success exactly when it ran every test and each passed.
pub proof fn lemma_success_iff_all_passed(total: usize, outcomes: Seq<bool>)
    requires
        outcomes.len() == total,
    ensures
        step_of(run_after(total, outcomes)) == RunStep::Passed <==> forall|j: int|
            0 <= j < outcomes.len() ==> #[trigger] outcomes[j],
{
    if forall|j: int| 0 <= j < outcomes.len() ==> #[trigger] outcomes[j] {
        lemma_all_passed(total, outcomes);
    } else {
        lemma_first_failure(outcomes);
        lemma_fail_fast(total, outcomes, first_failure(outcomes));
    }
}

} // verus!

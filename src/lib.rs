//! A model of a feature-gated test fixture: which of its tests and
//! benchmarks are compiled under a given set of feature flags, and how each
//! test ends when it runs.
use vstd::prelude::*;

verus! {

/// The build-time feature flags that the fixture responds to.
#[derive(Clone, Copy, Debug, PartialEq, Eq, Structural)]
pub struct Features {
    /// `unstable`: turns on the test and the benchmark that use the
    /// experimental testing facility.
    pub unstable: bool,
    /// `custom-unstable`: turns on an alternate test, and the same benchmark,
    /// for a custom equivalent of that facility.
    pub custom_unstable: bool,
    /// `remove-failing`: takes the deliberately failing test out.
    pub remove_failing: bool,
}

/// The tests that the fixture declares, in declaration order.
#[derive(Clone, Copy, Debug, PartialEq, Eq, Structural)]
pub enum FixtureTest {
    /// Calls into the fixture's library code; always compiled.
    Incrate,
    /// Panics unconditionally; compiled unless `remove-failing` is set.
    Panics,
    /// Compiled only under `unstable`.
    DefaultUnstableTest,
    /// Compiled only under `custom-unstable`.
    CustomUnstableTest,
}

/// How a test ends when a harness runs it.
#[derive(Clone, Copy, Debug, PartialEq, Eq, Structural)]
pub enum Outcome {
    Pass,
    Fail,
}

/// Whether test `t` is compiled when the fixture is built with `f`.
pub open spec fn is_compiled(f: Features, t: FixtureTest) -> bool {
    match t {
        FixtureTest::Incrate => true,
        FixtureTest::Panics => !f.remove_failing,
        FixtureTest::DefaultUnstableTest => f.unstable,
        FixtureTest::CustomUnstableTest => f.custom_unstable,
    }
}

/// `t` as a one-element sequence when it is compiled under `f`, else empty.
pub open spec fn if_compiled(f: Features, t: FixtureTest) -> Seq<FixtureTest> {
    if is_compiled(f, t) {
        seq![t]
    } else {
        Seq::empty()
    }
}

/// The tests compiled under `f`, in declaration order.
pub open spec fn run_list(f: Features) -> Seq<FixtureTest> {
    if_compiled(f, FixtureTest::Incrate) + if_compiled(f, FixtureTest::Panics) + if_compiled(
        f,
        FixtureTest::DefaultUnstableTest,
    ) + if_compiled(f, FixtureTest::CustomUnstableTest)
}

/// The one test that fails is the one that panics; every other test passes.
pub open spec fn expected_outcome(t: FixtureTest) -> Outcome {
    match t {
        FixtureTest::Panics => Outcome::Fail,
        _ => Outcome::Pass,
    }
}

/// The single benchmark is compiled under either unstable flag.
pub open spec fn has_benchmark(f: Features) -> bool {
    f.unstable || f.custom_unstable
}

/// A test is in the run list exactly when it is compiled.
pub proof fn lemma_run_list_members(f: Features)
    ensures
        forall|t: FixtureTest| run_list(f).contains(t) <==> is_compiled(f, t),
{
    let s = run_list(f);
    let a = if_compiled(f, FixtureTest::Incrate);
    let b = if_compiled(f, FixtureTest::Panics);
    let c = if_compiled(f, FixtureTest::DefaultUnstableTest);
    let d = if_compiled(f, FixtureTest::CustomUnstableTest);
    assert forall|t: FixtureTest| is_compiled(f, t) implies s.contains(t) by {
        match t {
            FixtureTest::Incrate => {
                assert(s[0] == t);
            },
            FixtureTest::Panics => {
                assert(s[a.len() as int] == t);
            },
            FixtureTest::DefaultUnstableTest => {
                assert(s[(a.len() + b.len()) as int] == t);
            },
            FixtureTest::CustomUnstableTest => {
                assert(s[(a.len() + b.len() + c.len()) as int] == t);
            },
        }
    }
    assert forall|i: int| 0 <= i < s.len() implies is_compiled(f, #[trigger] s[i]) by {
        if i < a.len() {
        } else if i < a.len() + b.len() {
        } else if i < a.len() + b.len() + c.len() {
        } else {
        }
    }
}

/// The tests that a harness runs when the fixture is built with `f`, in
/// declaration order. Each declared test appears exactly when it is
/// compiled, and none appears twice.
pub fn enabled_tests(f: Features) -> (r: Vec<FixtureTest>)
    ensures
        r@ == run_list(f),
        forall|t: FixtureTest| r@.contains(t) <==> is_compiled(f, t),
        r@.no_duplicates(),
{
    let mut r: Vec<FixtureTest> = Vec::new();
    r.push(FixtureTest::Incrate);
    if !f.remove_failing {
        r.push(FixtureTest::Panics);
    }
    if f.unstable {
        r.push(FixtureTest::DefaultUnstableTest);
    }
    if f.custom_unstable {
        r.push(FixtureTest::CustomUnstableTest);
    }
    assert(r@ =~= run_list(f));
    proof {
        lemma_run_list_members(f);
    }
    r
}

/// How test `t` ends when a harness runs it.
pub fn outcome_of(t: FixtureTest) -> (r: Outcome)
    ensures
        r == expected_outcome(t),
{
    match t {
        FixtureTest::Panics => Outcome::Fail,
        _ => Outcome::Pass,
    }
}

/// The number of benchmarks that a harness runs when the fixture is built
/// with `f`.
pub fn benchmark_count(f: Features) -> (r: usize)
    ensures
        r == (if has_benchmark(f) { 1usize } else { 0usize }),
{
    if f.unstable || f.custom_unstable {
        1
    } else {
        0
    }
}

/// The work that the benchmark times on each iteration: it returns the
/// constant zero.
pub fn unstable_benchmark() -> (r: i32)
    ensures
        r == 0,
{
    0
}

} // verus!

//! Runtime self-protection: the decisions behind four start-up checks
//! (debugger attach-denial, a timing probe, a scan of the loaded modules and
//! an inspection of the guard's own entry instruction), stated and proved
//! over plain values.
//!
//! The host performs the operating-system requests and hands what it observed
//! to this library; the library answers what to do next. A run makes the four
//! checks in a fixed order and ends at the first detection: the host is then
//! told to crash the process, and no further check is asked for. Only a run
//! in which all four checks pass ends with the all-clear.

use vstd::prelude::*;

pub mod security;

use crate::security::anti_debug;
use crate::security::anti_debug::{am_i_debugged, check_timing};
use crate::security::anti_injection;
use crate::security::anti_injection::check_suspicious_dylibs;
use crate::security::integrity;
use crate::security::integrity::check_integrity;

verus! {

/// The status that the host returns to its caller after the all-clear.
pub const ALL_CLEAR: i32 = 0;

/// The number of checks in a run.
pub const CHECK_COUNT: usize = 4;

/// The checks of a run, in the order in which they are made.
#[derive(Clone, Copy, Debug, PartialEq, Eq, Structural)]
pub enum Check {
    /// The request that denies debuggers the right to attach.
    AttachDenial,
    /// Two clock readings around a fixed amount of work.
    TimingProbe,
    /// The names of the modules loaded into the process.
    ModuleScan,
    /// The first instruction word of the protected function.
    Integrity,
}

/// What the host observed when it carried out one check.
#[derive(Debug)]
pub enum Observation {
    /// The status that the attach-denial request returned.
    AttachDenial { status: i32 },
    /// The clock readings before and after the probe's work.
    TimingProbe { start: u64, end: u64 },
    /// The names of the loaded modules, each as its bytes.
    ModuleScan { modules: Vec<Vec<u8>> },
    /// The word read at the entry of the protected function, or `None`
    /// where its address was null.
    Integrity { entry: Option<u32> },
}

/// What the host is to do next.
#[derive(Clone, Copy, Debug, PartialEq, Eq, Structural)]
pub enum Directive {
    /// Carry out this check and report what was observed.
    Probe(Check),
    /// Terminate the process at once, without cleanup.
    Crash,
    /// Every check passed: return `ALL_CLEAR` to the caller.
    AllClear,
}

/// The check made at each position of a run.
pub open spec fn check_at(position: int) -> Check {
    if position <= 0 {
        Check::AttachDenial
    } else if position == 1 {
        Check::TimingProbe
    } else if position == 2 {
        Check::ModuleScan
    } else {
        Check::Integrity
    }
}

/// What follows a check that passed.
pub open spec fn after(check: Check) -> Directive {
    match check {
        Check::AttachDenial => Directive::Probe(Check::TimingProbe),
        Check::TimingProbe => Directive::Probe(Check::ModuleScan),
        Check::ModuleScan => Directive::Probe(Check::Integrity),
        Check::Integrity => Directive::AllClear,
    }
}

/// The check that an observation belongs to.
pub open spec fn check_of(observation: Observation) -> Check {
    match observation {
        Observation::AttachDenial { .. } => Check::AttachDenial,
        Observation::TimingProbe { .. } => Check::TimingProbe,
        Observation::ModuleScan { .. } => Check::ModuleScan,
        Observation::Integrity { .. } => Check::Integrity,
    }
}

/// The observation shows what its check looks for.
pub open spec fn detects(observation: Observation) -> bool {
    match observation {
        Observation::AttachDenial { status } => anti_debug::attach_refused(status),
        Observation::TimingProbe { start, end } => anti_debug::timing_suspicious(start, end),
        Observation::ModuleScan { modules } => anti_injection::list_suspicious(
            anti_injection::names_of(modules@),
        ),
        Observation::Integrity { entry } => !integrity::entry_intact(entry),
    }
}

/// The observation answers `check` and shows nothing. An observation that
/// belongs to another check does not pass.
pub open spec fn passes(check: Check, observation: Observation) -> bool {
    check_of(observation) == check && !detects(observation)
}

/// The decision after one check.
pub open spec fn step(check: Check, observation: Observation) -> Directive {
    if passes(check, observation) {
        after(check)
    } else {
        Directive::Crash
    }
}

/// The first `count` observations of the trace pass the checks of their
/// positions.
pub open spec fn passes_until(trace: Seq<Observation>, count: int) -> bool {
    forall|k: int| 0 <= k < count ==> passes(check_at(k), #[trigger] trace[k])
}

/// The decision after the observations of `trace`, reported in this order
/// from the start of a run.
///
/// A trace of fewer than `CHECK_COUNT` observations that all pass asks for
/// the next check; one whose first `CHECK_COUNT` observations all pass gives
/// the all-clear; any other means a crash. What follows the observation that
/// decided the run is not looked at.
pub open spec fn run(trace: Seq<Observation>) -> Directive {
    if trace.len() < CHECK_COUNT {
        if passes_until(trace, trace.len() as int) {
            Directive::Probe(check_at(trace.len() as int))
        } else {
            Directive::Crash
        }
    } else {
        if passes_until(trace, CHECK_COUNT as int) {
            Directive::AllClear
        } else {
            Directive::Crash
        }
    }
}

/// What `step` adds to a run that has come to `directive`: a run that is
/// over stays as it is.
pub open spec fn continued(directive: Directive, observation: Observation) -> Directive {
    match directive {
        Directive::Probe(check) => step(check, observation),
        Directive::Crash => Directive::Crash,
        Directive::AllClear => Directive::AllClear,
    }
}

impl Directive {
    /// The status for the host's caller: `ALL_CLEAR` after the all-clear,
    /// none while the run goes on or when the process is to crash.
    pub open spec fn spec_status(self) -> Option<i32> {
        match self {
            Directive::AllClear => Some(ALL_CLEAR),
            _ => None,
        }
    }

    /// The status that the host returns to its caller, if it is to return.
    pub fn status(&self) -> (code: Option<i32>)
        ensures
            code == self.spec_status(),
            *self == Directive::AllClear <==> code == Some(0i32),
    {
        match self {
            Directive::AllClear => Some(ALL_CLEAR),
            _ => None,
        }
    }
}

/// Decides what follows one check: a crash where the observation shows what
/// the check looks for or does not answer the check at all, else the next
/// check in order, and the all-clear after the last.
pub fn advance(check: Check, observation: &Observation) -> (next: Directive)
    ensures
        next == step(check, *observation),
        next != Directive::Probe(check),
{
    let detected = match observation {
        Observation::AttachDenial { status } => {
            match check {
                Check::AttachDenial => am_i_debugged(*status),
                _ => true,
            }
        },
        Observation::TimingProbe { start, end } => {
            match check {
                Check::TimingProbe => check_timing(*start, *end),
                _ => true,
            }
        },
        Observation::ModuleScan { modules } => {
            match check {
                Check::ModuleScan => check_suspicious_dylibs(modules),
                _ => true,
            }
        },
        Observation::Integrity { entry } => {
            match check {
                Check::Integrity => !check_integrity(*entry),
                _ => true,
            }
        },
    };
    if detected {
        return Directive::Crash;
    }
    match check {
        Check::AttachDenial => Directive::Probe(Check::TimingProbe),
        Check::TimingProbe => Directive::Probe(Check::ModuleScan),
        Check::ModuleScan => Directive::Probe(Check::Integrity),
        Check::Integrity => Directive::AllClear,
    }
}

/// Runs the protection sequence over what has been observed so far, and
/// tells what is to be done now. With no observation yet this is the first
/// check, the attach-denial request. Observations are judged in order, and
/// none is judged after the one that decided the run.
pub fn start_protection(observations: &Vec<Observation>) -> (directive: Directive)
    ensures
        directive == run(observations@),
        observations@.len() == 0 ==> directive == Directive::Probe(Check::AttachDenial),
{
    let mut directive = Directive::Probe(Check::AttachDenial);
    let mut i: usize = 0;
    while i < observations.len()
        invariant
            i <= observations@.len(),
            directive == run(observations@.take(i as int)),
        decreases observations@.len() - i,
    {
        proof {
            lemma_run_extends(observations@.take(i as int), observations@[i as int]);
            assert(observations@.take(i as int).push(observations@[i as int])
                =~= observations@.take(i + 1));
        }
        match directive {
            Directive::Probe(check) => {
                directive = advance(check, &observations[i]);
            },
            _ => {
                proof {
                    lemma_run_is_final(
                        observations@.take(i + 1),
                        observations@.skip(i + 1),
                    );
                    assert(observations@.take(i + 1) + observations@.skip(i + 1)
                        =~= observations@);
                }
                return directive;
            },
        }
        i += 1;
    }
    assert(observations@.take(i as int) =~= observations@);
    directive
}

/// A run proceeds one observation at a time: the decision after one more
/// observation is the step from the decision before it.
pub proof fn lemma_run_extends(trace: Seq<Observation>, observation: Observation)
    ensures
        run(trace.push(observation)) == continued(run(trace), observation),
{
    let longer = trace.push(observation);
    let n = trace.len() as int;
    assert(forall|k: int| 0 <= k < n ==> longer[k] == trace[k]);
    assert(longer[n] == observation);
    if n < CHECK_COUNT {
        if passes_until(trace, n) {
            if passes(check_at(n), observation) {
                assert(passes_until(longer, n + 1));
            } else {
                assert(!passes(check_at(n), longer[n]));
            }
        } else {
            let k = choose|k: int| 0 <= k < n && !passes(check_at(k), #[trigger] trace[k]);
            assert(!passes(check_at(k), longer[k]));
        }
    } else {
        if passes_until(trace, CHECK_COUNT as int) {
            assert(passes_until(longer, CHECK_COUNT as int));
        } else {
            let k = choose|k: int|
                0 <= k < CHECK_COUNT && !passes(check_at(k), #[trigger] trace[k]);
            assert(!passes(check_at(k), longer[k]));
        }
    }
}

/// A run that has ended stays ended: once the decision is a crash or the
/// all-clear, no later observation changes it.
pub proof fn lemma_run_is_final(trace: Seq<Observation>, later: Seq<Observation>)
    requires
        run(trace) == Directive::Crash || run(trace) == Directive::AllClear,
    ensures
        run(trace + later) == run(trace),
    decreases later.len(),
{
    if later.len() == 0 {
        assert(trace + later =~= trace);
    } else {
        lemma_run_extends(trace, later[0]);
        let next = trace.push(later[0]);
        lemma_run_is_final(next, later.drop_first());
        assert(next + later.drop_first() =~= trace + later);
    }
}

/// The order of the checks is fixed: while a run goes on, the check it asks
/// for is the one at the position that the trace has reached, and a run of
/// `CHECK_COUNT` observations or more asks for none.
pub proof fn lemma_run_order(trace: Seq<Observation>)
    ensures
        run(trace) matches Directive::Probe(check) ==> trace.len() < CHECK_COUNT && check
            == check_at(trace.len() as int),
        trace.len() == 0 ==> run(trace) == Directive::Probe(Check::AttachDenial),
{
}

/// No check is asked for twice in a run: what a run asks for after some of
/// its observations differs from what it asks for after more of them. The
/// attach-denial request in particular is made once, at the start.
pub proof fn lemma_each_check_once(trace: Seq<Observation>, earlier: int)
    requires
        0 <= earlier < trace.len(),
        run(trace.take(earlier)) is Probe,
        run(trace) is Probe,
    ensures
        run(trace.take(earlier)) != run(trace),
{
    lemma_run_order(trace);
    lemma_run_order(trace.take(earlier));
}

/// A process without a debugger, whose timing sample stays within the
/// threshold, whose modules hold no known name and whose protected function
/// is unpatched, gets the all-clear after the fourth check and returns
/// status 0.
pub proof fn lemma_clean_run_is_all_clear(
    status: i32,
    start: u64,
    end: u64,
    modules: Vec<Vec<u8>>,
    entry: Option<u32>,
)
    requires
        !anti_debug::attach_refused(status),
        !anti_debug::timing_suspicious(start, end),
        !anti_injection::list_suspicious(anti_injection::names_of(modules@)),
        integrity::entry_intact(entry),
    ensures
        run(
            seq![
                Observation::AttachDenial { status },
                Observation::TimingProbe { start, end },
                Observation::ModuleScan { modules },
                Observation::Integrity { entry },
            ],
        ) == Directive::AllClear,
        Directive::AllClear.spec_status() == Some(0i32),
{
}

/// The all-clear is given only to a run in which each of the four checks
/// was made at its position and passed.
pub proof fn lemma_all_clear_needs_every_check(trace: Seq<Observation>)
    ensures
        run(trace) == Directive::AllClear <==> trace.len() >= CHECK_COUNT && passes(
            Check::AttachDenial,
            trace[0],
        ) && passes(Check::TimingProbe, trace[1]) && passes(Check::ModuleScan, trace[2])
            && passes(Check::Integrity, trace[3]),
{
    if trace.len() >= CHECK_COUNT {
        if passes(Check::AttachDenial, trace[0]) && passes(Check::TimingProbe, trace[1])
            && passes(Check::ModuleScan, trace[2]) && passes(Check::Integrity, trace[3]) {
            assert(passes_until(trace, CHECK_COUNT as int));
        } else {
            assert(check_at(0) == Check::AttachDenial);
            assert(check_at(1) == Check::TimingProbe);
            assert(check_at(2) == Check::ModuleScan);
            assert(check_at(3) == Check::Integrity);
        }
    }
}

/// Where the attach-denial request fails, the run ends in a crash at its
/// first step, whatever else is observed.
pub proof fn lemma_attached_debugger_crashes(status: i32, later: Seq<Observation>)
    requires
        anti_debug::attach_refused(status),
    ensures
        run(seq![Observation::AttachDenial { status }] + later) == Directive::Crash,
{
    let trace = seq![Observation::AttachDenial { status }] + later;
    assert(trace[0] == Observation::AttachDenial { status });
    assert(!passes(check_at(0), trace[0]));
}

/// An observation that does not pass the check of its position, at any of
/// the four positions, ends the run in a crash, whatever stands before it
/// and after it.
pub proof fn lemma_first_detection_crashes(trace: Seq<Observation>, position: int)
    requires
        0 <= position < trace.len(),
        position < CHECK_COUNT,
        !passes(check_at(position), trace[position]),
    ensures
        run(trace) == Directive::Crash,
{
}

} // verus!

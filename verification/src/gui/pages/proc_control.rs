//! Procedure page and the sequencing of a running test procedure.
//!
//! A procedure runs its phases in order, once or `iterations` times when
//! looping is enabled. Each phase starts by switching every active actuator
//! off, then switches on the phase's actuators, then waits for the phase's
//! duration. An abort request ends the run early.
use vstd::prelude::*;

use crate::config::{
    activation_for_name, active_codes, all_inactive, apply_toggles, distinct_codes,
    lemma_confirmed_reset_clears_all, procedures_view, toggle_commands, toggled, with_code,
    with_name, ActuatorView, ActuatorsRegister, AppConfig, Phase, ProceduresConfig,
    ProceduresConfigView, RunConfig,
};
use crate::seq_search::{
    find_first, is_first_match, lemma_find_first_at, lemma_find_first_same_matches,
    lemma_find_first_some,
};
use crate::gui::pages::serial_control::SerialCommand;

verus! {

/// A request to the procedure worker.
#[derive(Debug, Clone, Copy, PartialEq, Eq, Structural)]
pub enum ProcedureCommand {
    /// Run the procedure at this index of the configuration.
    Start(usize),
    Abort,
}

/// What the procedure worker reports.
#[derive(Debug, Clone, Copy, PartialEq, Eq, Structural)]
pub enum ProcedureStatus {
    Idle,
    Running { proc_idx: usize, phase_idx: usize },
    Aborted,
}

/// Position of a running procedure: which pass over the phases, and which
/// phase of that pass.
#[derive(Debug, Clone, Copy, PartialEq, Eq, Structural)]
pub struct ProcedureRun {
    pub proc_idx: usize,
    pub iteration: usize,
    pub phase_idx: usize,
    pub iterations: usize,
    pub phase_count: usize,
}

impl ProcedureRun {
    /// The run points at an existing phase of an unfinished pass.
    pub open spec fn wf(self) -> bool {
        &&& self.phase_idx < self.phase_count
        &&& self.iteration < self.iterations
    }

    /// The run belongs to procedure `proc_idx` of `config`.
    pub open spec fn fits(self, config: Seq<ProceduresConfigView>) -> bool {
        &&& self.proc_idx < config.len()
        &&& self.phase_count == config[self.proc_idx as int].phases.len()
    }

    /// The status reported while this phase runs.
    pub fn status(&self) -> (s: ProcedureStatus)
        ensures
            s == (ProcedureStatus::Running { proc_idx: self.proc_idx, phase_idx: self.phase_idx }),
    {
        ProcedureStatus::Running { proc_idx: self.proc_idx, phase_idx: self.phase_idx }
    }
}

/// How the wait at the end of a phase ended.
#[derive(Debug, Clone, Copy, PartialEq, Eq, Structural)]
pub enum PhaseWait {
    /// A request arrived before the phase's duration was over.
    Received(ProcedureCommand),
    /// The phase's duration passed.
    TimedOut,
    /// Nobody can send requests any more.
    ChannelClosed,
}

/// What the worker does next.
#[derive(Debug, Clone, Copy, PartialEq, Eq, Structural)]
pub enum RunStep {
    /// Enter this phase.
    Phase(ProcedureRun),
    /// Switch every active actuator off and report this final status.
    Finished(ProcedureStatus),
    /// Stop the worker at once.
    Exit,
}

/// The names of procedure `proc_idx` and of its phase `phase_idx`, shown
/// while it runs; `None` when either index is out of range.
pub fn running_names(procedures: &Vec<ProceduresConfig>, proc_idx: usize, phase_idx: usize) -> (names:
    Option<(&String, &String)>)
    ensures
        match names {
            Some((p, ph)) => {
                &&& proc_idx < procedures@.len()
                &&& phase_idx < procedures@[proc_idx as int].phases@.len()
                &&& p@ == procedures@[proc_idx as int].name@
                &&& ph@ == procedures@[proc_idx as int].phases@[phase_idx as int].name@
            },
            None => !(proc_idx < procedures@.len() && phase_idx < procedures@[
                proc_idx as int
            ].phases@.len()),
        },
{
    if proc_idx < procedures.len() {
        let procedure = &procedures[proc_idx];
        if phase_idx < procedure.phases.len() {
            return Some((&procedure.name, &procedure.phases[phase_idx].name));
        }
    }
    None
}

/// The name of the selected procedure, shown while none runs; `None` when
/// nothing is selected or the selection is out of range.
pub fn selected_name(procedures: &Vec<ProceduresConfig>, selected: Option<usize>) -> (name: Option<
    &String,
>)
    ensures
        match selected {
            Some(idx) => if idx < procedures@.len() {
                name matches Some(n) && n@ == procedures@[idx as int].name@
            } else {
                name is None
            },
            None => name is None,
        },
{
    match selected {
        Some(idx) => if idx < procedures.len() {
            Some(&procedures[idx].name)
        } else {
            None
        },
        None => None,
    }
}

/// The request the "Start" button sends: available once a procedure is
/// selected, and then for that procedure.
pub fn start_request(selected: Option<usize>) -> (cmd: Option<ProcedureCommand>)
    ensures
        cmd == match selected {
            Some(idx) => Some(ProcedureCommand::Start(idx)),
            None => None,
        },
{
    match selected {
        Some(idx) => Some(ProcedureCommand::Start(idx)),
        None => None,
    }
}

pub open spec fn spec_iteration_count(c: RunConfig) -> usize {
    if c.loop_enabled {
        match c.iterations {
            Some(n) => n,
            None => 1,
        }
    } else {
        1
    }
}

/// Number of passes over the phases: the configured count when looping
/// (one when none is given), otherwise one.
pub fn iteration_count(config: &RunConfig) -> (n: usize)
    ensures
        n == spec_iteration_count(*config),
{
    if config.loop_enabled {
        match config.iterations {
            Some(n) => n,
            None => 1,
        }
    } else {
        1
    }
}

/// The first step of a run with these dimensions: the first phase of the
/// first pass, or an immediate end when there is nothing to run.
pub open spec fn first_step(proc_idx: usize, iterations: usize, phase_count: usize) -> RunStep {
    if iterations == 0 || phase_count == 0 {
        RunStep::Finished(ProcedureStatus::Idle)
    } else {
        RunStep::Phase(
            ProcedureRun { proc_idx, iteration: 0, phase_idx: 0, iterations, phase_count },
        )
    }
}

/// The step after a phase of `run` whose wait ended with `wait`.
pub open spec fn next_step(run: ProcedureRun, wait: PhaseWait) -> RunStep {
    match wait {
        PhaseWait::Received(ProcedureCommand::Abort) => RunStep::Finished(ProcedureStatus::Aborted),
        PhaseWait::ChannelClosed => RunStep::Exit,
        _ => {
            if run.phase_idx + 1 < run.phase_count {
                RunStep::Phase(ProcedureRun { phase_idx: (run.phase_idx + 1) as usize, ..run })
            } else if run.iteration + 1 < run.iterations {
                RunStep::Phase(
                    ProcedureRun { iteration: (run.iteration + 1) as usize, phase_idx: 0, ..run },
                )
            } else {
                RunStep::Finished(ProcedureStatus::Idle)
            }
        },
    }
}

/// Starts procedure `proc_idx` of `config`.
pub fn begin_procedure(config: &AppConfig, proc_idx: usize) -> (step: RunStep)
    requires
        proc_idx < config.procedures@.len(),
    ensures
        step == first_step(
            proc_idx,
            spec_iteration_count(config.procedures@[proc_idx as int].config),
            config.procedures@[proc_idx as int].phases@.len() as usize,
        ),
        step matches RunStep::Phase(run) ==> run.wf() && run.fits(procedures_view(config.procedures@)),
{
    let procedure = &config.procedures[proc_idx];
    let iterations = iteration_count(&procedure.config);
    let phase_count = procedure.phases.len();
    if iterations == 0 || phase_count == 0 {
        RunStep::Finished(ProcedureStatus::Idle)
    } else {
        RunStep::Phase(
            ProcedureRun { proc_idx, iteration: 0, phase_idx: 0, iterations, phase_count },
        )
    }
}

/// Decides what follows a phase: an abort request ends the run as aborted,
/// a closed request channel stops the worker, and otherwise (the duration
/// passed, or another start request cut the wait short) the next phase
/// follows, then the next pass, then the end of the run.
pub fn after_phase(run: &ProcedureRun, wait: PhaseWait) -> (step: RunStep)
    requires
        run.wf(),
    ensures
        step == next_step(*run, wait),
        step matches RunStep::Phase(r) ==> r.wf() && r.proc_idx == run.proc_idx
            && r.iterations == run.iterations && r.phase_count == run.phase_count,
{
    match wait {
        PhaseWait::Received(ProcedureCommand::Abort) => RunStep::Finished(ProcedureStatus::Aborted),
        PhaseWait::ChannelClosed => RunStep::Exit,
        _ => {
            if run.phase_idx + 1 < run.phase_count {
                RunStep::Phase(ProcedureRun { phase_idx: run.phase_idx + 1, ..*run })
            } else if run.iteration + 1 < run.iterations {
                RunStep::Phase(ProcedureRun { iteration: run.iteration + 1, phase_idx: 0, ..*run })
            } else {
                RunStep::Finished(ProcedureStatus::Idle)
            }
        },
    }
}

/// Codes of the first actuators called by each of `names`, in order; names
/// that no actuator has are skipped.
pub open spec fn name_codes(s: Seq<ActuatorView>, names: Seq<Seq<char>>) -> Seq<u8>
    decreases names.len(),
{
    if names.len() == 0 {
        seq![]
    } else {
        let rest = name_codes(s, names.drop_last());
        match find_first(s, with_name(names.last())) {
            Some(i) => rest.push(s[i].code),
            None => rest,
        }
    }
}

/// The requests that switch on each of `names` in turn, against the register
/// `s`, skipping names whose actuator is already on or missing.
pub open spec fn activation_requests(s: Seq<ActuatorView>, names: Seq<Seq<char>>) -> Seq<
    SerialCommand,
>
    decreases names.len(),
{
    if names.len() == 0 {
        seq![]
    } else {
        let rest = activation_requests(s, names.drop_last());
        match activation_for_name(s, names.last()) {
            Some(c) => rest.push(c),
            None => rest,
        }
    }
}

/// Against a register with every actuator off, the activation requests are
/// the toggles of the named actuators' codes.
pub proof fn lemma_activations_after_reset(s: Seq<ActuatorView>, names: Seq<Seq<char>>)
    ensures
        activation_requests(all_inactive(s), names) == toggle_commands(name_codes(s, names)),
    decreases names.len(),
{
    if names.len() > 0 {
        lemma_activations_after_reset(s, names.drop_last());
        let z = all_inactive(s);
        let n = names.last();
        assert forall|j: int| 0 <= j < z.len() implies with_name(n)(#[trigger] z[j]) == with_name(
            n,
        )(s[j]) by {}
        lemma_find_first_same_matches(z, with_name(n), s, with_name(n));
        lemma_find_first_some(s, with_name(n));
        let codes = name_codes(s, names);
        let rest = name_codes(s, names.drop_last());
        match find_first(s, with_name(n)) {
            Some(i) => {
                assert(codes == rest.push(s[i].code));
                assert(toggle_commands(codes) =~= toggle_commands(rest).push(
                    SerialCommand::TogglePeripheral(s[i].code),
                ));
            },
            None => {},
        }
    }
}

/// The requests that switch on the actuators that `phase` lists, worked out
/// against the register as it stands once the reset that starts the phase
/// has switched every actuator off.
pub fn phase_activations(register: &ActuatorsRegister, phase: &Phase) -> (cmds: Vec<
    SerialCommand,
>)
    ensures
        cmds@ == activation_requests(all_inactive(register@), phase@.actuators),
        cmds@ == toggle_commands(name_codes(register@, phase@.actuators)),
{
    let settled = register.after_reset();
    let mut cmds: Vec<SerialCommand> = Vec::new();
    let n = phase.actuators.len();
    let ghost names = phase@.actuators;
    for i in 0..n
        invariant
            n == names.len(),
            names == phase@.actuators,
            settled@ == all_inactive(register@),
            cmds@ == activation_requests(settled@, names.take(i as int)),
    {
        let periph = &phase.actuators[i];
        assert(names.take(i + 1).drop_last() =~= names.take(i as int));
        assert(names.take(i + 1).last() == periph@);
        match settled.set_active_by_name(&periph.name) {
            Some(c) => cmds.push(c),
            None => {},
        }
        assert(cmds@ =~= activation_requests(settled@, names.take(i + 1)));
    }
    assert(names.take(n as int) =~= names);
    proof {
        lemma_activations_after_reset(register@, names);
    }
    cmds
}

/// The step reached from `step` after `k` phases that each ran their full
/// duration.
pub open spec fn after_timeouts(step: RunStep, k: nat) -> RunStep
    decreases k,
{
    if k == 0 {
        step
    } else {
        match after_timeouts(step, (k - 1) as nat) {
            RunStep::Phase(run) => next_step(run, PhaseWait::TimedOut),
            other => other,
        }
    }
}

/// The `k`-th phase entered by an undisturbed run.
pub open spec fn run_at(
    proc_idx: usize,
    iterations: usize,
    phase_count: usize,
    k: int,
) -> ProcedureRun {
    ProcedureRun {
        proc_idx,
        iteration: (k / phase_count as int) as usize,
        phase_idx: (k % phase_count as int) as usize,
        iterations,
        phase_count,
    }
}

/// An undisturbed run enters every phase of every pass, in order: the
/// `k`-th phase entered is phase `k % phase_count` of pass `k / phase_count`.
pub proof fn lemma_undisturbed_run_order(
    proc_idx: usize,
    iterations: usize,
    phase_count: usize,
    k: nat,
)
    requires
        0 < phase_count,
        k < iterations * phase_count,
    ensures
        after_timeouts(first_step(proc_idx, iterations, phase_count), k) == RunStep::Phase(
            run_at(proc_idx, iterations, phase_count, k as int),
        ),
    decreases k,
{
    let pc = phase_count as int;
    assert(iterations > 0) by (nonlinear_arith)
        requires
            k < iterations * phase_count,
            0 < phase_count,
    ;
    if k == 0 {
        vstd::arithmetic::div_mod::lemma_fundamental_div_mod_converse(0, pc, 0, 0);
    } else {
        let j = (k - 1) as nat;
        assert(j < iterations * phase_count);
        lemma_undisturbed_run_order(proc_idx, iterations, phase_count, j);
        let q = j as int / pc;
        let r = j as int % pc;
        vstd::arithmetic::div_mod::lemma_fundamental_div_mod(j as int, pc);
        assert(0 <= r < pc);
        assert(q >= 0) by (nonlinear_arith)
            requires
                j as int == pc * q + r,
                0 <= r < pc,
                j >= 0,
        ;
        if r + 1 < pc {
            vstd::arithmetic::div_mod::lemma_fundamental_div_mod_converse(k as int, pc, q, r + 1);
        } else {
            assert(k as int == (q + 1) * pc + 0) by (nonlinear_arith)
                requires
                    j as int == pc * q + r,
                    r + 1 == pc,
                    k == j + 1,
            ;
            vstd::arithmetic::div_mod::lemma_fundamental_div_mod_converse(k as int, pc, q + 1, 0);
            assert(q + 1 < iterations) by (nonlinear_arith)
                requires
                    k as int == (q + 1) * pc,
                    k < iterations * pc,
                    pc > 0,
            ;
        }
    }
}

/// An undisturbed run ends as idle once it has entered
/// `iterations * phase_count` phases.
pub proof fn lemma_undisturbed_run_ends_idle(
    proc_idx: usize,
    iterations: usize,
    phase_count: usize,
)
    ensures
        after_timeouts(
            first_step(proc_idx, iterations, phase_count),
            (iterations * phase_count) as nat,
        ) == RunStep::Finished(ProcedureStatus::Idle),
{
    let total = iterations * phase_count;
    if iterations == 0 || phase_count == 0 {
        assert(total == 0) by (nonlinear_arith)
            requires
                iterations == 0 || phase_count == 0,
                total == iterations * phase_count,
        ;
    } else {
        assert(total > 0) by (nonlinear_arith)
            requires
                iterations > 0,
                phase_count > 0,
                total == iterations * phase_count,
        ;
        let k = (total - 1) as nat;
        lemma_undisturbed_run_order(proc_idx, iterations, phase_count, k);
        let pc = phase_count as int;
        assert(k as int == (iterations - 1) * pc + (pc - 1)) by (nonlinear_arith)
            requires
                k == total - 1,
                total == iterations * pc,
        ;
        vstd::arithmetic::div_mod::lemma_fundamental_div_mod_converse(
            k as int,
            pc,
            iterations - 1,
            pc - 1,
        );
    }
}

/// An abort request ends the run as aborted, whatever phase it interrupts.
pub proof fn lemma_abort_ends_aborted(run: ProcedureRun)
    ensures
        next_step(run, PhaseWait::Received(ProcedureCommand::Abort)) == RunStep::Finished(
            ProcedureStatus::Aborted,
        ),
{
}

/// Actuator `i` is the first one called by some entry of `names`.
pub open spec fn named_by(s: Seq<ActuatorView>, names: Seq<Seq<char>>, i: int) -> bool {
    exists|k: int| 0 <= k < names.len() && #[trigger] find_first(s, with_name(names[k])) == Some(i)
}

/// No entry of `names` appears twice.
pub open spec fn distinct_names(names: Seq<Seq<char>>) -> bool {
    forall|a: int, b: int| 0 <= a < b < names.len() ==> names[a] != names[b]
}

/// `t` has the actuators of `s`, with the same labels and codes.
pub open spec fn same_actuators(s: Seq<ActuatorView>, t: Seq<ActuatorView>) -> bool {
    &&& s.len() == t.len()
    &&& forall|i: int| 0 <= i < s.len() ==> #[trigger] t[i].name == s[i].name && t[i].code == s[i].code
}

proof fn lemma_activation_prefix(s: Seq<ActuatorView>, names: Seq<Seq<char>>, k: int)
    requires
        distinct_codes(s),
        distinct_names(names),
        0 <= k <= names.len(),
    ensures
        ({
            let t = apply_toggles(all_inactive(s), name_codes(s, names.take(k)));
            &&& same_actuators(s, t)
            &&& forall|i: int| 0 <= i < s.len() ==> #[trigger] t[i].is_active == named_by(s, names.take(k), i)
        }),
    decreases k,
{
    if k == 0 {
        assert(names.take(0) =~= Seq::<Seq<char>>::empty());
        assert(name_codes(s, names.take(0)) =~= Seq::<u8>::empty());
    } else {
        lemma_activation_prefix(s, names, k - 1);
        let prev = names.take(k - 1);
        let cur = names.take(k);
        assert(cur.drop_last() =~= prev);
        assert(cur.last() == names[k - 1]);
        let t = apply_toggles(all_inactive(s), name_codes(s, prev));
        let n = names[k - 1];
        lemma_find_first_some(s, with_name(n));
        assert forall|kk: int| 0 <= kk < prev.len() implies #[trigger] cur[kk] == prev[kk] by {}
        match find_first(s, with_name(n)) {
            Some(i) => {
                let c = s[i].code;
                let codes = name_codes(s, cur);
                assert(codes.drop_last() =~= name_codes(s, prev));
                assert(codes.last() == c);
                assert(is_first_match(t, with_code(c), i)) by {
                    assert(t[i].name == s[i].name);
                    assert forall|j: int| 0 <= j < i implies !with_code(c)(#[trigger] t[j]) by {
                        assert(t[j].name == s[j].name);
                        assert(s[j].code != s[i].code);
                    }
                }
                lemma_find_first_at(t, with_code(c), i);
                let u = toggled(t, c);
                assert(u == apply_toggles(all_inactive(s), codes));
                assert(!named_by(s, prev, i)) by {
                    if named_by(s, prev, i) {
                        let kk = choose|kk: int| 0 <= kk < prev.len() && #[trigger] find_first(s, with_name(prev[kk])) == Some(i);
                        lemma_find_first_some(s, with_name(prev[kk]));
                        assert(prev[kk] == names[kk]);
                        assert(names[kk] != names[k - 1]);
                    }
                }
                assert forall|j: int| 0 <= j < s.len() implies #[trigger] u[j].is_active == named_by(s, cur, j) by {
                    if j == i {
                        assert(cur[k - 1] == n);
                        assert(find_first(s, with_name(cur[k - 1])) == Some(i));
                    } else {
                        if named_by(s, cur, j) {
                            let kk = choose|kk: int| 0 <= kk < cur.len() && #[trigger] find_first(s, with_name(cur[kk])) == Some(j);
                            assert(kk != k - 1);
                            assert(find_first(s, with_name(prev[kk])) == Some(j));
                        }
                        if named_by(s, prev, j) {
                            let kk = choose|kk: int| 0 <= kk < prev.len() && #[trigger] find_first(s, with_name(prev[kk])) == Some(j);
                            assert(find_first(s, with_name(cur[kk])) == Some(j));
                        }
                    }
                }
            },
            None => {
                assert(name_codes(s, cur) =~= name_codes(s, prev));
                assert forall|j: int| 0 <= j < s.len() implies #[trigger] t[j].is_active == named_by(s, cur, j) by {
                    if named_by(s, cur, j) {
                        let kk = choose|kk: int| 0 <= kk < cur.len() && #[trigger] find_first(s, with_name(cur[kk])) == Some(j);
                        assert(kk != k - 1);
                        assert(find_first(s, with_name(prev[kk])) == Some(j));
                    }
                    if named_by(s, prev, j) {
                        let kk = choose|kk: int| 0 <= kk < prev.len() && #[trigger] find_first(s, with_name(prev[kk])) == Some(j);
                        assert(find_first(s, with_name(cur[kk])) == Some(j));
                    }
                }
            },
        }
    }
}

/// Entering a phase, once the controller has confirmed every toggle that
/// was requested (first those of the reset, `codes_reset`, then those of the
/// phase's activations, `codes_on`, worked out against the register after the
/// reset), leaves active exactly the actuators that the phase names. This
/// holds when codes are distinct in the register and the phase names no
/// actuator twice.
pub proof fn lemma_phase_entry_activates_exactly_named(
    s: Seq<ActuatorView>,
    names: Seq<Seq<char>>,
    codes_reset: Seq<u8>,
    codes_on: Seq<u8>,
)
    requires
        distinct_codes(s),
        distinct_names(names),
        codes_reset == active_codes(s),
        toggle_commands(codes_on) == activation_requests(all_inactive(s), names),
    ensures
        ({
            let r = apply_toggles(apply_toggles(s, codes_reset), codes_on);
            &&& same_actuators(s, r)
            &&& forall|i: int| 0 <= i < s.len() ==> #[trigger] r[i].is_active == named_by(s, names, i)
        }),
{
    lemma_activations_after_reset(s, names);
    let expected = name_codes(s, names);
    assert(codes_on =~= expected) by {
        assert(toggle_commands(codes_on).len() == toggle_commands(expected).len());
        assert forall|j: int| 0 <= j < codes_on.len() implies codes_on[j] == expected[j] by {
            assert(toggle_commands(codes_on)[j] == toggle_commands(expected)[j]);
        }
    }
    lemma_confirmed_reset_clears_all(s);
    lemma_activation_prefix(s, names, names.len() as int);
    assert(names.take(names.len() as int) =~= names);
}

} // verus!

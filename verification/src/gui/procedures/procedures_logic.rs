//! A procedure runner driven by periodic ticks: each tick looks at the clock
//! and says which actuator codes to send.
use vstd::prelude::*;

use crate::config::{
    active_codes, with_name, ActuatorView, ActuatorsRegister, ProceduresConfig,
    ProceduresConfigView, RunConfig,
};
use crate::gui::pages::proc_control::spec_iteration_count;
use crate::seq_search::find_first;

verus! {

/// How far back the first phase's start is set, so that the first tick after
/// initialisation finds it over.
pub const HEAD_START_MS: i128 = 9_999_000;

/// Where the runner is.
#[derive(Debug, Clone, Copy, PartialEq, Eq, Structural)]
pub enum RunnerState {
    Idle,
    Initalizing,
    /// Inside phase `phase_idx` of pass `iteration`, which started at
    /// `phase_start` (milliseconds on the caller's monotonic clock).
    Running { phase_idx: usize, iteration: u32, phase_start: i128 },
}

pub struct ProcedureRunner {
    active_procedure: Option<ProceduresConfig>,
    state: RunnerState,
}

/// Whole seconds from `start` to `now`; zero when `now` is not later.
pub open spec fn elapsed_secs(now_ms: u64, start: i128) -> int {
    if now_ms - start <= 0 {
        0
    } else {
        (now_ms - start) / 1000
    }
}

/// Codes of the named actuators that are not active yet, in order; names
/// that no actuator has are skipped.
pub open spec fn activation_codes(s: Seq<ActuatorView>, names: Seq<Seq<char>>) -> Seq<u8>
    decreases names.len(),
{
    if names.len() == 0 {
        seq![]
    } else {
        let rest = activation_codes(s, names.drop_last());
        match find_first(s, with_name(names.last())) {
            Some(i) => if !s[i].is_active {
                rest.push(s[i].code)
            } else {
                rest
            },
            None => rest,
        }
    }
}

/// The pass count at which a looping run stops.
pub open spec fn pass_limit(p: ProceduresConfigView) -> u32 {
    (match p.config.iterations {
        Some(n) => n,
        None => 1usize,
    }) as u32
}

/// One tick: the next procedure, state, and codes to send.
pub open spec fn tick_result(
    proc: Option<ProceduresConfigView>,
    state: RunnerState,
    reg: Seq<ActuatorView>,
    now_ms: u64,
) -> (Option<ProceduresConfigView>, RunnerState, Seq<u8>) {
    match proc {
        None => (proc, state, seq![]),
        Some(p) => match state {
            RunnerState::Idle => (proc, state, seq![]),
            RunnerState::Initalizing => (
                proc,
                RunnerState::Running {
                    phase_idx: 0,
                    iteration: 0,
                    phase_start: (now_ms - HEAD_START_MS) as i128,
                },
                active_codes(reg),
            ),
            RunnerState::Running { phase_idx, iteration, phase_start } => {
                if elapsed_secs(now_ms, phase_start) >= p.phases[phase_idx as int].duration_sec {
                    let wraps = phase_idx + 1 >= p.phases.len();
                    let next_idx: usize = if wraps { 0 } else { (phase_idx + 1) as usize };
                    let next_iter: u32 = if wraps { (iteration + 1) as u32 } else { iteration };
                    if wraps && (!p.config.loop_enabled || next_iter >= pass_limit(p)) {
                        (None, RunnerState::Idle, seq![])
                    } else {
                        (
                            proc,
                            RunnerState::Running {
                                phase_idx: next_idx,
                                iteration: next_iter,
                                phase_start: now_ms as i128,
                            },
                            activation_codes(reg, p.phases[next_idx as int].actuators),
                        )
                    }
                } else {
                    (proc, state, seq![])
                }
            },
        },
    }
}

impl ProcedureRunner {
    /// The procedure being run, if any.
    pub closed spec fn procedure(&self) -> Option<ProceduresConfigView> {
        match self.active_procedure {
            Some(p) => Some(p@),
            None => None,
        }
    }

    pub closed spec fn state(&self) -> RunnerState {
        self.state
    }

    /// The state is one that `tick` can work from.
    pub open spec fn wf(&self) -> bool {
        match self.state() {
            RunnerState::Idle => true,
            RunnerState::Initalizing => self.procedure() matches Some(p) && p.phases.len()
                <= usize::MAX,
            RunnerState::Running { phase_idx, iteration, phase_start } => {
                &&& self.procedure() matches Some(p)
                &&& phase_idx < p.phases.len() <= usize::MAX
                &&& iteration == 0 || (p.config.loop_enabled && iteration < pass_limit(p))
                &&& -HEAD_START_MS <= phase_start <= u64::MAX
            },
        }
    }

    /// A runner with nothing to run.
    pub fn new() -> (r: Self)
        ensures
            r.procedure() is None,
            r.state() == RunnerState::Idle,
            r.wf(),
    {
        ProcedureRunner { active_procedure: None, state: RunnerState::Idle }
    }

    /// Takes `procedure` on; the next tick switches every active actuator off
    /// and starts its first phase.
    pub fn start(&mut self, procedure: ProceduresConfig)
        ensures
            final(self).procedure() == Some(procedure@),
            final(self).state() == RunnerState::Initalizing,
            final(self).running(),
            final(self).wf(),
    {
        assert(procedure.phases.len() <= usize::MAX);
        assert(procedure@.phases.len() == procedure.phases@.len());
        self.active_procedure = Some(procedure);
        self.state = RunnerState::Initalizing;
    }

    /// Drops the procedure and goes idle.
    pub fn stop(&mut self)
        ensures
            final(self).procedure() is None,
            final(self).state() == RunnerState::Idle,
            final(self).wf(),
    {
        self.active_procedure = None;
        self.state = RunnerState::Idle;
    }

    /// A procedure is being initialised or run.
    pub open spec fn running(&self) -> bool {
        self.state() matches RunnerState::Initalizing || self.state() matches RunnerState::Running {
            ..
        }
    }

    /// True while a procedure is being initialised or run.
    pub fn is_running(&self) -> (b: bool)
        ensures
            b == self.running(),
    {
        match self.state {
            RunnerState::Initalizing => true,
            RunnerState::Running { .. } => true,
            RunnerState::Idle => false,
        }
    }

    /// Advances the runner to `now_ms` (milliseconds on a monotonic clock)
    /// and returns the actuator codes to send: on the first tick, those of
    /// every active actuator; when a phase has lasted its duration, those of
    /// the next phase's actuators that are not active yet. After the last
    /// phase of the last pass the runner stops. A procedure without phases
    /// gets its first tick only: the next one would read a phase it lacks.
    pub fn tick(&mut self, register: &ActuatorsRegister, now_ms: u64) -> (codes: Vec<u8>)
        requires
            old(self).wf(),
        ensures
            final(self).wf() || (old(self).state() == RunnerState::Initalizing && (old(
                self,
            ).procedure() matches Some(p) && p.phases.len() == 0)),
            (final(self).procedure(), final(self).state(), codes@) == tick_result(
                old(self).procedure(),
                old(self).state(),
                register@,
                now_ms,
            ),
    {
        let mut commands_to_send: Vec<u8> = Vec::new();
        let procedure = match &self.active_procedure {
            Some(p) => p,
            None => return commands_to_send,
        };
        match self.state {
            RunnerState::Idle => {},
            RunnerState::Initalizing => {
                commands_to_send = reset_codes(register);
                self.state = RunnerState::Running {
                    phase_idx: 0,
                    iteration: 0,
                    phase_start: now_ms as i128 - HEAD_START_MS,
                };
            },
            RunnerState::Running { phase_idx, iteration, phase_start } => {
                let ghost p = procedure@;
                assert(self.procedure() == Some(p));
                let phase_count = procedure.phases.len();
                assert(p.phases[phase_idx as int] == procedure.phases@[phase_idx as int]@);
                assert(p.phases.len() == procedure.phases@.len());
                let current_phase = &procedure.phases[phase_idx];
                let diff: i128 = now_ms as i128 - phase_start;
                let elapsed: i128 = if diff <= 0 {
                    0
                } else {
                    diff / 1000
                };
                if elapsed >= current_phase.duration_sec as i128 {
                    let mut next_idx = phase_idx + 1;
                    let mut next_iter = iteration;
                    if next_idx >= phase_count {
                        next_idx = 0;
                        next_iter = iteration + 1;
                        let limit: usize = match procedure.config.iterations {
                            Some(n) => n,
                            None => 1,
                        };
                        let iter: u32 = #[verifier::truncate] (limit as u32);
                        if !procedure.config.loop_enabled || next_iter >= iter {
                            self.stop();
                            return commands_to_send;
                        }
                    }
                    assert(p.phases[next_idx as int] == procedure.phases@[next_idx as int]@);
                    let next_phase = &procedure.phases[next_idx];
                    commands_to_send = activation_codes_exec(register, next_phase);
                    self.state = RunnerState::Running {
                        phase_idx: next_idx,
                        iteration: next_iter,
                        phase_start: now_ms as i128,
                    };
                }
            },
        }
        commands_to_send
    }
}

/// Codes of the active actuators, in register order.
fn reset_codes(register: &ActuatorsRegister) -> (codes: Vec<u8>)
    ensures
        codes@ == active_codes(register@),
{
    let mut codes: Vec<u8> = Vec::new();
    let n = register.items.len();
    for i in 0..n
        invariant
            n == register@.len(),
            codes@ == active_codes(register@.take(i as int)),
    {
        let item = &register.items[i];
        assert(register@.take(i + 1).drop_last() =~= register@.take(i as int));
        assert(register@.take(i + 1).last() == item@);
        if item.is_active {
            codes.push(item.code);
        }
    }
    assert(register@.take(n as int) =~= register@);
    codes
}

/// Codes of the actuators that `phase` lists and that are not active yet.
fn activation_codes_exec(register: &ActuatorsRegister, phase: &crate::config::Phase) -> (codes: Vec<
    u8,
>)
    ensures
        codes@ == activation_codes(register@, phase@.actuators),
{
    let mut codes: Vec<u8> = Vec::new();
    let ghost names = phase@.actuators;
    let n = phase.actuators.len();
    for i in 0..n
        invariant
            n == names.len(),
            names == phase@.actuators,
            codes@ == activation_codes(register@, names.take(i as int)),
    {
        let target = &phase.actuators[i];
        assert(names.take(i + 1).drop_last() =~= names.take(i as int));
        assert(names.take(i + 1).last() == target@);
        match register.position_of_name(&target.name) {
            Some(j) => {
                if !register.items[j].is_active {
                    codes.push(register.items[j].code);
                }
            },
            None => {},
        }
    }
    assert(names.take(n as int) =~= names);
    codes
}

/// The procedure, state and last codes after `k` ticks from `proc` and
/// `state`; tick `j` happens at `nows(j)` against the register `regs(j)`.
pub open spec fn after_ticks(
    proc: Option<ProceduresConfigView>,
    state: RunnerState,
    regs: spec_fn(nat) -> Seq<ActuatorView>,
    nows: spec_fn(nat) -> u64,
    k: nat,
) -> (Option<ProceduresConfigView>, RunnerState, Seq<u8>)
    decreases k,
{
    if k == 0 {
        (proc, state, seq![])
    } else {
        let prev = after_ticks(proc, state, regs, nows, (k - 1) as nat);
        tick_result(prev.0, prev.1, regs((k - 1) as nat), nows((k - 1) as nat))
    }
}

/// How many passes over its phases a procedure makes.
pub open spec fn pass_count(p: ProceduresConfigView) -> int {
    if p.config.loop_enabled && pass_limit(p) >= 1 {
        pass_limit(p) as int
    } else {
        1
    }
}

/// Every phase of `p` lasts zero seconds.
pub open spec fn instant_phases(p: ProceduresConfigView) -> bool {
    forall|k: int| 0 <= k < p.phases.len() ==> #[trigger] p.phases[k].duration_sec == 0
}

proof fn lemma_running_after(
    p: ProceduresConfigView,
    regs: spec_fn(nat) -> Seq<ActuatorView>,
    nows: spec_fn(nat) -> u64,
    j: nat,
)
    requires
        0 < p.phases.len() <= usize::MAX,
        instant_phases(p),
        j < pass_count(p) * p.phases.len(),
    ensures
        ({
            let r = after_ticks(Some(p), RunnerState::Initalizing, regs, nows, j + 1);
            &&& r.0 == Some(p)
            &&& r.1 matches RunnerState::Running { phase_idx, iteration, .. } && phase_idx == (j as int)
                % (p.phases.len() as int) && iteration == (j as int) / (p.phases.len() as int)
        }),
    decreases j,
{
    let m = p.phases.len() as int;
    let n = pass_count(p);
    if j == 0 {
        vstd::arithmetic::div_mod::lemma_fundamental_div_mod_converse(0, m, 0, 0);
        assert(after_ticks(Some(p), RunnerState::Initalizing, regs, nows, 0) == (
            Some(p),
            RunnerState::Initalizing,
            Seq::<u8>::empty(),
        ));
    } else {
        let i = (j - 1) as nat;
        lemma_running_after(p, regs, nows, i);
        let prev = after_ticks(Some(p), RunnerState::Initalizing, regs, nows, j);
        let pi = i as int % m;
        let it = i as int / m;
        vstd::arithmetic::div_mod::lemma_fundamental_div_mod(i as int, m);
        assert(it >= 0) by (nonlinear_arith)
            requires
                i as int == m * it + pi,
                0 <= pi < m,
        ;
        assert(p.phases[pi].duration_sec == 0);
        if pi + 1 < m {
            vstd::arithmetic::div_mod::lemma_fundamental_div_mod_converse(j as int, m, it, pi + 1);
        } else {
            assert(j as int == (it + 1) * m + 0) by (nonlinear_arith)
                requires
                    i as int == m * it + pi,
                    pi + 1 == m,
                    j == i + 1,
            ;
            vstd::arithmetic::div_mod::lemma_fundamental_div_mod_converse(j as int, m, it + 1, 0);
            assert(it + 1 < n) by (nonlinear_arith)
                requires
                    j as int == (it + 1) * m,
                    j < n * m,
                    m > 0,
            ;
        }
    }
}

/// With zero-length phases, a started runner keeps running for
/// `pass_count(p) * phases` ticks, on the next tick stops and asks for
/// nothing, and stays stopped on every later tick.
pub proof fn lemma_run_length(
    p: ProceduresConfigView,
    regs: spec_fn(nat) -> Seq<ActuatorView>,
    nows: spec_fn(nat) -> u64,
    k: nat,
)
    requires
        0 < p.phases.len() <= usize::MAX,
        instant_phases(p),
    ensures
        1 <= k <= pass_count(p) * p.phases.len() ==> {
            let r = after_ticks(Some(p), RunnerState::Initalizing, regs, nows, k);
            &&& r.0 == Some(p)
            &&& r.1 matches RunnerState::Running { .. }
        },
        k > pass_count(p) * p.phases.len() ==> after_ticks(
            Some(p),
            RunnerState::Initalizing,
            regs,
            nows,
            k,
        ) == (None::<ProceduresConfigView>, RunnerState::Idle, Seq::<u8>::empty()),
    decreases k,
{
    let m = p.phases.len() as int;
    let n = pass_count(p);
    let total = n * m;
    assert(total >= m) by (nonlinear_arith)
        requires
            total == n * m,
            n >= 1,
            m > 0,
    ;
    if 1 <= k <= total {
        lemma_running_after(p, regs, nows, (k - 1) as nat);
    } else if k == total + 1 {
        let j = (total - 1) as nat;
        lemma_running_after(p, regs, nows, j);
        assert(j as int == (n - 1) * m + (m - 1)) by (nonlinear_arith)
            requires
                j == total - 1,
                total == n * m,
        ;
        vstd::arithmetic::div_mod::lemma_fundamental_div_mod_converse(j as int, m, n - 1, m - 1);
        assert(p.phases[m - 1].duration_sec == 0);
    } else if k > total + 1 {
        lemma_run_length(p, regs, nows, (k - 1) as nat);
    }
}

proof fn lemma_activation_codes_filter_map(
    s: Seq<ActuatorView>,
    names: Seq<Seq<char>>,
    f: spec_fn(Seq<char>) -> Option<u8>,
)
    requires
        forall|n: Seq<char>|
            #[trigger] f(n) == match find_first(s, with_name(n)) {
                Some(i) => if !s[i].is_active {
                    Some(s[i].code)
                } else {
                    None
                },
                None => None,
            },
    ensures
        activation_codes(s, names) == names.filter_map(f),
    decreases names.len(),
{
    if names.len() > 0 {
        lemma_activation_codes_filter_map(s, names.drop_last(), f);
        let x = names.last();
        let rest = names.drop_last().filter_map(f);
        assert(f(x) == match find_first(s, with_name(x)) {
            Some(i) => if !s[i].is_active {
                Some(s[i].code)
            } else {
                None
            },
            None => None,
        });
        match f(x) {
            Some(c) => {
                assert(rest + seq![c] =~= rest.push(c));
            },
            None => {},
        }
    }
}

proof fn lemma_filter_map_keeps<A, B>(xs: Seq<A>, f: spec_fn(A) -> Option<B>, k: int)
    requires
        0 <= k < xs.len(),
        f(xs[k]) is Some,
    ensures
        xs.filter_map(f).contains(f(xs[k])->Some_0),
    decreases xs.len(),
{
    let rest = xs.drop_last();
    if k == xs.len() - 1 {
        let out = xs.filter_map(f);
        assert(out == rest.filter_map(f) + seq![f(xs[k])->Some_0]);
        assert(out[out.len() - 1] == f(xs[k])->Some_0);
    } else {
        assert(rest[k] == xs[k]);
        lemma_filter_map_keeps(rest, f, k);
        let inner = rest.filter_map(f);
        let j = choose|j: int| 0 <= j < inner.len() && inner[j] == f(xs[k])->Some_0;
        match f(xs.last()) {
            Some(b) => {
                assert((inner + seq![b])[j] == inner[j]);
            },
            None => {},
        }
    }
}

/// The codes sent when a phase is entered are, for each actuator the phase
/// names, in the phase's order, the code of the first register entry with
/// that name when that entry is off; names that are missing or whose entry
/// is already on give nothing. In particular the code of every named
/// inactive actuator is among them, and every code among them is one.
pub proof fn lemma_activation_codes_are_the_inactive_named(
    s: Seq<ActuatorView>,
    names: Seq<Seq<char>>,
)
    ensures
        activation_codes(s, names) == names.filter_map(
            |n: Seq<char>|
                match find_first(s, with_name(n)) {
                    Some(i) => if !s[i].is_active {
                        Some(s[i].code)
                    } else {
                        None
                    },
                    None => None,
                },
        ),
        forall|k: int, i: int|
            #![trigger find_first(s, with_name(names[k])), s[i]]
            0 <= k < names.len() && find_first(s, with_name(names[k])) == Some(i)
                && !s[i].is_active ==> activation_codes(s, names).contains(s[i].code),
        forall|c: u8|
            #[trigger] activation_codes(s, names).contains(c) ==> exists|k: int, i: int|
                #![trigger find_first(s, with_name(names[k])), s[i]]
                0 <= k < names.len() && find_first(s, with_name(names[k])) == Some(i)
                    && !s[i].is_active && s[i].code == c,
{
    let f = |n: Seq<char>|
        match find_first(s, with_name(n)) {
            Some(i) => if !s[i].is_active {
                Some(s[i].code)
            } else {
                None
            },
            None => None,
        };
    lemma_activation_codes_filter_map(s, names, f);
    let r = activation_codes(s, names);
    assert forall|k: int, i: int|
        #![trigger find_first(s, with_name(names[k])), s[i]]
        0 <= k < names.len() && find_first(s, with_name(names[k])) == Some(i)
            && !s[i].is_active implies r.contains(s[i].code) by {
        crate::seq_search::lemma_find_first_some(s, with_name(names[k]));
        assert(f(names[k]) == Some(s[i].code));
        lemma_filter_map_keeps(names, f, k);
    }
    assert forall|c: u8| #[trigger] r.contains(c) implies exists|k: int, i: int|
        #![trigger find_first(s, with_name(names[k])), s[i]]
        0 <= k < names.len() && find_first(s, with_name(names[k])) == Some(i)
            && !s[i].is_active && s[i].code == c by {
        names.lemma_filter_map_contains(f, c);
        let n = choose|n: Seq<char>| names.contains(n) && f(n) == Some(c);
        let k = choose|k: int| 0 <= k < names.len() && names[k] == n;
        let i = find_first(s, with_name(n))->Some_0;
        assert(find_first(s, with_name(names[k])) == Some(i));
        assert(s[i].code == c);
    }
}

/// A tick that moves a running procedure into a phase (the next phase of
/// the pass, or the first phase of a new pass) returns the codes of that
/// phase's named actuators that are off, in the phase's order, whatever
/// the phase; a tick that leaves the runner where it was returns nothing.
pub proof fn lemma_entering_a_phase_switches_on_its_actuators(
    p: ProceduresConfigView,
    reg: Seq<ActuatorView>,
    now_ms: u64,
    phase_idx: usize,
    iteration: u32,
    phase_start: i128,
)
    requires
        phase_idx < p.phases.len() <= usize::MAX,
    ensures
        ({
            let old_state = RunnerState::Running { phase_idx, iteration, phase_start };
            let r = tick_result(Some(p), old_state, reg, now_ms);
            &&& r.1 == old_state ==> r.2 == Seq::<u8>::empty()
            &&& (r.0 is Some && r.1 != old_state) ==> (r.1 matches RunnerState::Running {
                phase_idx: k,
                ..
            } && 0 <= k < p.phases.len() && r.2 == p.phases[k as int].actuators.filter_map(
                |n: Seq<char>|
                    match find_first(reg, with_name(n)) {
                        Some(i) => if !reg[i].is_active {
                            Some(reg[i].code)
                        } else {
                            None
                        },
                        None => None,
                    },
            ))
        }),
{
    let old_state = RunnerState::Running { phase_idx, iteration, phase_start };
    let r = tick_result(Some(p), old_state, reg, now_ms);
    if r.0 is Some && r.1 != old_state {
        if let RunnerState::Running { phase_idx: k, .. } = r.1 {
            lemma_activation_codes_are_the_inactive_named(reg, p.phases[k as int].actuators);
        }
    }
}

/// How many passes a procedure makes, from its configuration alone: the
/// configured count (as the runner reads it, a `u32`) when looping with a
/// count of at least one, and one otherwise: without looping, without a
/// count, or with a count of zero.
pub open spec fn passes_configured(c: RunConfig) -> int {
    if c.loop_enabled {
        match c.iterations {
            Some(n) => if (n as u32) >= 1 {
                (n as u32) as int
            } else {
                1
            },
            None => 1,
        }
    } else {
        1
    }
}

/// With zero-length phases, a started runner keeps running for exactly
/// `passes_configured(p.config) * phases` ticks and then stops; so a
/// looping procedure without an iteration count makes a single pass.
pub proof fn lemma_run_length_follows_configuration(
    p: ProceduresConfigView,
    regs: spec_fn(nat) -> Seq<ActuatorView>,
    nows: spec_fn(nat) -> u64,
    k: nat,
)
    requires
        0 < p.phases.len() <= usize::MAX,
        instant_phases(p),
    ensures
        pass_count(p) == passes_configured(p.config),
        passes_configured(p.config) == (if p.config.loop_enabled && (spec_iteration_count(
            p.config,
        ) as u32) >= 1 {
            (spec_iteration_count(p.config) as u32) as int
        } else {
            1
        }),
        1 <= k <= passes_configured(p.config) * p.phases.len() ==> {
            let r = after_ticks(Some(p), RunnerState::Initalizing, regs, nows, k);
            &&& r.0 == Some(p)
            &&& r.1 matches RunnerState::Running { .. }
        },
        k > passes_configured(p.config) * p.phases.len() ==> after_ticks(
            Some(p),
            RunnerState::Initalizing,
            regs,
            nows,
            k,
        ) == (None::<ProceduresConfigView>, RunnerState::Idle, Seq::<u8>::empty()),
{
    lemma_run_length(p, regs, nows, k);
}

} // verus!

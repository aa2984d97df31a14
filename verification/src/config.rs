//! Configuration model: actuator sections, test procedures, and the
//! register of actuator states that the serial link keeps up to date.
use vstd::prelude::*;

use crate::gui::pages::serial_control::SerialCommand;
use crate::seq_search::{
    find_first, is_first_match, lemma_find_first_at, lemma_find_first_none,
    lemma_find_first_same_matches,
};

verus! {

/// One actuator button: its label, the byte that toggles it on the
/// controller, and whether the controller last confirmed it as active.
pub struct Actuator {
    pub name: String,
    pub code: u8,
    pub is_active: bool,
}

pub struct ActuatorView {
    pub name: Seq<char>,
    pub code: u8,
    pub is_active: bool,
}

impl View for Actuator {
    type V = ActuatorView;

    open spec fn view(&self) -> ActuatorView {
        ActuatorView { name: self.name@, code: self.code, is_active: self.is_active }
    }
}

impl Clone for Actuator {
    fn clone(&self) -> (res: Self)
        ensures
            res@ == self@,
    {
        Actuator { name: self.name.clone(), code: self.code, is_active: self.is_active }
    }
}

pub open spec fn actuators_view(s: Seq<Actuator>) -> Seq<ActuatorView> {
    s.map_values(|a: Actuator| a@)
}

/// A named section of actuator buttons.
pub struct ActuatorsConfig {
    pub module: String,
    pub buttons: Vec<Actuator>,
}

pub struct ActuatorsConfigView {
    pub module: Seq<char>,
    pub buttons: Seq<ActuatorView>,
}

impl View for ActuatorsConfig {
    type V = ActuatorsConfigView;

    open spec fn view(&self) -> ActuatorsConfigView {
        ActuatorsConfigView { module: self.module@, buttons: actuators_view(self.buttons@) }
    }
}

impl Clone for ActuatorsConfig {
    fn clone(&self) -> (res: Self)
        ensures
            res@ == self@,
    {
        let buttons = self.buttons.clone();
        assert(actuators_view(buttons@) =~= actuators_view(self.buttons@));
        ActuatorsConfig { module: self.module.clone(), buttons }
    }
}

pub open spec fn sections_view(s: Seq<ActuatorsConfig>) -> Seq<ActuatorsConfigView> {
    s.map_values(|m: ActuatorsConfig| m@)
}

/// Looping policy of a procedure.
#[derive(Clone, Copy)]
pub struct RunConfig {
    pub loop_enabled: bool,
    pub iterations: Option<usize>,
}

/// An actuator that a phase switches on, named as in the actuator sections.
pub struct PhaseActuator {
    pub name: String,
}

impl View for PhaseActuator {
    type V = Seq<char>;

    open spec fn view(&self) -> Seq<char> {
        self.name@
    }
}

impl Clone for PhaseActuator {
    fn clone(&self) -> (res: Self)
        ensures
            res@ == self@,
    {
        PhaseActuator { name: self.name.clone() }
    }
}

/// One timed phase of a procedure.
pub struct Phase {
    pub name: String,
    pub duration_sec: u64,
    pub actuators: Vec<PhaseActuator>,
}

pub struct PhaseView {
    pub name: Seq<char>,
    pub duration_sec: u64,
    pub actuators: Seq<Seq<char>>,
}

impl View for Phase {
    type V = PhaseView;

    open spec fn view(&self) -> PhaseView {
        PhaseView {
            name: self.name@,
            duration_sec: self.duration_sec,
            actuators: self.actuators@.map_values(|a: PhaseActuator| a@),
        }
    }
}

impl Clone for Phase {
    fn clone(&self) -> (res: Self)
        ensures
            res@ == self@,
    {
        let actuators = self.actuators.clone();
        assert(actuators@.map_values(|a: PhaseActuator| a@) =~= self.actuators@.map_values(
            |a: PhaseActuator| a@,
        ));
        Phase { name: self.name.clone(), duration_sec: self.duration_sec, actuators }
    }
}

/// A test procedure: a list of phases, run once or in a loop.
pub struct ProceduresConfig {
    pub name: String,
    pub config: RunConfig,
    pub phases: Vec<Phase>,
}

pub struct ProceduresConfigView {
    pub name: Seq<char>,
    pub config: RunConfig,
    pub phases: Seq<PhaseView>,
}

impl View for ProceduresConfig {
    type V = ProceduresConfigView;

    open spec fn view(&self) -> ProceduresConfigView {
        ProceduresConfigView {
            name: self.name@,
            config: self.config,
            phases: self.phases@.map_values(|p: Phase| p@),
        }
    }
}

impl Clone for ProceduresConfig {
    fn clone(&self) -> (res: Self)
        ensures
            res@ == self@,
    {
        let phases = self.phases.clone();
        assert(phases@.map_values(|p: Phase| p@) =~= self.phases@.map_values(|p: Phase| p@));
        ProceduresConfig { name: self.name.clone(), config: self.config, phases }
    }
}

pub open spec fn procedures_view(s: Seq<ProceduresConfig>) -> Seq<ProceduresConfigView> {
    s.map_values(|p: ProceduresConfig| p@)
}

/// The whole application configuration.
pub struct AppConfig {
    pub actuators: Vec<ActuatorsConfig>,
    pub procedures: Vec<ProceduresConfig>,
}

impl Clone for AppConfig {
    fn clone(&self) -> (res: Self)
        ensures
            sections_view(res.actuators@) == sections_view(self.actuators@),
            procedures_view(res.procedures@) == procedures_view(self.procedures@),
    {
        let actuators = self.actuators.clone();
        let procedures = self.procedures.clone();
        assert(sections_view(actuators@) =~= sections_view(self.actuators@));
        assert(procedures_view(procedures@) =~= procedures_view(self.procedures@));
        AppConfig { actuators, procedures }
    }
}

/// An actuator as it enters the register: confirmed state cleared.
pub open spec fn inactive(a: ActuatorView) -> ActuatorView {
    ActuatorView { is_active: false, ..a }
}

/// Every actuator of `s`, with its state cleared.
pub open spec fn all_inactive(s: Seq<ActuatorView>) -> Seq<ActuatorView> {
    s.map_values(|a: ActuatorView| inactive(a))
}

/// All buttons of all sections, in order, with their state cleared.
pub open spec fn flat_actuators(sections: Seq<ActuatorsConfigView>) -> Seq<ActuatorView>
    decreases sections.len(),
{
    if sections.len() == 0 {
        seq![]
    } else {
        flat_actuators(sections.drop_last()) + all_inactive(sections.last().buttons)
    }
}

impl AppConfig {
    /// An empty configuration.
    pub fn new() -> (res: Self)
        ensures
            res.actuators@.len() == 0,
            res.procedures@.len() == 0,
    {
        AppConfig { actuators: Vec::new(), procedures: Vec::new() }
    }

    /// Every actuator of every section, in order, each marked inactive.
    pub fn actuators_flat(&self) -> (res: Vec<Actuator>)
        ensures
            actuators_view(res@) == flat_actuators(sections_view(self.actuators@)),
    {
        let mut res: Vec<Actuator> = Vec::new();
        let n = self.actuators.len();
        for i in 0..n
            invariant
                n == self.actuators@.len(),
                actuators_view(res@) == flat_actuators(
                    sections_view(self.actuators@).take(i as int),
                ),
        {
            let module = &self.actuators[i];
            let ghost before = actuators_view(res@);
            let m = module.buttons.len();
            for j in 0..m
                invariant
                    m == module.buttons@.len(),
                    actuators_view(res@) == before + all_inactive(
                        actuators_view(module.buttons@).take(j as int),
                    ),
            {
                let btn = &module.buttons[j];
                let ghost prev = res@;
                res.push(Actuator { name: btn.name.clone(), code: btn.code, is_active: false });
                assert(actuators_view(res@) =~= actuators_view(prev).push(inactive(btn@)));
                assert(actuators_view(module.buttons@).take(j + 1) =~= actuators_view(
                    module.buttons@,
                ).take(j as int).push(btn@));
                assert(actuators_view(res@) =~= before + all_inactive(
                    actuators_view(module.buttons@).take(j + 1),
                ));
            }
            let ghost secs = sections_view(self.actuators@);
            assert(secs.take(i + 1).drop_last() =~= secs.take(i as int));
            assert(actuators_view(module.buttons@).take(m as int) =~= actuators_view(
                module.buttons@,
            ));
            assert(secs.take(i + 1).last() == module@);
        }
        assert(sections_view(self.actuators@).take(n as int) =~= sections_view(self.actuators@));
        res
    }
}

/// Register of actuator states, one entry per configured actuator.
pub struct ActuatorsRegister {
    pub items: Vec<Actuator>,
}

impl View for ActuatorsRegister {
    type V = Seq<ActuatorView>;

    open spec fn view(&self) -> Seq<ActuatorView> {
        actuators_view(self.items@)
    }
}

pub open spec fn with_code(code: u8) -> spec_fn(ActuatorView) -> bool {
    |a: ActuatorView| a.code == code
}

pub open spec fn with_name(name: Seq<char>) -> spec_fn(ActuatorView) -> bool {
    |a: ActuatorView| a.name == name
}

pub open spec fn flipped(a: ActuatorView) -> ActuatorView {
    ActuatorView { is_active: !a.is_active, ..a }
}

/// The register after the first actuator with `code` has its state flipped.
pub open spec fn toggled(s: Seq<ActuatorView>, code: u8) -> Seq<ActuatorView> {
    match find_first(s, with_code(code)) {
        Some(i) => s.update(i, flipped(s[i])),
        None => s,
    }
}

/// Codes of the active actuators, in register order.
pub open spec fn active_codes(s: Seq<ActuatorView>) -> Seq<u8>
    decreases s.len(),
{
    if s.len() == 0 {
        seq![]
    } else if s.last().is_active {
        active_codes(s.drop_last()).push(s.last().code)
    } else {
        active_codes(s.drop_last())
    }
}

/// One toggle request per code, in order.
pub open spec fn toggle_commands(codes: Seq<u8>) -> Seq<SerialCommand> {
    codes.map_values(|c: u8| SerialCommand::TogglePeripheral(c))
}

/// The request that switches on the first actuator called `name`: its
/// toggle when it is off, nothing when it is already on or when no actuator
/// has that name.
pub open spec fn activation_for_name(s: Seq<ActuatorView>, name: Seq<char>) -> Option<
    SerialCommand,
> {
    match find_first(s, with_name(name)) {
        Some(i) => if s[i].is_active {
            None
        } else {
            Some(SerialCommand::TogglePeripheral(s[i].code))
        },
        None => None,
    }
}

impl ActuatorsRegister {
    /// A register holding every configured actuator, all inactive.
    pub fn from_config(config: &AppConfig) -> (res: Self)
        ensures
            res@ == flat_actuators(sections_view(config.actuators@)),
    {
        ActuatorsRegister { items: config.actuators_flat() }
    }

    /// Flips the state of the first actuator whose code is `code`; no change
    /// when none has it.
    pub fn toggle_state(&mut self, code: u8)
        ensures
            final(self)@ == toggled(old(self)@, code),
    {
        let n = self.items.len();
        let mut i: usize = 0;
        while i < n
            invariant
                n == self.items@.len(),
                self == old(self),
                i <= n,
                forall|j: int| 0 <= j < i ==> !with_code(code)(#[trigger] self@[j]),
            decreases n - i,
        {
            if self.items[i].code == code {
                proof {
                    lemma_find_first_at(self@, with_code(code), i as int);
                }
                let old_item = &self.items[i];
                let item = Actuator {
                    name: old_item.name.clone(),
                    code: old_item.code,
                    is_active: !old_item.is_active,
                };
                self.items.set(i, item);
                assert(self@ =~= toggled(old(self)@, code));
                return;
            }
            i = i + 1;
        }
        proof {
            lemma_find_first_none(self@, with_code(code));
        }
    }

    /// One toggle request for every active actuator, in register order:
    /// once each is confirmed, every actuator is off.
    pub fn reset_all(&self) -> (cmds: Vec<SerialCommand>)
        ensures
            cmds@ == toggle_commands(active_codes(self@)),
    {
        let mut cmds: Vec<SerialCommand> = Vec::new();
        let n = self.items.len();
        for i in 0..n
            invariant
                n == self@.len(),
                cmds@ == toggle_commands(active_codes(self@.take(i as int))),
        {
            let item = &self.items[i];
            assert(self@.take(i + 1).drop_last() =~= self@.take(i as int));
            assert(self@.take(i + 1).last() == item@);
            if item.is_active {
                cmds.push(SerialCommand::TogglePeripheral(item.code));
            }
            assert(cmds@ =~= toggle_commands(active_codes(self@.take(i + 1))));
        }
        assert(self@.take(n as int) =~= self@);
        cmds
    }

    /// Whether the first actuator with `code` is active; false when no
    /// actuator has that code.
    pub fn active_by_code(&self, code: u8) -> (b: bool)
        ensures
            b == match find_first(self@, with_code(code)) {
                Some(i) => self@[i].is_active,
                None => false,
            },
    {
        let n = self.items.len();
        let mut i: usize = 0;
        while i < n
            invariant
                n == self@.len(),
                i <= n,
                forall|j: int| 0 <= j < i ==> !with_code(code)(#[trigger] self@[j]),
            decreases n - i,
        {
            if self.items[i].code == code {
                proof {
                    lemma_find_first_at(self@, with_code(code), i as int);
                }
                return self.items[i].is_active;
            }
            i = i + 1;
        }
        proof {
            lemma_find_first_none(self@, with_code(code));
        }
        false
    }

    /// Index of the first actuator called `name`.
    pub fn position_of_name(&self, name: &String) -> (pos: Option<usize>)
        ensures
            pos matches Some(i) ==> i < self.items@.len(),
            match pos {
                Some(i) => find_first(self@, with_name(name@)) == Some(i as int),
                None => find_first(self@, with_name(name@)) is None,
            },
    {
        let n = self.items.len();
        let mut i: usize = 0;
        while i < n
            invariant
                n == self@.len(),
                i <= n,
                forall|j: int| 0 <= j < i ==> !with_name(name@)(#[trigger] self@[j]),
            decreases n - i,
        {
            if self.items[i].name == *name {
                proof {
                    lemma_find_first_at(self@, with_name(name@), i as int);
                }
                return Some(i);
            }
            i = i + 1;
        }
        proof {
            lemma_find_first_none(self@, with_name(name@));
        }
        None
    }

    /// The request that switches on the first actuator called `name`: its
    /// toggle when it is off; `None` when it is already on or when no
    /// actuator has that name.
    pub fn set_active_by_name(&self, name: &String) -> (cmd: Option<SerialCommand>)
        ensures
            cmd == activation_for_name(self@, name@),
    {
        match self.position_of_name(name) {
            Some(i) => {
                if self.items[i].is_active {
                    None
                } else {
                    Some(SerialCommand::TogglePeripheral(self.items[i].code))
                }
            },
            None => None,
        }
    }

    /// The register as it stands once every actuator has been switched off.
    pub fn after_reset(&self) -> (r: ActuatorsRegister)
        ensures
            r@ == all_inactive(self@),
    {
        let mut items: Vec<Actuator> = Vec::new();
        let n = self.items.len();
        for i in 0..n
            invariant
                n == self@.len(),
                actuators_view(items@) == all_inactive(self@.take(i as int)),
        {
            let item = &self.items[i];
            let ghost prev = items@;
            items.push(Actuator { name: item.name.clone(), code: item.code, is_active: false });
            assert(actuators_view(items@) =~= actuators_view(prev).push(inactive(item@)));
            assert(self@.take(i + 1) =~= self@.take(i as int).push(item@));
            assert(all_inactive(self@.take(i + 1)) =~= all_inactive(self@.take(i as int)).push(
                inactive(item@),
            ));
        }
        assert(self@.take(n as int) =~= self@);
        ActuatorsRegister { items }
    }
}

/// No two actuators of the register share a code.
pub open spec fn distinct_codes(s: Seq<ActuatorView>) -> bool {
    forall|i: int, j: int| 0 <= i < j < s.len() ==> #[trigger] s[i].code != #[trigger] s[j].code
}

/// The register after the serial link has confirmed a toggle for each code,
/// in order.
pub open spec fn apply_toggles(s: Seq<ActuatorView>, codes: Seq<u8>) -> Seq<ActuatorView>
    decreases codes.len(),
{
    if codes.len() == 0 {
        s
    } else {
        toggled(apply_toggles(s, codes.drop_last()), codes.last())
    }
}

/// Confirming the same toggle twice leaves the register as it was.
pub proof fn lemma_toggle_twice(s: Seq<ActuatorView>, code: u8)
    ensures
        toggled(toggled(s, code), code) == s,
{
    let t = toggled(s, code);
    crate::seq_search::lemma_find_first_some(s, with_code(code));
    assert forall|j: int| 0 <= j < s.len() implies with_code(code)(#[trigger] s[j]) == with_code(
        code,
    )(t[j]) by {}
    lemma_find_first_same_matches(s, with_code(code), t, with_code(code));
    if let Some(i) = find_first(s, with_code(code)) {
        assert(toggled(t, code) =~= s);
    }
}

/// The first `k` actuators switched off, the rest untouched.
pub open spec fn cleared_prefix(s: Seq<ActuatorView>, k: int) -> Seq<ActuatorView> {
    Seq::new(s.len(), |j: int| if j < k { inactive(s[j]) } else { s[j] })
}

proof fn lemma_reset_prefix(s: Seq<ActuatorView>, k: int)
    requires
        distinct_codes(s),
        0 <= k <= s.len(),
    ensures
        apply_toggles(s, active_codes(s.take(k))) == cleared_prefix(s, k),
    decreases k,
{
    if k == 0 {
        assert(s.take(0) =~= Seq::<ActuatorView>::empty());
        assert(cleared_prefix(s, 0) =~= s);
    } else {
        lemma_reset_prefix(s, k - 1);
        let prev = cleared_prefix(s, k - 1);
        assert(s.take(k).drop_last() =~= s.take(k - 1));
        assert(s.take(k).last() == s[k - 1]);
        if s[k - 1].is_active {
            let c = s[k - 1].code;
            let codes = active_codes(s.take(k));
            assert(codes.drop_last() =~= active_codes(s.take(k - 1)));
            assert(is_first_match(prev, with_code(c), k - 1)) by {
                assert forall|j: int| 0 <= j < k - 1 implies !with_code(c)(#[trigger] prev[j]) by {
                    assert(s[j].code != s[k - 1].code);
                }
            }
            lemma_find_first_at(prev, with_code(c), k - 1);
            assert(toggled(prev, c) =~= cleared_prefix(s, k));
        } else {
            assert(prev =~= cleared_prefix(s, k));
        }
    }
}

/// When codes are distinct, confirming every toggle that `reset_all`
/// requests switches every actuator off and changes nothing else.
pub proof fn lemma_confirmed_reset_clears_all(s: Seq<ActuatorView>)
    requires
        distinct_codes(s),
    ensures
        apply_toggles(s, active_codes(s)) == all_inactive(s),
{
    lemma_reset_prefix(s, s.len() as int);
    assert(s.take(s.len() as int) =~= s);
    assert(cleared_prefix(s, s.len() as int) =~= all_inactive(s));
}

} // verus!

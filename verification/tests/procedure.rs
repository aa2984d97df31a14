use gravite_hydrotest::config::{
    Actuator, ActuatorsRegister, AppConfig, Phase, PhaseActuator, ProceduresConfig, RunConfig,
};
use gravite_hydrotest::gui::pages::proc_control::{
    after_phase, begin_procedure, running_names, selected_name, start_request, iteration_count, phase_activations, PhaseWait, ProcedureCommand,
    ProcedureRun, ProcedureStatus, RunStep,
};
use gravite_hydrotest::gui::pages::serial_control::SerialCommand;

fn phase(name: &str, secs: u64, acts: &[&str]) -> Phase {
    Phase {
        name: name.to_string(),
        duration_sec: secs,
        actuators: acts.iter().map(|a| PhaseActuator { name: a.to_string() }).collect(),
    }
}

fn procedure(loop_enabled: bool, iterations: Option<usize>, phases: Vec<Phase>) -> ProceduresConfig {
    ProceduresConfig {
        name: "Leak test".to_string(),
        config: RunConfig { loop_enabled, iterations },
        phases,
    }
}

fn config_with(p: ProceduresConfig) -> AppConfig {
    let mut c = AppConfig::new();
    c.procedures.push(p);
    c
}

fn position(step: &RunStep) -> (usize, usize) {
    match step {
        RunStep::Phase(r) => (r.iteration, r.phase_idx),
        _ => panic!("expected a phase"),
    }
}

#[test]
fn iteration_count_rules() {
    assert_eq!(iteration_count(&RunConfig { loop_enabled: false, iterations: Some(5) }), 1);
    assert_eq!(iteration_count(&RunConfig { loop_enabled: true, iterations: Some(5) }), 5);
    assert_eq!(iteration_count(&RunConfig { loop_enabled: true, iterations: None }), 1);
    assert_eq!(iteration_count(&RunConfig { loop_enabled: true, iterations: Some(0) }), 0);
}

#[test]
fn undisturbed_run_visits_every_phase_of_every_pass() {
    let cfg = config_with(procedure(
        true,
        Some(2),
        vec![phase("fill", 1, &[]), phase("hold", 1, &[])],
    ));
    let mut step = begin_procedure(&cfg, 0);
    let mut seen = vec![];
    while let RunStep::Phase(run) = step {
        seen.push(position(&step));
        assert_eq!(run.status(), ProcedureStatus::Running { proc_idx: 0, phase_idx: run.phase_idx });
        step = after_phase(&run, PhaseWait::TimedOut);
    }
    assert_eq!(seen, vec![(0, 0), (0, 1), (1, 0), (1, 1)]);
    assert!(step == RunStep::Finished(ProcedureStatus::Idle));
}

#[test]
fn start_request_during_phase_moves_on() {
    let run = ProcedureRun { proc_idx: 0, iteration: 0, phase_idx: 0, iterations: 1, phase_count: 2 };
    let step = after_phase(&run, PhaseWait::Received(ProcedureCommand::Start(3)));
    assert_eq!(position(&step), (0, 1));
}

#[test]
fn abort_ends_aborted() {
    let run = ProcedureRun { proc_idx: 0, iteration: 1, phase_idx: 1, iterations: 3, phase_count: 2 };
    let step = after_phase(&run, PhaseWait::Received(ProcedureCommand::Abort));
    assert!(step == RunStep::Finished(ProcedureStatus::Aborted));
}

#[test]
fn closed_channel_exits() {
    let run = ProcedureRun { proc_idx: 0, iteration: 0, phase_idx: 0, iterations: 1, phase_count: 1 };
    assert!(after_phase(&run, PhaseWait::ChannelClosed) == RunStep::Exit);
}

#[test]
fn nothing_to_run_finishes_at_once() {
    let no_phases = config_with(procedure(false, None, vec![]));
    assert!(begin_procedure(&no_phases, 0) == RunStep::Finished(ProcedureStatus::Idle));
    let zero_passes = config_with(procedure(true, Some(0), vec![phase("p", 1, &[])]));
    assert!(begin_procedure(&zero_passes, 0) == RunStep::Finished(ProcedureStatus::Idle));
}

#[test]
fn single_pass_when_loop_disabled() {
    let cfg = config_with(procedure(false, Some(9), vec![phase("only", 1, &[])]));
    let step = begin_procedure(&cfg, 0);
    let run = match step {
        RunStep::Phase(r) => r,
        _ => panic!("expected a phase"),
    };
    assert_eq!(run.iterations, 1);
    assert!(after_phase(&run, PhaseWait::TimedOut) == RunStep::Finished(ProcedureStatus::Idle));
}

#[test]
fn activations_follow_phase_order_and_skip_unknown() {
    let reg = ActuatorsRegister {
        items: vec![
            Actuator { name: "Pump".to_string(), code: 7, is_active: false },
            Actuator { name: "Valve".to_string(), code: 9, is_active: true },
        ],
    };
    let cmds = phase_activations(&reg, &phase("p", 1, &["Valve", "Ghost", "Pump"]));
    let codes: Vec<u8> = cmds
        .iter()
        .map(|c| match c {
            SerialCommand::TogglePeripheral(code) => *code,
            _ => panic!("not a toggle"),
        })
        .collect();
    assert_eq!(codes, vec![9, 7]);
}

#[test]
fn confirmed_phase_entry_leaves_exactly_named_actuators_active() {
    let mut reg = ActuatorsRegister {
        items: vec![
            Actuator { name: "Pump".to_string(), code: 1, is_active: true },
            Actuator { name: "Valve".to_string(), code: 2, is_active: false },
            Actuator { name: "Heater".to_string(), code: 3, is_active: true },
        ],
    };
    let resets = reg.reset_all();
    let activations = phase_activations(&reg, &phase("hold", 1, &["Valve", "Heater"]));
    for cmd in resets.iter().chain(activations.iter()) {
        if let SerialCommand::TogglePeripheral(code) = cmd {
            reg.toggle_state(*code);
        }
    }
    let states: Vec<bool> = reg.items.iter().map(|a| a.is_active).collect();
    assert_eq!(states, vec![false, true, true]);
}

#[test]
fn start_request_needs_a_selection() {
    assert_eq!(start_request(None), None);
    assert_eq!(start_request(Some(2)), Some(ProcedureCommand::Start(2)));
}

#[test]
fn names_shown_on_the_procedure_page() {
    let procs = vec![procedure(false, None, vec![phase("fill", 1, &[]), phase("hold", 1, &[])])];
    let (p, ph) = running_names(&procs, 0, 1).expect("names");
    assert_eq!(p, "Leak test");
    assert_eq!(ph, "hold");
    assert!(running_names(&procs, 0, 2).is_none());
    assert!(running_names(&procs, 1, 0).is_none());
    assert_eq!(selected_name(&procs, Some(0)).map(|s| s.as_str()), Some("Leak test"));
    assert!(selected_name(&procs, Some(3)).is_none());
    assert!(selected_name(&procs, None).is_none());
}

use gravite_hydrotest::config::{
    Actuator, ActuatorsRegister, Phase, PhaseActuator, ProceduresConfig, RunConfig,
};
use gravite_hydrotest::gui::procedures::procedures_logic::ProcedureRunner;

fn phase(secs: u64, acts: &[&str]) -> Phase {
    Phase {
        name: "phase".to_string(),
        duration_sec: secs,
        actuators: acts.iter().map(|a| PhaseActuator { name: a.to_string() }).collect(),
    }
}

fn register() -> ActuatorsRegister {
    ActuatorsRegister {
        items: vec![
            Actuator { name: "Pump".to_string(), code: 1, is_active: true },
            Actuator { name: "Valve".to_string(), code: 2, is_active: false },
            Actuator { name: "Heater".to_string(), code: 3, is_active: true },
        ],
    }
}

fn proc(loop_enabled: bool, iterations: Option<usize>) -> ProceduresConfig {
    ProceduresConfig {
        name: "p".to_string(),
        config: RunConfig { loop_enabled, iterations },
        phases: vec![phase(5, &["Pump"]), phase(2, &["Valve", "Heater"])],
    }
}

#[test]
fn new_runner_is_idle_and_ticks_do_nothing() {
    let mut r = ProcedureRunner::new();
    assert!(!r.is_running());
    assert!(r.tick(&register(), 1000).is_empty());
    assert!(!r.is_running());
}

#[test]
fn start_then_first_tick_resets_and_runs() {
    let mut r = ProcedureRunner::new();
    r.start(proc(false, None));
    assert!(r.is_running());
    assert_eq!(r.tick(&register(), 0), vec![1, 3]);
    assert!(r.is_running());
}

#[test]
fn first_phase_is_over_at_once_and_next_phase_sends_inactive_targets() {
    let mut r = ProcedureRunner::new();
    r.start(proc(false, None));
    r.tick(&register(), 0);
    // The first phase counts as long over: the second phase starts now.
    assert_eq!(r.tick(&register(), 0), vec![2]);
    // Two seconds have not passed yet.
    assert!(r.tick(&register(), 1999).is_empty());
    assert!(r.is_running());
    // After the last phase of the only pass the runner stops.
    assert!(r.tick(&register(), 2000).is_empty());
    assert!(!r.is_running());
}

#[test]
fn looping_runner_wraps_around() {
    let mut r = ProcedureRunner::new();
    r.start(proc(true, Some(2)));
    r.tick(&register(), 0);
    r.tick(&register(), 0);
    // End of the first pass: back to the first phase.
    assert_eq!(r.tick(&register(), 2000), Vec::<u8>::new());
    assert!(r.is_running());
    // Phase one of the second pass lasts five seconds.
    assert!(r.tick(&register(), 6999).is_empty());
    assert_eq!(r.tick(&register(), 7000), vec![2]);
    assert!(r.tick(&register(), 9000).is_empty());
    assert!(!r.is_running());
}

#[test]
fn stop_goes_idle() {
    let mut r = ProcedureRunner::new();
    r.start(proc(true, None));
    r.stop();
    assert!(!r.is_running());
    assert!(r.tick(&register(), 50_000).is_empty());
}

#[test]
fn instant_phases_run_for_passes_times_phases_ticks() {
    let p = ProceduresConfig {
        name: "quick".to_string(),
        config: RunConfig { loop_enabled: true, iterations: Some(2) },
        phases: vec![phase(0, &[]), phase(0, &[]), phase(0, &[])],
    };
    let mut r = ProcedureRunner::new();
    r.start(p);
    for _ in 0..6 {
        r.tick(&register(), 0);
        assert!(r.is_running());
    }
    assert!(r.tick(&register(), 0).is_empty());
    assert!(!r.is_running());
    assert!(r.tick(&register(), 0).is_empty());
}

#[test]
fn starting_a_procedure_without_phases_runs() {
    let p = ProceduresConfig {
        name: "empty".to_string(),
        config: RunConfig { loop_enabled: false, iterations: None },
        phases: vec![],
    };
    let mut r = ProcedureRunner::new();
    r.start(p);
    assert!(r.is_running());
    assert_eq!(r.tick(&register(), 0), vec![1, 3]);
}

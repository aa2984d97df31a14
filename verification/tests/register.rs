use gravite_hydrotest::config::{Actuator, ActuatorsConfig, ActuatorsRegister, AppConfig};
use gravite_hydrotest::gui::pages::serial_control::SerialCommand;

fn act(name: &str, code: u8, is_active: bool) -> Actuator {
    Actuator { name: name.to_string(), code, is_active }
}

fn sample_config() -> AppConfig {
    let mut config = AppConfig::new();
    config.actuators.push(ActuatorsConfig {
        module: "Pumps".to_string(),
        buttons: vec![act("Pump A", 0x10, true), act("Pump B", 0x11, false)],
    });
    config.actuators.push(ActuatorsConfig {
        module: "Valves".to_string(),
        buttons: vec![act("Valve 1", 0x20, true)],
    });
    config
}

fn toggle_codes(cmds: &[SerialCommand]) -> Vec<u8> {
    cmds.iter()
        .map(|c| match c {
            SerialCommand::TogglePeripheral(code) => *code,
            _ => panic!("not a toggle"),
        })
        .collect()
}

#[test]
fn flat_list_keeps_order_and_clears_state() {
    let flat = sample_config().actuators_flat();
    let names: Vec<&str> = flat.iter().map(|a| a.name.as_str()).collect();
    assert_eq!(names, vec!["Pump A", "Pump B", "Valve 1"]);
    let codes: Vec<u8> = flat.iter().map(|a| a.code).collect();
    assert_eq!(codes, vec![0x10, 0x11, 0x20]);
    assert!(flat.iter().all(|a| !a.is_active));
}

#[test]
fn empty_config_has_empty_register() {
    let reg = ActuatorsRegister::from_config(&AppConfig::new());
    assert!(reg.items.is_empty());
}

#[test]
fn toggle_flips_first_matching_code_only() {
    let mut reg = ActuatorsRegister {
        items: vec![act("a", 1, false), act("b", 2, false), act("c", 2, false)],
    };
    reg.toggle_state(2);
    let states: Vec<bool> = reg.items.iter().map(|a| a.is_active).collect();
    assert_eq!(states, vec![false, true, false]);
}

#[test]
fn toggle_unknown_code_changes_nothing() {
    let mut reg = ActuatorsRegister::from_config(&sample_config());
    reg.toggle_state(0x99);
    assert!(reg.items.iter().all(|a| !a.is_active));
}

#[test]
fn toggle_twice_restores() {
    let mut reg = ActuatorsRegister::from_config(&sample_config());
    reg.toggle_state(0x11);
    assert!(reg.items[1].is_active);
    reg.toggle_state(0x11);
    assert!(!reg.items[1].is_active);
}

#[test]
fn reset_all_requests_toggle_of_each_active() {
    let reg = ActuatorsRegister {
        items: vec![act("a", 1, true), act("b", 2, false), act("c", 3, true)],
    };
    assert_eq!(toggle_codes(&reg.reset_all()), vec![1, 3]);
}

#[test]
fn confirmed_reset_clears_all() {
    let mut reg = ActuatorsRegister {
        items: vec![act("a", 1, true), act("b", 2, false), act("c", 3, true)],
    };
    for code in toggle_codes(&reg.reset_all()) {
        reg.toggle_state(code);
    }
    assert!(reg.items.iter().all(|a| !a.is_active));
}

#[test]
fn set_active_by_name_finds_first() {
    let reg = ActuatorsRegister {
        items: vec![act("a", 1, false), act("b", 2, false), act("b", 3, false)],
    };
    match reg.set_active_by_name(&"b".to_string()) {
        Some(SerialCommand::TogglePeripheral(code)) => assert_eq!(code, 2),
        _ => panic!("expected a toggle"),
    }
    assert!(reg.set_active_by_name(&"zzz".to_string()).is_none());
}

#[test]
fn active_by_code_reads_first_match() {
    let reg = ActuatorsRegister {
        items: vec![act("a", 1, true), act("b", 1, false), act("c", 2, false)],
    };
    assert!(reg.active_by_code(1));
    assert!(!reg.active_by_code(2));
    assert!(!reg.active_by_code(3));
}

#[test]
fn set_active_by_name_leaves_active_actuator_alone() {
    let reg = ActuatorsRegister {
        items: vec![act("a", 1, true), act("b", 2, false)],
    };
    assert!(reg.set_active_by_name(&"a".to_string()).is_none());
    assert!(matches!(reg.set_active_by_name(&"b".to_string()), Some(SerialCommand::TogglePeripheral(2))));
}

#[test]
fn after_reset_switches_everything_off() {
    let reg = ActuatorsRegister {
        items: vec![act("a", 1, true), act("b", 2, false)],
    };
    let settled = reg.after_reset();
    assert!(settled.items.iter().all(|a| !a.is_active));
    assert_eq!(settled.items[1].name, "b");
    assert!(reg.items[0].is_active);
}

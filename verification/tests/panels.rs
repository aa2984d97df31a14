use std::path::PathBuf;
use std::sync::mpsc::channel;

use gravite_hydrotest::config::{Actuator, ActuatorsConfig, AppConfig};
use gravite_hydrotest::gui::actuators::actuators_page::ActuatorsPage;
use gravite_hydrotest::gui::builder::GroupBuilder;
use gravite_hydrotest::gui::components::PageType;
use gravite_hydrotest::gui::composite::{ButtonModule, ButtonState, Component, GroupModule, LayouType};
use gravite_hydrotest::gui::pages::memory_flash::{FlashCommand, FlashPage};
use gravite_hydrotest::gui::pages::procedures::ProceduresPage;

fn config() -> AppConfig {
    let mut c = AppConfig::new();
    c.actuators.push(ActuatorsConfig {
        module: "Pumps".to_string(),
        buttons: vec![
            Actuator { name: "P1".to_string(), code: 1, is_active: true },
            Actuator { name: "P2".to_string(), code: 2, is_active: false },
        ],
    });
    c.actuators.push(ActuatorsConfig { module: "Valves".to_string(), buttons: vec![] });
    c
}

fn states(g: &GroupModule) -> Vec<ButtonState> {
    let mut out = vec![];
    for c in &g.children {
        match c {
            Component::Button(b) => out.push(b.state),
            Component::Group(inner) => out.extend(states(inner)),
        }
    }
    out
}

#[test]
fn button_echo_transitions() {
    let mut b = ButtonModule::new("P1", 1);
    assert_eq!(b.state, ButtonState::NoEcho);
    b.update_state(2);
    assert_eq!(b.state, ButtonState::NoEcho);
    b.update_state(1);
    assert_eq!(b.state, ButtonState::Active);
    b.update_state(1);
    assert_eq!(b.state, ButtonState::Inactive);
    b.update_state(1);
    assert_eq!(b.state, ButtonState::Active);
    b.state = ButtonState::PendingEcho;
    b.update_state(1);
    assert_eq!(b.state, ButtonState::Active);
    b.reset_status();
    assert_eq!(b.state, ButtonState::NoEcho);
    assert_eq!(b.name(), "P1");
}

#[test]
fn builder_makes_one_panel_per_section() {
    let root = GroupBuilder::build_from_cfg(&config());
    assert_eq!(root.name(), "Actuators control");
    assert_eq!(root.layout, LayouType::Vertical);
    assert_eq!(root.children.len(), 2);
    match &root.children[0] {
        Component::Group(g) => {
            assert_eq!(g.name, "Pumps");
            assert_eq!(g.children.len(), 2);
            match &g.children[1] {
                Component::Button(b) => {
                    assert_eq!(b.name, "P2");
                    assert_eq!(b.peripheral_code, 2);
                    assert_eq!(b.state, ButtonState::NoEcho);
                }
                _ => panic!("expected a button"),
            }
        }
        _ => panic!("expected a panel"),
    }
}

#[test]
fn echoes_reach_nested_buttons_and_reset_clears_them() {
    let mut page = ActuatorsPage::new(&config());
    assert_eq!(page.root.name, "Actuator Control");
    match &page.root.children[0] {
        Component::Group(g) => assert_eq!(g.layout, LayouType::Horizontal),
        _ => panic!("expected a panel"),
    }
    page.root.update_state(2);
    assert_eq!(states(&page.root), vec![ButtonState::NoEcho, ButtonState::Active]);
    page.root.update_state(2);
    assert_eq!(states(&page.root), vec![ButtonState::NoEcho, ButtonState::Inactive]);
    page.root.reset_status();
    assert_eq!(states(&page.root), vec![ButtonState::NoEcho, ButtonState::NoEcho]);
}

#[test]
fn builder_chain() {
    let inner = GroupBuilder::new("inner").button("x", 9).build();
    let mut c = Component::Group(GroupBuilder::new("outer").button("y", 8).group(inner).build());
    assert_eq!(c.name(), "outer");
    c.update_state(9);
    match &c {
        Component::Group(g) => assert_eq!(states(g), vec![ButtonState::NoEcho, ButtonState::Active]),
        _ => panic!("expected a panel"),
    }
    c.reset_status();
    match &c {
        Component::Group(g) => assert_eq!(states(g), vec![ButtonState::NoEcho, ButtonState::NoEcho]),
        _ => panic!("expected a panel"),
    }
}

#[test]
fn flash_page_requests() {
    let (tx, _rx) = channel::<FlashCommand>();
    let mut page = FlashPage::new(tx);
    assert_eq!(page.chip_name, "STM32F429ZIT6");
    assert!(page.flash_request(false).is_none());
    page.selected_file = Some(PathBuf::from("/tmp/fw.elf"));
    assert!(page.flash_request(true).is_none());
    match page.flash_request(false) {
        Some(FlashCommand::Start { path, chip }) => {
            assert_eq!(path, PathBuf::from("/tmp/fw.elf"));
            assert_eq!(chip, "STM32F429ZIT6");
        }
        None => panic!("expected a request"),
    }
}

#[test]
fn procedures_page_and_page_types() {
    let p = ProceduresPage::new();
    assert!(!p.full_procedure_run && !p.autotest_run);
    assert_ne!(PageType::Actuators, PageType::Flash);
}

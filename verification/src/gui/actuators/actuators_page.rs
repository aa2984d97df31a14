//! The actuator-control page: one horizontal panel of buttons per section.
use vstd::prelude::*;

use crate::config::{sections_view, ActuatorsConfig, AppConfig};
use crate::gui::builder::{buttons_for, lemma_children_view_push, section_panels};
use crate::gui::composite::{
    children_view, group_view, ButtonModule, Component, ComponentView, GroupModule, LayouType,
};

verus! {

pub struct ActuatorsPage {
    pub root: GroupModule,
}

impl ActuatorsPage {
    /// The page for the configured sections.
    pub fn new(config: &AppConfig) -> (page: Self)
        ensures
            group_view(page.root) == (ComponentView::Group {
                name: "Actuator Control"@,
                children: section_panels(sections_view(config.actuators@), LayouType::Horizontal),
                layout: LayouType::Vertical,
            }),
    {
        ActuatorsPage { root: Self::build_from_cfg(&config.actuators) }
    }

    /// A vertical panel holding, per section, a horizontal panel with a
    /// button per actuator.
    pub fn build_from_cfg(config: &Vec<ActuatorsConfig>) -> (g: GroupModule)
        ensures
            group_view(g) == (ComponentView::Group {
                name: "Actuator Control"@,
                children: section_panels(sections_view(config@), LayouType::Horizontal),
                layout: LayouType::Vertical,
            }),
    {
        let mut top = GroupModule::new("Actuator Control", LayouType::Vertical);
        let n = config.len();
        let ghost secs = sections_view(config@);
        for i in 0..n
            invariant
                n == secs.len(),
                secs == sections_view(config@),
                top.name@ == "Actuator Control"@,
                top.layout == LayouType::Vertical,
                children_view(top.children@) == section_panels(
                    secs.take(i as int),
                    LayouType::Horizontal,
                ),
        {
            let section = &config[i];
            let mut panel = GroupModule::new(section.module.as_str(), LayouType::Horizontal);
            let m = section.buttons.len();
            for j in 0..m
                invariant
                    m == section@.buttons.len(),
                    panel.name@ == section.module@,
                    panel.layout == LayouType::Horizontal,
                    children_view(panel.children@) == buttons_for(section@.buttons.take(j as int)),
            {
                let btn = &section.buttons[j];
                assert(section@.buttons[j as int] == btn@);
                let c = Component::Button(ButtonModule::new(btn.name.as_str(), btn.code));
                proof {
                    lemma_children_view_push(panel.children@, c);
                }
                panel.children.push(c);
                assert(children_view(panel.children@) =~= buttons_for(
                    section@.buttons.take(j + 1),
                ));
            }
            assert(section@.buttons.take(m as int) =~= section@.buttons);
            let c = Component::Group(panel);
            proof {
                lemma_children_view_push(top.children@, c);
            }
            top.children.push(c);
            assert(secs[i as int] == section@);
            assert(children_view(top.children@) =~= section_panels(
                secs.take(i + 1),
                LayouType::Horizontal,
            ));
        }
        assert(secs.take(n as int) =~= secs);
        top
    }
}

} // verus!

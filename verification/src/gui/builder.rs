//! Building the actuator panels from the configuration.
use vstd::prelude::*;
use vstd::string::StringExecFns;

use crate::config::{sections_view, ActuatorView, ActuatorsConfigView, AppConfig};
use crate::gui::composite::{
    children_view, component_view, group_view, ButtonModule, ButtonState, ButtonView, Component,
    ComponentView, GroupModule, LayouType,
};

verus! {

/// The button shown for an actuator.
pub open spec fn button_for(a: ActuatorView) -> ComponentView {
    ComponentView::Button(ButtonView { name: a.name, peripheral_code: a.code, state: ButtonState::NoEcho })
}

pub open spec fn buttons_for(s: Seq<ActuatorView>) -> Seq<ComponentView> {
    s.map_values(|a: ActuatorView| button_for(a))
}

/// The panel shown for a section.
pub open spec fn section_panel(m: ActuatorsConfigView, layout: LayouType) -> ComponentView {
    ComponentView::Group { name: m.module, children: buttons_for(m.buttons), layout }
}

pub open spec fn section_panels(s: Seq<ActuatorsConfigView>, layout: LayouType) -> Seq<ComponentView> {
    s.map_values(|m: ActuatorsConfigView| section_panel(m, layout))
}

/// Pushing onto a panel's children adds the element's view at the end.
pub proof fn lemma_children_view_push(s: Seq<Component>, c: Component)
    ensures
        children_view(s.push(c)) == children_view(s).push(component_view(c)),
{
    assert(s.push(c).drop_last() =~= s);
}

/// Collects the elements of a panel before it is built.
pub struct GroupBuilder {
    name: String,
    children: Vec<Component>,
}

impl GroupBuilder {
    pub closed spec fn label(&self) -> Seq<char> {
        self.name@
    }

    pub closed spec fn elements(&self) -> Seq<ComponentView> {
        children_view(self.children@)
    }

    /// An empty panel called `name`.
    pub fn new(name: &str) -> (b: Self)
        ensures
            b.label() == name@,
            b.elements() == Seq::<ComponentView>::empty(),
    {
        let b = GroupBuilder { name: String::from_str(name), children: Vec::new() };
        assert(children_view(b.children@) =~= Seq::<ComponentView>::empty());
        b
    }

    /// Adds a button for peripheral `code`.
    pub fn button(self, name: &str, code: u8) -> (b: Self)
        ensures
            b.label() == self.label(),
            b.elements() == self.elements().push(
                ComponentView::Button(
                    ButtonView { name: name@, peripheral_code: code, state: ButtonState::NoEcho },
                ),
            ),
    {
        let mut b = self;
        let c = Component::Button(ButtonModule::new(name, code));
        proof {
            lemma_children_view_push(b.children@, c);
        }
        b.children.push(c);
        b
    }

    /// Adds a nested panel.
    pub fn group(self, group: GroupModule) -> (b: Self)
        ensures
            b.label() == self.label(),
            b.elements() == self.elements().push(group_view(group)),
    {
        let mut b = self;
        let c = Component::Group(group);
        proof {
            lemma_children_view_push(b.children@, c);
        }
        b.children.push(c);
        b
    }

    /// The panel, laid out vertically.
    pub fn build(self) -> (g: GroupModule)
        ensures
            group_view(g) == (ComponentView::Group {
                name: self.label(),
                children: self.elements(),
                layout: LayouType::Vertical,
            }),
    {
        GroupModule { name: self.name, children: self.children, layout: LayouType::Vertical }
    }

    /// The panel tree for the configuration: a root panel with one panel per
    /// section, each holding a button per actuator.
    pub fn build_from_cfg(config: &AppConfig) -> (g: GroupModule)
        ensures
            group_view(g) == (ComponentView::Group {
                name: "Actuators control"@,
                children: section_panels(sections_view(config.actuators@), LayouType::Vertical),
                layout: LayouType::Vertical,
            }),
    {
        let mut root = GroupBuilder::new("Actuators control");
        let n = config.actuators.len();
        let ghost secs = sections_view(config.actuators@);
        for i in 0..n
            invariant
                n == secs.len(),
                secs == sections_view(config.actuators@),
                root.label() == "Actuators control"@,
                root.elements() == section_panels(secs.take(i as int), LayouType::Vertical),
        {
            let section = &config.actuators[i];
            let mut section_builder = GroupBuilder::new(section.module.as_str());
            let m = section.buttons.len();
            for j in 0..m
                invariant
                    m == section@.buttons.len(),
                    section_builder.label() == section.module@,
                    section_builder.elements() == buttons_for(section@.buttons.take(j as int)),
            {
                let btn = &section.buttons[j];
                assert(section@.buttons[j as int] == btn@);
                section_builder = section_builder.button(btn.name.as_str(), btn.code);
                assert(section_builder.elements() =~= buttons_for(
                    section@.buttons.take(j + 1),
                ));
            }
            assert(section@.buttons.take(m as int) =~= section@.buttons);
            root = root.group(section_builder.build());
            assert(secs[i as int] == section@);
            assert(root.elements() =~= section_panels(secs.take(i + 1), LayouType::Vertical));
        }
        assert(secs.take(n as int) =~= secs);
        root.build()
    }
}

} // verus!

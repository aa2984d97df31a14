//! Actuator buttons, grouped into nested panels, with the state each button
//! shows as the controller echoes toggles.
use vstd::prelude::*;
use vstd::string::StringExecFns;

verus! {

/// What a button shows.
#[derive(Debug, Clone, Copy, PartialEq, Eq, Structural)]
pub enum ButtonState {
    Active,
    Inactive,
    PendingEcho,
    NoEcho,
}

/// A button that toggles one peripheral.
pub struct ButtonModule {
    pub name: String,
    pub peripheral_code: u8,
    pub state: ButtonState,
}

pub struct ButtonView {
    pub name: Seq<char>,
    pub peripheral_code: u8,
    pub state: ButtonState,
}

impl View for ButtonModule {
    type V = ButtonView;

    open spec fn view(&self) -> ButtonView {
        ButtonView { name: self.name@, peripheral_code: self.peripheral_code, state: self.state }
    }
}

/// The state a button moves to when the controller echoes its code: an
/// active button becomes inactive, any other becomes active.
pub open spec fn echoed(s: ButtonState) -> ButtonState {
    match s {
        ButtonState::PendingEcho => ButtonState::Active,
        ButtonState::Active => ButtonState::Inactive,
        ButtonState::Inactive => ButtonState::Active,
        ButtonState::NoEcho => ButtonState::Active,
    }
}

/// A button after the controller echoed `code`.
pub open spec fn button_after_echo(b: ButtonView, code: u8) -> ButtonView {
    if b.peripheral_code == code {
        ButtonView { state: echoed(b.state), ..b }
    } else {
        b
    }
}

impl ButtonModule {
    /// A button for peripheral `code`, showing that no echo came yet.
    pub fn new(name: &str, code: u8) -> (b: Self)
        ensures
            b@ == (ButtonView { name: name@, peripheral_code: code, state: ButtonState::NoEcho }),
    {
        ButtonModule {
            name: String::from_str(name),
            peripheral_code: code,
            state: ButtonState::NoEcho,
        }
    }

    /// The button's label.
    pub fn name(&self) -> (n: &str)
        ensures
            n@ == self.name@,
    {
        self.name.as_str()
    }

    /// Takes in an echo of `code` from the controller.
    pub fn update_state(&mut self, code: u8)
        ensures
            final(self)@ == button_after_echo(old(self)@, code),
    {
        if self.peripheral_code == code {
            self.state =
            match self.state {
                ButtonState::PendingEcho => ButtonState::Active,
                ButtonState::Active => ButtonState::Inactive,
                ButtonState::Inactive => ButtonState::Active,
                ButtonState::NoEcho => ButtonState::Active,
            };
        }
    }

    /// Forgets what the controller said: no echo yet.
    pub fn reset_status(&mut self)
        ensures
            final(self)@ == (ButtonView { state: ButtonState::NoEcho, ..old(self)@ }),
    {
        self.state = ButtonState::NoEcho;
    }
}

/// How a panel lays out its children.
#[derive(Debug, Clone, Copy, PartialEq, Eq, Structural)]
pub enum LayouType {
    Vertical,
    Horizontal,
}

/// A named panel of buttons and nested panels.
pub struct GroupModule {
    pub name: String,
    pub children: Vec<Component>,
    pub layout: LayouType,
}

/// An element of a panel.
pub enum Component {
    Button(ButtonModule),
    Group(GroupModule),
}

pub enum ComponentView {
    Button(ButtonView),
    Group { name: Seq<char>, children: Seq<ComponentView>, layout: LayouType },
}

pub open spec fn component_view(c: Component) -> ComponentView
    decreases c,
{
    match c {
        Component::Button(b) => ComponentView::Button(b@),
        Component::Group(g) => ComponentView::Group {
            name: g.name@,
            children: children_view(g.children@),
            layout: g.layout,
        },
    }
}

pub open spec fn children_view(s: Seq<Component>) -> Seq<ComponentView>
    decreases s,
{
    if s.len() == 0 {
        seq![]
    } else {
        children_view(s.drop_last()).push(component_view(s.last()))
    }
}

/// A panel element after the controller echoed `code`: every button for
/// that code in it moves on, everything else stays.
pub open spec fn view_after_echo(v: ComponentView, code: u8) -> ComponentView
    decreases v,
{
    match v {
        ComponentView::Button(b) => ComponentView::Button(button_after_echo(b, code)),
        ComponentView::Group { name, children, layout } => ComponentView::Group {
            name,
            children: all_after_echo(children, code),
            layout,
        },
    }
}

pub open spec fn all_after_echo(s: Seq<ComponentView>, code: u8) -> Seq<ComponentView>
    decreases s,
{
    if s.len() == 0 {
        seq![]
    } else {
        all_after_echo(s.drop_last(), code).push(view_after_echo(s.last(), code))
    }
}

/// A panel element with every button in it showing that no echo came yet.
pub open spec fn view_reset(v: ComponentView) -> ComponentView
    decreases v,
{
    match v {
        ComponentView::Button(b) => ComponentView::Button(
            ButtonView { state: ButtonState::NoEcho, ..b },
        ),
        ComponentView::Group { name, children, layout } => ComponentView::Group {
            name,
            children: all_reset(children),
            layout,
        },
    }
}

pub open spec fn all_reset(s: Seq<ComponentView>) -> Seq<ComponentView>
    decreases s,
{
    if s.len() == 0 {
        seq![]
    } else {
        all_reset(s.drop_last()).push(view_reset(s.last()))
    }
}

pub open spec fn group_view(g: GroupModule) -> ComponentView {
    component_view(Component::Group(g))
}

impl Component {
    /// A copy of this element after the controller echoed `code`.
    pub fn with_echo(&self, code: u8) -> (c: Component)
        ensures
            component_view(c) == view_after_echo(component_view(*self), code),
        decreases self,
    {
        match self {
            Component::Button(b) => {
                let mut copy = ButtonModule {
                    name: b.name.clone(),
                    peripheral_code: b.peripheral_code,
                    state: b.state,
                };
                copy.update_state(code);
                Component::Button(copy)
            },
            Component::Group(g) => Component::Group(g.with_echo(code)),
        }
    }

    /// A copy of this element with every button showing that no echo came.
    pub fn with_reset(&self) -> (c: Component)
        ensures
            component_view(c) == view_reset(component_view(*self)),
        decreases self,
    {
        match self {
            Component::Button(b) => Component::Button(
                ButtonModule {
                    name: b.name.clone(),
                    peripheral_code: b.peripheral_code,
                    state: ButtonState::NoEcho,
                },
            ),
            Component::Group(g) => Component::Group(g.with_reset()),
        }
    }

    /// The element's label.
    pub fn name(&self) -> (n: &str)
        ensures
            n@ == match component_view(*self) {
                ComponentView::Button(b) => b.name,
                ComponentView::Group { name, .. } => name,
            },
    {
        match self {
            Component::Button(b) => b.name.as_str(),
            Component::Group(g) => g.name.as_str(),
        }
    }

    /// Takes in an echo of `code` from the controller.
    pub fn update_state(&mut self, code: u8)
        ensures
            component_view(*final(self)) == view_after_echo(component_view(*old(self)), code),
    {
        *self = self.with_echo(code);
    }

    /// Forgets what the controller said, everywhere in this element.
    pub fn reset_status(&mut self)
        ensures
            component_view(*final(self)) == view_reset(component_view(*old(self))),
    {
        *self = self.with_reset();
    }
}

impl GroupModule {
    /// An empty panel.
    pub fn new(name: &str, layout: LayouType) -> (g: Self)
        ensures
            group_view(g) == (ComponentView::Group { name: name@, children: seq![], layout }),
    {
        let g = GroupModule { name: String::from_str(name), children: Vec::new(), layout };
        assert(children_view(g.children@) =~= seq![]);
        g
    }

    /// A copy of this panel after the controller echoed `code`.
    pub fn with_echo(&self, code: u8) -> (g: GroupModule)
        ensures
            group_view(g) == view_after_echo(group_view(*self), code),
        decreases self,
    {
        let mut children: Vec<Component> = Vec::new();
        let n = self.children.len();
        for i in 0..n
            invariant
                n == self.children@.len(),
                children_view(children@) == all_after_echo(
                    children_view(self.children@.take(i as int)),
                    code,
                ),
        {
            let ghost before = children@;
            let c = self.children[i].with_echo(code);
            children.push(c);
            proof {
                let t = self.children@.take(i + 1);
                assert(t.drop_last() =~= self.children@.take(i as int));
                assert(children@.drop_last() =~= before);
                assert(children_view(t).drop_last() == children_view(t.drop_last()));
            }
        }
        assert(self.children@.take(n as int) =~= self.children@);
        GroupModule { name: self.name.clone(), children, layout: self.layout }
    }

    /// A copy of this panel with every button showing that no echo came.
    pub fn with_reset(&self) -> (g: GroupModule)
        ensures
            group_view(g) == view_reset(group_view(*self)),
        decreases self,
    {
        let mut children: Vec<Component> = Vec::new();
        let n = self.children.len();
        for i in 0..n
            invariant
                n == self.children@.len(),
                children_view(children@) == all_reset(children_view(self.children@.take(i as int))),
        {
            let ghost before = children@;
            let c = self.children[i].with_reset();
            children.push(c);
            proof {
                let t = self.children@.take(i + 1);
                assert(t.drop_last() =~= self.children@.take(i as int));
                assert(children@.drop_last() =~= before);
                assert(children_view(t).drop_last() == children_view(t.drop_last()));
            }
        }
        assert(self.children@.take(n as int) =~= self.children@);
        GroupModule { name: self.name.clone(), children, layout: self.layout }
    }

    /// The panel's label.
    pub fn name(&self) -> (n: &str)
        ensures
            n@ == self.name@,
    {
        self.name.as_str()
    }

    /// Passes an echo of `code` to every element of the panel.
    pub fn update_state(&mut self, code: u8)
        ensures
            group_view(*final(self)) == view_after_echo(group_view(*old(self)), code),
    {
        *self = self.with_echo(code);
    }

    /// Makes every element of the panel forget what the controller said.
    pub fn reset_status(&mut self)
        ensures
            group_view(*final(self)) == view_reset(group_view(*old(self))),
    {
        *self = self.with_reset();
    }
}

/// Every button in the element shows that no echo came yet.
pub open spec fn shows_no_echo(v: ComponentView) -> bool
    decreases v,
{
    match v {
        ComponentView::Button(b) => b.state == ButtonState::NoEcho,
        ComponentView::Group { children, .. } => all_show_no_echo(children),
    }
}

pub open spec fn all_show_no_echo(s: Seq<ComponentView>) -> bool
    decreases s,
{
    if s.len() == 0 {
        true
    } else {
        all_show_no_echo(s.drop_last()) && shows_no_echo(s.last())
    }
}

/// After a reset, every button anywhere in the element shows that no echo
/// came yet.
pub proof fn lemma_reset_clears_every_button(v: ComponentView)
    ensures
        shows_no_echo(view_reset(v)),
    decreases v,
{
    match v {
        ComponentView::Button(b) => {},
        ComponentView::Group { name, children, layout } => {
            lemma_reset_clears_all(children);
        },
    }
}

proof fn lemma_reset_clears_all(s: Seq<ComponentView>)
    ensures
        all_show_no_echo(all_reset(s)),
    decreases s,
{
    if s.len() > 0 {
        lemma_reset_clears_all(s.drop_last());
        lemma_reset_clears_every_button(s.last());
        let r = all_reset(s);
        assert(r.drop_last() =~= all_reset(s.drop_last()));
    }
}

/// Two echoes bring a confirmed button back to the state it showed.
pub proof fn lemma_two_echoes_restore(s: ButtonState)
    requires
        s == ButtonState::Active || s == ButtonState::Inactive,
    ensures
        echoed(echoed(s)) == s,
{
}

} // verus!

//! The binding table: which action a key resolves to, by modifiers and
//! terminal mode.

use vstd::prelude::*;
use crate::backend::TermMode;

verus! {

/// A keyboard key, by the number the host toolkit gives it.
#[derive(Clone, Copy, Debug, PartialEq, Eq, Structural)]
pub struct Key(pub u32);

/// A pointer button.
#[derive(Clone, Copy, Debug, PartialEq, Eq, Structural)]
pub enum PointerButton {
    Primary,
    Secondary,
    Middle,
    Extra1,
    Extra2,
}

/// The modifier keys held while an input arrives.
#[derive(Clone, Copy, Debug, PartialEq, Eq, Structural)]
pub struct Modifiers {
    pub alt: bool,
    pub ctrl: bool,
    pub shift: bool,
    pub mac_cmd: bool,
    pub command: bool,
}

impl Modifiers {
    /// No modifier held.
    pub fn none() -> (m: Modifiers)
        ensures
            m == (Modifiers {
                alt: false,
                ctrl: false,
                shift: false,
                mac_cmd: false,
                command: false,
            }),
    {
        Modifiers { alt: false, ctrl: false, shift: false, mac_cmd: false, command: false }
    }
}

/// What a binding is attached to.
#[derive(Clone, Copy, Debug, PartialEq, Eq, Structural)]
pub enum InputKind {
    KeyCode(Key),
    Mouse(PointerButton),
}

/// The condition of one binding: the input, the exact modifiers, the mode
/// flags that must all be set and the mode flags of which none may be set.
#[derive(Clone, Copy, Debug, PartialEq, Eq, Structural)]
pub struct Binding {
    pub target: InputKind,
    pub modifiers: Modifiers,
    pub terminal_mode_include: TermMode,
    pub terminal_mode_exclude: TermMode,
}

impl Binding {
    /// Whether this binding applies to an input in a terminal mode.
    pub open spec fn spec_is_triggered(
        self,
        input: InputKind,
        modifiers: Modifiers,
        terminal_mode: TermMode,
    ) -> bool {
        &&& self.target == input
        &&& self.modifiers == modifiers
        &&& terminal_mode.spec_contains(self.terminal_mode_include)
        &&& !terminal_mode.spec_intersects(self.terminal_mode_exclude)
    }

    /// Whether this binding applies to an input in a terminal mode.
    pub fn is_triggered(
        &self,
        input: InputKind,
        modifiers: Modifiers,
        terminal_mode: TermMode,
    ) -> (r: bool)
        ensures
            r == self.spec_is_triggered(input, modifiers, terminal_mode),
    {
        self.target == input && self.modifiers == modifiers && terminal_mode.contains(
            self.terminal_mode_include,
        ) && !terminal_mode.intersects(self.terminal_mode_exclude)
    }
}

/// What a binding resolves to.
#[derive(Debug, PartialEq, Eq)]
pub enum BindingAction {
    /// Write this character.
    Char(char),
    /// Write this escape or control sequence as it is.
    Esc(Vec<u8>),
    /// Do nothing.
    Ignore,
}

/// The mathematical value of a [`BindingAction`].
pub enum BindingActionView {
    Char(char),
    Esc(Seq<u8>),
    Ignore,
}

impl View for BindingAction {
    type V = BindingActionView;

    open spec fn view(&self) -> BindingActionView {
        match self {
            BindingAction::Char(c) => BindingActionView::Char(*c),
            BindingAction::Esc(sequence) => BindingActionView::Esc(sequence@),
            BindingAction::Ignore => BindingActionView::Ignore,
        }
    }
}

/// The binding table: conditions with their actions, in order of
/// precedence.
pub struct BindingsLayout {
    pub layout: Vec<(Binding, BindingAction)>,
}

/// The position of the first binding among the first `upto` of a table that
/// applies, or `upto` if none of them does.
pub open spec fn spec_first_triggered(
    layout: Seq<(Binding, BindingAction)>,
    input: InputKind,
    modifiers: Modifiers,
    terminal_mode: TermMode,
    upto: int,
) -> int
    decreases upto,
{
    if upto <= 0 {
        0
    } else {
        let before = spec_first_triggered(layout, input, modifiers, terminal_mode, upto - 1);
        if before < upto - 1 {
            before
        } else if layout[upto - 1].0.spec_is_triggered(input, modifiers, terminal_mode) {
            upto - 1
        } else {
            upto
        }
    }
}

/// The action of the first binding of a table that applies, or `Ignore`.
pub open spec fn spec_lookup(
    layout: Seq<(Binding, BindingAction)>,
    input: InputKind,
    modifiers: Modifiers,
    terminal_mode: TermMode,
) -> BindingActionView {
    let first = spec_first_triggered(layout, input, modifiers, terminal_mode, layout.len() as int);
    if first < layout.len() {
        layout[first].1@
    } else {
        BindingActionView::Ignore
    }
}

/// The lookup resolves to the first binding that applies. Either no
/// binding of the table applies and the lookup is `Ignore`, or the lookup is
/// the action of a binding that applies and that no applying binding
/// precedes.
pub proof fn lemma_lookup_is_first_match(
    layout: Seq<(Binding, BindingAction)>,
    input: InputKind,
    modifiers: Modifiers,
    terminal_mode: TermMode,
)
    ensures
        ({
            let first = spec_first_triggered(
                layout,
                input,
                modifiers,
                terminal_mode,
                layout.len() as int,
            );
            &&& 0 <= first <= layout.len()
            &&& forall|j: int|
                0 <= j < first ==> !(#[trigger] layout[j]).0.spec_is_triggered(
                    input,
                    modifiers,
                    terminal_mode,
                )
            &&& first < layout.len() ==> layout[first].0.spec_is_triggered(
                input,
                modifiers,
                terminal_mode,
            ) && spec_lookup(layout, input, modifiers, terminal_mode) == layout[first].1@
            &&& first == layout.len() ==> spec_lookup(layout, input, modifiers, terminal_mode)
                == BindingActionView::Ignore
        }),
{
    lemma_first_triggered(layout, input, modifiers, terminal_mode, layout.len() as int);
}

proof fn lemma_first_triggered(
    layout: Seq<(Binding, BindingAction)>,
    input: InputKind,
    modifiers: Modifiers,
    terminal_mode: TermMode,
    upto: int,
)
    requires
        0 <= upto <= layout.len(),
    ensures
        ({
            let first = spec_first_triggered(layout, input, modifiers, terminal_mode, upto);
            &&& 0 <= first <= upto
            &&& forall|j: int|
                0 <= j < first ==> !(#[trigger] layout[j]).0.spec_is_triggered(
                    input,
                    modifiers,
                    terminal_mode,
                )
            &&& first < upto ==> layout[first].0.spec_is_triggered(input, modifiers, terminal_mode)
        }),
    decreases upto,
{
    if upto > 0 {
        lemma_first_triggered(layout, input, modifiers, terminal_mode, upto - 1);
    }
}

impl Clone for BindingAction {
    fn clone(&self) -> (copy: BindingAction)
        ensures
            copy@ == self@,
    {
        match self {
            BindingAction::Char(c) => BindingAction::Char(*c),
            BindingAction::Esc(sequence) => BindingAction::Esc(sequence.clone()),
            BindingAction::Ignore => BindingAction::Ignore,
        }
    }
}

impl BindingsLayout {
    /// The table without any binding.
    pub fn new() -> (table: BindingsLayout)
        ensures
            table.layout@.len() == 0,
    {
        BindingsLayout { layout: Vec::new() }
    }

    /// Appends bindings, after those the table holds already.
    pub fn add_bindings(&mut self, bindings: Vec<(Binding, BindingAction)>)
        ensures
            final(self).layout@ == old(self).layout@ + bindings@,
    {
        let mut bindings = bindings;
        self.layout.append(&mut bindings);
    }

    /// Resolves an input: the action of the first binding that applies to it
    /// with these modifiers in this terminal mode, or `Ignore`.
    pub fn get_action(
        &self,
        input: InputKind,
        modifiers: Modifiers,
        terminal_mode: TermMode,
    ) -> (action: BindingAction)
        ensures
            action@ == spec_lookup(self.layout@, input, modifiers, terminal_mode),
    {
        let mut i: usize = 0;
        while i < self.layout.len()
            invariant
                i <= self.layout.len(),
                spec_first_triggered(self.layout@, input, modifiers, terminal_mode, i as int) == i,
            decreases self.layout.len() - i,
        {
            if self.layout[i].0.is_triggered(input, modifiers, terminal_mode) {
                proof {
                    lemma_first_stays(
                        self.layout@,
                        input,
                        modifiers,
                        terminal_mode,
                        i as int,
                        self.layout@.len() as int,
                    );
                }
                return self.layout[i].1.clone();
            }
            i += 1;
        }
        BindingAction::Ignore
    }
}

proof fn lemma_first_stays(
    layout: Seq<(Binding, BindingAction)>,
    input: InputKind,
    modifiers: Modifiers,
    terminal_mode: TermMode,
    first: int,
    upto: int,
)
    requires
        0 <= first < upto <= layout.len(),
        spec_first_triggered(layout, input, modifiers, terminal_mode, first) == first,
        layout[first].0.spec_is_triggered(input, modifiers, terminal_mode),
    ensures
        spec_first_triggered(layout, input, modifiers, terminal_mode, upto) == first,
    decreases upto,
{
    if upto > first + 1 {
        lemma_first_stays(layout, input, modifiers, terminal_mode, first, upto - 1);
    }
}

} // verus!

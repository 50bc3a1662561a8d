//! The decisions of the menu system: which menu is shown, which component of a menu is
//! selected, and how the components react to the encoder and the buttons. Drawing and the
//! hardware are left to the caller, which performs the actions that these functions return.
use vstd::prelude::*;
use crate::rgb::RGB;
use crate::settings::Theme;
use crate::pwm::PwmNumber;
use vstd::arithmetic::div_mod::{
    lemma_fundamental_div_mod, lemma_fundamental_div_mod_converse, lemma_mod_pos_bound, lemma_small_mod,
};

verus! {

/// The menus built from components.
#[derive(Debug, Clone, Copy, PartialEq, Eq, Structural)]
pub enum ComponentMenu {
    ComponentTesting,
    Lang,
    Wifi,
    WifiDetails(usize),
    ServerDetails,
    DisplaySettings,
    Settings,
    RgbMenu,
    DisplaySettingsSettingsMenu,
    WifiSettingsMenu,
    WifiDetailsSettingsMenu(usize),
    ServerDetailsSettingsMenu,
    PwmWizard,
}

/// The menus with their own drawing and logic.
#[derive(Debug, Clone, Copy, PartialEq, Eq, Structural)]
pub enum CustomMenu {
    Title,
    SetupMethod,
    HomeMenu,
    PwmWizard,
}

/// A menu of either kind.
#[derive(Debug, Clone, Copy, PartialEq, Eq, Structural)]
pub enum Menu {
    CustomMenu(CustomMenu),
    ComponentMenu(ComponentMenu),
}

/// What a menu asks of the menu loop when it finishes.
#[derive(Debug, Clone, Copy, PartialEq, Eq, Structural)]
pub enum MenuSignal {
    Back,
    BackN(u8),
    Transition(Menu),
    Return,
}

/// The menu loop's state: the menu shown and the menus to go back to, most recent last.
pub struct MenuNavigator {
    pub stack: Vec<Menu>,
    pub current: Menu,
}

/// The menu stack after a signal, and whether the loop goes on: it stops on `Return`, and when
/// the user backs out of the menu at the bottom of the tree.
pub open spec fn spec_navigate(stack: Seq<Menu>, current: Menu, sig: MenuSignal) -> (Seq<Menu>, Menu, bool) {
    match sig {
        MenuSignal::Transition(m) => (stack.push(current), m, true),
        MenuSignal::Back => if stack.len() > 0 {
            (stack.drop_last(), stack.last(), true)
        } else {
            (stack, current, false)
        },
        MenuSignal::BackN(k) => {
            let kept = stack.len() - k + 1;
            let t = if kept < stack.len() { stack.take(kept) } else { stack };
            if t.len() > 0 {
                (t.drop_last(), t.last(), true)
            } else {
                (t, current, false)
            }
        },
        MenuSignal::Return => (stack, current, false),
    }
}

impl MenuNavigator {
    /// The loop at its first menu.
    pub fn new(start_menu: Menu) -> (n: MenuNavigator)
        ensures
            n.stack@ == Seq::<Menu>::empty(),
            n.current == start_menu,
    {
        MenuNavigator { stack: Vec::new(), current: start_menu }
    }

    /// Acts on the signal of the menu that finished: a transition remembers the current menu,
    /// going back returns to the most recent one (or `k` menus back, for `BackN(k)`).
    /// Returns whether the loop goes on: not after `Return`, nor after going back from the menu
    /// at the bottom of the tree.
    pub fn step(&mut self, sig: MenuSignal) -> (go_on: bool)
        requires
            sig matches MenuSignal::BackN(k) ==> k <= old(self).stack@.len() + 1,
            old(self).stack@.len() < usize::MAX,
        ensures
            (final(self).stack@, final(self).current, go_on) == spec_navigate(old(self).stack@, old(self).current, sig),
    {
        match sig {
            MenuSignal::Transition(m) => {
                let cur = self.current;
                self.stack.push(cur);
                self.current = m;
                true
            },
            MenuSignal::Back => {
                match self.stack.pop() {
                    Some(m) => {
                        self.current = m;
                        true
                    },
                    None => false,
                }
            },
            MenuSignal::BackN(k) => {
                let kept = self.stack.len() + 1 - k as usize;
                self.stack.truncate(kept);
                assert(kept < old(self).stack@.len() ==> self.stack@ =~= old(self).stack@.take(kept as int));
                match self.stack.pop() {
                    Some(m) => {
                        self.current = m;
                        true
                    },
                    None => false,
                }
            },
            MenuSignal::Return => false,
        }
    }
}

/// Going into a menu and then back gives back the menu and the stack as they were.
pub proof fn lemma_transition_then_back(stack: Seq<Menu>, current: Menu, m: Menu)
    ensures
        ({
            let (s1, c1, _) = spec_navigate(stack, current, MenuSignal::Transition(m));
            spec_navigate(s1, c1, MenuSignal::Back) == (stack, current, true)
        }),
{
    assert(stack.push(current).drop_last() =~= stack);
}

/// Going back from the menu at the bottom of the tree ends the menu loop.
pub proof fn lemma_back_from_bottom_ends(current: Menu)
    ensures
        spec_navigate(Seq::empty(), current, MenuSignal::Back).2 == false,
{
}

/// Going back one menu with `BackN(1)` is the same as `Back`.
pub proof fn lemma_back_one(stack: Seq<Menu>, current: Menu)
    ensures
        spec_navigate(stack, current, MenuSignal::BackN(1)) == spec_navigate(stack, current, MenuSignal::Back),
{
}

/// Whether the encoder browses the components or edits the selected one.
#[derive(Debug, Clone, Copy, PartialEq, Eq, Structural)]
pub enum ComponentMenuMode {
    Browse,
    Edit,
}

/// How a component reacts to a click of the encoder.
#[derive(Debug, Clone, Copy, PartialEq, Eq, Structural)]
pub enum InteractionType {
    /// The component cannot be selected.
    Skip,
    NonEditable,
    Editable,
}

/// The kinds of components a menu is made of.
#[derive(Debug, Clone, Copy, PartialEq, Eq, Structural)]
pub enum ComponentKind {
    Button,
    OptionSwitch,
    OptionScroller,
    TextBox,
    ValueSelector,
    ColorSelector,
}

impl ComponentKind {
    /// How the component reacts to a click: a button is clicked, every other kind is edited.
    pub fn interaction_type(&self) -> (t: InteractionType)
        ensures
            t == if *self == ComponentKind::Button { InteractionType::NonEditable } else { InteractionType::Editable },
    {
        match self {
            ComponentKind::Button => InteractionType::NonEditable,
            _ => InteractionType::Editable,
        }
    }
}

/// The selection of a menu of components: how many there are, which is selected, the mode.
#[derive(Debug, Clone, Copy, PartialEq, Eq, Structural)]
pub struct ComponentSelection {
    pub num_components: usize,
    pub selected_component: usize,
    pub mode: ComponentMenuMode,
}

/// `a` modulo `m`, always in `[0, m)`.
pub open spec fn euclid_mod(a: int, m: int) -> int {
    a % m
}

impl ComponentSelection {
    /// The selection is a component of the menu, and the count fits the encoder's `i16` steps.
    pub open spec fn wf(&self) -> bool {
        &&& self.num_components <= 32767
        &&& (self.num_components > 0 ==> self.selected_component < self.num_components)
    }

    /// The selection when a menu opens: the first component, browsing when there are several.
    pub fn new(num_components: usize) -> (s: ComponentSelection)
        requires
            num_components <= 32767,
        ensures
            s.wf(),
            s.num_components == num_components,
            s.selected_component == 0,
            s.mode == if num_components > 1 { ComponentMenuMode::Browse } else { ComponentMenuMode::Edit },
    {
        ComponentSelection {
            num_components,
            selected_component: 0,
            mode: if num_components > 1 { ComponentMenuMode::Browse } else { ComponentMenuMode::Edit },
        }
    }

    /// Selects the next component, wrapping around.
    pub fn next_component(&mut self)
        requires
            old(self).wf(),
        ensures
            final(self).wf(),
            final(self).num_components == old(self).num_components,
            final(self).mode == old(self).mode,
            final(self).selected_component == if old(self).num_components > 0 {
                ((old(self).selected_component + 1) % (old(self).num_components as int)) as usize
            } else {
                old(self).selected_component
            },
    {
        if self.num_components > 0 {
            self.selected_component = (self.selected_component + 1) % self.num_components;
        }
    }

    /// Selects the previous component, wrapping around.
    pub fn prev_component(&mut self)
        requires
            old(self).wf(),
        ensures
            final(self).wf(),
            final(self).num_components == old(self).num_components,
            final(self).mode == old(self).mode,
            final(self).selected_component == if old(self).num_components > 0 {
                ((old(self).selected_component + old(self).num_components - 1) % (old(self).num_components as int)) as usize
            } else {
                old(self).selected_component
            },
    {
        if self.num_components > 0 {
            self.selected_component = (self.selected_component + self.num_components - 1) % self.num_components;
        }
    }

    /// Moves the selection `n` components on (back for negative `n`), wrapping around.
    pub fn advance_component(&mut self, n: i16)
        requires
            old(self).wf(),
            old(self).num_components > 0 ==> old(self).selected_component + n <= i16::MAX,
        ensures
            final(self).wf(),
            final(self).num_components == old(self).num_components,
            final(self).mode == old(self).mode,
            final(self).selected_component == if old(self).num_components > 0 {
                euclid_mod(old(self).selected_component + n, old(self).num_components as int) as usize
            } else {
                old(self).selected_component
            },
    {
        if self.num_components > 0 {
            let a: i32 = self.selected_component as i32 + n as i32;
            let m: i32 = self.num_components as i32;
            let r: i32 = if a >= 0 {
                a % m
            } else {
                let q: i32 = (-a) % m;
                if q == 0 { 0 } else { m - q }
            };
            proof {
                if a < 0 {
                    let ai: int = a as int;
                    let mi: int = m as int;
                    let q: int = (0 - ai) % mi;
                    let k: int = (0 - ai) / mi;
                    lemma_fundamental_div_mod(0 - ai, mi);
                    lemma_mod_pos_bound(0 - ai, mi);
                    if q == 0 {
                        assert(ai == (0 - k) * mi) by (nonlinear_arith)
                            requires
                                0 - ai == mi * k + q,
                                q == 0,
                        ;
                        lemma_fundamental_div_mod_converse(ai, mi, 0 - k, 0);
                    } else {
                        assert(ai == (0 - k - 1) * mi + (mi - q)) by (nonlinear_arith)
                            requires
                                0 - ai == mi * k + q,
                        ;
                        lemma_fundamental_div_mod_converse(ai, mi, 0 - k - 1, mi - q);
                    }
                }
            }
            self.selected_component = r as usize;
        }
    }

    /// The selected component, if the menu has any.
    pub fn selected(&self) -> (s: Option<usize>)
        ensures
            s == if self.num_components == 0 { None } else { Some(self.selected_component) },
    {
        if self.num_components == 0 { None } else { Some(self.selected_component) }
    }
}

/// Moving one component on and then one back leaves the selection where it was.
pub proof fn lemma_next_then_prev(sel: usize, n: usize)
    requires
        0 < n <= 32767,
        sel < n,
    ensures
        ((((sel + 1) % (n as int)) + n - 1) % (n as int)) == sel,
{
    let ni: int = n as int;
    if sel + 1 < n {
        lemma_small_mod((sel + 1) as nat, n as nat);
        lemma_fundamental_div_mod_converse(sel + ni, ni, 1, sel as int);
    } else {
        lemma_fundamental_div_mod_converse(ni, ni, 1, 0);
        lemma_small_mod((n - 1) as nat, n as nat);
    }
}

/// The input that a menu receives.
#[derive(Debug, Clone, Copy, PartialEq, Eq, Structural)]
pub enum MenuInput {
    /// The encoder turned this many steps (positive clockwise).
    Rotate(i16),
    LeftDown,
    RightDown,
    RotencDown,
    /// Any other button event.
    Other,
}

/// What a menu of components does with an input.
#[derive(Debug, Clone, Copy, PartialEq, Eq, Structural)]
pub enum MenuAction {
    Nothing,
    /// Redraw the component that lost the selection, then the one that gained it.
    MoveSelection { from: usize, to: usize },
    /// Pass the turn to the selected component's right handler.
    RightHandle(usize, i16),
    /// Pass the turn to the selected component's left handler.
    LeftHandle(usize, i16),
    /// Run the menu's left button handler.
    LeftButton,
    /// Run the menu's right button handler.
    RightButton,
    /// Pass the click to the selected component.
    Click(usize),
}

/// What an input does to a menu of components whose selected component (if any) is of
/// `interaction`: the new selection and the action to perform.
pub open spec fn spec_menu_input(s: ComponentSelection, interaction: Option<InteractionType>, inp: MenuInput) -> (ComponentSelection, MenuAction) {
    match inp {
        MenuInput::Rotate(k) => match s.mode {
            ComponentMenuMode::Browse => if s.num_components > 0 {
                let to = euclid_mod(s.selected_component + k, s.num_components as int) as usize;
                (ComponentSelection { selected_component: to, ..s }, MenuAction::MoveSelection { from: s.selected_component, to })
            } else {
                (s, MenuAction::Nothing)
            },
            ComponentMenuMode::Edit => if s.num_components > 0 {
                if k > 0 {
                    (s, MenuAction::RightHandle(s.selected_component, k))
                } else {
                    (s, MenuAction::LeftHandle(s.selected_component, k))
                }
            } else {
                (s, MenuAction::Nothing)
            },
        },
        MenuInput::LeftDown => (s, MenuAction::LeftButton),
        MenuInput::RightDown => (s, MenuAction::RightButton),
        MenuInput::RotencDown => if s.num_components == 0 {
            (s, MenuAction::Nothing)
        } else {
            match (s.mode, interaction) {
                (ComponentMenuMode::Browse, Some(InteractionType::Editable)) =>
                    (ComponentSelection { mode: ComponentMenuMode::Edit, ..s }, MenuAction::Click(s.selected_component)),
                (ComponentMenuMode::Browse, Some(InteractionType::NonEditable)) => (s, MenuAction::Click(s.selected_component)),
                (ComponentMenuMode::Edit, _) => (s, MenuAction::Click(s.selected_component)),
                _ => (s, MenuAction::Nothing),
            }
        },
        MenuInput::Other => (s, MenuAction::Nothing),
    }
}

/// Decides what a menu of components does with an input; `interaction` is how the selected
/// component (if any) reacts to a click.
pub fn menu_input(s: ComponentSelection, interaction: Option<InteractionType>, inp: MenuInput) -> (r: (ComponentSelection, MenuAction))
    requires
        s.wf(),
        s.mode == ComponentMenuMode::Browse && s.num_components > 0 ==> (inp matches MenuInput::Rotate(k)
            ==> s.selected_component + k <= i16::MAX),
    ensures
        r == spec_menu_input(s, interaction, inp),
        r.0.wf(),
{
    match inp {
        MenuInput::Rotate(k) => match s.mode {
            ComponentMenuMode::Browse => {
                if s.num_components > 0 {
                    let mut t = s;
                    t.advance_component(k);
                    (t, MenuAction::MoveSelection { from: s.selected_component, to: t.selected_component })
                } else {
                    (s, MenuAction::Nothing)
                }
            },
            ComponentMenuMode::Edit => {
                if s.num_components > 0 {
                    if k > 0 {
                        (s, MenuAction::RightHandle(s.selected_component, k))
                    } else {
                        (s, MenuAction::LeftHandle(s.selected_component, k))
                    }
                } else {
                    (s, MenuAction::Nothing)
                }
            },
        },
        MenuInput::LeftDown => (s, MenuAction::LeftButton),
        MenuInput::RightDown => (s, MenuAction::RightButton),
        MenuInput::RotencDown => {
            if s.num_components == 0 {
                (s, MenuAction::Nothing)
            } else {
                match (s.mode, interaction) {
                    (ComponentMenuMode::Browse, Some(InteractionType::Editable)) =>
                        (ComponentSelection { mode: ComponentMenuMode::Edit, ..s }, MenuAction::Click(s.selected_component)),
                    (ComponentMenuMode::Browse, Some(InteractionType::NonEditable)) => (s, MenuAction::Click(s.selected_component)),
                    (ComponentMenuMode::Edit, _) => (s, MenuAction::Click(s.selected_component)),
                    _ => (s, MenuAction::Nothing),
                }
            }
        },
        MenuInput::Other => (s, MenuAction::Nothing),
    }
}

/// What a handler of a component or a button asks of its menu.
#[derive(Debug, Clone, PartialEq, Eq)]
pub enum HandlerResult {
    Idle,
    Transition(Menu),
    Back,
    BackN(u8),
    Unfocus,
    ForceRedrawAndUnfocus,
    ShowErrorDialogue(String),
}

impl HandlerResult {
    /// A copy of the result.
    pub fn duplicate(&self) -> (c: HandlerResult)
        ensures
            c == *self,
    {
        match self {
            HandlerResult::Idle => HandlerResult::Idle,
            HandlerResult::Transition(m) => HandlerResult::Transition(*m),
            HandlerResult::Back => HandlerResult::Back,
            HandlerResult::BackN(k) => HandlerResult::BackN(*k),
            HandlerResult::Unfocus => HandlerResult::Unfocus,
            HandlerResult::ForceRedrawAndUnfocus => HandlerResult::ForceRedrawAndUnfocus,
            HandlerResult::ShowErrorDialogue(m) => HandlerResult::ShowErrorDialogue(m.clone()),
        }
    }
}

/// What the menu does after a handler ran.
#[derive(Debug, Clone, PartialEq, Eq)]
pub enum MenuOutcome {
    /// Finish the menu with this signal.
    Finish(MenuSignal),
    /// Go on; redraw the whole menu first when `redraw` is set.
    Continue { redraw: bool },
    /// Show this error message, wait for a click, then redraw the whole menu.
    ShowError(String),
}

/// The selection and the outcome after a handler returned `r`.
pub open spec fn spec_handler_outcome(s: ComponentSelection, r: HandlerResult) -> (ComponentSelection, MenuOutcome) {
    let unfocused = if s.num_components > 1 { ComponentSelection { mode: ComponentMenuMode::Browse, ..s } } else { s };
    match r {
        HandlerResult::Transition(m) => (s, MenuOutcome::Finish(MenuSignal::Transition(m))),
        HandlerResult::Unfocus => (unfocused, MenuOutcome::Continue { redraw: false }),
        HandlerResult::ForceRedrawAndUnfocus => (unfocused, MenuOutcome::Continue { redraw: true }),
        HandlerResult::Back => (s, MenuOutcome::Finish(MenuSignal::Back)),
        HandlerResult::BackN(x) => (s, MenuOutcome::Finish(MenuSignal::BackN(x))),
        HandlerResult::ShowErrorDialogue(m) => (s, MenuOutcome::ShowError(m)),
        HandlerResult::Idle => (s, MenuOutcome::Continue { redraw: false }),
    }
}

/// Decides what a menu does after one of its handlers returned `r`.
pub fn handler_outcome(s: ComponentSelection, r: HandlerResult) -> (o: (ComponentSelection, MenuOutcome))
    requires
        s.wf(),
    ensures
        o == spec_handler_outcome(s, r),
        o.0.wf(),
{
    let unfocused = if s.num_components > 1 { ComponentSelection { mode: ComponentMenuMode::Browse, ..s } } else { s };
    match r {
        HandlerResult::Transition(m) => (s, MenuOutcome::Finish(MenuSignal::Transition(m))),
        HandlerResult::Unfocus => (unfocused, MenuOutcome::Continue { redraw: false }),
        HandlerResult::ForceRedrawAndUnfocus => (unfocused, MenuOutcome::Continue { redraw: true }),
        HandlerResult::Back => (s, MenuOutcome::Finish(MenuSignal::Back)),
        HandlerResult::BackN(x) => (s, MenuOutcome::Finish(MenuSignal::BackN(x))),
        HandlerResult::ShowErrorDialogue(m) => (s, MenuOutcome::ShowError(m)),
        HandlerResult::Idle => (s, MenuOutcome::Continue { redraw: false }),
    }
}

/// What a handler asks for is what the menu does: a transition to `m`, a step back or `x` steps
/// back finish the menu with that same signal, an error message is shown as it is, and nothing
/// else finishes the menu. Only an unfocus changes the selection (back to browsing, when there
/// is more than one component to browse), and only the forced one redraws.
pub proof fn lemma_handler_outcome(s: ComponentSelection, r: HandlerResult)
    requires
        s.wf(),
    ensures
        ({
            let (ns, o) = spec_handler_outcome(s, r);
            &&& forall|m: Menu| #![auto] (r == HandlerResult::Transition(m)) <==> (o == MenuOutcome::Finish(MenuSignal::Transition(m)))
            &&& (r == HandlerResult::Back) <==> (o == MenuOutcome::Finish(MenuSignal::Back))
            &&& forall|x: u8| #![auto] (r == HandlerResult::BackN(x)) <==> (o == MenuOutcome::Finish(MenuSignal::BackN(x)))
            &&& forall|msg: String| #![auto] (r == HandlerResult::ShowErrorDialogue(msg)) <==> (o == MenuOutcome::ShowError(msg))
            &&& o is Finish <==> (r is Transition || r is Back || r is BackN)
            &&& o == (MenuOutcome::Continue { redraw: true }) <==> r is ForceRedrawAndUnfocus
            &&& !(o is Finish && o->Finish_0 is Return)
            &&& (r is Unfocus || r is ForceRedrawAndUnfocus) ==> ns == (if s.num_components > 1 {
                ComponentSelection { mode: ComponentMenuMode::Browse, ..s }
            } else {
                s
            })
            &&& !(r is Unfocus || r is ForceRedrawAndUnfocus) ==> ns == s
        }),
{
}

/// The focus state of an option switch or a value selector.
#[derive(Debug, Clone, Copy, PartialEq, Eq, Structural)]
pub enum FocusMode {
    Unhighlighted,
    Highlighted,
    Selected,
}

/// A click toggles between highlighted and selected; an unhighlighted component stays so.
pub open spec fn spec_toggle_focus(m: FocusMode) -> FocusMode {
    match m {
        FocusMode::Unhighlighted => FocusMode::Unhighlighted,
        FocusMode::Highlighted => FocusMode::Selected,
        FocusMode::Selected => FocusMode::Highlighted,
    }
}

/// Toggles the focus of a component; returns the new mode and `Unfocus` when the component
/// was let go (is highlighted again), else `None`.
pub fn toggle_focus(m: FocusMode) -> (r: (FocusMode, HandlerResult))
    ensures
        r.0 == spec_toggle_focus(m),
        r.1 == if r.0 == FocusMode::Highlighted { HandlerResult::Unfocus } else { HandlerResult::Idle },
{
    let n = match m {
        FocusMode::Unhighlighted => FocusMode::Unhighlighted,
        FocusMode::Highlighted => FocusMode::Selected,
        FocusMode::Selected => FocusMode::Highlighted,
    };
    if n == FocusMode::Highlighted { (n, HandlerResult::Unfocus) } else { (n, HandlerResult::Idle) }
}

/// The focus a component starts with: selected when it is the menu's only component, else not
/// highlighted.
pub fn initial_focus(start_focused: bool) -> (m: FocusMode)
    ensures
        m == if start_focused { FocusMode::Selected } else { FocusMode::Unhighlighted },
{
    if start_focused { FocusMode::Selected } else { FocusMode::Unhighlighted }
}

/// Highlighting a switch that is not highlighted; a selected one stays selected.
pub open spec fn spec_highlight(m: FocusMode) -> FocusMode {
    if m == FocusMode::Unhighlighted { FocusMode::Highlighted } else { m }
}

/// Taking the highlight from a highlighted switch; a selected one stays selected.
pub open spec fn spec_unhighlight(m: FocusMode) -> FocusMode {
    if m == FocusMode::Highlighted { FocusMode::Unhighlighted } else { m }
}

/// Highlights an option switch.
pub fn highlight(m: FocusMode) -> (r: FocusMode)
    ensures
        r == spec_highlight(m),
{
    if m == FocusMode::Unhighlighted { FocusMode::Highlighted } else { m }
}

/// Takes the highlight from an option switch.
pub fn unhighlight(m: FocusMode) -> (r: FocusMode)
    ensures
        r == spec_unhighlight(m),
{
    if m == FocusMode::Highlighted { FocusMode::Unhighlighted } else { m }
}

/// Moving the highlight onto a switch and away again leaves it as it was, unless it was
/// highlighted already.
pub proof fn lemma_highlight_unhighlight(m: FocusMode)
    requires
        m != FocusMode::Highlighted,
    ensures
        spec_unhighlight(spec_highlight(m)) == m,
{
}

/// Two clicks give back the focus state.
pub proof fn lemma_toggle_focus_twice(m: FocusMode)
    ensures
        spec_toggle_focus(spec_toggle_focus(m)) == m,
{
}

/// The next option of a switch of `n` options, wrapping around.
pub fn next_option(selection: usize, n: usize) -> (s: usize)
    requires
        n > 0,
        selection < usize::MAX,
    ensures
        s == (selection + 1) % (n as int),
        s < n,
{
    (selection + 1) % n
}

/// The previous option of a switch of `n` options, wrapping around.
pub fn prev_option(selection: usize, n: usize) -> (s: usize)
    requires
        n > 0,
        selection + n <= usize::MAX,
    ensures
        s == (selection + n - 1) % (n as int),
        s < n,
{
    (selection + n - 1) % n
}

/// The theme that the theme switch's option `selection` stands for (dark, light, custom).
pub fn theme_for_selection(selection: usize, custom: RGB) -> (t: Theme)
    requires
        selection <= 2,
    ensures
        t == if selection == 0 { Theme::Dark } else if selection == 1 { Theme::Light } else { Theme::Custom(custom) },
{
    if selection == 0 {
        Theme::Dark
    } else if selection == 1 {
        Theme::Light
    } else {
        Theme::Custom(custom)
    }
}

/// The state of a scrolling list of options: the selected option, the first visible one, and
/// whether the scroll bar must be redrawn.
#[derive(Debug, Clone, Copy, PartialEq, Eq, Structural)]
pub struct ScrollerState {
    pub selection: usize,
    pub page_start: usize,
    pub num_visible: usize,
    pub redraw_scrollbar: bool,
}

/// The selection stays at least half a page below the first visible option, unless the list
/// is at its top.
pub open spec fn scroller_wf(s: ScrollerState) -> bool {
    &&& s.num_visible >= 2
    &&& s.page_start <= s.selection
    &&& (s.page_start == 0 || s.selection - s.page_start >= s.num_visible / 2)
}

/// The scroller after moving down in a list of `n` options.
pub open spec fn spec_scroll_next(s: ScrollerState, n: usize) -> ScrollerState {
    if n > 0 && s.selection < n - 1 {
        let sel = s.selection + 1;
        if sel - s.page_start > s.num_visible / 2 && s.page_start + s.num_visible < n {
            ScrollerState { selection: sel as usize, page_start: (s.page_start + 1) as usize, redraw_scrollbar: true, ..s }
        } else {
            ScrollerState { selection: sel as usize, ..s }
        }
    } else {
        s
    }
}

/// The scroller after moving up.
pub open spec fn spec_scroll_prev(s: ScrollerState) -> ScrollerState {
    if s.selection > 0 {
        let sel = s.selection - 1;
        if sel - s.page_start < s.num_visible / 2 && s.page_start > 0 {
            ScrollerState { selection: sel as usize, page_start: (s.page_start - 1) as usize, redraw_scrollbar: true, ..s }
        } else {
            ScrollerState { selection: sel as usize, ..s }
        }
    } else {
        s
    }
}

impl ScrollerState {
    /// Moves down one option in a list of `n`; returns whether the list must be redrawn.
    pub fn next_option(&mut self, n: usize) -> (moved: bool)
        requires
            scroller_wf(*old(self)),
            old(self).page_start + old(self).num_visible <= usize::MAX,
        ensures
            *final(self) == spec_scroll_next(*old(self), n),
            scroller_wf(*final(self)),
            moved == (n > 0 && old(self).selection < n - 1),
    {
        if n == 0 {
            return false;
        }
        if self.selection < n - 1 {
            self.selection = self.selection + 1;
            if self.selection - self.page_start > self.num_visible / 2 && self.page_start + self.num_visible < n {
                self.page_start = self.page_start + 1;
                self.redraw_scrollbar = true;
            }
            true
        } else {
            false
        }
    }

    /// Moves up one option; returns whether the list must be redrawn.
    pub fn prev_option(&mut self) -> (moved: bool)
        requires
            scroller_wf(*old(self)),
        ensures
            *final(self) == spec_scroll_prev(*old(self)),
            scroller_wf(*final(self)),
            moved == (old(self).selection > 0),
    {
        if self.selection > 0 {
            self.selection = self.selection - 1;
            if self.selection - self.page_start < self.num_visible / 2 && self.page_start > 0 {
                self.page_start = self.page_start - 1;
                self.redraw_scrollbar = true;
            }
            true
        } else {
            false
        }
    }
}

/// Moving down and then up gives back the selection.
pub proof fn lemma_scroll_next_prev(s: ScrollerState, n: usize)
    requires
        scroller_wf(s),
        n > 0,
        s.selection < n - 1,
    ensures
        spec_scroll_prev(spec_scroll_next(s, n)).selection == s.selection,
{
}

/// The state of a numeric value selector: its value and its limits.
#[derive(Debug, Clone, Copy, PartialEq, Eq, Structural)]
pub struct ValueSelector {
    pub selection: u32,
    pub low_limit: u32,
    pub high_limit: u32,
}

pub open spec fn sat_add_u32(a: u32, b: u32) -> u32 {
    if a + b > u32::MAX { u32::MAX } else { (a + b) as u32 }
}

pub open spec fn sat_sub_u32(a: u32, b: u32) -> u32 {
    if a < b { 0 } else { (a - b) as u32 }
}

impl ValueSelector {
    /// Raises the value by `u` (saturating) while it is below the high limit; returns whether
    /// it changed hands (and must be redrawn).
    pub fn increment(&mut self, u: u32) -> (changed: bool)
        ensures
            changed == (old(self).selection < old(self).high_limit),
            final(self).selection == if changed { sat_add_u32(old(self).selection, u) } else { old(self).selection },
            final(self).low_limit == old(self).low_limit,
            final(self).high_limit == old(self).high_limit,
    {
        if self.selection < self.high_limit {
            self.selection = self.selection.saturating_add(u);
            true
        } else {
            false
        }
    }

    /// Lowers the value by `u` (saturating) while it is above the low limit.
    pub fn decrement(&mut self, u: u32) -> (changed: bool)
        ensures
            changed == (old(self).selection > old(self).low_limit),
            final(self).selection == if changed { sat_sub_u32(old(self).selection, u) } else { old(self).selection },
            final(self).low_limit == old(self).low_limit,
            final(self).high_limit == old(self).high_limit,
    {
        if self.selection > self.low_limit {
            self.selection = self.selection.saturating_sub(u);
            true
        } else {
            false
        }
    }

    /// The backlight percentage that the value sets: its low byte.
    pub fn brightness_pct(&self) -> (p: u8)
        ensures
            p == self.selection % 256,
    {
        let v: u32 = self.selection;
        assert((v & 0xff) == v % 256) by (bit_vector);
        (v & 0xff) as u8
    }
}

/// Raising by one step from below the high limit never passes it.
pub proof fn lemma_increment_by_one_stays_in_limit(v: ValueSelector)
    requires
        v.selection < v.high_limit,
    ensures
        sat_add_u32(v.selection, 1) <= v.high_limit,
{
}

} // verus!

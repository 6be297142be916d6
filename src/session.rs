//! The simulation's screens and the user's choices among them and among the
//! bodies on display.
use vstd::prelude::*;

verus! {

/// Which screen the program shows.
#[derive(Clone, Copy, PartialEq, Eq, Structural, Debug, Hash)]
pub enum SimState {
    Menu,
    Simulation,
    Reset,
    ExitToMainMenu,
}

/// A request from the user interface.
#[derive(Clone, Copy, PartialEq, Eq, Structural, Debug, Hash)]
pub enum Command {
    /// Start the simulation from the main menu.
    Start,
    /// Restart the running simulation from its initial configuration.
    Restart,
    /// Leave the running simulation for the main menu.
    ExitToMenu,
}

/// The screen after one frame in `s` with the request `c`, if any: the menu
/// starts the simulation, the simulation can be restarted or left, and the
/// two passing states move on by themselves on the next frame.
pub open spec fn next_state_spec(s: SimState, c: Option<Command>) -> SimState {
    match s {
        SimState::Menu => if c == Some(Command::Start) {
            SimState::Simulation
        } else {
            SimState::Menu
        },
        SimState::Simulation => if c == Some(Command::Restart) {
            SimState::Reset
        } else if c == Some(Command::ExitToMenu) {
            SimState::ExitToMainMenu
        } else {
            SimState::Simulation
        },
        SimState::Reset => SimState::Simulation,
        SimState::ExitToMainMenu => SimState::Menu,
    }
}

/// The screen that follows `s` when the frame brought the request `c`.
pub fn next_state(s: SimState, c: Option<Command>) -> (r: SimState)
    ensures
        r == next_state_spec(s, c),
{
    match s {
        SimState::Menu => {
            if c == Some(Command::Start) {
                SimState::Simulation
            } else {
                SimState::Menu
            }
        },
        SimState::Simulation => {
            match c {
                Some(Command::Restart) => SimState::Reset,
                Some(Command::ExitToMenu) => SimState::ExitToMainMenu,
                _ => SimState::Simulation,
            }
        },
        SimState::Reset => SimState::Simulation,
        SimState::ExitToMainMenu => SimState::Menu,
    }
}

/// Whether moving from `from` to `to` leaves the simulation, at which point
/// its bodies are removed and speed, pause and elapsed time are reset.
pub fn leaves_simulation(from: SimState, to: SimState) -> (r: bool)
    ensures
        r == (from == SimState::Simulation && to != SimState::Simulation),
{
    from == SimState::Simulation && to != SimState::Simulation
}

/// Whether moving from `from` to `to` enters the simulation, at which point
/// the bodies and Lagrange points are created afresh.
pub fn enters_simulation(from: SimState, to: SimState) -> (r: bool)
    ensures
        r == (from != SimState::Simulation && to == SimState::Simulation),
{
    from != SimState::Simulation && to == SimState::Simulation
}

/// The selection after the entry `chosen` of the list `names` was clicked:
/// it is selected, and every entry of another name is deselected; entries
/// of the same name keep their state.
pub open spec fn selected_after(names: Seq<String>, selected: Seq<bool>, chosen: int, i: int) -> bool {
    if i == chosen {
        true
    } else if names[i]@ == names[chosen]@ {
        selected[i]
    } else {
        false
    }
}

/// Selects the entry `chosen` and deselects every entry named otherwise.
pub fn select_only(names: &Vec<String>, selected: &mut Vec<bool>, chosen: usize)
    requires
        old(selected)@.len() == names@.len(),
        chosen < names@.len(),
    ensures
        final(selected)@.len() == old(selected)@.len(),
        forall|i: int| 0 <= i < names@.len()
            ==> #[trigger] final(selected)@[i] == selected_after(names@, old(selected)@, chosen as int, i),
{
    selected.set(chosen, true);
    let mut i: usize = 0;
    while i < names.len()
        invariant
            i <= names@.len(),
            chosen < names@.len(),
            selected@.len() == names@.len(),
            old(selected)@.len() == names@.len(),
            selected@[chosen as int],
            forall|j: int| 0 <= j < i ==> #[trigger] selected@[j]
                == selected_after(names@, old(selected)@, chosen as int, j),
            forall|j: int| i <= j < names@.len() && j != chosen ==> #[trigger] selected@[j]
                == old(selected)@[j],
        decreases names@.len() - i,
    {
        if i != chosen && !(names[i] == names[chosen]) {
            selected.set(i, false);
        }
        i = i + 1;
    }
}

/// Whether a body's trail is drawn.
#[derive(Clone, Copy, PartialEq, Eq, Structural, Debug)]
pub struct EnableLines(pub bool);

impl Default for EnableLines {
    /// Trails are drawn unless switched off.
    fn default() -> (r: EnableLines)
        ensures
            r.0,
    {
        EnableLines(true)
    }
}

/// The stage that integrates the bodies each frame.
pub struct BodyPlugin;

/// The stage that records the bodies' trails each frame.
pub struct LinePlugin;

/// The stage that keeps keyboard and pointer input from the scene while the
/// on-screen panels want it.
pub struct BlockInputPlugin;

/// The stage that places the Lagrange points each frame.
pub struct LagrangePlugin;

} // verus!

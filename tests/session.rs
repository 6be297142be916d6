use solar_sim::session::{
    enters_simulation, leaves_simulation, next_state, select_only, Command, EnableLines, SimState,
};

#[test]
fn menu_starts_simulation() {
    assert_eq!(next_state(SimState::Menu, Some(Command::Start)), SimState::Simulation);
    assert_eq!(next_state(SimState::Menu, None), SimState::Menu);
    assert_eq!(next_state(SimState::Menu, Some(Command::Restart)), SimState::Menu);
}

#[test]
fn simulation_restarts_and_exits() {
    assert_eq!(next_state(SimState::Simulation, None), SimState::Simulation);
    assert_eq!(next_state(SimState::Simulation, Some(Command::Restart)), SimState::Reset);
    assert_eq!(next_state(SimState::Reset, None), SimState::Simulation);
    assert_eq!(next_state(SimState::Simulation, Some(Command::ExitToMenu)), SimState::ExitToMainMenu);
    assert_eq!(next_state(SimState::ExitToMainMenu, None), SimState::Menu);
}

#[test]
fn leaving_and_entering() {
    assert!(leaves_simulation(SimState::Simulation, SimState::Reset));
    assert!(!leaves_simulation(SimState::Simulation, SimState::Simulation));
    assert!(enters_simulation(SimState::Reset, SimState::Simulation));
    assert!(enters_simulation(SimState::Menu, SimState::Simulation));
    assert!(!enters_simulation(SimState::Menu, SimState::Menu));
}

#[test]
fn selecting_deselects_other_names() {
    let names: Vec<String> = ["Sun", "Earth", "Moon", "Earth"].iter().map(|s| s.to_string()).collect();
    let mut sel = vec![true, false, true, true];
    select_only(&names, &mut sel, 1);
    assert_eq!(sel, vec![false, true, false, true]);
}

#[test]
fn lines_enabled_by_default() {
    assert_eq!(EnableLines::default(), EnableLines(true));
}

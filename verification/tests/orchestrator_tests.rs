use surfboard::display::DisplayActor;
use surfboard::event::{DisplayCommand, Events, WifiCommand};
use surfboard::orchestrate::{Action, ErrorPolicy, Orchestrator, Phase, Settings, STATUS_LINE};
use surfboard::power::{PowerActor, PowerStep, PowerWake};
use surfboard::state::{Configuration, ProgramState, ScreenConfiguration, SCREEN_SAVER_SCREEN_IDX};
use surfboard::wifi::{Errand, NetworkActor, Radio};

fn screen(url: &str) -> ScreenConfiguration {
    ScreenConfiguration { url: heapless::String::try_from(url).unwrap() }
}

fn url_of(i: usize) -> String {
    format!("https://feed.example/{}.qoi", i)
}

fn configuration(screens: usize, with_saver: bool) -> Configuration {
    let mut list = heapless::Vec::new();
    for i in 0..screens {
        list.push(screen(&url_of(i))).unwrap();
    }
    Configuration {
        screens: list,
        screen_saver: if with_saver { Some(screen("https://feed.example/saver.qoi")) } else { None },
    }
}

fn load(i: usize) -> Action {
    Action::Network(WifiCommand::LoadScreen(i, screen(&url_of(i))))
}

fn text(message: &str) -> heapless::String<30> {
    heapless::String::try_from(message).unwrap()
}

fn started(screens: usize, with_saver: bool) -> (Orchestrator, ProgramState) {
    let mut state = ProgramState::new();
    state.config = Some(configuration(screens, with_saver));
    (Orchestrator::new(Settings::standard()), state)
}

#[test]
fn standard_settings() {
    let settings = Settings::standard();
    assert_eq!(settings.awake_timeout_secs, 120);
    assert_eq!(settings.parked_timeout_secs, 7200);
    assert_eq!(settings.error_policy, ErrorPolicy::PowerOffAfter(20));
}

#[test]
fn a_new_orchestrator_is_starting_up() {
    let orchestrator = Orchestrator::new(Settings::standard());
    assert_eq!(orchestrator.phase, Phase::Startup);
    assert_eq!(orchestrator.timeout_secs, 120);
}

#[test]
fn wifi_connected_loads_the_configuration() {
    let mut state = ProgramState::new();
    let mut orchestrator = Orchestrator::new(Settings::standard());
    let actions = orchestrator.process_event(&mut state, Events::WifiConnected([10, 0, 0, 7]));
    assert_eq!(actions, vec![Action::Network(WifiCommand::LoadConfiguration)]);
    assert_eq!(orchestrator.phase, Phase::Startup);
}

#[test]
fn configuration_loaded_fetches_the_current_screen_and_the_next() {
    let (mut orchestrator, mut state) = started(3, false);
    let actions = orchestrator.process_event(&mut state, Events::ConfigurationLoaded);
    assert_eq!(actions, vec![load(0), load(1)]);
    assert_eq!(orchestrator.phase, Phase::Active);
    assert_eq!(state.screen_index, 0);
}

#[test]
fn configuration_loaded_with_one_screen_fetches_it_once() {
    let (mut orchestrator, mut state) = started(1, false);
    let actions = orchestrator.process_event(&mut state, Events::ConfigurationLoaded);
    assert_eq!(actions, vec![load(0)]);
}

#[test]
fn configuration_loaded_without_configuration_does_nothing() {
    let mut state = ProgramState::new();
    let mut orchestrator = Orchestrator::new(Settings::standard());
    let actions = orchestrator.process_event(&mut state, Events::ConfigurationLoaded);
    assert!(actions.is_empty());
    assert_eq!(orchestrator.phase, Phase::Startup);
}

#[test]
fn configuration_loaded_with_the_last_screen_current_looks_ahead_to_the_first() {
    let (mut orchestrator, mut state) = started(3, false);
    state.screen_index = 2;
    let actions = orchestrator.process_event(&mut state, Events::ConfigurationLoaded);
    assert_eq!(actions, vec![load(2), load(0)]);
}

#[test]
fn configuration_loaded_with_an_index_past_the_screens_fetches_only_ahead() {
    let (mut orchestrator, mut state) = started(3, false);
    state.screen_index = 7;
    let actions = orchestrator.process_event(&mut state, Events::ConfigurationLoaded);
    assert_eq!(actions, vec![load(2)]);
}

#[test]
fn a_resident_screen_is_reported_without_a_fetch() {
    let (mut orchestrator, mut state) = started(3, false);
    state.get_mut_buffer_for_screen(0).unwrap();
    let actions = orchestrator.process_event(&mut state, Events::ConfigurationLoaded);
    assert_eq!(actions, vec![Action::Emit(Events::ScreenLoaded(0)), load(1)]);
}

#[test]
fn a_resident_next_screen_is_not_fetched_again() {
    let (mut orchestrator, mut state) = started(3, false);
    state.get_mut_buffer_for_screen(1).unwrap();
    let actions = orchestrator.process_event(&mut state, Events::ConfigurationLoaded);
    assert_eq!(actions, vec![load(0)]);
}

#[test]
fn screen_loaded_for_the_current_screen_is_drawn() {
    let (mut orchestrator, mut state) = started(3, false);
    let actions = orchestrator.process_event(&mut state, Events::ScreenLoaded(0));
    assert_eq!(actions, vec![Action::Display(DisplayCommand::DrawImage(0))]);
}

#[test]
fn screen_loaded_for_another_screen_is_dropped() {
    let (mut orchestrator, mut state) = started(3, false);
    state.screen_index = 2;
    for stale in [0usize, 1, 3, SCREEN_SAVER_SCREEN_IDX] {
        let actions = orchestrator.process_event(&mut state, Events::ScreenLoaded(stale));
        assert!(actions.is_empty());
        assert_eq!(state.screen_index, 2);
    }
}

#[test]
fn screen_drawn_for_an_ordinary_screen_asks_for_nothing() {
    let (mut orchestrator, mut state) = started(3, false);
    orchestrator.phase = Phase::Active;
    let actions = orchestrator.process_event(&mut state, Events::ScreenDrawn(0));
    assert!(actions.is_empty());
    assert_eq!(orchestrator.phase, Phase::Active);
    assert_eq!(orchestrator.timeout_secs, 120);
}

#[test]
fn screen_drawn_for_the_screensaver_powers_the_radio_off() {
    let (mut orchestrator, mut state) = started(3, true);
    let actions = orchestrator.process_event(&mut state, Events::ScreenDrawn(SCREEN_SAVER_SCREEN_IDX));
    assert_eq!(actions, vec![Action::Network(WifiCommand::PowerOffWifi)]);
    assert_eq!(orchestrator.phase, Phase::ShuttingDown);
    assert_eq!(orchestrator.timeout_secs, 7200);
}

#[test]
fn the_awake_window_restarts_with_the_next_event() {
    let (mut orchestrator, mut state) = started(3, true);
    orchestrator.process_event(&mut state, Events::ScreenDrawn(SCREEN_SAVER_SCREEN_IDX));
    assert_eq!(orchestrator.timeout_secs, 7200);
    orchestrator.process_event(&mut state, Events::WifiOff);
    assert_eq!(orchestrator.timeout_secs, 120);
}

#[test]
fn the_timeout_leaves_the_window_as_it_is() {
    let (mut orchestrator, mut state) = started(3, true);
    orchestrator.timeout_secs = 999;
    orchestrator.process_event(&mut state, Events::OrchestratorTimeout);
    assert_eq!(orchestrator.timeout_secs, 999);
}

#[test]
fn the_button_advances_and_restarts_the_load() {
    let (mut orchestrator, mut state) = started(3, false);
    orchestrator.phase = Phase::Active;
    let actions = orchestrator.process_event(&mut state, Events::PowerButtonPressed);
    assert_eq!(actions, vec![Action::Emit(Events::ConfigurationLoaded)]);
    assert_eq!(state.screen_index, 1);
}

#[test]
fn the_button_wraps_to_the_first_screen() {
    let (mut orchestrator, mut state) = started(5, false);
    state.screen_index = 4;
    orchestrator.process_event(&mut state, Events::PowerButtonPressed);
    assert_eq!(state.screen_index, 0);
}

#[test]
fn the_button_is_ignored_while_shutting_down() {
    let (mut orchestrator, mut state) = started(3, true);
    orchestrator.process_event(&mut state, Events::OrchestratorTimeout);
    let actions = orchestrator.process_event(&mut state, Events::PowerButtonPressed);
    assert!(actions.is_empty());
    assert_eq!(state.screen_index, SCREEN_SAVER_SCREEN_IDX);
    assert_eq!(orchestrator.phase, Phase::ShuttingDown);
}

#[test]
fn configuration_loaded_is_ignored_while_shutting_down() {
    let (mut orchestrator, mut state) = started(3, true);
    orchestrator.process_event(&mut state, Events::OrchestratorTimeout);
    let actions = orchestrator.process_event(&mut state, Events::ConfigurationLoaded);
    assert!(actions.is_empty());
}

#[test]
fn the_timeout_loads_the_screensaver() {
    let (mut orchestrator, mut state) = started(3, true);
    let actions = orchestrator.process_event(&mut state, Events::OrchestratorTimeout);
    assert_eq!(
        actions,
        vec![Action::Network(WifiCommand::LoadScreen(
            SCREEN_SAVER_SCREEN_IDX,
            screen("https://feed.example/saver.qoi")
        ))]
    );
    assert_eq!(state.screen_index, SCREEN_SAVER_SCREEN_IDX);
    assert_eq!(orchestrator.phase, Phase::ShuttingDown);
}

#[test]
fn the_timeout_without_a_screensaver_powers_the_radio_off() {
    let (mut orchestrator, mut state) = started(3, false);
    let actions = orchestrator.process_event(&mut state, Events::OrchestratorTimeout);
    assert_eq!(actions, vec![Action::Network(WifiCommand::PowerOffWifi)]);
    assert_eq!(state.screen_index, SCREEN_SAVER_SCREEN_IDX);
    assert_eq!(orchestrator.phase, Phase::ShuttingDown);
}

#[test]
fn the_timeout_without_configuration_powers_the_radio_off() {
    let mut state = ProgramState::new();
    let mut orchestrator = Orchestrator::new(Settings::standard());
    let actions = orchestrator.process_event(&mut state, Events::OrchestratorTimeout);
    assert_eq!(actions, vec![Action::Network(WifiCommand::PowerOffWifi)]);
    assert_eq!(state.screen_index, SCREEN_SAVER_SCREEN_IDX);
}

#[test]
fn an_error_is_shown_and_then_the_radio_goes_off() {
    let (mut orchestrator, mut state) = started(3, false);
    let actions = orchestrator.process_event(&mut state, Events::Error(text("DHCP error")));
    assert_eq!(
        actions,
        vec![
            Action::Display(DisplayCommand::ShowStatusText(text("DHCP error"), 1)),
            Action::Pause(20),
            Action::Network(WifiCommand::PowerOffWifi),
        ]
    );
    assert_eq!(STATUS_LINE, 1);
    assert_eq!(orchestrator.phase, Phase::ShuttingDown);
}

#[test]
fn an_error_is_only_shown_under_the_display_only_policy() {
    let mut state = ProgramState::new();
    let settings = Settings { error_policy: ErrorPolicy::DisplayOnly, ..Settings::standard() };
    let mut orchestrator = Orchestrator::new(settings);
    let actions = orchestrator.process_event(&mut state, Events::Error(text("oops")));
    assert_eq!(actions, vec![Action::Display(DisplayCommand::ShowStatusText(text("oops"), 1))]);
    assert_eq!(orchestrator.phase, Phase::Startup);
}

#[test]
fn the_grace_period_is_tunable() {
    let mut state = ProgramState::new();
    let settings = Settings { error_policy: ErrorPolicy::PowerOffAfter(3), ..Settings::standard() };
    let mut orchestrator = Orchestrator::new(settings);
    let actions = orchestrator.process_event(&mut state, Events::Error(text("oops")));
    assert_eq!(actions[1], Action::Pause(3));
}

#[test]
fn wifi_off_powers_the_display_off() {
    let (mut orchestrator, mut state) = started(3, true);
    let actions = orchestrator.process_event(&mut state, Events::WifiOff);
    assert_eq!(actions, vec![Action::Display(DisplayCommand::DisplayPowerOff)]);
    assert_eq!(orchestrator.phase, Phase::ShuttingDown);
}

#[test]
fn display_off_raises_the_power_down_signal() {
    let (mut orchestrator, mut state) = started(3, true);
    let actions = orchestrator.process_event(&mut state, Events::DisplayOff);
    assert_eq!(actions, vec![Action::PowerDown]);
}

#[test]
fn on_wake_with_an_event_processes_it() {
    let (mut orchestrator, mut state) = started(3, true);
    let actions = orchestrator.on_wake(&mut state, Some(Events::ScreenLoaded(0)));
    assert_eq!(actions, vec![Action::Display(DisplayCommand::DrawImage(0))]);
}

#[test]
fn on_wake_without_an_event_is_the_timeout() {
    let (mut orchestrator, mut state) = started(3, true);
    let actions = orchestrator.on_wake(&mut state, None);
    assert_eq!(actions.len(), 1);
    assert_eq!(state.screen_index, SCREEN_SAVER_SCREEN_IDX);
    assert_eq!(orchestrator.phase, Phase::ShuttingDown);
}

#[test]
fn processing_an_event_leaves_the_images_alone() {
    let (mut orchestrator, mut state) = started(3, true);
    state.get_mut_buffer_for_screen(0).unwrap().extend_from_slice(&[4, 5]).unwrap();
    orchestrator.process_event(&mut state, Events::ConfigurationLoaded);
    orchestrator.process_event(&mut state, Events::PowerButtonPressed);
    orchestrator.process_event(&mut state, Events::OrchestratorTimeout);
    assert_eq!(state.get_buffer_for_screen(0).unwrap().as_slice(), &[4, 5]);
    assert_eq!(state.config.as_ref().unwrap().screens.len(), 3);
}

// Startup with three screens: the configuration is loaded, the first screen and
// the one after it are fetched, the first is drawn and may then be reclaimed.
#[test]
fn scenario_startup_with_three_screens() {
    let mut state = ProgramState::new();
    let mut orchestrator = Orchestrator::new(Settings::standard());
    let mut network = NetworkActor::new();
    let mut display = DisplayActor::new();

    let actions = orchestrator.process_event(&mut state, Events::WifiConnected([192, 168, 1, 20]));
    assert_eq!(actions, vec![Action::Network(WifiCommand::LoadConfiguration)]);

    assert_eq!(network.begin(WifiCommand::LoadConfiguration), Some(Errand::FetchConfiguration));
    let event = network.configuration_fetched(&mut state, Some(configuration(3, true)));
    assert_eq!(event, Events::ConfigurationLoaded);

    let actions = orchestrator.process_event(&mut state, event);
    assert_eq!(actions, vec![load(0), load(1)]);

    let mut events = Vec::new();
    for action in actions {
        if let Action::Network(command) = action {
            match network.begin(command) {
                Some(Errand::FetchScreen(i, _)) => {
                    events.push(network.screen_fetched(&mut state, i, Some(&[i as u8; 4])).unwrap());
                }
                other => panic!("unexpected errand {:?}", other),
            }
        }
    }
    assert_eq!(events, vec![Events::ScreenLoaded(0), Events::ScreenLoaded(1)]);

    let actions = orchestrator.process_event(&mut state, Events::ScreenLoaded(0));
    assert_eq!(actions, vec![Action::Display(DisplayCommand::DrawImage(0))]);
    assert!(orchestrator.process_event(&mut state, Events::ScreenLoaded(1)).is_empty());

    display.plan(&state, &DisplayCommand::DrawImage(0)).unwrap();
    let report = display.finish(&mut state, DisplayCommand::DrawImage(0));
    assert_eq!(report, Some(Events::ScreenDrawn(0)));
    assert!(orchestrator.process_event(&mut state, Events::ScreenDrawn(0)).is_empty());

    // screen 0 is reclaimable now: a third screen takes its buffer, not screen 1's
    assert!(state.get_mut_buffer_for_screen(2).is_some());
    assert!(state.get_buffer_for_screen(0).is_none());
    assert_eq!(state.get_buffer_for_screen(1).unwrap().as_slice(), &[1, 1, 1, 1]);
}

// The button at screen 0 of 3 with screen 1 fetched ahead: screen 1 is shown from
// memory, and only screen 2 is fetched.
#[test]
fn scenario_button_press_hits_the_prefetched_screen() {
    let (mut orchestrator, mut state) = started(3, false);
    let mut network = NetworkActor::new();
    let mut display = DisplayActor::new();
    orchestrator.process_event(&mut state, Events::ConfigurationLoaded);
    network.screen_fetched(&mut state, 0, Some(&[0])).unwrap();
    network.screen_fetched(&mut state, 1, Some(&[1])).unwrap();
    display.plan(&state, &DisplayCommand::DrawImage(0)).unwrap();
    display.finish(&mut state, DisplayCommand::DrawImage(0));

    let actions = orchestrator.process_event(&mut state, Events::PowerButtonPressed);
    assert_eq!(state.screen_index, 1);
    assert_eq!(actions, vec![Action::Emit(Events::ConfigurationLoaded)]);

    let actions = orchestrator.process_event(&mut state, Events::ConfigurationLoaded);
    assert_eq!(actions, vec![Action::Emit(Events::ScreenLoaded(1)), load(2)]);

    let actions = orchestrator.process_event(&mut state, Events::ScreenLoaded(1));
    assert_eq!(actions, vec![Action::Display(DisplayCommand::DrawImage(1))]);
}

// The inactivity timeout with a screensaver: the whole descent, event by event,
// down to the dormant sleep.
#[test]
fn scenario_timeout_to_dormant_sleep() {
    let (mut orchestrator, mut state) = started(3, true);
    let mut network = NetworkActor::new();
    let mut display = DisplayActor::new();
    let mut power = PowerActor::new();
    orchestrator.process_event(&mut state, Events::ConfigurationLoaded);
    network.screen_fetched(&mut state, 0, Some(&[0])).unwrap();
    network.screen_fetched(&mut state, 1, Some(&[1])).unwrap();
    display.plan(&state, &DisplayCommand::DrawImage(0)).unwrap();
    display.finish(&mut state, DisplayCommand::DrawImage(0));

    let mut actions = orchestrator.on_wake(&mut state, None);
    assert_eq!(state.screen_index, SCREEN_SAVER_SCREEN_IDX);
    assert_eq!(actions.len(), 1);
    let command = match actions.pop().unwrap() {
        Action::Network(command) => command,
        other => panic!("unexpected action {:?}", other),
    };
    let errand = network.begin(command);
    assert_eq!(
        errand,
        Some(Errand::FetchScreen(SCREEN_SAVER_SCREEN_IDX, screen("https://feed.example/saver.qoi")))
    );
    assert_eq!(network.radio, Radio::FullPower);
    let event = network.screen_fetched(&mut state, SCREEN_SAVER_SCREEN_IDX, Some(&[9, 9])).unwrap();
    assert_eq!(event, Events::ScreenLoaded(SCREEN_SAVER_SCREEN_IDX));
    assert_eq!(network.radio, Radio::Standby);

    let actions = orchestrator.on_wake(&mut state, Some(event));
    assert_eq!(actions, vec![Action::Display(DisplayCommand::DrawImage(SCREEN_SAVER_SCREEN_IDX))]);
    display.plan(&state, &DisplayCommand::DrawImage(SCREEN_SAVER_SCREEN_IDX)).unwrap();
    let event = display.finish(&mut state, DisplayCommand::DrawImage(SCREEN_SAVER_SCREEN_IDX)).unwrap();
    assert_eq!(event, Events::ScreenDrawn(SCREEN_SAVER_SCREEN_IDX));

    let actions = orchestrator.on_wake(&mut state, Some(event));
    assert_eq!(actions, vec![Action::Network(WifiCommand::PowerOffWifi)]);
    assert_eq!(orchestrator.timeout_secs, 7200);
    let errand = network.begin(WifiCommand::PowerOffWifi);
    assert_eq!(errand, Some(Errand::Leave(Events::WifiOff)));
    assert_eq!(network.radio, Radio::Off);

    let actions = orchestrator.on_wake(&mut state, Some(Events::WifiOff));
    assert_eq!(actions, vec![Action::Display(DisplayCommand::DisplayPowerOff)]);
    display.plan(&state, &DisplayCommand::DisplayPowerOff).unwrap();
    let event = display.finish(&mut state, DisplayCommand::DisplayPowerOff).unwrap();
    assert_eq!(event, Events::DisplayOff);

    let actions = orchestrator.on_wake(&mut state, Some(event));
    assert_eq!(actions, vec![Action::PowerDown]);
    assert!(power.raise_power_down());
    let steps = power.on_wake(PowerWake::PowerDownRaised);
    assert_eq!(steps[4], PowerStep::DormantSleep);
    assert_eq!(steps.last(), Some(&PowerStep::WatchdogReset));
}

use sysrecorder::control::{MenuChoice, QueryMode, RecordMenuChoice};
use sysrecorder::engine::{Action, Command, Engine, EngineState, Wake, DEFAULT_INTERVAL_SECS};
use sysrecorder::record::RecordKind;

#[test]
fn verbose_then_stop_then_start_ends_quiet() {
    let mut engine = Engine::new(DEFAULT_INTERVAL_SECS);
    assert_eq!(engine.state(), EngineState::Idle);
    assert_eq!(engine.on_wake(Wake::Command(Command::StartVerbose)), Action::Sample { verbose: true });
    assert_eq!(engine.state(), EngineState::RecordingVerbose);
    assert_eq!(engine.on_wake(Wake::TimerElapsed), Action::Sample { verbose: true });
    assert_eq!(engine.on_wake(Wake::Command(Command::Stop)), Action::WaitForCommand);
    assert_eq!(engine.state(), EngineState::Idle);
    assert_eq!(engine.on_wake(Wake::Command(Command::Start)), Action::Sample { verbose: false });
    assert_eq!(engine.state(), EngineState::RecordingQuiet);
    assert_eq!(engine.on_wake(Wake::TimerElapsed), Action::Sample { verbose: false });
}

#[test]
fn waits_without_timer_only_while_idle() {
    let mut engine = Engine::new(3);
    assert_eq!(engine.interval_secs(), 3);
    assert_eq!(engine.wait_limit(), None);
    engine.on_wake(Wake::Command(Command::Start));
    assert_eq!(engine.wait_limit(), Some(3));
    engine.on_wake(Wake::Command(Command::StartVerbose));
    assert_eq!(engine.wait_limit(), Some(3));
    engine.on_wake(Wake::Command(Command::Stop));
    assert_eq!(engine.wait_limit(), None);
    assert_eq!(engine.on_wake(Wake::TimerElapsed), Action::WaitForCommand);
}

#[test]
fn closed_channel_shuts_down() {
    let mut engine = Engine::new(DEFAULT_INTERVAL_SECS);
    engine.on_wake(Wake::Command(Command::Start));
    assert_eq!(engine.on_wake(Wake::Disconnected), Action::Shutdown);
    assert_eq!(engine.state(), EngineState::Idle);
}

#[test]
fn command_codes() {
    assert_eq!(Command::from_code(0), Command::Stop);
    assert_eq!(Command::from_code(1), Command::Start);
    assert_eq!(Command::from_code(2), Command::StartVerbose);
    assert_eq!(Command::from_code(200), Command::StartVerbose);
    for c in [Command::Stop, Command::Start, Command::StartVerbose] {
        assert_eq!(Command::from_code(c.code()), c);
    }
}

#[test]
fn menu_numbers() {
    assert_eq!(MenuChoice::from_number(1), Some(MenuChoice::StartRecording));
    assert_eq!(MenuChoice::from_number(5), Some(MenuChoice::Quit));
    assert_eq!(MenuChoice::from_number(0), None);
    assert_eq!(MenuChoice::from_number(6), None);
    assert_eq!(RecordMenuChoice::from_number(3), Some(RecordMenuChoice::View(RecordKind::Ram)));
    assert_eq!(RecordMenuChoice::from_number(4), Some(RecordMenuChoice::View(RecordKind::Disk)));
    assert_eq!(RecordMenuChoice::from_number(5), Some(RecordMenuChoice::Back));
    assert_eq!(RecordMenuChoice::from_number(9), None);
    assert_eq!(QueryMode::from_number(2), Some(QueryMode::ByRange));
    assert_eq!(QueryMode::from_number(4), None);
}

#[test]
fn menu_commands() {
    assert_eq!(MenuChoice::StartRecording.command_on_enter(), Some(Command::Start));
    assert_eq!(MenuChoice::StopRecording.command_on_enter(), Some(Command::Stop));
    assert_eq!(MenuChoice::LiveFeed.command_on_enter(), Some(Command::StartVerbose));
    assert_eq!(MenuChoice::LiveFeed.command_on_leave(), Some(Command::Start));
    assert_eq!(MenuChoice::ViewRecords.command_on_enter(), None);
    assert_eq!(MenuChoice::StartRecording.command_on_leave(), None);
}

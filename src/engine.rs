//! The recording state machine of the sampling engine. The engine runs on a
//! background context; this module decides, from its state and what woke it,
//! the next state and what to do, and the caller does it.
use vstd::prelude::*;

verus! {

/// Seconds between two ticks while recording, unless configured otherwise.
pub const DEFAULT_INTERVAL_SECS: u64 = 10;

/// A command on the control channel.
#[derive(Debug, Clone, Copy, PartialEq, Eq, Structural)]
pub enum Command {
    Stop,
    Start,
    StartVerbose,
}

#[derive(Debug, Clone, Copy, PartialEq, Eq, Structural)]
pub enum EngineState {
    Idle,
    RecordingQuiet,
    RecordingVerbose,
}

/// The state after command `cmd` in state `s`: each command sets the state,
/// whatever it was.
pub open spec fn transition(s: EngineState, cmd: Command) -> EngineState {
    match cmd {
        Command::Stop => EngineState::Idle,
        Command::Start => EngineState::RecordingQuiet,
        Command::StartVerbose => EngineState::RecordingVerbose,
    }
}

/// The state after a sequence of commands, from `s`.
pub open spec fn after_commands(s: EngineState, cmds: Seq<Command>) -> EngineState
    decreases cmds.len(),
{
    if cmds.len() == 0 {
        s
    } else {
        transition(after_commands(s, cmds.drop_last()), cmds.last())
    }
}

pub open spec fn is_recording(s: EngineState) -> bool {
    s != EngineState::Idle
}

/// What woke the engine.
#[derive(Debug, Clone, Copy, PartialEq, Eq, Structural)]
pub enum Wake {
    /// A command arrived.
    Command(Command),
    /// The interval passed with no command.
    TimerElapsed,
    /// The control channel is closed: the foreground has ended, and the
    /// process with it, so no command can come any more.
    Disconnected,
}

/// What the engine does next.
#[derive(Debug, Clone, Copy, PartialEq, Eq, Structural)]
pub enum Action {
    /// Wait for the next command, with no timer.
    WaitForCommand,
    /// Take one snapshot and write its rows; echo each written record to the
    /// output when `verbose`. Then wait for a command or the interval.
    Sample { verbose: bool },
    /// Leave the loop.
    Shutdown,
}

/// The action in a state that was just entered or kept.
pub open spec fn action_in(s: EngineState) -> Action {
    match s {
        EngineState::Idle => Action::WaitForCommand,
        EngineState::RecordingQuiet => Action::Sample { verbose: false },
        EngineState::RecordingVerbose => Action::Sample { verbose: true },
    }
}

/// The command that a code of the control channel stands for: 0 stops, 1
/// starts quietly, any other code starts with echo.
pub open spec fn command_of_code(code: u8) -> Command {
    if code == 0 {
        Command::Stop
    } else if code == 1 {
        Command::Start
    } else {
        Command::StartVerbose
    }
}

impl Command {
    pub fn from_code(code: u8) -> (r: Command)
        ensures
            r == command_of_code(code),
    {
        if code == 0 {
            Command::Stop
        } else if code == 1 {
            Command::Start
        } else {
            Command::StartVerbose
        }
    }

    /// The code that stands for the command on the control channel.
    pub fn code(&self) -> (r: u8)
        ensures
            command_of_code(r) == *self,
            r <= 2,
    {
        match self {
            Command::Stop => 0,
            Command::Start => 1,
            Command::StartVerbose => 2,
        }
    }
}

/// The sampling engine's state and its tick interval.
#[derive(Debug)]
pub struct Engine {
    state: EngineState,
    interval_secs: u64,
}

impl Engine {
    pub closed spec fn spec_state(&self) -> EngineState {
        self.state
    }

    pub closed spec fn spec_interval(&self) -> u64 {
        self.interval_secs
    }

    /// An idle engine that ticks every `interval_secs` seconds while recording.
    pub fn new(interval_secs: u64) -> (r: Engine)
        ensures
            r.spec_state() == EngineState::Idle,
            r.spec_interval() == interval_secs,
    {
        Engine { state: EngineState::Idle, interval_secs }
    }

    pub fn state(&self) -> (r: EngineState)
        ensures
            r == self.spec_state(),
    {
        self.state
    }

    pub fn interval_secs(&self) -> (r: u64)
        ensures
            r == self.spec_interval(),
    {
        self.interval_secs
    }

    /// How long to wait for a command: with no bound while idle, else for
    /// one interval.
    pub fn wait_limit(&self) -> (r: Option<u64>)
        ensures
            r is None <==> !is_recording(self.spec_state()),
            r matches Some(secs) ==> secs == self.spec_interval(),
    {
        match self.state {
            EngineState::Idle => None,
            _ => Some(self.interval_secs),
        }
    }

    /// Takes in what woke the engine: a command sets the state; a timer keeps
    /// it; a closed channel ends the loop. While recording, each wake takes a
    /// sample, with echo only in the verbose state.
    pub fn on_wake(&mut self, wake: Wake) -> (r: Action)
        ensures
            final(self).spec_interval() == old(self).spec_interval(),
            wake matches Wake::Command(c) ==> final(self).spec_state() == transition(old(self).spec_state(), c)
                && r == action_in(transition(old(self).spec_state(), c)),
            wake is TimerElapsed ==> final(self).spec_state() == old(self).spec_state() && r
                == action_in(old(self).spec_state()),
            wake is Disconnected ==> final(self).spec_state() == EngineState::Idle && r
                == Action::Shutdown,
    {
        match wake {
            Wake::Command(c) => {
                self.state =
                match c {
                    Command::Stop => EngineState::Idle,
                    Command::Start => EngineState::RecordingQuiet,
                    Command::StartVerbose => EngineState::RecordingVerbose,
                };
                self.current_action()
            },
            Wake::TimerElapsed => self.current_action(),
            Wake::Disconnected => {
                self.state = EngineState::Idle;
                Action::Shutdown
            },
        }
    }

    fn current_action(&self) -> (r: Action)
        ensures
            r == action_in(self.spec_state()),
    {
        match self.state {
            EngineState::Idle => Action::WaitForCommand,
            EngineState::RecordingQuiet => Action::Sample { verbose: false },
            EngineState::RecordingVerbose => Action::Sample { verbose: true },
        }
    }
}

/// Commands sent one after another leave the engine in the state that the
/// last of them sets; the engine samples exactly while recording, and echoes
/// its writes exactly in the verbose state.
pub proof fn lemma_commands_in_sequence(s: EngineState, cmds: Seq<Command>)
    requires
        cmds.len() > 0,
    ensures
        after_commands(s, cmds) == transition(EngineState::Idle, cmds.last()),
        action_in(after_commands(s, cmds)) matches Action::Sample { verbose } ==> is_recording(
            after_commands(s, cmds),
        ) && verbose == (after_commands(s, cmds) == EngineState::RecordingVerbose),
        is_recording(after_commands(s, cmds)) ==> action_in(after_commands(s, cmds)) is Sample,
{
}

} // verus!

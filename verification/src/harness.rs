use crate::bus::Bus;
use crate::cpu::{CPUError, Machine, CPU};
use crate::execution::{done, execute_spec, tick_spec, Outcome};
use vstd::prelude::*;

verus! {

/// Frequency, in cycles per second, that a new harness starts with. It is
/// also the lowest that can be chosen.
pub const DEFAULT_FREQUENCY: u32 = 60;

/// The highest frequency, in cycles per second, that can be chosen.
pub const MAX_FREQUENCY: u32 = 1000000;

/// Whether a harness lets its processor run.
#[derive(Debug, Copy, Clone, PartialEq, Eq, Structural)]
pub enum HarnessState {
    /// The processor stands still until it is resumed.
    Paused,
    /// The processor runs.
    Running,
    /// The processor has stopped on this error.
    Error(CPUError),
}

impl HarnessState {
    pub fn is_paused(&self) -> (r: bool)
        ensures
            r == (*self == HarnessState::Paused),
    {
        match self {
            HarnessState::Paused => true,
            _ => false,
        }
    }

    pub fn is_running(&self) -> (r: bool)
        ensures
            r == (*self == HarnessState::Running),
    {
        match self {
            HarnessState::Running => true,
            _ => false,
        }
    }

    pub fn is_error(&self) -> (r: bool)
        ensures
            r == (*self is Error),
    {
        match self {
            HarnessState::Error(_) => true,
            _ => false,
        }
    }

    /// The error that the processor stopped on, if it stopped on one.
    pub fn error(&self) -> (r: Option<&CPUError>)
        ensures
            match *self {
                HarnessState::Error(e) => r == Some(&e),
                _ => r is None,
            },
    {
        match self {
            HarnessState::Error(e) => Some(e),
            _ => None,
        }
    }
}

/// What the user of a harness can ask of it.
#[derive(Debug, Copy, Clone, PartialEq, Eq, Structural)]
pub enum HarnessCommand {
    /// Let a paused processor run.
    Resume,
    /// Execute one instruction on a paused processor.
    SingleStep,
    /// Pause a running processor.
    Pause,
    /// Put a processor that stopped on an error back to the state it was
    /// handed over in, paused.
    Reset,
}

impl HarnessCommand {
    /// Whether the command is on offer in `state`: a paused processor can be
    /// resumed or stepped, a running one paused, a failed one reset.
    pub open spec fn offered_in(self, state: HarnessState) -> bool {
        match self {
            HarnessCommand::Resume | HarnessCommand::SingleStep => state == HarnessState::Paused,
            HarnessCommand::Pause => state == HarnessState::Running,
            HarnessCommand::Reset => state is Error,
        }
    }
}

/// `frequency` brought into the range of the frequencies that can be chosen.
pub open spec fn clamped_frequency(frequency: u32) -> u32 {
    if frequency < DEFAULT_FREQUENCY {
        DEFAULT_FREQUENCY
    } else if frequency > MAX_FREQUENCY {
        MAX_FREQUENCY
    } else {
        frequency
    }
}

/// The state of a harness after its processor gave `result`: an error stops
/// it, anything else leaves it as it was.
pub open spec fn state_after(state: HarnessState, result: Result<(), CPUError>) -> HarnessState {
    match result {
        Ok(_) => state,
        Err(error) => HarnessState::Error(error),
    }
}

/// What `n` clock ticks in a row do on `m`, stopping at the first tick that
/// fails.
pub open spec fn ticked(m: Machine, n: nat) -> Outcome
    decreases n,
{
    if n == 0 {
        done(m)
    } else {
        let before = ticked(m, (n - 1) as nat);
        if before.result is Ok {
            tick_spec(before.machine)
        } else {
            before
        }
    }
}

/// A processor driven frame by frame, with a copy of the state that it
/// started in.
pub struct Harness<T: Bus + Clone> {
    /// The processor as it was handed over, kept for a later restart.
    pub old_cpu: CPU<T>,
    /// The processor that runs.
    pub cpu: CPU<T>,
    /// Target frequency in cycles per second.
    pub frequency: u32,
    /// Whether the processor runs.
    pub state: HarnessState,
}

impl<T: Bus + Clone> Harness<T> {
    /// A paused harness around `cpu`, at the default frequency.
    pub fn new(cpu: CPU<T>) -> (harness: Self)
        ensures
            harness.cpu == cpu,
            harness.old_cpu.is_copy_of(&cpu),
            harness.frequency == DEFAULT_FREQUENCY,
            harness.state == HarnessState::Paused,
    {
        Self {
            old_cpu: cpu.clone(),
            cpu,
            frequency: DEFAULT_FREQUENCY,
            state: HarnessState::Paused,
        }
    }

    /// Carries out `command` where it is on offer in the current state, and
    /// says whether it was. A command that is not on offer changes nothing.
    pub fn command(&mut self, command: HarnessCommand) -> (applied: bool)
        requires
            command == HarnessCommand::SingleStep && old(self).state == HarnessState::Paused
                ==> old(self).cpu.wf(),
        ensures
            applied == command.offered_in(old(self).state),
            final(self).frequency == old(self).frequency,
            final(self).old_cpu == old(self).old_cpu,
            !applied ==> *final(self) == *old(self),
            applied ==> match command {
                HarnessCommand::Resume => {
                    &&& final(self).cpu == old(self).cpu
                    &&& final(self).state == HarnessState::Running
                },
                HarnessCommand::SingleStep => {
                    &&& final(self).cpu.wf()
                    &&& final(self).cpu@ == execute_spec(old(self).cpu@).machine
                    &&& final(self).state == state_after(
                        HarnessState::Paused,
                        execute_spec(old(self).cpu@).result,
                    )
                },
                HarnessCommand::Pause => {
                    &&& final(self).cpu == old(self).cpu
                    &&& final(self).state == HarnessState::Paused
                },
                HarnessCommand::Reset => {
                    &&& final(self).cpu.is_copy_of(&old(self).old_cpu)
                    &&& final(self).state == HarnessState::Paused
                },
            },
    {
        match (self.state, command) {
            (HarnessState::Paused, HarnessCommand::Resume) => {
                self.state = HarnessState::Running;
                true
            },
            (HarnessState::Paused, HarnessCommand::SingleStep) => {
                self.single_step();
                true
            },
            (HarnessState::Running, HarnessCommand::Pause) => {
                self.state = HarnessState::Paused;
                true
            },
            (HarnessState::Error(_), HarnessCommand::Reset) => {
                self.cpu = self.old_cpu.clone();
                self.state = HarnessState::Paused;
                true
            },
            _ => false,
        }
    }

    /// Chooses the target frequency; a value outside the range on offer is
    /// replaced by the nearest bound.
    pub fn set_frequency(&mut self, frequency: u32)
        ensures
            final(self).frequency == clamped_frequency(frequency),
            final(self).cpu == old(self).cpu,
            final(self).old_cpu == old(self).old_cpu,
            final(self).state == old(self).state,
    {
        if frequency < DEFAULT_FREQUENCY {
            self.frequency = DEFAULT_FREQUENCY;
        } else if frequency > MAX_FREQUENCY {
            self.frequency = MAX_FREQUENCY;
        } else {
            self.frequency = frequency;
        }
    }

    /// The number of clock ticks to run in one frame, at `fps` frames per
    /// second: the whole ticks that fit into a frame, and one more.
    pub fn cycles_per_frame(&self, fps: u32) -> (cycles: u32)
        requires
            fps > 0,
            self.frequency < u32::MAX,
        ensures
            cycles == self.frequency / fps + 1,
    {
        self.frequency / fps + 1
    }

    /// Runs one frame: while the harness is running, up to `cpf` clock ticks,
    /// stopping at the first that fails. The failure becomes the state of the
    /// harness. A harness that is not running does nothing.
    pub fn frame(&mut self, cpf: u32)
        requires
            old(self).cpu.wf(),
        ensures
            final(self).cpu.wf(),
            final(self).frequency == old(self).frequency,
            final(self).old_cpu == old(self).old_cpu,
            old(self).state == HarnessState::Running ==> {
                &&& final(self).cpu@ == ticked(old(self).cpu@, cpf as nat).machine
                &&& final(self).state == state_after(
                    HarnessState::Running,
                    ticked(old(self).cpu@, cpf as nat).result,
                )
            },
            old(self).state != HarnessState::Running ==> {
                &&& final(self).cpu == old(self).cpu
                &&& final(self).state == old(self).state
            },
    {
        if self.state.is_running() {
            let mut i: u32 = 0;
            while i < cpf
                invariant
                    i <= cpf,
                    self.cpu.wf(),
                    self.frequency == old(self).frequency,
                    self.old_cpu == old(self).old_cpu,
                    self.state == HarnessState::Running,
                    old(self).state == HarnessState::Running,
                    ticked(old(self).cpu@, i as nat).result is Ok,
                    self.cpu@ == ticked(old(self).cpu@, i as nat).machine,
                decreases cpf - i,
            {
                match self.cpu.tick() {
                    Ok(()) => {},
                    Err(error) => {
                        self.state = HarnessState::Error(error);
                        proof {
                            lemma_ticked_stays_failed(old(self).cpu@, (i + 1) as nat, cpf as nat);
                        }
                        return ;
                    },
                }
                i += 1;
            }
        }
    }

    /// Executes one instruction, whatever the state of the harness. A failure
    /// becomes the state of the harness.
    pub fn single_step(&mut self)
        requires
            old(self).cpu.wf(),
        ensures
            final(self).cpu.wf(),
            final(self).frequency == old(self).frequency,
            final(self).old_cpu == old(self).old_cpu,
            final(self).cpu@ == execute_spec(old(self).cpu@).machine,
            final(self).state == state_after(old(self).state, execute_spec(old(self).cpu@).result),
    {
        match self.cpu.execute() {
            Ok(()) => {},
            Err(error) => {
                self.state = HarnessState::Error(error);
            },
        }
    }
}

/// Once a run of ticks has failed, more ticks change nothing.
pub proof fn lemma_ticked_stays_failed(m: Machine, failed_at: nat, n: nat)
    requires
        ticked(m, failed_at).result is Err,
        failed_at <= n,
    ensures
        ticked(m, n) == ticked(m, failed_at),
    decreases n,
{
    if failed_at < n {
        lemma_ticked_stays_failed(m, failed_at, (n - 1) as nat);
    }
}

} // verus!

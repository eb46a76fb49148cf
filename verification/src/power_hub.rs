//! Channel control of the main power hub.
//!
//! The hub switches four output channels through active-low enable pins. A channel that has
//! faulted stays faulted: enabling or disabling it changes neither its state nor its pin. The
//! controller decides; the caller drives the pins with the levels it hands back.
use vstd::prelude::*;
use crate::conversions::{channel_milliamps, channel_milliamps_spec, vbus_millivolts, vbus_millivolts_spec};

verus! {

/// How often the hub's `tick` is meant to run in the superloop, in microseconds.
pub const PWR_CTRL_TICK_US: u32 = 50_000;

/// Number of switched output channels.
pub const NUM_CHANNELS: usize = 4;

/// One of the hub's four switched output channels.
#[derive(Clone, Copy, PartialEq, Eq, Structural, Debug)]
pub enum PwrChan {
    CH0,
    CH1,
    CH2,
    CH3,
}

/// State of the hub as a whole.
#[derive(Clone, Copy, PartialEq, Eq, Structural, Debug)]
pub enum PwrCtrlState {
    SysInit,
    Active,
    EStopped,
    Error,
}

/// State of one output channel.
#[derive(Clone, Copy, PartialEq, Eq, Structural, Debug)]
pub enum PwrChanState {
    SysInit,
    Enabled,
    Disabled,
    Fault,
}

/// Level to drive on a digital output pin.
#[derive(Clone, Copy, PartialEq, Eq, Structural, Debug)]
pub enum PinLevel {
    Low,
    High,
}

/// A request to switch one channel.
#[derive(Clone, Copy, PartialEq, Eq, Structural, Debug)]
pub enum ChanCommand {
    Enable,
    Disable,
}

impl PwrChan {
    /// Position of the channel in the controller's channel array.
    pub open spec fn pos(self) -> int {
        match self {
            PwrChan::CH0 => 0,
            PwrChan::CH1 => 1,
            PwrChan::CH2 => 2,
            PwrChan::CH3 => 3,
        }
    }

    pub fn index(self) -> (i: usize)
        ensures
            i == self.pos(),
            i < NUM_CHANNELS,
    {
        match self {
            PwrChan::CH0 => 0,
            PwrChan::CH1 => 1,
            PwrChan::CH2 => 2,
            PwrChan::CH3 => 3,
        }
    }
}

/// State of a channel after a command: a faulted channel keeps its fault, any other takes the
/// commanded state.
pub open spec fn after_command(s: PwrChanState, cmd: ChanCommand) -> PwrChanState {
    if s == PwrChanState::Fault {
        s
    } else {
        match cmd {
            ChanCommand::Enable => PwrChanState::Enabled,
            ChanCommand::Disable => PwrChanState::Disabled,
        }
    }
}

/// The enable pins are active-low: enabling drives low, disabling drives high.
pub open spec fn command_level(cmd: ChanCommand) -> PinLevel {
    match cmd {
        ChanCommand::Enable => PinLevel::Low,
        ChanCommand::Disable => PinLevel::High,
    }
}

/// The pin write that a command on a channel in state `s` causes: none for a faulted channel.
pub open spec fn command_write(s: PwrChanState, cmd: ChanCommand) -> Option<PinLevel> {
    if s == PwrChanState::Fault {
        None
    } else {
        Some(command_level(cmd))
    }
}

/// Channel states after one command on one channel.
pub open spec fn apply_command(
    states: Seq<PwrChanState>,
    chan: PwrChan,
    cmd: ChanCommand,
) -> Seq<PwrChanState> {
    states.update(chan.pos(), after_command(states[chan.pos()], cmd))
}

/// Channel states after a sequence of commands, applied first to last.
pub open spec fn apply_commands(
    states: Seq<PwrChanState>,
    cmds: Seq<(PwrChan, ChanCommand)>,
) -> Seq<PwrChanState>
    decreases cmds.len(),
{
    if cmds.len() == 0 {
        states
    } else {
        apply_commands(apply_command(states, cmds[0].0, cmds[0].1), cmds.drop_first())
    }
}

/// The same command for every channel, CH0 first.
pub open spec fn all_channels(cmd: ChanCommand) -> Seq<(PwrChan, ChanCommand)> {
    seq![(PwrChan::CH0, cmd), (PwrChan::CH1, cmd), (PwrChan::CH2, cmd), (PwrChan::CH3, cmd)]
}

/// Commands never create or clear a fault: after any sequence of enable and disable commands,
/// a channel is faulted exactly when it was faulted before.
pub proof fn lemma_fault_set_unchanged(
    states: Seq<PwrChanState>,
    cmds: Seq<(PwrChan, ChanCommand)>,
    i: int,
)
    requires
        states.len() == 4,
        0 <= i < 4,
    ensures
        apply_commands(states, cmds).len() == 4,
        (apply_commands(states, cmds)[i] == PwrChanState::Fault) <==> (states[i] == PwrChanState::Fault),
    decreases cmds.len(),
{
    if cmds.len() > 0 {
        let next = apply_command(states, cmds[0].0, cmds[0].1);
        lemma_fault_set_unchanged(next, cmds.drop_first(), i);
    }
}

/// A faulted channel is latched: no sequence of commands changes its state.
pub proof fn lemma_fault_is_latched(
    states: Seq<PwrChanState>,
    cmds: Seq<(PwrChan, ChanCommand)>,
    i: int,
)
    requires
        states.len() == 4,
        0 <= i < 4,
        states[i] == PwrChanState::Fault,
    ensures
        apply_commands(states, cmds)[i] == PwrChanState::Fault,
{
    lemma_fault_set_unchanged(states, cmds, i);
}

/// Repeating a command on a channel changes nothing further.
pub proof fn lemma_command_idempotent(states: Seq<PwrChanState>, chan: PwrChan, cmd: ChanCommand)
    requires
        states.len() == 4,
    ensures
        apply_command(apply_command(states, chan, cmd), chan, cmd) == apply_command(states, chan, cmd),
{
    assert(apply_command(apply_command(states, chan, cmd), chan, cmd) =~= apply_command(states, chan, cmd));
}

/// Of two commands on the same channel, the later one decides its state.
pub proof fn lemma_last_command_wins(
    states: Seq<PwrChanState>,
    chan: PwrChan,
    first: ChanCommand,
    second: ChanCommand,
)
    requires
        states.len() == 4,
    ensures
        apply_command(apply_command(states, chan, first), chan, second) == apply_command(states, chan, second),
{
    assert(apply_command(apply_command(states, chan, first), chan, second) =~= apply_command(states, chan, second));
}

/// A command touches only its own channel, so commands on different channels commute.
pub proof fn lemma_commands_on_distinct_channels_commute(
    states: Seq<PwrChanState>,
    a: PwrChan,
    cmd_a: ChanCommand,
    b: PwrChan,
    cmd_b: ChanCommand,
    i: int,
)
    requires
        states.len() == 4,
        a != b,
        0 <= i < 4,
        i != a.pos(),
    ensures
        apply_command(states, a, cmd_a)[i] == states[i],
        apply_command(apply_command(states, a, cmd_a), b, cmd_b) == apply_command(apply_command(states, b, cmd_b), a, cmd_a),
{
    assert(a.pos() != b.pos());
    assert(apply_command(apply_command(states, a, cmd_a), b, cmd_b) =~= apply_command(apply_command(states, b, cmd_b), a, cmd_a));
}

/// After enabling all channels every channel is enabled, except those that were faulted, which
/// stay faulted; disabling all is the same with disabled.
pub proof fn lemma_command_all_outcome(states: Seq<PwrChanState>, cmd: ChanCommand, i: int)
    requires
        states.len() == 4,
        0 <= i < 4,
    ensures
        states[i] == PwrChanState::Fault ==> apply_commands(states, all_channels(cmd))[i] == PwrChanState::Fault,
        states[i] != PwrChanState::Fault ==> apply_commands(states, all_channels(cmd))[i] == (match cmd {
            ChanCommand::Enable => PwrChanState::Enabled,
            ChanCommand::Disable => PwrChanState::Disabled,
        }),
{
    lemma_all_channels_unfold(states, cmd);
}

/// Applying a command to all channels is applying it to CH0, CH1, CH2 and CH3 in turn.
pub proof fn lemma_all_channels_unfold(states: Seq<PwrChanState>, cmd: ChanCommand)
    ensures
        apply_commands(states, all_channels(cmd)) == apply_command(
            apply_command(
                apply_command(apply_command(states, PwrChan::CH0, cmd), PwrChan::CH1, cmd),
                PwrChan::CH2,
                cmd,
            ),
            PwrChan::CH3,
            cmd,
        ),
{
    reveal_with_fuel(apply_commands, 5);
    let cmds = all_channels(cmd);
    assert(cmds.drop_first() =~= seq![(PwrChan::CH1, cmd), (PwrChan::CH2, cmd), (PwrChan::CH3, cmd)]);
    assert(cmds.drop_first().drop_first() =~= seq![(PwrChan::CH2, cmd), (PwrChan::CH3, cmd)]);
    assert(cmds.drop_first().drop_first().drop_first() =~= seq![(PwrChan::CH3, cmd)]);
    assert(cmds.drop_first().drop_first().drop_first().drop_first() =~= Seq::<(PwrChan, ChanCommand)>::empty());
}

/// Commands never put a channel into the initialising state: after any sequence of commands,
/// a channel is initialising only if it was before.
pub proof fn lemma_no_channel_enters_sysinit(
    states: Seq<PwrChanState>,
    cmds: Seq<(PwrChan, ChanCommand)>,
    i: int,
)
    requires
        states.len() == 4,
        0 <= i < 4,
        states[i] != PwrChanState::SysInit,
    ensures
        apply_commands(states, cmds)[i] != PwrChanState::SysInit,
    decreases cmds.len(),
{
    if cmds.len() > 0 {
        let next = apply_command(states, cmds[0].0, cmds[0].1);
        lemma_no_channel_enters_sysinit(next, cmds.drop_first(), i);
    }
}

/// Channel states of a freshly made controller.
pub open spec fn initial_states() -> Seq<PwrChanState> {
    seq![PwrChanState::Disabled, PwrChanState::Fault, PwrChanState::Disabled, PwrChanState::Fault]
}

/// From a freshly made controller, every sequence of commands keeps CH1 and CH3 faulted and
/// leaves CH0 and CH2 enabled or disabled: no channel ever becomes initialising, and no healthy
/// channel ever becomes faulted.
pub proof fn lemma_reachable_from_new(cmds: Seq<(PwrChan, ChanCommand)>)
    ensures
        apply_commands(initial_states(), cmds).len() == 4,
        apply_commands(initial_states(), cmds)[1] == PwrChanState::Fault,
        apply_commands(initial_states(), cmds)[3] == PwrChanState::Fault,
        apply_commands(initial_states(), cmds)[0] == PwrChanState::Enabled
            || apply_commands(initial_states(), cmds)[0] == PwrChanState::Disabled,
        apply_commands(initial_states(), cmds)[2] == PwrChanState::Enabled
            || apply_commands(initial_states(), cmds)[2] == PwrChanState::Disabled,
{
    let s = initial_states();
    lemma_fault_set_unchanged(s, cmds, 0);
    lemma_fault_set_unchanged(s, cmds, 1);
    lemma_fault_set_unchanged(s, cmds, 2);
    lemma_fault_set_unchanged(s, cmds, 3);
    lemma_no_channel_enters_sysinit(s, cmds, 0);
    lemma_no_channel_enters_sysinit(s, cmds, 2);
}

/// Telemetry computed by one tick of the hub.
#[derive(Clone, Copy, Debug)]
pub struct HubReadings {
    /// Current drawn on CH0..CH3, in milliamps.
    pub channel_milliamps: [u32; 4],
    /// Input bus voltage, in millivolts.
    pub vbus_millivolts: u32,
}

/// The main power hub's controller state.
pub struct PowerController {
    pub controller_state: PwrCtrlState,
    pub channel_state: [PwrChanState; 4],
}

impl PowerController {
    /// Channel states, CH0 first.
    pub open spec fn states(&self) -> Seq<PwrChanState> {
        self.channel_state@
    }

    /// A fresh controller: active, with CH0 and CH2 disabled and CH1 and CH3 held in fault
    /// (those two channels are not yet brought up on the board).
    pub fn new() -> (pc: Self)
        ensures
            pc.controller_state == PwrCtrlState::Active,
            pc.states() == initial_states(),
    {
        let pc = PowerController {
            controller_state: PwrCtrlState::Active,
            channel_state: [
                PwrChanState::Disabled,
                PwrChanState::Fault,
                PwrChanState::Disabled,
                PwrChanState::Fault,
            ],
        };
        assert(pc.states() =~= seq![
            PwrChanState::Disabled,
            PwrChanState::Fault,
            PwrChanState::Disabled,
            PwrChanState::Fault,
        ]);
        pc
    }

    /// Applies one command to one channel and returns the level to drive on that channel's
    /// enable pin, or `None` when the channel is faulted and nothing may change.
    pub fn command(&mut self, pwr_chan: PwrChan, cmd: ChanCommand) -> (write: Option<PinLevel>)
        ensures
            final(self).states() == apply_command(old(self).states(), pwr_chan, cmd),
            final(self).controller_state == old(self).controller_state,
            write == command_write(old(self).states()[pwr_chan.pos()], cmd),
    {
        let idx = pwr_chan.index();
        if self.channel_state[idx] != PwrChanState::Fault {
            let (next, level) = match cmd {
                ChanCommand::Enable => (PwrChanState::Enabled, PinLevel::Low),
                ChanCommand::Disable => (PwrChanState::Disabled, PinLevel::High),
            };
            self.channel_state[idx] = next;
            assert(self.states() =~= apply_command(old(self).states(), pwr_chan, cmd));
            Some(level)
        } else {
            assert(self.states() =~= apply_command(old(self).states(), pwr_chan, cmd));
            None
        }
    }

    /// Enables a channel unless it is faulted. Returns the level to drive on its enable pin
    /// (low: the pins are active-low), or `None` when the channel is faulted.
    pub fn enable(&mut self, pwr_chan: PwrChan) -> (write: Option<PinLevel>)
        ensures
            final(self).states() == apply_command(old(self).states(), pwr_chan, ChanCommand::Enable),
            final(self).controller_state == old(self).controller_state,
            write == command_write(old(self).states()[pwr_chan.pos()], ChanCommand::Enable),
            old(self).states()[pwr_chan.pos()] != PwrChanState::Fault ==> {
                &&& final(self).states()[pwr_chan.pos()] == PwrChanState::Enabled
                &&& write == Some(PinLevel::Low)
            },
            old(self).states()[pwr_chan.pos()] == PwrChanState::Fault ==> {
                &&& final(self).states() == old(self).states()
                &&& write is None
            },
    {
        self.command(pwr_chan, ChanCommand::Enable)
    }

    /// Disables a channel unless it is faulted. Returns the level to drive on its enable pin
    /// (high), or `None` when the channel is faulted.
    pub fn disable(&mut self, pwr_chan: PwrChan) -> (write: Option<PinLevel>)
        ensures
            final(self).states() == apply_command(old(self).states(), pwr_chan, ChanCommand::Disable),
            final(self).controller_state == old(self).controller_state,
            write == command_write(old(self).states()[pwr_chan.pos()], ChanCommand::Disable),
            old(self).states()[pwr_chan.pos()] != PwrChanState::Fault ==> {
                &&& final(self).states()[pwr_chan.pos()] == PwrChanState::Disabled
                &&& write == Some(PinLevel::High)
            },
            old(self).states()[pwr_chan.pos()] == PwrChanState::Fault ==> {
                &&& final(self).states() == old(self).states()
                &&& write is None
            },
    {
        self.command(pwr_chan, ChanCommand::Disable)
    }

    /// Flips a channel: disables it when it is enabled, otherwise enables it (a faulted channel
    /// stays faulted). Returns the level to drive on its enable pin, or `None` when faulted.
    pub fn toggle(&mut self, pwr_chan: PwrChan) -> (write: Option<PinLevel>)
        ensures
            old(self).states()[pwr_chan.pos()] == PwrChanState::Enabled ==> {
                &&& final(self).states() == apply_command(old(self).states(), pwr_chan, ChanCommand::Disable)
                &&& write == Some(PinLevel::High)
            },
            old(self).states()[pwr_chan.pos()] != PwrChanState::Enabled ==> {
                &&& final(self).states() == apply_command(old(self).states(), pwr_chan, ChanCommand::Enable)
                &&& write == command_write(old(self).states()[pwr_chan.pos()], ChanCommand::Enable)
            },
            final(self).controller_state == old(self).controller_state,
    {
        if self.status(pwr_chan) == PwrChanState::Enabled {
            self.disable(pwr_chan)
        } else {
            self.enable(pwr_chan)
        }
    }

    /// The state of one channel.
    pub fn status(&self, pwr_chan: PwrChan) -> (s: PwrChanState)
        ensures
            s == self.states()[pwr_chan.pos()],
    {
        self.channel_state[pwr_chan.index()]
    }

    /// Applies one command to every channel, CH0 first. Returns, per channel, the level to
    /// drive on its enable pin, or `None` for a faulted channel.
    pub fn command_all(&mut self, cmd: ChanCommand) -> (writes: [Option<PinLevel>; 4])
        ensures
            final(self).states() == apply_commands(old(self).states(), all_channels(cmd)),
            final(self).controller_state == old(self).controller_state,
            forall|i: int|
                0 <= i < 4 ==> {
                    &&& #[trigger] final(self).states()[i] == after_command(old(self).states()[i], cmd)
                    &&& writes@[i] == command_write(old(self).states()[i], cmd)
                },
    {
        let ghost s0 = self.states();
        let w0 = self.command(PwrChan::CH0, cmd);
        let w1 = self.command(PwrChan::CH1, cmd);
        let w2 = self.command(PwrChan::CH2, cmd);
        let w3 = self.command(PwrChan::CH3, cmd);
        proof {
            lemma_all_channels_unfold(s0, cmd);
        }
        let writes = [w0, w1, w2, w3];
        writes
    }

    /// Enables every channel that is not faulted, CH0 first.
    pub fn enable_all(&mut self) -> (writes: [Option<PinLevel>; 4])
        ensures
            final(self).states() == apply_commands(old(self).states(), all_channels(ChanCommand::Enable)),
            final(self).controller_state == old(self).controller_state,
            forall|i: int|
                0 <= i < 4 ==> {
                    &&& #[trigger] final(self).states()[i] == after_command(old(self).states()[i], ChanCommand::Enable)
                    &&& writes@[i] == command_write(old(self).states()[i], ChanCommand::Enable)
                },
    {
        self.command_all(ChanCommand::Enable)
    }

    /// Disables every channel that is not faulted, CH0 first.
    pub fn disable_all(&mut self) -> (writes: [Option<PinLevel>; 4])
        ensures
            final(self).states() == apply_commands(old(self).states(), all_channels(ChanCommand::Disable)),
            final(self).controller_state == old(self).controller_state,
            forall|i: int|
                0 <= i < 4 ==> {
                    &&& #[trigger] final(self).states()[i] == after_command(old(self).states()[i], ChanCommand::Disable)
                    &&& writes@[i] == command_write(old(self).states()[i], ChanCommand::Disable)
                },
    {
        self.command_all(ChanCommand::Disable)
    }

    /// Converts one tick's ADC samples (CH0..CH3 current, then bus voltage) to telemetry.
    pub fn tick(&self, channel_samples: [u16; 4], vbus_sample: u16) -> (r: HubReadings)
        requires
            vbus_sample * 73_600 <= u32::MAX,
        ensures
            forall|i: int|
                0 <= i < 4 ==> #[trigger] r.channel_milliamps@[i] == channel_milliamps_spec(
                    channel_samples@[i] as int,
                ),
            r.vbus_millivolts == vbus_millivolts_spec(vbus_sample as int),
    {
        let m0 = channel_milliamps(channel_samples[0]);
        let m1 = channel_milliamps(channel_samples[1]);
        let m2 = channel_milliamps(channel_samples[2]);
        let m3 = channel_milliamps(channel_samples[3]);
        let r = HubReadings {
            channel_milliamps: [m0, m1, m2, m3],
            vbus_millivolts: vbus_millivolts(vbus_sample),
        };
        r
    }
}

/// What a command does to one channel: a faulted channel is left faulted with its pin
/// untouched; any other channel takes the commanded state, its active-low enable pin driven
/// low to enable and high to disable.
pub proof fn lemma_command_law(s: PwrChanState, cmd: ChanCommand)
    ensures
        s == PwrChanState::Fault ==> after_command(s, cmd) == PwrChanState::Fault && command_write(s, cmd) is None,
        s != PwrChanState::Fault && cmd == ChanCommand::Enable ==> after_command(s, cmd) == PwrChanState::Enabled
            && command_write(s, cmd) == Some(PinLevel::Low),
        s != PwrChanState::Fault && cmd == ChanCommand::Disable ==> after_command(s, cmd) == PwrChanState::Disabled
            && command_write(s, cmd) == Some(PinLevel::High),
{
}

} // verus!

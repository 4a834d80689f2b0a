use vstd::prelude::*;
use vstd::std_specs::cmp::PartialOrdSpec;
use core::cmp::Ordering;

verus! {

/// An index representing a mode.
pub type Mode = usize;

/// A mode switching action.
#[derive(Clone, Copy, Debug, PartialEq, Eq, Structural)]
pub enum ModeSwitch {
    /// A mode switching action changing the current mode permanently.
    Permanent(Mode),
    /// A temporary mode switching action, changing behaviour only for the next chain.
    Temporary(Mode),
}

/// A configuration value, as the configuration file holds it.
#[derive(Debug)]
pub enum ConfigValue {
    StringValue(String),
    IntegerValue(i64),
    BooleanValue(bool),
    /// A floating point number, whose value no binding reads.
    FloatValue,
    /// A date and time, in its textual form.
    DatetimeValue(String),
    /// An array, with the number of its elements.
    ArrayValue(usize),
    /// A table, with the number of its entries.
    TableValue(usize),
}

/// Errors that come up while reading the keyboard configuration.
#[derive(Debug)]
pub enum KbdError {
    /// The binding named by the string holds a value of the wrong kind. The flag is
    /// set where a leaf value has the wrong type, and clear where the shape (table or
    /// value) is wrong.
    KeyTypeMismatch(String, bool),
}

/// The result of reading the keyboard configuration.
pub type KbdResult<T> = Result<T, KbdError>;

/// A command to be executed in reaction to specific key events.
#[derive(Debug)]
pub enum Cmd {
    /// A string to be passed to a shell to execute the command.
    Shell(String),
    /// A mode to switch to.
    ModeSwitch(ModeSwitch),
}

impl Cmd {
    /// The mode switch this command asks for once run. A shell command asks for none:
    /// starting its process is the caller's part (see `shell_command`).
    pub fn run(&self) -> (r: Option<ModeSwitch>)
        ensures
            r == match *self {
                Cmd::Shell(_) => None,
                Cmd::ModeSwitch(sw) => Some(sw),
            },
    {
        match self {
            Cmd::Shell(_) => None,
            Cmd::ModeSwitch(switch) => Some(*switch),
        }
    }

    /// The command line to hand to a shell, for a shell command.
    pub fn shell_command(&self) -> (r: Option<&String>)
        ensures
            match *self {
                Cmd::Shell(s) => r matches Some(t) && t@ == s@,
                Cmd::ModeSwitch(_) => r is None,
            },
    {
        match self {
            Cmd::Shell(repr) => Some(repr),
            Cmd::ModeSwitch(_) => None,
        }
    }

    /// Construct a command from a configuration value: only a string is a command.
    pub fn from_value(bind_str: String, value: ConfigValue) -> (r: KbdResult<Cmd>)
        ensures
            match value {
                ConfigValue::StringValue(s) => r matches Ok(Cmd::Shell(t)) && t@ == s@,
                _ => r matches Err(KbdError::KeyTypeMismatch(name, at_value)) && name@
                    == bind_str@ && at_value,
            },
    {
        if let ConfigValue::StringValue(repr) = value {
            Ok(Cmd::Shell(repr))
        } else {
            Err(KbdError::KeyTypeMismatch(bind_str, true))
        }
    }
}

/// A key symbol, ordered by its numeric code.
#[derive(Clone, Copy, Debug, PartialEq, Eq, Structural, Ord)]
pub struct Keysym(pub u32);

impl PartialOrd for Keysym {
    fn partial_cmp(&self, other: &Keysym) -> Option<Ordering> {
        if self.0 < other.0 {
            Some(Ordering::Less)
        } else if self.0 == other.0 {
            Some(Ordering::Equal)
        } else {
            Some(Ordering::Greater)
        }
    }
}

impl vstd::std_specs::cmp::PartialOrdSpecImpl for Keysym {
    open spec fn obeys_partial_cmp_spec() -> bool {
        true
    }

    open spec fn partial_cmp_spec(&self, other: &Keysym) -> Option<Ordering> {
        if self.0 < other.0 {
            Some(Ordering::Less)
        } else if self.0 == other.0 {
            Some(Ordering::Equal)
        } else {
            Some(Ordering::Greater)
        }
    }
}

/// Keysyms are ordered as their codes are: a smaller code gives a smaller keysym, a
/// larger code a larger one, and equal codes give equal keysyms.
pub proof fn keysym_order_follows_code(x: u32, y: u32)
    ensures
        x < y ==> Keysym(x).partial_cmp_spec(&Keysym(y)) == Some(Ordering::Less),
        x > y ==> Keysym(x).partial_cmp_spec(&Keysym(y)) == Some(Ordering::Greater),
        x == y ==> Keysym(x) == Keysym(y) && Keysym(x).partial_cmp_spec(&Keysym(y)) == Some(
            Ordering::Equal,
        ),
{
}

/// The active keybinding mode, and the permanent mode to go back to after a
/// temporary switch.
#[derive(Clone, Copy, Debug, PartialEq, Eq, Structural)]
pub struct ModeState {
    /// The mode the next key chain is read in.
    pub current: Mode,
    /// The mode set by the last permanent switch.
    pub permanent: Mode,
}

impl ModeState {
    /// The state after `switch` was received.
    pub open spec fn switched(self, switch: ModeSwitch) -> ModeState {
        match switch {
            ModeSwitch::Permanent(m) => ModeState { current: m, permanent: m },
            ModeSwitch::Temporary(m) => ModeState { current: m, permanent: self.permanent },
        }
    }

    /// The state after a key chain was processed, which asked for `switch`: a temporary
    /// mode ends with the chain, then the chain's own switch is applied.
    pub open spec fn chain_done(self, switch: Option<ModeSwitch>) -> ModeState {
        let back = ModeState { current: self.permanent, permanent: self.permanent };
        match switch {
            Some(sw) => back.switched(sw),
            None => back,
        }
    }

    /// Start in the given mode.
    pub fn new(initial: Mode) -> (r: ModeState)
        ensures
            r.current == initial,
            r.permanent == initial,
    {
        ModeState { current: initial, permanent: initial }
    }

    /// The mode the next key chain is read in.
    pub fn current(&self) -> (r: Mode)
        ensures
            r == self.current,
    {
        self.current
    }

    /// Apply a mode switch.
    pub fn switch_mode(&mut self, switch: ModeSwitch)
        ensures
            *final(self) == old(self).switched(switch),
    {
        match switch {
            ModeSwitch::Permanent(m) => {
                self.current = m;
                self.permanent = m;
            },
            ModeSwitch::Temporary(m) => {
                self.current = m;
            },
        }
    }

    /// Record that a key chain was processed and asked for `switch`.
    pub fn finish_chain(&mut self, switch: Option<ModeSwitch>)
        ensures
            *final(self) == old(self).chain_done(switch),
    {
        self.current = self.permanent;
        if let Some(sw) = switch {
            self.switch_mode(sw);
        }
    }
}

/// The state after `chains` key chains that asked for no switch.
pub open spec fn after_chains(state: ModeState, chains: nat) -> ModeState
    decreases chains,
{
    if chains == 0 {
        state
    } else {
        after_chains(state, (chains - 1) as nat).chain_done(None)
    }
}

/// A temporary switch lasts for exactly one key chain: the chain is read in the new
/// mode, and after it the permanent mode is active again.
pub proof fn temporary_switch_lasts_one_chain(state: ModeState, m: Mode)
    ensures
        state.switched(ModeSwitch::Temporary(m)).current == m,
        state.switched(ModeSwitch::Temporary(m)).chain_done(None).current == state.permanent,
        state.switched(ModeSwitch::Temporary(m)).chain_done(None).permanent == state.permanent,
{
}

/// A permanent switch stays in force over any number of key chains that ask for no
/// other switch.
pub proof fn permanent_switch_persists(state: ModeState, m: Mode, chains: nat)
    ensures
        after_chains(state.switched(ModeSwitch::Permanent(m)), chains).current == m,
        after_chains(state.switched(ModeSwitch::Permanent(m)), chains).permanent == m,
    decreases chains,
{
    if chains > 0 {
        permanent_switch_persists(state, m, (chains - 1) as nat);
    }
}

} // verus!

//! The commands the tool understands, the light-state changes they ask for,
//! and the plan that each command turns into once the settings are known.

use vstd::prelude::*;
use crate::settings::{or_config, resolved};

verus! {

/// Whether to switch a light on or off.
#[derive(Clone, Copy, Debug, PartialEq, Eq, Structural)]
pub enum OnOff {
    On,
    Off,
}

/// The message given for a word that is neither `on` nor `off`.
pub open spec fn on_off_error() -> Seq<char> {
    seq!['o', 'n', ' ', 'o', 'r', ' ', 'o', 'f', 'f', ' ', 'i', 's', ' ',
        'a', 'c', 'c', 'e', 'p', 't', 'a', 'b', 'l', 'e']
}

impl OnOff {
    /// Reads `on` or `off`; any other word is refused with a message.
    pub fn parse(t: &str) -> (r: Result<OnOff, String>)
        ensures
            t@ == seq!['o', 'n'] <==> r == Ok::<OnOff, String>(OnOff::On),
            t@ == seq!['o', 'f', 'f'] <==> r == Ok::<OnOff, String>(OnOff::Off),
            r is Err ==> r->Err_0@ == on_off_error(),
    {
        proof {
            reveal_strlit("on");
            reveal_strlit("off");
            reveal_strlit("on or off is acceptable");
        }
        let s = t.to_owned();
        let on_word = "on".to_owned();
        let off_word = "off".to_owned();
        assert(on_word@ =~= seq!['o', 'n']);
        assert(off_word@ =~= seq!['o', 'f', 'f']);
        if s == on_word {
            Ok(OnOff::On)
        } else if s == off_word {
            Ok(OnOff::Off)
        } else {
            let e = "on or off is acceptable".to_owned();
            assert(e@ =~= on_off_error());
            Err(e)
        }
    }
}

impl std::str::FromStr for OnOff {
    type Err = String;

    fn from_str(t: &str) -> (r: Result<OnOff, String>)
        ensures
            t@ == seq!['o', 'n'] <==> r == Ok::<OnOff, String>(OnOff::On),
            t@ == seq!['o', 'f', 'f'] <==> r == Ok::<OnOff, String>(OnOff::Off),
            r is Err ==> r->Err_0@ == on_off_error(),
    {
        OnOff::parse(t)
    }
}

/// The light-state fields given on the command line; the colour
/// temperature is in Kelvin.
#[derive(Clone, Copy, Debug, PartialEq, Eq, Structural)]
pub struct LightArgs {
    pub turn: Option<OnOff>,
    pub bri: Option<u8>,
    pub hue: Option<u16>,
    pub sat: Option<u8>,
    pub ct: Option<u32>,
}

/// A partial light-state change as the bridge takes it: only the fields
/// that are present are sent. The colour temperature is in mired.
#[derive(Clone, Copy, Debug, PartialEq, Eq, Structural)]
pub struct LightRequest {
    pub on: Option<bool>,
    pub bri: Option<u8>,
    pub hue: Option<u16>,
    pub sat: Option<u8>,
    pub ct: Option<u16>,
}

/// `n / d` rounded to the nearest integer, halves rounded up.
pub open spec fn round_div(n: int, d: int) -> int {
    (2 * n + d) / (2 * d)
}

/// The scale of the Kelvin-to-mired conversion on the way to the bridge.
pub const MIRED_SCALE: u32 = 10000000;

/// Whether a colour temperature of `k` Kelvin has a mired value that the
/// bridge's 16-bit field holds; zero Kelvin has none at all.
pub open spec fn kelvin_in_range(k: u32) -> bool {
    k > 0 && round_div(MIRED_SCALE as int, k as int) <= 65535
}

/// The mired value sent for a colour temperature of `k` Kelvin.
pub open spec fn mired_of_kelvin(k: u32) -> u16 {
    round_div(MIRED_SCALE as int, k as int) as u16
}

/// Tells whether `k` Kelvin can be sent to the bridge.
pub fn kelvin_fits(k: u32) -> (r: bool)
    ensures
        r == kelvin_in_range(k),
{
    if k == 0 {
        false
    } else {
        (2 * (MIRED_SCALE as u64) + k as u64) / (2 * k as u64) <= 65535
    }
}

/// Converts a colour temperature in Kelvin to the bridge's mired unit.
pub fn kelvin_to_mired(k: u32) -> (r: u16)
    requires
        kelvin_in_range(k),
    ensures
        r == mired_of_kelvin(k),
{
    let m: u64 = (2 * (MIRED_SCALE as u64) + k as u64) / (2 * k as u64);
    m as u16
}

/// The bridge's on flag for a switch word.
pub open spec fn on_flag(t: Option<OnOff>) -> Option<bool> {
    match t {
        Some(OnOff::On) => Some(true),
        Some(OnOff::Off) => Some(false),
        None => None,
    }
}

/// Whether the arguments can be turned into a request: a colour
/// temperature, if given, must have a mired value that the bridge holds.
pub open spec fn args_valid(a: LightArgs) -> bool {
    match a.ct {
        Some(k) => kelvin_in_range(k),
        None => true,
    }
}

/// The request that carries exactly the fields given in `a`.
pub open spec fn request_of(a: LightArgs) -> LightRequest {
    LightRequest {
        on: on_flag(a.turn),
        bri: a.bri,
        hue: a.hue,
        sat: a.sat,
        ct: match a.ct {
            Some(k) => Some(mired_of_kelvin(k)),
            None => None,
        },
    }
}

/// Builds the light-state change for the given arguments; `None` when the
/// colour temperature is out of range.
pub fn light_request(a: &LightArgs) -> (r: Option<LightRequest>)
    ensures
        args_valid(*a) <==> r is Some,
        r is Some ==> r->Some_0 == request_of(*a),
{
    let on = match a.turn {
        Some(OnOff::On) => Some(true),
        Some(OnOff::Off) => Some(false),
        None => None,
    };
    let ct = match a.ct {
        Some(k) => {
            if !kelvin_fits(k) {
                return None;
            }
            Some(kelvin_to_mired(k))
        },
        None => None,
    };
    Some(LightRequest { on, bri: a.bri, hue: a.hue, sat: a.sat, ct })
}

/// A command given on the command line, with the values given for it.
#[derive(Clone, Debug, PartialEq, Eq)]
pub enum Command {
    /// Look for bridges on the local network.
    Discover,
    /// Register a new user on a bridge, found by discovery when not given.
    Register { bridge: Option<String>, device_type: String },
    /// Show one light, or all lights when no id is given.
    Show { bridge: Option<String>, user: Option<String>, id: Option<usize> },
    /// Change the state of one light.
    Light { bridge: Option<String>, user: Option<String>, id: usize, state: LightArgs },
}

/// What to do for a command once the settings file has been read.
#[derive(Clone, Debug, PartialEq, Eq)]
pub enum Action {
    Discover,
    Register { bridge: Option<String>, device_type: String },
    ShowAll { bridge: String, user: String },
    ShowOne { bridge: String, user: String, id: usize },
    SetLight { bridge: String, user: String, id: usize, request: LightRequest },
    /// The bridge or the user is known neither from the command line nor
    /// from the settings file.
    MissingTarget,
    /// A colour temperature out of range was asked for: zero Kelvin, or so
    /// low that its mired value does not fit the bridge's field.
    BadColorTemperature,
}

/// The action for `cmd`, given the bridge and user from the settings file.
pub open spec fn plan(cmd: Command, file_bridge: Option<String>, file_user: Option<String>) -> Action {
    match cmd {
        Command::Discover => Action::Discover,
        Command::Register { bridge, device_type } => Action::Register { bridge, device_type },
        Command::Show { bridge, user, id } => {
            let b = resolved(bridge, file_bridge);
            let u = resolved(user, file_user);
            if b is None || u is None {
                Action::MissingTarget
            } else {
                match id {
                    Some(n) => Action::ShowOne { bridge: b->Some_0, user: u->Some_0, id: n },
                    None => Action::ShowAll { bridge: b->Some_0, user: u->Some_0 },
                }
            }
        },
        Command::Light { bridge, user, id, state } => {
            let b = resolved(bridge, file_bridge);
            let u = resolved(user, file_user);
            if b is None || u is None {
                Action::MissingTarget
            } else if !args_valid(state) {
                Action::BadColorTemperature
            } else {
                Action::SetLight {
                    bridge: b->Some_0,
                    user: u->Some_0,
                    id,
                    request: request_of(state),
                }
            }
        },
    }
}

/// Decides what to do for `cmd`, given the bridge and user read from the
/// settings file (`None` where the file has none).
pub fn dispatch(cmd: &Command, file_bridge: Option<String>, file_user: Option<String>) -> (r: Action)
    ensures
        r == plan(*cmd, file_bridge, file_user),
{
    match cmd {
        Command::Discover => Action::Discover,
        Command::Register { bridge, device_type } => Action::Register {
            bridge: bridge.clone(),
            device_type: device_type.clone(),
        },
        Command::Show { bridge, user, id } => {
            let b = or_config(bridge, file_bridge);
            let u = or_config(user, file_user);
            match (b, u) {
                (Some(h), Some(u)) => match id {
                    Some(n) => Action::ShowOne { bridge: h, user: u, id: *n },
                    None => Action::ShowAll { bridge: h, user: u },
                },
                _ => Action::MissingTarget,
            }
        },
        Command::Light { bridge, user, id, state } => {
            let b = or_config(bridge, file_bridge);
            let u = or_config(user, file_user);
            match (b, u) {
                (Some(h), Some(u)) => match light_request(state) {
                    Some(request) => Action::SetLight { bridge: h, user: u, id: *id, request },
                    None => Action::BadColorTemperature,
                },
                _ => Action::MissingTarget,
            }
        },
    }
}

} // verus!

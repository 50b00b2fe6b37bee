use vstd::prelude::*;

use crate::error::RippleError;
use crate::text::{lower_of, lowercase, split_on, split_spec};

verus! {

/// A family of capabilities that a message belongs to.
#[derive(Debug, Clone, Copy, PartialEq, Eq, Structural)]
pub enum RippleContract {
    Internal,
    Main(MainContract),
    Session,
    Device(DeviceContract),
    Distributor,
    Governance,
    Discovery,
    Launcher,
    Player(PlayerAdjective),
    Rpc,
    Ping,
}

#[derive(Debug, Clone, Copy, PartialEq, Eq, Structural)]
pub enum DeviceContract {
    Info,
    WindowManager,
    Browser,
    Hdmi,
}

#[derive(Debug, Clone, Copy, PartialEq, Eq, Structural)]
pub enum MainContract {
    Config,
    LifecycleManagement,
    Rpc,
    ExtnStatus,
}

#[derive(Debug, Clone, Copy, PartialEq, Eq, Structural)]
pub enum PlayerAdjective {
    Base,
    Broadcast,
    Streaming,
}

impl PlayerAdjective {
    pub fn get_contract(&self) -> (r: RippleContract)
        ensures
            r == RippleContract::Player(*self),
    {
        RippleContract::Player(*self)
    }
}

pub open spec fn device_contract_name(d: DeviceContract) -> Seq<char> {
    match d {
        DeviceContract::Info => "info"@,
        DeviceContract::WindowManager => "windowmanager"@,
        DeviceContract::Browser => "browser"@,
        DeviceContract::Hdmi => "hdmi"@,
    }
}

pub open spec fn device_contract_from(s: Seq<char>) -> Option<DeviceContract> {
    if s == "info"@ {
        Some(DeviceContract::Info)
    } else if s == "windowmanager"@ {
        Some(DeviceContract::WindowManager)
    } else if s == "browser"@ {
        Some(DeviceContract::Browser)
    } else {
        None
    }
}

pub open spec fn main_contract_name(m: MainContract) -> Seq<char> {
    match m {
        MainContract::Config => "Config"@,
        MainContract::LifecycleManagement => "LifecycleManagement"@,
        MainContract::Rpc => "Rpc"@,
        MainContract::ExtnStatus => "ExtnStatus"@,
    }
}

pub open spec fn main_contract_from(s: Seq<char>) -> Option<MainContract> {
    if s == "config"@ {
        Some(MainContract::Config)
    } else if s == "lifecyclemanagement"@ {
        Some(MainContract::LifecycleManagement)
    } else if s == "rpc"@ {
        Some(MainContract::Rpc)
    } else if s == "extnstatus"@ {
        Some(MainContract::ExtnStatus)
    } else {
        None
    }
}

pub open spec fn player_adjective_name(p: PlayerAdjective) -> Seq<char> {
    match p {
        PlayerAdjective::Base => "Base"@,
        PlayerAdjective::Broadcast => "Broadcast"@,
        PlayerAdjective::Streaming => "Streaming"@,
    }
}

/// The contract named by a lowercase kind and adjective, such as `device` and `info`.
pub open spec fn contract_from_parts(kind: Seq<char>, adjective: Seq<char>) -> Option<
    RippleContract,
> {
    if kind == "device"@ {
        match device_contract_from(adjective) {
            Some(d) => Some(RippleContract::Device(d)),
            None => None,
        }
    } else if kind == "main"@ {
        match main_contract_from(adjective) {
            Some(m) => Some(RippleContract::Main(m)),
            None => None,
        }
    } else {
        None
    }
}

/// Reads `kind:adjective`, ignoring case.
pub open spec fn parse_contract(s: Seq<char>) -> Option<RippleContract> {
    let p = split_spec(s, ':');
    if p.len() == 2 {
        contract_from_parts(lower_of(p[0]), lower_of(p[1]))
    } else {
        None
    }
}

/// The text form of a contract: `device:<name>` for a device contract, the
/// variant's name (with its adjective in parentheses) for any other.
pub open spec fn contract_text(c: RippleContract) -> Seq<char> {
    match c {
        RippleContract::Internal => "Internal"@,
        RippleContract::Main(m) => "Main("@ + main_contract_name(m) + ")"@,
        RippleContract::Session => "Session"@,
        RippleContract::Device(d) => "device:"@ + device_contract_name(d),
        RippleContract::Distributor => "Distributor"@,
        RippleContract::Governance => "Governance"@,
        RippleContract::Discovery => "Discovery"@,
        RippleContract::Launcher => "Launcher"@,
        RippleContract::Player(p) => "Player("@ + player_adjective_name(p) + ")"@,
        RippleContract::Rpc => "Rpc"@,
        RippleContract::Ping => "Ping"@,
    }
}

impl DeviceContract {
    pub fn as_str(&self) -> (r: &'static str)
        ensures
            r@ == device_contract_name(*self),
    {
        match self {
            DeviceContract::Info => "info",
            DeviceContract::WindowManager => "windowmanager",
            DeviceContract::Browser => "browser",
            DeviceContract::Hdmi => "hdmi",
        }
    }

    /// Reads a lowercase device contract name. The HDMI contract is only
    /// ever named by its requests, never read from text.
    pub fn try_from(value: &str) -> (r: Result<DeviceContract, RippleError>)
        ensures
            match device_contract_from(value@) {
                Some(d) => r == Ok::<DeviceContract, RippleError>(d),
                None => r == Err::<DeviceContract, RippleError>(RippleError::ParseError),
            },
    {
        let v = String::from_str(value);
        if v == String::from_str("info") {
            Ok(DeviceContract::Info)
        } else if v == String::from_str("windowmanager") {
            Ok(DeviceContract::WindowManager)
        } else if v == String::from_str("browser") {
            Ok(DeviceContract::Browser)
        } else {
            Err(RippleError::ParseError)
        }
    }
}

impl MainContract {
    pub fn as_str(&self) -> (r: &'static str)
        ensures
            r@ == main_contract_name(*self),
    {
        match self {
            MainContract::Config => "Config",
            MainContract::LifecycleManagement => "LifecycleManagement",
            MainContract::Rpc => "Rpc",
            MainContract::ExtnStatus => "ExtnStatus",
        }
    }

    /// Reads a lowercase main contract name.
    pub fn try_from(value: &str) -> (r: Result<MainContract, RippleError>)
        ensures
            match main_contract_from(value@) {
                Some(m) => r == Ok::<MainContract, RippleError>(m),
                None => r == Err::<MainContract, RippleError>(RippleError::ParseError),
            },
    {
        let v = String::from_str(value);
        if v == String::from_str("config") {
            Ok(MainContract::Config)
        } else if v == String::from_str("lifecyclemanagement") {
            Ok(MainContract::LifecycleManagement)
        } else if v == String::from_str("rpc") {
            Ok(MainContract::Rpc)
        } else if v == String::from_str("extnstatus") {
            Ok(MainContract::ExtnStatus)
        } else {
            Err(RippleError::ParseError)
        }
    }
}

impl PlayerAdjective {
    pub fn as_str(&self) -> (r: &'static str)
        ensures
            r@ == player_adjective_name(*self),
    {
        match self {
            PlayerAdjective::Base => "Base",
            PlayerAdjective::Broadcast => "Broadcast",
            PlayerAdjective::Streaming => "Streaming",
        }
    }
}

impl RippleContract {
    /// The short name of device and main contracts.
    pub fn get_short(&self) -> (r: Option<String>)
        ensures
            match *self {
                RippleContract::Device(_) => r matches Some(s) && s@ == "device"@,
                RippleContract::Main(_) => r matches Some(s) && s@ == "main"@,
                _ => r is None,
            },
    {
        match self {
            RippleContract::Device(_) => Some(String::from_str("device")),
            RippleContract::Main(_) => Some(String::from_str("main")),
            _ => None,
        }
    }

    /// Contracts served by the gateway itself.
    pub fn is_main(&self) -> (r: bool)
        ensures
            r == (*self is Main || *self is Internal),
    {
        match self {
            RippleContract::Main(_) | RippleContract::Internal => true,
            _ => false,
        }
    }

    /// The contract named by a kind and an adjective that are already in lower case.
    pub fn from_lowercase_parts(kind: &str, adjective: &str) -> (r: Result<
        RippleContract,
        RippleError,
    >)
        ensures
            match contract_from_parts(kind@, adjective@) {
                Some(c) => r == Ok::<RippleContract, RippleError>(c),
                None => r == Err::<RippleContract, RippleError>(RippleError::ParseError),
            },
    {
        let k = String::from_str(kind);
        if k == String::from_str("device") {
            match DeviceContract::try_from(adjective) {
                Ok(d) => Ok(RippleContract::Device(d)),
                Err(_) => Err(RippleError::ParseError),
            }
        } else if k == String::from_str("main") {
            match MainContract::try_from(adjective) {
                Ok(m) => Ok(RippleContract::Main(m)),
                Err(_) => Err(RippleError::ParseError),
            }
        } else {
            Err(RippleError::ParseError)
        }
    }

    /// Reads `kind:adjective` in any case, such as `device:info`.
    pub fn try_from(value: String) -> (r: Result<RippleContract, RippleError>)
        ensures
            match parse_contract(value@) {
                Some(c) => r == Ok::<RippleContract, RippleError>(c),
                None => r == Err::<RippleContract, RippleError>(RippleError::ParseError),
            },
    {
        let parts = split_on(value.as_str(), ':');
        if parts.len() != 2 {
            return Err(RippleError::ParseError);
        }
        let kind = lowercase(parts[0].as_str());
        let adjective = lowercase(parts[1].as_str());
        RippleContract::from_lowercase_parts(kind.as_str(), adjective.as_str())
    }

    /// The text form of the contract.
    pub fn as_string(&self) -> (r: String)
        ensures
            r@ == contract_text(*self),
    {
        match self {
            RippleContract::Internal => String::from_str("Internal"),
            RippleContract::Main(m) => String::from_str("Main(").concat(m.as_str()).concat(")"),
            RippleContract::Session => String::from_str("Session"),
            RippleContract::Device(d) => String::from_str("device:").concat(d.as_str()),
            RippleContract::Distributor => String::from_str("Distributor"),
            RippleContract::Governance => String::from_str("Governance"),
            RippleContract::Discovery => String::from_str("Discovery"),
            RippleContract::Launcher => String::from_str("Launcher"),
            RippleContract::Player(p) => String::from_str("Player(").concat(p.as_str()).concat(
                ")",
            ),
            RippleContract::Rpc => String::from_str("Rpc"),
            RippleContract::Ping => String::from_str("Ping"),
        }
    }
}

impl From<RippleContract> for String {
    fn from(c: RippleContract) -> (r: String)
        ensures
            r@ == contract_text(c),
    {
        c.as_string()
    }
}

/// `String::from` is not described through `from_spec`: its contract above
/// gives the text.
impl vstd::std_specs::convert::FromSpecImpl<RippleContract> for String {
    open spec fn obeys_from_spec() -> bool {
        false
    }

    open spec fn from_spec(c: RippleContract) -> String {
        arbitrary()
    }
}

} // verus!

use vstd::prelude::*;

use crate::error::RippleError;
use crate::text::{lemma_split_concat, lemma_split_no_sep, split_on, split_spec};

verus! {

/// What an extension symbol offers: the gateway itself, a channel, or a plain extension.
#[derive(Debug, Clone, Copy, PartialEq, Eq, Structural)]
pub enum ExtnType {
    Main,
    Channel,
    Extn,
}

/// The family of services an extension belongs to.
#[derive(Debug, Clone, Copy, PartialEq, Eq, Structural)]
pub enum ExtnClassId {
    Gateway,
    Device,
    DataGovernance,
    Distributor,
    Protected,
    Internal,
    Launcher,
}

/// Identifies a capability endpoint; written `ripple:<type>:<class>:<service>`,
/// for instance `ripple:channel:device:thunder`.
#[derive(Debug, PartialEq, Eq)]
pub struct ExtnId {
    pub extn_type: ExtnType,
    pub class: ExtnClassId,
    pub service: String,
}

/// The mathematical value of an [`ExtnId`].
pub struct ExtnIdView {
    pub extn_type: ExtnType,
    pub class: ExtnClassId,
    pub service: Seq<char>,
}

impl View for ExtnId {
    type V = ExtnIdView;

    open spec fn view(&self) -> ExtnIdView {
        ExtnIdView { extn_type: self.extn_type, class: self.class, service: self.service@ }
    }
}

pub open spec fn extn_type_name(t: ExtnType) -> Seq<char> {
    match t {
        ExtnType::Main => "main"@,
        ExtnType::Channel => "channel"@,
        ExtnType::Extn => "extn"@,
    }
}

pub open spec fn type_from_name(s: Seq<char>) -> Option<ExtnType> {
    if s == "main"@ {
        Some(ExtnType::Main)
    } else if s == "channel"@ {
        Some(ExtnType::Channel)
    } else if s == "extn"@ {
        Some(ExtnType::Extn)
    } else {
        None
    }
}

pub open spec fn class_name(c: ExtnClassId) -> Seq<char> {
    match c {
        ExtnClassId::Gateway => "gateway"@,
        ExtnClassId::Device => "device"@,
        ExtnClassId::DataGovernance => "datagovernance"@,
        ExtnClassId::Distributor => "distributor"@,
        ExtnClassId::Protected => "protected"@,
        ExtnClassId::Internal => "internal"@,
        ExtnClassId::Launcher => "launcher"@,
    }
}

pub open spec fn class_from_name(s: Seq<char>) -> Option<ExtnClassId> {
    if s == "gateway"@ {
        Some(ExtnClassId::Gateway)
    } else if s == "device"@ {
        Some(ExtnClassId::Device)
    } else if s == "datagovernance"@ {
        Some(ExtnClassId::DataGovernance)
    } else if s == "distributor"@ {
        Some(ExtnClassId::Distributor)
    } else if s == "protected"@ {
        Some(ExtnClassId::Protected)
    } else if s == "internal"@ {
        Some(ExtnClassId::Internal)
    } else if s == "launcher"@ {
        Some(ExtnClassId::Launcher)
    } else {
        None
    }
}

/// Reads an extension id: exactly four `:`-separated pieces, the first
/// `ripple`, then a known type, a known class, and the service name.
pub open spec fn parse_extn_id(s: Seq<char>) -> Option<ExtnIdView> {
    let p = split_spec(s, ':');
    if p.len() == 4 && p[0] == "ripple"@ && type_from_name(p[1]) is Some && class_from_name(
        p[2],
    ) is Some {
        Some(
            ExtnIdView {
                extn_type: type_from_name(p[1])->0,
                class: class_from_name(p[2])->0,
                service: p[3],
            },
        )
    } else {
        None
    }
}

/// The text form of an id.
pub open spec fn extn_id_text(id: ExtnIdView) -> Seq<char> {
    "ripple:"@ + extn_type_name(id.extn_type) + ":"@ + class_name(id.class) + ":"@ + id.service
}

pub open spec fn is_channel_spec(id: ExtnIdView) -> bool {
    id.extn_type == ExtnType::Channel
}

pub open spec fn is_extn_spec(id: ExtnIdView) -> bool {
    id.extn_type == ExtnType::Extn
}

/// The channel that talks to the device: it is started before every other channel.
pub open spec fn is_device_channel_spec(id: ExtnIdView) -> bool {
    id.extn_type == ExtnType::Channel && id.class == ExtnClassId::Device
}

impl ExtnType {
    pub fn as_str(&self) -> (r: &'static str)
        ensures
            r@ == extn_type_name(*self),
    {
        match self {
            ExtnType::Main => "main",
            ExtnType::Channel => "channel",
            ExtnType::Extn => "extn",
        }
    }

    pub fn from_name(s: &String) -> (r: Option<ExtnType>)
        ensures
            r == type_from_name(s@),
    {
        if *s == String::from_str("main") {
            Some(ExtnType::Main)
        } else if *s == String::from_str("channel") {
            Some(ExtnType::Channel)
        } else if *s == String::from_str("extn") {
            Some(ExtnType::Extn)
        } else {
            None
        }
    }
}

impl ExtnClassId {
    pub fn as_str(&self) -> (r: &'static str)
        ensures
            r@ == class_name(*self),
    {
        match self {
            ExtnClassId::Gateway => "gateway",
            ExtnClassId::Device => "device",
            ExtnClassId::DataGovernance => "datagovernance",
            ExtnClassId::Distributor => "distributor",
            ExtnClassId::Protected => "protected",
            ExtnClassId::Internal => "internal",
            ExtnClassId::Launcher => "launcher",
        }
    }

    pub fn from_name(s: &String) -> (r: Option<ExtnClassId>)
        ensures
            r == class_from_name(s@),
    {
        if *s == String::from_str("gateway") {
            Some(ExtnClassId::Gateway)
        } else if *s == String::from_str("device") {
            Some(ExtnClassId::Device)
        } else if *s == String::from_str("datagovernance") {
            Some(ExtnClassId::DataGovernance)
        } else if *s == String::from_str("distributor") {
            Some(ExtnClassId::Distributor)
        } else if *s == String::from_str("protected") {
            Some(ExtnClassId::Protected)
        } else if *s == String::from_str("internal") {
            Some(ExtnClassId::Internal)
        } else if *s == String::from_str("launcher") {
            Some(ExtnClassId::Launcher)
        } else {
            None
        }
    }
}

impl Clone for ExtnId {
    fn clone(&self) -> (r: Self)
        ensures
            r == *self,
    {
        ExtnId { extn_type: self.extn_type, class: self.class, service: self.service.clone() }
    }
}

impl ExtnId {
    pub fn new(extn_type: ExtnType, class: ExtnClassId, service: String) -> (r: ExtnId)
        ensures
            r@ == (ExtnIdView { extn_type, class, service: service@ }),
    {
        ExtnId { extn_type, class, service }
    }

    /// Reads an id from its text form; a text that is not a well-formed id is a `ParseError`.
    pub fn try_from(value: &str) -> (r: Result<ExtnId, RippleError>)
        ensures
            match parse_extn_id(value@) {
                Some(v) => r matches Ok(id) && id@ == v,
                None => r == Err::<ExtnId, RippleError>(RippleError::ParseError),
            },
    {
        let parts = split_on(value, ':');
        if parts.len() != 4 {
            return Err(RippleError::ParseError);
        }
        if parts[0] != String::from_str("ripple") {
            return Err(RippleError::ParseError);
        }
        let t = ExtnType::from_name(&parts[1]);
        let c = ExtnClassId::from_name(&parts[2]);
        match (t, c) {
            (Some(extn_type), Some(class)) => {
                Ok(ExtnId { extn_type, class, service: parts[3].clone() })
            },
            _ => Err(RippleError::ParseError),
        }
    }

    /// The text form `ripple:<type>:<class>:<service>`.
    pub fn to_string(&self) -> (r: String)
        ensures
            r@ == extn_id_text(self@),
    {
        let s = String::from_str("ripple:");
        let s = s.concat(self.extn_type.as_str());
        let s = s.concat(":");
        let s = s.concat(self.class.as_str());
        let s = s.concat(":");
        s.concat(self.service.as_str())
    }

    pub fn is_channel(&self) -> (r: bool)
        ensures
            r == is_channel_spec(self@),
    {
        self.extn_type == ExtnType::Channel
    }

    pub fn is_extn(&self) -> (r: bool)
        ensures
            r == is_extn_spec(self@),
    {
        self.extn_type == ExtnType::Extn
    }

    pub fn is_device_channel(&self) -> (r: bool)
        ensures
            r == is_device_channel_spec(self@),
    {
        self.extn_type == ExtnType::Channel && self.class == ExtnClassId::Device
    }
}

} // verus!

verus! {

proof fn lemma_names_have_no_colon(t: ExtnType, c: ExtnClassId)
    ensures
        !extn_type_name(t).contains(':'),
        !class_name(c).contains(':'),
        type_from_name(extn_type_name(t)) == Some(t),
        class_from_name(class_name(c)) == Some(c),
{
    reveal_strlit("main");
    reveal_strlit("channel");
    reveal_strlit("extn");
    reveal_strlit("gateway");
    reveal_strlit("device");
    reveal_strlit("datagovernance");
    reveal_strlit("distributor");
    reveal_strlit("protected");
    reveal_strlit("internal");
    reveal_strlit("launcher");
    assert("main"@.len() == 4);
    assert("channel"@.len() == 7);
    assert("extn"@.len() == 4);
    assert("gateway"@.len() == 7);
    assert("device"@.len() == 6);
    assert("datagovernance"@.len() == 14);
    assert("distributor"@.len() == 11);
    assert("protected"@.len() == 9);
    assert("internal"@.len() == 8);
    assert("launcher"@.len() == 8);
    assert("main"@[0] != "extn"@[0]);
    assert("main"@ != "extn"@);
    assert("channel"@[0] != "gateway"@[0]);
    assert("channel"@ != "gateway"@);
    assert("internal"@[0] != "launcher"@[0]);
    assert("internal"@ != "launcher"@);
    let tn = extn_type_name(t);
    let cn = class_name(c);
    assert(!tn.contains(':')) by {
        if tn.contains(':') {
            let i = choose|i: int| 0 <= i < tn.len() && tn[i] == ':';
        }
    }
    assert(!cn.contains(':')) by {
        if cn.contains(':') {
            let i = choose|i: int| 0 <= i < cn.len() && cn[i] == ':';
        }
    }
}

/// Reading the text form of an id gives the id back, whenever its service
/// name holds no `:` (the separator of the text form).
pub proof fn lemma_extn_id_round_trip(id: ExtnIdView)
    requires
        !id.service.contains(':'),
    ensures
        parse_extn_id(extn_id_text(id)) == Some(id),
{
    reveal_strlit("ripple:");
    reveal_strlit("ripple");
    reveal_strlit(":");
    let tn = extn_type_name(id.extn_type);
    let cn = class_name(id.class);
    lemma_names_have_no_colon(id.extn_type, id.class);
    let r = "ripple"@;
    assert(!r.contains(':')) by {
        if r.contains(':') {
            let i = choose|i: int| 0 <= i < r.len() && r[i] == ':';
        }
    }
    assert("ripple:"@ =~= r.push(':'));
    assert(":"@ =~= seq![':']);
    let text = extn_id_text(id);
    assert(text =~= r.push(':') + (tn.push(':') + (cn.push(':') + id.service)));
    lemma_split_concat(cn, id.service, ':');
    lemma_split_concat(tn, cn.push(':') + id.service, ':');
    lemma_split_concat(r, tn.push(':') + (cn.push(':') + id.service), ':');
    lemma_split_no_sep(r, ':');
    lemma_split_no_sep(tn, ':');
    lemma_split_no_sep(cn, ':');
    lemma_split_no_sep(id.service, ':');
    let p = split_spec(text, ':');
    assert(p =~= seq![r, tn, cn, id.service]);
}

} // verus!

//! The type attributes of stanzas: IQ, message and presence types.
use vstd::prelude::*;

verus! {

/// `c` is `w` or, when `w` is a lower-case ASCII letter, its upper-case form.
pub open spec fn char_matches_lower(c: char, w: char) -> bool {
    c == w || ('A' <= c && c <= 'Z' && (c as u32) + 32 == (w as u32))
}

/// `s` spells the lower-case word `w`, ignoring ASCII case. For the words of this module,
/// none of which holds a `k`, this is `s.to_lowercase() == w`.
pub open spec fn matches_ignore_case(s: Seq<char>, w: Seq<char>) -> bool {
    &&& s.len() == w.len()
    &&& forall|i: int| 0 <= i < s.len() ==> char_matches_lower(#[trigger] s[i], w[i])
}

/// Whether `s` spells the lower-case word `w`, ignoring ASCII case.
pub fn eq_ignore_case(s: &str, w: &str) -> (r: bool)
    ensures
        r == matches_ignore_case(s@, w@),
{
    let n = s.unicode_len();
    if n != w.unicode_len() {
        return false;
    }
    let mut i: usize = 0;
    while i < n
        invariant
            n as int == s@.len(),
            n as int == w@.len(),
            0 <= i <= n,
            forall|j: int| 0 <= j < i ==> char_matches_lower(#[trigger] s@[j], w@[j]),
        decreases n - i,
    {
        let c = s.get_char(i);
        let d = w.get_char(i);
        let ok = c == d || ('A' <= c && c <= 'Z' && (c as u32) + 32 == (d as u32));
        if !ok {
            assert(!char_matches_lower(s@[i as int], w@[i as int]));
            return false;
        }
        i = i + 1;
    }
    true
}

/// The error a conversion of a stanza or of one of its attributes gives back.
#[derive(Debug, Clone, Copy, PartialEq, Eq, Structural)]
pub enum EventError {
    /// The input does not hold what the conversion needs.
    InvalidInput,
}

#[derive(Debug, Copy, Clone, PartialEq, Eq, Structural)]
pub enum EventType {
    Iq,
    Message,
    Presence,
}

#[derive(Debug, Clone, Copy, PartialEq, Eq, Structural)]
pub enum StanzaError {
    Unspecified,
}

#[derive(Debug, Copy, Clone, PartialEq, Eq, Structural)]
pub enum IqType {
    Get,
    SetRequest,
    Result,
    Error,
}

/// The IQ type a text names, ignoring case.
pub open spec fn spec_iq_type_from(s: Seq<char>) -> Option<IqType> {
    if matches_ignore_case(s, "get"@) {
        Some(IqType::Get)
    } else if matches_ignore_case(s, "set"@) {
        Some(IqType::SetRequest)
    } else if matches_ignore_case(s, "result"@) {
        Some(IqType::Result)
    } else if matches_ignore_case(s, "error"@) {
        Some(IqType::Error)
    } else {
        None
    }
}

/// The text of an IQ type.
pub open spec fn spec_iq_type_text(t: IqType) -> Seq<char> {
    match t {
        IqType::Get => "get"@,
        IqType::SetRequest => "set"@,
        IqType::Result => "result"@,
        IqType::Error => "error"@,
    }
}

impl IqType {
    pub fn from_str(s: &str) -> (r: Result<IqType, EventError>)
        ensures
            match spec_iq_type_from(s@) {
                Some(t) => r == Ok::<IqType, EventError>(t),
                None => r == Err::<IqType, EventError>(EventError::InvalidInput),
            },
    {
        if eq_ignore_case(s, "get") {
            Ok(IqType::Get)
        } else if eq_ignore_case(s, "set") {
            Ok(IqType::SetRequest)
        } else if eq_ignore_case(s, "result") {
            Ok(IqType::Result)
        } else if eq_ignore_case(s, "error") {
            Ok(IqType::Error)
        } else {
            Err(EventError::InvalidInput)
        }
    }

    /// The text of this type.
    pub fn to_string(&self) -> (r: String)
        ensures
            r@ == spec_iq_type_text(*self),
    {
        match self {
            IqType::Get => "get".to_owned(),
            IqType::SetRequest => "set".to_owned(),
            IqType::Result => "result".to_owned(),
            IqType::Error => "error".to_owned(),
        }
    }
}

#[derive(Debug, Clone, Copy, PartialEq, Eq, Structural)]
pub enum MessageType {
    Chat,
    Error,
}

/// The message type a text names, ignoring case.
pub open spec fn spec_message_type_from(s: Seq<char>) -> Option<MessageType> {
    if matches_ignore_case(s, "error"@) {
        Some(MessageType::Error)
    } else if matches_ignore_case(s, "chat"@) {
        Some(MessageType::Chat)
    } else {
        None
    }
}

pub open spec fn spec_message_type_text(t: MessageType) -> Seq<char> {
    match t {
        MessageType::Error => "error"@,
        MessageType::Chat => "chat"@,
    }
}

impl MessageType {
    pub fn from_str(s: &str) -> (r: Result<MessageType, EventError>)
        ensures
            match spec_message_type_from(s@) {
                Some(t) => r == Ok::<MessageType, EventError>(t),
                None => r == Err::<MessageType, EventError>(EventError::InvalidInput),
            },
    {
        if eq_ignore_case(s, "error") {
            Ok(MessageType::Error)
        } else if eq_ignore_case(s, "chat") {
            Ok(MessageType::Chat)
        } else {
            Err(EventError::InvalidInput)
        }
    }

    pub fn to_string(&self) -> (r: String)
        ensures
            r@ == spec_message_type_text(*self),
    {
        match self {
            MessageType::Error => "error".to_owned(),
            MessageType::Chat => "chat".to_owned(),
        }
    }
}

#[derive(Debug, Clone, Copy, PartialEq, Eq, Structural)]
pub enum PresenceType {
    Available,
}

pub open spec fn spec_presence_type_from(s: Seq<char>) -> Option<PresenceType> {
    if matches_ignore_case(s, "available"@) {
        Some(PresenceType::Available)
    } else {
        None
    }
}

pub open spec fn spec_presence_type_text(t: PresenceType) -> Seq<char> {
    match t {
        PresenceType::Available => "available"@,
    }
}

impl PresenceType {
    pub fn from_str(s: &str) -> (r: Result<PresenceType, EventError>)
        ensures
            match spec_presence_type_from(s@) {
                Some(t) => r == Ok::<PresenceType, EventError>(t),
                None => r == Err::<PresenceType, EventError>(EventError::InvalidInput),
            },
    {
        if eq_ignore_case(s, "available") {
            Ok(PresenceType::Available)
        } else {
            Err(EventError::InvalidInput)
        }
    }

    pub fn to_string(&self) -> (r: String)
        ensures
            r@ == spec_presence_type_text(*self),
    {
        match self {
            PresenceType::Available => "available".to_owned(),
        }
    }
}

/// Reading the text of an IQ type gives that type back.
pub proof fn lemma_iq_type_text_roundtrip(t: IqType)
    ensures
        spec_iq_type_from(spec_iq_type_text(t)) == Some(t),
{
    reveal_strlit("get");
    reveal_strlit("set");
    reveal_strlit("result");
    reveal_strlit("error");
    let s = spec_iq_type_text(t);
    assert(matches_ignore_case(s, s));
    match t {
        IqType::Get => {},
        IqType::SetRequest => {
            assert(!matches_ignore_case(s, "get"@)) by {
                assert(!char_matches_lower(s[0], "get"@[0]));
            }
        },
        IqType::Result => {},
        IqType::Error => {},
    }
}

} // verus!

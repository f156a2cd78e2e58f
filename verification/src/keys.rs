use vstd::prelude::*;

use crate::text::{chars_of, parse_unsigned, parse_unsigned_spec, split_chars, split_on, string_from_chars};

verus! {

/// A service: original network, transport stream and service ids.
#[derive(Debug, Clone, Copy, PartialEq, Eq, Structural)]
pub struct ServiceKey {
    pub onid: u16,
    pub tsid: u16,
    pub sid: u16,
}

/// A program: its service and its event id.
#[derive(Debug, Clone, Copy, PartialEq, Eq, Structural)]
pub struct EventKey {
    pub service: ServiceKey,
    pub eid: u16,
}

impl DeepView for ServiceKey {
    type V = ServiceKey;

    open spec fn deep_view(&self) -> ServiceKey {
        *self
    }
}

impl DeepView for EventKey {
    type V = EventKey;

    open spec fn deep_view(&self) -> EventKey {
        *self
    }
}

/// The `u16` that a decimal field gives, if it gives one.
pub open spec fn field_u16(cs: Seq<char>) -> Option<u16> {
    match parse_unsigned_spec(cs, 65535) {
        Some(v) => Some(v as u16),
        None => None,
    }
}

/// The service key written as `onid:tsid:sid`, if `cs` is one.
pub open spec fn service_key_of(cs: Seq<char>) -> Option<ServiceKey> {
    let parts = split_on(cs, ':');
    if parts.len() == 3 && field_u16(parts[0]) is Some && field_u16(parts[1]) is Some && field_u16(
        parts[2],
    ) is Some {
        Some(
            ServiceKey {
                onid: field_u16(parts[0]).unwrap(),
                tsid: field_u16(parts[1]).unwrap(),
                sid: field_u16(parts[2]).unwrap(),
            },
        )
    } else {
        None
    }
}

/// The event key written as `onid:tsid:sid:eid`, if `cs` is one.
pub open spec fn event_key_of(cs: Seq<char>) -> Option<EventKey> {
    let parts = split_on(cs, ':');
    if parts.len() == 4 && field_u16(parts[0]) is Some && field_u16(parts[1]) is Some && field_u16(
        parts[2],
    ) is Some && field_u16(parts[3]) is Some {
        Some(
            EventKey {
                service: ServiceKey {
                    onid: field_u16(parts[0]).unwrap(),
                    tsid: field_u16(parts[1]).unwrap(),
                    sid: field_u16(parts[2]).unwrap(),
                },
                eid: field_u16(parts[3]).unwrap(),
            },
        )
    } else {
        None
    }
}

/// The message of a service key that cannot be read.
pub open spec fn service_key_message(value: Seq<char>) -> Seq<char> {
    "service key must be onid:tsid:sid: "@ + value
}

/// The message of an event key that cannot be read.
pub open spec fn event_key_message(value: Seq<char>) -> Seq<char> {
    "event key must be onid:tsid:sid:eid: "@ + value
}

/// The service id that EDCB's program lookup filters on: `onid << 32 | tsid << 16 | sid`.
pub open spec fn search_id(k: ServiceKey) -> int {
    k.onid * 4294967296 + k.tsid * 65536 + k.sid
}

fn parse_field_u16(cs: &Vec<char>) -> (r: Option<u16>)
    ensures
        r == field_u16(cs@),
{
    match parse_unsigned(cs.as_slice(), 65535) {
        Some(v) => Some(v as u16),
        None => None,
    }
}

/// A message made of a fixed text and the offending value.
pub fn message_with(prefix: &str, value: &str) -> (m: String)
    ensures
        m@ == prefix@ + value@,
{
    let mut cs = chars_of(prefix);
    let mut tail = chars_of(value);
    cs.append(&mut tail);
    string_from_chars(cs.as_slice())
}

impl ServiceKey {
    /// Parses `onid:tsid:sid`, three decimal `u16`.
    pub fn parse(value: &str) -> (r: Result<ServiceKey, String>)
        ensures
            match service_key_of(value@) {
                Some(k) => r == Ok::<ServiceKey, String>(k),
                None => r matches Err(m) && m@ == service_key_message(value@),
            },
    {
        let cs = chars_of(value);
        let parts = split_chars(cs.as_slice(), ':');
        assert(parts.deep_view().len() == parts@.len());
        if parts.len() != 3 {
            return Err(message_with("service key must be onid:tsid:sid: ", value));
        }
        proof {
            assert(parts@[0]@ =~= parts.deep_view()[0]);
            assert(parts@[1]@ =~= parts.deep_view()[1]);
            assert(parts@[2]@ =~= parts.deep_view()[2]);
        }
        let onid = parse_field_u16(&parts[0]);
        let tsid = parse_field_u16(&parts[1]);
        let sid = parse_field_u16(&parts[2]);
        match (onid, tsid, sid) {
            (Some(onid), Some(tsid), Some(sid)) => Ok(ServiceKey { onid, tsid, sid }),
            _ => Err(message_with("service key must be onid:tsid:sid: ", value)),
        }
    }

    /// The service id that EDCB's program lookup filters on.
    pub fn to_search_id(&self) -> (id: i64)
        ensures
            id == search_id(*self),
    {
        (self.onid as i64) * 4294967296 + (self.tsid as i64) * 65536 + (self.sid as i64)
    }
}

impl EventKey {
    /// Parses `onid:tsid:sid:eid`, four decimal `u16`.
    pub fn parse(value: &str) -> (r: Result<EventKey, String>)
        ensures
            match event_key_of(value@) {
                Some(k) => r == Ok::<EventKey, String>(k),
                None => r matches Err(m) && m@ == event_key_message(value@),
            },
    {
        let cs = chars_of(value);
        let parts = split_chars(cs.as_slice(), ':');
        assert(parts.deep_view().len() == parts@.len());
        if parts.len() != 4 {
            return Err(message_with("event key must be onid:tsid:sid:eid: ", value));
        }
        proof {
            assert(parts@[0]@ =~= parts.deep_view()[0]);
            assert(parts@[1]@ =~= parts.deep_view()[1]);
            assert(parts@[2]@ =~= parts.deep_view()[2]);
            assert(parts@[3]@ =~= parts.deep_view()[3]);
        }
        let onid = parse_field_u16(&parts[0]);
        let tsid = parse_field_u16(&parts[1]);
        let sid = parse_field_u16(&parts[2]);
        let eid = parse_field_u16(&parts[3]);
        match (onid, tsid, sid, eid) {
            (Some(onid), Some(tsid), Some(sid), Some(eid)) => Ok(
                EventKey { service: ServiceKey { onid, tsid, sid }, eid },
            ),
            _ => Err(message_with("event key must be onid:tsid:sid:eid: ", value)),
        }
    }
}

impl core::str::FromStr for ServiceKey {
    type Err = String;

    fn from_str(value: &str) -> (r: Result<ServiceKey, String>)
        ensures
            match service_key_of(value@) {
                Some(k) => r == Ok::<ServiceKey, String>(k),
                None => r matches Err(m) && m@ == service_key_message(value@),
            },
    {
        ServiceKey::parse(value)
    }
}

impl core::str::FromStr for EventKey {
    type Err = String;

    fn from_str(value: &str) -> (r: Result<EventKey, String>)
        ensures
            match event_key_of(value@) {
                Some(k) => r == Ok::<EventKey, String>(k),
                None => r matches Err(m) && m@ == event_key_message(value@),
            },
    {
        EventKey::parse(value)
    }
}

/// A program search: a keyword, whether only titles are searched, and an optional service.
#[derive(Debug, Clone, PartialEq, Eq, Default)]
pub struct ProgramSearchQuery {
    pub keyword: String,
    pub title_only: bool,
    pub service: Option<ServiceKey>,
}

/// What a `ProgramSearchQuery` holds, with the keyword as characters.
pub struct ProgramSearchQueryModel {
    pub keyword: Seq<char>,
    pub title_only: bool,
    pub service: Option<ServiceKey>,
}

impl DeepView for ProgramSearchQuery {
    type V = ProgramSearchQueryModel;

    open spec fn deep_view(&self) -> ProgramSearchQueryModel {
        ProgramSearchQueryModel { keyword: self.keyword@, title_only: self.title_only, service: self.service }
    }
}

/// The kinds of EDCB plug-ins.
#[derive(Debug, Clone, Copy, PartialEq, Eq, Structural)]
pub enum PluginKind {
    RecName,
    Write,
}

/// The number that EDCB uses for a plug-in kind.
pub open spec fn plugin_kind_code(k: PluginKind) -> u16 {
    match k {
        PluginKind::RecName => 1,
        PluginKind::Write => 2,
    }
}

impl PluginKind {
    /// The number that EDCB uses for this kind.
    pub fn code(self) -> (c: u16)
        ensures
            c == plugin_kind_code(self),
    {
        match self {
            PluginKind::RecName => 1,
            PluginKind::Write => 2,
        }
    }
}

} // verus!

use vstd::prelude::*;

use crate::codec::{p_vector, vector_wire, WireRead, WireWrite};
use crate::search_key::SearchKeyInfo;
use crate::wire::{le32, s_string};
use crate::datetime::DateTime;
use crate::types::NwPlayTimeShiftInfo;
use crate::error::{decode_error, EdcbError};
use crate::keys::{plugin_kind_code, search_id, EventKey, PluginKind, ProgramSearchQuery, ProgramSearchQueryModel, ServiceKey};
use crate::text::{chars_of, contains_chars, contains_seq, decimal, push_decimal, string_from_chars};
use crate::types::{
    EventInfo, EventInfoModel, RecFileSetInfo, RecFileSetInfoModel, RecSettingData, RecSettingDataModel, ReserveData,
    ReserveDataModel, ServiceEventInfo, ServiceEventInfoModel, ServiceInfo, ServiceInfoModel,
};
use crate::wire::{le16, lei32, p_u16, Reader, Writer};

verus! {

/// Status of a successful command.
pub const CMD_SUCCESS: i32 = 1;
/// Protocol version sent with, and required of, versioned commands.
pub const CMD_VER: u16 = 5;
pub const CMD_EPG_SRV_DEL_RESERVE: i32 = 1014;
pub const CMD_EPG_SRV_ENUM_TUNER_RESERVE: i32 = 1016;
pub const CMD_EPG_SRV_ENUM_SERVICE: i32 = 1021;
pub const CMD_EPG_SRV_SEARCH_PG: i32 = 1025;
pub const CMD_EPG_SRV_ENUM_PG_INFO_EX: i32 = 1029;
pub const CMD_EPG_SRV_ENUM_PG_ARC: i32 = 1030;
pub const CMD_EPG_SRV_FILE_COPY: i32 = 1060;
pub const CMD_EPG_SRV_ENUM_PLUGIN: i32 = 1061;
pub const CMD_EPG_SRV_ENUM_TUNER_PROCESS: i32 = 1066;
pub const CMD_EPG_SRV_NWPLAY_CLOSE: i32 = 1081;
pub const CMD_EPG_SRV_NWPLAY_TF_OPEN: i32 = 1087;
pub const CMD_EPG_SRV_GET_NETWORK_PATH: i32 = 1299;
pub const CMD_EPG_SRV_ENUM_RESERVE2: i32 = 2011;
pub const CMD_EPG_SRV_GET_RESERVE2: i32 = 2012;
pub const CMD_EPG_SRV_ADD_RESERVE2: i32 = 2013;
pub const CMD_EPG_SRV_ENUM_RECINFO_BASIC2: i32 = 2020;
pub const CMD_EPG_SRV_GET_RECINFO2: i32 = 2024;
pub const CMD_EPG_SRV_FILE_COPY2: i32 = 2060;
pub const CMD_EPG_SRV_ENUM_AUTO_ADD2: i32 = 2131;
pub const CMD_EPG_SRV_ENUM_MANU_ADD2: i32 = 2141;
pub const CMD_EPG_SRV_GET_STATUS_NOTIFY2: i32 = 2200;
/// Service mask and key that select every service in a program lookup.
pub const EPG_SERVICE_ALL_MASK: i64 = 0x0000_ffff_ffff_ffff;
pub const EPG_LOOKUP_TIME_BEGIN: i64 = 1;
pub const EPG_LOOKUP_TIME_END: i64 = 0x7fff_ffff_ffff_ffff;
/// Reservation id that asks EDCB for its default reservation settings.
pub const DEFAULT_RESERVE_ID: i32 = 0x7fff_ffff;

/// Where an EDCB server listens, and how long to wait for it.
#[derive(Debug, Clone, PartialEq, Eq)]
pub struct EdcbClient {
    pub host: String,
    pub port: u16,
    pub timeout_millis: u64,
}

impl EdcbClient {
    /// A client of `host:port` with a fifteen-second timeout.
    pub fn new(host: String, port: u16) -> (c: EdcbClient)
        ensures
            c.host@ == host@,
            c.port == port,
            c.timeout_millis == 15000,
    {
        EdcbClient { host, port, timeout_millis: 15000 }
    }

    /// Sets the timeout of each step of a command, in milliseconds.
    pub fn set_timeout(&mut self, timeout_millis: u64)
        ensures
            final(self).timeout_millis == timeout_millis,
            final(self).host == old(self).host,
            final(self).port == old(self).port,
    {
        self.timeout_millis = timeout_millis;
    }
}

/// The request frame of a command: its id, the payload length, the payload.
pub open spec fn request_frame(cmd: i32, payload: Seq<u8>) -> Seq<u8> {
    lei32(cmd) + lei32(payload.len() as i32) + payload
}

/// Frames a command with its payload.
pub fn frame_request(cmd: i32, payload: &[u8]) -> (r: Vec<u8>)
    requires
        payload@.len() <= i32::MAX,
    ensures
        r@ == request_frame(cmd, payload@),
{
    let mut w = Writer::new();
    w.write_i32(cmd);
    w.write_i32(payload.len() as i32);
    let mut i: usize = 0;
    let ghost head = w@;
    while i < payload.len()
        invariant
            i <= payload@.len(),
            w@ == head + payload@.take(i as int),
        decreases payload@.len() - i,
    {
        w.write_u8(payload[i]);
        i = i + 1;
        assert(w@ =~= head + payload@.take(i as int));
    }
    assert(payload@.take(payload@.len() as int) =~= payload@);
    w.into_inner()
}

/// Frames a versioned command: the payload starts with the protocol version.
pub fn frame_request2(cmd: i32, payload: &[u8]) -> (r: Vec<u8>)
    requires
        payload@.len() + 2 <= i32::MAX,
    ensures
        r@ == request_frame(cmd, le16(CMD_VER) + payload@),
{
    let mut w = Writer::new();
    w.write_u16(CMD_VER);
    let mut i: usize = 0;
    let ghost head = w@;
    while i < payload.len()
        invariant
            i <= payload@.len(),
            w@ == head + payload@.take(i as int),
        decreases payload@.len() - i,
    {
        w.write_u8(payload[i]);
        i = i + 1;
        assert(w@ =~= head + payload@.take(i as int));
    }
    assert(payload@.take(payload@.len() as int) =~= payload@);
    let body = w.into_inner();
    frame_request(cmd, body.as_slice())
}

/// The status and the body length of a response header, from its eight bytes.
pub fn parse_response_header(header: &[u8]) -> (r: (i32, Result<usize, EdcbError>))
    requires
        header@.len() == 8,
    ensures
        crate::wire::p_i32(header@) matches Some((status, rest)) && r.0 == status && (crate::wire::p_i32(rest) matches Some((
            size,
            _,
        )) && (size < 0 ==> r.1 matches Err(EdcbError::Decode(_))) && (size >= 0 ==> r.1 == Ok::<usize, EdcbError>(size as usize))),
{
    let mut reader = Reader::new(header);
    let status = match reader.read_i32() {
        Ok(v) => v,
        Err(e) => { return (0, Err(e)); },
    };
    let size = match reader.read_i32() {
        Ok(v) => v,
        Err(e) => { return (status, Err(e)); },
    };
    if size < 0 {
        (status, Err(decode_error("negative response body size")))
    } else {
        (status, Ok(size as usize))
    }
}

/// The body of a response, or the command's failure status.
pub fn check_status(status: i32, body: Vec<u8>) -> (r: Result<Vec<u8>, EdcbError>)
    ensures
        status == CMD_SUCCESS ==> (r matches Ok(b) && b@ == body@),
        status != CMD_SUCCESS ==> (r matches Err(EdcbError::CommandStatus(s)) && s == status),
{
    if status == CMD_SUCCESS {
        Ok(body)
    } else {
        Err(EdcbError::CommandStatus(status))
    }
}

/// A versioned response: a protocol version of at least `CMD_VER`, then the value.
pub open spec fn p_versioned<T: WireRead>(s: Seq<u8>) -> Option<<T as DeepView>::V> {
    match p_u16(s) {
        None => None,
        Some((version, rest)) => if version < CMD_VER {
            None
        } else {
            match T::parse(rest) {
                None => None,
                Some((m, _)) => Some(m),
            }
        },
    }
}

/// Decodes a versioned response.
pub fn read_versioned<T: WireRead>(body: &[u8]) -> (r: Result<T, EdcbError>)
    ensures
        match p_versioned::<T>(body@) {
            Some(m) => r matches Ok(v) && v.deep_view() == m,
            None => r matches Err(EdcbError::Decode(_)),
        },
{
    let mut reader = Reader::new(body);
    let version = reader.read_u16()?;
    if version < CMD_VER {
        return Err(crate::wire::decode_error_with("unsupported EDCB response version ", version as i64));
    }
    T::read_from(&mut reader)
}

/// Decodes a response that is a vector of `T`.
pub fn read_vector_response<T: WireRead>(body: &[u8]) -> (r: Result<Vec<T>, EdcbError>)
    ensures
        match p_vector::<T>(body@) {
            Some((ms, _)) => r matches Ok(v) && v.deep_view() == ms,
            None => r matches Err(EdcbError::Decode(_)),
        },
{
    let mut reader = Reader::new(body);
    reader.read_vector::<T>()
}

/// Decodes a versioned response that is a vector of `T`.
pub fn read_versioned_vector<T: WireRead>(body: &[u8]) -> (r: Result<Vec<T>, EdcbError>)
    ensures
        match p_u16(body@) {
            None => r matches Err(EdcbError::Decode(_)),
            Some((version, rest)) => if version < CMD_VER {
                r matches Err(EdcbError::Decode(_))
            } else {
                match p_vector::<T>(rest) {
                    Some((ms, _)) => r matches Ok(v) && v.deep_view() == ms,
                    None => r matches Err(EdcbError::Decode(_)),
                }
            },
        },
{
    let mut reader = Reader::new(body);
    let version = reader.read_u16()?;
    if version < CMD_VER {
        return Err(crate::wire::decode_error_with("unsupported EDCB response version ", version as i64));
    }
    reader.read_vector::<T>()
}

/// The filter of a program lookup: one service (mask 0) or all of them, over all time.
pub open spec fn lookup_filter(service: Option<ServiceKey>) -> Seq<i64> {
    match service {
        Some(k) => seq![0i64, search_id(k) as i64, EPG_LOOKUP_TIME_BEGIN, EPG_LOOKUP_TIME_END],
        None => seq![EPG_SERVICE_ALL_MASK, EPG_SERVICE_ALL_MASK, EPG_LOOKUP_TIME_BEGIN, EPG_LOOKUP_TIME_END],
    }
}

/// The filter of a program lookup for one service, or for all.
pub fn event_lookup_filter(service: Option<ServiceKey>) -> (r: Vec<i64>)
    ensures
        r@ == lookup_filter(service),
{
    match service {
        Some(k) => vec![0, k.to_search_id(), EPG_LOOKUP_TIME_BEGIN, EPG_LOOKUP_TIME_END],
        None => vec![EPG_SERVICE_ALL_MASK, EPG_SERVICE_ALL_MASK, EPG_LOOKUP_TIME_BEGIN, EPG_LOOKUP_TIME_END],
    }
}

/// Whether a program matches a search: an empty keyword matches everything; otherwise the
/// keyword must occur in the title, or (unless only titles are searched) in the short or
/// extended description.
pub open spec fn matches_query(e: EventInfoModel, q: ProgramSearchQueryModel) -> bool {
    ||| q.keyword.len() == 0
    ||| (e.short_info matches Some(si) && contains_seq(si.event_name, q.keyword))
    ||| (!q.title_only && ((e.short_info matches Some(si) && contains_seq(si.text_char, q.keyword)) || (
    e.ext_info matches Some(x) && contains_seq(x.text_char, q.keyword))))
}

fn str_contains(hay: &String, needle: &Vec<char>) -> (b: bool)
    ensures
        b == contains_seq(hay@, needle@),
{
    let cs = chars_of(hay.as_str());
    contains_chars(cs.as_slice(), needle.as_slice())
}

/// Whether a program matches a search.
pub fn event_matches_query(event: &EventInfo, query: &ProgramSearchQuery) -> (b: bool)
    ensures
        b == matches_query(event.deep_view(), query.deep_view()),
{
    let keyword = chars_of(query.keyword.as_str());
    if keyword.len() == 0 {
        return true;
    }
    let title_match = match &event.short_info {
        Some(info) => str_contains(&info.event_name, &keyword),
        None => false,
    };
    if title_match {
        return true;
    }
    if query.title_only {
        return false;
    }
    let short_match = match &event.short_info {
        Some(info) => str_contains(&info.text_char, &keyword),
        None => false,
    };
    let ext_match = match &event.ext_info {
        Some(info) => str_contains(&info.text_char, &keyword),
        None => false,
    };
    short_match || ext_match
}

/// The programs of a sequence that match a search, in order.
pub open spec fn matching_events(es: Seq<EventInfoModel>, q: ProgramSearchQueryModel) -> Seq<EventInfoModel>
    decreases es.len(),
{
    if es.len() == 0 {
        Seq::empty()
    } else {
        matching_events(es.drop_last(), q) + if matches_query(es.last(), q) {
            seq![es.last()]
        } else {
            Seq::empty()
        }
    }
}

/// The programs of all services that match a search, service by service.
pub open spec fn matching_programs(ss: Seq<ServiceEventInfoModel>, q: ProgramSearchQueryModel) -> Seq<EventInfoModel>
    decreases ss.len(),
{
    if ss.len() == 0 {
        Seq::empty()
    } else {
        matching_programs(ss.drop_last(), q) + matching_events(ss.last().event_list, q)
    }
}

/// The programs of the services that match a search, in the order EDCB listed them.
pub fn filter_programs(services: Vec<ServiceEventInfo>, query: &ProgramSearchQuery) -> (r: Vec<EventInfo>)
    ensures
        r.deep_view() == matching_programs(services.deep_view(), query.deep_view()),
{
    let ghost ss = services.deep_view();
    let ghost q = query.deep_view();
    let mut out: Vec<EventInfo> = Vec::new();
    assert(out.deep_view() =~= matching_programs(ss.take(0), q));
    for service in it: services.into_iter()
        invariant
            it.seq() == services@,
            ss == services.deep_view(),
            q == query.deep_view(),
            out.deep_view() == matching_programs(ss.take(it.index() as int), q),
    {
        let ghost k = it.index();
        let ghost es = service.event_list.deep_view();
        assert(service.deep_view() == ss[k as int]);
        let ghost before = out.deep_view();
        assert(ss.take(k + 1).drop_last() =~= ss.take(k as int));
        for event in it2: service.event_list.into_iter()
            invariant
                it2.seq() == service.event_list@,
                es == service.event_list.deep_view(),
                q == query.deep_view(),
                out.deep_view() == before + matching_events(es.take(it2.index() as int), q),
        {
            let ghost j = it2.index();
            assert(event.deep_view() == es[j as int]);
            assert(es.take(j + 1).drop_last() =~= es.take(j as int));
            let ghost prev = out.deep_view();
            if event_matches_query(&event, query) {
                out.push(event);
                assert(out.deep_view() =~= prev.push(es[j as int]));
            }
            assert(out.deep_view() =~= before + matching_events(es.take(j + 1), q));
        }
        assert(es.take(es.len() as int) =~= es);
    }
    assert(ss.take(ss.len() as int) =~= ss);
    out
}

/// Decodes a response that is one value of `T`.
pub fn read_value_response<T: WireRead>(body: &[u8]) -> (r: Result<T, EdcbError>)
    ensures
        match T::parse(body@) {
            Some((m, _)) => r matches Ok(v) && v.deep_view() == m,
            None => r matches Err(EdcbError::Decode(_)),
        },
{
    let mut reader = Reader::new(body);
    T::read_from(&mut reader)
}

/// Frames a command whose payload is what `payload` holds.
fn finish(cmd: i32, payload: Writer) -> (r: Vec<u8>)
    requires
        payload@.len() <= i32::MAX,
    ensures
        r@ == request_frame(cmd, payload@),
{
    let bytes = payload.into_inner();
    frame_request(cmd, bytes.as_slice())
}

/// Frames a versioned command whose payload (after the version) is what `payload` holds.
fn finish2(cmd: i32, payload: Writer) -> (r: Vec<u8>)
    requires
        payload@.len() + 2 <= i32::MAX,
    ensures
        r@ == request_frame(cmd, le16(CMD_VER) + payload@),
{
    let bytes = payload.into_inner();
    frame_request2(cmd, bytes.as_slice())
}

/// Request listing the services.
pub fn enum_service_request() -> (r: Vec<u8>)
    ensures
        r@ == request_frame(CMD_EPG_SRV_ENUM_SERVICE, Seq::empty()),
{
    finish(CMD_EPG_SRV_ENUM_SERVICE, Writer::new())
}

/// Request listing the programs selected by a lookup filter.
pub fn enum_pg_info_ex_request(service_time_list: &[i64]) -> (r: Vec<u8>)
    requires
        vector_wire::<i64>(service_time_list.deep_view()).len() + 2 <= i32::MAX,
    ensures
        r@ == request_frame(CMD_EPG_SRV_ENUM_PG_INFO_EX, vector_wire::<i64>(service_time_list.deep_view())),
{
    let mut w = Writer::new();
    w.write_vector(service_time_list);
    finish(CMD_EPG_SRV_ENUM_PG_INFO_EX, w)
}

/// Request listing the archived programs selected by a lookup filter.
pub fn enum_pg_arc_request(service_time_list: &[i64]) -> (r: Vec<u8>)
    requires
        vector_wire::<i64>(service_time_list.deep_view()).len() + 2 <= i32::MAX,
    ensures
        r@ == request_frame(CMD_EPG_SRV_ENUM_PG_ARC, vector_wire::<i64>(service_time_list.deep_view())),
{
    let mut w = Writer::new();
    w.write_vector(service_time_list);
    finish(CMD_EPG_SRV_ENUM_PG_ARC, w)
}

/// Request for a file of the server.
pub fn file_copy_request(name: &str) -> (r: Vec<u8>)
    requires
        s_string(name@).len() + 2 <= i32::MAX,
    ensures
        r@ == request_frame(CMD_EPG_SRV_FILE_COPY, s_string(name@)),
{
    let mut w = Writer::new();
    w.write_string(name);
    finish(CMD_EPG_SRV_FILE_COPY, w)
}

/// Request for several files of the server.
pub fn file_copy2_request(names: &[String]) -> (r: Vec<u8>)
    requires
        vector_wire::<String>(names.deep_view()).len() + 2 <= i32::MAX,
    ensures
        r@ == request_frame(CMD_EPG_SRV_FILE_COPY2, le16(CMD_VER) + vector_wire::<String>(names.deep_view())),
{
    let mut w = Writer::new();
    w.write_vector(names);
    finish2(CMD_EPG_SRV_FILE_COPY2, w)
}

/// Request listing the reservations.
pub fn enum_reserve_request() -> (r: Vec<u8>)
    ensures
        r@ == request_frame(CMD_EPG_SRV_ENUM_RESERVE2, le16(CMD_VER) + Seq::empty()),
{
    finish2(CMD_EPG_SRV_ENUM_RESERVE2, Writer::new())
}

/// Request for one reservation; `DEFAULT_RESERVE_ID` asks for the default settings.
pub fn get_reserve_request(reserve_id: i32) -> (r: Vec<u8>)
    ensures
        r@ == request_frame(CMD_EPG_SRV_GET_RESERVE2, le16(CMD_VER) + lei32(reserve_id)),
{
    let mut w = Writer::new();
    w.write_i32(reserve_id);
    finish2(CMD_EPG_SRV_GET_RESERVE2, w)
}

/// Request for the default reservation settings.
pub fn get_default_reserve_request() -> (r: Vec<u8>)
    ensures
        r@ == request_frame(CMD_EPG_SRV_GET_RESERVE2, le16(CMD_VER) + lei32(DEFAULT_RESERVE_ID)),
{
    get_reserve_request(DEFAULT_RESERVE_ID)
}

/// Request adding reservations.
pub fn add_reserves_request(reserves: &[ReserveData]) -> (r: Vec<u8>)
    requires
        forall|i: int| 0 <= i < reserves@.len() ==> <ReserveData as WireWrite>::writable(#[trigger] reserves.deep_view()[i]),
        vector_wire::<ReserveData>(reserves.deep_view()).len() + 2 <= i32::MAX,
    ensures
        r@ == request_frame(CMD_EPG_SRV_ADD_RESERVE2, le16(CMD_VER) + vector_wire::<ReserveData>(reserves.deep_view())),
{
    let mut w = Writer::new();
    w.write_vector(reserves);
    finish2(CMD_EPG_SRV_ADD_RESERVE2, w)
}

/// Request deleting reservations.
pub fn del_reserve_request(reserve_ids: &[i32]) -> (r: Vec<u8>)
    requires
        vector_wire::<i32>(reserve_ids.deep_view()).len() + 2 <= i32::MAX,
    ensures
        r@ == request_frame(CMD_EPG_SRV_DEL_RESERVE, vector_wire::<i32>(reserve_ids.deep_view())),
{
    let mut w = Writer::new();
    w.write_vector(reserve_ids);
    finish(CMD_EPG_SRV_DEL_RESERVE, w)
}

/// Request listing the recorded items.
pub fn enum_rec_info_basic_request() -> (r: Vec<u8>)
    ensures
        r@ == request_frame(CMD_EPG_SRV_ENUM_RECINFO_BASIC2, le16(CMD_VER) + Seq::empty()),
{
    finish2(CMD_EPG_SRV_ENUM_RECINFO_BASIC2, Writer::new())
}

/// Request for one recorded item.
pub fn get_rec_info_request(info_id: i32) -> (r: Vec<u8>)
    ensures
        r@ == request_frame(CMD_EPG_SRV_GET_RECINFO2, le16(CMD_VER) + lei32(info_id)),
{
    let mut w = Writer::new();
    w.write_i32(info_id);
    finish2(CMD_EPG_SRV_GET_RECINFO2, w)
}

/// Request for the network path of a recorded file.
pub fn get_rec_file_network_path_request(path: &str) -> (r: Vec<u8>)
    requires
        s_string(path@).len() + 2 <= i32::MAX,
    ensures
        r@ == request_frame(CMD_EPG_SRV_GET_NETWORK_PATH, s_string(path@)),
{
    let mut w = Writer::new();
    w.write_string(path);
    finish(CMD_EPG_SRV_GET_NETWORK_PATH, w)
}

/// Request opening time-shift playback of a reservation.
pub fn nwplay_tf_open_request(reserve_id: i32) -> (r: Vec<u8>)
    ensures
        r@ == request_frame(CMD_EPG_SRV_NWPLAY_TF_OPEN, lei32(reserve_id)),
{
    let mut w = Writer::new();
    w.write_i32(reserve_id);
    finish(CMD_EPG_SRV_NWPLAY_TF_OPEN, w)
}

/// Request closing a time-shift playback.
pub fn nwplay_close_request(ctrl_id: i32) -> (r: Vec<u8>)
    ensures
        r@ == request_frame(CMD_EPG_SRV_NWPLAY_CLOSE, lei32(ctrl_id)),
{
    let mut w = Writer::new();
    w.write_i32(ctrl_id);
    finish(CMD_EPG_SRV_NWPLAY_CLOSE, w)
}

/// The file path of a time-shift playback, from the response that opened it.
pub fn rec_file_path_of(body: &[u8]) -> (r: Result<(i32, String), EdcbError>)
    ensures
        match <NwPlayTimeShiftInfo as WireRead>::parse(body@) {
            Some((m, _)) => r matches Ok((ctrl, path)) && ctrl == m.ctrl_id && path@ == m.file_path,
            None => r matches Err(EdcbError::Decode(_)),
        },
{
    let info = read_value_response::<NwPlayTimeShiftInfo>(body)?;
    Ok((info.ctrl_id, info.file_path))
}

/// Request listing the reservations of each tuner.
pub fn enum_tuner_reserve_request() -> (r: Vec<u8>)
    ensures
        r@ == request_frame(CMD_EPG_SRV_ENUM_TUNER_RESERVE, Seq::empty()),
{
    finish(CMD_EPG_SRV_ENUM_TUNER_RESERVE, Writer::new())
}

/// Request listing the tuner processes.
pub fn enum_tuner_process_request() -> (r: Vec<u8>)
    ensures
        r@ == request_frame(CMD_EPG_SRV_ENUM_TUNER_PROCESS, Seq::empty()),
{
    finish(CMD_EPG_SRV_ENUM_TUNER_PROCESS, Writer::new())
}

/// Request listing the plug-ins of a kind.
pub fn enum_plugin_request(kind: PluginKind) -> (r: Vec<u8>)
    ensures
        r@ == request_frame(CMD_EPG_SRV_ENUM_PLUGIN, le16(plugin_kind_code(kind))),
{
    let mut w = Writer::new();
    w.write_u16(kind.code());
    finish(CMD_EPG_SRV_ENUM_PLUGIN, w)
}

/// Request searching programs with search conditions.
pub fn search_pg_request(keys: &[SearchKeyInfo]) -> (r: Vec<u8>)
    requires
        vector_wire::<SearchKeyInfo>(keys.deep_view()).len() + 2 <= i32::MAX,
    ensures
        r@ == request_frame(CMD_EPG_SRV_SEARCH_PG, vector_wire::<SearchKeyInfo>(keys.deep_view())),
{
    let mut w = Writer::new();
    w.write_vector(keys);
    finish(CMD_EPG_SRV_SEARCH_PG, w)
}

/// Request listing the keyword auto-reservation conditions.
pub fn enum_auto_add_request() -> (r: Vec<u8>)
    ensures
        r@ == request_frame(CMD_EPG_SRV_ENUM_AUTO_ADD2, le16(CMD_VER) + Seq::empty()),
{
    finish2(CMD_EPG_SRV_ENUM_AUTO_ADD2, Writer::new())
}

/// Request listing the manual auto-reservations.
pub fn enum_manual_add_request() -> (r: Vec<u8>)
    ensures
        r@ == request_frame(CMD_EPG_SRV_ENUM_MANU_ADD2, le16(CMD_VER) + Seq::empty()),
{
    finish2(CMD_EPG_SRV_ENUM_MANU_ADD2, Writer::new())
}

/// Request for a notification of the server; 0 asks for the current status.
pub fn get_notify_srv_info_request(target_count: u32) -> (r: Vec<u8>)
    ensures
        r@ == request_frame(CMD_EPG_SRV_GET_STATUS_NOTIFY2, le16(CMD_VER) + le32(target_count)),
{
    let mut w = Writer::new();
    w.write_u32(target_count);
    finish2(CMD_EPG_SRV_GET_STATUS_NOTIFY2, w)
}

/// Whether a program has the key.
pub open spec fn event_has_key(e: EventInfoModel, k: EventKey) -> bool {
    e.eid == k.eid && e.onid == k.service.onid && e.tsid == k.service.tsid && e.sid == k.service.sid
}

/// The first program with the key in a sequence, if any.
pub open spec fn first_with_key(es: Seq<EventInfoModel>, k: EventKey) -> Option<EventInfoModel>
    decreases es.len(),
{
    if es.len() == 0 {
        None
    } else if event_has_key(es[0], k) {
        Some(es[0])
    } else {
        first_with_key(es.drop_first(), k)
    }
}

/// The first service that lists a program with the key, and that program.
pub open spec fn find_event_spec(ss: Seq<ServiceEventInfoModel>, k: EventKey) -> Option<(ServiceInfoModel, EventInfoModel)>
    decreases ss.len(),
{
    if ss.len() == 0 {
        None
    } else {
        match first_with_key(ss[0].event_list, k) {
            Some(e) => Some((ss[0].service_info, e)),
            None => find_event_spec(ss.drop_first(), k),
        }
    }
}

/// The text of an event key, `onid:tsid:sid:eid` in decimal.
pub open spec fn event_key_text(k: EventKey) -> Seq<char> {
    decimal(k.service.onid as nat) + seq![':'] + decimal(k.service.tsid as nat) + seq![':'] + decimal(
        k.service.sid as nat,
    ) + seq![':'] + decimal(k.eid as nat)
}

fn event_not_found_message(k: EventKey) -> (m: String)
    ensures
        m@ == "event not found: "@ + event_key_text(k),
{
    let mut cs = chars_of("event not found: ");
    push_decimal(&mut cs, k.service.onid as u64);
    cs.push(':');
    push_decimal(&mut cs, k.service.tsid as u64);
    cs.push(':');
    push_decimal(&mut cs, k.service.sid as u64);
    cs.push(':');
    push_decimal(&mut cs, k.eid as u64);
    assert(cs@ =~= "event not found: "@ + event_key_text(k));
    string_from_chars(cs.as_slice())
}

/// The program with a key and its service, among the services a lookup returned.
pub fn find_event_in(services: Vec<ServiceEventInfo>, event_key: EventKey) -> (r: Result<(ServiceInfo, EventInfo), EdcbError>)
    ensures
        match find_event_spec(services.deep_view(), event_key) {
            Some((s, e)) => r matches Ok((sv, ev)) && sv.deep_view() == s && ev.deep_view() == e,
            None => r matches Err(EdcbError::InvalidInput(m)) && m@ == "event not found: "@
                + event_key_text(event_key),
        },
{
    let ghost ss = services.deep_view();
    assert(ss.skip(0) =~= ss);
    for service in it: services.into_iter()
        invariant
            it.seq() == services@,
            ss == services.deep_view(),
            find_event_spec(ss, event_key) == find_event_spec(ss.skip(it.index() as int), event_key),
    {
        let ghost k = it.index();
        assert(service.deep_view() == ss[k as int]);
        let ghost es = service.event_list.deep_view();
        assert(ss.skip(k as int).drop_first() =~= ss.skip(k + 1));
        assert(ss.skip(k as int)[0] == ss[k as int]);
        let info = service.service_info;
        assert(es.skip(0) =~= es);
        for event in it2: service.event_list.into_iter()
            invariant
                it2.seq() == service.event_list@,
                es == service.event_list.deep_view(),
                first_with_key(es, event_key) == first_with_key(es.skip(it2.index() as int), event_key),
                0 <= k < ss.len(),
                ss == services.deep_view(),
                ss[k as int].event_list == es,
                info.deep_view() == ss[k as int].service_info,
                ss.skip(k as int)[0] == ss[k as int],
                find_event_spec(ss, event_key) == find_event_spec(ss.skip(k as int), event_key),
        {
            let ghost j = it2.index();
            assert(event.deep_view() == es[j as int]);
            assert(es.skip(j as int).drop_first() =~= es.skip(j + 1));
            if event.eid == event_key.eid && event.onid == event_key.service.onid && event.tsid
                == event_key.service.tsid && event.sid == event_key.service.sid {
                assert(es.skip(j as int)[0] == es[j as int]);
                assert(event_has_key(es[j as int], event_key));
                assert(first_with_key(es.skip(j as int), event_key) == Some(es[j as int]));
                assert(first_with_key(ss.skip(k as int)[0].event_list, event_key) == Some(es[j as int]));
                assert(find_event_spec(ss.skip(k as int), event_key) == Some((ss[k as int].service_info, es[j as int])));
                return Ok((info, event));
            }
        }
        assert(es.skip(es.len() as int) =~= Seq::<EventInfoModel>::empty());
    }
    assert(ss.skip(ss.len() as int) =~= Seq::<ServiceEventInfoModel>::empty());
    Err(EdcbError::InvalidInput(event_not_found_message(event_key)))
}

} // verus!

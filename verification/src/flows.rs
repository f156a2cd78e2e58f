use vstd::prelude::*;

use crate::cli::{CliCommand, CliCommandModel};
use crate::client::{
    del_reserve_request, enum_pg_info_ex_request, enum_plugin_request, enum_rec_info_basic_request,
    enum_reserve_request, enum_service_request, enum_tuner_process_request,
    enum_tuner_reserve_request, event_lookup_filter, filter_programs, find_event_in, find_event_spec,
    get_default_reserve_request, get_notify_srv_info_request, get_rec_info_request,
    get_reserve_request, lookup_filter, matching_programs, p_versioned, read_value_response,
    read_vector_response, read_versioned, read_versioned_vector, request_frame, add_reserves_request,
    event_key_text, CMD_EPG_SRV_ADD_RESERVE2, CMD_EPG_SRV_DEL_RESERVE, CMD_EPG_SRV_ENUM_PG_INFO_EX,
    CMD_EPG_SRV_ENUM_PLUGIN, CMD_EPG_SRV_ENUM_RECINFO_BASIC2, CMD_EPG_SRV_ENUM_RESERVE2,
    CMD_EPG_SRV_ENUM_SERVICE, CMD_EPG_SRV_ENUM_TUNER_PROCESS, CMD_EPG_SRV_ENUM_TUNER_RESERVE,
    CMD_EPG_SRV_GET_RECINFO2, CMD_EPG_SRV_GET_RESERVE2, CMD_EPG_SRV_GET_STATUS_NOTIFY2, CMD_VER,
    DEFAULT_RESERVE_ID,
};
use crate::codec::{elems_wire, p_vector, vector_wire, WireRead, WireWrite};
use crate::error::EdcbError;
use crate::keys::{plugin_kind_code, EventKey, PluginKind, ProgramSearchQuery, ProgramSearchQueryModel, ServiceKey};
use crate::reservation::{build_outcome, build_reservation_from_event};
use crate::sizes::{one_reserve_vector_wire_len, WIRE_LIMIT};
use crate::types::{
    EventInfo, EventInfoModel, NotifySrvInfo, NotifySrvInfoModel, RecFileInfo, RecFileInfoModel,
    ReserveData, ReserveDataModel, ServiceEventInfo, ServiceInfo, ServiceInfoModel,
    TunerProcessStatusInfo, TunerProcessStatusInfoModel, TunerReserveInfo, TunerReserveInfoModel,
};
use crate::wire::{le16, le32, lei32, p_u16};

verus! {

/// The request a command is waiting on, with what the command has learned so far.
pub enum Pending {
    Services,
    Reserves,
    RecordedList,
    RecordedInfo(i32),
    Programs(ProgramSearchQuery),
    Reservation(i32),
    EventLookup { event_key: EventKey, create: bool },
    DefaultReserve { service: ServiceInfo, event: EventInfo, create: bool },
    AddReserve { reserve: ReserveData },
    DeleteLookup(i32),
    DeleteReserve { reserve_id: i32, reserve: ReserveData },
    TunerReserves,
    TunerProcesses,
    Plugins(PluginKind),
    NotifyStatus,
}

/// What a `Pending` holds, with strings as characters.
pub enum PendingModel {
    Services,
    Reserves,
    RecordedList,
    RecordedInfo(i32),
    Programs(ProgramSearchQueryModel),
    Reservation(i32),
    EventLookup(EventKey, bool),
    DefaultReserve(ServiceInfoModel, EventInfoModel, bool),
    AddReserve(ReserveDataModel),
    DeleteLookup(i32),
    DeleteReserve(i32, ReserveDataModel),
    TunerReserves,
    TunerProcesses,
    Plugins(PluginKind),
    NotifyStatus,
}

impl DeepView for Pending {
    type V = PendingModel;

    open spec fn deep_view(&self) -> PendingModel {
        match self {
            Pending::Services => PendingModel::Services,
            Pending::Reserves => PendingModel::Reserves,
            Pending::RecordedList => PendingModel::RecordedList,
            Pending::RecordedInfo(id) => PendingModel::RecordedInfo(*id),
            Pending::Programs(q) => PendingModel::Programs(q.deep_view()),
            Pending::Reservation(id) => PendingModel::Reservation(*id),
            Pending::EventLookup { event_key, create } => PendingModel::EventLookup(*event_key, *create),
            Pending::DefaultReserve { service, event, create } => PendingModel::DefaultReserve(
                service.deep_view(),
                event.deep_view(),
                *create,
            ),
            Pending::AddReserve { reserve } => PendingModel::AddReserve(reserve.deep_view()),
            Pending::DeleteLookup(id) => PendingModel::DeleteLookup(*id),
            Pending::DeleteReserve { reserve_id, reserve } => PendingModel::DeleteReserve(
                *reserve_id,
                reserve.deep_view(),
            ),
            Pending::TunerReserves => PendingModel::TunerReserves,
            Pending::TunerProcesses => PendingModel::TunerProcesses,
            Pending::Plugins(k) => PendingModel::Plugins(*k),
            Pending::NotifyStatus => PendingModel::NotifyStatus,
        }
    }
}

/// What a command gives back.
#[derive(Debug)]
pub enum CommandOutput {
    Services(Vec<ServiceInfo>),
    Reserves(Vec<ReserveData>),
    Recorded(Vec<RecFileInfo>),
    RecordedInfo(RecFileInfo),
    Programs(Vec<EventInfo>),
    Reservation(ReserveData),
    TunerReserves(Vec<TunerReserveInfo>),
    TunerProcesses(Vec<TunerProcessStatusInfo>),
    Plugins(Vec<String>),
    NotifyStatus(NotifySrvInfo),
}

/// What a `CommandOutput` holds, with strings as characters.
pub enum OutputModel {
    Services(Seq<ServiceInfoModel>),
    Reserves(Seq<ReserveDataModel>),
    Recorded(Seq<RecFileInfoModel>),
    RecordedInfo(RecFileInfoModel),
    Programs(Seq<EventInfoModel>),
    Reservation(ReserveDataModel),
    TunerReserves(Seq<TunerReserveInfoModel>),
    TunerProcesses(Seq<TunerProcessStatusInfoModel>),
    Plugins(Seq<Seq<char>>),
    NotifyStatus(NotifySrvInfoModel),
}

impl DeepView for CommandOutput {
    type V = OutputModel;

    open spec fn deep_view(&self) -> OutputModel {
        match self {
            CommandOutput::Services(v) => OutputModel::Services(v.deep_view()),
            CommandOutput::Reserves(v) => OutputModel::Reserves(v.deep_view()),
            CommandOutput::Recorded(v) => OutputModel::Recorded(v.deep_view()),
            CommandOutput::RecordedInfo(v) => OutputModel::RecordedInfo(v.deep_view()),
            CommandOutput::Programs(v) => OutputModel::Programs(v.deep_view()),
            CommandOutput::Reservation(v) => OutputModel::Reservation(v.deep_view()),
            CommandOutput::TunerReserves(v) => OutputModel::TunerReserves(v.deep_view()),
            CommandOutput::TunerProcesses(v) => OutputModel::TunerProcesses(v.deep_view()),
            CommandOutput::Plugins(v) => OutputModel::Plugins(v.deep_view()),
            CommandOutput::NotifyStatus(v) => OutputModel::NotifyStatus(v.deep_view()),
        }
    }
}

/// The next thing to do for a command: send a request and wait, or stop with the result.
pub enum Action {
    Send(Pending, Vec<u8>),
    Finish(Result<CommandOutput, EdcbError>),
}

/// What an `Action` amounts to: a request, a result, a refusal with its message, or a reply
/// that could not be decoded, which ends the command with a decode error.
pub enum StepModel {
    Send(PendingModel, Seq<u8>),
    Done(OutputModel),
    Refused(Seq<char>),
    Failed,
}

/// Whether `a` is the step `m`.
pub open spec fn action_is(a: Action, m: StepModel) -> bool {
    match m {
        StepModel::Send(p, bytes) => a matches Action::Send(p2, b2) && p2.deep_view() == p && b2@
            == bytes,
        StepModel::Done(o) => a matches Action::Finish(Ok(o2)) && o2.deep_view() == o,
        StepModel::Refused(msg) => a matches Action::Finish(Err(EdcbError::InvalidInput(s))) && s@
            == msg,
        StepModel::Failed => a matches Action::Finish(Err(EdcbError::Decode(_))),
    }
}

/// The request that a waiting command sends.
pub open spec fn command_request(p: PendingModel) -> Seq<u8> {
    match p {
        PendingModel::Services => request_frame(CMD_EPG_SRV_ENUM_SERVICE, Seq::empty()),
        PendingModel::Reserves => request_frame(CMD_EPG_SRV_ENUM_RESERVE2, le16(CMD_VER) + Seq::empty()),
        PendingModel::RecordedList => request_frame(
            CMD_EPG_SRV_ENUM_RECINFO_BASIC2,
            le16(CMD_VER) + Seq::empty(),
        ),
        PendingModel::RecordedInfo(id) => request_frame(
            CMD_EPG_SRV_GET_RECINFO2,
            le16(CMD_VER) + lei32(id),
        ),
        PendingModel::Programs(q) => request_frame(
            CMD_EPG_SRV_ENUM_PG_INFO_EX,
            vector_wire::<i64>(lookup_filter(q.service)),
        ),
        PendingModel::Reservation(id) => request_frame(
            CMD_EPG_SRV_GET_RESERVE2,
            le16(CMD_VER) + lei32(id),
        ),
        PendingModel::EventLookup(k, _) => request_frame(
            CMD_EPG_SRV_ENUM_PG_INFO_EX,
            vector_wire::<i64>(lookup_filter(Some(k.service))),
        ),
        PendingModel::DefaultReserve(_, _, _) => request_frame(
            CMD_EPG_SRV_GET_RESERVE2,
            le16(CMD_VER) + lei32(DEFAULT_RESERVE_ID),
        ),
        PendingModel::AddReserve(r) => request_frame(
            CMD_EPG_SRV_ADD_RESERVE2,
            le16(CMD_VER) + vector_wire::<ReserveData>(seq![r]),
        ),
        PendingModel::DeleteLookup(id) => request_frame(
            CMD_EPG_SRV_GET_RESERVE2,
            le16(CMD_VER) + lei32(id),
        ),
        PendingModel::DeleteReserve(id, _) => request_frame(
            CMD_EPG_SRV_DEL_RESERVE,
            vector_wire::<i32>(seq![id]),
        ),
        PendingModel::TunerReserves => request_frame(CMD_EPG_SRV_ENUM_TUNER_RESERVE, Seq::empty()),
        PendingModel::TunerProcesses => request_frame(CMD_EPG_SRV_ENUM_TUNER_PROCESS, Seq::empty()),
        PendingModel::Plugins(k) => request_frame(CMD_EPG_SRV_ENUM_PLUGIN, le16(plugin_kind_code(k))),
        PendingModel::NotifyStatus => request_frame(
            CMD_EPG_SRV_GET_STATUS_NOTIFY2,
            le16(CMD_VER) + le32(0),
        ),
    }
}

/// The request a command first waits on.
pub open spec fn first_pending(c: CliCommandModel) -> PendingModel {
    match c {
        CliCommandModel::Services => PendingModel::Services,
        CliCommandModel::Reserves => PendingModel::Reserves,
        CliCommandModel::RecordedList => PendingModel::RecordedList,
        CliCommandModel::RecordedGet(id) => PendingModel::RecordedInfo(id),
        CliCommandModel::ProgramsSearch(q) => PendingModel::Programs(q),
        CliCommandModel::ReserveGet(id) => PendingModel::Reservation(id),
        CliCommandModel::ReservePreview(k) => PendingModel::EventLookup(k, false),
        CliCommandModel::ReserveCreate(k) => PendingModel::EventLookup(k, true),
        CliCommandModel::ReserveDelete(id) => PendingModel::DeleteLookup(id),
        CliCommandModel::TunerReserves => PendingModel::TunerReserves,
        CliCommandModel::TunerProcesses => PendingModel::TunerProcesses,
        CliCommandModel::Plugins(k) => PendingModel::Plugins(k),
        CliCommandModel::NotifyStatus => PendingModel::NotifyStatus,
    }
}

/// The items of a vector response.
pub open spec fn p_list<T: WireRead>(s: Seq<u8>) -> Option<Seq<T::V>> {
    match p_vector::<T>(s) {
        Some((ms, _)) => Some(ms),
        None => None,
    }
}

/// The items of a versioned vector response.
pub open spec fn p_versioned_list<T: WireRead>(s: Seq<u8>) -> Option<Seq<T::V>> {
    match p_u16(s) {
        None => None,
        Some((version, rest)) => if version < CMD_VER {
            None
        } else {
            p_list::<T>(rest)
        },
    }
}

/// The output a decoded reply gives, or `Failed` where the reply cannot be decoded.
pub open spec fn done_or_failed<V>(o: Option<V>, f: spec_fn(V) -> OutputModel) -> StepModel {
    match o {
        Some(v) => StepModel::Done(f(v)),
        None => StepModel::Failed,
    }
}

/// Whether a reservation can go into an add request.
pub open spec fn sendable_reserve(r: ReserveDataModel) -> bool {
    <ReserveData as WireWrite>::writable(r) && vector_wire::<ReserveData>(seq![r]).len()
        <= WIRE_LIMIT
}

/// The message of a reservation that cannot be sent.
pub open spec fn unsendable_msg() -> Seq<char> {
    "reservation cannot be encoded for EDCB"@
}

/// What a command waiting on `p` does with the successful reply `body`.
pub open spec fn reply_step(p: PendingModel, body: Seq<u8>) -> StepModel {
    match p {
        PendingModel::Services => done_or_failed(
            p_list::<ServiceInfo>(body),
            |v| OutputModel::Services(v),
        ),
        PendingModel::Reserves => done_or_failed(
            p_versioned_list::<ReserveData>(body),
            |v| OutputModel::Reserves(v),
        ),
        PendingModel::RecordedList => done_or_failed(
            p_versioned_list::<RecFileInfo>(body),
            |v| OutputModel::Recorded(v),
        ),
        PendingModel::RecordedInfo(_) => done_or_failed(
            p_versioned::<RecFileInfo>(body),
            |v| OutputModel::RecordedInfo(v),
        ),
        PendingModel::Programs(q) => done_or_failed(
            p_list::<ServiceEventInfo>(body),
            |ss| OutputModel::Programs(matching_programs(ss, q)),
        ),
        PendingModel::Reservation(_) => done_or_failed(
            p_versioned::<ReserveData>(body),
            |v| OutputModel::Reservation(v),
        ),
        PendingModel::EventLookup(k, create) => match p_list::<ServiceEventInfo>(body) {
            None => StepModel::Failed,
            Some(ss) => match find_event_spec(ss, k) {
                Some((s, e)) => StepModel::Send(
                    PendingModel::DefaultReserve(s, e, create),
                    command_request(PendingModel::DefaultReserve(s, e, create)),
                ),
                None => StepModel::Refused("event not found: "@ + event_key_text(k)),
            },
        },
        PendingModel::DefaultReserve(s, e, create) => match p_versioned::<ReserveData>(body) {
            None => StepModel::Failed,
            Some(d) => match build_outcome(d, s, e) {
                Err(m) => StepModel::Refused(m),
                Ok(r) => if !create {
                    StepModel::Done(OutputModel::Reservation(r))
                } else if sendable_reserve(r) {
                    StepModel::Send(
                        PendingModel::AddReserve(r),
                        command_request(PendingModel::AddReserve(r)),
                    )
                } else {
                    StepModel::Refused(unsendable_msg())
                },
            },
        },
        PendingModel::AddReserve(r) => StepModel::Done(OutputModel::Reservation(r)),
        PendingModel::DeleteLookup(id) => match p_versioned::<ReserveData>(body) {
            None => StepModel::Failed,
            Some(r) => StepModel::Send(
                PendingModel::DeleteReserve(id, r),
                command_request(PendingModel::DeleteReserve(id, r)),
            ),
        },
        PendingModel::DeleteReserve(_, r) => StepModel::Done(OutputModel::Reservation(r)),
        PendingModel::TunerReserves => done_or_failed(
            p_list::<TunerReserveInfo>(body),
            |v| OutputModel::TunerReserves(v),
        ),
        PendingModel::TunerProcesses => done_or_failed(
            p_list::<TunerProcessStatusInfo>(body),
            |v| OutputModel::TunerProcesses(v),
        ),
        PendingModel::Plugins(_) => done_or_failed(p_list::<String>(body), |v| OutputModel::Plugins(v)),
        PendingModel::NotifyStatus => done_or_failed(
            p_versioned::<NotifySrvInfo>(body),
            |v| OutputModel::NotifyStatus(v),
        ),
    }
}


proof fn lemma_filter_wire_len(f: Seq<i64>)
    requires
        f.len() == 4,
    ensures
        vector_wire::<i64>(f).len() == 40,
{
    reveal(vector_wire);
    reveal_with_fuel(elems_wire, 5);
    assert(f.drop_last().drop_last().drop_last().drop_last().len() == 0);
}

proof fn lemma_one_id_wire_len(id: i32)
    ensures
        vector_wire::<i32>(seq![id]).len() == 12,
{
    reveal(vector_wire);
    reveal_with_fuel(elems_wire, 2);
    assert(seq![id].drop_last().len() == 0);
}

/// Whether a reservation's dates can be written.
fn reserve_writable(r: &ReserveData) -> (b: bool)
    ensures
        b == <ReserveData as WireWrite>::writable(r.deep_view()),
{
    r.start_time.is_valid() && r.start_time_epg.is_valid()
}

fn lookup_request(service: Option<ServiceKey>) -> (r: Vec<u8>)
    ensures
        r@ == request_frame(CMD_EPG_SRV_ENUM_PG_INFO_EX, vector_wire::<i64>(lookup_filter(service))),
{
    let filter = event_lookup_filter(service);
    proof {
        lemma_filter_wire_len(lookup_filter(service));
        assert(filter.deep_view() =~= filter@);
    }
    enum_pg_info_ex_request(filter.as_slice())
}

/// The first request of a command.
pub fn start(command: &CliCommand) -> (a: Action)
    ensures
        action_is(
            a,
            StepModel::Send(
                first_pending(command.deep_view()),
                command_request(first_pending(command.deep_view())),
            ),
        ),
{
    match command {
        CliCommand::Services => Action::Send(Pending::Services, enum_service_request()),
        CliCommand::Reserves => Action::Send(Pending::Reserves, enum_reserve_request()),
        CliCommand::RecordedList => Action::Send(Pending::RecordedList, enum_rec_info_basic_request()),
        CliCommand::RecordedGet(id) => Action::Send(Pending::RecordedInfo(*id), get_rec_info_request(*id)),
        CliCommand::ProgramsSearch(q) => {
            let req = lookup_request(q.service);
            let query = ProgramSearchQuery {
                keyword: q.keyword.clone(),
                title_only: q.title_only,
                service: q.service,
            };
            Action::Send(Pending::Programs(query), req)
        },
        CliCommand::ReserveGet(id) => Action::Send(Pending::Reservation(*id), get_reserve_request(*id)),
        CliCommand::ReservePreview(k) => Action::Send(
            Pending::EventLookup { event_key: *k, create: false },
            lookup_request(Some(k.service)),
        ),
        CliCommand::ReserveCreate(k) => Action::Send(
            Pending::EventLookup { event_key: *k, create: true },
            lookup_request(Some(k.service)),
        ),
        CliCommand::ReserveDelete(id) => Action::Send(Pending::DeleteLookup(*id), get_reserve_request(*id)),
        CliCommand::TunerReserves => Action::Send(Pending::TunerReserves, enum_tuner_reserve_request()),
        CliCommand::TunerProcesses => Action::Send(Pending::TunerProcesses, enum_tuner_process_request()),
        CliCommand::Plugins(k) => Action::Send(Pending::Plugins(*k), enum_plugin_request(*k)),
        CliCommand::NotifyStatus => Action::Send(Pending::NotifyStatus, get_notify_srv_info_request(0)),
    }
}

/// The step after the default reservation arrived for a program.
fn after_default(service: ServiceInfo, event: EventInfo, create: bool, body: &[u8]) -> (a: Action)
    ensures
        action_is(
            a,
            reply_step(PendingModel::DefaultReserve(service.deep_view(), event.deep_view(), create), body@),
        ),
{
    let default = match read_versioned::<ReserveData>(body) {
        Ok(d) => d,
        Err(e) => {
            return Action::Finish(Err(e));
        },
    };
    let reserve = match build_reservation_from_event(&default, &service, &event) {
        Ok(r) => r,
        Err(e) => {
            return Action::Finish(Err(e));
        },
    };
    if !create {
        return Action::Finish(Ok(CommandOutput::Reservation(reserve)));
    }
    if !reserve_writable(&reserve) {
        return Action::Finish(Err(EdcbError::InvalidInput("reservation cannot be encoded for EDCB".to_string())));
    }
    match one_reserve_vector_wire_len(&reserve) {
        None => Action::Finish(Err(EdcbError::InvalidInput("reservation cannot be encoded for EDCB".to_string()))),
        Some(_) => {
            let ghost m = reserve.deep_view();
            let mut list: Vec<ReserveData> = Vec::new();
            list.push(reserve);
            assert(list.deep_view() =~= seq![m]);
            let req = add_reserves_request(list.as_slice());
            let reserve = list.pop().unwrap();
            Action::Send(Pending::AddReserve { reserve }, req)
        },
    }
}

/// What a command waiting on `pending` does with the reply to its request: the reply's body,
/// or the failure of the exchange, which ends the command.
pub fn on_reply(pending: Pending, reply: Result<Vec<u8>, EdcbError>) -> (a: Action)
    ensures
        match reply {
            Err(e) => a matches Action::Finish(Err(e2)) && e2 == e,
            Ok(body) => action_is(a, reply_step(pending.deep_view(), body@)),
        },
{
    let body = match reply {
        Ok(b) => b,
        Err(e) => {
            return Action::Finish(Err(e));
        },
    };
    match pending {
        Pending::Services => match read_vector_response::<ServiceInfo>(body.as_slice()) {
            Ok(v) => Action::Finish(Ok(CommandOutput::Services(v))),
            Err(e) => Action::Finish(Err(e)),
        },
        Pending::Reserves => match read_versioned_vector::<ReserveData>(body.as_slice()) {
            Ok(v) => Action::Finish(Ok(CommandOutput::Reserves(v))),
            Err(e) => Action::Finish(Err(e)),
        },
        Pending::RecordedList => match read_versioned_vector::<RecFileInfo>(body.as_slice()) {
            Ok(v) => Action::Finish(Ok(CommandOutput::Recorded(v))),
            Err(e) => Action::Finish(Err(e)),
        },
        Pending::RecordedInfo(_) => match read_versioned::<RecFileInfo>(body.as_slice()) {
            Ok(v) => Action::Finish(Ok(CommandOutput::RecordedInfo(v))),
            Err(e) => Action::Finish(Err(e)),
        },
        Pending::Programs(q) => match read_vector_response::<ServiceEventInfo>(body.as_slice()) {
            Ok(services) => Action::Finish(Ok(CommandOutput::Programs(filter_programs(services, &q)))),
            Err(e) => Action::Finish(Err(e)),
        },
        Pending::Reservation(_) => match read_versioned::<ReserveData>(body.as_slice()) {
            Ok(v) => Action::Finish(Ok(CommandOutput::Reservation(v))),
            Err(e) => Action::Finish(Err(e)),
        },
        Pending::EventLookup { event_key, create } => {
            match read_vector_response::<ServiceEventInfo>(body.as_slice()) {
                Ok(services) => match find_event_in(services, event_key) {
                    Ok((service, event)) => Action::Send(
                        Pending::DefaultReserve { service, event, create },
                        get_default_reserve_request(),
                    ),
                    Err(e) => Action::Finish(Err(e)),
                },
                Err(e) => Action::Finish(Err(e)),
            }
        },
        Pending::DefaultReserve { service, event, create } => after_default(
            service,
            event,
            create,
            body.as_slice(),
        ),
        Pending::AddReserve { reserve } => Action::Finish(Ok(CommandOutput::Reservation(reserve))),
        Pending::DeleteLookup(id) => match read_versioned::<ReserveData>(body.as_slice()) {
            Ok(reserve) => {
                let ids: Vec<i32> = vec![id];
                proof {
                    lemma_one_id_wire_len(id);
                    assert(ids.deep_view() =~= seq![id]);
                }
                let req = del_reserve_request(ids.as_slice());
                Action::Send(Pending::DeleteReserve { reserve_id: id, reserve }, req)
            },
            Err(e) => Action::Finish(Err(e)),
        },
        Pending::DeleteReserve { reserve, .. } => Action::Finish(Ok(CommandOutput::Reservation(reserve))),
        Pending::TunerReserves => match read_vector_response::<TunerReserveInfo>(body.as_slice()) {
            Ok(v) => Action::Finish(Ok(CommandOutput::TunerReserves(v))),
            Err(e) => Action::Finish(Err(e)),
        },
        Pending::TunerProcesses => match read_vector_response::<TunerProcessStatusInfo>(body.as_slice()) {
            Ok(v) => Action::Finish(Ok(CommandOutput::TunerProcesses(v))),
            Err(e) => Action::Finish(Err(e)),
        },
        Pending::Plugins(_) => match read_vector_response::<String>(body.as_slice()) {
            Ok(v) => Action::Finish(Ok(CommandOutput::Plugins(v))),
            Err(e) => Action::Finish(Err(e)),
        },
        Pending::NotifyStatus => match read_versioned::<NotifySrvInfo>(body.as_slice()) {
            Ok(v) => Action::Finish(Ok(CommandOutput::NotifyStatus(v))),
            Err(e) => Action::Finish(Err(e)),
        },
    }
}

} // verus!

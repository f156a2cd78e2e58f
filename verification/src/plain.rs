use vstd::prelude::*;

use crate::datetime::{rfc3339, rfc3339_text, DateTime};
use crate::flows::{CommandOutput, OutputModel};
use crate::text::{
    decimal, push_decimal, push_signed_decimal, push_str, signed_decimal, string_from_chars,
};
use crate::types::{
    EventInfo, EventInfoModel, NotifySrvInfo, NotifySrvInfoModel, RecFileInfo, RecFileInfoModel,
    ReserveData, ReserveDataModel, ServiceInfo, ServiceInfoModel, TunerReserveInfo,
    TunerReserveInfoModel,
};

verus! {

pub open spec fn tab() -> Seq<char> {
    seq!['\t']
}

pub open spec fn newline() -> Seq<char> {
    seq!['\n']
}

/// `onid:tsid:sid:eid` in decimal.
pub open spec fn key_text(onid: u16, tsid: u16, sid: u16, eid: u16) -> Seq<char> {
    decimal(onid as nat) + seq![':'] + decimal(tsid as nat) + seq![':'] + decimal(sid as nat) + seq![':']
        + decimal(eid as nat)
}

/// The line of a service: ids, remote control key and name.
pub open spec fn service_line(s: ServiceInfoModel) -> Seq<char> {
    decimal(s.onid as nat) + tab() + decimal(s.tsid as nat) + tab() + decimal(s.sid as nat) + tab()
        + decimal(s.remote_control_key_id as nat) + tab() + s.service_name + newline()
}

/// The lines of services.
pub open spec fn services_text(ss: Seq<ServiceInfoModel>) -> Seq<char>
    decreases ss.len(),
{
    if ss.len() == 0 {
        Seq::empty()
    } else {
        services_text(ss.drop_last()) + service_line(ss.last())
    }
}

/// The line of a reservation in a list: id, start, station and title.
pub open spec fn reserve_line(r: ReserveDataModel) -> Seq<char> {
    signed_decimal(r.reserve_id as int) + tab() + rfc3339_text(r.start_time) + tab() + r.station_name
        + tab() + r.title + newline()
}

/// The lines of reservations.
pub open spec fn reserves_text(rs: Seq<ReserveDataModel>) -> Seq<char>
    decreases rs.len(),
{
    if rs.len() == 0 {
        Seq::empty()
    } else {
        reserves_text(rs.drop_last()) + reserve_line(rs.last())
    }
}

/// The line of one reservation: its program's key, start, station and title.
pub open spec fn reservation_line(r: ReserveDataModel) -> Seq<char> {
    key_text(r.onid, r.tsid, r.sid, r.eid) + tab() + rfc3339_text(r.start_time) + tab()
        + r.station_name + tab() + r.title + newline()
}

/// The line of a recorded item in a list: id, start, service and title.
pub open spec fn recorded_line(r: RecFileInfoModel) -> Seq<char> {
    signed_decimal(r.id as int) + tab() + rfc3339_text(r.start_time) + tab() + r.service_name + tab()
        + r.title + newline()
}

/// The lines of recorded items.
pub open spec fn recorded_text(rs: Seq<RecFileInfoModel>) -> Seq<char>
    decreases rs.len(),
{
    if rs.len() == 0 {
        Seq::empty()
    } else {
        recorded_text(rs.drop_last()) + recorded_line(rs.last())
    }
}

/// The line of one recorded item: id, start, service, title and file path.
pub open spec fn recorded_info_line(r: RecFileInfoModel) -> Seq<char> {
    signed_decimal(r.id as int) + tab() + rfc3339_text(r.start_time) + tab() + r.service_name + tab()
        + r.title + tab() + r.rec_file_path + newline()
}

/// The line of a program: its key, its start (`-` where unknown) and its title (empty where
/// unknown).
pub open spec fn program_line(e: EventInfoModel) -> Seq<char> {
    key_text(e.onid, e.tsid, e.sid, e.eid) + tab() + match e.start_time {
        Some(t) => rfc3339_text(t),
        None => seq!['-'],
    } + tab() + match e.short_info {
        Some(si) => si.event_name,
        None => Seq::empty(),
    } + newline()
}

/// The lines of programs.
pub open spec fn programs_text(es: Seq<EventInfoModel>) -> Seq<char>
    decreases es.len(),
{
    if es.len() == 0 {
        Seq::empty()
    } else {
        programs_text(es.drop_last()) + program_line(es.last())
    }
}

/// The line of a tuner: id, name and number of reservations.
pub open spec fn tuner_reserve_line(t: TunerReserveInfoModel) -> Seq<char> {
    decimal(t.tuner_id as nat) + tab() + t.tuner_name + tab() + decimal(t.reserve_list.len()) + newline()
}

/// The lines of tuners.
pub open spec fn tuner_reserves_text(ts: Seq<TunerReserveInfoModel>) -> Seq<char>
    decreases ts.len(),
{
    if ts.len() == 0 {
        Seq::empty()
    } else {
        tuner_reserves_text(ts.drop_last()) + tuner_reserve_line(ts.last())
    }
}

/// One line per string.
pub open spec fn strings_text(ss: Seq<Seq<char>>) -> Seq<char>
    decreases ss.len(),
{
    if ss.len() == 0 {
        Seq::empty()
    } else {
        strings_text(ss.drop_last()) + ss.last() + newline()
    }
}

/// The line of a notification: id, time, two parameters and count.
pub open spec fn notify_line(n: NotifySrvInfoModel) -> Seq<char> {
    decimal(n.notify_id as nat) + tab() + rfc3339_text(n.time) + tab() + decimal(n.param1 as nat) + tab()
        + decimal(n.param2 as nat) + tab() + decimal(n.count as nat) + newline()
}

/// Whether every reservation's start exists.
pub open spec fn reserves_dated(rs: Seq<ReserveDataModel>) -> bool {
    forall|i: int| 0 <= i < rs.len() ==> (#[trigger] rs[i]).start_time.wf()
}

/// Whether every recorded item's start exists.
pub open spec fn recorded_dated(rs: Seq<RecFileInfoModel>) -> bool {
    forall|i: int| 0 <= i < rs.len() ==> (#[trigger] rs[i]).start_time.wf()
}

/// Whether every known program start exists.
pub open spec fn programs_dated(es: Seq<EventInfoModel>) -> bool {
    forall|i: int| 0 <= i < es.len() ==> ((#[trigger] es[i]).start_time matches Some(t) ==> t.wf())
}

fn push_text(out: &mut Vec<char>, s: &String)
    ensures
        final(out)@ == old(out)@ + s@,
{
    push_str(out, s.as_str());
}

fn push_time(out: &mut Vec<char>, t: &DateTime)
    requires
        t.wf(),
    ensures
        final(out)@ == old(out)@ + rfc3339_text(*t),
{
    let s = rfc3339(t);
    push_str(out, s.as_str());
}

fn push_key(out: &mut Vec<char>, onid: u16, tsid: u16, sid: u16, eid: u16)
    ensures
        final(out)@ == old(out)@ + key_text(onid, tsid, sid, eid),
{
    push_decimal(out, onid as u64);
    out.push(':');
    push_decimal(out, tsid as u64);
    out.push(':');
    push_decimal(out, sid as u64);
    out.push(':');
    push_decimal(out, eid as u64);
    assert(final(out)@ =~= old(out)@ + key_text(onid, tsid, sid, eid));
}

/// Services, one line each: `onid`, `tsid`, `sid`, remote control key and name, separated by
/// tabs.
pub fn format_services_plain(services: &[ServiceInfo]) -> (s: String)
    ensures
        s@ == services_text(services.deep_view()),
{
    let ghost ss = services.deep_view();
    let mut out: Vec<char> = Vec::new();
    for i in 0..services.len()
        invariant
            ss == services.deep_view(),
            out@ == services_text(ss.take(i as int)),
    {
        let v = &services[i];
        let ghost before = out@;
        push_decimal(&mut out, v.onid as u64);
        out.push('\t');
        push_decimal(&mut out, v.tsid as u64);
        out.push('\t');
        push_decimal(&mut out, v.sid as u64);
        out.push('\t');
        push_decimal(&mut out, v.remote_control_key_id as u64);
        out.push('\t');
        push_text(&mut out, &v.service_name);
        out.push('\n');
        assert(ss.take(i + 1).drop_last() =~= ss.take(i as int));
        assert(out@ =~= before + service_line(ss[i as int]));
    }
    assert(ss.take(services.len() as int) =~= ss);
    string_from_chars(out.as_slice())
}

/// Reservations, one line each: id, start, station and title.
pub fn format_reserves_plain(reserves: &[ReserveData]) -> (s: String)
    requires
        reserves_dated(reserves.deep_view()),
    ensures
        s@ == reserves_text(reserves.deep_view()),
{
    let ghost rs = reserves.deep_view();
    let mut out: Vec<char> = Vec::new();
    for i in 0..reserves.len()
        invariant
            rs == reserves.deep_view(),
            reserves_dated(rs),
            out@ == reserves_text(rs.take(i as int)),
    {
        let v = &reserves[i];
        let ghost before = out@;
        assert(rs[i as int].start_time.wf());
        push_signed_decimal(&mut out, v.reserve_id as i64);
        out.push('\t');
        push_time(&mut out, &v.start_time);
        out.push('\t');
        push_text(&mut out, &v.station_name);
        out.push('\t');
        push_text(&mut out, &v.title);
        out.push('\n');
        assert(rs.take(i + 1).drop_last() =~= rs.take(i as int));
        assert(out@ =~= before + reserve_line(rs[i as int]));
    }
    assert(rs.take(reserves.len() as int) =~= rs);
    string_from_chars(out.as_slice())
}

/// One reservation: its program's key, start, station and title.
pub fn format_reservation_plain(reserve: &ReserveData) -> (s: String)
    requires
        reserve.start_time.wf(),
    ensures
        s@ == reservation_line(reserve.deep_view()),
{
    let mut out: Vec<char> = Vec::new();
    push_key(&mut out, reserve.onid, reserve.tsid, reserve.sid, reserve.eid);
    out.push('\t');
    push_time(&mut out, &reserve.start_time);
    out.push('\t');
    push_text(&mut out, &reserve.station_name);
    out.push('\t');
    push_text(&mut out, &reserve.title);
    out.push('\n');
    assert(out@ =~= reservation_line(reserve.deep_view()));
    string_from_chars(out.as_slice())
}

/// Recorded items, one line each: id, start, service and title.
pub fn format_recorded_plain(items: &[RecFileInfo]) -> (s: String)
    requires
        recorded_dated(items.deep_view()),
    ensures
        s@ == recorded_text(items.deep_view()),
{
    let ghost rs = items.deep_view();
    let mut out: Vec<char> = Vec::new();
    for i in 0..items.len()
        invariant
            rs == items.deep_view(),
            recorded_dated(rs),
            out@ == recorded_text(rs.take(i as int)),
    {
        let v = &items[i];
        let ghost before = out@;
        assert(rs[i as int].start_time.wf());
        push_signed_decimal(&mut out, v.id as i64);
        out.push('\t');
        push_time(&mut out, &v.start_time);
        out.push('\t');
        push_text(&mut out, &v.service_name);
        out.push('\t');
        push_text(&mut out, &v.title);
        out.push('\n');
        assert(rs.take(i + 1).drop_last() =~= rs.take(i as int));
        assert(out@ =~= before + recorded_line(rs[i as int]));
    }
    assert(rs.take(items.len() as int) =~= rs);
    string_from_chars(out.as_slice())
}

/// One recorded item: id, start, service, title and file path.
pub fn format_recorded_info_plain(item: &RecFileInfo) -> (s: String)
    requires
        item.start_time.wf(),
    ensures
        s@ == recorded_info_line(item.deep_view()),
{
    let mut out: Vec<char> = Vec::new();
    push_signed_decimal(&mut out, item.id as i64);
    out.push('\t');
    push_time(&mut out, &item.start_time);
    out.push('\t');
    push_text(&mut out, &item.service_name);
    out.push('\t');
    push_text(&mut out, &item.title);
    out.push('\t');
    push_text(&mut out, &item.rec_file_path);
    out.push('\n');
    assert(out@ =~= recorded_info_line(item.deep_view()));
    string_from_chars(out.as_slice())
}

/// Programs, one line each: key, start and title.
pub fn format_programs_plain(programs: &[EventInfo]) -> (s: String)
    requires
        programs_dated(programs.deep_view()),
    ensures
        s@ == programs_text(programs.deep_view()),
{
    let ghost es = programs.deep_view();
    let mut out: Vec<char> = Vec::new();
    for i in 0..programs.len()
        invariant
            es == programs.deep_view(),
            programs_dated(es),
            out@ == programs_text(es.take(i as int)),
    {
        let v = &programs[i];
        let ghost before = out@;
        assert(es[i as int].start_time matches Some(t) ==> t.wf());
        push_key(&mut out, v.onid, v.tsid, v.sid, v.eid);
        out.push('\t');
        match &v.start_time {
            Some(t) => push_time(&mut out, t),
            None => out.push('-'),
        }
        out.push('\t');
        match &v.short_info {
            Some(si) => push_text(&mut out, &si.event_name),
            None => {},
        }
        out.push('\n');
        assert(es.take(i + 1).drop_last() =~= es.take(i as int));
        assert(out@ =~= before + program_line(es[i as int]));
    }
    assert(es.take(programs.len() as int) =~= es);
    string_from_chars(out.as_slice())
}

/// Tuners, one line each: id, name and number of reservations.
pub fn format_tuner_reserves_plain(items: &[TunerReserveInfo]) -> (s: String)
    ensures
        s@ == tuner_reserves_text(items.deep_view()),
{
    let ghost ts = items.deep_view();
    let mut out: Vec<char> = Vec::new();
    for i in 0..items.len()
        invariant
            ts == items.deep_view(),
            out@ == tuner_reserves_text(ts.take(i as int)),
    {
        let v = &items[i];
        let ghost before = out@;
        push_decimal(&mut out, v.tuner_id as u64);
        out.push('\t');
        push_text(&mut out, &v.tuner_name);
        out.push('\t');
        push_decimal(&mut out, v.reserve_list.len() as u64);
        out.push('\n');
        assert(v.reserve_list.deep_view().len() == v.reserve_list@.len());
        assert(ts.take(i + 1).drop_last() =~= ts.take(i as int));
        assert(out@ =~= before + tuner_reserve_line(ts[i as int]));
    }
    assert(ts.take(items.len() as int) =~= ts);
    string_from_chars(out.as_slice())
}

/// One line per string.
pub fn format_string_list_plain(items: &[String]) -> (s: String)
    ensures
        s@ == strings_text(items.deep_view()),
{
    let ghost ss = items.deep_view();
    let mut out: Vec<char> = Vec::new();
    for i in 0..items.len()
        invariant
            ss == items.deep_view(),
            out@ == strings_text(ss.take(i as int)),
    {
        let ghost before = out@;
        push_text(&mut out, &items[i]);
        out.push('\n');
        assert(ss.take(i + 1).drop_last() =~= ss.take(i as int));
        assert(out@ =~= before + ss[i as int] + newline());
    }
    assert(ss.take(items.len() as int) =~= ss);
    string_from_chars(out.as_slice())
}

/// A notification: id, time, two parameters and count.
pub fn format_notify_status_plain(value: &NotifySrvInfo) -> (s: String)
    requires
        value.time.wf(),
    ensures
        s@ == notify_line(value.deep_view()),
{
    let mut out: Vec<char> = Vec::new();
    push_decimal(&mut out, value.notify_id as u64);
    out.push('\t');
    push_time(&mut out, &value.time);
    out.push('\t');
    push_decimal(&mut out, value.param1 as u64);
    out.push('\t');
    push_decimal(&mut out, value.param2 as u64);
    out.push('\t');
    push_decimal(&mut out, value.count as u64);
    out.push('\n');
    assert(out@ =~= notify_line(value.deep_view()));
    string_from_chars(out.as_slice())
}


/// Whether every date and time that the plain text of an output shows exists.
pub open spec fn output_dated(o: OutputModel) -> bool {
    match o {
        OutputModel::Reserves(rs) => reserves_dated(rs),
        OutputModel::Recorded(rs) => recorded_dated(rs),
        OutputModel::RecordedInfo(r) => r.start_time.wf(),
        OutputModel::Programs(es) => programs_dated(es),
        OutputModel::Reservation(r) => r.start_time.wf(),
        OutputModel::NotifyStatus(n) => n.time.wf(),
        _ => true,
    }
}

/// The plain text of an output; tuner processes carry a floating-point signal level, which
/// this library does not print.
pub open spec fn plain_text(o: OutputModel) -> Option<Seq<char>> {
    match o {
        OutputModel::Services(ss) => Some(services_text(ss)),
        OutputModel::Reserves(rs) => Some(reserves_text(rs)),
        OutputModel::Recorded(rs) => Some(recorded_text(rs)),
        OutputModel::RecordedInfo(r) => Some(recorded_info_line(r)),
        OutputModel::Programs(es) => Some(programs_text(es)),
        OutputModel::Reservation(r) => Some(reservation_line(r)),
        OutputModel::TunerReserves(ts) => Some(tuner_reserves_text(ts)),
        OutputModel::TunerProcesses(_) => None,
        OutputModel::Plugins(ss) => Some(strings_text(ss)),
        OutputModel::NotifyStatus(n) => Some(notify_line(n)),
    }
}

/// Whether every date and time that the plain text of an output shows exists.
pub fn is_dated(o: &CommandOutput) -> (b: bool)
    ensures
        b == output_dated(o.deep_view()),
{
    match o {
        CommandOutput::Reserves(rs) => {
            let ghost m = rs.deep_view();
            for i in 0..rs.len()
                invariant
                    m == rs.deep_view(),
                    output_dated(o.deep_view()) == (forall|j: int| 0 <= j < m.len() ==> (#[trigger] m[j]).start_time.wf()),
                    forall|j: int| 0 <= j < i ==> (#[trigger] m[j]).start_time.wf(),
            {
                if !rs[i].start_time.is_valid() {
                    assert(!m[i as int].start_time.wf());
                    return false;
                }
            }
            true
        },
        CommandOutput::Recorded(rs) => {
            let ghost m = rs.deep_view();
            for i in 0..rs.len()
                invariant
                    m == rs.deep_view(),
                    output_dated(o.deep_view()) == (forall|j: int| 0 <= j < m.len() ==> (#[trigger] m[j]).start_time.wf()),
                    forall|j: int| 0 <= j < i ==> (#[trigger] m[j]).start_time.wf(),
            {
                if !rs[i].start_time.is_valid() {
                    assert(!m[i as int].start_time.wf());
                    return false;
                }
            }
            true
        },
        CommandOutput::RecordedInfo(r) => r.start_time.is_valid(),
        CommandOutput::Programs(es) => {
            let ghost m = es.deep_view();
            for i in 0..es.len()
                invariant
                    m == es.deep_view(),
                    output_dated(o.deep_view()) == programs_dated(m),
                    forall|j: int| 0 <= j < i ==> ((#[trigger] m[j]).start_time matches Some(t) ==> t.wf()),
            {
                match &es[i].start_time {
                    Some(t) => if !t.is_valid() {
                        assert(!(m[i as int].start_time matches Some(t) ==> t.wf()));
                        return false;
                    },
                    None => {},
                }
            }
            true
        },
        CommandOutput::Reservation(r) => r.start_time.is_valid(),
        CommandOutput::NotifyStatus(n) => n.time.is_valid(),
        _ => true,
    }
}

/// The plain text of a command's output.
pub fn render_plain(o: &CommandOutput) -> (r: Option<String>)
    requires
        output_dated(o.deep_view()),
    ensures
        match plain_text(o.deep_view()) {
            Some(t) => r matches Some(s) && s@ == t,
            None => r is None,
        },
{
    match o {
        CommandOutput::Services(v) => Some(format_services_plain(v.as_slice())),
        CommandOutput::Reserves(v) => Some(format_reserves_plain(v.as_slice())),
        CommandOutput::Recorded(v) => Some(format_recorded_plain(v.as_slice())),
        CommandOutput::RecordedInfo(v) => Some(format_recorded_info_plain(v)),
        CommandOutput::Programs(v) => Some(format_programs_plain(v.as_slice())),
        CommandOutput::Reservation(v) => Some(format_reservation_plain(v)),
        CommandOutput::TunerReserves(v) => Some(format_tuner_reserves_plain(v.as_slice())),
        CommandOutput::TunerProcesses(_) => None,
        CommandOutput::Plugins(v) => Some(format_string_list_plain(v.as_slice())),
        CommandOutput::NotifyStatus(v) => Some(format_notify_status_plain(v)),
    }
}

} // verus!

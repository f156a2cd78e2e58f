use vstd::prelude::*;

use crate::datetime::DateTime;
use crate::error::EdcbError;
use crate::text::{chars_of, push_signed_decimal, signed_decimal, string_from_chars, trim_chars, trim_seq};
use crate::types::{
    EventInfo, EventInfoModel, RecFileSetInfo, RecSettingData, ReserveData, ReserveDataModel,
    ServiceInfo, ServiceInfoModel,
};

verus! {

impl RecFileSetInfo {
    /// A copy with the same contents.
    pub fn duplicate(&self) -> (r: RecFileSetInfo)
        ensures
            r.deep_view() == self.deep_view(),
    {
        RecFileSetInfo {
            rec_folder: self.rec_folder.clone(),
            write_plug_in: self.write_plug_in.clone(),
            rec_name_plug_in: self.rec_name_plug_in.clone(),
        }
    }
}

/// A copy of a list of recording folders with the same contents.
pub fn duplicate_folders(v: &Vec<RecFileSetInfo>) -> (r: Vec<RecFileSetInfo>)
    ensures
        r.deep_view() == v.deep_view(),
{
    let mut r: Vec<RecFileSetInfo> = Vec::new();
    for i in 0..v.len()
        invariant
            r.len() == i,
            forall|j: int| 0 <= j < i ==> #[trigger] r@[j].deep_view() == v@[j].deep_view(),
    {
        r.push(v[i].duplicate());
    }
    assert(r.deep_view() =~= v.deep_view());
    r
}

/// A copy of a list of strings with the same contents.
pub fn duplicate_strings(v: &Vec<String>) -> (r: Vec<String>)
    ensures
        r.deep_view() == v.deep_view(),
{
    let mut r: Vec<String> = Vec::new();
    for i in 0..v.len()
        invariant
            r.len() == i,
            forall|j: int| 0 <= j < i ==> #[trigger] r@[j].deep_view() == v@[j].deep_view(),
    {
        r.push(v[i].clone());
    }
    assert(r.deep_view() =~= v.deep_view());
    r
}

impl RecSettingData {
    /// A copy with the same contents.
    pub fn duplicate(&self) -> (r: RecSettingData)
        ensures
            r.deep_view() == self.deep_view(),
    {
        RecSettingData {
            rec_mode: self.rec_mode,
            priority: self.priority,
            tuijyuu_flag: self.tuijyuu_flag,
            service_mode: self.service_mode,
            pittari_flag: self.pittari_flag,
            bat_file_path: self.bat_file_path.clone(),
            rec_folder_list: duplicate_folders(&self.rec_folder_list),
            suspend_mode: self.suspend_mode,
            reboot_flag: self.reboot_flag,
            start_margin: self.start_margin,
            end_margin: self.end_margin,
            continue_rec_flag: self.continue_rec_flag,
            partial_rec_flag: self.partial_rec_flag,
            tuner_id: self.tuner_id,
            partial_rec_folder: duplicate_folders(&self.partial_rec_folder),
        }
    }
}

impl ReserveData {
    /// A copy with the same contents.
    pub fn duplicate(&self) -> (r: ReserveData)
        ensures
            r.deep_view() == self.deep_view(),
    {
        ReserveData {
            title: self.title.clone(),
            start_time: self.start_time,
            duration_second: self.duration_second,
            station_name: self.station_name.clone(),
            onid: self.onid,
            tsid: self.tsid,
            sid: self.sid,
            eid: self.eid,
            comment: self.comment.clone(),
            reserve_id: self.reserve_id,
            overlap_mode: self.overlap_mode,
            start_time_epg: self.start_time_epg,
            rec_setting: self.rec_setting.duplicate(),
            rec_file_name_list: duplicate_strings(&self.rec_file_name_list),
        }
    }
}

/// The title a reservation for `e` gets: the program's name without surrounding white
/// space, or the default title where the program has no name or only white space.
pub open spec fn reservation_title(default_title: Seq<char>, e: EventInfoModel) -> Seq<char> {
    match e.short_info {
        Some(si) => if trim_seq(si.event_name).len() > 0 {
            trim_seq(si.event_name)
        } else {
            default_title
        },
        None => default_title,
    }
}

/// The reservation for program `e` of service `s`, starting from the server's default
/// reservation `d`: the default's recording settings, the program's identity and time,
/// the service's name, and no comment, id, overlap mode or file names.
pub open spec fn reservation_for(
    d: ReserveDataModel,
    s: ServiceInfoModel,
    e: EventInfoModel,
    start: DateTime,
    duration: u32,
) -> ReserveDataModel {
    ReserveDataModel {
        title: reservation_title(d.title, e),
        start_time: start,
        duration_second: duration,
        station_name: s.service_name,
        onid: e.onid,
        tsid: e.tsid,
        sid: e.sid,
        eid: e.eid,
        comment: Seq::empty(),
        reserve_id: 0,
        overlap_mode: 0,
        start_time_epg: start,
        rec_setting: d.rec_setting,
        rec_file_name_list: Seq::empty(),
    }
}

/// The reservation for program `e` of service `s` from the default reservation `d`, or the
/// message of why the program cannot be reserved.
pub open spec fn build_outcome(
    d: ReserveDataModel,
    s: ServiceInfoModel,
    e: EventInfoModel,
) -> Result<ReserveDataModel, Seq<char>> {
    match (e.start_time, e.duration_sec) {
        (None, _) => Err("event start_time is missing"@),
        (Some(_), None) => Err("event duration_sec is missing"@),
        (Some(start), Some(dur)) => if dur < 0 {
            Err("event duration_sec must be non-negative: "@ + signed_decimal(dur as int))
        } else {
            Ok(reservation_for(d, s, e, start, dur as u32))
        },
    }
}

/// Builds the reservation for a program from the server's default reservation.
///
/// A program without a start time or a duration, or with a negative duration, cannot be
/// reserved: the error names what is wrong.
pub fn build_reservation_from_event(
    default: &ReserveData,
    service: &ServiceInfo,
    event: &EventInfo,
) -> (r: Result<ReserveData, EdcbError>)
    ensures
        match build_outcome(default.deep_view(), service.deep_view(), event.deep_view()) {
            Ok(m) => r matches Ok(v) && v.deep_view() == m,
            Err(msg) => r matches Err(EdcbError::InvalidInput(s)) && s@ == msg,
        },
        match (event.start_time, event.duration_sec) {
            (None, _) => r matches Err(EdcbError::InvalidInput(m)) && m@
                == "event start_time is missing"@,
            (Some(_), None) => r matches Err(EdcbError::InvalidInput(m)) && m@
                == "event duration_sec is missing"@,
            (Some(start), Some(d)) => if d < 0 {
                r matches Err(EdcbError::InvalidInput(m)) && m@
                    == "event duration_sec must be non-negative: "@ + signed_decimal(d as int)
            } else {
                r matches Ok(v) && v.deep_view() == reservation_for(
                    default.deep_view(),
                    service.deep_view(),
                    event.deep_view(),
                    start,
                    d as u32,
                )
            },
        },
{
    let start_time = match event.start_time {
        Some(t) => t,
        None => {
            return Err(EdcbError::InvalidInput("event start_time is missing".to_string()));
        },
    };
    let duration = match event.duration_sec {
        Some(d) => d,
        None => {
            return Err(EdcbError::InvalidInput("event duration_sec is missing".to_string()));
        },
    };
    if duration < 0 {
        let mut cs = chars_of("event duration_sec must be non-negative: ");
        push_signed_decimal(&mut cs, duration as i64);
        return Err(EdcbError::InvalidInput(string_from_chars(cs.as_slice())));
    }
    let title = match &event.short_info {
        Some(info) => {
            let name = chars_of(info.event_name.as_str());
            let trimmed = trim_chars(name.as_slice());
            if trimmed.len() > 0 {
                string_from_chars(trimmed.as_slice())
            } else {
                default.title.clone()
            }
        },
        None => default.title.clone(),
    };
    let mut reserve = default.duplicate();
    reserve.title = title;
    reserve.start_time = start_time;
    reserve.duration_second = duration as u32;
    reserve.station_name = service.service_name.clone();
    reserve.onid = event.onid;
    reserve.tsid = event.tsid;
    reserve.sid = event.sid;
    reserve.eid = event.eid;
    reserve.comment = String::new();
    reserve.reserve_id = 0;
    reserve.overlap_mode = 0;
    reserve.start_time_epg = start_time;
    reserve.rec_file_name_list = Vec::new();
    assert(reserve.comment@ =~= Seq::<char>::empty());
    assert(reserve.rec_file_name_list.deep_view() =~= Seq::<Seq<char>>::empty());
    Ok(reserve)
}

} // verus!

use vstd::prelude::*;

use crate::client::{matches_query, matching_events, matching_programs};
use crate::codec::{
    p_optional, lemma_frame_roundtrip, lemma_string_roundtrip, lemma_u32_roundtrip, lemma_u8_roundtrip, vector_wire,
    WireRead, WireRoundtrip, WireWrite,
};
use crate::datetime::{rfc3339_text, DateTime, jst_wire_value, lemma_system_time_roundtrip, s_system_time};
use crate::keys::{event_key_of, search_id, service_key_of, ProgramSearchQueryModel, ServiceKey};
use crate::records::{
    p_auto_add_data_body, p_event_info_body, p_file_data_body, FileData, FileDataModel, p_audio_component_info_data_body, p_component_info_body, p_event_data_body, p_manual_auto_add_data_body,
    p_notify_srv_info_body, p_tuner_process_status_info_body, p_rec_file_info_body, s_content_data_body, s_rec_file_set_info_body, s_rec_setting_data_body, s_reserve_data_body,
    s_search_date_info_body, s_service_info_body, s_short_event_info_body,
};
use crate::search_key::{encode_and_key, s_search_key_info_body, SearchKeyInfo, SearchKeyInfoModel};
use crate::plain::{
    key_text, newline, notify_line, program_line, recorded_info_line, recorded_line, reservation_line, reserve_line,
    service_line, tuner_reserve_line,
};
use crate::text::{
    contains_seq, decimal, digit_char, find_char, lemma_find_char, parse_i32_spec, parse_unsigned_spec,
    signed_decimal, split_on,
};
use crate::types::{
    AudioComponentInfo, AutoAddData, AutoAddDataModel, ContentInfo, EventGroupInfo, EventInfo, ExtendedEventInfo,
    AudioComponentInfoData, AudioComponentInfoDataModel, ComponentInfo, ComponentInfoModel, EventData, EventDataModel,
    ManualAutoAddData, ManualAutoAddDataModel, NotifySrvInfo, NotifySrvInfoModel, TunerProcessStatusInfo,
    TunerProcessStatusInfoModel, TunerReserveInfoModel, ContentData, ContentDataModel, EventInfoModel, RecFileInfo, RecFileInfoModel, RecFileSetInfo, RecFileSetInfoModel,
    RecSettingData, RecSettingDataModel, ReserveData, ReserveDataModel, SearchDateInfo, SearchDateInfoModel,
    ServiceEventInfoModel, ServiceInfo, ServiceInfoModel, ShortEventInfo, ShortEventInfoModel,
};
use crate::util::{ch_set5_row, ch_set5_rows, hex_char, hex_text, logo_file_prefix, logo_ini_key, ChSet5ItemModel};
use crate::wire::{le16, le32, lei32, lei64, s_frame, s_string, swap16};

verus! {

// ---- EDCB's struct layouts, written out field by field ----

/// The struct body EDCB uses for a service: onid, tsid, sid, service type, partial-reception
/// flag, provider name, service name, network name, TS name, remote-control key id.
pub open spec fn service_info_layout(m: ServiceInfoModel) -> Seq<u8> {
    le16(m.onid) + le16(m.tsid) + le16(m.sid) + seq![m.service_type] + seq![m.partial_reception_flag]
        + s_string(m.service_provider_name) + s_string(m.service_name) + s_string(m.network_name)
        + s_string(m.ts_name) + seq![m.remote_control_key_id]
}

/// A service is written in EDCB's layout, size-prefixed.
pub proof fn law_service_info_layout(m: ServiceInfoModel)
    ensures
        <ServiceInfo as WireWrite>::wire(m) == s_frame(service_info_layout(m)),
{
    reveal(s_service_info_body);
    assert(s_service_info_body(m) =~= service_info_layout(m));
}

/// A service that EDCB sends in its layout is read field by field: the network name is the
/// third string and the TS name the fourth.
pub proof fn law_service_info_decodes(m: ServiceInfoModel, rest: Seq<u8>)
    requires
        s_frame(service_info_layout(m)).len() <= i32::MAX,
    ensures
        <ServiceInfo as WireRead>::parse(s_frame(service_info_layout(m)) + rest) == Some((m, rest)),
{
    law_service_info_layout(m);
    <ServiceInfo as WireRoundtrip>::lemma_roundtrip(m, rest);
}

/// The struct body EDCB uses for a reservation: title, start time, duration, station name,
/// onid, tsid, sid, eid, comment, reserve id, an unused byte, overlap mode, an unused string,
/// the EPG start time, the recording settings, an unused `i32`, the file names, an unused
/// `i32`.
pub open spec fn reserve_data_layout(m: ReserveDataModel) -> Seq<u8> {
    s_string(m.title) + s_system_time(m.start_time) + le32(m.duration_second) + s_string(m.station_name)
        + le16(m.onid) + le16(m.tsid) + le16(m.sid) + le16(m.eid) + s_string(m.comment) + lei32(
        m.reserve_id,
    ) + seq![0u8] + seq![m.overlap_mode] + s_string(Seq::<char>::empty()) + s_system_time(m.start_time_epg)
        + <RecSettingData as WireWrite>::wire(m.rec_setting) + lei32(0) + vector_wire::<String>(
        m.rec_file_name_list,
    ) + lei32(0)
}

/// A reservation is written in EDCB's layout: its title first, then the start time, the
/// duration and the station name.
pub proof fn law_reserve_data_layout(m: ReserveDataModel)
    ensures
        <ReserveData as WireWrite>::wire(m) == s_frame(reserve_data_layout(m)),
{
    reveal(s_reserve_data_body);
    assert(s_reserve_data_body(m) =~= reserve_data_layout(m));
}

/// A reservation that EDCB sends in its layout is read with the first string as its title and
/// the string after the start time and duration as its station name.
pub proof fn law_reserve_data_decodes(m: ReserveDataModel, rest: Seq<u8>)
    requires
        <ReserveData as WireRoundtrip>::canonical(m),
        s_frame(reserve_data_layout(m)).len() <= i32::MAX,
    ensures
        <ReserveData as WireRead>::parse(s_frame(reserve_data_layout(m)) + rest) == Some((m, rest)),
{
    law_reserve_data_layout(m);
    <ReserveData as WireRoundtrip>::lemma_roundtrip(m, rest);
}

/// The struct body EDCB sends for a recorded item: id, file path, title, start time, duration,
/// service name, onid, tsid, sid, eid, drops, scrambles, status, EPG start time, comment,
/// program information, error information, protect flag.
pub open spec fn rec_file_info_layout(m: RecFileInfoModel) -> Seq<u8> {
    lei32(m.id) + s_string(m.rec_file_path) + s_string(m.title) + s_system_time(m.start_time) + le32(
        m.duration_sec,
    ) + s_string(m.service_name) + le16(m.onid) + le16(m.tsid) + le16(m.sid) + le16(m.eid) + lei64(
        m.drops,
    ) + lei64(m.scrambles) + lei32(m.rec_status) + s_system_time(m.start_time_epg) + s_string(m.comment)
        + s_string(m.program_info) + s_string(m.err_info) + seq![if m.protect_flag { 1u8 } else { 0u8 }]
}

/// A recorded item that EDCB sends in its layout is read field by field: the first string
/// after the id is the file path and the second the title.
#[verifier::spinoff_prover]
#[verifier::rlimit(100)]
pub proof fn law_rec_file_info_decodes(m: RecFileInfoModel, rest: Seq<u8>)
    requires
        jst_wire_value(m.start_time),
        jst_wire_value(m.start_time_epg),
        rec_file_info_layout(m).len() + 4 <= i32::MAX,
    ensures
        <RecFileInfo as WireRead>::parse(s_frame(rec_file_info_layout(m)) + rest) == Some((m, rest)),
{
    reveal(p_rec_file_info_body);
    let flag: u8 = if m.protect_flag { 1u8 } else { 0u8 };
    let r18 = Seq::<u8>::empty();
    let r17 = seq![flag] + r18;
    let r16 = s_string(m.err_info) + r17;
    let r15 = s_string(m.program_info) + r16;
    let r14 = s_string(m.comment) + r15;
    let r13 = s_system_time(m.start_time_epg) + r14;
    let r12 = lei32(m.rec_status) + r13;
    let r11 = lei64(m.scrambles) + r12;
    let r10 = lei64(m.drops) + r11;
    let r9 = le16(m.eid) + r10;
    let r8 = le16(m.sid) + r9;
    let r7 = le16(m.tsid) + r8;
    let r6 = le16(m.onid) + r7;
    let r5 = s_string(m.service_name) + r6;
    let r4 = le32(m.duration_sec) + r5;
    let r3 = s_system_time(m.start_time) + r4;
    let r2 = s_string(m.title) + r3;
    let r1 = s_string(m.rec_file_path) + r2;
    let r0 = lei32(m.id) + r1;
    assert(rec_file_info_layout(m) =~= r0);
    <i32 as WireRoundtrip>::lemma_roundtrip(m.id, r1);
    lemma_string_roundtrip(m.rec_file_path, r2);
    lemma_string_roundtrip(m.title, r3);
    lemma_system_time_roundtrip(m.start_time, r4);
    lemma_u32_roundtrip(m.duration_sec, r5);
    lemma_string_roundtrip(m.service_name, r6);
    <u16 as WireRoundtrip>::lemma_roundtrip(m.onid, r7);
    <u16 as WireRoundtrip>::lemma_roundtrip(m.tsid, r8);
    <u16 as WireRoundtrip>::lemma_roundtrip(m.sid, r9);
    <u16 as WireRoundtrip>::lemma_roundtrip(m.eid, r10);
    <i64 as WireRoundtrip>::lemma_roundtrip(m.drops, r11);
    <i64 as WireRoundtrip>::lemma_roundtrip(m.scrambles, r12);
    <i32 as WireRoundtrip>::lemma_roundtrip(m.rec_status, r13);
    lemma_system_time_roundtrip(m.start_time_epg, r14);
    lemma_string_roundtrip(m.comment, r15);
    lemma_string_roundtrip(m.program_info, r16);
    lemma_string_roundtrip(m.err_info, r17);
    lemma_u8_roundtrip(flag, r18);
    assert(r17 =~= seq![flag]);
    lemma_frame_roundtrip(rec_file_info_layout(m), rest);
}

/// The struct body EDCB sends for a tuner process: tuner id, process id, drops, scrambles,
/// signal level, space, channel, onid, tsid, recording flag, EPG-capture flag, extra flags.
pub open spec fn tuner_process_status_info_layout(m: TunerProcessStatusInfoModel) -> Seq<u8> {
    le32(m.tuner_id)
        + lei32(m.process_id)
        + lei64(m.drop)
        + lei64(m.scramble)
        + le32(m.signal_lv_bits)
        + lei32(m.space)
        + lei32(m.ch)
        + lei32(m.onid)
        + lei32(m.tsid)
        + seq![if m.rec_flag { 1u8 } else { 0u8 }]
        + seq![if m.epg_cap_flag { 1u8 } else { 0u8 }]
        + le16(m.extra_flags)
}

/// A tuner process that EDCB sends in its layout is read field by field, in that order.
#[verifier::spinoff_prover]
#[verifier::rlimit(100)]
pub proof fn law_tuner_process_status_info_decodes(m: TunerProcessStatusInfoModel, rest: Seq<u8>)
    requires
        tuner_process_status_info_layout(m).len() + 4 <= i32::MAX,
    ensures
        <TunerProcessStatusInfo as WireRead>::parse(s_frame(tuner_process_status_info_layout(m)) + rest) == Some((m, rest)),
{
    reveal(p_tuner_process_status_info_body);
    let r12 = Seq::<u8>::empty();
    let r11 = le16(m.extra_flags) + r12;
    let r10 = seq![if m.epg_cap_flag { 1u8 } else { 0u8 }] + r11;
    let r9 = seq![if m.rec_flag { 1u8 } else { 0u8 }] + r10;
    let r8 = lei32(m.tsid) + r9;
    let r7 = lei32(m.onid) + r8;
    let r6 = lei32(m.ch) + r7;
    let r5 = lei32(m.space) + r6;
    let r4 = le32(m.signal_lv_bits) + r5;
    let r3 = lei64(m.scramble) + r4;
    let r2 = lei64(m.drop) + r3;
    let r1 = lei32(m.process_id) + r2;
    let r0 = le32(m.tuner_id) + r1;
    assert(tuner_process_status_info_layout(m) =~= r0);
    lemma_u32_roundtrip(m.tuner_id, r1);
    <i32 as WireRoundtrip>::lemma_roundtrip(m.process_id, r2);
    <i64 as WireRoundtrip>::lemma_roundtrip(m.drop, r3);
    <i64 as WireRoundtrip>::lemma_roundtrip(m.scramble, r4);
    lemma_u32_roundtrip(m.signal_lv_bits, r5);
    <i32 as WireRoundtrip>::lemma_roundtrip(m.space, r6);
    <i32 as WireRoundtrip>::lemma_roundtrip(m.ch, r7);
    <i32 as WireRoundtrip>::lemma_roundtrip(m.onid, r8);
    <i32 as WireRoundtrip>::lemma_roundtrip(m.tsid, r9);
    lemma_u8_roundtrip(if m.rec_flag { 1u8 } else { 0u8 }, r10);
    lemma_u8_roundtrip(if m.epg_cap_flag { 1u8 } else { 0u8 }, r11);
    <u16 as WireRoundtrip>::lemma_roundtrip(m.extra_flags, r12);
    assert(r11 =~= le16(m.extra_flags));
    lemma_frame_roundtrip(tuner_process_status_info_layout(m), rest);
}

/// The struct body EDCB sends for a video component: stream content, component type,
/// component tag, text.
pub open spec fn component_info_layout(m: ComponentInfoModel) -> Seq<u8> {
    seq![m.stream_content]
        + seq![m.component_type]
        + seq![m.component_tag]
        + s_string(m.text_char)
}

/// A video component that EDCB sends in its layout is read field by field, in that order.
#[verifier::spinoff_prover]
#[verifier::rlimit(100)]
pub proof fn law_component_info_decodes(m: ComponentInfoModel, rest: Seq<u8>)
    requires
        component_info_layout(m).len() + 4 <= i32::MAX,
    ensures
        <ComponentInfo as WireRead>::parse(s_frame(component_info_layout(m)) + rest) == Some((m, rest)),
{
    reveal(p_component_info_body);
    let r4 = Seq::<u8>::empty();
    let r3 = s_string(m.text_char) + r4;
    let r2 = seq![m.component_tag] + r3;
    let r1 = seq![m.component_type] + r2;
    let r0 = seq![m.stream_content] + r1;
    assert(component_info_layout(m) =~= r0);
    lemma_u8_roundtrip(m.stream_content, r1);
    lemma_u8_roundtrip(m.component_type, r2);
    lemma_u8_roundtrip(m.component_tag, r3);
    lemma_string_roundtrip(m.text_char, r4);
    assert(r3 =~= s_string(m.text_char));
    lemma_frame_roundtrip(component_info_layout(m), rest);
}

/// The struct body EDCB sends for an audio component: stream content, component type,
/// component tag, stream type, simulcast group tag, multi-lingual flag, main-component flag,
/// quality indicator, sampling rate, text.
pub open spec fn audio_component_info_data_layout(m: AudioComponentInfoDataModel) -> Seq<u8> {
    seq![m.stream_content]
        + seq![m.component_type]
        + seq![m.component_tag]
        + seq![m.stream_type]
        + seq![m.simulcast_group_tag]
        + seq![m.es_multi_lingual_flag]
        + seq![m.main_component_flag]
        + seq![m.quality_indicator]
        + seq![m.sampling_rate]
        + s_string(m.text_char)
}

/// An audio component that EDCB sends in its layout is read field by field, in that order.
#[verifier::spinoff_prover]
#[verifier::rlimit(100)]
pub proof fn law_audio_component_info_data_decodes(m: AudioComponentInfoDataModel, rest: Seq<u8>)
    requires
        audio_component_info_data_layout(m).len() + 4 <= i32::MAX,
    ensures
        <AudioComponentInfoData as WireRead>::parse(s_frame(audio_component_info_data_layout(m)) + rest) == Some((m, rest)),
{
    reveal(p_audio_component_info_data_body);
    let r10 = Seq::<u8>::empty();
    let r9 = s_string(m.text_char) + r10;
    let r8 = seq![m.sampling_rate] + r9;
    let r7 = seq![m.quality_indicator] + r8;
    let r6 = seq![m.main_component_flag] + r7;
    let r5 = seq![m.es_multi_lingual_flag] + r6;
    let r4 = seq![m.simulcast_group_tag] + r5;
    let r3 = seq![m.stream_type] + r4;
    let r2 = seq![m.component_tag] + r3;
    let r1 = seq![m.component_type] + r2;
    let r0 = seq![m.stream_content] + r1;
    assert(audio_component_info_data_layout(m) =~= r0);
    lemma_u8_roundtrip(m.stream_content, r1);
    lemma_u8_roundtrip(m.component_type, r2);
    lemma_u8_roundtrip(m.component_tag, r3);
    lemma_u8_roundtrip(m.stream_type, r4);
    lemma_u8_roundtrip(m.simulcast_group_tag, r5);
    lemma_u8_roundtrip(m.es_multi_lingual_flag, r6);
    lemma_u8_roundtrip(m.main_component_flag, r7);
    lemma_u8_roundtrip(m.quality_indicator, r8);
    lemma_u8_roundtrip(m.sampling_rate, r9);
    lemma_string_roundtrip(m.text_char, r10);
    assert(r9 =~= s_string(m.text_char));
    lemma_frame_roundtrip(audio_component_info_data_layout(m), rest);
}

/// The struct body EDCB sends for a program reference: onid, tsid, sid, eid.
pub open spec fn event_data_layout(m: EventDataModel) -> Seq<u8> {
    le16(m.onid)
        + le16(m.tsid)
        + le16(m.sid)
        + le16(m.eid)
}

/// A program reference that EDCB sends in its layout is read as onid, tsid, sid, eid.
#[verifier::spinoff_prover]
#[verifier::rlimit(100)]
pub proof fn law_event_data_decodes(m: EventDataModel, rest: Seq<u8>)
    requires
        event_data_layout(m).len() + 4 <= i32::MAX,
    ensures
        <EventData as WireRead>::parse(s_frame(event_data_layout(m)) + rest) == Some((m, rest)),
{
    reveal(p_event_data_body);
    let r4 = Seq::<u8>::empty();
    let r3 = le16(m.eid) + r4;
    let r2 = le16(m.sid) + r3;
    let r1 = le16(m.tsid) + r2;
    let r0 = le16(m.onid) + r1;
    assert(event_data_layout(m) =~= r0);
    <u16 as WireRoundtrip>::lemma_roundtrip(m.onid, r1);
    <u16 as WireRoundtrip>::lemma_roundtrip(m.tsid, r2);
    <u16 as WireRoundtrip>::lemma_roundtrip(m.sid, r3);
    <u16 as WireRoundtrip>::lemma_roundtrip(m.eid, r4);
    assert(r3 =~= le16(m.eid));
    lemma_frame_roundtrip(event_data_layout(m), rest);
}

/// The struct body EDCB sends for a notification: id, time, first, second and count
/// parameters, then the fourth, fifth and sixth (string) parameters.
pub open spec fn notify_srv_info_layout(m: NotifySrvInfoModel) -> Seq<u8> {
    le32(m.notify_id)
        + s_system_time(m.time)
        + le32(m.param1)
        + le32(m.param2)
        + le32(m.count)
        + s_string(m.param4)
        + s_string(m.param5)
        + s_string(m.param6)
}

/// A notification that EDCB sends in its layout is read field by field, in that order.
#[verifier::spinoff_prover]
#[verifier::rlimit(100)]
pub proof fn law_notify_srv_info_decodes(m: NotifySrvInfoModel, rest: Seq<u8>)
    requires
        jst_wire_value(m.time),
        notify_srv_info_layout(m).len() + 4 <= i32::MAX,
    ensures
        <NotifySrvInfo as WireRead>::parse(s_frame(notify_srv_info_layout(m)) + rest) == Some((m, rest)),
{
    reveal(p_notify_srv_info_body);
    let r8 = Seq::<u8>::empty();
    let r7 = s_string(m.param6) + r8;
    let r6 = s_string(m.param5) + r7;
    let r5 = s_string(m.param4) + r6;
    let r4 = le32(m.count) + r5;
    let r3 = le32(m.param2) + r4;
    let r2 = le32(m.param1) + r3;
    let r1 = s_system_time(m.time) + r2;
    let r0 = le32(m.notify_id) + r1;
    assert(notify_srv_info_layout(m) =~= r0);
    lemma_u32_roundtrip(m.notify_id, r1);
    lemma_system_time_roundtrip(m.time, r2);
    lemma_u32_roundtrip(m.param1, r3);
    lemma_u32_roundtrip(m.param2, r4);
    lemma_u32_roundtrip(m.count, r5);
    lemma_string_roundtrip(m.param4, r6);
    lemma_string_roundtrip(m.param5, r7);
    lemma_string_roundtrip(m.param6, r8);
    assert(r7 =~= s_string(m.param6));
    lemma_frame_roundtrip(notify_srv_info_layout(m), rest);
}

/// The struct body EDCB uses for a weekly recording rule: id, weekday flags, start time,
/// duration, title, station name, onid, tsid, sid, recording settings.
pub open spec fn manual_auto_add_data_layout(m: ManualAutoAddDataModel) -> Seq<u8> {
    lei32(m.data_id)
        + seq![m.day_of_week_flag]
        + le32(m.start_time)
        + le32(m.duration_second)
        + s_string(m.title)
        + s_string(m.station_name)
        + le16(m.onid)
        + le16(m.tsid)
        + le16(m.sid)
        + <RecSettingData as WireWrite>::wire(m.rec_setting)
}

/// A weekly recording rule that EDCB sends in its layout is read field by field: the first
/// string is the title and the second the station name.
#[verifier::spinoff_prover]
#[verifier::rlimit(100)]
pub proof fn law_manual_auto_add_data_decodes(m: ManualAutoAddDataModel, rest: Seq<u8>)
    requires
        <RecSettingData as WireRoundtrip>::canonical(m.rec_setting),
        manual_auto_add_data_layout(m).len() + 4 <= i32::MAX,
    ensures
        <ManualAutoAddData as WireRead>::parse(s_frame(manual_auto_add_data_layout(m)) + rest) == Some((m, rest)),
{
    reveal(p_manual_auto_add_data_body);
    let r10 = Seq::<u8>::empty();
    let r9 = <RecSettingData as WireWrite>::wire(m.rec_setting) + r10;
    let r8 = le16(m.sid) + r9;
    let r7 = le16(m.tsid) + r8;
    let r6 = le16(m.onid) + r7;
    let r5 = s_string(m.station_name) + r6;
    let r4 = s_string(m.title) + r5;
    let r3 = le32(m.duration_second) + r4;
    let r2 = le32(m.start_time) + r3;
    let r1 = seq![m.day_of_week_flag] + r2;
    let r0 = lei32(m.data_id) + r1;
    assert(manual_auto_add_data_layout(m) =~= r0);
    <i32 as WireRoundtrip>::lemma_roundtrip(m.data_id, r1);
    lemma_u8_roundtrip(m.day_of_week_flag, r2);
    lemma_u32_roundtrip(m.start_time, r3);
    lemma_u32_roundtrip(m.duration_second, r4);
    lemma_string_roundtrip(m.title, r5);
    lemma_string_roundtrip(m.station_name, r6);
    <u16 as WireRoundtrip>::lemma_roundtrip(m.onid, r7);
    <u16 as WireRoundtrip>::lemma_roundtrip(m.tsid, r8);
    <u16 as WireRoundtrip>::lemma_roundtrip(m.sid, r9);
    <RecSettingData as WireRoundtrip>::lemma_roundtrip(m.rec_setting, r10);
    assert(r9 =~= <RecSettingData as WireWrite>::wire(m.rec_setting));
    lemma_frame_roundtrip(manual_auto_add_data_layout(m), rest);
}

/// The struct body EDCB uses for an automatic recording rule: id, the search conditions (as
/// their own struct), the recording settings, the count of reservations it added.
pub open spec fn auto_add_data_layout(data_id: i32, search_info: Seq<u8>, rec_setting: RecSettingDataModel, add_count: i32) -> Seq<u8> {
    lei32(data_id) + search_info + <RecSettingData as WireWrite>::wire(rec_setting) + lei32(add_count)
}

/// An automatic recording rule that EDCB sends in its layout is read field by field: the
/// first `i32` is its id and the last the count of reservations it added.
#[verifier::spinoff_prover]
#[verifier::rlimit(100)]
pub proof fn law_auto_add_data_decodes(
    data_id: i32,
    search_info: Seq<u8>,
    key: SearchKeyInfoModel,
    rec_setting: RecSettingDataModel,
    add_count: i32,
    rest: Seq<u8>,
)
    requires
        <SearchKeyInfo as WireRead>::parse(search_info + (<RecSettingData as WireWrite>::wire(rec_setting) + lei32(add_count)))
            == Some((key, <RecSettingData as WireWrite>::wire(rec_setting) + lei32(add_count))),
        <RecSettingData as WireRoundtrip>::canonical(rec_setting),
        auto_add_data_layout(data_id, search_info, rec_setting, add_count).len() + 4 <= i32::MAX,
    ensures
        <AutoAddData as WireRead>::parse(s_frame(auto_add_data_layout(data_id, search_info, rec_setting, add_count)) + rest)
            == Some((AutoAddDataModel { data_id, search_info: key, rec_setting, add_count }, rest)),
{
    reveal(p_auto_add_data_body);
    let layout = auto_add_data_layout(data_id, search_info, rec_setting, add_count);
    let r4 = Seq::<u8>::empty();
    let r3 = lei32(add_count);
    let r2 = <RecSettingData as WireWrite>::wire(rec_setting) + r3;
    let r1 = search_info + r2;
    let r0 = lei32(data_id) + r1;
    assert(layout =~= r0);
    <i32 as WireRoundtrip>::lemma_roundtrip(data_id, r1);
    <RecSettingData as WireRoundtrip>::lemma_roundtrip(rec_setting, r3);
    <i32 as WireRoundtrip>::lemma_roundtrip(add_count, r4);
    assert(r3 + r4 =~= r3);
    lemma_frame_roundtrip(layout, rest);
}

/// The struct body EDCB sends for a file: its name, the data size, a reserved `i32`, then the
/// data.
pub open spec fn file_data_layout(name: Seq<char>, reserved: i32, data: Seq<u8>) -> Seq<u8> {
    s_string(name) + lei32(data.len() as i32) + lei32(reserved) + data
}

/// A file that EDCB sends in its layout is read as its name and exactly the data that the size
/// field counts, whatever the reserved field holds.
#[verifier::spinoff_prover]
#[verifier::rlimit(100)]
pub proof fn law_file_data_decodes(name: Seq<char>, reserved: i32, data: Seq<u8>, rest: Seq<u8>)
    requires
        file_data_layout(name, reserved, data).len() + 4 <= i32::MAX,
    ensures
        <FileData as WireRead>::parse(s_frame(file_data_layout(name, reserved, data)) + rest) == Some(
            (FileDataModel { name, data }, rest),
        ),
{
    reveal(p_file_data_body);
    let layout = file_data_layout(name, reserved, data);
    let size = data.len() as i32;
    let r3 = data;
    let r2 = lei32(reserved) + r3;
    let r1 = lei32(size) + r2;
    let r0 = s_string(name) + r1;
    assert(layout =~= r0);
    lemma_string_roundtrip(name, r1);
    <i32 as WireRoundtrip>::lemma_roundtrip(size, r2);
    <i32 as WireRoundtrip>::lemma_roundtrip(reserved, r3);
    assert(r3.take(size as int) =~= data);
    lemma_frame_roundtrip(layout, rest);
}

/// The struct body EDCB sends for a program: onid, tsid, sid, eid, a start-time flag and the
/// start time, a duration flag and the duration, then seven optional structs (short
/// description, extended description, genres, video, audio, event group, relay group), then
/// the free/pay flag. A time or duration whose flag is clear is sent all the same, with a
/// value that is read and dropped.
pub open spec fn event_info_layout(
    m: EventInfoModel,
    unset_start: DateTime,
    unset_duration: i32,
    parts: (Seq<u8>, Seq<u8>, Seq<u8>, Seq<u8>, Seq<u8>, Seq<u8>, Seq<u8>),
) -> Seq<u8> {
    le16(m.onid) + le16(m.tsid) + le16(m.sid) + le16(m.eid) + seq![if m.start_time is Some { 1u8 } else { 0u8 }]
        + s_system_time(
        match m.start_time {
            Some(v) => v,
            None => unset_start,
        },
    ) + seq![if m.duration_sec is Some { 1u8 } else { 0u8 }] + lei32(
        match m.duration_sec {
            Some(d) => d,
            None => unset_duration,
        },
    ) + (parts.0 + (parts.1 + (parts.2 + (parts.3 + (parts.4 + (parts.5 + (parts.6 + seq![m.free_ca_flag])))))))
}

proof fn lemma_event_info_layout_split(
    m: EventInfoModel,
    unset_start: DateTime,
    unset_duration: i32,
    parts: (Seq<u8>, Seq<u8>, Seq<u8>, Seq<u8>, Seq<u8>, Seq<u8>, Seq<u8>),
)
    ensures
        event_info_layout(m, unset_start, unset_duration, parts) == le16(m.onid) + (le16(m.tsid) + (le16(m.sid) + (
        le16(m.eid) + (seq![if m.start_time is Some { 1u8 } else { 0u8 }] + (s_system_time(
            match m.start_time {
                Some(v) => v,
                None => unset_start,
            },
        ) + (seq![if m.duration_sec is Some { 1u8 } else { 0u8 }] + (lei32(
            match m.duration_sec {
                Some(d) => d,
                None => unset_duration,
            },
        ) + (parts.0 + (parts.1 + (parts.2 + (parts.3 + (parts.4 + (parts.5 + (parts.6 + seq![m.free_ca_flag])))))))))))))),
{
    let tail = parts.0 + (parts.1 + (parts.2 + (parts.3 + (parts.4 + (parts.5 + (parts.6 + seq![m.free_ca_flag]))))));
    let st = match m.start_time {
        Some(v) => v,
        None => unset_start,
    };
    let du = match m.duration_sec {
        Some(d) => d,
        None => unset_duration,
    };
    let sf: u8 = if m.start_time is Some { 1u8 } else { 0u8 };
    let df: u8 = if m.duration_sec is Some { 1u8 } else { 0u8 };
    assert(le16(m.onid) + le16(m.tsid) + le16(m.sid) + le16(m.eid) + seq![sf] + s_system_time(st) + seq![df] + lei32(du)
        + tail =~= le16(m.onid) + (le16(m.tsid) + (le16(m.sid) + (le16(m.eid) + (seq![sf] + (s_system_time(st) + (
    seq![df] + (lei32(du) + tail))))))));
}

/// A program that EDCB sends in its layout is read field by field: the four `u16` ids are
/// onid, tsid, sid and eid in that order, and each optional struct is read, by its own reader,
/// into its own field (the sixth into the event group and the seventh into the relay group).
#[verifier::spinoff_prover]
#[verifier::rlimit(100)]
pub proof fn law_event_info_decodes(
    m: EventInfoModel,
    unset_start: DateTime,
    unset_duration: i32,
    parts: (Seq<u8>, Seq<u8>, Seq<u8>, Seq<u8>, Seq<u8>, Seq<u8>, Seq<u8>),
    rest: Seq<u8>,
)
    requires
        jst_wire_value(
            match m.start_time {
                Some(v) => v,
                None => unset_start,
            },
        ),
        ({
            let t7 = seq![m.free_ca_flag];
            let t6 = parts.6 + t7;
            let t5 = parts.5 + t6;
            let t4 = parts.4 + t5;
            let t3 = parts.3 + t4;
            let t2 = parts.2 + t3;
            let t1 = parts.1 + t2;
            &&& p_optional::<ShortEventInfo>(parts.0 + t1) == Some((m.short_info, t1))
            &&& p_optional::<ExtendedEventInfo>(parts.1 + t2) == Some((m.ext_info, t2))
            &&& p_optional::<ContentInfo>(parts.2 + t3) == Some((m.content_info, t3))
            &&& p_optional::<ComponentInfo>(parts.3 + t4) == Some((m.component_info, t4))
            &&& p_optional::<AudioComponentInfo>(parts.4 + t5) == Some((m.audio_info, t5))
            &&& p_optional::<EventGroupInfo>(parts.5 + t6) == Some((m.event_group_info, t6))
            &&& p_optional::<EventGroupInfo>(parts.6 + t7) == Some((m.event_relay_info, t7))
        }),
        event_info_layout(m, unset_start, unset_duration, parts).len() + 4 <= i32::MAX,
    ensures
        <EventInfo as WireRead>::parse(s_frame(event_info_layout(m, unset_start, unset_duration, parts)) + rest)
            == Some((m, rest)),
{
    reveal(p_event_info_body);
    let layout = event_info_layout(m, unset_start, unset_duration, parts);
    let st = match m.start_time {
        Some(v) => v,
        None => unset_start,
    };
    let du = match m.duration_sec {
        Some(d) => d,
        None => unset_duration,
    };
    let sf: u8 = if m.start_time is Some { 1u8 } else { 0u8 };
    let df: u8 = if m.duration_sec is Some { 1u8 } else { 0u8 };
    let t7 = seq![m.free_ca_flag];
    let t6 = parts.6 + t7;
    let t5 = parts.5 + t6;
    let t4 = parts.4 + t5;
    let t3 = parts.3 + t4;
    let t2 = parts.2 + t3;
    let t1 = parts.1 + t2;
    let t0 = parts.0 + t1;
    let r7 = lei32(du) + t0;
    let r6 = seq![df] + r7;
    let r5 = s_system_time(st) + r6;
    let r4 = seq![sf] + r5;
    let r3 = le16(m.eid) + r4;
    let r2 = le16(m.sid) + r3;
    let r1 = le16(m.tsid) + r2;
    let r0 = le16(m.onid) + r1;
    lemma_event_info_layout_split(m, unset_start, unset_duration, parts);
    assert(layout == r0);
    <u16 as WireRoundtrip>::lemma_roundtrip(m.onid, r1);
    <u16 as WireRoundtrip>::lemma_roundtrip(m.tsid, r2);
    <u16 as WireRoundtrip>::lemma_roundtrip(m.sid, r3);
    <u16 as WireRoundtrip>::lemma_roundtrip(m.eid, r4);
    lemma_u8_roundtrip(sf, r5);
    lemma_system_time_roundtrip(st, r6);
    lemma_u8_roundtrip(df, r7);
    <i32 as WireRoundtrip>::lemma_roundtrip(du, t0);
    lemma_u8_roundtrip(m.free_ca_flag, Seq::<u8>::empty());
    assert(t7 + Seq::<u8>::empty() =~= t7);
    lemma_frame_roundtrip(layout, rest);
}

/// The struct body EDCB uses for a folder entry of the recording settings: the folder, the
/// write plug-in, the rec-name plug-in, then an unused string.
pub open spec fn rec_file_set_info_layout(m: RecFileSetInfoModel) -> Seq<u8> {
    s_string(m.rec_folder) + s_string(m.write_plug_in) + s_string(m.rec_name_plug_in) + s_string(
        Seq::<char>::empty(),
    )
}

/// A folder entry is written in EDCB's layout, size-prefixed.
pub proof fn law_rec_file_set_info_layout(m: RecFileSetInfoModel)
    ensures
        <RecFileSetInfo as WireWrite>::wire(m) == s_frame(rec_file_set_info_layout(m)),
{
    reveal(s_rec_file_set_info_body);
    assert(s_rec_file_set_info_body(m) =~= rec_file_set_info_layout(m));
}

/// The struct body EDCB uses for recording settings: rec mode, priority, follow flag, service
/// mode, exact-start flag, batch file path, folders, suspend mode, reboot flag, margin flag,
/// start margin, end margin, continue flag, partial-reception flag, tuner id, partial-reception
/// folders.
pub open spec fn rec_setting_data_layout(m: RecSettingDataModel) -> Seq<u8> {
    seq![m.rec_mode] + seq![m.priority] + seq![if m.tuijyuu_flag { 1u8 } else { 0u8 }] + le32(m.service_mode)
        + seq![if m.pittari_flag { 1u8 } else { 0u8 }] + s_string(m.bat_file_path) + vector_wire::<
        RecFileSetInfo,
    >(m.rec_folder_list) + seq![m.suspend_mode] + seq![if m.reboot_flag { 1u8 } else { 0u8 }] + seq![
        if m.start_margin is Some && m.end_margin is Some { 1u8 } else { 0u8 },
    ] + lei32(
        match m.start_margin {
            Some(v) => v,
            None => 0i32,
        },
    ) + lei32(
        match m.end_margin {
            Some(v) => v,
            None => 0i32,
        },
    ) + seq![if m.continue_rec_flag { 1u8 } else { 0u8 }] + seq![m.partial_rec_flag] + le32(m.tuner_id)
        + vector_wire::<RecFileSetInfo>(m.partial_rec_folder)
}

/// Recording settings are written in EDCB's layout, size-prefixed.
pub proof fn law_rec_setting_data_layout(m: RecSettingDataModel)
    ensures
        <RecSettingData as WireWrite>::wire(m) == s_frame(rec_setting_data_layout(m)),
{
    reveal(s_rec_setting_data_body);
    assert(s_rec_setting_data_body(m) =~= rec_setting_data_layout(m));
}

/// The struct body EDCB uses for a program's short description: its name, then its text.
pub open spec fn short_event_info_layout(m: ShortEventInfoModel) -> Seq<u8> {
    s_string(m.event_name) + s_string(m.text_char)
}

/// A short description is written in EDCB's layout, size-prefixed.
pub proof fn law_short_event_info_layout(m: ShortEventInfoModel)
    ensures
        <ShortEventInfo as WireWrite>::wire(m) == s_frame(short_event_info_layout(m)),
{
    reveal(s_short_event_info_body);
    assert(s_short_event_info_body(m) =~= short_event_info_layout(m));
}

/// The struct body EDCB uses for a genre: the content nibbles, then the user nibbles, each as
/// two bytes high byte first.
pub open spec fn content_data_layout(m: ContentDataModel) -> Seq<u8> {
    seq![(m.content_nibble / 256) as u8, (m.content_nibble % 256) as u8] + seq![
        (m.user_nibble / 256) as u8,
        (m.user_nibble % 256) as u8,
    ]
}

proof fn lemma_swap16_bytes(v: u16)
    ensures
        le16(swap16(v)) == seq![(v / 256) as u8, (v % 256) as u8],
{
    let w = swap16(v);
    assert(w == (v % 256) * 256 + v / 256);
    assert(w % 256 == v / 256) by (nonlinear_arith)
        requires
            w == (v % 256) * 256 + v / 256,
            v < 65536,
    ;
    assert(w / 256 == v % 256) by (nonlinear_arith)
        requires
            w == (v % 256) * 256 + v / 256,
            v < 65536,
    ;
    assert(le16(w) =~= seq![(v / 256) as u8, (v % 256) as u8]);
}

/// A genre is written in EDCB's layout, size-prefixed.
pub proof fn law_content_data_layout(m: ContentDataModel)
    ensures
        <ContentData as WireWrite>::wire(m) == s_frame(content_data_layout(m)),
{
    reveal(s_content_data_body);
    lemma_swap16_bytes(m.content_nibble);
    lemma_swap16_bytes(m.user_nibble);
    assert(s_content_data_body(m) =~= content_data_layout(m));
}

/// The struct body EDCB uses for a weekly time range: start weekday, start hour, start
/// minute, end weekday, end hour, end minute.
pub open spec fn search_date_info_layout(m: SearchDateInfoModel) -> Seq<u8> {
    seq![m.start_day_of_week] + le16(m.start_hour) + le16(m.start_min) + seq![m.end_day_of_week] + le16(
        m.end_hour,
    ) + le16(m.end_min)
}

/// A weekly time range is written in EDCB's layout, size-prefixed.
pub proof fn law_search_date_info_layout(m: SearchDateInfoModel)
    ensures
        <SearchDateInfo as WireWrite>::wire(m) == s_frame(search_date_info_layout(m)),
{
    reveal(s_search_date_info_body);
    assert(s_search_date_info_body(m) =~= search_date_info_layout(m));
}

/// The struct body EDCB uses for search conditions: the keyword text, the excluded keyword,
/// the regex flag, the title-only flag, the genres, the time ranges, the services, the video
/// types, the audio types, the fuzzy flag, the genre-negation flag, the time-negation flag and
/// the free/pay flag.
pub open spec fn search_key_info_layout(m: SearchKeyInfoModel) -> Seq<u8> {
    s_string(encode_and_key(m)) + s_string(m.not_key) + lei32(if m.reg_exp_flag { 1i32 } else { 0i32 })
        + lei32(if m.title_only_flag { 1i32 } else { 0i32 }) + vector_wire::<ContentData>(m.content_list)
        + vector_wire::<SearchDateInfo>(m.date_list) + vector_wire::<i64>(m.service_list)
        + vector_wire::<u16>(m.video_list) + vector_wire::<u16>(m.audio_list) + seq![
        if m.aimai_flag { 1u8 } else { 0u8 },
    ] + seq![if m.not_contet_flag { 1u8 } else { 0u8 }] + seq![if m.not_date_flag { 1u8 } else { 0u8 }]
        + seq![m.free_ca_flag]
}

/// Search conditions are written in EDCB's layout, size-prefixed.
pub proof fn law_search_key_info_layout(m: SearchKeyInfoModel)
    ensures
        <SearchKeyInfo as WireWrite>::wire(m) == s_frame(search_key_info_layout(m)),
{
    reveal(s_search_key_info_body);
    assert(s_search_key_info_body(m) =~= search_key_info_layout(m));
}

// ---- ChSet5.txt rows ----

/// A ChSet5.txt row is read from its tab-separated fields in order: service name, network
/// name, onid, tsid, sid, service type, then the partial-reception, EPG-capture and search
/// flags (non-zero meaning set).
pub proof fn law_ch_set5_fields(line: Seq<char>)
    requires
        ch_set5_row(line) is Some,
    ensures
        ({
            let f = split_on(line, '\t');
            let r = ch_set5_row(line)->Some_0;
            &&& f.len() >= 9
            &&& r.service_name == f[0]
            &&& r.network_name == f[1]
            &&& parse_unsigned_spec(f[2], 65535) == Some(r.onid as nat)
            &&& parse_unsigned_spec(f[3], 65535) == Some(r.tsid as nat)
            &&& parse_unsigned_spec(f[4], 65535) == Some(r.sid as nat)
            &&& parse_unsigned_spec(f[5], 255) == Some(r.service_type as nat)
            &&& parse_i32_spec(f[6]) matches Some(p) && r.partial_flag == (p != 0)
            &&& parse_i32_spec(f[7]) matches Some(e) && r.epg_cap_flag == (e != 0)
            &&& parse_i32_spec(f[8]) matches Some(s) && r.search_flag == (s != 0)
        }),
{
}

/// Every row that parsing ChSet5.txt gives is read from one of its lines, in the lines' order:
/// the rows are the lines that are rows.
pub proof fn law_ch_set5_rows_come_from_lines(lines: Seq<Seq<char>>)
    ensures
        forall|i: int|
            #![trigger ch_set5_rows(lines)[i]]
            0 <= i < ch_set5_rows(lines).len() ==> exists|j: int|
                0 <= j < lines.len() && ch_set5_row(#[trigger] lines[j]) == Some(ch_set5_rows(lines)[i]),
        ch_set5_rows(lines).len() <= lines.len(),
    decreases lines.len(),
{
    if lines.len() > 0 {
        let init = lines.drop_last();
        law_ch_set5_rows_come_from_lines(init);
        let before = ch_set5_rows(init);
        assert forall|i: int|
            #![trigger ch_set5_rows(lines)[i]]
            0 <= i < ch_set5_rows(lines).len() implies exists|j: int|
            0 <= j < lines.len() && ch_set5_row(#[trigger] lines[j]) == Some(ch_set5_rows(lines)[i]) by {
            if i < before.len() {
                let j = choose|j: int| 0 <= j < init.len() && ch_set5_row(#[trigger] init[j]) == Some(before[i]);
                assert(lines[j] == init[j]);
            } else {
                assert(lines[lines.len() - 1] == lines.last());
            }
        }
    }
}

// ---- plain output lines ----

/// Whether `s` holds no tab.
pub open spec fn tab_free(s: Seq<char>) -> bool {
    forall|j: int| 0 <= j < s.len() ==> s[j] != '\t'
}

proof fn lemma_find_char_concat(a: Seq<char>, t: Seq<char>, c: char)
    ensures
        find_char(a + t, c) == match find_char(a, c) {
            Some(i) => Some(i),
            None => match find_char(t, c) {
                Some(k) => Some(k + a.len()),
                None => None,
            },
        },
    decreases a.len(),
{
    if a.len() == 0 {
        assert(a + t =~= t);
    } else {
        assert((a + t).drop_first() =~= a.drop_first() + t);
        assert((a + t)[0] == a[0]);
        lemma_find_char_concat(a.drop_first(), t, c);
    }
}

/// Splitting at a separator splits the text on each side of it.
proof fn lemma_split_concat(a: Seq<char>, b: Seq<char>, c: char)
    ensures
        split_on(a + seq![c] + b, c) == split_on(a, c) + split_on(b, c),
    decreases a.len(),
{
    let s = a + seq![c] + b;
    let cb = seq![c] + b;
    assert(s =~= a + cb);
    assert(cb[0] == c);
    lemma_find_char_concat(a, cb, c);
    lemma_find_char(a, c);
    match find_char(a, c) {
        None => {
            assert(find_char(s, c) == Some(a.len() as int));
            assert(s.take(a.len() as int) =~= a);
            assert(s.skip(a.len() + 1int) =~= b);
        },
        Some(i) => {
            let a2 = a.skip(i + 1);
            assert(s.take(i) =~= a.take(i));
            assert(s.skip(i + 1) =~= a2 + seq![c] + b);
            lemma_split_concat(a2, b, c);
            assert(seq![a.take(i)] + (split_on(a2, c) + split_on(b, c)) =~= (seq![a.take(i)] + split_on(a2, c))
                + split_on(b, c));
        },
    }
}

/// Text with no separator is one piece.
proof fn lemma_split_whole(x: Seq<char>, c: char)
    requires
        forall|j: int| 0 <= j < x.len() ==> x[j] != c,
    ensures
        split_on(x, c) == seq![x],
{
    lemma_find_char(x, c);
}

proof fn lemma_split_nonempty(x: Seq<char>, c: char)
    ensures
        split_on(x, c).len() >= 1,
{
}

proof fn lemma_decimal_tab_free(n: nat)
    ensures
        tab_free(decimal(n)),
        forall|j: int| 0 <= j < decimal(n).len() ==> decimal(n)[j] != ':',
    decreases n,
{
    let d = n % 10;
    assert(digit_char(d) as u32 == 48 + d);
    if n >= 10 {
        lemma_decimal_tab_free(n / 10);
        assert forall|j: int| 0 <= j < decimal(n).len() implies decimal(n)[j] != '\t' && decimal(n)[j] != ':' by {
            if j < decimal(n / 10).len() {
                assert(decimal(n)[j] == decimal(n / 10)[j]);
            }
        }
    } else {
        assert(digit_char(n) as u32 == 48 + n);
    }
}

proof fn lemma_signed_decimal_tab_free(v: int)
    ensures
        tab_free(signed_decimal(v)),
{
    if v < 0 {
        lemma_decimal_tab_free((-v) as nat);
        assert forall|j: int| 0 <= j < signed_decimal(v).len() implies signed_decimal(v)[j] != '\t' by {
            if j > 0 {
                assert(signed_decimal(v)[j] == decimal((-v) as nat)[j - 1]);
            }
        }
    } else {
        lemma_decimal_tab_free(v as nat);
    }
}

proof fn lemma_concat_tab_free(a: Seq<char>, b: Seq<char>)
    requires
        tab_free(a),
        tab_free(b),
    ensures
        tab_free(a + b),
{
    assert forall|j: int| 0 <= j < (a + b).len() implies (a + b)[j] != '\t' by {
        if j < a.len() {
            assert((a + b)[j] == a[j]);
        } else {
            assert((a + b)[j] == b[j - a.len()]);
        }
    }
}

proof fn lemma_key_text_tab_free(onid: u16, tsid: u16, sid: u16, eid: u16)
    ensures
        tab_free(key_text(onid, tsid, sid, eid)),
{
    lemma_decimal_tab_free(onid as nat);
    lemma_decimal_tab_free(tsid as nat);
    lemma_decimal_tab_free(sid as nat);
    lemma_decimal_tab_free(eid as nat);
    let colon = seq![':'];
    assert(tab_free(colon));
    lemma_concat_tab_free(decimal(onid as nat), colon);
    lemma_concat_tab_free(decimal(onid as nat) + colon, decimal(tsid as nat));
    lemma_concat_tab_free(decimal(onid as nat) + colon + decimal(tsid as nat), colon);
    lemma_concat_tab_free(decimal(onid as nat) + colon + decimal(tsid as nat) + colon, decimal(sid as nat));
    lemma_concat_tab_free(decimal(onid as nat) + colon + decimal(tsid as nat) + colon + decimal(sid as nat), colon);
    lemma_concat_tab_free(
        decimal(onid as nat) + colon + decimal(tsid as nat) + colon + decimal(sid as nat) + colon,
        decimal(eid as nat),
    );
}

proof fn lemma_newline_tab_free(x: Seq<char>)
    requires
        tab_free(x),
    ensures
        tab_free(x + newline()),
{
    assert(tab_free(newline()));
    lemma_concat_tab_free(x, newline());
}

/// A service's plain line has five tab-separated fields: onid, tsid, sid and remote-control
/// key in decimal, then the service name and the line's end.
pub proof fn law_service_line_fields(s: ServiceInfoModel)
    requires
        tab_free(s.service_name),
    ensures
        split_on(service_line(s), '\t') == seq![
            decimal(s.onid as nat),
            decimal(s.tsid as nat),
            decimal(s.sid as nat),
            decimal(s.remote_control_key_id as nat),
            s.service_name + newline(),
        ],
{
    let a = decimal(s.onid as nat);
    let b = decimal(s.tsid as nat);
    let c = decimal(s.sid as nat);
    let d = decimal(s.remote_control_key_id as nat);
    let e = s.service_name + newline();
    lemma_decimal_tab_free(s.onid as nat);
    lemma_decimal_tab_free(s.tsid as nat);
    lemma_decimal_tab_free(s.sid as nat);
    lemma_decimal_tab_free(s.remote_control_key_id as nat);
    lemma_newline_tab_free(s.service_name);
    let t = seq!['\t'];
    assert(service_line(s) =~= a + t + (b + t + (c + t + (d + t + e))));
    lemma_split_concat(a, b + t + (c + t + (d + t + e)), '\t');
    lemma_split_concat(b, c + t + (d + t + e), '\t');
    lemma_split_concat(c, d + t + e, '\t');
    lemma_split_concat(d, e, '\t');
    lemma_split_whole(a, '\t');
    lemma_split_whole(b, '\t');
    lemma_split_whole(c, '\t');
    lemma_split_whole(d, '\t');
    lemma_split_whole(e, '\t');
    assert(seq![a] + (seq![b] + (seq![c] + (seq![d] + seq![e]))) =~= seq![a, b, c, d, e]);
}

/// Splits `head + tab + x + tab + y` where `x` and `y` hold no tab: the pieces of `head`, then
/// `x`, then `y`.
proof fn lemma_split_last_two(head: Seq<char>, x: Seq<char>, y: Seq<char>)
    requires
        tab_free(x),
        tab_free(y),
    ensures
        split_on(head + seq!['\t'] + x + seq!['\t'] + y, '\t') == split_on(head, '\t') + seq![x, y],
{
    let t = seq!['\t'];
    assert(head + t + x + t + y =~= head + t + (x + t + y));
    lemma_split_concat(head, x + t + y, '\t');
    lemma_split_concat(x, y, '\t');
    lemma_split_whole(x, '\t');
    lemma_split_whole(y, '\t');
    assert(seq![x] + seq![y] =~= seq![x, y]);
}

/// Splits `first + tab + rest` where `first` holds no tab.
proof fn lemma_split_first(first: Seq<char>, rest: Seq<char>)
    requires
        tab_free(first),
    ensures
        split_on(first + seq!['\t'] + rest, '\t') == seq![first] + split_on(rest, '\t'),
{
    lemma_split_concat(first, rest, '\t');
    lemma_split_whole(first, '\t');
}

/// A reservation's plain line in a list starts with its id, and its last two tab-separated
/// fields are the station name and the title (with the line's end), where neither holds a
/// tab.
pub proof fn law_reserve_line_fields(r: ReserveDataModel)
    requires
        tab_free(r.station_name),
        tab_free(r.title),
    ensures
        ({
            let f = split_on(reserve_line(r), '\t');
            &&& f.len() >= 4
            &&& f[0] == signed_decimal(r.reserve_id as int)
            &&& f[f.len() - 2] == r.station_name
            &&& f[f.len() - 1] == r.title + newline()
        }),
{
    let t = seq!['\t'];
    let id = signed_decimal(r.reserve_id as int);
    let head = id + t + rfc3339_text(r.start_time);
    lemma_signed_decimal_tab_free(r.reserve_id as int);
    lemma_newline_tab_free(r.title);
    assert(reserve_line(r) =~= head + t + r.station_name + t + (r.title + newline()));
    lemma_split_last_two(head, r.station_name, r.title + newline());
    lemma_split_first(id, rfc3339_text(r.start_time));
    lemma_split_nonempty(rfc3339_text(r.start_time), '\t');
}

/// A reservation's own plain line starts with its program's key, and its last two
/// tab-separated fields are the station name and the title (with the line's end), where
/// neither holds a tab.
pub proof fn law_reservation_line_fields(r: ReserveDataModel)
    requires
        tab_free(r.station_name),
        tab_free(r.title),
    ensures
        ({
            let f = split_on(reservation_line(r), '\t');
            &&& f.len() >= 4
            &&& f[0] == key_text(r.onid, r.tsid, r.sid, r.eid)
            &&& f[f.len() - 2] == r.station_name
            &&& f[f.len() - 1] == r.title + newline()
        }),
{
    let t = seq!['\t'];
    let key = key_text(r.onid, r.tsid, r.sid, r.eid);
    let head = key + t + rfc3339_text(r.start_time);
    lemma_key_text_tab_free(r.onid, r.tsid, r.sid, r.eid);
    lemma_newline_tab_free(r.title);
    assert(reservation_line(r) =~= head + t + r.station_name + t + (r.title + newline()));
    lemma_split_last_two(head, r.station_name, r.title + newline());
    lemma_split_first(key, rfc3339_text(r.start_time));
    lemma_split_nonempty(rfc3339_text(r.start_time), '\t');
}

/// A recorded item's plain line in a list starts with its id, and its last two tab-separated
/// fields are the service name and the title (with the line's end), where neither holds a
/// tab.
pub proof fn law_recorded_line_fields(r: RecFileInfoModel)
    requires
        tab_free(r.service_name),
        tab_free(r.title),
    ensures
        ({
            let f = split_on(recorded_line(r), '\t');
            &&& f.len() >= 4
            &&& f[0] == signed_decimal(r.id as int)
            &&& f[f.len() - 2] == r.service_name
            &&& f[f.len() - 1] == r.title + newline()
        }),
{
    let t = seq!['\t'];
    let id = signed_decimal(r.id as int);
    let head = id + t + rfc3339_text(r.start_time);
    lemma_signed_decimal_tab_free(r.id as int);
    lemma_newline_tab_free(r.title);
    assert(recorded_line(r) =~= head + t + r.service_name + t + (r.title + newline()));
    lemma_split_last_two(head, r.service_name, r.title + newline());
    lemma_split_first(id, rfc3339_text(r.start_time));
    lemma_split_nonempty(rfc3339_text(r.start_time), '\t');
}

/// A recorded item's own plain line starts with its id, and its last three tab-separated
/// fields are the service name, the title and the file path (with the line's end), where none
/// holds a tab.
pub proof fn law_recorded_info_line_fields(r: RecFileInfoModel)
    requires
        tab_free(r.service_name),
        tab_free(r.title),
        tab_free(r.rec_file_path),
    ensures
        ({
            let f = split_on(recorded_info_line(r), '\t');
            &&& f.len() >= 5
            &&& f[0] == signed_decimal(r.id as int)
            &&& f[f.len() - 3] == r.service_name
            &&& f[f.len() - 2] == r.title
            &&& f[f.len() - 1] == r.rec_file_path + newline()
        }),
{
    let t = seq!['\t'];
    let id = signed_decimal(r.id as int);
    let head0 = id + t + rfc3339_text(r.start_time);
    let head = head0 + t + r.service_name;
    lemma_signed_decimal_tab_free(r.id as int);
    lemma_newline_tab_free(r.rec_file_path);
    assert(recorded_info_line(r) =~= head + t + r.title + t + (r.rec_file_path + newline()));
    lemma_split_last_two(head, r.title, r.rec_file_path + newline());
    assert(head =~= head0 + t + r.service_name);
    lemma_split_concat(head0, r.service_name, '\t');
    lemma_split_whole(r.service_name, '\t');
    lemma_split_first(id, rfc3339_text(r.start_time));
    lemma_split_nonempty(rfc3339_text(r.start_time), '\t');
}

/// A program's plain line starts with its key, and its last tab-separated field is its title
/// (empty where it has none), with the line's end, where the title holds no tab.
pub proof fn law_program_line_fields(e: EventInfoModel)
    requires
        e.short_info matches Some(si) ==> tab_free(si.event_name),
    ensures
        ({
            let f = split_on(program_line(e), '\t');
            &&& f.len() >= 3
            &&& f[0] == key_text(e.onid, e.tsid, e.sid, e.eid)
            &&& f[f.len() - 1] == match e.short_info {
                Some(si) => si.event_name,
                None => Seq::<char>::empty(),
            } + newline()
        }),
{
    let t = seq!['\t'];
    let key = key_text(e.onid, e.tsid, e.sid, e.eid);
    let start = match e.start_time {
        Some(v) => rfc3339_text(v),
        None => seq!['-'],
    };
    let title = match e.short_info {
        Some(si) => si.event_name,
        None => Seq::<char>::empty(),
    };
    lemma_key_text_tab_free(e.onid, e.tsid, e.sid, e.eid);
    lemma_newline_tab_free(title);
    assert(program_line(e) =~= key + t + start + t + (title + newline()));
    lemma_split_concat(key + t + start, title + newline(), '\t');
    lemma_split_whole(title + newline(), '\t');
    lemma_split_first(key, start);
    lemma_split_nonempty(start, '\t');
}

/// A tuner's plain line has three tab-separated fields: its id in decimal, its name, and the
/// number of its reservations in decimal with the line's end, where the name holds no tab.
pub proof fn law_tuner_reserve_line_fields(tr: TunerReserveInfoModel)
    requires
        tab_free(tr.tuner_name),
    ensures
        split_on(tuner_reserve_line(tr), '\t') == seq![
            decimal(tr.tuner_id as nat),
            tr.tuner_name,
            decimal(tr.reserve_list.len()) + newline(),
        ],
{
    let t = seq!['\t'];
    let id = decimal(tr.tuner_id as nat);
    let count = decimal(tr.reserve_list.len()) + newline();
    lemma_decimal_tab_free(tr.tuner_id as nat);
    lemma_decimal_tab_free(tr.reserve_list.len());
    lemma_newline_tab_free(decimal(tr.reserve_list.len()));
    assert(tuner_reserve_line(tr) =~= id + t + tr.tuner_name + t + count);
    lemma_split_last_two(id, tr.tuner_name, count);
    lemma_split_whole(id, '\t');
    assert(seq![id] + seq![tr.tuner_name, count] =~= seq![id, tr.tuner_name, count]);
}

/// A notification's plain line starts with its id in decimal and ends with its first and
/// second parameters and its count, each in decimal, as its last three tab-separated fields.
pub proof fn law_notify_line_fields(n: NotifySrvInfoModel)
    ensures
        ({
            let f = split_on(notify_line(n), '\t');
            &&& f.len() >= 5
            &&& f[0] == decimal(n.notify_id as nat)
            &&& f[f.len() - 3] == decimal(n.param1 as nat)
            &&& f[f.len() - 2] == decimal(n.param2 as nat)
            &&& f[f.len() - 1] == decimal(n.count as nat) + newline()
        }),
{
    let t = seq!['\t'];
    let id = decimal(n.notify_id as nat);
    let p1 = decimal(n.param1 as nat);
    let p2 = decimal(n.param2 as nat);
    let cnt = decimal(n.count as nat) + newline();
    lemma_decimal_tab_free(n.notify_id as nat);
    lemma_decimal_tab_free(n.param1 as nat);
    lemma_decimal_tab_free(n.param2 as nat);
    lemma_decimal_tab_free(n.count as nat);
    lemma_newline_tab_free(decimal(n.count as nat));
    let head0 = id + t + rfc3339_text(n.time);
    let head = head0 + t + p1;
    assert(notify_line(n) =~= head + t + p2 + t + cnt);
    lemma_split_last_two(head, p2, cnt);
    lemma_split_concat(head0, p1, '\t');
    lemma_split_whole(p1, '\t');
    lemma_split_first(id, rfc3339_text(n.time));
    lemma_split_nonempty(rfc3339_text(n.time), '\t');
}

// ---- program and service keys ----

/// A program key is read from its four `:`-separated fields in order: onid, tsid, sid, eid.
pub proof fn law_event_key_fields(cs: Seq<char>)
    requires
        event_key_of(cs) is Some,
    ensures
        ({
            let p = split_on(cs, ':');
            let k = event_key_of(cs)->Some_0;
            &&& p.len() == 4
            &&& parse_unsigned_spec(p[0], 65535) == Some(k.service.onid as nat)
            &&& parse_unsigned_spec(p[1], 65535) == Some(k.service.tsid as nat)
            &&& parse_unsigned_spec(p[2], 65535) == Some(k.service.sid as nat)
            &&& parse_unsigned_spec(p[3], 65535) == Some(k.eid as nat)
        }),
{
}

/// A service key is read from its three `:`-separated fields in order: onid, tsid, sid.
pub proof fn law_service_key_fields(cs: Seq<char>)
    requires
        service_key_of(cs) is Some,
    ensures
        ({
            let p = split_on(cs, ':');
            let k = service_key_of(cs)->Some_0;
            &&& p.len() == 3
            &&& parse_unsigned_spec(p[0], 65535) == Some(k.onid as nat)
            &&& parse_unsigned_spec(p[1], 65535) == Some(k.tsid as nat)
            &&& parse_unsigned_spec(p[2], 65535) == Some(k.sid as nat)
        }),
{
}

/// A program's key is printed as onid, tsid, sid and eid in decimal, in that order, separated
/// by `:`.
pub proof fn law_key_text_fields(onid: u16, tsid: u16, sid: u16, eid: u16)
    ensures
        split_on(key_text(onid, tsid, sid, eid), ':') == seq![
            decimal(onid as nat),
            decimal(tsid as nat),
            decimal(sid as nat),
            decimal(eid as nat),
        ],
{
    let a = decimal(onid as nat);
    let b = decimal(tsid as nat);
    let c = decimal(sid as nat);
    let d = decimal(eid as nat);
    lemma_decimal_tab_free(onid as nat);
    lemma_decimal_tab_free(tsid as nat);
    lemma_decimal_tab_free(sid as nat);
    lemma_decimal_tab_free(eid as nat);
    let k = seq![':'];
    assert(key_text(onid, tsid, sid, eid) =~= a + k + (b + k + (c + k + d)));
    lemma_split_concat(a, b + k + (c + k + d), ':');
    lemma_split_concat(b, c + k + d, ':');
    lemma_split_concat(c, d, ':');
    lemma_split_whole(a, ':');
    lemma_split_whole(b, ':');
    lemma_split_whole(c, ':');
    lemma_split_whole(d, ':');
    assert(seq![a] + (seq![b] + (seq![c] + seq![d])) =~= seq![a, b, c, d]);
}

/// The service id that program lookup sends holds the onid in its bits from 32 up, the tsid
/// in bits 16 to 31 and the sid in bits 0 to 15.
pub proof fn law_search_id_fields(k: ServiceKey)
    ensures
        search_id(k) / 4294967296 == k.onid,
        (search_id(k) / 65536) % 65536 == k.tsid,
        search_id(k) % 65536 == k.sid,
{
    let v = search_id(k);
    let o = k.onid as int;
    let t = k.tsid as int;
    let s = k.sid as int;
    assert(v == o * 4294967296 + t * 65536 + s);
    assert(v / 65536 == o * 65536 + t && v % 65536 == s) by (nonlinear_arith)
        requires
            v == o * 4294967296 + t * 65536 + s,
            0 <= t < 65536,
            0 <= s < 65536,
    ;
    assert((o * 65536 + t) % 65536 == t && (o * 65536 + t) / 65536 == o) by (nonlinear_arith)
        requires
            0 <= t < 65536,
            0 <= o,
    ;
    assert(v / 4294967296 == o) by (nonlinear_arith)
        requires
            v == o * 4294967296 + t * 65536 + s,
            0 <= t < 65536,
            0 <= s < 65536,
    ;
}

// ---- logo names ----

/// The value of one upper-case hexadecimal digit.
pub open spec fn hex_digit_value(c: char) -> int {
    if '0' <= c && c <= '9' {
        c as int - 48
    } else {
        c as int - 55
    }
}

/// The value of a string of upper-case hexadecimal digits.
pub open spec fn hex_value(s: Seq<char>) -> int
    decreases s.len(),
{
    if s.len() == 0 {
        0
    } else {
        hex_value(s.drop_last()) * 16 + hex_digit_value(s.last())
    }
}

/// Sixteen to the power `n`.
pub open spec fn pow16(n: nat) -> nat
    decreases n,
{
    if n == 0 {
        1
    } else {
        16 * pow16((n - 1) as nat)
    }
}

proof fn lemma_hex_char(d: nat)
    requires
        d < 16,
    ensures
        hex_digit_value(hex_char(d)) == d,
        hex_char(d) != '_',
{
    if d < 10 {
        assert(hex_char(d) as u32 == 48 + d);
    } else {
        assert(hex_char(d) as u32 == 65 + d - 10);
    }
}

proof fn lemma_hex_text(v: nat, w: nat)
    ensures
        hex_value(hex_text(v, w)) == v,
        forall|j: int| 0 <= j < hex_text(v, w).len() ==> hex_text(v, w)[j] != '_',
        1 <= w && v < pow16(w) ==> hex_text(v, w).len() == w,
    decreases v + w,
{
    if v < 16 && w <= 1 {
        lemma_hex_char(v);
        let s = hex_text(v, w);
        assert(s.drop_last() =~= Seq::<char>::empty());
        assert(hex_value(Seq::<char>::empty()) == 0);
        assert(hex_value(s) == hex_value(s.drop_last()) * 16 + hex_digit_value(s.last()));
    } else {
        let w2: nat = if w > 0 { (w - 1) as nat } else { 0 };
        let p = hex_text(v / 16, w2);
        let c = hex_char(v % 16);
        lemma_hex_text(v / 16, w2);
        lemma_hex_char(v % 16);
        let s = hex_text(v, w);
        assert(s == p + seq![c]);
        assert(s.drop_last() =~= p);
        assert(s.last() == c);
        assert(hex_value(s) == hex_value(p) * 16 + hex_digit_value(c));
        assert((v / 16) * 16 + v % 16 == v);
        assert forall|j: int| 0 <= j < s.len() implies s[j] != '_' by {
            if j < p.len() {
                assert(s[j] == p[j]);
            }
        }
        if 1 <= w && v < pow16(w) {
            assert(w >= 2);
            assert(pow16(w) == 16 * pow16(w2));
            assert(v / 16 < pow16(w2));
        }
    }
}

/// A service's key in `LogoData.ini` is eight hexadecimal digits: the first four give the onid
/// and the last four the sid.
pub proof fn law_logo_ini_key_fields(onid: u16, sid: u16)
    ensures
        logo_ini_key(onid, sid).len() == 8,
        hex_value(logo_ini_key(onid, sid).take(4)) == onid,
        hex_value(logo_ini_key(onid, sid).skip(4)) == sid,
{
    assert(pow16(4) == 65536) by {
        reveal_with_fuel(pow16, 5);
    }
    lemma_hex_text(onid as nat, 4);
    lemma_hex_text(sid as nat, 4);
    let k = logo_ini_key(onid, sid);
    assert(k.take(4) =~= hex_text(onid as nat, 4));
    assert(k.skip(4) =~= hex_text(sid as nat, 4));
}

/// A logo file name starts with the onid in hexadecimal, `_`, the logo id in hexadecimal,
/// `_`: split at `_`, the prefix gives the onid, the logo id and nothing more.
pub proof fn law_logo_file_prefix_fields(onid: u16, logo_id: u16)
    ensures
        ({
            let p = split_on(logo_file_prefix(onid, logo_id), '_');
            &&& p.len() == 3
            &&& hex_value(p[0]) == onid
            &&& hex_value(p[1]) == logo_id
            &&& p[2].len() == 0
        }),
{
    let a = hex_text(onid as nat, 4);
    let b = hex_text(logo_id as nat, 3);
    let e = Seq::<char>::empty();
    let u = seq!['_'];
    lemma_hex_text(onid as nat, 4);
    lemma_hex_text(logo_id as nat, 3);
    assert(logo_file_prefix(onid, logo_id) =~= a + u + (b + u + e));
    lemma_split_concat(a, b + u + e, '_');
    lemma_split_concat(b, e, '_');
    lemma_split_whole(a, '_');
    lemma_split_whole(b, '_');
    lemma_split_whole(e, '_');
    assert(seq![a] + (seq![b] + seq![e]) =~= seq![a, b, e]);
}

// ---- program search ----

/// What a search finds in a program, stated over its fields: an empty keyword finds every
/// program; otherwise the keyword must occur in the title, or, where the search is not
/// title-only, in the short or the extended description.
pub proof fn law_search_looks_at(e: EventInfoModel, q: ProgramSearchQueryModel)
    ensures
        q.keyword.len() == 0 ==> matches_query(e, q),
        (e.short_info matches Some(si) && contains_seq(si.event_name, q.keyword)) ==> matches_query(e, q),
        (!q.title_only && (e.short_info matches Some(si) && contains_seq(si.text_char, q.keyword)))
            ==> matches_query(e, q),
        (!q.title_only && (e.ext_info matches Some(x) && contains_seq(x.text_char, q.keyword)))
            ==> matches_query(e, q),
        matches_query(e, q) ==> {
            ||| q.keyword.len() == 0
            ||| (e.short_info matches Some(si) && contains_seq(si.event_name, q.keyword))
            ||| (!q.title_only && (e.short_info matches Some(si) && contains_seq(si.text_char, q.keyword)))
            ||| (!q.title_only && (e.ext_info matches Some(x) && contains_seq(x.text_char, q.keyword)))
        },
{
}

proof fn lemma_matching_events_keep(es: Seq<EventInfoModel>, q: ProgramSearchQueryModel, k: int)
    requires
        0 <= k < es.len(),
        matches_query(es[k], q),
    ensures
        matching_events(es, q).contains(es[k]),
    decreases es.len(),
{
    let init = es.drop_last();
    if k < es.len() - 1 {
        lemma_matching_events_keep(init, q, k);
        assert(init[k] == es[k]);
        let a = matching_events(init, q);
        let i = choose|i: int| 0 <= i < a.len() && a[i] == es[k];
        let b = if matches_query(es.last(), q) { seq![es.last()] } else { Seq::empty() };
        assert((a + b)[i] == es[k]);
    } else {
        let a = matching_events(init, q);
        assert((a + seq![es.last()])[a.len() as int] == es[k]);
    }
}

proof fn lemma_matching_programs_keep(ss: Seq<ServiceEventInfoModel>, q: ProgramSearchQueryModel, j: int, k: int)
    requires
        0 <= j < ss.len(),
        0 <= k < ss[j].event_list.len(),
        matches_query(ss[j].event_list[k], q),
    ensures
        matching_programs(ss, q).contains(ss[j].event_list[k]),
    decreases ss.len(),
{
    let init = ss.drop_last();
    let a = matching_programs(init, q);
    let b = matching_events(ss.last().event_list, q);
    let e = ss[j].event_list[k];
    if j < ss.len() - 1 {
        lemma_matching_programs_keep(init, q, j, k);
        assert(init[j] == ss[j]);
        let i = choose|i: int| 0 <= i < a.len() && a[i] == e;
        assert((a + b)[i] == e);
    } else {
        lemma_matching_events_keep(ss.last().event_list, q, k);
        let i = choose|i: int| 0 <= i < b.len() && b[i] == e;
        assert((a + b)[a.len() + i] == e);
    }
}

/// A search returns every program that it matches; in particular, a search that is not
/// title-only returns a program whose extended description holds the keyword.
pub proof fn law_search_finds_extended_text(
    ss: Seq<ServiceEventInfoModel>,
    q: ProgramSearchQueryModel,
    j: int,
    k: int,
)
    requires
        0 <= j < ss.len(),
        0 <= k < ss[j].event_list.len(),
    ensures
        matches_query(ss[j].event_list[k], q) ==> matching_programs(ss, q).contains(ss[j].event_list[k]),
        (!q.title_only && (ss[j].event_list[k].ext_info matches Some(x) && contains_seq(x.text_char, q.keyword)))
            ==> matching_programs(ss, q).contains(ss[j].event_list[k]),
{
    law_search_looks_at(ss[j].event_list[k], q);
    if matches_query(ss[j].event_list[k], q) {
        lemma_matching_programs_keep(ss, q, j, k);
    }
}

} // verus!

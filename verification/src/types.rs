use vstd::prelude::*;

use crate::datetime::DateTime;
use crate::search_key::{SearchKeyInfo, SearchKeyInfoModel};

verus! {
/// A broadcast service.
#[derive(Debug, Clone, PartialEq, Eq)]
pub struct ServiceInfo {
    pub onid: u16,
    pub tsid: u16,
    pub sid: u16,
    pub service_type: u8,
    pub partial_reception_flag: u8,
    pub service_provider_name: String,
    pub service_name: String,
    pub network_name: String,
    pub ts_name: String,
    pub remote_control_key_id: u8,
}

/// What a `ServiceInfo` holds, with strings as characters.
pub struct ServiceInfoModel {
    pub onid: u16,
    pub tsid: u16,
    pub sid: u16,
    pub service_type: u8,
    pub partial_reception_flag: u8,
    pub service_provider_name: Seq<char>,
    pub service_name: Seq<char>,
    pub network_name: Seq<char>,
    pub ts_name: Seq<char>,
    pub remote_control_key_id: u8,
}

impl DeepView for ServiceInfo {
    type V = ServiceInfoModel;

    open spec fn deep_view(&self) -> ServiceInfoModel {
        ServiceInfoModel {
            onid: self.onid,
            tsid: self.tsid,
            sid: self.sid,
            service_type: self.service_type,
            partial_reception_flag: self.partial_reception_flag,
            service_provider_name: self.service_provider_name@,
            service_name: self.service_name@,
            network_name: self.network_name@,
            ts_name: self.ts_name@,
            remote_control_key_id: self.remote_control_key_id,
        }
    }
}

/// A recording folder with its write and file name plug-ins.
#[derive(Debug, Clone, PartialEq, Eq)]
pub struct RecFileSetInfo {
    pub rec_folder: String,
    pub write_plug_in: String,
    pub rec_name_plug_in: String,
}

/// What a `RecFileSetInfo` holds, with strings as characters.
pub struct RecFileSetInfoModel {
    pub rec_folder: Seq<char>,
    pub write_plug_in: Seq<char>,
    pub rec_name_plug_in: Seq<char>,
}

impl DeepView for RecFileSetInfo {
    type V = RecFileSetInfoModel;

    open spec fn deep_view(&self) -> RecFileSetInfoModel {
        RecFileSetInfoModel {
            rec_folder: self.rec_folder@,
            write_plug_in: self.write_plug_in@,
            rec_name_plug_in: self.rec_name_plug_in@,
        }
    }
}

/// Recording settings of a reservation.
#[derive(Debug, Clone, PartialEq)]
pub struct RecSettingData {
    pub rec_mode: u8,
    pub priority: u8,
    pub tuijyuu_flag: bool,
    pub service_mode: u32,
    pub pittari_flag: bool,
    pub bat_file_path: String,
    pub rec_folder_list: Vec<RecFileSetInfo>,
    pub suspend_mode: u8,
    pub reboot_flag: bool,
    pub start_margin: Option<i32>,
    pub end_margin: Option<i32>,
    pub continue_rec_flag: bool,
    pub partial_rec_flag: u8,
    pub tuner_id: u32,
    pub partial_rec_folder: Vec<RecFileSetInfo>,
}

/// What a `RecSettingData` holds, with strings as characters.
pub struct RecSettingDataModel {
    pub rec_mode: u8,
    pub priority: u8,
    pub tuijyuu_flag: bool,
    pub service_mode: u32,
    pub pittari_flag: bool,
    pub bat_file_path: Seq<char>,
    pub rec_folder_list: Seq<RecFileSetInfoModel>,
    pub suspend_mode: u8,
    pub reboot_flag: bool,
    pub start_margin: Option<i32>,
    pub end_margin: Option<i32>,
    pub continue_rec_flag: bool,
    pub partial_rec_flag: u8,
    pub tuner_id: u32,
    pub partial_rec_folder: Seq<RecFileSetInfoModel>,
}

impl DeepView for RecSettingData {
    type V = RecSettingDataModel;

    open spec fn deep_view(&self) -> RecSettingDataModel {
        RecSettingDataModel {
            rec_mode: self.rec_mode,
            priority: self.priority,
            tuijyuu_flag: self.tuijyuu_flag,
            service_mode: self.service_mode,
            pittari_flag: self.pittari_flag,
            bat_file_path: self.bat_file_path@,
            rec_folder_list: self.rec_folder_list.deep_view(),
            suspend_mode: self.suspend_mode,
            reboot_flag: self.reboot_flag,
            start_margin: self.start_margin,
            end_margin: self.end_margin,
            continue_rec_flag: self.continue_rec_flag,
            partial_rec_flag: self.partial_rec_flag,
            tuner_id: self.tuner_id,
            partial_rec_folder: self.partial_rec_folder.deep_view(),
        }
    }
}

/// A recording reservation.
#[derive(Debug, Clone, PartialEq)]
pub struct ReserveData {
    pub title: String,
    pub start_time: DateTime,
    pub duration_second: u32,
    pub station_name: String,
    pub onid: u16,
    pub tsid: u16,
    pub sid: u16,
    pub eid: u16,
    pub comment: String,
    pub reserve_id: i32,
    pub overlap_mode: u8,
    pub start_time_epg: DateTime,
    pub rec_setting: RecSettingData,
    pub rec_file_name_list: Vec<String>,
}

/// What a `ReserveData` holds, with strings as characters.
pub struct ReserveDataModel {
    pub title: Seq<char>,
    pub start_time: DateTime,
    pub duration_second: u32,
    pub station_name: Seq<char>,
    pub onid: u16,
    pub tsid: u16,
    pub sid: u16,
    pub eid: u16,
    pub comment: Seq<char>,
    pub reserve_id: i32,
    pub overlap_mode: u8,
    pub start_time_epg: DateTime,
    pub rec_setting: RecSettingDataModel,
    pub rec_file_name_list: Seq<Seq<char>>,
}

impl DeepView for ReserveData {
    type V = ReserveDataModel;

    open spec fn deep_view(&self) -> ReserveDataModel {
        ReserveDataModel {
            title: self.title@,
            start_time: self.start_time,
            duration_second: self.duration_second,
            station_name: self.station_name@,
            onid: self.onid,
            tsid: self.tsid,
            sid: self.sid,
            eid: self.eid,
            comment: self.comment@,
            reserve_id: self.reserve_id,
            overlap_mode: self.overlap_mode,
            start_time_epg: self.start_time_epg,
            rec_setting: self.rec_setting.deep_view(),
            rec_file_name_list: self.rec_file_name_list.deep_view(),
        }
    }
}

/// A recorded item.
#[derive(Debug, Clone, PartialEq)]
pub struct RecFileInfo {
    pub id: i32,
    pub rec_file_path: String,
    pub title: String,
    pub start_time: DateTime,
    pub duration_sec: u32,
    pub service_name: String,
    pub onid: u16,
    pub tsid: u16,
    pub sid: u16,
    pub eid: u16,
    pub drops: i64,
    pub scrambles: i64,
    pub rec_status: i32,
    pub start_time_epg: DateTime,
    pub comment: String,
    pub program_info: String,
    pub err_info: String,
    pub protect_flag: bool,
}

/// What a `RecFileInfo` holds, with strings as characters.
pub struct RecFileInfoModel {
    pub id: i32,
    pub rec_file_path: Seq<char>,
    pub title: Seq<char>,
    pub start_time: DateTime,
    pub duration_sec: u32,
    pub service_name: Seq<char>,
    pub onid: u16,
    pub tsid: u16,
    pub sid: u16,
    pub eid: u16,
    pub drops: i64,
    pub scrambles: i64,
    pub rec_status: i32,
    pub start_time_epg: DateTime,
    pub comment: Seq<char>,
    pub program_info: Seq<char>,
    pub err_info: Seq<char>,
    pub protect_flag: bool,
}

impl DeepView for RecFileInfo {
    type V = RecFileInfoModel;

    open spec fn deep_view(&self) -> RecFileInfoModel {
        RecFileInfoModel {
            id: self.id,
            rec_file_path: self.rec_file_path@,
            title: self.title@,
            start_time: self.start_time,
            duration_sec: self.duration_sec,
            service_name: self.service_name@,
            onid: self.onid,
            tsid: self.tsid,
            sid: self.sid,
            eid: self.eid,
            drops: self.drops,
            scrambles: self.scrambles,
            rec_status: self.rec_status,
            start_time_epg: self.start_time_epg,
            comment: self.comment@,
            program_info: self.program_info@,
            err_info: self.err_info@,
            protect_flag: self.protect_flag,
        }
    }
}

/// The reservations assigned to one tuner.
#[derive(Debug, Clone, PartialEq, Eq)]
pub struct TunerReserveInfo {
    pub tuner_id: u32,
    pub tuner_name: String,
    pub reserve_list: Vec<i32>,
}

/// What a `TunerReserveInfo` holds, with strings as characters.
pub struct TunerReserveInfoModel {
    pub tuner_id: u32,
    pub tuner_name: Seq<char>,
    pub reserve_list: Seq<i32>,
}

impl DeepView for TunerReserveInfo {
    type V = TunerReserveInfoModel;

    open spec fn deep_view(&self) -> TunerReserveInfoModel {
        TunerReserveInfoModel {
            tuner_id: self.tuner_id,
            tuner_name: self.tuner_name@,
            reserve_list: self.reserve_list.deep_view(),
        }
    }
}

/// State of one tuner process; the signal level is kept as the bits of an IEEE 754 single.
#[derive(Debug, Clone, PartialEq, Eq)]
pub struct TunerProcessStatusInfo {
    pub tuner_id: u32,
    pub process_id: i32,
    pub drop: i64,
    pub scramble: i64,
    pub signal_lv_bits: u32,
    pub space: i32,
    pub ch: i32,
    pub onid: i32,
    pub tsid: i32,
    pub rec_flag: bool,
    pub epg_cap_flag: bool,
    pub extra_flags: u16,
}

/// What a `TunerProcessStatusInfo` holds, with strings as characters.
pub struct TunerProcessStatusInfoModel {
    pub tuner_id: u32,
    pub process_id: i32,
    pub drop: i64,
    pub scramble: i64,
    pub signal_lv_bits: u32,
    pub space: i32,
    pub ch: i32,
    pub onid: i32,
    pub tsid: i32,
    pub rec_flag: bool,
    pub epg_cap_flag: bool,
    pub extra_flags: u16,
}

impl DeepView for TunerProcessStatusInfo {
    type V = TunerProcessStatusInfoModel;

    open spec fn deep_view(&self) -> TunerProcessStatusInfoModel {
        TunerProcessStatusInfoModel {
            tuner_id: self.tuner_id,
            process_id: self.process_id,
            drop: self.drop,
            scramble: self.scramble,
            signal_lv_bits: self.signal_lv_bits,
            space: self.space,
            ch: self.ch,
            onid: self.onid,
            tsid: self.tsid,
            rec_flag: self.rec_flag,
            epg_cap_flag: self.epg_cap_flag,
            extra_flags: self.extra_flags,
        }
    }
}

/// Title and short description of a program.
#[derive(Debug, Clone, PartialEq, Eq)]
pub struct ShortEventInfo {
    pub event_name: String,
    pub text_char: String,
}

/// What a `ShortEventInfo` holds, with strings as characters.
pub struct ShortEventInfoModel {
    pub event_name: Seq<char>,
    pub text_char: Seq<char>,
}

impl DeepView for ShortEventInfo {
    type V = ShortEventInfoModel;

    open spec fn deep_view(&self) -> ShortEventInfoModel {
        ShortEventInfoModel {
            event_name: self.event_name@,
            text_char: self.text_char@,
        }
    }
}

/// Extended description of a program.
#[derive(Debug, Clone, PartialEq, Eq)]
pub struct ExtendedEventInfo {
    pub text_char: String,
}

/// What a `ExtendedEventInfo` holds, with strings as characters.
pub struct ExtendedEventInfoModel {
    pub text_char: Seq<char>,
}

impl DeepView for ExtendedEventInfo {
    type V = ExtendedEventInfoModel;

    open spec fn deep_view(&self) -> ExtendedEventInfoModel {
        ExtendedEventInfoModel {
            text_char: self.text_char@,
        }
    }
}

/// A genre entry; each nibble pair is stored byte-swapped on the wire.
#[derive(Debug, Clone, PartialEq, Eq)]
pub struct ContentData {
    pub content_nibble: u16,
    pub user_nibble: u16,
}

/// What a `ContentData` holds, with strings as characters.
pub struct ContentDataModel {
    pub content_nibble: u16,
    pub user_nibble: u16,
}

impl DeepView for ContentData {
    type V = ContentDataModel;

    open spec fn deep_view(&self) -> ContentDataModel {
        ContentDataModel {
            content_nibble: self.content_nibble,
            user_nibble: self.user_nibble,
        }
    }
}

/// Genres of a program.
#[derive(Debug, Clone, PartialEq, Eq)]
pub struct ContentInfo {
    pub nibble_list: Vec<ContentData>,
}

/// What a `ContentInfo` holds, with strings as characters.
pub struct ContentInfoModel {
    pub nibble_list: Seq<ContentDataModel>,
}

impl DeepView for ContentInfo {
    type V = ContentInfoModel;

    open spec fn deep_view(&self) -> ContentInfoModel {
        ContentInfoModel {
            nibble_list: self.nibble_list.deep_view(),
        }
    }
}

/// Video component of a program.
#[derive(Debug, Clone, PartialEq, Eq)]
pub struct ComponentInfo {
    pub stream_content: u8,
    pub component_type: u8,
    pub component_tag: u8,
    pub text_char: String,
}

/// What a `ComponentInfo` holds, with strings as characters.
pub struct ComponentInfoModel {
    pub stream_content: u8,
    pub component_type: u8,
    pub component_tag: u8,
    pub text_char: Seq<char>,
}

impl DeepView for ComponentInfo {
    type V = ComponentInfoModel;

    open spec fn deep_view(&self) -> ComponentInfoModel {
        ComponentInfoModel {
            stream_content: self.stream_content,
            component_type: self.component_type,
            component_tag: self.component_tag,
            text_char: self.text_char@,
        }
    }
}

/// One audio component of a program.
#[derive(Debug, Clone, PartialEq, Eq)]
pub struct AudioComponentInfoData {
    pub stream_content: u8,
    pub component_type: u8,
    pub component_tag: u8,
    pub stream_type: u8,
    pub simulcast_group_tag: u8,
    pub es_multi_lingual_flag: u8,
    pub main_component_flag: u8,
    pub quality_indicator: u8,
    pub sampling_rate: u8,
    pub text_char: String,
}

/// What a `AudioComponentInfoData` holds, with strings as characters.
pub struct AudioComponentInfoDataModel {
    pub stream_content: u8,
    pub component_type: u8,
    pub component_tag: u8,
    pub stream_type: u8,
    pub simulcast_group_tag: u8,
    pub es_multi_lingual_flag: u8,
    pub main_component_flag: u8,
    pub quality_indicator: u8,
    pub sampling_rate: u8,
    pub text_char: Seq<char>,
}

impl DeepView for AudioComponentInfoData {
    type V = AudioComponentInfoDataModel;

    open spec fn deep_view(&self) -> AudioComponentInfoDataModel {
        AudioComponentInfoDataModel {
            stream_content: self.stream_content,
            component_type: self.component_type,
            component_tag: self.component_tag,
            stream_type: self.stream_type,
            simulcast_group_tag: self.simulcast_group_tag,
            es_multi_lingual_flag: self.es_multi_lingual_flag,
            main_component_flag: self.main_component_flag,
            quality_indicator: self.quality_indicator,
            sampling_rate: self.sampling_rate,
            text_char: self.text_char@,
        }
    }
}

/// Audio components of a program.
#[derive(Debug, Clone, PartialEq, Eq)]
pub struct AudioComponentInfo {
    pub component_list: Vec<AudioComponentInfoData>,
}

/// What a `AudioComponentInfo` holds, with strings as characters.
pub struct AudioComponentInfoModel {
    pub component_list: Seq<AudioComponentInfoDataModel>,
}

impl DeepView for AudioComponentInfo {
    type V = AudioComponentInfoModel;

    open spec fn deep_view(&self) -> AudioComponentInfoModel {
        AudioComponentInfoModel {
            component_list: self.component_list.deep_view(),
        }
    }
}

/// Key of a related program.
#[derive(Debug, Clone, PartialEq, Eq)]
pub struct EventData {
    pub onid: u16,
    pub tsid: u16,
    pub sid: u16,
    pub eid: u16,
}

/// What a `EventData` holds, with strings as characters.
pub struct EventDataModel {
    pub onid: u16,
    pub tsid: u16,
    pub sid: u16,
    pub eid: u16,
}

impl DeepView for EventData {
    type V = EventDataModel;

    open spec fn deep_view(&self) -> EventDataModel {
        EventDataModel {
            onid: self.onid,
            tsid: self.tsid,
            sid: self.sid,
            eid: self.eid,
        }
    }
}

/// A group of related programs.
#[derive(Debug, Clone, PartialEq, Eq)]
pub struct EventGroupInfo {
    pub group_type: u8,
    pub event_data_list: Vec<EventData>,
}

/// What a `EventGroupInfo` holds, with strings as characters.
pub struct EventGroupInfoModel {
    pub group_type: u8,
    pub event_data_list: Seq<EventDataModel>,
}

impl DeepView for EventGroupInfo {
    type V = EventGroupInfoModel;

    open spec fn deep_view(&self) -> EventGroupInfoModel {
        EventGroupInfoModel {
            group_type: self.group_type,
            event_data_list: self.event_data_list.deep_view(),
        }
    }
}

/// A program of the electronic program guide.
#[derive(Debug, Clone, PartialEq)]
pub struct EventInfo {
    pub onid: u16,
    pub tsid: u16,
    pub sid: u16,
    pub eid: u16,
    pub start_time: Option<DateTime>,
    pub duration_sec: Option<i32>,
    pub short_info: Option<ShortEventInfo>,
    pub ext_info: Option<ExtendedEventInfo>,
    pub content_info: Option<ContentInfo>,
    pub component_info: Option<ComponentInfo>,
    pub audio_info: Option<AudioComponentInfo>,
    pub event_group_info: Option<EventGroupInfo>,
    pub event_relay_info: Option<EventGroupInfo>,
    pub free_ca_flag: u8,
}

/// What a `EventInfo` holds, with strings as characters.
pub struct EventInfoModel {
    pub onid: u16,
    pub tsid: u16,
    pub sid: u16,
    pub eid: u16,
    pub start_time: Option<DateTime>,
    pub duration_sec: Option<i32>,
    pub short_info: Option<ShortEventInfoModel>,
    pub ext_info: Option<ExtendedEventInfoModel>,
    pub content_info: Option<ContentInfoModel>,
    pub component_info: Option<ComponentInfoModel>,
    pub audio_info: Option<AudioComponentInfoModel>,
    pub event_group_info: Option<EventGroupInfoModel>,
    pub event_relay_info: Option<EventGroupInfoModel>,
    pub free_ca_flag: u8,
}

impl DeepView for EventInfo {
    type V = EventInfoModel;

    open spec fn deep_view(&self) -> EventInfoModel {
        EventInfoModel {
            onid: self.onid,
            tsid: self.tsid,
            sid: self.sid,
            eid: self.eid,
            start_time: self.start_time,
            duration_sec: self.duration_sec,
            short_info: self.short_info.deep_view(),
            ext_info: self.ext_info.deep_view(),
            content_info: self.content_info.deep_view(),
            component_info: self.component_info.deep_view(),
            audio_info: self.audio_info.deep_view(),
            event_group_info: self.event_group_info.deep_view(),
            event_relay_info: self.event_relay_info.deep_view(),
            free_ca_flag: self.free_ca_flag,
        }
    }
}

/// A service with its programs.
#[derive(Debug, Clone, PartialEq)]
pub struct ServiceEventInfo {
    pub service_info: ServiceInfo,
    pub event_list: Vec<EventInfo>,
}

/// What a `ServiceEventInfo` holds, with strings as characters.
pub struct ServiceEventInfoModel {
    pub service_info: ServiceInfoModel,
    pub event_list: Seq<EventInfoModel>,
}

impl DeepView for ServiceEventInfo {
    type V = ServiceEventInfoModel;

    open spec fn deep_view(&self) -> ServiceEventInfoModel {
        ServiceEventInfoModel {
            service_info: self.service_info.deep_view(),
            event_list: self.event_list.deep_view(),
        }
    }
}

/// A weekly time range of a search condition.
#[derive(Debug, Clone, PartialEq, Eq, Default)]
pub struct SearchDateInfo {
    pub start_day_of_week: u8,
    pub start_hour: u16,
    pub start_min: u16,
    pub end_day_of_week: u8,
    pub end_hour: u16,
    pub end_min: u16,
}

/// What a `SearchDateInfo` holds, with strings as characters.
pub struct SearchDateInfoModel {
    pub start_day_of_week: u8,
    pub start_hour: u16,
    pub start_min: u16,
    pub end_day_of_week: u8,
    pub end_hour: u16,
    pub end_min: u16,
}

impl DeepView for SearchDateInfo {
    type V = SearchDateInfoModel;

    open spec fn deep_view(&self) -> SearchDateInfoModel {
        SearchDateInfoModel {
            start_day_of_week: self.start_day_of_week,
            start_hour: self.start_hour,
            start_min: self.start_min,
            end_day_of_week: self.end_day_of_week,
            end_hour: self.end_hour,
            end_min: self.end_min,
        }
    }
}

/// A keyword auto-reservation condition.
#[derive(Debug, Clone, PartialEq)]
pub struct AutoAddData {
    pub data_id: i32,
    pub search_info: SearchKeyInfo,
    pub rec_setting: RecSettingData,
    pub add_count: i32,
}

/// What a `AutoAddData` holds, with strings as characters.
pub struct AutoAddDataModel {
    pub data_id: i32,
    pub search_info: SearchKeyInfoModel,
    pub rec_setting: RecSettingDataModel,
    pub add_count: i32,
}

impl DeepView for AutoAddData {
    type V = AutoAddDataModel;

    open spec fn deep_view(&self) -> AutoAddDataModel {
        AutoAddDataModel {
            data_id: self.data_id,
            search_info: self.search_info.deep_view(),
            rec_setting: self.rec_setting.deep_view(),
            add_count: self.add_count,
        }
    }
}

/// A weekly manual auto-reservation.
#[derive(Debug, Clone, PartialEq)]
pub struct ManualAutoAddData {
    pub data_id: i32,
    pub day_of_week_flag: u8,
    pub start_time: u32,
    pub duration_second: u32,
    pub title: String,
    pub station_name: String,
    pub onid: u16,
    pub tsid: u16,
    pub sid: u16,
    pub rec_setting: RecSettingData,
}

/// What a `ManualAutoAddData` holds, with strings as characters.
pub struct ManualAutoAddDataModel {
    pub data_id: i32,
    pub day_of_week_flag: u8,
    pub start_time: u32,
    pub duration_second: u32,
    pub title: Seq<char>,
    pub station_name: Seq<char>,
    pub onid: u16,
    pub tsid: u16,
    pub sid: u16,
    pub rec_setting: RecSettingDataModel,
}

impl DeepView for ManualAutoAddData {
    type V = ManualAutoAddDataModel;

    open spec fn deep_view(&self) -> ManualAutoAddDataModel {
        ManualAutoAddDataModel {
            data_id: self.data_id,
            day_of_week_flag: self.day_of_week_flag,
            start_time: self.start_time,
            duration_second: self.duration_second,
            title: self.title@,
            station_name: self.station_name@,
            onid: self.onid,
            tsid: self.tsid,
            sid: self.sid,
            rec_setting: self.rec_setting.deep_view(),
        }
    }
}

/// A time-shift playback handle.
#[derive(Debug, Clone, PartialEq, Eq)]
pub struct NwPlayTimeShiftInfo {
    pub ctrl_id: i32,
    pub file_path: String,
}

/// What a `NwPlayTimeShiftInfo` holds, with strings as characters.
pub struct NwPlayTimeShiftInfoModel {
    pub ctrl_id: i32,
    pub file_path: Seq<char>,
}

impl DeepView for NwPlayTimeShiftInfo {
    type V = NwPlayTimeShiftInfoModel;

    open spec fn deep_view(&self) -> NwPlayTimeShiftInfoModel {
        NwPlayTimeShiftInfoModel {
            ctrl_id: self.ctrl_id,
            file_path: self.file_path@,
        }
    }
}

/// A notification of the EDCB server.
#[derive(Debug, Clone, PartialEq)]
pub struct NotifySrvInfo {
    pub notify_id: u32,
    pub time: DateTime,
    pub param1: u32,
    pub param2: u32,
    pub count: u32,
    pub param4: String,
    pub param5: String,
    pub param6: String,
}

/// What a `NotifySrvInfo` holds, with strings as characters.
pub struct NotifySrvInfoModel {
    pub notify_id: u32,
    pub time: DateTime,
    pub param1: u32,
    pub param2: u32,
    pub count: u32,
    pub param4: Seq<char>,
    pub param5: Seq<char>,
    pub param6: Seq<char>,
}

impl DeepView for NotifySrvInfo {
    type V = NotifySrvInfoModel;

    open spec fn deep_view(&self) -> NotifySrvInfoModel {
        NotifySrvInfoModel {
            notify_id: self.notify_id,
            time: self.time,
            param1: self.param1,
            param2: self.param2,
            count: self.count,
            param4: self.param4@,
            param5: self.param5@,
            param6: self.param6@,
        }
    }
}

} // verus!

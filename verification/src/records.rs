use vstd::prelude::*;
use vstd::seq_lib::lemma_concat_associative;

use crate::codec::{
    lemma_frame_roundtrip, lemma_string_roundtrip, lemma_u32_roundtrip, lemma_u8_roundtrip, lemma_vector_roundtrip,
    p_optional, p_vector, read_optional_struct, vector_wire, WireRead, WireRoundtrip, WireWrite,
};
use crate::datetime::{jst_wire_value, lemma_system_time_roundtrip, p_system_time, s_system_time, DateTime};
use crate::error::{decode_error, EdcbError};
use crate::search_key::{SearchKeyInfo, SearchKeyInfoModel};
use crate::types::{ServiceInfo, ServiceInfoModel, RecFileSetInfo, RecFileSetInfoModel, RecSettingData, RecSettingDataModel, ReserveData, ReserveDataModel, RecFileInfo, RecFileInfoModel, TunerReserveInfo, TunerReserveInfoModel, TunerProcessStatusInfo, TunerProcessStatusInfoModel, ShortEventInfo, ShortEventInfoModel, ExtendedEventInfo, ExtendedEventInfoModel, ContentData, ContentDataModel, ContentInfo, ContentInfoModel, ComponentInfo, ComponentInfoModel, AudioComponentInfoData, AudioComponentInfoDataModel, AudioComponentInfo, AudioComponentInfoModel, EventData, EventDataModel, EventGroupInfo, EventGroupInfoModel, EventInfo, EventInfoModel, ServiceEventInfo, ServiceEventInfoModel, SearchDateInfo, SearchDateInfoModel, AutoAddData, AutoAddDataModel, ManualAutoAddData, ManualAutoAddDataModel, NwPlayTimeShiftInfo, NwPlayTimeShiftInfoModel, NotifySrvInfo, NotifySrvInfoModel};
use crate::wire::{
    le16, le32, lei32, lei64, lemma_lei32, lemma_swap16, p_frame, p_i32, p_i64, p_string, p_u16, p_u32, p_u8, s_frame,
    s_string, swap16, swap_bytes16, Reader, Writer,
};

verus! {

/// The flag written before the margins: 1 when both are given.
pub open spec fn margin_flag(start: Option<i32>, end: Option<i32>) -> u8 {
    if start is Some && end is Some { 1 } else { 0 }
}

/// The margin written for an optional margin: the value, or zero.
pub open spec fn margin_or_zero(m: Option<i32>) -> i32 {
    match m {
        Some(v) => v,
        None => 0,
    }
}

/// Reads the fields of a `ServiceInfo` from a struct body.
#[verifier::opaque]
pub open spec fn p_service_info_body(b0: Seq<u8>) -> Option<ServiceInfoModel> {
    match p_u16(b0) {
        None => None,
        Some((onid_raw, b1)) => match p_u16(b1) {
            None => None,
            Some((tsid_raw, b2)) => match p_u16(b2) {
                None => None,
                Some((sid_raw, b3)) => match p_u8(b3) {
                    None => None,
                    Some((service_type_raw, b4)) => match p_u8(b4) {
                        None => None,
                        Some((partial_reception_flag_raw, b5)) => match p_string(b5) {
                            None => None,
                            Some((service_provider_name_raw, b6)) => match p_string(b6) {
                                None => None,
                                Some((service_name_raw, b7)) => match p_string(b7) {
                                    None => None,
                                    Some((network_name_raw, b8)) => match p_string(b8) {
                                        None => None,
                                        Some((ts_name_raw, b9)) => match p_u8(b9) {
                                            None => None,
                                            Some((remote_control_key_id_raw, b10)) => Some(ServiceInfoModel {
                                                onid: onid_raw,
                                                tsid: tsid_raw,
                                                sid: sid_raw,
                                                service_type: service_type_raw,
                                                partial_reception_flag: partial_reception_flag_raw,
                                                service_provider_name: service_provider_name_raw,
                                                service_name: service_name_raw,
                                                network_name: network_name_raw,
                                                ts_name: ts_name_raw,
                                                remote_control_key_id: remote_control_key_id_raw,
                                            }),
                                        },
                                    },
                                },
                            },
                        },
                    },
                },
            },
        },
    }
}

impl WireRead for ServiceInfo {
    open spec fn parse(s: Seq<u8>) -> Option<(ServiceInfoModel, Seq<u8>)> {
        match p_frame(s) {
            None => None,
            Some((body, rest)) => match p_service_info_body(body) {
                None => None,
                Some(m) => Some((m, rest)),
            },
        }
    }

    fn read_from(r: &mut Reader<'_>) -> (res: Result<ServiceInfo, EdcbError>) {
        reveal(p_service_info_body);
        let mut c = r.read_struct()?;
        let onid = c.read_u16()?;
        let tsid = c.read_u16()?;
        let sid = c.read_u16()?;
        let service_type = c.read_u8()?;
        let partial_reception_flag = c.read_u8()?;
        let service_provider_name = c.read_string()?;
        let service_name = c.read_string()?;
        let network_name = c.read_string()?;
        let ts_name = c.read_string()?;
        let remote_control_key_id = c.read_u8()?;
        Ok(ServiceInfo {
            onid,
            tsid,
            sid,
            service_type,
            partial_reception_flag,
            service_provider_name,
            service_name,
            network_name,
            ts_name,
            remote_control_key_id,
        })
    }
}

/// The struct body of a `ServiceInfo`.
#[verifier::opaque]
pub open spec fn s_service_info_body(m: ServiceInfoModel) -> Seq<u8> {
    le16(m.onid)
        + le16(m.tsid)
        + le16(m.sid)
        + seq![m.service_type]
        + seq![m.partial_reception_flag]
        + s_string(m.service_provider_name)
        + s_string(m.service_name)
        + s_string(m.network_name)
        + s_string(m.ts_name)
        + seq![m.remote_control_key_id]
}

impl WireWrite for ServiceInfo {
    open spec fn wire(m: ServiceInfoModel) -> Seq<u8> {
        s_frame(s_service_info_body(m))
    }

    open spec fn writable(m: ServiceInfoModel) -> bool {
        true
    }

    proof fn lemma_wire_nonempty(m: ServiceInfoModel) {
    }

    fn write_to(&self, w: &mut Writer) {
        let ghost prefix = w@;
        let ghost m = self.deep_view();
        reveal(s_service_info_body);
        let pos = w.begin_struct();
        let ghost pre = w@;
        let ghost l0 = le16(m.onid);
        let ghost l1 = l0 + le16(m.tsid);
        let ghost l2 = l1 + le16(m.sid);
        let ghost l3 = l2 + seq![m.service_type];
        let ghost l4 = l3 + seq![m.partial_reception_flag];
        let ghost l5 = l4 + s_string(m.service_provider_name);
        let ghost l6 = l5 + s_string(m.service_name);
        let ghost l7 = l6 + s_string(m.network_name);
        let ghost l8 = l7 + s_string(m.ts_name);
        let ghost l9 = l8 + seq![m.remote_control_key_id];
        w.write_u16(self.onid);
        assert(w@ =~= pre + l0);
        w.write_u16(self.tsid);
        assert(w@ =~= pre + l1);
        w.write_u16(self.sid);
        assert(w@ =~= pre + l2);
        w.write_u8(self.service_type);
        assert(w@ =~= pre + l3);
        w.write_u8(self.partial_reception_flag);
        assert(w@ =~= pre + l4);
        w.write_string(self.service_provider_name.as_str());
        assert(w@ =~= pre + l5);
        w.write_string(self.service_name.as_str());
        assert(w@ =~= pre + l6);
        w.write_string(self.network_name.as_str());
        assert(w@ =~= pre + l7);
        w.write_string(self.ts_name.as_str());
        assert(w@ =~= pre + l8);
        w.write_u8(self.remote_control_key_id);
        assert(w@ =~= pre + l9);
        w.end_struct(pos, Ghost(prefix), Ghost(s_service_info_body(m)));
    }
}

impl WireRoundtrip for ServiceInfo {
    open spec fn canonical(m: ServiceInfoModel) -> bool {
        true
    }

    #[verifier::spinoff_prover]
    #[verifier::rlimit(80)]
    proof fn lemma_roundtrip(m: ServiceInfoModel, rest: Seq<u8>) {
        reveal(s_service_info_body);
        reveal(p_service_info_body);
        let body = s_service_info_body(m);
        let l0 = le16(m.onid);
        let l1 = l0 + le16(m.tsid);
        let l2 = l1 + le16(m.sid);
        let l3 = l2 + seq![m.service_type];
        let l4 = l3 + seq![m.partial_reception_flag];
        let l5 = l4 + s_string(m.service_provider_name);
        let l6 = l5 + s_string(m.service_name);
        let l7 = l6 + s_string(m.network_name);
        let l8 = l7 + s_string(m.ts_name);
        let l9 = l8 + seq![m.remote_control_key_id];
        let t10 = Seq::<u8>::empty();
        let t9 = seq![m.remote_control_key_id] + t10;
        let t8 = s_string(m.ts_name) + t9;
        let t7 = s_string(m.network_name) + t8;
        let t6 = s_string(m.service_name) + t7;
        let t5 = s_string(m.service_provider_name) + t6;
        let t4 = seq![m.partial_reception_flag] + t5;
        let t3 = seq![m.service_type] + t4;
        let t2 = le16(m.sid) + t3;
        let t1 = le16(m.tsid) + t2;
        let t0 = le16(m.onid) + t1;
        assert(l9 + t10 =~= l9);
        lemma_concat_associative(l8, seq![m.remote_control_key_id], t10);
        lemma_concat_associative(l7, s_string(m.ts_name), t9);
        lemma_concat_associative(l6, s_string(m.network_name), t8);
        lemma_concat_associative(l5, s_string(m.service_name), t7);
        lemma_concat_associative(l4, s_string(m.service_provider_name), t6);
        lemma_concat_associative(l3, seq![m.partial_reception_flag], t5);
        lemma_concat_associative(l2, seq![m.service_type], t4);
        lemma_concat_associative(l1, le16(m.sid), t3);
        lemma_concat_associative(l0, le16(m.tsid), t2);
        assert(body == t0);
        <u16 as WireRoundtrip>::lemma_roundtrip(m.onid, t1);
        <u16 as WireRoundtrip>::lemma_roundtrip(m.tsid, t2);
        <u16 as WireRoundtrip>::lemma_roundtrip(m.sid, t3);
        lemma_u8_roundtrip(m.service_type, t4);
        lemma_u8_roundtrip(m.partial_reception_flag, t5);
        lemma_string_roundtrip(m.service_provider_name, t6);
        lemma_string_roundtrip(m.service_name, t7);
        lemma_string_roundtrip(m.network_name, t8);
        lemma_string_roundtrip(m.ts_name, t9);
        lemma_u8_roundtrip(m.remote_control_key_id, t10);
        lemma_frame_roundtrip(body, rest);
    }
}

/// Reads the fields of a `RecFileSetInfo` from a struct body.
#[verifier::opaque]
pub open spec fn p_rec_file_set_info_body(b0: Seq<u8>) -> Option<RecFileSetInfoModel> {
    match p_string(b0) {
        None => None,
        Some((rec_folder_raw, b1)) => match p_string(b1) {
            None => None,
            Some((write_plug_in_raw, b2)) => match p_string(b2) {
                None => None,
                Some((rec_name_plug_in_raw, b3)) => match p_string(b3) {
                    None => None,
                    Some((_, b4)) => Some(RecFileSetInfoModel {
                        rec_folder: rec_folder_raw,
                        write_plug_in: write_plug_in_raw,
                        rec_name_plug_in: rec_name_plug_in_raw,
                    }),
                },
            },
        },
    }
}

impl WireRead for RecFileSetInfo {
    open spec fn parse(s: Seq<u8>) -> Option<(RecFileSetInfoModel, Seq<u8>)> {
        match p_frame(s) {
            None => None,
            Some((body, rest)) => match p_rec_file_set_info_body(body) {
                None => None,
                Some(m) => Some((m, rest)),
            },
        }
    }

    fn read_from(r: &mut Reader<'_>) -> (res: Result<RecFileSetInfo, EdcbError>) {
        reveal(p_rec_file_set_info_body);
        let mut c = r.read_struct()?;
        let rec_folder = c.read_string()?;
        let write_plug_in = c.read_string()?;
        let rec_name_plug_in = c.read_string()?;
        c.read_string()?;
        Ok(RecFileSetInfo {
            rec_folder,
            write_plug_in,
            rec_name_plug_in,
        })
    }
}

/// The struct body of a `RecFileSetInfo`.
#[verifier::opaque]
pub open spec fn s_rec_file_set_info_body(m: RecFileSetInfoModel) -> Seq<u8> {
    s_string(m.rec_folder)
        + s_string(m.write_plug_in)
        + s_string(m.rec_name_plug_in)
        + s_string(Seq::<char>::empty())
}

impl WireWrite for RecFileSetInfo {
    open spec fn wire(m: RecFileSetInfoModel) -> Seq<u8> {
        s_frame(s_rec_file_set_info_body(m))
    }

    open spec fn writable(m: RecFileSetInfoModel) -> bool {
        true
    }

    proof fn lemma_wire_nonempty(m: RecFileSetInfoModel) {
    }

    fn write_to(&self, w: &mut Writer) {
        let ghost prefix = w@;
        let ghost m = self.deep_view();
        reveal(s_rec_file_set_info_body);
        let pos = w.begin_struct();
        let ghost pre = w@;
        let ghost l0 = s_string(m.rec_folder);
        let ghost l1 = l0 + s_string(m.write_plug_in);
        let ghost l2 = l1 + s_string(m.rec_name_plug_in);
        let ghost l3 = l2 + s_string(Seq::<char>::empty());
        w.write_string(self.rec_folder.as_str());
        assert(w@ =~= pre + l0);
        w.write_string(self.write_plug_in.as_str());
        assert(w@ =~= pre + l1);
        w.write_string(self.rec_name_plug_in.as_str());
        assert(w@ =~= pre + l2);
        let empty = String::new();
        w.write_string(empty.as_str());
        assert(w@ =~= pre + l3);
        w.end_struct(pos, Ghost(prefix), Ghost(s_rec_file_set_info_body(m)));
    }
}

impl WireRoundtrip for RecFileSetInfo {
    open spec fn canonical(m: RecFileSetInfoModel) -> bool {
        true
    }

    #[verifier::spinoff_prover]
    #[verifier::rlimit(80)]
    proof fn lemma_roundtrip(m: RecFileSetInfoModel, rest: Seq<u8>) {
        reveal(s_rec_file_set_info_body);
        reveal(p_rec_file_set_info_body);
        let body = s_rec_file_set_info_body(m);
        let l0 = s_string(m.rec_folder);
        let l1 = l0 + s_string(m.write_plug_in);
        let l2 = l1 + s_string(m.rec_name_plug_in);
        let l3 = l2 + s_string(Seq::<char>::empty());
        let t4 = Seq::<u8>::empty();
        let t3 = s_string(Seq::<char>::empty()) + t4;
        let t2 = s_string(m.rec_name_plug_in) + t3;
        let t1 = s_string(m.write_plug_in) + t2;
        let t0 = s_string(m.rec_folder) + t1;
        assert(l3 + t4 =~= l3);
        lemma_concat_associative(l2, s_string(Seq::<char>::empty()), t4);
        lemma_concat_associative(l1, s_string(m.rec_name_plug_in), t3);
        lemma_concat_associative(l0, s_string(m.write_plug_in), t2);
        assert(body == t0);
        lemma_string_roundtrip(m.rec_folder, t1);
        lemma_string_roundtrip(m.write_plug_in, t2);
        lemma_string_roundtrip(m.rec_name_plug_in, t3);
        lemma_string_roundtrip(Seq::<char>::empty(), t4);
        lemma_frame_roundtrip(body, rest);
    }
}

/// Reads the fields of a `RecSettingData` from a struct body.
#[verifier::opaque]
pub open spec fn p_rec_setting_data_body(b0: Seq<u8>) -> Option<RecSettingDataModel> {
    match p_u8(b0) {
        None => None,
        Some((rec_mode_raw, b1)) => match p_u8(b1) {
            None => None,
            Some((priority_raw, b2)) => match p_u8(b2) {
                None => None,
                Some((tuijyuu_flag_raw, b3)) => match p_u32(b3) {
                    None => None,
                    Some((service_mode_raw, b4)) => match p_u8(b4) {
                        None => None,
                        Some((pittari_flag_raw, b5)) => match p_string(b5) {
                            None => None,
                            Some((bat_file_path_raw, b6)) => match p_vector::<RecFileSetInfo>(b6) {
                                None => None,
                                Some((rec_folder_list_raw, b7)) => match p_u8(b7) {
                                    None => None,
                                    Some((suspend_mode_raw, b8)) => match p_u8(b8) {
                                        None => None,
                                        Some((reboot_flag_raw, b9)) => match p_u8(b9) {
                                            None => None,
                                            Some((use_margin_raw, b10)) => match p_i32(b10) {
                                                None => None,
                                                Some((start_margin_value_raw, b11)) => match p_i32(b11) {
                                                    None => None,
                                                    Some((end_margin_value_raw, b12)) => match p_u8(b12) {
                                                        None => None,
                                                        Some((continue_rec_flag_raw, b13)) => match p_u8(b13) {
                                                            None => None,
                                                            Some((partial_rec_flag_raw, b14)) => match p_u32(b14) {
                                                                None => None,
                                                                Some((tuner_id_raw, b15)) => match p_vector::<RecFileSetInfo>(b15) {
                                                                    None => None,
                                                                    Some((partial_rec_folder_raw, b16)) => Some(RecSettingDataModel {
                                                                        rec_mode: rec_mode_raw,
                                                                        priority: priority_raw,
                                                                        tuijyuu_flag: tuijyuu_flag_raw != 0,
                                                                        service_mode: service_mode_raw,
                                                                        pittari_flag: pittari_flag_raw != 0,
                                                                        bat_file_path: bat_file_path_raw,
                                                                        rec_folder_list: rec_folder_list_raw,
                                                                        suspend_mode: suspend_mode_raw,
                                                                        reboot_flag: reboot_flag_raw != 0,
                                                                        start_margin: if use_margin_raw != 0 { Some(start_margin_value_raw) } else { None },
                                                                        end_margin: if use_margin_raw != 0 { Some(end_margin_value_raw) } else { None },
                                                                        continue_rec_flag: continue_rec_flag_raw != 0,
                                                                        partial_rec_flag: partial_rec_flag_raw,
                                                                        tuner_id: tuner_id_raw,
                                                                        partial_rec_folder: partial_rec_folder_raw,
                                                                    }),
                                                                },
                                                            },
                                                        },
                                                    },
                                                },
                                            },
                                        },
                                    },
                                },
                            },
                        },
                    },
                },
            },
        },
    }
}

impl WireRead for RecSettingData {
    open spec fn parse(s: Seq<u8>) -> Option<(RecSettingDataModel, Seq<u8>)> {
        match p_frame(s) {
            None => None,
            Some((body, rest)) => match p_rec_setting_data_body(body) {
                None => None,
                Some(m) => Some((m, rest)),
            },
        }
    }

    fn read_from(r: &mut Reader<'_>) -> (res: Result<RecSettingData, EdcbError>) {
        reveal(p_rec_setting_data_body);
        let mut c = r.read_struct()?;
        let rec_mode = c.read_u8()?;
        let priority = c.read_u8()?;
        let tuijyuu_flag = c.read_u8()? != 0;
        let service_mode = c.read_u32()?;
        let pittari_flag = c.read_u8()? != 0;
        let bat_file_path = c.read_string()?;
        let rec_folder_list = c.read_vector::<RecFileSetInfo>()?;
        let suspend_mode = c.read_u8()?;
        let reboot_flag = c.read_u8()? != 0;
        let use_margin = c.read_u8()? != 0;
        let start_margin_value = c.read_i32()?;
        let end_margin_value = c.read_i32()?;
        let start_margin = if use_margin { Some(start_margin_value) } else { None };
        let end_margin = if use_margin { Some(end_margin_value) } else { None };
        let continue_rec_flag = c.read_u8()? != 0;
        let partial_rec_flag = c.read_u8()?;
        let tuner_id = c.read_u32()?;
        let partial_rec_folder = c.read_vector::<RecFileSetInfo>()?;
        Ok(RecSettingData {
            rec_mode,
            priority,
            tuijyuu_flag,
            service_mode,
            pittari_flag,
            bat_file_path,
            rec_folder_list,
            suspend_mode,
            reboot_flag,
            start_margin,
            end_margin,
            continue_rec_flag,
            partial_rec_flag,
            tuner_id,
            partial_rec_folder,
        })
    }
}

/// The struct body of a `RecSettingData`.
#[verifier::opaque]
pub open spec fn s_rec_setting_data_body(m: RecSettingDataModel) -> Seq<u8> {
    seq![m.rec_mode]
        + seq![m.priority]
        + seq![if m.tuijyuu_flag { 1u8 } else { 0u8 }]
        + le32(m.service_mode)
        + seq![if m.pittari_flag { 1u8 } else { 0u8 }]
        + s_string(m.bat_file_path)
        + vector_wire::<RecFileSetInfo>(m.rec_folder_list)
        + seq![m.suspend_mode]
        + seq![if m.reboot_flag { 1u8 } else { 0u8 }]
        + seq![margin_flag(m.start_margin, m.end_margin)]
        + lei32(margin_or_zero(m.start_margin))
        + lei32(margin_or_zero(m.end_margin))
        + seq![if m.continue_rec_flag { 1u8 } else { 0u8 }]
        + seq![m.partial_rec_flag]
        + le32(m.tuner_id)
        + vector_wire::<RecFileSetInfo>(m.partial_rec_folder)
}

impl WireWrite for RecSettingData {
    open spec fn wire(m: RecSettingDataModel) -> Seq<u8> {
        s_frame(s_rec_setting_data_body(m))
    }

    open spec fn writable(m: RecSettingDataModel) -> bool {
        (forall|i: int| 0 <= i < m.rec_folder_list.len() ==> <RecFileSetInfo as WireWrite>::writable(#[trigger] m.rec_folder_list[i]))
        && (forall|i: int| 0 <= i < m.partial_rec_folder.len() ==> <RecFileSetInfo as WireWrite>::writable(#[trigger] m.partial_rec_folder[i]))
    }

    proof fn lemma_wire_nonempty(m: RecSettingDataModel) {
    }

    #[verifier::rlimit(80)]
    fn write_to(&self, w: &mut Writer) {
        let ghost prefix = w@;
        let ghost m = self.deep_view();
        reveal(s_rec_setting_data_body);
        let pos = w.begin_struct();
        let ghost pre = w@;
        let ghost l0 = seq![m.rec_mode];
        let ghost l1 = l0 + seq![m.priority];
        let ghost l2 = l1 + seq![if m.tuijyuu_flag { 1u8 } else { 0u8 }];
        let ghost l3 = l2 + le32(m.service_mode);
        let ghost l4 = l3 + seq![if m.pittari_flag { 1u8 } else { 0u8 }];
        let ghost l5 = l4 + s_string(m.bat_file_path);
        let ghost l6 = l5 + vector_wire::<RecFileSetInfo>(m.rec_folder_list);
        let ghost l7 = l6 + seq![m.suspend_mode];
        let ghost l8 = l7 + seq![if m.reboot_flag { 1u8 } else { 0u8 }];
        let ghost l9 = l8 + seq![margin_flag(m.start_margin, m.end_margin)];
        let ghost l10 = l9 + lei32(margin_or_zero(m.start_margin));
        let ghost l11 = l10 + lei32(margin_or_zero(m.end_margin));
        let ghost l12 = l11 + seq![if m.continue_rec_flag { 1u8 } else { 0u8 }];
        let ghost l13 = l12 + seq![m.partial_rec_flag];
        let ghost l14 = l13 + le32(m.tuner_id);
        let ghost l15 = l14 + vector_wire::<RecFileSetInfo>(m.partial_rec_folder);
        w.write_u8(self.rec_mode);
        assert(w@ =~= pre + l0);
        w.write_u8(self.priority);
        assert(w@ =~= pre + l1);
        w.write_u8(if self.tuijyuu_flag { 1 } else { 0 });
        assert(w@ =~= pre + l2);
        w.write_u32(self.service_mode);
        assert(w@ =~= pre + l3);
        w.write_u8(if self.pittari_flag { 1 } else { 0 });
        assert(w@ =~= pre + l4);
        w.write_string(self.bat_file_path.as_str());
        assert(w@ =~= pre + l5);
        let rec_folder_list_items = self.rec_folder_list.as_slice();
        assert(rec_folder_list_items.deep_view() =~= self.rec_folder_list.deep_view());
        w.write_vector(rec_folder_list_items);
        assert(w@ =~= pre + l6);
        w.write_u8(self.suspend_mode);
        assert(w@ =~= pre + l7);
        w.write_u8(if self.reboot_flag { 1 } else { 0 });
        assert(w@ =~= pre + l8);
        let use_margin = self.start_margin.is_some() && self.end_margin.is_some();
        w.write_u8(if use_margin { 1 } else { 0 });
        assert(w@ =~= pre + l9);
        w.write_i32(match self.start_margin { Some(v) => v, None => 0 });
        assert(w@ =~= pre + l10);
        w.write_i32(match self.end_margin { Some(v) => v, None => 0 });
        assert(w@ =~= pre + l11);
        w.write_u8(if self.continue_rec_flag { 1 } else { 0 });
        assert(w@ =~= pre + l12);
        w.write_u8(self.partial_rec_flag);
        assert(w@ =~= pre + l13);
        w.write_u32(self.tuner_id);
        assert(w@ =~= pre + l14);
        let partial_rec_folder_items = self.partial_rec_folder.as_slice();
        assert(partial_rec_folder_items.deep_view() =~= self.partial_rec_folder.deep_view());
        w.write_vector(partial_rec_folder_items);
        assert(w@ =~= pre + l15);
        w.end_struct(pos, Ghost(prefix), Ghost(s_rec_setting_data_body(m)));
    }
}

impl WireRoundtrip for RecSettingData {
    open spec fn canonical(m: RecSettingDataModel) -> bool {
        (forall|i: int| 0 <= i < m.rec_folder_list.len() ==> <RecFileSetInfo as WireRoundtrip>::canonical(#[trigger] m.rec_folder_list[i]))
        && ((m.start_margin is Some <==> m.end_margin is Some))
        && (forall|i: int| 0 <= i < m.partial_rec_folder.len() ==> <RecFileSetInfo as WireRoundtrip>::canonical(#[trigger] m.partial_rec_folder[i]))
    }

    #[verifier::spinoff_prover]
    #[verifier::rlimit(80)]
    proof fn lemma_roundtrip(m: RecSettingDataModel, rest: Seq<u8>) {
        reveal(s_rec_setting_data_body);
        reveal(p_rec_setting_data_body);
        let body = s_rec_setting_data_body(m);
        let l0 = seq![m.rec_mode];
        let l1 = l0 + seq![m.priority];
        let l2 = l1 + seq![if m.tuijyuu_flag { 1u8 } else { 0u8 }];
        let l3 = l2 + le32(m.service_mode);
        let l4 = l3 + seq![if m.pittari_flag { 1u8 } else { 0u8 }];
        let l5 = l4 + s_string(m.bat_file_path);
        let l6 = l5 + vector_wire::<RecFileSetInfo>(m.rec_folder_list);
        let l7 = l6 + seq![m.suspend_mode];
        let l8 = l7 + seq![if m.reboot_flag { 1u8 } else { 0u8 }];
        let l9 = l8 + seq![margin_flag(m.start_margin, m.end_margin)];
        let l10 = l9 + lei32(margin_or_zero(m.start_margin));
        let l11 = l10 + lei32(margin_or_zero(m.end_margin));
        let l12 = l11 + seq![if m.continue_rec_flag { 1u8 } else { 0u8 }];
        let l13 = l12 + seq![m.partial_rec_flag];
        let l14 = l13 + le32(m.tuner_id);
        let l15 = l14 + vector_wire::<RecFileSetInfo>(m.partial_rec_folder);
        let t16 = Seq::<u8>::empty();
        let t15 = vector_wire::<RecFileSetInfo>(m.partial_rec_folder) + t16;
        let t14 = le32(m.tuner_id) + t15;
        let t13 = seq![m.partial_rec_flag] + t14;
        let t12 = seq![if m.continue_rec_flag { 1u8 } else { 0u8 }] + t13;
        let t11 = lei32(margin_or_zero(m.end_margin)) + t12;
        let t10 = lei32(margin_or_zero(m.start_margin)) + t11;
        let t9 = seq![margin_flag(m.start_margin, m.end_margin)] + t10;
        let t8 = seq![if m.reboot_flag { 1u8 } else { 0u8 }] + t9;
        let t7 = seq![m.suspend_mode] + t8;
        let t6 = vector_wire::<RecFileSetInfo>(m.rec_folder_list) + t7;
        let t5 = s_string(m.bat_file_path) + t6;
        let t4 = seq![if m.pittari_flag { 1u8 } else { 0u8 }] + t5;
        let t3 = le32(m.service_mode) + t4;
        let t2 = seq![if m.tuijyuu_flag { 1u8 } else { 0u8 }] + t3;
        let t1 = seq![m.priority] + t2;
        let t0 = seq![m.rec_mode] + t1;
        assert(l15 + t16 =~= l15);
        lemma_concat_associative(l14, vector_wire::<RecFileSetInfo>(m.partial_rec_folder), t16);
        lemma_concat_associative(l13, le32(m.tuner_id), t15);
        lemma_concat_associative(l12, seq![m.partial_rec_flag], t14);
        lemma_concat_associative(l11, seq![if m.continue_rec_flag { 1u8 } else { 0u8 }], t13);
        lemma_concat_associative(l10, lei32(margin_or_zero(m.end_margin)), t12);
        lemma_concat_associative(l9, lei32(margin_or_zero(m.start_margin)), t11);
        lemma_concat_associative(l8, seq![margin_flag(m.start_margin, m.end_margin)], t10);
        lemma_concat_associative(l7, seq![if m.reboot_flag { 1u8 } else { 0u8 }], t9);
        lemma_concat_associative(l6, seq![m.suspend_mode], t8);
        lemma_concat_associative(l5, vector_wire::<RecFileSetInfo>(m.rec_folder_list), t7);
        lemma_concat_associative(l4, s_string(m.bat_file_path), t6);
        lemma_concat_associative(l3, seq![if m.pittari_flag { 1u8 } else { 0u8 }], t5);
        lemma_concat_associative(l2, le32(m.service_mode), t4);
        lemma_concat_associative(l1, seq![if m.tuijyuu_flag { 1u8 } else { 0u8 }], t3);
        lemma_concat_associative(l0, seq![m.priority], t2);
        assert(body == t0);
        lemma_u8_roundtrip(m.rec_mode, t1);
        lemma_u8_roundtrip(m.priority, t2);
        lemma_u8_roundtrip(if m.tuijyuu_flag { 1u8 } else { 0u8 }, t3);
        lemma_u32_roundtrip(m.service_mode, t4);
        lemma_u8_roundtrip(if m.pittari_flag { 1u8 } else { 0u8 }, t5);
        lemma_string_roundtrip(m.bat_file_path, t6);
        lemma_vector_roundtrip::<RecFileSetInfo>(m.rec_folder_list, t7);
        lemma_u8_roundtrip(m.suspend_mode, t8);
        lemma_u8_roundtrip(if m.reboot_flag { 1u8 } else { 0u8 }, t9);
        lemma_u8_roundtrip(margin_flag(m.start_margin, m.end_margin), t10);
        lemma_lei32(margin_or_zero(m.start_margin));
        lemma_lei32(margin_or_zero(m.end_margin));
        lemma_u8_roundtrip(if m.continue_rec_flag { 1u8 } else { 0u8 }, t13);
        lemma_u8_roundtrip(m.partial_rec_flag, t14);
        lemma_u32_roundtrip(m.tuner_id, t15);
        lemma_vector_roundtrip::<RecFileSetInfo>(m.partial_rec_folder, t16);
        lemma_frame_roundtrip(body, rest);
    }
}

/// Reads the fields of a `ReserveData` from a struct body.
#[verifier::opaque]
pub open spec fn p_reserve_data_body(b0: Seq<u8>) -> Option<ReserveDataModel> {
    match p_string(b0) {
        None => None,
        Some((title_raw, b1)) => match p_system_time(b1) {
            None => None,
            Some((start_time_raw, b2)) => match p_u32(b2) {
                None => None,
                Some((duration_second_raw, b3)) => match p_string(b3) {
                    None => None,
                    Some((station_name_raw, b4)) => match p_u16(b4) {
                        None => None,
                        Some((onid_raw, b5)) => match p_u16(b5) {
                            None => None,
                            Some((tsid_raw, b6)) => match p_u16(b6) {
                                None => None,
                                Some((sid_raw, b7)) => match p_u16(b7) {
                                    None => None,
                                    Some((eid_raw, b8)) => match p_string(b8) {
                                        None => None,
                                        Some((comment_raw, b9)) => match p_i32(b9) {
                                            None => None,
                                            Some((reserve_id_raw, b10)) => match p_u8(b10) {
                                                None => None,
                                                Some((_, b11)) => match p_u8(b11) {
                                                    None => None,
                                                    Some((overlap_mode_raw, b12)) => match p_string(b12) {
                                                        None => None,
                                                        Some((_, b13)) => match p_system_time(b13) {
                                                            None => None,
                                                            Some((start_time_epg_raw, b14)) => match <RecSettingData as WireRead>::parse(b14) {
                                                                None => None,
                                                                Some((rec_setting_raw, b15)) => match p_i32(b15) {
                                                                    None => None,
                                                                    Some((_, b16)) => match p_vector::<String>(b16) {
                                                                        None => None,
                                                                        Some((rec_file_name_list_raw, b17)) => match p_i32(b17) {
                                                                            None => None,
                                                                            Some((_, b18)) => Some(ReserveDataModel {
                                                                                title: title_raw,
                                                                                start_time: start_time_raw,
                                                                                duration_second: duration_second_raw,
                                                                                station_name: station_name_raw,
                                                                                onid: onid_raw,
                                                                                tsid: tsid_raw,
                                                                                sid: sid_raw,
                                                                                eid: eid_raw,
                                                                                comment: comment_raw,
                                                                                reserve_id: reserve_id_raw,
                                                                                overlap_mode: overlap_mode_raw,
                                                                                start_time_epg: start_time_epg_raw,
                                                                                rec_setting: rec_setting_raw,
                                                                                rec_file_name_list: rec_file_name_list_raw,
                                                                            }),
                                                                        },
                                                                    },
                                                                },
                                                            },
                                                        },
                                                    },
                                                },
                                            },
                                        },
                                    },
                                },
                            },
                        },
                    },
                },
            },
        },
    }
}

impl WireRead for ReserveData {
    open spec fn parse(s: Seq<u8>) -> Option<(ReserveDataModel, Seq<u8>)> {
        match p_frame(s) {
            None => None,
            Some((body, rest)) => match p_reserve_data_body(body) {
                None => None,
                Some(m) => Some((m, rest)),
            },
        }
    }

    fn read_from(r: &mut Reader<'_>) -> (res: Result<ReserveData, EdcbError>) {
        reveal(p_reserve_data_body);
        let mut c = r.read_struct()?;
        let title = c.read_string()?;
        let start_time = c.read_system_time()?;
        let duration_second = c.read_u32()?;
        let station_name = c.read_string()?;
        let onid = c.read_u16()?;
        let tsid = c.read_u16()?;
        let sid = c.read_u16()?;
        let eid = c.read_u16()?;
        let comment = c.read_string()?;
        let reserve_id = c.read_i32()?;
        c.read_u8()?;
        let overlap_mode = c.read_u8()?;
        c.read_string()?;
        let start_time_epg = c.read_system_time()?;
        let rec_setting = RecSettingData::read_from(&mut c)?;
        c.read_i32()?;
        let rec_file_name_list = c.read_vector::<String>()?;
        c.read_i32()?;
        Ok(ReserveData {
            title,
            start_time,
            duration_second,
            station_name,
            onid,
            tsid,
            sid,
            eid,
            comment,
            reserve_id,
            overlap_mode,
            start_time_epg,
            rec_setting,
            rec_file_name_list,
        })
    }
}

/// The struct body of a `ReserveData`.
#[verifier::opaque]
pub open spec fn s_reserve_data_body(m: ReserveDataModel) -> Seq<u8> {
    s_string(m.title)
        + s_system_time(m.start_time)
        + le32(m.duration_second)
        + s_string(m.station_name)
        + le16(m.onid)
        + le16(m.tsid)
        + le16(m.sid)
        + le16(m.eid)
        + s_string(m.comment)
        + lei32(m.reserve_id)
        + seq![0u8]
        + seq![m.overlap_mode]
        + s_string(Seq::<char>::empty())
        + s_system_time(m.start_time_epg)
        + <RecSettingData as WireWrite>::wire(m.rec_setting)
        + lei32(0)
        + vector_wire::<String>(m.rec_file_name_list)
        + lei32(0)
}

impl WireWrite for ReserveData {
    open spec fn wire(m: ReserveDataModel) -> Seq<u8> {
        s_frame(s_reserve_data_body(m))
    }

    open spec fn writable(m: ReserveDataModel) -> bool {
        (m.start_time.wf())
        && (m.start_time_epg.wf())
        && (<RecSettingData as WireWrite>::writable(m.rec_setting))
        && (forall|i: int| 0 <= i < m.rec_file_name_list.len() ==> <String as WireWrite>::writable(#[trigger] m.rec_file_name_list[i]))
    }

    proof fn lemma_wire_nonempty(m: ReserveDataModel) {
    }

    fn write_to(&self, w: &mut Writer) {
        let ghost prefix = w@;
        let ghost m = self.deep_view();
        reveal(s_reserve_data_body);
        let pos = w.begin_struct();
        let ghost pre = w@;
        let ghost l0 = s_string(m.title);
        let ghost l1 = l0 + s_system_time(m.start_time);
        let ghost l2 = l1 + le32(m.duration_second);
        let ghost l3 = l2 + s_string(m.station_name);
        let ghost l4 = l3 + le16(m.onid);
        let ghost l5 = l4 + le16(m.tsid);
        let ghost l6 = l5 + le16(m.sid);
        let ghost l7 = l6 + le16(m.eid);
        let ghost l8 = l7 + s_string(m.comment);
        let ghost l9 = l8 + lei32(m.reserve_id);
        let ghost l10 = l9 + seq![0u8];
        let ghost l11 = l10 + seq![m.overlap_mode];
        let ghost l12 = l11 + s_string(Seq::<char>::empty());
        let ghost l13 = l12 + s_system_time(m.start_time_epg);
        let ghost l14 = l13 + <RecSettingData as WireWrite>::wire(m.rec_setting);
        let ghost l15 = l14 + lei32(0);
        let ghost l16 = l15 + vector_wire::<String>(m.rec_file_name_list);
        let ghost l17 = l16 + lei32(0);
        w.write_string(self.title.as_str());
        assert(w@ =~= pre + l0);
        w.write_system_time(&self.start_time);
        assert(w@ =~= pre + l1);
        w.write_u32(self.duration_second);
        assert(w@ =~= pre + l2);
        w.write_string(self.station_name.as_str());
        assert(w@ =~= pre + l3);
        w.write_u16(self.onid);
        assert(w@ =~= pre + l4);
        w.write_u16(self.tsid);
        assert(w@ =~= pre + l5);
        w.write_u16(self.sid);
        assert(w@ =~= pre + l6);
        w.write_u16(self.eid);
        assert(w@ =~= pre + l7);
        w.write_string(self.comment.as_str());
        assert(w@ =~= pre + l8);
        w.write_i32(self.reserve_id);
        assert(w@ =~= pre + l9);
        w.write_u8(0);
        assert(w@ =~= pre + l10);
        w.write_u8(self.overlap_mode);
        assert(w@ =~= pre + l11);
        let empty = String::new();
        w.write_string(empty.as_str());
        assert(w@ =~= pre + l12);
        w.write_system_time(&self.start_time_epg);
        assert(w@ =~= pre + l13);
        self.rec_setting.write_to(w);
        assert(w@ =~= pre + l14);
        w.write_i32(0);
        assert(w@ =~= pre + l15);
        let rec_file_name_list_items = self.rec_file_name_list.as_slice();
        assert(rec_file_name_list_items.deep_view() =~= self.rec_file_name_list.deep_view());
        w.write_vector(rec_file_name_list_items);
        assert(w@ =~= pre + l16);
        w.write_i32(0);
        assert(w@ =~= pre + l17);
        w.end_struct(pos, Ghost(prefix), Ghost(s_reserve_data_body(m)));
    }
}

impl WireRoundtrip for ReserveData {
    open spec fn canonical(m: ReserveDataModel) -> bool {
        (jst_wire_value(m.start_time))
        && (jst_wire_value(m.start_time_epg))
        && (<RecSettingData as WireRoundtrip>::canonical(m.rec_setting))
        && (forall|i: int| 0 <= i < m.rec_file_name_list.len() ==> <String as WireRoundtrip>::canonical(#[trigger] m.rec_file_name_list[i]))
    }

    #[verifier::spinoff_prover]
    #[verifier::rlimit(80)]
    proof fn lemma_roundtrip(m: ReserveDataModel, rest: Seq<u8>) {
        reveal(s_reserve_data_body);
        reveal(p_reserve_data_body);
        let body = s_reserve_data_body(m);
        let l0 = s_string(m.title);
        let l1 = l0 + s_system_time(m.start_time);
        let l2 = l1 + le32(m.duration_second);
        let l3 = l2 + s_string(m.station_name);
        let l4 = l3 + le16(m.onid);
        let l5 = l4 + le16(m.tsid);
        let l6 = l5 + le16(m.sid);
        let l7 = l6 + le16(m.eid);
        let l8 = l7 + s_string(m.comment);
        let l9 = l8 + lei32(m.reserve_id);
        let l10 = l9 + seq![0u8];
        let l11 = l10 + seq![m.overlap_mode];
        let l12 = l11 + s_string(Seq::<char>::empty());
        let l13 = l12 + s_system_time(m.start_time_epg);
        let l14 = l13 + <RecSettingData as WireWrite>::wire(m.rec_setting);
        let l15 = l14 + lei32(0);
        let l16 = l15 + vector_wire::<String>(m.rec_file_name_list);
        let l17 = l16 + lei32(0);
        let t18 = Seq::<u8>::empty();
        let t17 = lei32(0) + t18;
        let t16 = vector_wire::<String>(m.rec_file_name_list) + t17;
        let t15 = lei32(0) + t16;
        let t14 = <RecSettingData as WireWrite>::wire(m.rec_setting) + t15;
        let t13 = s_system_time(m.start_time_epg) + t14;
        let t12 = s_string(Seq::<char>::empty()) + t13;
        let t11 = seq![m.overlap_mode] + t12;
        let t10 = seq![0u8] + t11;
        let t9 = lei32(m.reserve_id) + t10;
        let t8 = s_string(m.comment) + t9;
        let t7 = le16(m.eid) + t8;
        let t6 = le16(m.sid) + t7;
        let t5 = le16(m.tsid) + t6;
        let t4 = le16(m.onid) + t5;
        let t3 = s_string(m.station_name) + t4;
        let t2 = le32(m.duration_second) + t3;
        let t1 = s_system_time(m.start_time) + t2;
        let t0 = s_string(m.title) + t1;
        assert(l17 + t18 =~= l17);
        lemma_concat_associative(l16, lei32(0), t18);
        lemma_concat_associative(l15, vector_wire::<String>(m.rec_file_name_list), t17);
        lemma_concat_associative(l14, lei32(0), t16);
        lemma_concat_associative(l13, <RecSettingData as WireWrite>::wire(m.rec_setting), t15);
        lemma_concat_associative(l12, s_system_time(m.start_time_epg), t14);
        lemma_concat_associative(l11, s_string(Seq::<char>::empty()), t13);
        lemma_concat_associative(l10, seq![m.overlap_mode], t12);
        lemma_concat_associative(l9, seq![0u8], t11);
        lemma_concat_associative(l8, lei32(m.reserve_id), t10);
        lemma_concat_associative(l7, s_string(m.comment), t9);
        lemma_concat_associative(l6, le16(m.eid), t8);
        lemma_concat_associative(l5, le16(m.sid), t7);
        lemma_concat_associative(l4, le16(m.tsid), t6);
        lemma_concat_associative(l3, le16(m.onid), t5);
        lemma_concat_associative(l2, s_string(m.station_name), t4);
        lemma_concat_associative(l1, le32(m.duration_second), t3);
        lemma_concat_associative(l0, s_system_time(m.start_time), t2);
        assert(body == t0);
        lemma_string_roundtrip(m.title, t1);
        lemma_system_time_roundtrip(m.start_time, t2);
        lemma_u32_roundtrip(m.duration_second, t3);
        lemma_string_roundtrip(m.station_name, t4);
        <u16 as WireRoundtrip>::lemma_roundtrip(m.onid, t5);
        <u16 as WireRoundtrip>::lemma_roundtrip(m.tsid, t6);
        <u16 as WireRoundtrip>::lemma_roundtrip(m.sid, t7);
        <u16 as WireRoundtrip>::lemma_roundtrip(m.eid, t8);
        lemma_string_roundtrip(m.comment, t9);
        lemma_lei32(m.reserve_id);
        lemma_u8_roundtrip(0u8, t11);
        lemma_u8_roundtrip(m.overlap_mode, t12);
        lemma_string_roundtrip(Seq::<char>::empty(), t13);
        lemma_system_time_roundtrip(m.start_time_epg, t14);
        <RecSettingData as WireRoundtrip>::lemma_roundtrip(m.rec_setting, t15);
        lemma_lei32(0);
        lemma_vector_roundtrip::<String>(m.rec_file_name_list, t17);
        lemma_lei32(0);
        lemma_frame_roundtrip(body, rest);
    }
}

/// Reads the fields of a `RecFileInfo` from a struct body.
#[verifier::opaque]
pub open spec fn p_rec_file_info_body(b0: Seq<u8>) -> Option<RecFileInfoModel> {
    match p_i32(b0) {
        None => None,
        Some((id_raw, b1)) => match p_string(b1) {
            None => None,
            Some((rec_file_path_raw, b2)) => match p_string(b2) {
                None => None,
                Some((title_raw, b3)) => match p_system_time(b3) {
                    None => None,
                    Some((start_time_raw, b4)) => match p_u32(b4) {
                        None => None,
                        Some((duration_sec_raw, b5)) => match p_string(b5) {
                            None => None,
                            Some((service_name_raw, b6)) => match p_u16(b6) {
                                None => None,
                                Some((onid_raw, b7)) => match p_u16(b7) {
                                    None => None,
                                    Some((tsid_raw, b8)) => match p_u16(b8) {
                                        None => None,
                                        Some((sid_raw, b9)) => match p_u16(b9) {
                                            None => None,
                                            Some((eid_raw, b10)) => match p_i64(b10) {
                                                None => None,
                                                Some((drops_raw, b11)) => match p_i64(b11) {
                                                    None => None,
                                                    Some((scrambles_raw, b12)) => match p_i32(b12) {
                                                        None => None,
                                                        Some((rec_status_raw, b13)) => match p_system_time(b13) {
                                                            None => None,
                                                            Some((start_time_epg_raw, b14)) => match p_string(b14) {
                                                                None => None,
                                                                Some((comment_raw, b15)) => match p_string(b15) {
                                                                    None => None,
                                                                    Some((program_info_raw, b16)) => match p_string(b16) {
                                                                        None => None,
                                                                        Some((err_info_raw, b17)) => match p_u8(b17) {
                                                                            None => None,
                                                                            Some((protect_flag_raw, b18)) => Some(RecFileInfoModel {
                                                                                id: id_raw,
                                                                                rec_file_path: rec_file_path_raw,
                                                                                title: title_raw,
                                                                                start_time: start_time_raw,
                                                                                duration_sec: duration_sec_raw,
                                                                                service_name: service_name_raw,
                                                                                onid: onid_raw,
                                                                                tsid: tsid_raw,
                                                                                sid: sid_raw,
                                                                                eid: eid_raw,
                                                                                drops: drops_raw,
                                                                                scrambles: scrambles_raw,
                                                                                rec_status: rec_status_raw,
                                                                                start_time_epg: start_time_epg_raw,
                                                                                comment: comment_raw,
                                                                                program_info: program_info_raw,
                                                                                err_info: err_info_raw,
                                                                                protect_flag: protect_flag_raw != 0,
                                                                            }),
                                                                        },
                                                                    },
                                                                },
                                                            },
                                                        },
                                                    },
                                                },
                                            },
                                        },
                                    },
                                },
                            },
                        },
                    },
                },
            },
        },
    }
}

impl WireRead for RecFileInfo {
    open spec fn parse(s: Seq<u8>) -> Option<(RecFileInfoModel, Seq<u8>)> {
        match p_frame(s) {
            None => None,
            Some((body, rest)) => match p_rec_file_info_body(body) {
                None => None,
                Some(m) => Some((m, rest)),
            },
        }
    }

    fn read_from(r: &mut Reader<'_>) -> (res: Result<RecFileInfo, EdcbError>) {
        reveal(p_rec_file_info_body);
        let mut c = r.read_struct()?;
        let id = c.read_i32()?;
        let rec_file_path = c.read_string()?;
        let title = c.read_string()?;
        let start_time = c.read_system_time()?;
        let duration_sec = c.read_u32()?;
        let service_name = c.read_string()?;
        let onid = c.read_u16()?;
        let tsid = c.read_u16()?;
        let sid = c.read_u16()?;
        let eid = c.read_u16()?;
        let drops = c.read_i64()?;
        let scrambles = c.read_i64()?;
        let rec_status = c.read_i32()?;
        let start_time_epg = c.read_system_time()?;
        let comment = c.read_string()?;
        let program_info = c.read_string()?;
        let err_info = c.read_string()?;
        let protect_flag = c.read_u8()? != 0;
        Ok(RecFileInfo {
            id,
            rec_file_path,
            title,
            start_time,
            duration_sec,
            service_name,
            onid,
            tsid,
            sid,
            eid,
            drops,
            scrambles,
            rec_status,
            start_time_epg,
            comment,
            program_info,
            err_info,
            protect_flag,
        })
    }
}

/// Reads the fields of a `TunerReserveInfo` from a struct body.
#[verifier::opaque]
pub open spec fn p_tuner_reserve_info_body(b0: Seq<u8>) -> Option<TunerReserveInfoModel> {
    match p_u32(b0) {
        None => None,
        Some((tuner_id_raw, b1)) => match p_string(b1) {
            None => None,
            Some((tuner_name_raw, b2)) => match p_vector::<i32>(b2) {
                None => None,
                Some((reserve_list_raw, b3)) => Some(TunerReserveInfoModel {
                    tuner_id: tuner_id_raw,
                    tuner_name: tuner_name_raw,
                    reserve_list: reserve_list_raw,
                }),
            },
        },
    }
}

impl WireRead for TunerReserveInfo {
    open spec fn parse(s: Seq<u8>) -> Option<(TunerReserveInfoModel, Seq<u8>)> {
        match p_frame(s) {
            None => None,
            Some((body, rest)) => match p_tuner_reserve_info_body(body) {
                None => None,
                Some(m) => Some((m, rest)),
            },
        }
    }

    fn read_from(r: &mut Reader<'_>) -> (res: Result<TunerReserveInfo, EdcbError>) {
        reveal(p_tuner_reserve_info_body);
        let mut c = r.read_struct()?;
        let tuner_id = c.read_u32()?;
        let tuner_name = c.read_string()?;
        let reserve_list = c.read_vector::<i32>()?;
        Ok(TunerReserveInfo {
            tuner_id,
            tuner_name,
            reserve_list,
        })
    }
}

/// Reads the fields of a `TunerProcessStatusInfo` from a struct body.
#[verifier::opaque]
pub open spec fn p_tuner_process_status_info_body(b0: Seq<u8>) -> Option<TunerProcessStatusInfoModel> {
    match p_u32(b0) {
        None => None,
        Some((tuner_id_raw, b1)) => match p_i32(b1) {
            None => None,
            Some((process_id_raw, b2)) => match p_i64(b2) {
                None => None,
                Some((drop_raw, b3)) => match p_i64(b3) {
                    None => None,
                    Some((scramble_raw, b4)) => match p_u32(b4) {
                        None => None,
                        Some((signal_lv_bits_raw, b5)) => match p_i32(b5) {
                            None => None,
                            Some((space_raw, b6)) => match p_i32(b6) {
                                None => None,
                                Some((ch_raw, b7)) => match p_i32(b7) {
                                    None => None,
                                    Some((onid_raw, b8)) => match p_i32(b8) {
                                        None => None,
                                        Some((tsid_raw, b9)) => match p_u8(b9) {
                                            None => None,
                                            Some((rec_flag_raw, b10)) => match p_u8(b10) {
                                                None => None,
                                                Some((epg_cap_flag_raw, b11)) => match p_u16(b11) {
                                                    None => None,
                                                    Some((extra_flags_raw, b12)) => Some(TunerProcessStatusInfoModel {
                                                        tuner_id: tuner_id_raw,
                                                        process_id: process_id_raw,
                                                        drop: drop_raw,
                                                        scramble: scramble_raw,
                                                        signal_lv_bits: signal_lv_bits_raw,
                                                        space: space_raw,
                                                        ch: ch_raw,
                                                        onid: onid_raw,
                                                        tsid: tsid_raw,
                                                        rec_flag: rec_flag_raw != 0,
                                                        epg_cap_flag: epg_cap_flag_raw != 0,
                                                        extra_flags: extra_flags_raw,
                                                    }),
                                                },
                                            },
                                        },
                                    },
                                },
                            },
                        },
                    },
                },
            },
        },
    }
}

impl WireRead for TunerProcessStatusInfo {
    open spec fn parse(s: Seq<u8>) -> Option<(TunerProcessStatusInfoModel, Seq<u8>)> {
        match p_frame(s) {
            None => None,
            Some((body, rest)) => match p_tuner_process_status_info_body(body) {
                None => None,
                Some(m) => Some((m, rest)),
            },
        }
    }

    fn read_from(r: &mut Reader<'_>) -> (res: Result<TunerProcessStatusInfo, EdcbError>) {
        reveal(p_tuner_process_status_info_body);
        let mut c = r.read_struct()?;
        let tuner_id = c.read_u32()?;
        let process_id = c.read_i32()?;
        let drop = c.read_i64()?;
        let scramble = c.read_i64()?;
        let signal_lv_bits = c.read_u32()?;
        let space = c.read_i32()?;
        let ch = c.read_i32()?;
        let onid = c.read_i32()?;
        let tsid = c.read_i32()?;
        let rec_flag = c.read_u8()? != 0;
        let epg_cap_flag = c.read_u8()? != 0;
        let extra_flags = c.read_u16()?;
        Ok(TunerProcessStatusInfo {
            tuner_id,
            process_id,
            drop,
            scramble,
            signal_lv_bits,
            space,
            ch,
            onid,
            tsid,
            rec_flag,
            epg_cap_flag,
            extra_flags,
        })
    }
}

/// Reads the fields of a `ShortEventInfo` from a struct body.
#[verifier::opaque]
pub open spec fn p_short_event_info_body(b0: Seq<u8>) -> Option<ShortEventInfoModel> {
    match p_string(b0) {
        None => None,
        Some((event_name_raw, b1)) => match p_string(b1) {
            None => None,
            Some((text_char_raw, b2)) => Some(ShortEventInfoModel {
                event_name: event_name_raw,
                text_char: text_char_raw,
            }),
        },
    }
}

impl WireRead for ShortEventInfo {
    open spec fn parse(s: Seq<u8>) -> Option<(ShortEventInfoModel, Seq<u8>)> {
        match p_frame(s) {
            None => None,
            Some((body, rest)) => match p_short_event_info_body(body) {
                None => None,
                Some(m) => Some((m, rest)),
            },
        }
    }

    fn read_from(r: &mut Reader<'_>) -> (res: Result<ShortEventInfo, EdcbError>) {
        reveal(p_short_event_info_body);
        let mut c = r.read_struct()?;
        let event_name = c.read_string()?;
        let text_char = c.read_string()?;
        Ok(ShortEventInfo {
            event_name,
            text_char,
        })
    }
}

/// The struct body of a `ShortEventInfo`.
#[verifier::opaque]
pub open spec fn s_short_event_info_body(m: ShortEventInfoModel) -> Seq<u8> {
    s_string(m.event_name)
        + s_string(m.text_char)
}

impl WireWrite for ShortEventInfo {
    open spec fn wire(m: ShortEventInfoModel) -> Seq<u8> {
        s_frame(s_short_event_info_body(m))
    }

    open spec fn writable(m: ShortEventInfoModel) -> bool {
        true
    }

    proof fn lemma_wire_nonempty(m: ShortEventInfoModel) {
    }

    fn write_to(&self, w: &mut Writer) {
        let ghost prefix = w@;
        let ghost m = self.deep_view();
        reveal(s_short_event_info_body);
        let pos = w.begin_struct();
        let ghost pre = w@;
        let ghost l0 = s_string(m.event_name);
        let ghost l1 = l0 + s_string(m.text_char);
        w.write_string(self.event_name.as_str());
        assert(w@ =~= pre + l0);
        w.write_string(self.text_char.as_str());
        assert(w@ =~= pre + l1);
        w.end_struct(pos, Ghost(prefix), Ghost(s_short_event_info_body(m)));
    }
}

impl WireRoundtrip for ShortEventInfo {
    open spec fn canonical(m: ShortEventInfoModel) -> bool {
        true
    }

    #[verifier::spinoff_prover]
    #[verifier::rlimit(80)]
    proof fn lemma_roundtrip(m: ShortEventInfoModel, rest: Seq<u8>) {
        reveal(s_short_event_info_body);
        reveal(p_short_event_info_body);
        let body = s_short_event_info_body(m);
        let l0 = s_string(m.event_name);
        let l1 = l0 + s_string(m.text_char);
        let t2 = Seq::<u8>::empty();
        let t1 = s_string(m.text_char) + t2;
        let t0 = s_string(m.event_name) + t1;
        assert(l1 + t2 =~= l1);
        lemma_concat_associative(l0, s_string(m.text_char), t2);
        assert(body == t0);
        lemma_string_roundtrip(m.event_name, t1);
        lemma_string_roundtrip(m.text_char, t2);
        lemma_frame_roundtrip(body, rest);
    }
}

/// Reads the fields of a `ExtendedEventInfo` from a struct body.
#[verifier::opaque]
pub open spec fn p_extended_event_info_body(b0: Seq<u8>) -> Option<ExtendedEventInfoModel> {
    match p_string(b0) {
        None => None,
        Some((text_char_raw, b1)) => Some(ExtendedEventInfoModel {
            text_char: text_char_raw,
        }),
    }
}

impl WireRead for ExtendedEventInfo {
    open spec fn parse(s: Seq<u8>) -> Option<(ExtendedEventInfoModel, Seq<u8>)> {
        match p_frame(s) {
            None => None,
            Some((body, rest)) => match p_extended_event_info_body(body) {
                None => None,
                Some(m) => Some((m, rest)),
            },
        }
    }

    fn read_from(r: &mut Reader<'_>) -> (res: Result<ExtendedEventInfo, EdcbError>) {
        reveal(p_extended_event_info_body);
        let mut c = r.read_struct()?;
        let text_char = c.read_string()?;
        Ok(ExtendedEventInfo {
            text_char,
        })
    }
}

/// Reads the fields of a `ContentData` from a struct body.
#[verifier::opaque]
pub open spec fn p_content_data_body(b0: Seq<u8>) -> Option<ContentDataModel> {
    match p_u16(b0) {
        None => None,
        Some((content_nibble_raw, b1)) => match p_u16(b1) {
            None => None,
            Some((user_nibble_raw, b2)) => Some(ContentDataModel {
                content_nibble: swap16(content_nibble_raw),
                user_nibble: swap16(user_nibble_raw),
            }),
        },
    }
}

impl WireRead for ContentData {
    open spec fn parse(s: Seq<u8>) -> Option<(ContentDataModel, Seq<u8>)> {
        match p_frame(s) {
            None => None,
            Some((body, rest)) => match p_content_data_body(body) {
                None => None,
                Some(m) => Some((m, rest)),
            },
        }
    }

    fn read_from(r: &mut Reader<'_>) -> (res: Result<ContentData, EdcbError>) {
        reveal(p_content_data_body);
        let mut c = r.read_struct()?;
        let content_nibble = swap_bytes16(c.read_u16()?);
        let user_nibble = swap_bytes16(c.read_u16()?);
        Ok(ContentData {
            content_nibble,
            user_nibble,
        })
    }
}

/// The struct body of a `ContentData`.
#[verifier::opaque]
pub open spec fn s_content_data_body(m: ContentDataModel) -> Seq<u8> {
    le16(swap16(m.content_nibble))
        + le16(swap16(m.user_nibble))
}

impl WireWrite for ContentData {
    open spec fn wire(m: ContentDataModel) -> Seq<u8> {
        s_frame(s_content_data_body(m))
    }

    open spec fn writable(m: ContentDataModel) -> bool {
        true
    }

    proof fn lemma_wire_nonempty(m: ContentDataModel) {
    }

    fn write_to(&self, w: &mut Writer) {
        let ghost prefix = w@;
        let ghost m = self.deep_view();
        reveal(s_content_data_body);
        let pos = w.begin_struct();
        let ghost pre = w@;
        let ghost l0 = le16(swap16(m.content_nibble));
        let ghost l1 = l0 + le16(swap16(m.user_nibble));
        w.write_u16(swap_bytes16(self.content_nibble));
        assert(w@ =~= pre + l0);
        w.write_u16(swap_bytes16(self.user_nibble));
        assert(w@ =~= pre + l1);
        w.end_struct(pos, Ghost(prefix), Ghost(s_content_data_body(m)));
    }
}

impl WireRoundtrip for ContentData {
    open spec fn canonical(m: ContentDataModel) -> bool {
        true
    }

    #[verifier::spinoff_prover]
    #[verifier::rlimit(80)]
    proof fn lemma_roundtrip(m: ContentDataModel, rest: Seq<u8>) {
        reveal(s_content_data_body);
        reveal(p_content_data_body);
        let body = s_content_data_body(m);
        let l0 = le16(swap16(m.content_nibble));
        let l1 = l0 + le16(swap16(m.user_nibble));
        let t2 = Seq::<u8>::empty();
        let t1 = le16(swap16(m.user_nibble)) + t2;
        let t0 = le16(swap16(m.content_nibble)) + t1;
        assert(l1 + t2 =~= l1);
        lemma_concat_associative(l0, le16(swap16(m.user_nibble)), t2);
        assert(body == t0);
        <u16 as WireRoundtrip>::lemma_roundtrip(swap16(m.content_nibble), t1); lemma_swap16(m.content_nibble);
        <u16 as WireRoundtrip>::lemma_roundtrip(swap16(m.user_nibble), t2); lemma_swap16(m.user_nibble);
        lemma_frame_roundtrip(body, rest);
    }
}

/// Reads the fields of a `ContentInfo` from a struct body.
#[verifier::opaque]
pub open spec fn p_content_info_body(b0: Seq<u8>) -> Option<ContentInfoModel> {
    match p_vector::<ContentData>(b0) {
        None => None,
        Some((nibble_list_raw, b1)) => Some(ContentInfoModel {
            nibble_list: nibble_list_raw,
        }),
    }
}

impl WireRead for ContentInfo {
    open spec fn parse(s: Seq<u8>) -> Option<(ContentInfoModel, Seq<u8>)> {
        match p_frame(s) {
            None => None,
            Some((body, rest)) => match p_content_info_body(body) {
                None => None,
                Some(m) => Some((m, rest)),
            },
        }
    }

    fn read_from(r: &mut Reader<'_>) -> (res: Result<ContentInfo, EdcbError>) {
        reveal(p_content_info_body);
        let mut c = r.read_struct()?;
        let nibble_list = c.read_vector::<ContentData>()?;
        Ok(ContentInfo {
            nibble_list,
        })
    }
}

/// Reads the fields of a `ComponentInfo` from a struct body.
#[verifier::opaque]
pub open spec fn p_component_info_body(b0: Seq<u8>) -> Option<ComponentInfoModel> {
    match p_u8(b0) {
        None => None,
        Some((stream_content_raw, b1)) => match p_u8(b1) {
            None => None,
            Some((component_type_raw, b2)) => match p_u8(b2) {
                None => None,
                Some((component_tag_raw, b3)) => match p_string(b3) {
                    None => None,
                    Some((text_char_raw, b4)) => Some(ComponentInfoModel {
                        stream_content: stream_content_raw,
                        component_type: component_type_raw,
                        component_tag: component_tag_raw,
                        text_char: text_char_raw,
                    }),
                },
            },
        },
    }
}

impl WireRead for ComponentInfo {
    open spec fn parse(s: Seq<u8>) -> Option<(ComponentInfoModel, Seq<u8>)> {
        match p_frame(s) {
            None => None,
            Some((body, rest)) => match p_component_info_body(body) {
                None => None,
                Some(m) => Some((m, rest)),
            },
        }
    }

    fn read_from(r: &mut Reader<'_>) -> (res: Result<ComponentInfo, EdcbError>) {
        reveal(p_component_info_body);
        let mut c = r.read_struct()?;
        let stream_content = c.read_u8()?;
        let component_type = c.read_u8()?;
        let component_tag = c.read_u8()?;
        let text_char = c.read_string()?;
        Ok(ComponentInfo {
            stream_content,
            component_type,
            component_tag,
            text_char,
        })
    }
}

/// Reads the fields of a `AudioComponentInfoData` from a struct body.
#[verifier::opaque]
pub open spec fn p_audio_component_info_data_body(b0: Seq<u8>) -> Option<AudioComponentInfoDataModel> {
    match p_u8(b0) {
        None => None,
        Some((stream_content_raw, b1)) => match p_u8(b1) {
            None => None,
            Some((component_type_raw, b2)) => match p_u8(b2) {
                None => None,
                Some((component_tag_raw, b3)) => match p_u8(b3) {
                    None => None,
                    Some((stream_type_raw, b4)) => match p_u8(b4) {
                        None => None,
                        Some((simulcast_group_tag_raw, b5)) => match p_u8(b5) {
                            None => None,
                            Some((es_multi_lingual_flag_raw, b6)) => match p_u8(b6) {
                                None => None,
                                Some((main_component_flag_raw, b7)) => match p_u8(b7) {
                                    None => None,
                                    Some((quality_indicator_raw, b8)) => match p_u8(b8) {
                                        None => None,
                                        Some((sampling_rate_raw, b9)) => match p_string(b9) {
                                            None => None,
                                            Some((text_char_raw, b10)) => Some(AudioComponentInfoDataModel {
                                                stream_content: stream_content_raw,
                                                component_type: component_type_raw,
                                                component_tag: component_tag_raw,
                                                stream_type: stream_type_raw,
                                                simulcast_group_tag: simulcast_group_tag_raw,
                                                es_multi_lingual_flag: es_multi_lingual_flag_raw,
                                                main_component_flag: main_component_flag_raw,
                                                quality_indicator: quality_indicator_raw,
                                                sampling_rate: sampling_rate_raw,
                                                text_char: text_char_raw,
                                            }),
                                        },
                                    },
                                },
                            },
                        },
                    },
                },
            },
        },
    }
}

impl WireRead for AudioComponentInfoData {
    open spec fn parse(s: Seq<u8>) -> Option<(AudioComponentInfoDataModel, Seq<u8>)> {
        match p_frame(s) {
            None => None,
            Some((body, rest)) => match p_audio_component_info_data_body(body) {
                None => None,
                Some(m) => Some((m, rest)),
            },
        }
    }

    fn read_from(r: &mut Reader<'_>) -> (res: Result<AudioComponentInfoData, EdcbError>) {
        reveal(p_audio_component_info_data_body);
        let mut c = r.read_struct()?;
        let stream_content = c.read_u8()?;
        let component_type = c.read_u8()?;
        let component_tag = c.read_u8()?;
        let stream_type = c.read_u8()?;
        let simulcast_group_tag = c.read_u8()?;
        let es_multi_lingual_flag = c.read_u8()?;
        let main_component_flag = c.read_u8()?;
        let quality_indicator = c.read_u8()?;
        let sampling_rate = c.read_u8()?;
        let text_char = c.read_string()?;
        Ok(AudioComponentInfoData {
            stream_content,
            component_type,
            component_tag,
            stream_type,
            simulcast_group_tag,
            es_multi_lingual_flag,
            main_component_flag,
            quality_indicator,
            sampling_rate,
            text_char,
        })
    }
}

/// Reads the fields of a `AudioComponentInfo` from a struct body.
#[verifier::opaque]
pub open spec fn p_audio_component_info_body(b0: Seq<u8>) -> Option<AudioComponentInfoModel> {
    match p_vector::<AudioComponentInfoData>(b0) {
        None => None,
        Some((component_list_raw, b1)) => Some(AudioComponentInfoModel {
            component_list: component_list_raw,
        }),
    }
}

impl WireRead for AudioComponentInfo {
    open spec fn parse(s: Seq<u8>) -> Option<(AudioComponentInfoModel, Seq<u8>)> {
        match p_frame(s) {
            None => None,
            Some((body, rest)) => match p_audio_component_info_body(body) {
                None => None,
                Some(m) => Some((m, rest)),
            },
        }
    }

    fn read_from(r: &mut Reader<'_>) -> (res: Result<AudioComponentInfo, EdcbError>) {
        reveal(p_audio_component_info_body);
        let mut c = r.read_struct()?;
        let component_list = c.read_vector::<AudioComponentInfoData>()?;
        Ok(AudioComponentInfo {
            component_list,
        })
    }
}

/// Reads the fields of a `EventData` from a struct body.
#[verifier::opaque]
pub open spec fn p_event_data_body(b0: Seq<u8>) -> Option<EventDataModel> {
    match p_u16(b0) {
        None => None,
        Some((onid_raw, b1)) => match p_u16(b1) {
            None => None,
            Some((tsid_raw, b2)) => match p_u16(b2) {
                None => None,
                Some((sid_raw, b3)) => match p_u16(b3) {
                    None => None,
                    Some((eid_raw, b4)) => Some(EventDataModel {
                        onid: onid_raw,
                        tsid: tsid_raw,
                        sid: sid_raw,
                        eid: eid_raw,
                    }),
                },
            },
        },
    }
}

impl WireRead for EventData {
    open spec fn parse(s: Seq<u8>) -> Option<(EventDataModel, Seq<u8>)> {
        match p_frame(s) {
            None => None,
            Some((body, rest)) => match p_event_data_body(body) {
                None => None,
                Some(m) => Some((m, rest)),
            },
        }
    }

    fn read_from(r: &mut Reader<'_>) -> (res: Result<EventData, EdcbError>) {
        reveal(p_event_data_body);
        let mut c = r.read_struct()?;
        let onid = c.read_u16()?;
        let tsid = c.read_u16()?;
        let sid = c.read_u16()?;
        let eid = c.read_u16()?;
        Ok(EventData {
            onid,
            tsid,
            sid,
            eid,
        })
    }
}

/// Reads the fields of a `EventGroupInfo` from a struct body.
#[verifier::opaque]
pub open spec fn p_event_group_info_body(b0: Seq<u8>) -> Option<EventGroupInfoModel> {
    match p_u8(b0) {
        None => None,
        Some((group_type_raw, b1)) => match p_vector::<EventData>(b1) {
            None => None,
            Some((event_data_list_raw, b2)) => Some(EventGroupInfoModel {
                group_type: group_type_raw,
                event_data_list: event_data_list_raw,
            }),
        },
    }
}

impl WireRead for EventGroupInfo {
    open spec fn parse(s: Seq<u8>) -> Option<(EventGroupInfoModel, Seq<u8>)> {
        match p_frame(s) {
            None => None,
            Some((body, rest)) => match p_event_group_info_body(body) {
                None => None,
                Some(m) => Some((m, rest)),
            },
        }
    }

    fn read_from(r: &mut Reader<'_>) -> (res: Result<EventGroupInfo, EdcbError>) {
        reveal(p_event_group_info_body);
        let mut c = r.read_struct()?;
        let group_type = c.read_u8()?;
        let event_data_list = c.read_vector::<EventData>()?;
        Ok(EventGroupInfo {
            group_type,
            event_data_list,
        })
    }
}

/// Reads the fields of a `EventInfo` from a struct body.
#[verifier::opaque]
pub open spec fn p_event_info_body(b0: Seq<u8>) -> Option<EventInfoModel> {
    match p_u16(b0) {
        None => None,
        Some((onid_raw, b1)) => match p_u16(b1) {
            None => None,
            Some((tsid_raw, b2)) => match p_u16(b2) {
                None => None,
                Some((sid_raw, b3)) => match p_u16(b3) {
                    None => None,
                    Some((eid_raw, b4)) => match p_u8(b4) {
                        None => None,
                        Some((start_time_flag_raw, b5)) => match p_system_time(b5) {
                            None => None,
                            Some((start_time_raw, b6)) => match p_u8(b6) {
                                None => None,
                                Some((duration_sec_flag_raw, b7)) => match p_i32(b7) {
                                    None => None,
                                    Some((duration_sec_raw, b8)) => match p_optional::<ShortEventInfo>(b8) {
                                        None => None,
                                        Some((short_info_raw, b9)) => match p_optional::<ExtendedEventInfo>(b9) {
                                            None => None,
                                            Some((ext_info_raw, b10)) => match p_optional::<ContentInfo>(b10) {
                                                None => None,
                                                Some((content_info_raw, b11)) => match p_optional::<ComponentInfo>(b11) {
                                                    None => None,
                                                    Some((component_info_raw, b12)) => match p_optional::<AudioComponentInfo>(b12) {
                                                        None => None,
                                                        Some((audio_info_raw, b13)) => match p_optional::<EventGroupInfo>(b13) {
                                                            None => None,
                                                            Some((event_group_info_raw, b14)) => match p_optional::<EventGroupInfo>(b14) {
                                                                None => None,
                                                                Some((event_relay_info_raw, b15)) => match p_u8(b15) {
                                                                    None => None,
                                                                    Some((free_ca_flag_raw, b16)) => Some(EventInfoModel {
                                                                        onid: onid_raw,
                                                                        tsid: tsid_raw,
                                                                        sid: sid_raw,
                                                                        eid: eid_raw,
                                                                        start_time: if start_time_flag_raw != 0 { Some(start_time_raw) } else { None },
                                                                        duration_sec: if duration_sec_flag_raw != 0 { Some(duration_sec_raw) } else { None },
                                                                        short_info: short_info_raw,
                                                                        ext_info: ext_info_raw,
                                                                        content_info: content_info_raw,
                                                                        component_info: component_info_raw,
                                                                        audio_info: audio_info_raw,
                                                                        event_group_info: event_group_info_raw,
                                                                        event_relay_info: event_relay_info_raw,
                                                                        free_ca_flag: free_ca_flag_raw,
                                                                    }),
                                                                },
                                                            },
                                                        },
                                                    },
                                                },
                                            },
                                        },
                                    },
                                },
                            },
                        },
                    },
                },
            },
        },
    }
}

impl WireRead for EventInfo {
    open spec fn parse(s: Seq<u8>) -> Option<(EventInfoModel, Seq<u8>)> {
        match p_frame(s) {
            None => None,
            Some((body, rest)) => match p_event_info_body(body) {
                None => None,
                Some(m) => Some((m, rest)),
            },
        }
    }

    fn read_from(r: &mut Reader<'_>) -> (res: Result<EventInfo, EdcbError>) {
        reveal(p_event_info_body);
        let mut c = r.read_struct()?;
        let onid = c.read_u16()?;
        let tsid = c.read_u16()?;
        let sid = c.read_u16()?;
        let eid = c.read_u16()?;
        let start_time_flag = c.read_u8()? != 0;
        let start_time_value = c.read_system_time()?;
        let start_time = if start_time_flag { Some(start_time_value) } else { None };
        let duration_sec_flag = c.read_u8()? != 0;
        let duration_sec_value = c.read_i32()?;
        let duration_sec = if duration_sec_flag { Some(duration_sec_value) } else { None };
        let short_info = read_optional_struct::<ShortEventInfo>(&mut c)?;
        let ext_info = read_optional_struct::<ExtendedEventInfo>(&mut c)?;
        let content_info = read_optional_struct::<ContentInfo>(&mut c)?;
        let component_info = read_optional_struct::<ComponentInfo>(&mut c)?;
        let audio_info = read_optional_struct::<AudioComponentInfo>(&mut c)?;
        let event_group_info = read_optional_struct::<EventGroupInfo>(&mut c)?;
        let event_relay_info = read_optional_struct::<EventGroupInfo>(&mut c)?;
        let free_ca_flag = c.read_u8()?;
        Ok(EventInfo {
            onid,
            tsid,
            sid,
            eid,
            start_time,
            duration_sec,
            short_info,
            ext_info,
            content_info,
            component_info,
            audio_info,
            event_group_info,
            event_relay_info,
            free_ca_flag,
        })
    }
}

/// Reads the fields of a `ServiceEventInfo` from a struct body.
#[verifier::opaque]
pub open spec fn p_service_event_info_body(b0: Seq<u8>) -> Option<ServiceEventInfoModel> {
    match <ServiceInfo as WireRead>::parse(b0) {
        None => None,
        Some((service_info_raw, b1)) => match p_vector::<EventInfo>(b1) {
            None => None,
            Some((event_list_raw, b2)) => Some(ServiceEventInfoModel {
                service_info: service_info_raw,
                event_list: event_list_raw,
            }),
        },
    }
}

impl WireRead for ServiceEventInfo {
    open spec fn parse(s: Seq<u8>) -> Option<(ServiceEventInfoModel, Seq<u8>)> {
        match p_frame(s) {
            None => None,
            Some((body, rest)) => match p_service_event_info_body(body) {
                None => None,
                Some(m) => Some((m, rest)),
            },
        }
    }

    fn read_from(r: &mut Reader<'_>) -> (res: Result<ServiceEventInfo, EdcbError>) {
        reveal(p_service_event_info_body);
        let mut c = r.read_struct()?;
        let service_info = ServiceInfo::read_from(&mut c)?;
        let event_list = c.read_vector::<EventInfo>()?;
        Ok(ServiceEventInfo {
            service_info,
            event_list,
        })
    }
}

/// Reads the fields of a `SearchDateInfo` from a struct body.
#[verifier::opaque]
pub open spec fn p_search_date_info_body(b0: Seq<u8>) -> Option<SearchDateInfoModel> {
    match p_u8(b0) {
        None => None,
        Some((start_day_of_week_raw, b1)) => match p_u16(b1) {
            None => None,
            Some((start_hour_raw, b2)) => match p_u16(b2) {
                None => None,
                Some((start_min_raw, b3)) => match p_u8(b3) {
                    None => None,
                    Some((end_day_of_week_raw, b4)) => match p_u16(b4) {
                        None => None,
                        Some((end_hour_raw, b5)) => match p_u16(b5) {
                            None => None,
                            Some((end_min_raw, b6)) => Some(SearchDateInfoModel {
                                start_day_of_week: start_day_of_week_raw,
                                start_hour: start_hour_raw,
                                start_min: start_min_raw,
                                end_day_of_week: end_day_of_week_raw,
                                end_hour: end_hour_raw,
                                end_min: end_min_raw,
                            }),
                        },
                    },
                },
            },
        },
    }
}

impl WireRead for SearchDateInfo {
    open spec fn parse(s: Seq<u8>) -> Option<(SearchDateInfoModel, Seq<u8>)> {
        match p_frame(s) {
            None => None,
            Some((body, rest)) => match p_search_date_info_body(body) {
                None => None,
                Some(m) => Some((m, rest)),
            },
        }
    }

    fn read_from(r: &mut Reader<'_>) -> (res: Result<SearchDateInfo, EdcbError>) {
        reveal(p_search_date_info_body);
        let mut c = r.read_struct()?;
        let start_day_of_week = c.read_u8()?;
        let start_hour = c.read_u16()?;
        let start_min = c.read_u16()?;
        let end_day_of_week = c.read_u8()?;
        let end_hour = c.read_u16()?;
        let end_min = c.read_u16()?;
        Ok(SearchDateInfo {
            start_day_of_week,
            start_hour,
            start_min,
            end_day_of_week,
            end_hour,
            end_min,
        })
    }
}

/// The struct body of a `SearchDateInfo`.
#[verifier::opaque]
pub open spec fn s_search_date_info_body(m: SearchDateInfoModel) -> Seq<u8> {
    seq![m.start_day_of_week]
        + le16(m.start_hour)
        + le16(m.start_min)
        + seq![m.end_day_of_week]
        + le16(m.end_hour)
        + le16(m.end_min)
}

impl WireWrite for SearchDateInfo {
    open spec fn wire(m: SearchDateInfoModel) -> Seq<u8> {
        s_frame(s_search_date_info_body(m))
    }

    open spec fn writable(m: SearchDateInfoModel) -> bool {
        true
    }

    proof fn lemma_wire_nonempty(m: SearchDateInfoModel) {
    }

    fn write_to(&self, w: &mut Writer) {
        let ghost prefix = w@;
        let ghost m = self.deep_view();
        reveal(s_search_date_info_body);
        let pos = w.begin_struct();
        let ghost pre = w@;
        let ghost l0 = seq![m.start_day_of_week];
        let ghost l1 = l0 + le16(m.start_hour);
        let ghost l2 = l1 + le16(m.start_min);
        let ghost l3 = l2 + seq![m.end_day_of_week];
        let ghost l4 = l3 + le16(m.end_hour);
        let ghost l5 = l4 + le16(m.end_min);
        w.write_u8(self.start_day_of_week);
        assert(w@ =~= pre + l0);
        w.write_u16(self.start_hour);
        assert(w@ =~= pre + l1);
        w.write_u16(self.start_min);
        assert(w@ =~= pre + l2);
        w.write_u8(self.end_day_of_week);
        assert(w@ =~= pre + l3);
        w.write_u16(self.end_hour);
        assert(w@ =~= pre + l4);
        w.write_u16(self.end_min);
        assert(w@ =~= pre + l5);
        w.end_struct(pos, Ghost(prefix), Ghost(s_search_date_info_body(m)));
    }
}

impl WireRoundtrip for SearchDateInfo {
    open spec fn canonical(m: SearchDateInfoModel) -> bool {
        true
    }

    #[verifier::spinoff_prover]
    #[verifier::rlimit(80)]
    proof fn lemma_roundtrip(m: SearchDateInfoModel, rest: Seq<u8>) {
        reveal(s_search_date_info_body);
        reveal(p_search_date_info_body);
        let body = s_search_date_info_body(m);
        let l0 = seq![m.start_day_of_week];
        let l1 = l0 + le16(m.start_hour);
        let l2 = l1 + le16(m.start_min);
        let l3 = l2 + seq![m.end_day_of_week];
        let l4 = l3 + le16(m.end_hour);
        let l5 = l4 + le16(m.end_min);
        let t6 = Seq::<u8>::empty();
        let t5 = le16(m.end_min) + t6;
        let t4 = le16(m.end_hour) + t5;
        let t3 = seq![m.end_day_of_week] + t4;
        let t2 = le16(m.start_min) + t3;
        let t1 = le16(m.start_hour) + t2;
        let t0 = seq![m.start_day_of_week] + t1;
        assert(l5 + t6 =~= l5);
        lemma_concat_associative(l4, le16(m.end_min), t6);
        lemma_concat_associative(l3, le16(m.end_hour), t5);
        lemma_concat_associative(l2, seq![m.end_day_of_week], t4);
        lemma_concat_associative(l1, le16(m.start_min), t3);
        lemma_concat_associative(l0, le16(m.start_hour), t2);
        assert(body == t0);
        lemma_u8_roundtrip(m.start_day_of_week, t1);
        <u16 as WireRoundtrip>::lemma_roundtrip(m.start_hour, t2);
        <u16 as WireRoundtrip>::lemma_roundtrip(m.start_min, t3);
        lemma_u8_roundtrip(m.end_day_of_week, t4);
        <u16 as WireRoundtrip>::lemma_roundtrip(m.end_hour, t5);
        <u16 as WireRoundtrip>::lemma_roundtrip(m.end_min, t6);
        lemma_frame_roundtrip(body, rest);
    }
}

/// Reads the fields of a `AutoAddData` from a struct body.
#[verifier::opaque]
pub open spec fn p_auto_add_data_body(b0: Seq<u8>) -> Option<AutoAddDataModel> {
    match p_i32(b0) {
        None => None,
        Some((data_id_raw, b1)) => match <SearchKeyInfo as WireRead>::parse(b1) {
            None => None,
            Some((search_info_raw, b2)) => match <RecSettingData as WireRead>::parse(b2) {
                None => None,
                Some((rec_setting_raw, b3)) => match p_i32(b3) {
                    None => None,
                    Some((add_count_raw, b4)) => Some(AutoAddDataModel {
                        data_id: data_id_raw,
                        search_info: search_info_raw,
                        rec_setting: rec_setting_raw,
                        add_count: add_count_raw,
                    }),
                },
            },
        },
    }
}

impl WireRead for AutoAddData {
    open spec fn parse(s: Seq<u8>) -> Option<(AutoAddDataModel, Seq<u8>)> {
        match p_frame(s) {
            None => None,
            Some((body, rest)) => match p_auto_add_data_body(body) {
                None => None,
                Some(m) => Some((m, rest)),
            },
        }
    }

    fn read_from(r: &mut Reader<'_>) -> (res: Result<AutoAddData, EdcbError>) {
        reveal(p_auto_add_data_body);
        let mut c = r.read_struct()?;
        let data_id = c.read_i32()?;
        let search_info = SearchKeyInfo::read_from(&mut c)?;
        let rec_setting = RecSettingData::read_from(&mut c)?;
        let add_count = c.read_i32()?;
        Ok(AutoAddData {
            data_id,
            search_info,
            rec_setting,
            add_count,
        })
    }
}

/// Reads the fields of a `ManualAutoAddData` from a struct body.
#[verifier::opaque]
pub open spec fn p_manual_auto_add_data_body(b0: Seq<u8>) -> Option<ManualAutoAddDataModel> {
    match p_i32(b0) {
        None => None,
        Some((data_id_raw, b1)) => match p_u8(b1) {
            None => None,
            Some((day_of_week_flag_raw, b2)) => match p_u32(b2) {
                None => None,
                Some((start_time_raw, b3)) => match p_u32(b3) {
                    None => None,
                    Some((duration_second_raw, b4)) => match p_string(b4) {
                        None => None,
                        Some((title_raw, b5)) => match p_string(b5) {
                            None => None,
                            Some((station_name_raw, b6)) => match p_u16(b6) {
                                None => None,
                                Some((onid_raw, b7)) => match p_u16(b7) {
                                    None => None,
                                    Some((tsid_raw, b8)) => match p_u16(b8) {
                                        None => None,
                                        Some((sid_raw, b9)) => match <RecSettingData as WireRead>::parse(b9) {
                                            None => None,
                                            Some((rec_setting_raw, b10)) => Some(ManualAutoAddDataModel {
                                                data_id: data_id_raw,
                                                day_of_week_flag: day_of_week_flag_raw,
                                                start_time: start_time_raw,
                                                duration_second: duration_second_raw,
                                                title: title_raw,
                                                station_name: station_name_raw,
                                                onid: onid_raw,
                                                tsid: tsid_raw,
                                                sid: sid_raw,
                                                rec_setting: rec_setting_raw,
                                            }),
                                        },
                                    },
                                },
                            },
                        },
                    },
                },
            },
        },
    }
}

impl WireRead for ManualAutoAddData {
    open spec fn parse(s: Seq<u8>) -> Option<(ManualAutoAddDataModel, Seq<u8>)> {
        match p_frame(s) {
            None => None,
            Some((body, rest)) => match p_manual_auto_add_data_body(body) {
                None => None,
                Some(m) => Some((m, rest)),
            },
        }
    }

    fn read_from(r: &mut Reader<'_>) -> (res: Result<ManualAutoAddData, EdcbError>) {
        reveal(p_manual_auto_add_data_body);
        let mut c = r.read_struct()?;
        let data_id = c.read_i32()?;
        let day_of_week_flag = c.read_u8()?;
        let start_time = c.read_u32()?;
        let duration_second = c.read_u32()?;
        let title = c.read_string()?;
        let station_name = c.read_string()?;
        let onid = c.read_u16()?;
        let tsid = c.read_u16()?;
        let sid = c.read_u16()?;
        let rec_setting = RecSettingData::read_from(&mut c)?;
        Ok(ManualAutoAddData {
            data_id,
            day_of_week_flag,
            start_time,
            duration_second,
            title,
            station_name,
            onid,
            tsid,
            sid,
            rec_setting,
        })
    }
}

/// Reads the fields of a `NwPlayTimeShiftInfo` from a struct body.
#[verifier::opaque]
pub open spec fn p_nw_play_time_shift_info_body(b0: Seq<u8>) -> Option<NwPlayTimeShiftInfoModel> {
    match p_i32(b0) {
        None => None,
        Some((ctrl_id_raw, b1)) => match p_string(b1) {
            None => None,
            Some((file_path_raw, b2)) => Some(NwPlayTimeShiftInfoModel {
                ctrl_id: ctrl_id_raw,
                file_path: file_path_raw,
            }),
        },
    }
}

impl WireRead for NwPlayTimeShiftInfo {
    open spec fn parse(s: Seq<u8>) -> Option<(NwPlayTimeShiftInfoModel, Seq<u8>)> {
        match p_frame(s) {
            None => None,
            Some((body, rest)) => match p_nw_play_time_shift_info_body(body) {
                None => None,
                Some(m) => Some((m, rest)),
            },
        }
    }

    fn read_from(r: &mut Reader<'_>) -> (res: Result<NwPlayTimeShiftInfo, EdcbError>) {
        reveal(p_nw_play_time_shift_info_body);
        let mut c = r.read_struct()?;
        let ctrl_id = c.read_i32()?;
        let file_path = c.read_string()?;
        Ok(NwPlayTimeShiftInfo {
            ctrl_id,
            file_path,
        })
    }
}

/// Reads the fields of a `NotifySrvInfo` from a struct body.
#[verifier::opaque]
pub open spec fn p_notify_srv_info_body(b0: Seq<u8>) -> Option<NotifySrvInfoModel> {
    match p_u32(b0) {
        None => None,
        Some((notify_id_raw, b1)) => match p_system_time(b1) {
            None => None,
            Some((time_raw, b2)) => match p_u32(b2) {
                None => None,
                Some((param1_raw, b3)) => match p_u32(b3) {
                    None => None,
                    Some((param2_raw, b4)) => match p_u32(b4) {
                        None => None,
                        Some((count_raw, b5)) => match p_string(b5) {
                            None => None,
                            Some((param4_raw, b6)) => match p_string(b6) {
                                None => None,
                                Some((param5_raw, b7)) => match p_string(b7) {
                                    None => None,
                                    Some((param6_raw, b8)) => Some(NotifySrvInfoModel {
                                        notify_id: notify_id_raw,
                                        time: time_raw,
                                        param1: param1_raw,
                                        param2: param2_raw,
                                        count: count_raw,
                                        param4: param4_raw,
                                        param5: param5_raw,
                                        param6: param6_raw,
                                    }),
                                },
                            },
                        },
                    },
                },
            },
        },
    }
}

impl WireRead for NotifySrvInfo {
    open spec fn parse(s: Seq<u8>) -> Option<(NotifySrvInfoModel, Seq<u8>)> {
        match p_frame(s) {
            None => None,
            Some((body, rest)) => match p_notify_srv_info_body(body) {
                None => None,
                Some(m) => Some((m, rest)),
            },
        }
    }

    fn read_from(r: &mut Reader<'_>) -> (res: Result<NotifySrvInfo, EdcbError>) {
        reveal(p_notify_srv_info_body);
        let mut c = r.read_struct()?;
        let notify_id = c.read_u32()?;
        let time = c.read_system_time()?;
        let param1 = c.read_u32()?;
        let param2 = c.read_u32()?;
        let count = c.read_u32()?;
        let param4 = c.read_string()?;
        let param5 = c.read_string()?;
        let param6 = c.read_string()?;
        Ok(NotifySrvInfo {
            notify_id,
            time,
            param1,
            param2,
            count,
            param4,
            param5,
            param6,
        })
    }
}

/// A file fetched from the EDCB server.
#[derive(Debug, Clone, PartialEq, Eq)]
pub struct FileData {
    pub name: String,
    pub data: Vec<u8>,
}

/// What a `FileData` holds, with the name as characters.
pub struct FileDataModel {
    pub name: Seq<char>,
    pub data: Seq<u8>,
}

impl DeepView for FileData {
    type V = FileDataModel;

    open spec fn deep_view(&self) -> FileDataModel {
        FileDataModel { name: self.name@, data: self.data@ }
    }
}

/// Reads the fields of a `FileData` from a struct body: the name, the data size, a reserved
/// `i32`, then that many bytes.
#[verifier::opaque]
pub open spec fn p_file_data_body(b0: Seq<u8>) -> Option<FileDataModel> {
    match p_string(b0) {
        None => None,
        Some((name, b1)) => match p_i32(b1) {
            None => None,
            Some((size, b2)) => match p_i32(b2) {
                None => None,
                Some((_, b3)) => if size < 0 || b3.len() < size {
                    None
                } else {
                    Some(FileDataModel { name, data: b3.take(size as int) })
                },
            },
        },
    }
}

impl WireRead for FileData {
    open spec fn parse(s: Seq<u8>) -> Option<(FileDataModel, Seq<u8>)> {
        match p_frame(s) {
            None => None,
            Some((body, rest)) => match p_file_data_body(body) {
                None => None,
                Some(m) => Some((m, rest)),
            },
        }
    }

    fn read_from(r: &mut Reader<'_>) -> (res: Result<FileData, EdcbError>) {
        reveal(p_file_data_body);
        let mut c = r.read_struct()?;
        let name = c.read_string()?;
        let data_size = c.read_i32()?;
        c.read_i32()?;
        if data_size < 0 {
            return Err(decode_error("negative file data size"));
        }
        let data = c.read_bytes(data_size as usize)?;
        Ok(FileData { name, data })
    }
}

} // verus!

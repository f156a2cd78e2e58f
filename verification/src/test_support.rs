use vstd::prelude::*;

use crate::codec::{elems_wire, vector_wire, WireWrite};
use crate::datetime::{s_system_time, DateTime, JST_OFFSET_SECONDS};
use crate::search_key::SearchKeyInfo;
use crate::types::{
    EventInfo, EventInfoModel, RecSettingData, ReserveData, ReserveDataModel, ServiceInfo,
    ServiceInfoModel, ShortEventInfo,
};
use crate::utf16::lemma_utf16_len_bound;
use crate::wire::{le16, lei32, s_frame, s_string, s_vector, Writer};

verus! {

/// A JST date and time of 2026-06-29 at `hour` o'clock.
pub open spec fn fixture_time(hour: int) -> DateTime {
    DateTime::jst(2026, 6, 29, hour, 0, 0)
}

fn fixture_time_exec(hour: u32) -> (t: DateTime)
    requires
        hour < 24,
    ensures
        t == fixture_time(hour as int),
        t.wf(),
{
    DateTime {
        year: 2026,
        month: 6,
        day: 29,
        hour,
        minute: 0,
        second: 0,
        nanosecond: 0,
        offset_seconds: JST_OFFSET_SECONDS,
    }
}

/// The service of the fixtures: ids 1, 2, 3, named "Test Service".
pub open spec fn fixture_service() -> ServiceInfoModel {
    ServiceInfoModel {
        onid: 1,
        tsid: 2,
        sid: 3,
        service_type: 1,
        partial_reception_flag: 0,
        service_provider_name: "Provider"@,
        service_name: "Test Service"@,
        network_name: "Network"@,
        ts_name: "TS"@,
        remote_control_key_id: 7,
    }
}

fn fixture_service_exec() -> (s: ServiceInfo)
    ensures
        s.deep_view() == fixture_service(),
{
    ServiceInfo {
        onid: 1,
        tsid: 2,
        sid: 3,
        service_type: 1,
        partial_reception_flag: 0,
        service_provider_name: "Provider".to_string(),
        service_name: "Test Service".to_string(),
        network_name: "Network".to_string(),
        ts_name: "TS".to_string(),
        remote_control_key_id: 7,
    }
}

/// The body of an event as the test encoder writes it: start time, duration and short
/// information present, the other parts empty.
pub open spec fn s_test_event_body(m: EventInfoModel) -> Seq<u8> {
    le16(m.onid) + le16(m.tsid) + le16(m.sid) + le16(m.eid) + seq![1u8] + s_system_time(
        m.start_time->0,
    ) + seq![1u8] + lei32(m.duration_sec->0) + s_frame(
        s_string(m.short_info->0.event_name) + s_string(m.short_info->0.text_char),
    ) + lei32(4) + lei32(4) + lei32(4) + lei32(4) + lei32(4) + lei32(4) + seq![m.free_ca_flag]
}

/// An event the test encoder can write: it has a start time that exists, a duration and
/// short information.
pub open spec fn test_event_writable(m: EventInfoModel) -> bool {
    m.start_time is Some && m.start_time->0.wf() && m.duration_sec is Some && m.short_info is Some
}

/// An event, written the way the test encoder writes it.
pub struct TestEvent<'a>(pub &'a EventInfo);

impl<'a> DeepView for TestEvent<'a> {
    type V = EventInfoModel;

    open spec fn deep_view(&self) -> EventInfoModel {
        self.0.deep_view()
    }
}

impl<'a> WireWrite for TestEvent<'a> {
    open spec fn wire(m: EventInfoModel) -> Seq<u8> {
        s_frame(s_test_event_body(m))
    }

    open spec fn writable(m: EventInfoModel) -> bool {
        test_event_writable(m)
    }

    proof fn lemma_wire_nonempty(m: EventInfoModel) {
    }

    #[verifier::rlimit(60)]
    fn write_to(&self, w: &mut Writer) {
        let ghost prefix = w@;
        let ghost m = self.deep_view();
        let e = self.0;
        let start = match &e.start_time {
            Some(t) => t,
            None => {
                return;
            },
        };
        let duration = match e.duration_sec {
            Some(d) => d,
            None => {
                return;
            },
        };
        let info = match &e.short_info {
            Some(si) => si,
            None => {
                return;
            },
        };
        let pos = w.begin_struct();
        let ghost pre = w@;
        w.write_u16(e.onid);
        w.write_u16(e.tsid);
        w.write_u16(e.sid);
        w.write_u16(e.eid);
        w.write_u8(1);
        w.write_system_time(start);
        w.write_u8(1);
        w.write_i32(duration);
        let ghost before_info = w@;
        let ghost info_body = s_string(info.event_name@) + s_string(info.text_char@);
        assert(s_test_event_body(m).len() >= info_body.len());
        let pos2 = w.begin_struct();
        w.write_string(info.event_name.as_str());
        w.write_string(info.text_char.as_str());
        assert(w@ =~= before_info + lei32(0) + info_body);
        w.end_struct(pos2, Ghost(before_info), Ghost(info_body));
        w.write_i32(4);
        w.write_i32(4);
        w.write_i32(4);
        w.write_i32(4);
        w.write_i32(4);
        w.write_i32(4);
        w.write_u8(e.free_ca_flag);
        assert(w@ =~= prefix + lei32(0) + s_test_event_body(m));
        w.end_struct(pos, Ghost(prefix), Ghost(s_test_event_body(m)));
    }
}


/// The event of the fixtures: program 4 of service 1, 2, 3, "Test Program", from 10 o'clock
/// JST on 2026-06-29 for an hour.
pub open spec fn fixture_event() -> EventInfoModel {
    EventInfoModel {
        onid: 1,
        tsid: 2,
        sid: 3,
        eid: 4,
        start_time: Some(fixture_time(10)),
        duration_sec: Some(3600),
        short_info: Some(
            crate::types::ShortEventInfoModel {
                event_name: "Test Program"@,
                text_char: "Description"@,
            },
        ),
        ext_info: None,
        content_info: None,
        component_info: None,
        audio_info: None,
        event_group_info: None,
        event_relay_info: None,
        free_ca_flag: 0,
    }
}

/// The fixture service and its program.
pub fn service_event_fixture_for_test() -> (r: (ServiceInfo, EventInfo))
    ensures
        r.0.deep_view() == fixture_service(),
        r.1.deep_view() == fixture_event(),
{
    let service = fixture_service_exec();
    let event = EventInfo {
        onid: 1,
        tsid: 2,
        sid: 3,
        eid: 4,
        start_time: Some(fixture_time_exec(10)),
        duration_sec: Some(3600),
        short_info: Some(
            ShortEventInfo {
                event_name: "Test Program".to_string(),
                text_char: "Description".to_string(),
            },
        ),
        ext_info: None,
        content_info: None,
        component_info: None,
        audio_info: None,
        event_group_info: None,
        event_relay_info: None,
        free_ca_flag: 0,
    };
    (service, event)
}

/// The default reservation of the fixtures: "Default Reservation" of program 40 of service
/// 10, 20, 30 from 9 o'clock JST on 2026-06-29 for half an hour, with id 123 and one file.
pub open spec fn fixture_reserve() -> ReserveDataModel {
    ReserveDataModel {
        title: "Default Reserve"@,
        start_time: fixture_time(9),
        duration_second: 1800,
        station_name: "Default Station"@,
        onid: 10,
        tsid: 20,
        sid: 30,
        eid: 40,
        comment: "default comment"@,
        reserve_id: 123,
        overlap_mode: 1,
        start_time_epg: fixture_time(9),
        rec_setting: crate::types::RecSettingDataModel {
            rec_mode: 1,
            priority: 3,
            tuijyuu_flag: true,
            service_mode: 0,
            pittari_flag: false,
            bat_file_path: Seq::empty(),
            rec_folder_list: Seq::empty(),
            suspend_mode: 0,
            reboot_flag: false,
            start_margin: None,
            end_margin: None,
            continue_rec_flag: false,
            partial_rec_flag: 0,
            tuner_id: 0,
            partial_rec_folder: Seq::empty(),
        },
        rec_file_name_list: seq!["existing.ts"@],
    }
}

/// The default reservation of the fixtures.
pub fn reserve_fixture_for_test() -> (r: ReserveData)
    ensures
        r.deep_view() == fixture_reserve(),
        r.start_time.wf(),
        r.start_time_epg.wf(),
{
    let mut names: Vec<String> = Vec::new();
    names.push("existing.ts".to_string());
    let r = ReserveData {
        title: "Default Reserve".to_string(),
        start_time: fixture_time_exec(9),
        duration_second: 1800,
        station_name: "Default Station".to_string(),
        onid: 10,
        tsid: 20,
        sid: 30,
        eid: 40,
        comment: "default comment".to_string(),
        reserve_id: 123,
        overlap_mode: 1,
        start_time_epg: fixture_time_exec(9),
        rec_setting: RecSettingData {
            rec_mode: 1,
            priority: 3,
            tuijyuu_flag: true,
            service_mode: 0,
            pittari_flag: false,
            bat_file_path: String::new(),
            rec_folder_list: Vec::new(),
            suspend_mode: 0,
            reboot_flag: false,
            start_margin: None,
            end_margin: None,
            continue_rec_flag: false,
            partial_rec_flag: 0,
            tuner_id: 0,
            partial_rec_folder: Vec::new(),
        },
        rec_file_name_list: names,
    };
    assert(r.rec_setting.rec_folder_list.deep_view() =~= Seq::<crate::types::RecFileSetInfoModel>::empty());
    assert(r.rec_setting.partial_rec_folder.deep_view() =~= Seq::<crate::types::RecFileSetInfoModel>::empty());
    assert(r.rec_file_name_list.deep_view() =~= seq!["existing.ts"@]);
    r
}

/// A list of services in the wire form of a response.
pub fn encode_services_for_test(services: &[ServiceInfo]) -> (r: Vec<u8>)
    requires
        vector_wire::<ServiceInfo>(services.deep_view()).len() <= i32::MAX,
    ensures
        r@ == vector_wire::<ServiceInfo>(services.deep_view()),
{
    let mut w = Writer::new();
    w.write_vector(services);
    w.into_inner()
}

proof fn lemma_fixture_service_wire_len()
    ensures
        vector_wire::<ServiceInfo>(seq![fixture_service()]).len() <= 1000,
{
    reveal(vector_wire);
    reveal(s_string);
    reveal(crate::records::s_service_info_body);
    reveal_strlit("Provider");
    reveal_strlit("Test Service");
    reveal_strlit("Network");
    reveal_strlit("TS");
    let m = fixture_service();
    lemma_utf16_len_bound(m.service_provider_name);
    lemma_utf16_len_bound(m.service_name);
    lemma_utf16_len_bound(m.network_name);
    lemma_utf16_len_bound(m.ts_name);
    assert(seq![m].drop_last() =~= Seq::<ServiceInfoModel>::empty());
    assert(elems_wire::<ServiceInfo>(seq![m].drop_last()) =~= Seq::<u8>::empty());
    assert(elems_wire::<ServiceInfo>(seq![m]) =~= Seq::<u8>::empty() + <ServiceInfo as WireWrite>::wire(m));
}

/// The fixture service as a one-item list in the wire form of a response.
pub fn encode_service_list_for_test() -> (r: Vec<u8>)
    ensures
        r@ == vector_wire::<ServiceInfo>(seq![fixture_service()]),
{
    let service = fixture_service_exec();
    let mut list: Vec<ServiceInfo> = Vec::new();
    list.push(service);
    assert(list.deep_view() =~= seq![fixture_service()]);
    proof {
        lemma_fixture_service_wire_len();
    }
    encode_services_for_test(list.as_slice())
}

/// A reservation in the wire form of a versioned response.
pub fn encode_reserve_for_test(reserve: &ReserveData) -> (r: Vec<u8>)
    requires
        <ReserveData as WireWrite>::writable(reserve.deep_view()),
        <ReserveData as WireWrite>::wire(reserve.deep_view()).len() <= i32::MAX,
    ensures
        r@ == le16(5) + <ReserveData as WireWrite>::wire(reserve.deep_view()),
{
    let mut w = Writer::new();
    w.write_u16(5);
    reserve.write_to(&mut w);
    w.into_inner()
}

/// A list of reservations in the wire form of a versioned response.
pub fn encode_reserve_list_for_test(reserves: &[ReserveData]) -> (r: Vec<u8>)
    requires
        forall|i: int| 0 <= i < reserves@.len() ==> <ReserveData as WireWrite>::writable(#[trigger] reserves.deep_view()[i]),
        vector_wire::<ReserveData>(reserves.deep_view()).len() <= i32::MAX,
    ensures
        r@ == le16(5) + vector_wire::<ReserveData>(reserves.deep_view()),
{
    let mut w = Writer::new();
    w.write_u16(5);
    w.write_vector(reserves);
    w.into_inner()
}

/// A list of search conditions in wire form.
pub fn encode_search_keys_for_test(keys: &[SearchKeyInfo]) -> (r: Vec<u8>)
    requires
        vector_wire::<SearchKeyInfo>(keys.deep_view()).len() <= i32::MAX,
    ensures
        r@ == vector_wire::<SearchKeyInfo>(keys.deep_view()),
{
    let mut w = Writer::new();
    w.write_vector(keys);
    w.into_inner()
}

/// A list of one event in wire form, as the test encoder writes events.
pub fn encode_event_list_for_test(event: &EventInfo) -> (r: Vec<u8>)
    requires
        test_event_writable(event.deep_view()),
        vector_wire::<TestEvent>(seq![event.deep_view()]).len() <= i32::MAX,
    ensures
        r@ == vector_wire::<TestEvent>(seq![event.deep_view()]),
{
    let mut list: Vec<TestEvent> = Vec::new();
    list.push(TestEvent(event));
    assert(list.deep_view() =~= seq![event.deep_view()]);
    let mut w = Writer::new();
    w.write_vector(list.as_slice());
    w.into_inner()
}

/// A service and its events, written the way the test encoder writes them.
pub struct TestServiceEvents<'a>(pub &'a ServiceInfo, pub Vec<TestEvent<'a>>);

impl<'a> DeepView for TestServiceEvents<'a> {
    type V = (ServiceInfoModel, Seq<EventInfoModel>);

    open spec fn deep_view(&self) -> (ServiceInfoModel, Seq<EventInfoModel>) {
        (self.0.deep_view(), self.1.deep_view())
    }
}

impl<'a> WireWrite for TestServiceEvents<'a> {
    open spec fn wire(m: (ServiceInfoModel, Seq<EventInfoModel>)) -> Seq<u8> {
        s_frame(<ServiceInfo as WireWrite>::wire(m.0) + vector_wire::<TestEvent>(m.1))
    }

    open spec fn writable(m: (ServiceInfoModel, Seq<EventInfoModel>)) -> bool {
        forall|i: int| 0 <= i < m.1.len() ==> test_event_writable(#[trigger] m.1[i])
    }

    proof fn lemma_wire_nonempty(m: (ServiceInfoModel, Seq<EventInfoModel>)) {
    }

    fn write_to(&self, w: &mut Writer) {
        let ghost prefix = w@;
        let ghost m = self.deep_view();
        let ghost body = <ServiceInfo as WireWrite>::wire(m.0) + vector_wire::<TestEvent>(m.1);
        let pos = w.begin_struct();
        self.0.write_to(w);
        w.write_vector(self.1.as_slice());
        assert(w@ =~= prefix + lei32(0) + body);
        w.end_struct(pos, Ghost(prefix), Ghost(body));
    }
}

/// The models of a list of services with their events.
pub open spec fn service_events_view(v: Seq<(ServiceInfo, Vec<EventInfo>)>) -> Seq<(ServiceInfoModel, Seq<EventInfoModel>)> {
    Seq::new(v.len(), |i: int| (v[i].0.deep_view(), v[i].1.deep_view()))
}

fn test_events_of<'a>(events: &'a Vec<EventInfo>) -> (r: Vec<TestEvent<'a>>)
    ensures
        r.deep_view() == events.deep_view(),
{
    let mut r: Vec<TestEvent<'a>> = Vec::new();
    for i in 0..events.len()
        invariant
            r@.len() == i,
            forall|j: int| 0 <= j < i ==> (#[trigger] r@[j]).deep_view() == events@[j].deep_view(),
    {
        r.push(TestEvent(&events[i]));
    }
    assert(r.deep_view() =~= events.deep_view());
    r
}

/// Services with their events in the wire form of a program lookup's response.
pub fn encode_service_event_lists_for_test(service_events: &[(ServiceInfo, Vec<EventInfo>)]) -> (r: Vec<u8>)
    requires
        forall|i: int| #![trigger service_events@[i]]
            0 <= i < service_events@.len() ==> <TestServiceEvents as WireWrite>::writable(
                service_events_view(service_events@)[i],
            ),
        vector_wire::<TestServiceEvents>(service_events_view(service_events@)).len() <= i32::MAX,
    ensures
        r@ == vector_wire::<TestServiceEvents>(service_events_view(service_events@)),
{
    let mut list: Vec<TestServiceEvents> = Vec::new();
    for i in 0..service_events.len()
        invariant
            list@.len() == i,
            forall|j: int| 0 <= j < i ==> (#[trigger] list@[j]).deep_view() == service_events_view(
                service_events@,
            )[j],
    {
        let (service, events) = &service_events[i];
        list.push(TestServiceEvents(service, test_events_of(events)));
    }
    assert(list.deep_view() =~= service_events_view(service_events@));
    let mut w = Writer::new();
    w.write_vector(list.as_slice());
    w.into_inner()
}

/// A service with one event in the wire form of a program lookup's response.
pub fn encode_service_event_list_for_test(service: &ServiceInfo, event: &EventInfo) -> (r: Vec<u8>)
    requires
        test_event_writable(event.deep_view()),
        vector_wire::<TestServiceEvents>(seq![(service.deep_view(), seq![event.deep_view()])]).len()
            <= i32::MAX,
    ensures
        r@ == vector_wire::<TestServiceEvents>(seq![(service.deep_view(), seq![event.deep_view()])]),
{
    let mut events: Vec<TestEvent> = Vec::new();
    events.push(TestEvent(event));
    assert(events.deep_view() =~= seq![event.deep_view()]);
    let mut list: Vec<TestServiceEvents> = Vec::new();
    list.push(TestServiceEvents(service, events));
    assert(list.deep_view() =~= seq![(service.deep_view(), seq![event.deep_view()])]);
    let mut w = Writer::new();
    w.write_vector(list.as_slice());
    w.into_inner()
}

} // verus!

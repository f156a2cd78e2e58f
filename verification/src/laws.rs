use vstd::prelude::*;

use crate::client::{
    matches_query, matching_events, matching_programs, p_versioned, request_frame,
    CMD_EPG_SRV_DEL_RESERVE,
};
use crate::codec::{
    lemma_frame_roundtrip, lemma_string_roundtrip, lemma_u32_roundtrip, lemma_u8_roundtrip, lemma_vector_roundtrip,
    vector_wire, WireRead, WireRoundtrip, WireWrite,
};
use crate::records::{margin_flag, margin_or_zero, p_rec_setting_data_body, s_rec_setting_data_body};
use crate::types::{RecFileSetInfo, RecSettingData, RecSettingDataModel};
use vstd::seq_lib::lemma_concat_associative;
use crate::flows::{command_request, first_pending, reply_step, sendable_reserve, OutputModel, PendingModel, StepModel};
use crate::cli::{
    arguments_after_name, cli_outcome, scan_from, scan_start, scan_step, ArgScanModel, CliCommandModel,
    CliOutcome, Scanned,
};
use crate::mcp::{config_from_args, config_from_env, server_config_outcome, ServerConfigModel};
use crate::keys::{event_key_of, field_u16, service_key_of, EventKey, ProgramSearchQueryModel, ServiceKey};
use crate::search_key::{
    case_sensitive_marker, decode_and_key, duration_code, encode_and_key, has_duration_marker,
    has_prefix, key_disabled_marker, p_search_key_info_body, pad8, s_search_key_info_body,
    split_duration_marker, strip_all, SearchKeyInfoModel,
};
use crate::types::{ContentData, SearchDateInfo};
use crate::wire::{le16, le32, lei32, lemma_lei32, p_i32, p_u16, s_string};
use crate::text::pow10;
use crate::types::{EventInfoModel, ReserveData, ServiceEventInfoModel, ServiceInfoModel};
use crate::plain::key_text;
use crate::text::{
    all_digits, decimal, digit_char, digits_value, find_char, is_digit, lemma_find_char,
    parse_unsigned_spec, split_on, unsigned_body,
};

verus! {

proof fn lemma_decimal(n: nat)
    ensures
        decimal(n).len() >= 1,
        all_digits(decimal(n)),
        digits_value(decimal(n)) == n,
    decreases n,
{
    if n >= 10 {
        lemma_decimal(n / 10);
        let d = decimal(n / 10);
        assert(decimal(n) == d.push(digit_char(n % 10)));
        assert(decimal(n).drop_last() =~= d);
        assert(decimal(n).last() == digit_char(n % 10));
        assert((digit_char(n % 10) as u32) == 48 + n % 10);
        assert(n == (n / 10) * 10 + n % 10);
        assert(digits_value(decimal(n)) == digits_value(d) * 10 + ((digit_char(n % 10) as u32) - ('0' as u32)) as nat);
        assert forall|i: int| 0 <= i < decimal(n).len() implies is_digit(#[trigger] decimal(n)[i]) by {
            if i < d.len() {
                assert(decimal(n)[i] == d[i]);
            }
        }
    } else {
        assert(decimal(n).drop_last() =~= Seq::<char>::empty());
        assert((digit_char(n) as u32) == 48 + n);
        assert(digits_value(decimal(n)) == digits_value(Seq::<char>::empty()) * 10 + ((digit_char(n) as u32) - ('0' as u32)) as nat);
    }
}

proof fn lemma_parse_decimal(n: nat, max: nat)
    requires
        n <= max,
    ensures
        parse_unsigned_spec(decimal(n), max) == Some(n),
{
    lemma_decimal(n);
    assert(is_digit(decimal(n)[0]));
    assert(unsigned_body(decimal(n)) == decimal(n));
}

proof fn lemma_no_colon(n: nat)
    ensures
        find_char(decimal(n), ':') is None,
{
    lemma_decimal(n);
    let d = decimal(n);
    lemma_find_char(d, ':');
    if find_char(d, ':') is Some {
        let i = find_char(d, ':')->0;
        assert(is_digit(d[i]));
    }
}

proof fn lemma_find_char_after(a: Seq<char>, b: Seq<char>, c: char)
    requires
        find_char(a, c) is None,
    ensures
        find_char(a + b, c) == match find_char(b, c) {
            Some(i) => Some(i + a.len()),
            None => None,
        },
    decreases a.len(),
{
    if a.len() == 0 {
        assert(a + b =~= b);
    } else {
        assert((a + b).drop_first() =~= a.drop_first() + b);
        assert((a + b)[0] == a[0]);
        lemma_find_char_after(a.drop_first(), b, c);
    }
}

proof fn lemma_split_field(a: Seq<char>, rest: Seq<char>)
    requires
        find_char(a, ':') is None,
    ensures
        split_on(a + seq![':'] + rest, ':') == seq![a] + split_on(rest, ':'),
{
    let s = a + seq![':'] + rest;
    assert(s =~= a + (seq![':'] + rest));
    lemma_find_char_after(a, seq![':'] + rest, ':');
    assert(find_char(seq![':'] + rest, ':') == Some(0int));
    assert(s.take(a.len() as int) =~= a);
    assert(s.skip(a.len() as int + 1) =~= rest);
}

proof fn lemma_split_last(a: Seq<char>)
    requires
        find_char(a, ':') is None,
    ensures
        split_on(a, ':') == seq![a],
{
}

/// A program's key printed as `onid:tsid:sid:eid`, as program search prints it, reads back as
/// the same key, so it can be handed to a reservation command.
pub proof fn law_event_key_text_reads_back(k: EventKey)
    ensures
        event_key_of(key_text(k.service.onid, k.service.tsid, k.service.sid, k.eid)) == Some(k),
{
    let a = decimal(k.service.onid as nat);
    let b = decimal(k.service.tsid as nat);
    let c = decimal(k.service.sid as nat);
    let d = decimal(k.eid as nat);
    lemma_no_colon(k.service.onid as nat);
    lemma_no_colon(k.service.tsid as nat);
    lemma_no_colon(k.service.sid as nat);
    lemma_no_colon(k.eid as nat);
    let t = key_text(k.service.onid, k.service.tsid, k.service.sid, k.eid);
    let r3 = d;
    let r2 = c + seq![':'] + r3;
    let r1 = b + seq![':'] + r2;
    assert(t =~= a + seq![':'] + r1);
    lemma_split_field(a, r1);
    lemma_split_field(b, r2);
    lemma_split_field(c, r3);
    lemma_split_last(d);
    assert(split_on(t, ':') =~= seq![a, b, c, d]);
    lemma_parse_decimal(k.service.onid as nat, 65535);
    lemma_parse_decimal(k.service.tsid as nat, 65535);
    lemma_parse_decimal(k.service.sid as nat, 65535);
    lemma_parse_decimal(k.eid as nat, 65535);
    assert(field_u16(a) == Some(k.service.onid));
    assert(field_u16(b) == Some(k.service.tsid));
    assert(field_u16(c) == Some(k.service.sid));
    assert(field_u16(d) == Some(k.eid));
}

/// A service's key written as `onid:tsid:sid` in decimal reads back as the same key.
pub proof fn law_service_key_text_reads_back(k: ServiceKey)
    ensures
        service_key_of(
            decimal(k.onid as nat) + seq![':'] + decimal(k.tsid as nat) + seq![':'] + decimal(
                k.sid as nat,
            ),
        ) == Some(k),
{
    let a = decimal(k.onid as nat);
    let b = decimal(k.tsid as nat);
    let c = decimal(k.sid as nat);
    lemma_no_colon(k.onid as nat);
    lemma_no_colon(k.tsid as nat);
    lemma_no_colon(k.sid as nat);
    let t = a + seq![':'] + b + seq![':'] + c;
    let r1 = b + seq![':'] + c;
    assert(t =~= a + seq![':'] + r1);
    lemma_split_field(a, r1);
    lemma_split_field(b, c);
    lemma_split_last(c);
    assert(split_on(t, ':') =~= seq![a, b, c]);
    lemma_parse_decimal(k.onid as nat, 65535);
    lemma_parse_decimal(k.tsid as nat, 65535);
    lemma_parse_decimal(k.sid as nat, 65535);
    assert(field_u16(a) == Some(k.onid));
    assert(field_u16(b) == Some(k.tsid));
    assert(field_u16(c) == Some(k.sid));
}


/// Creating a reservation sends exactly the reservation that a preview of the same program
/// with the same default settings shows, and reports it back once EDCB accepted it.
pub proof fn law_create_sends_the_preview(
    s: ServiceInfoModel,
    e: EventInfoModel,
    default_reply: Seq<u8>,
    add_reply: Seq<u8>,
)
    ensures
        reply_step(PendingModel::DefaultReserve(s, e, false), default_reply) matches StepModel::Done(
            OutputModel::Reservation(r),
        ) ==> (sendable_reserve(r) ==> reply_step(PendingModel::DefaultReserve(s, e, true), default_reply)
            == StepModel::Send(PendingModel::AddReserve(r), command_request(PendingModel::AddReserve(r)))
            && reply_step(PendingModel::AddReserve(r), add_reply) == StepModel::Done(OutputModel::Reservation(r))),
{
}

/// A preview looks up the program and the default settings and never asks EDCB to change
/// anything: its requests are a program lookup and a read of the default reservation.
pub proof fn law_preview_sends_no_mutation(
    k: EventKey,
    s: ServiceInfoModel,
    e: EventInfoModel,
    lookup_reply: Seq<u8>,
    default_reply: Seq<u8>,
)
    ensures
        first_pending(CliCommandModel::ReservePreview(k)) == PendingModel::EventLookup(k, false),
        reply_step(PendingModel::EventLookup(k, false), lookup_reply) matches StepModel::Send(p, _)
            ==> p matches PendingModel::DefaultReserve(_, _, false),
        !(reply_step(PendingModel::DefaultReserve(s, e, false), default_reply) is Send),
{
}

/// Deleting a reservation first reads it, then deletes that id, and reports what it read.
pub proof fn law_delete_returns_what_it_read(id: i32, read_reply: Seq<u8>, delete_reply: Seq<u8>)
    ensures
        first_pending(CliCommandModel::ReserveDelete(id)) == PendingModel::DeleteLookup(id),
        match p_versioned::<ReserveData>(read_reply) {
            Some(r) => reply_step(PendingModel::DeleteLookup(id), read_reply) == StepModel::Send(
                PendingModel::DeleteReserve(id, r),
                request_frame(CMD_EPG_SRV_DEL_RESERVE, vector_wire::<i32>(seq![id])),
            ) && reply_step(PendingModel::DeleteReserve(id, r), delete_reply) == StepModel::Done(
                OutputModel::Reservation(r),
            ),
            None => reply_step(PendingModel::DeleteLookup(id), read_reply) is Failed,
        },
{
}

proof fn lemma_matching_events_match(es: Seq<EventInfoModel>, q: ProgramSearchQueryModel)
    ensures
        forall|i: int| 0 <= i < matching_events(es, q).len() ==> matches_query(#[trigger] matching_events(es, q)[i], q),
    decreases es.len(),
{
    if es.len() > 0 {
        lemma_matching_events_match(es.drop_last(), q);
        let a = matching_events(es.drop_last(), q);
        let b = if matches_query(es.last(), q) { seq![es.last()] } else { Seq::<EventInfoModel>::empty() };
        assert(matching_events(es, q) == a + b);
        assert forall|i: int| 0 <= i < (a + b).len() implies matches_query(#[trigger] (a + b)[i], q) by {
            if i < a.len() {
                assert((a + b)[i] == a[i]);
            } else {
                assert((a + b)[i] == b[i - a.len()]);
            }
        }
    }
}

/// Every program that a search returns matches the search.
pub proof fn law_search_results_match(ss: Seq<ServiceEventInfoModel>, q: ProgramSearchQueryModel)
    ensures
        forall|i: int| 0 <= i < matching_programs(ss, q).len() ==> matches_query(#[trigger] matching_programs(ss, q)[i], q),
    decreases ss.len(),
{
    if ss.len() > 0 {
        law_search_results_match(ss.drop_last(), q);
        lemma_matching_events_match(ss.last().event_list, q);
        let a = matching_programs(ss.drop_last(), q);
        let b = matching_events(ss.last().event_list, q);
        assert forall|i: int| 0 <= i < (a + b).len() implies matches_query(#[trigger] (a + b)[i], q) by {
            if i < a.len() {
                assert((a + b)[i] == a[i]);
            } else {
                assert((a + b)[i] == b[i - a.len()]);
            }
        }
    }
}

/// The programs of the services, service by service, in the order EDCB listed them.
pub open spec fn all_programs(ss: Seq<ServiceEventInfoModel>) -> Seq<EventInfoModel>
    decreases ss.len(),
{
    if ss.len() == 0 {
        Seq::empty()
    } else {
        all_programs(ss.drop_last()) + ss.last().event_list
    }
}

proof fn lemma_empty_keyword_events(es: Seq<EventInfoModel>, q: ProgramSearchQueryModel)
    requires
        q.keyword.len() == 0,
    ensures
        matching_events(es, q) == es,
    decreases es.len(),
{
    if es.len() > 0 {
        lemma_empty_keyword_events(es.drop_last(), q);
        assert(es.drop_last() + seq![es.last()] =~= es);
    } else {
        assert(matching_events(es, q) =~= es);
    }
}

/// A search with an empty keyword returns every program of the lookup.
pub proof fn law_empty_keyword_returns_everything(ss: Seq<ServiceEventInfoModel>, q: ProgramSearchQueryModel)
    requires
        q.keyword.len() == 0,
    ensures
        matching_programs(ss, q) == all_programs(ss),
    decreases ss.len(),
{
    if ss.len() > 0 {
        law_empty_keyword_returns_everything(ss.drop_last(), q);
        lemma_empty_keyword_events(ss.last().event_list, q);
    }
}


/// Options on the command line win over the environment: a command line that gives the
/// host, the port and the timeout asks for the same thing whatever the environment holds.
pub proof fn law_options_win_over_environment(
    args: Seq<Seq<char>>,
    env1: Seq<(Seq<char>, Seq<char>)>,
    env2: Seq<(Seq<char>, Seq<char>)>,
)
    requires
        scan_from(arguments_after_name(args), 0, scan_start()) matches Scanned::Finished(st) && st.host is Some
            && st.port is Some && st.timeout is Some,
    ensures
        cli_outcome(args, env1) == cli_outcome(args, env2),
{
}


proof fn lemma_yes_comes_from_the_flag(toks: Seq<Seq<char>>, i: int, st: ArgScanModel)
    requires
        i >= 0,
    ensures
        scan_from(toks, i, st) matches Scanned::Finished(s) ==> (s.yes ==> st.yes || exists|j: int|
            i <= j < toks.len() && toks[j] == "--yes"@),
    decreases toks.len() - i,
{
    if i < toks.len() {
        if let Scanned::Next(s2, n) = scan_step(toks, i, st) {
            if s2.yes && !st.yes {
                assert(toks[i] == "--yes"@);
            }
            if n >= 1 {
                lemma_yes_comes_from_the_flag(toks, i + n, s2);
            }
        }
    }
}

/// A command line that creates or deletes a reservation runs only where it holds `--yes`.
pub proof fn law_mutations_need_confirmation(args: Seq<Seq<char>>, env: Seq<(Seq<char>, Seq<char>)>)
    ensures
        match cli_outcome(args, env) {
            CliOutcome::Run(inv) => (inv.command is ReserveCreate || inv.command is ReserveDelete)
                ==> args.contains("--yes"@),
            _ => true,
        },
{
    let toks = arguments_after_name(args);
    lemma_yes_comes_from_the_flag(toks, 0, scan_start());
    if let CliOutcome::Run(inv) = cli_outcome(args, env) {
        if inv.command is ReserveCreate || inv.command is ReserveDelete {
            let j = choose|j: int| 0 <= j < toks.len() && toks[j] == "--yes"@;
            assert(args[j + 1] == "--yes"@);
        }
    }
}

/// Which of host, port and timeout the options from `args[i]` on give, each option a name
/// and its value.
pub open spec fn options_given(args: Seq<Seq<char>>, i: int) -> (bool, bool, bool)
    decreases args.len() - i,
{
    if i < 0 || i + 1 >= args.len() {
        (false, false, false)
    } else {
        let g = options_given(args, i + 2);
        if args[i] == "--host"@ {
            (true, g.1, g.2)
        } else if args[i] == "--port"@ {
            (g.0, true, g.2)
        } else if args[i] == "--timeout-seconds"@ {
            (g.0, g.1, true)
        } else {
            (false, false, false)
        }
    }
}

proof fn lemma_config_from_args_overlay(args: Seq<Seq<char>>, i: int, c1: ServerConfigModel, c2: ServerConfigModel)
    requires
        i >= 0,
    ensures
        match (config_from_args(args, i, c1), config_from_args(args, i, c2)) {
            (Err(a), Err(b)) => a == b,
            (Ok(r1), Ok(r2)) => {
                let g = options_given(args, i);
                &&& if g.0 { r1.host == r2.host } else { r1.host == c1.host && r2.host == c2.host }
                &&& if g.1 { r1.port == r2.port } else { r1.port == c1.port && r2.port == c2.port }
                &&& if g.2 {
                    r1.timeout_seconds == r2.timeout_seconds
                } else {
                    r1.timeout_seconds == c1.timeout_seconds && r2.timeout_seconds == c2.timeout_seconds
                }
            },
            _ => false,
        },
    decreases args.len() - i,
{
    if i < args.len() && i + 1 < args.len() {
        let tok = args[i];
        let v = args[i + 1];
        if tok == "--host"@ {
            lemma_config_from_args_overlay(args, i + 2, ServerConfigModel { host: v, ..c1 }, ServerConfigModel { host: v, ..c2 });
        } else if tok == "--port"@ {
            if let Ok(p) = crate::settings::port_setting(v) {
                lemma_config_from_args_overlay(
                    args,
                    i + 2,
                    ServerConfigModel { port: p, ..c1 },
                    ServerConfigModel { port: p, ..c2 },
                );
            }
        } else if tok == "--timeout-seconds"@ {
            if let Ok(t) = crate::settings::timeout_setting(v) {
                lemma_config_from_args_overlay(
                    args,
                    i + 2,
                    ServerConfigModel { timeout_seconds: t, ..c1 },
                    ServerConfigModel { timeout_seconds: t, ..c2 },
                );
            }
        }
    }
}

/// For the MCP server too, options win over the environment: a command line that gives the
/// host, the port and the timeout configures the same server whatever valid settings the
/// environment holds.
pub proof fn law_server_options_win_over_environment(
    args: Seq<Seq<char>>,
    env1: Seq<(Seq<char>, Seq<char>)>,
    env2: Seq<(Seq<char>, Seq<char>)>,
)
    requires
        options_given(args, 1) == (true, true, true),
        config_from_env(env1) is Ok,
        config_from_env(env2) is Ok,
    ensures
        server_config_outcome(args, env1) == server_config_outcome(args, env2),
{
    lemma_config_from_args_overlay(args, 1, config_from_env(env1)->Ok_0, config_from_env(env2)->Ok_0);
}

proof fn lemma_pad8_prefix(n: nat, k: int)
    requires
        n < 100000000,
        0 <= k <= 8,
    ensures
        all_digits(pad8(n).take(k)),
        digits_value(pad8(n).take(k)) == n / pow10((8 - k) as nat),
    decreases k,
{
    reveal_with_fuel(pow10, 9);
    if k == 0 {
        assert(pad8(n).take(0) =~= Seq::<char>::empty());
        assert(pow10(8) == 100000000);
        assert(n / 100000000 == 0) by (nonlinear_arith)
            requires
                n < 100000000,
        ;
        assert(n / pow10(8) == 0);
    } else {
        lemma_pad8_prefix(n, k - 1);
        let t = pad8(n).take(k);
        assert(t.drop_last() =~= pad8(n).take(k - 1));
        let p = pow10((8 - k) as nat);
        let x = n / p;
        assert(p > 0);
        assert(t.last() == ((('0' as u32) + x % 10) as char));
        assert(((((('0' as u32) + x % 10) as char) as u32) - ('0' as u32)) as nat == x % 10);
        assert(pow10((8 - (k - 1)) as nat) == p * 10);
        vstd::arithmetic::div_mod::lemma_div_denominator(n as int, p as int, 10);
        vstd::arithmetic::div_mod::lemma_fundamental_div_mod(x as int, 10);
        assert(digits_value(t) == digits_value(t.drop_last()) * 10 + x % 10);
        assert(digits_value(t.drop_last()) == x / 10);
        assert forall|i: int| 0 <= i < t.len() implies is_digit(#[trigger] t[i]) by {
            if i < k - 1 {
                assert(t[i] == pad8(n).take(k - 1)[i]);
            }
        }
    }
}

proof fn lemma_pad8_value(n: nat)
    requires
        n < 100000000,
    ensures
        pad8(n).len() == 8,
        all_digits(pad8(n)),
        digits_value(pad8(n)) == n,
{
    lemma_pad8_prefix(n, 8);
    assert(pad8(n).take(8) =~= pad8(n));
    assert(pow10(0) == 1);
    assert(digits_value(pad8(n).take(8)) == n / pow10(0));
    assert(n / 1 == n);
}

proof fn lemma_no_marker_prefix(x: Seq<char>, p: Seq<char>)
    requires
        p.len() > 0,
        x.len() > 0,
        x[0] != p[0],
    ensures
        !has_prefix(x, p),
{
    if has_prefix(x, p) {
        assert(x.take(p.len() as int)[0] == p[0]);
    }
}

proof fn lemma_strip_once(x: Seq<char>, p: Seq<char>, rest: Seq<char>)
    requires
        p.len() > 0,
        x == p + rest,
        !has_prefix(rest, p),
    ensures
        has_prefix(x, p),
        strip_all(x, p) == rest,
{
    assert(x.take(p.len() as int) =~= p);
    assert(x.skip(p.len() as int) =~= rest);
    assert(strip_all(x, p) == strip_all(rest, p));
}

/// A keyword with none of the markers at its front.
pub open spec fn plain_keyword(k: Seq<char>) -> bool {
    !has_prefix(k, key_disabled_marker()) && !has_prefix(k, case_sensitive_marker())
        && !has_duration_marker(k)
}

/// The keyword field that a search condition is written with reads back as the same flags,
/// keyword and duration range, for a keyword that does not itself start with a marker and
/// durations of fewer than 10000 minutes.
pub proof fn law_and_key_reads_back(m: SearchKeyInfoModel)
    requires
        plain_keyword(m.and_key),
        m.chk_duration_min < 10000,
        m.chk_duration_max < 10000,
    ensures
        decode_and_key(encode_and_key(m)) == (
            m.key_disabled,
            m.case_sensitive,
            m.and_key,
            m.chk_duration_min,
            m.chk_duration_max,
        ),
{
    let code = duration_code(m.chk_duration_min, m.chk_duration_max);
    assert(code == m.chk_duration_min * 10000 + m.chk_duration_max);
    let dm = key_disabled_marker();
    let cm = case_sensitive_marker();
    let dur = if code > 0 { seq!['D', '!', '{', '1'] + pad8(code) + seq!['}'] } else { Seq::<char>::empty() };
    let after_cs = dur + m.and_key;
    let after_dm = (if m.case_sensitive { cm } else { Seq::<char>::empty() }) + after_cs;
    let raw = (if m.key_disabled { dm } else { Seq::<char>::empty() }) + after_dm;
    assert(encode_and_key(m) =~= raw);
    if code > 0 {
        lemma_pad8_value(code);
        assert(dur.len() == 13);
        assert(after_cs.subrange(4, 12) =~= pad8(code));
        assert(has_duration_marker(after_cs)) by {
            assert forall|i: int| 4 <= i < 12 implies is_digit(#[trigger] after_cs[i]) by {
                assert(after_cs[i] == pad8(code)[i - 4]);
            }
        }
        assert(after_cs.skip(13) =~= m.and_key);
        let duration = 100000000 + code;
        assert(duration / 10000 == 10000 + m.chk_duration_min);
        assert(duration % 10000 == m.chk_duration_max);
        assert(split_duration_marker(after_cs) == (m.and_key, m.chk_duration_min, m.chk_duration_max));
        lemma_no_marker_prefix(after_cs, dm);
        lemma_no_marker_prefix(after_cs, cm);
    } else {
        assert(after_cs =~= m.and_key);
        assert(m.chk_duration_min == 0 && m.chk_duration_max == 0);
    }
    if m.case_sensitive {
        lemma_strip_once(after_dm, cm, after_cs);
        lemma_no_marker_prefix(after_dm, dm);
    } else {
        assert(after_dm =~= after_cs);
    }
    if m.key_disabled {
        lemma_strip_once(raw, dm, after_dm);
    } else {
        assert(raw =~= after_dm);
    }
}


/// The recording-check flag and day of a search condition as EDCB's struct carries them after
/// the other fields, a day of the recorded-file lookup that ignores the service counted from
/// 40000.
pub open spec fn check_fields_wire(m: SearchKeyInfoModel) -> Seq<u8> {
    seq![if m.chk_rec_end { 1u8 } else { 0u8 }] + le16(
        if m.chk_rec_no_service { (m.chk_rec_day + 40000) as u16 } else { m.chk_rec_day },
    )
}

/// The reader and the writer of search conditions agree on every field: the struct body that
/// is written for a condition, followed by its recording-check flag and day (which the writer
/// itself leaves out, so that what it writes alone does not read back), reads back as the same
/// condition. Shown for a keyword that does not itself start with a marker, durations and a
/// recording-check day of fewer than 10000.
#[verifier::rlimit(100)]
pub proof fn law_search_key_fields_read_back(m: SearchKeyInfoModel)
    requires
        plain_keyword(m.and_key),
        m.chk_duration_min < 10000,
        m.chk_duration_max < 10000,
        m.chk_rec_day < 10000,
        s_search_key_info_body(m).len() <= i32::MAX,
    ensures
        p_search_key_info_body(s_search_key_info_body(m) + check_fields_wire(m)) == Some(m),
{
    reveal(s_search_key_info_body);
    reveal(p_search_key_info_body);
    let enc = encode_and_key(m);
    let day: u16 = if m.chk_rec_no_service { (m.chk_rec_day + 40000) as u16 } else { m.chk_rec_day };
    let end: u8 = if m.chk_rec_end { 1u8 } else { 0u8 };
    let reg: i32 = if m.reg_exp_flag { 1i32 } else { 0i32 };
    let title: i32 = if m.title_only_flag { 1i32 } else { 0i32 };
    let aimai: u8 = if m.aimai_flag { 1u8 } else { 0u8 };
    let not_contet: u8 = if m.not_contet_flag { 1u8 } else { 0u8 };
    let not_date: u8 = if m.not_date_flag { 1u8 } else { 0u8 };
    let r14 = le16(day);
    let r13 = seq![end] + r14;
    let r12 = seq![m.free_ca_flag] + r13;
    let r11 = seq![not_date] + r12;
    let r10 = seq![not_contet] + r11;
    let r9 = seq![aimai] + r10;
    let r8 = vector_wire::<u16>(m.audio_list) + r9;
    let r7 = vector_wire::<u16>(m.video_list) + r8;
    let r6 = vector_wire::<i64>(m.service_list) + r7;
    let r5 = vector_wire::<SearchDateInfo>(m.date_list) + r6;
    let r4 = vector_wire::<ContentData>(m.content_list) + r5;
    let r3 = lei32(title) + r4;
    let r2 = lei32(reg) + r3;
    let r1 = s_string(m.not_key) + r2;
    let r0 = s_string(enc) + r1;
    assert(s_search_key_info_body(m) + check_fields_wire(m) =~= r0);
    lemma_string_roundtrip(enc, r1);
    lemma_string_roundtrip(m.not_key, r2);
    <i32 as WireRoundtrip>::lemma_roundtrip(reg, r3);
    <i32 as WireRoundtrip>::lemma_roundtrip(title, r4);
    lemma_vector_roundtrip::<ContentData>(m.content_list, r5);
    lemma_vector_roundtrip::<SearchDateInfo>(m.date_list, r6);
    lemma_vector_roundtrip::<i64>(m.service_list, r7);
    lemma_vector_roundtrip::<u16>(m.video_list, r8);
    lemma_vector_roundtrip::<u16>(m.audio_list, r9);
    lemma_u8_roundtrip(aimai, r10);
    lemma_u8_roundtrip(not_contet, r11);
    lemma_u8_roundtrip(not_date, r12);
    lemma_u8_roundtrip(m.free_ca_flag, r13);
    lemma_u8_roundtrip(end, r14);
    <u16 as WireRoundtrip>::lemma_roundtrip(day, Seq::empty());
    assert(r14 + Seq::<u8>::empty() =~= r14);
    law_and_key_reads_back(m);
}


/// What a recording-settings record reads back as after it is written: one flag says whether
/// the margins are used, so both margins come back where both were set, and neither where
/// only one or none was, everything else unchanged.
pub open spec fn settings_read_back(m: RecSettingDataModel) -> RecSettingDataModel {
    if m.start_margin is Some && m.end_margin is Some {
        m
    } else {
        RecSettingDataModel { start_margin: None, end_margin: None, ..m }
    }
}

/// A written recording-settings record reads back as `settings_read_back` says, for every
/// record whose encoding fits the size field: a record with exactly one margin set reads
/// back with neither.
#[verifier::spinoff_prover]
#[verifier::rlimit(80)]
pub proof fn law_settings_read_back(m: RecSettingDataModel, rest: Seq<u8>)
    requires
        <RecSettingData as WireWrite>::wire(m).len() <= i32::MAX,
    ensures
        <RecSettingData as WireRead>::parse(<RecSettingData as WireWrite>::wire(m) + rest) == Some(
            (settings_read_back(m), rest),
        ),
{
    reveal(s_rec_setting_data_body);
    reveal(p_rec_setting_data_body);
    let body = s_rec_setting_data_body(m);
    let l0 = seq![m.rec_mode];
    let l1 = l0 + seq![m.priority];
    let l2 = l1 + seq![if m.tuijyuu_flag { 1u8 } else { 0u8 }];
    let l3 = l2 + le32(m.service_mode);
    let l4 = l3 + seq![if m.pittari_flag { 1u8 } else { 0u8 }];
    let l5 = l4 + s_string(m.bat_file_path);
    let l6 = l5 + vector_wire::<RecFileSetInfo>(m.rec_folder_list);
    let l7 = l6 + seq![m.suspend_mode];
    let l8 = l7 + seq![if m.reboot_flag { 1u8 } else { 0u8 }];
    let l9 = l8 + seq![margin_flag(m.start_margin, m.end_margin)];
    let l10 = l9 + lei32(margin_or_zero(m.start_margin));
    let l11 = l10 + lei32(margin_or_zero(m.end_margin));
    let l12 = l11 + seq![if m.continue_rec_flag { 1u8 } else { 0u8 }];
    let l13 = l12 + seq![m.partial_rec_flag];
    let l14 = l13 + le32(m.tuner_id);
    let l15 = l14 + vector_wire::<RecFileSetInfo>(m.partial_rec_folder);
    let t16 = Seq::<u8>::empty();
    let t15 = vector_wire::<RecFileSetInfo>(m.partial_rec_folder) + t16;
    let t14 = le32(m.tuner_id) + t15;
    let t13 = seq![m.partial_rec_flag] + t14;
    let t12 = seq![if m.continue_rec_flag { 1u8 } else { 0u8 }] + t13;
    let t11 = lei32(margin_or_zero(m.end_margin)) + t12;
    let t10 = lei32(margin_or_zero(m.start_margin)) + t11;
    let t9 = seq![margin_flag(m.start_margin, m.end_margin)] + t10;
    let t8 = seq![if m.reboot_flag { 1u8 } else { 0u8 }] + t9;
    let t7 = seq![m.suspend_mode] + t8;
    let t6 = vector_wire::<RecFileSetInfo>(m.rec_folder_list) + t7;
    let t5 = s_string(m.bat_file_path) + t6;
    let t4 = seq![if m.pittari_flag { 1u8 } else { 0u8 }] + t5;
    let t3 = le32(m.service_mode) + t4;
    let t2 = seq![if m.tuijyuu_flag { 1u8 } else { 0u8 }] + t3;
    let t1 = seq![m.priority] + t2;
    let t0 = seq![m.rec_mode] + t1;
    assert(l15 + t16 =~= l15);
    lemma_concat_associative(l14, vector_wire::<RecFileSetInfo>(m.partial_rec_folder), t16);
    lemma_concat_associative(l13, le32(m.tuner_id), t15);
    lemma_concat_associative(l12, seq![m.partial_rec_flag], t14);
    lemma_concat_associative(l11, seq![if m.continue_rec_flag { 1u8 } else { 0u8 }], t13);
    lemma_concat_associative(l10, lei32(margin_or_zero(m.end_margin)), t12);
    lemma_concat_associative(l9, lei32(margin_or_zero(m.start_margin)), t11);
    lemma_concat_associative(l8, seq![margin_flag(m.start_margin, m.end_margin)], t10);
    lemma_concat_associative(l7, seq![if m.reboot_flag { 1u8 } else { 0u8 }], t9);
    lemma_concat_associative(l6, seq![m.suspend_mode], t8);
    lemma_concat_associative(l5, vector_wire::<RecFileSetInfo>(m.rec_folder_list), t7);
    lemma_concat_associative(l4, s_string(m.bat_file_path), t6);
    lemma_concat_associative(l3, seq![if m.pittari_flag { 1u8 } else { 0u8 }], t5);
    lemma_concat_associative(l2, le32(m.service_mode), t4);
    lemma_concat_associative(l1, seq![if m.tuijyuu_flag { 1u8 } else { 0u8 }], t3);
    lemma_concat_associative(l0, seq![m.priority], t2);
    assert(body == t0);
    lemma_u8_roundtrip(m.rec_mode, t1);
    lemma_u8_roundtrip(m.priority, t2);
    lemma_u8_roundtrip(if m.tuijyuu_flag { 1u8 } else { 0u8 }, t3);
    lemma_u32_roundtrip(m.service_mode, t4);
    lemma_u8_roundtrip(if m.pittari_flag { 1u8 } else { 0u8 }, t5);
    lemma_string_roundtrip(m.bat_file_path, t6);
    lemma_vector_roundtrip::<RecFileSetInfo>(m.rec_folder_list, t7);
    lemma_u8_roundtrip(m.suspend_mode, t8);
    lemma_u8_roundtrip(if m.reboot_flag { 1u8 } else { 0u8 }, t9);
    lemma_u8_roundtrip(margin_flag(m.start_margin, m.end_margin), t10);
    lemma_lei32(margin_or_zero(m.start_margin));
    lemma_lei32(margin_or_zero(m.end_margin));
    lemma_u8_roundtrip(if m.continue_rec_flag { 1u8 } else { 0u8 }, t13);
    lemma_u8_roundtrip(m.partial_rec_flag, t14);
    lemma_u32_roundtrip(m.tuner_id, t15);
    lemma_vector_roundtrip::<RecFileSetInfo>(m.partial_rec_folder, t16);
    lemma_frame_roundtrip(body, rest);
    assert(p_rec_setting_data_body(body) == Some(settings_read_back(m)));
}


/// The duration marker written for a range of durations: `D!{1`, the eight digits of
/// `min * 10000 + max`, and `}`.
pub open spec fn duration_marker(min: u16, max: u16) -> Seq<char> {
    seq!['D', '!', '{', '1'] + pad8(duration_code(min, max)) + seq!['}']
}

/// Splitting a duration marker off a keyword (as `parse_duration_prefix` does) undoes writing
/// it: the marker of durations of fewer than 10000 minutes, followed by any text, splits into
/// that text and the two durations; a keyword that does not start with a marker is left as it
/// is, with zero durations.
pub proof fn law_duration_prefix_reads_back(min: u16, max: u16, rest: Seq<char>, other: Seq<char>)
    requires
        min < 10000,
        max < 10000,
        !has_duration_marker(other),
    ensures
        split_duration_marker(duration_marker(min, max) + rest) == (rest, min, max),
        split_duration_marker(other) == (other, 0u16, 0u16),
{
    let code = duration_code(min, max);
    assert(code == min * 10000 + max);
    let text = duration_marker(min, max) + rest;
    lemma_pad8_value(code);
    assert(text.subrange(4, 12) =~= pad8(code));
    assert(has_duration_marker(text)) by {
        assert forall|i: int| 4 <= i < 12 implies is_digit(#[trigger] text[i]) by {
            assert(text[i] == pad8(code)[i - 4]);
        }
    }
    assert(text.skip(13) =~= rest);
    let duration = 100000000 + code;
    assert(duration / 10000 == 10000 + min);
    assert(duration % 10000 == max);
}

} // verus!

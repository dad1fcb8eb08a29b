//! The JSON form of reports: what each report encodes to, the encoders, and
//! the proof that decoding an encoded report gives it back.
use vstd::prelude::*;

use crate::error::DecodeError;
use crate::json::{
    isize_of,
    items_view,
    lemma_items_view,
    lemma_members_view,
    members_view,
    thousandths_of,
    usize_of,
    Json,
    JsonView,
};
use crate::number::{
    in_class,
    lemma_nat_text,
    lemma_run_to_end,
    lemma_three_decimals_round_trip,
    sign_len,
    CharClass,
};
use crate::text::{
    magnitude,
    nat_text,
    push_nat,
    sign_text,
    string_of,
    three_decimals,
    three_decimals_text,
};
use super::{
    Ams,
    AmsInfo,
    AmsInfoView,
    AmsView,
    InfoValue,
    ModuleInfo,
    ModuleInfoView,
    PrintValue,
    PrintValueView,
    Report,
    ReportView,
    Tray,
    TrayInfo,
    TrayInfoView,
    TrayView,
    UpgradeState,
    UpgradeStateView,
    ams_info_of,
    ams_infos_list,
    ams_infos_view,
    ams_of,
    module_info_of,
    modules_list,
    modules_view,
    print_value_of,
    report_of,
    texts_list,
    texts_of,
    texts_view,
    tray_info_of,
    tray_of,
    trays_list,
    trays_view,
    upgrade_state_of,
};

verus! {

broadcast use
    vstd::std_specs::vec::group_vec_axioms,
    crate::json::lemma_first_member_push,
    crate::json::lemma_first_member_concat,
;

pub open spec fn usize_json(n: usize) -> JsonView {
    JsonView::Number(nat_text(n as nat))
}

pub open spec fn isize_json(n: isize) -> JsonView {
    JsonView::Number(sign_text(n as int) + nat_text(magnitude(n as int)))
}

pub open spec fn thousandths_json(v: i64) -> JsonView {
    JsonView::Number(three_decimals_text(v as int))
}

pub open spec fn texts_json(s: Seq<Seq<char>>) -> JsonView {
    JsonView::Array(Seq::new(s.len(), |i: int| JsonView::Str(s[i])))
}

pub open spec fn upgrade_state_json(u: UpgradeStateView) -> JsonView {
    JsonView::Object(
        Seq::empty().push(("dis_state"@, usize_json(u.dis_state))).push(
            ("new_version_state"@, usize_json(u.new_version_state)),
        ).push(("ota_new_version_number"@, JsonView::Str(u.ota_new_version_number))),
    )
}

pub open spec fn module_info_json(m: ModuleInfoView) -> JsonView {
    JsonView::Object(
        Seq::empty().push(("hw_ver"@, JsonView::Str(m.hw_ver))).push(
            ("name"@, JsonView::Str(m.name)),
        ).push(("sn"@, JsonView::Str(m.sn))).push(("sw_ver"@, JsonView::Str(m.sw_ver))),
    )
}

pub open spec fn modules_json(ms: Seq<ModuleInfoView>) -> JsonView {
    JsonView::Array(Seq::new(ms.len(), |i: int| module_info_json(ms[i])))
}

/// Tray details with every member at its default.
pub open spec fn tray_info_default() -> TrayInfoView {
    TrayInfoView {
        bed_temp: seq![],
        bed_temp_type: seq![],
        cali_idx: 0,
        cols: seq![],
        ctype: 0,
        drying_temp: seq![],
        drying_time: seq![],
        nozzle_temp_max: seq![],
        nozzle_temp_min: seq![],
        remain: 0,
        tag_uid: seq![],
        tray_color: seq![],
        tray_diameter: seq![],
        tray_id_name: seq![],
        tray_info_idx: seq![],
        tray_sub_brands: seq![],
        tray_type: seq![],
        tray_uuid: seq![],
        tray_weight: seq![],
        xcam_info: seq![],
    }
}

/// `s` followed by every tray detail member, in schema order.
pub open spec fn with_tray_info(s: Seq<(Seq<char>, JsonView)>, t: TrayInfoView) -> Seq<
    (Seq<char>, JsonView),
> {
    s.push(("bed_temp"@, JsonView::Str(t.bed_temp))).push(("bed_temp_type"@, JsonView::Str(t.bed_temp_type))).push(("cali_idx"@, isize_json(t.cali_idx))).push(("cols"@, texts_json(t.cols))).push(("ctype"@, usize_json(t.ctype))).push(("drying_temp"@, JsonView::Str(t.drying_temp))).push(("drying_time"@, JsonView::Str(t.drying_time))).push(("nozzle_temp_max"@, JsonView::Str(t.nozzle_temp_max))).push(("nozzle_temp_min"@, JsonView::Str(t.nozzle_temp_min))).push(("remain"@, isize_json(t.remain))).push(("tag_uid"@, JsonView::Str(t.tag_uid))).push(("tray_color"@, JsonView::Str(t.tray_color))).push(("tray_diameter"@, JsonView::Str(t.tray_diameter))).push(("tray_id_name"@, JsonView::Str(t.tray_id_name))).push(("tray_info_idx"@, JsonView::Str(t.tray_info_idx))).push(("tray_sub_brands"@, JsonView::Str(t.tray_sub_brands))).push(("tray_type"@, JsonView::Str(t.tray_type))).push(("tray_uuid"@, JsonView::Str(t.tray_uuid))).push(("tray_weight"@, JsonView::Str(t.tray_weight))).push(("xcam_info"@, JsonView::Str(t.xcam_info)))
}

/// A tray: its id, and its details unless they are all at their defaults.
pub open spec fn tray_json(t: TrayView) -> JsonView {
    let head = Seq::empty().push(("id"@, JsonView::Str(t.id)));
    JsonView::Object(
        if t.info == tray_info_default() {
            head
        } else {
            with_tray_info(head, t.info)
        },
    )
}

pub open spec fn trays_json(ts: Seq<TrayView>) -> JsonView {
    JsonView::Array(Seq::new(ts.len(), |i: int| tray_json(ts[i])))
}

pub open spec fn ams_info_json(a: AmsInfoView) -> JsonView {
    JsonView::Object(
        Seq::empty().push(("humidity"@, JsonView::Str(a.humidity))).push(
            ("id"@, JsonView::Str(a.id)),
        ).push(("temp"@, JsonView::Str(a.temp))).push(("tray"@, trays_json(a.tray))),
    )
}

pub open spec fn ams_infos_json(s: Seq<AmsInfoView>) -> JsonView {
    JsonView::Array(Seq::new(s.len(), |i: int| ams_info_json(s[i])))
}

pub open spec fn ams_json(a: AmsView) -> JsonView {
    JsonView::Object(
        Seq::empty().push(("ams"@, ams_infos_json(a.ams))).push(
            ("version"@, usize_json(a.version)),
        ),
    )
}

/// `s` followed by the status members that differ from their defaults.
pub open spec fn with_print_value(s: Seq<(Seq<char>, JsonView)>, v: PrintValueView) -> Seq<
    (Seq<char>, JsonView),
> {
    let s1 = match v.ams {
        Some(a) => s.push(("ams"@, ams_json(a))),
        None => s,
    };
    let s2 = match v.upgrade_state {
        Some(u) => s1.push(("upgrade_state"@, upgrade_state_json(u))),
        None => s1,
    };
    let s3 = if v.module.len() == 0 {
        s2
    } else {
        s2.push(("module"@, modules_json(v.module)))
    };
    let s4 = match v.cooling_fan_speed {
        Some(c) => s3.push(("cooling_fan_speed"@, JsonView::Str(c))),
        None => s3,
    };
    let s5 = match v.fan_gear {
        Some(n) => s4.push(("fan_gear"@, isize_json(n))),
        None => s4,
    };
    let s6 = match v.nozzle_temper {
        Some(n) => s5.push(("nozzle_temper"@, thousandths_json(n))),
        None => s5,
    };
    let s7 = match v.bed_temper {
        Some(n) => s6.push(("bed_temper"@, thousandths_json(n))),
        None => s6,
    };
    if v.version == 0 {
        s7
    } else {
        s7.push(("version"@, usize_json(v.version)))
    }
}

/// The command and sequence members of a report body.
pub open spec fn report_head(command: Seq<char>, sequence_id: Seq<char>) -> Seq<
    (Seq<char>, JsonView),
> {
    Seq::empty().push(("command"@, JsonView::Str(command))).push(
        ("sequence_id"@, JsonView::Str(sequence_id)),
    )
}

/// The JSON form of a report.
pub open spec fn report_json(r: ReportView) -> JsonView {
    match r {
        ReportView::Print { sequence_id, value, .. } => JsonView::Object(
            Seq::empty().push(
                (
                    "print"@,
                    JsonView::Object(
                        with_print_value(report_head("push_status"@, sequence_id), value),
                    ),
                ),
            ),
        ),
        ReportView::Info { sequence_id, module, .. } => JsonView::Object(
            Seq::empty().push(
                (
                    "info"@,
                    JsonView::Object(
                        report_head("get_version"@, sequence_id).push(
                            ("module"@, modules_json(module)),
                        ),
                    ),
                ),
            ),
        ),
        ReportView::McPrint { sequence_id, param, .. } => JsonView::Object(
            Seq::empty().push(
                (
                    "mc_print"@,
                    JsonView::Object(
                        report_head("push_info"@, sequence_id).push(("param"@, param)),
                    ),
                ),
            ),
        ),
    }
}

} // verus!

verus! {

/// The member names of top objects differ from each other.
proof fn lemma_top_keys()
    ensures
        "print"@ != "info"@,
        "print"@ != "mc_print"@,
        "info"@ != "mc_print"@,
{
    reveal_strlit("print");
    reveal_strlit("info");
    reveal_strlit("mc_print");
    assert("print"@.len() == 5);
    assert("info"@.len() == 4);
    assert("mc_print"@.len() == 8);
}

/// The member names of body objects differ from each other.
proof fn lemma_body_keys()
    ensures
        "command"@ != "sequence_id"@,
        "command"@ != "param"@,
        "command"@ != "module"@,
        "command"@ != "ams"@,
        "command"@ != "upgrade_state"@,
        "command"@ != "cooling_fan_speed"@,
        "command"@ != "fan_gear"@,
        "command"@ != "nozzle_temper"@,
        "command"@ != "bed_temper"@,
        "command"@ != "version"@,
        "sequence_id"@ != "param"@,
        "sequence_id"@ != "module"@,
        "sequence_id"@ != "ams"@,
        "sequence_id"@ != "upgrade_state"@,
        "sequence_id"@ != "cooling_fan_speed"@,
        "sequence_id"@ != "fan_gear"@,
        "sequence_id"@ != "nozzle_temper"@,
        "sequence_id"@ != "bed_temper"@,
        "sequence_id"@ != "version"@,
        "param"@ != "module"@,
        "param"@ != "ams"@,
        "param"@ != "upgrade_state"@,
        "param"@ != "cooling_fan_speed"@,
        "param"@ != "fan_gear"@,
        "param"@ != "nozzle_temper"@,
        "param"@ != "bed_temper"@,
        "param"@ != "version"@,
        "module"@ != "ams"@,
        "module"@ != "upgrade_state"@,
        "module"@ != "cooling_fan_speed"@,
        "module"@ != "fan_gear"@,
        "module"@ != "nozzle_temper"@,
        "module"@ != "bed_temper"@,
        "module"@ != "version"@,
        "ams"@ != "upgrade_state"@,
        "ams"@ != "cooling_fan_speed"@,
        "ams"@ != "fan_gear"@,
        "ams"@ != "nozzle_temper"@,
        "ams"@ != "bed_temper"@,
        "ams"@ != "version"@,
        "upgrade_state"@ != "cooling_fan_speed"@,
        "upgrade_state"@ != "fan_gear"@,
        "upgrade_state"@ != "nozzle_temper"@,
        "upgrade_state"@ != "bed_temper"@,
        "upgrade_state"@ != "version"@,
        "cooling_fan_speed"@ != "fan_gear"@,
        "cooling_fan_speed"@ != "nozzle_temper"@,
        "cooling_fan_speed"@ != "bed_temper"@,
        "cooling_fan_speed"@ != "version"@,
        "fan_gear"@ != "nozzle_temper"@,
        "fan_gear"@ != "bed_temper"@,
        "fan_gear"@ != "version"@,
        "nozzle_temper"@ != "bed_temper"@,
        "nozzle_temper"@ != "version"@,
        "bed_temper"@ != "version"@,
{
    reveal_strlit("command");
    reveal_strlit("sequence_id");
    reveal_strlit("param");
    reveal_strlit("module");
    reveal_strlit("ams");
    reveal_strlit("upgrade_state");
    reveal_strlit("cooling_fan_speed");
    reveal_strlit("fan_gear");
    reveal_strlit("nozzle_temper");
    reveal_strlit("bed_temper");
    reveal_strlit("version");
    assert("command"@.len() == 7);
    assert("sequence_id"@.len() == 11);
    assert("param"@.len() == 5);
    assert("module"@.len() == 6);
    assert("ams"@.len() == 3);
    assert("upgrade_state"@.len() == 13);
    assert("cooling_fan_speed"@.len() == 17);
    assert("fan_gear"@.len() == 8);
    assert("nozzle_temper"@.len() == 13);
    assert("bed_temper"@.len() == 10);
    assert("version"@.len() == 7);
    assert("command"@[0] != "version"@[0]);
    assert("upgrade_state"@[0] != "nozzle_temper"@[0]);
}

/// The member names of upgrade state objects differ from each other.
proof fn lemma_upgrade_state_keys()
    ensures
        "dis_state"@ != "new_version_state"@,
        "dis_state"@ != "ota_new_version_number"@,
        "new_version_state"@ != "ota_new_version_number"@,
{
    reveal_strlit("dis_state");
    reveal_strlit("new_version_state");
    reveal_strlit("ota_new_version_number");
    assert("dis_state"@.len() == 9);
    assert("new_version_state"@.len() == 17);
    assert("ota_new_version_number"@.len() == 22);
}

/// The member names of module info objects differ from each other.
proof fn lemma_module_info_keys()
    ensures
        "hw_ver"@ != "name"@,
        "hw_ver"@ != "sn"@,
        "hw_ver"@ != "sw_ver"@,
        "name"@ != "sn"@,
        "name"@ != "sw_ver"@,
        "sn"@ != "sw_ver"@,
{
    reveal_strlit("hw_ver");
    reveal_strlit("name");
    reveal_strlit("sn");
    reveal_strlit("sw_ver");
    assert("hw_ver"@.len() == 6);
    assert("name"@.len() == 4);
    assert("sn"@.len() == 2);
    assert("sw_ver"@.len() == 6);
    assert("hw_ver"@[0] != "sw_ver"@[0]);
}

/// The member names of ams objects differ from each other.
proof fn lemma_ams_keys()
    ensures
        "ams"@ != "version"@,
{
    reveal_strlit("ams");
    reveal_strlit("version");
    assert("ams"@.len() == 3);
    assert("version"@.len() == 7);
}

/// The member names of ams info objects differ from each other.
proof fn lemma_ams_info_keys()
    ensures
        "humidity"@ != "id"@,
        "humidity"@ != "temp"@,
        "humidity"@ != "tray"@,
        "id"@ != "temp"@,
        "id"@ != "tray"@,
        "temp"@ != "tray"@,
{
    reveal_strlit("humidity");
    reveal_strlit("id");
    reveal_strlit("temp");
    reveal_strlit("tray");
    assert("humidity"@.len() == 8);
    assert("id"@.len() == 2);
    assert("temp"@.len() == 4);
    assert("tray"@.len() == 4);
    assert("temp"@[1] != "tray"@[1]);
}

/// The member names of tray objects differ from each other.
proof fn lemma_tray_keys()
    ensures
        "id"@ != "bed_temp"@,
        "id"@ != "bed_temp_type"@,
        "id"@ != "cali_idx"@,
        "id"@ != "cols"@,
        "id"@ != "ctype"@,
        "id"@ != "drying_temp"@,
        "id"@ != "drying_time"@,
        "id"@ != "nozzle_temp_max"@,
        "id"@ != "nozzle_temp_min"@,
        "id"@ != "remain"@,
        "id"@ != "tag_uid"@,
        "id"@ != "tray_color"@,
        "id"@ != "tray_diameter"@,
        "id"@ != "tray_id_name"@,
        "id"@ != "tray_info_idx"@,
        "id"@ != "tray_sub_brands"@,
        "id"@ != "tray_type"@,
        "id"@ != "tray_uuid"@,
        "id"@ != "tray_weight"@,
        "id"@ != "xcam_info"@,
        "bed_temp"@ != "bed_temp_type"@,
        "bed_temp"@ != "cali_idx"@,
        "bed_temp"@ != "cols"@,
        "bed_temp"@ != "ctype"@,
        "bed_temp"@ != "drying_temp"@,
        "bed_temp"@ != "drying_time"@,
        "bed_temp"@ != "nozzle_temp_max"@,
        "bed_temp"@ != "nozzle_temp_min"@,
        "bed_temp"@ != "remain"@,
        "bed_temp"@ != "tag_uid"@,
        "bed_temp"@ != "tray_color"@,
        "bed_temp"@ != "tray_diameter"@,
        "bed_temp"@ != "tray_id_name"@,
        "bed_temp"@ != "tray_info_idx"@,
        "bed_temp"@ != "tray_sub_brands"@,
        "bed_temp"@ != "tray_type"@,
        "bed_temp"@ != "tray_uuid"@,
        "bed_temp"@ != "tray_weight"@,
        "bed_temp"@ != "xcam_info"@,
        "bed_temp_type"@ != "cali_idx"@,
        "bed_temp_type"@ != "cols"@,
        "bed_temp_type"@ != "ctype"@,
        "bed_temp_type"@ != "drying_temp"@,
        "bed_temp_type"@ != "drying_time"@,
        "bed_temp_type"@ != "nozzle_temp_max"@,
        "bed_temp_type"@ != "nozzle_temp_min"@,
        "bed_temp_type"@ != "remain"@,
        "bed_temp_type"@ != "tag_uid"@,
        "bed_temp_type"@ != "tray_color"@,
        "bed_temp_type"@ != "tray_diameter"@,
        "bed_temp_type"@ != "tray_id_name"@,
        "bed_temp_type"@ != "tray_info_idx"@,
        "bed_temp_type"@ != "tray_sub_brands"@,
        "bed_temp_type"@ != "tray_type"@,
        "bed_temp_type"@ != "tray_uuid"@,
        "bed_temp_type"@ != "tray_weight"@,
        "bed_temp_type"@ != "xcam_info"@,
        "cali_idx"@ != "cols"@,
        "cali_idx"@ != "ctype"@,
        "cali_idx"@ != "drying_temp"@,
        "cali_idx"@ != "drying_time"@,
        "cali_idx"@ != "nozzle_temp_max"@,
        "cali_idx"@ != "nozzle_temp_min"@,
        "cali_idx"@ != "remain"@,
        "cali_idx"@ != "tag_uid"@,
        "cali_idx"@ != "tray_color"@,
        "cali_idx"@ != "tray_diameter"@,
        "cali_idx"@ != "tray_id_name"@,
        "cali_idx"@ != "tray_info_idx"@,
        "cali_idx"@ != "tray_sub_brands"@,
        "cali_idx"@ != "tray_type"@,
        "cali_idx"@ != "tray_uuid"@,
        "cali_idx"@ != "tray_weight"@,
        "cali_idx"@ != "xcam_info"@,
        "cols"@ != "ctype"@,
        "cols"@ != "drying_temp"@,
        "cols"@ != "drying_time"@,
        "cols"@ != "nozzle_temp_max"@,
        "cols"@ != "nozzle_temp_min"@,
        "cols"@ != "remain"@,
        "cols"@ != "tag_uid"@,
        "cols"@ != "tray_color"@,
        "cols"@ != "tray_diameter"@,
        "cols"@ != "tray_id_name"@,
        "cols"@ != "tray_info_idx"@,
        "cols"@ != "tray_sub_brands"@,
        "cols"@ != "tray_type"@,
        "cols"@ != "tray_uuid"@,
        "cols"@ != "tray_weight"@,
        "cols"@ != "xcam_info"@,
        "ctype"@ != "drying_temp"@,
        "ctype"@ != "drying_time"@,
        "ctype"@ != "nozzle_temp_max"@,
        "ctype"@ != "nozzle_temp_min"@,
        "ctype"@ != "remain"@,
        "ctype"@ != "tag_uid"@,
        "ctype"@ != "tray_color"@,
        "ctype"@ != "tray_diameter"@,
        "ctype"@ != "tray_id_name"@,
        "ctype"@ != "tray_info_idx"@,
        "ctype"@ != "tray_sub_brands"@,
        "ctype"@ != "tray_type"@,
        "ctype"@ != "tray_uuid"@,
        "ctype"@ != "tray_weight"@,
        "ctype"@ != "xcam_info"@,
        "drying_temp"@ != "drying_time"@,
        "drying_temp"@ != "nozzle_temp_max"@,
        "drying_temp"@ != "nozzle_temp_min"@,
        "drying_temp"@ != "remain"@,
        "drying_temp"@ != "tag_uid"@,
        "drying_temp"@ != "tray_color"@,
        "drying_temp"@ != "tray_diameter"@,
        "drying_temp"@ != "tray_id_name"@,
        "drying_temp"@ != "tray_info_idx"@,
        "drying_temp"@ != "tray_sub_brands"@,
        "drying_temp"@ != "tray_type"@,
        "drying_temp"@ != "tray_uuid"@,
        "drying_temp"@ != "tray_weight"@,
        "drying_temp"@ != "xcam_info"@,
        "drying_time"@ != "nozzle_temp_max"@,
        "drying_time"@ != "nozzle_temp_min"@,
        "drying_time"@ != "remain"@,
        "drying_time"@ != "tag_uid"@,
        "drying_time"@ != "tray_color"@,
        "drying_time"@ != "tray_diameter"@,
        "drying_time"@ != "tray_id_name"@,
        "drying_time"@ != "tray_info_idx"@,
        "drying_time"@ != "tray_sub_brands"@,
        "drying_time"@ != "tray_type"@,
        "drying_time"@ != "tray_uuid"@,
        "drying_time"@ != "tray_weight"@,
        "drying_time"@ != "xcam_info"@,
        "nozzle_temp_max"@ != "nozzle_temp_min"@,
        "nozzle_temp_max"@ != "remain"@,
        "nozzle_temp_max"@ != "tag_uid"@,
        "nozzle_temp_max"@ != "tray_color"@,
        "nozzle_temp_max"@ != "tray_diameter"@,
        "nozzle_temp_max"@ != "tray_id_name"@,
        "nozzle_temp_max"@ != "tray_info_idx"@,
        "nozzle_temp_max"@ != "tray_sub_brands"@,
        "nozzle_temp_max"@ != "tray_type"@,
        "nozzle_temp_max"@ != "tray_uuid"@,
        "nozzle_temp_max"@ != "tray_weight"@,
        "nozzle_temp_max"@ != "xcam_info"@,
        "nozzle_temp_min"@ != "remain"@,
        "nozzle_temp_min"@ != "tag_uid"@,
        "nozzle_temp_min"@ != "tray_color"@,
        "nozzle_temp_min"@ != "tray_diameter"@,
        "nozzle_temp_min"@ != "tray_id_name"@,
        "nozzle_temp_min"@ != "tray_info_idx"@,
        "nozzle_temp_min"@ != "tray_sub_brands"@,
        "nozzle_temp_min"@ != "tray_type"@,
        "nozzle_temp_min"@ != "tray_uuid"@,
        "nozzle_temp_min"@ != "tray_weight"@,
        "nozzle_temp_min"@ != "xcam_info"@,
        "remain"@ != "tag_uid"@,
        "remain"@ != "tray_color"@,
        "remain"@ != "tray_diameter"@,
        "remain"@ != "tray_id_name"@,
        "remain"@ != "tray_info_idx"@,
        "remain"@ != "tray_sub_brands"@,
        "remain"@ != "tray_type"@,
        "remain"@ != "tray_uuid"@,
        "remain"@ != "tray_weight"@,
        "remain"@ != "xcam_info"@,
        "tag_uid"@ != "tray_color"@,
        "tag_uid"@ != "tray_diameter"@,
        "tag_uid"@ != "tray_id_name"@,
        "tag_uid"@ != "tray_info_idx"@,
        "tag_uid"@ != "tray_sub_brands"@,
        "tag_uid"@ != "tray_type"@,
        "tag_uid"@ != "tray_uuid"@,
        "tag_uid"@ != "tray_weight"@,
        "tag_uid"@ != "xcam_info"@,
        "tray_color"@ != "tray_diameter"@,
        "tray_color"@ != "tray_id_name"@,
        "tray_color"@ != "tray_info_idx"@,
        "tray_color"@ != "tray_sub_brands"@,
        "tray_color"@ != "tray_type"@,
        "tray_color"@ != "tray_uuid"@,
        "tray_color"@ != "tray_weight"@,
        "tray_color"@ != "xcam_info"@,
        "tray_diameter"@ != "tray_id_name"@,
        "tray_diameter"@ != "tray_info_idx"@,
        "tray_diameter"@ != "tray_sub_brands"@,
        "tray_diameter"@ != "tray_type"@,
        "tray_diameter"@ != "tray_uuid"@,
        "tray_diameter"@ != "tray_weight"@,
        "tray_diameter"@ != "xcam_info"@,
        "tray_id_name"@ != "tray_info_idx"@,
        "tray_id_name"@ != "tray_sub_brands"@,
        "tray_id_name"@ != "tray_type"@,
        "tray_id_name"@ != "tray_uuid"@,
        "tray_id_name"@ != "tray_weight"@,
        "tray_id_name"@ != "xcam_info"@,
        "tray_info_idx"@ != "tray_sub_brands"@,
        "tray_info_idx"@ != "tray_type"@,
        "tray_info_idx"@ != "tray_uuid"@,
        "tray_info_idx"@ != "tray_weight"@,
        "tray_info_idx"@ != "xcam_info"@,
        "tray_sub_brands"@ != "tray_type"@,
        "tray_sub_brands"@ != "tray_uuid"@,
        "tray_sub_brands"@ != "tray_weight"@,
        "tray_sub_brands"@ != "xcam_info"@,
        "tray_type"@ != "tray_uuid"@,
        "tray_type"@ != "tray_weight"@,
        "tray_type"@ != "xcam_info"@,
        "tray_uuid"@ != "tray_weight"@,
        "tray_uuid"@ != "xcam_info"@,
        "tray_weight"@ != "xcam_info"@,
{
    reveal_strlit("id");
    reveal_strlit("bed_temp");
    reveal_strlit("bed_temp_type");
    reveal_strlit("cali_idx");
    reveal_strlit("cols");
    reveal_strlit("ctype");
    reveal_strlit("drying_temp");
    reveal_strlit("drying_time");
    reveal_strlit("nozzle_temp_max");
    reveal_strlit("nozzle_temp_min");
    reveal_strlit("remain");
    reveal_strlit("tag_uid");
    reveal_strlit("tray_color");
    reveal_strlit("tray_diameter");
    reveal_strlit("tray_id_name");
    reveal_strlit("tray_info_idx");
    reveal_strlit("tray_sub_brands");
    reveal_strlit("tray_type");
    reveal_strlit("tray_uuid");
    reveal_strlit("tray_weight");
    reveal_strlit("xcam_info");
    assert("id"@.len() == 2);
    assert("bed_temp"@.len() == 8);
    assert("bed_temp_type"@.len() == 13);
    assert("cali_idx"@.len() == 8);
    assert("cols"@.len() == 4);
    assert("ctype"@.len() == 5);
    assert("drying_temp"@.len() == 11);
    assert("drying_time"@.len() == 11);
    assert("nozzle_temp_max"@.len() == 15);
    assert("nozzle_temp_min"@.len() == 15);
    assert("remain"@.len() == 6);
    assert("tag_uid"@.len() == 7);
    assert("tray_color"@.len() == 10);
    assert("tray_diameter"@.len() == 13);
    assert("tray_id_name"@.len() == 12);
    assert("tray_info_idx"@.len() == 13);
    assert("tray_sub_brands"@.len() == 15);
    assert("tray_type"@.len() == 9);
    assert("tray_uuid"@.len() == 9);
    assert("tray_weight"@.len() == 11);
    assert("xcam_info"@.len() == 9);
    assert("bed_temp"@[0] != "cali_idx"@[0]);
    assert("bed_temp_type"@[0] != "tray_diameter"@[0]);
    assert("bed_temp_type"@[0] != "tray_info_idx"@[0]);
    assert("drying_temp"@[8] != "drying_time"@[8]);
    assert("drying_temp"@[0] != "tray_weight"@[0]);
    assert("drying_time"@[0] != "tray_weight"@[0]);
    assert("nozzle_temp_max"@[13] != "nozzle_temp_min"@[13]);
    assert("nozzle_temp_max"@[0] != "tray_sub_brands"@[0]);
    assert("nozzle_temp_min"@[0] != "tray_sub_brands"@[0]);
    assert("tray_diameter"@[5] != "tray_info_idx"@[5]);
    assert("tray_type"@[5] != "tray_uuid"@[5]);
    assert("tray_type"@[0] != "xcam_info"@[0]);
    assert("tray_uuid"@[0] != "xcam_info"@[0]);
}

proof fn lemma_usize_round_trip(n: usize)
    ensures
        usize_of(usize_json(n)) == Some(n),
{
    let t = nat_text(n as nat);
    lemma_nat_text(n as nat);
    lemma_run_to_end(t, 0, CharClass::Digit);
}

proof fn lemma_isize_round_trip(n: isize)
    ensures
        isize_of(isize_json(n)) == Some(n),
{
    let m = magnitude(n as int);
    let s = sign_text(n as int);
    let w = nat_text(m);
    let t = s + w;
    lemma_nat_text(m);
    let a = s.len() as int;
    assert(t[a] == w[0]);
    assert(sign_len(t) == a);
    assert forall|i: int| a <= i < t.len() implies in_class(#[trigger] t[i], CharClass::Digit) by {
        assert(t[i] == w[i - a]);
    }
    lemma_run_to_end(t, a, CharClass::Digit);
    assert(t.subrange(a, t.len() as int) == w);
}

proof fn lemma_thousandths_round_trip(v: i64)
    ensures
        thousandths_of(thousandths_json(v)) == Some(v),
{
    lemma_three_decimals_round_trip(v);
}

proof fn lemma_texts_round_trip(s: Seq<Seq<char>>)
    ensures
        texts_list(texts_json(s)) == Some(s),
    decreases s.len(),
{
    let items = texts_json(s)->Array_0;
    if s.len() == 0 {
        assert(s == Seq::<Seq<char>>::empty());
    } else {
        lemma_texts_round_trip(s.drop_last());
        assert(items.drop_last() == texts_json(s.drop_last())->Array_0);
        assert(s.drop_last().push(s.last()) == s);
    }
}

proof fn lemma_upgrade_state_round_trip(u: UpgradeStateView)
    ensures
        upgrade_state_of(upgrade_state_json(u)) == Some(u),
{
    lemma_upgrade_state_keys();
    lemma_usize_round_trip(u.dis_state);
    lemma_usize_round_trip(u.new_version_state);
}

proof fn lemma_module_info_round_trip(m: ModuleInfoView)
    ensures
        module_info_of(module_info_json(m)) == Some(m),
{
    lemma_module_info_keys();
}

proof fn lemma_modules_round_trip(s: Seq<ModuleInfoView>)
    ensures
        modules_list(modules_json(s)) == Some(s),
    decreases s.len(),
{
    let items = modules_json(s)->Array_0;
    if s.len() == 0 {
        assert(s == Seq::<ModuleInfoView>::empty());
    } else {
        lemma_modules_round_trip(s.drop_last());
        lemma_module_info_round_trip(s.last());
        assert(items.drop_last() == modules_json(s.drop_last())->Array_0);
        assert(s.drop_last().push(s.last()) == s);
    }
}

#[verifier::rlimit(50)]
proof fn lemma_tray_round_trip(t: TrayView)
    ensures
        tray_of(tray_json(t)) == Some(t),
{
    lemma_tray_keys();
    lemma_isize_round_trip(t.info.cali_idx);
    lemma_isize_round_trip(t.info.remain);
    lemma_usize_round_trip(t.info.ctype);
    lemma_texts_round_trip(t.info.cols);
    assert(texts_of(Seq::<JsonView>::empty()) == Some(Seq::<Seq<char>>::empty()));
    if t.info == tray_info_default() {
        assert(tray_info_of(tray_json(t)) == Some(tray_info_default()));
    } else {
        assert(tray_info_of(tray_json(t)) == Some(t.info));
    }
}

proof fn lemma_trays_round_trip(s: Seq<TrayView>)
    ensures
        trays_list(trays_json(s)) == Some(s),
    decreases s.len(),
{
    let items = trays_json(s)->Array_0;
    if s.len() == 0 {
        assert(s == Seq::<TrayView>::empty());
    } else {
        lemma_trays_round_trip(s.drop_last());
        lemma_tray_round_trip(s.last());
        assert(items.drop_last() == trays_json(s.drop_last())->Array_0);
        assert(s.drop_last().push(s.last()) == s);
    }
}

proof fn lemma_ams_info_round_trip(a: AmsInfoView)
    ensures
        ams_info_of(ams_info_json(a)) == Some(a),
{
    lemma_ams_info_keys();
    lemma_trays_round_trip(a.tray);
}

proof fn lemma_ams_infos_round_trip(s: Seq<AmsInfoView>)
    ensures
        ams_infos_list(ams_infos_json(s)) == Some(s),
    decreases s.len(),
{
    let items = ams_infos_json(s)->Array_0;
    if s.len() == 0 {
        assert(s == Seq::<AmsInfoView>::empty());
    } else {
        lemma_ams_infos_round_trip(s.drop_last());
        lemma_ams_info_round_trip(s.last());
        assert(items.drop_last() == ams_infos_json(s.drop_last())->Array_0);
        assert(s.drop_last().push(s.last()) == s);
    }
}

proof fn lemma_ams_round_trip(a: AmsView)
    ensures
        ams_of(ams_json(a)) == Some(a),
{
    lemma_ams_keys();
    lemma_ams_infos_round_trip(a.ams);
    lemma_usize_round_trip(a.version);
}

#[verifier::rlimit(100)]
proof fn lemma_print_value_round_trip(id: Seq<char>, v: PrintValueView)
    ensures
        print_value_of(
            JsonView::Object(with_print_value(report_head("push_status"@, id), v)),
        ) == Some(v),
{
    lemma_body_keys();
    if let Some(a) = v.ams {
        lemma_ams_round_trip(a);
    }
    if let Some(u) = v.upgrade_state {
        lemma_upgrade_state_round_trip(u);
    }
    if v.module.len() == 0 {
        assert(v.module == Seq::<ModuleInfoView>::empty());
    } else {
        lemma_modules_round_trip(v.module);
    }
    if let Some(n) = v.fan_gear {
        lemma_isize_round_trip(n);
    }
    if let Some(n) = v.nozzle_temper {
        lemma_thousandths_round_trip(n);
    }
    if let Some(n) = v.bed_temper {
        lemma_thousandths_round_trip(n);
    }
    lemma_usize_round_trip(v.version);
}

/// Encoding a report and decoding the result gives the same report.
pub proof fn lemma_report_round_trip(r: Report)
    ensures
        report_of(report_json(r@)) == Ok::<ReportView, DecodeError>(r@),
{
    lemma_top_keys();
    lemma_body_keys();
    match r@ {
        ReportView::Print { command, sequence_id, value } => {
            lemma_print_value_round_trip(sequence_id, value);
        },
        ReportView::Info { command, sequence_id, module } => {
            lemma_modules_round_trip(module);
        },
        ReportView::McPrint { .. } => {},
    }
}

} // verus!

verus! {

fn add_member(out: &mut Vec<(String, Json)>, k: &str, v: Json)
    ensures
        final(out)@.len() == old(out)@.len() + 1,
        members_view(*final(out), final(out)@.len() as int) == members_view(
            *old(out),
            old(out)@.len() as int,
        ).push((k@, v@)),
{
    let ghost before = *out;
    let ghost e = (k@, v@);
    out.push((k.to_owned(), v));
    proof {
        lemma_members_view(before, before@.len() as int);
        lemma_members_view(*out, out@.len() as int);
        assert(members_view(*out, out@.len() as int) == members_view(
            before,
            before@.len() as int,
        ).push(e));
    }
}

fn usize_to_json(n: usize) -> (r: Json)
    ensures
        r@ == usize_json(n),
{
    let mut t: Vec<char> = Vec::new();
    push_nat(&mut t, n as u64);
    Json::Number(string_of(&t))
}

fn isize_to_json(n: isize) -> (r: Json)
    ensures
        r@ == isize_json(n),
{
    let mut t: Vec<char> = Vec::new();
    if n < 0 {
        t.push('-');
    }
    let m: u64 = if n < 0 {
        (0i128 - n as i128) as u64
    } else {
        n as u64
    };
    push_nat(&mut t, m);
    Json::Number(string_of(&t))
}

fn thousandths_to_json(v: i64) -> (r: Json)
    ensures
        r@ == thousandths_json(v),
{
    Json::Number(string_of(&three_decimals(v)))
}

fn texts_to_json(s: &Vec<String>) -> (r: Json)
    ensures
        r@ == texts_json(texts_view(s@)),
{
    let mut out: Vec<Json> = Vec::new();
    let mut i: usize = 0;
    while i < s.len()
        invariant
            i <= s@.len(),
            out@.len() == i,
            forall|q: int| 0 <= q < i ==> #[trigger] out@[q]@ == JsonView::Str(s@[q]@),
        decreases s@.len() - i,
    {
        out.push(Json::Str(s[i].clone()));
        i = i + 1;
    }
    proof {
        lemma_items_view(out, out@.len() as int);
        assert(items_view(out, out@.len() as int) == texts_json(texts_view(s@))->Array_0);
    }
    Json::Array(out)
}

fn modules_to_json(s: &Vec<ModuleInfo>) -> (r: Json)
    ensures
        r@ == modules_json(modules_view(s@)),
{
    let mut out: Vec<Json> = Vec::new();
    let mut i: usize = 0;
    while i < s.len()
        invariant
            i <= s@.len(),
            out@.len() == i,
            forall|q: int| 0 <= q < i ==> #[trigger] out@[q]@ == module_info_json(s@[q]@),
        decreases s@.len() - i,
    {
        out.push(s[i].to_json());
        i = i + 1;
    }
    proof {
        lemma_items_view(out, out@.len() as int);
        assert(items_view(out, out@.len() as int) == modules_json(modules_view(s@))->Array_0);
    }
    Json::Array(out)
}

fn trays_to_json(s: &Vec<Tray>) -> (r: Json)
    ensures
        r@ == trays_json(trays_view(s@)),
{
    let mut out: Vec<Json> = Vec::new();
    let mut i: usize = 0;
    while i < s.len()
        invariant
            i <= s@.len(),
            out@.len() == i,
            forall|q: int| 0 <= q < i ==> #[trigger] out@[q]@ == tray_json(s@[q]@),
        decreases s@.len() - i,
    {
        out.push(s[i].to_json());
        i = i + 1;
    }
    proof {
        lemma_items_view(out, out@.len() as int);
        assert(items_view(out, out@.len() as int) == trays_json(trays_view(s@))->Array_0);
    }
    Json::Array(out)
}

fn ams_infos_to_json(s: &Vec<AmsInfo>) -> (r: Json)
    ensures
        r@ == ams_infos_json(ams_infos_view(s@)),
{
    let mut out: Vec<Json> = Vec::new();
    let mut i: usize = 0;
    while i < s.len()
        invariant
            i <= s@.len(),
            out@.len() == i,
            forall|q: int| 0 <= q < i ==> #[trigger] out@[q]@ == ams_info_json(s@[q]@),
        decreases s@.len() - i,
    {
        out.push(s[i].to_json());
        i = i + 1;
    }
    proof {
        lemma_items_view(out, out@.len() as int);
        assert(items_view(out, out@.len() as int) == ams_infos_json(ams_infos_view(s@))->Array_0);
    }
    Json::Array(out)
}

impl UpgradeState {
    pub fn to_json(&self) -> (r: Json)
        ensures
            r@ == upgrade_state_json(self@),
    {
        let mut out: Vec<(String, Json)> = Vec::new();
        add_member(&mut out, "dis_state", usize_to_json(self.dis_state));
        add_member(&mut out, "new_version_state", usize_to_json(self.new_version_state));
        add_member(
            &mut out,
            "ota_new_version_number",
            Json::Str(self.ota_new_version_number.clone()),
        );
        assert(members_view(out, out@.len() as int) == upgrade_state_json(self@)->Object_0);
        Json::Object(out)
    }
}

impl ModuleInfo {
    pub fn to_json(&self) -> (r: Json)
        ensures
            r@ == module_info_json(self@),
    {
        let mut out: Vec<(String, Json)> = Vec::new();
        add_member(&mut out, "hw_ver", Json::Str(self.hw_ver.clone()));
        add_member(&mut out, "name", Json::Str(self.name.clone()));
        add_member(&mut out, "sn", Json::Str(self.sn.clone()));
        add_member(&mut out, "sw_ver", Json::Str(self.sw_ver.clone()));
        assert(members_view(out, out@.len() as int) == module_info_json(self@)->Object_0);
        Json::Object(out)
    }
}

impl TrayInfo {
    /// Every member is at its default: empty text, zero, no colours.
    pub fn is_default(&self) -> (r: bool)
        ensures
            r == (self@ == tray_info_default()),
    {
        let r = self.bed_temp.as_str().is_empty()
            && self.bed_temp_type.as_str().is_empty()
            && self.cali_idx == 0
            && self.cols.len() == 0
            && self.ctype == 0
            && self.drying_temp.as_str().is_empty()
            && self.drying_time.as_str().is_empty()
            && self.nozzle_temp_max.as_str().is_empty()
            && self.nozzle_temp_min.as_str().is_empty()
            && self.remain == 0
            && self.tag_uid.as_str().is_empty()
            && self.tray_color.as_str().is_empty()
            && self.tray_diameter.as_str().is_empty()
            && self.tray_id_name.as_str().is_empty()
            && self.tray_info_idx.as_str().is_empty()
            && self.tray_sub_brands.as_str().is_empty()
            && self.tray_type.as_str().is_empty()
            && self.tray_uuid.as_str().is_empty()
            && self.tray_weight.as_str().is_empty()
            && self.xcam_info.as_str().is_empty();
        proof {
            if r {
                assert(texts_view(self.cols@) == Seq::<Seq<char>>::empty());
                assert(self.bed_temp@ == Seq::<char>::empty());
                assert(self.bed_temp_type@ == Seq::<char>::empty());
                assert(self.drying_temp@ == Seq::<char>::empty());
                assert(self.drying_time@ == Seq::<char>::empty());
                assert(self.nozzle_temp_max@ == Seq::<char>::empty());
                assert(self.nozzle_temp_min@ == Seq::<char>::empty());
                assert(self.tag_uid@ == Seq::<char>::empty());
                assert(self.tray_color@ == Seq::<char>::empty());
                assert(self.tray_diameter@ == Seq::<char>::empty());
                assert(self.tray_id_name@ == Seq::<char>::empty());
                assert(self.tray_info_idx@ == Seq::<char>::empty());
                assert(self.tray_sub_brands@ == Seq::<char>::empty());
                assert(self.tray_type@ == Seq::<char>::empty());
                assert(self.tray_uuid@ == Seq::<char>::empty());
                assert(self.tray_weight@ == Seq::<char>::empty());
                assert(self.xcam_info@ == Seq::<char>::empty());
            } else {
                assert(Seq::<char>::empty().len() == 0);
                assert(Seq::<Seq<char>>::empty().len() == 0);
                assert(texts_view(self.cols@).len() == self.cols@.len());
            }
        }
        r
    }

    /// Appends every member, in schema order.
    fn add_members(&self, out: &mut Vec<(String, Json)>)
        ensures
            members_view(*final(out), final(out)@.len() as int) == with_tray_info(
                members_view(*old(out), old(out)@.len() as int),
                self@,
            ),
    {
        let ghost start = members_view(*out, out@.len() as int);
        add_member(out, "bed_temp", Json::Str(self.bed_temp.clone()));
        add_member(out, "bed_temp_type", Json::Str(self.bed_temp_type.clone()));
        add_member(out, "cali_idx", isize_to_json(self.cali_idx));
        add_member(out, "cols", texts_to_json(&self.cols));
        add_member(out, "ctype", usize_to_json(self.ctype));
        add_member(out, "drying_temp", Json::Str(self.drying_temp.clone()));
        add_member(out, "drying_time", Json::Str(self.drying_time.clone()));
        add_member(out, "nozzle_temp_max", Json::Str(self.nozzle_temp_max.clone()));
        add_member(out, "nozzle_temp_min", Json::Str(self.nozzle_temp_min.clone()));
        add_member(out, "remain", isize_to_json(self.remain));
        add_member(out, "tag_uid", Json::Str(self.tag_uid.clone()));
        add_member(out, "tray_color", Json::Str(self.tray_color.clone()));
        add_member(out, "tray_diameter", Json::Str(self.tray_diameter.clone()));
        add_member(out, "tray_id_name", Json::Str(self.tray_id_name.clone()));
        add_member(out, "tray_info_idx", Json::Str(self.tray_info_idx.clone()));
        add_member(out, "tray_sub_brands", Json::Str(self.tray_sub_brands.clone()));
        add_member(out, "tray_type", Json::Str(self.tray_type.clone()));
        add_member(out, "tray_uuid", Json::Str(self.tray_uuid.clone()));
        add_member(out, "tray_weight", Json::Str(self.tray_weight.clone()));
        add_member(out, "xcam_info", Json::Str(self.xcam_info.clone()));
    }
}

impl Tray {
    pub fn to_json(&self) -> (r: Json)
        ensures
            r@ == tray_json(self@),
    {
        let mut out: Vec<(String, Json)> = Vec::new();
        add_member(&mut out, "id", Json::Str(self.id.clone()));
        if !self.info.is_default() {
            self.info.add_members(&mut out);
        }
        assert(members_view(out, out@.len() as int) == tray_json(self@)->Object_0);
        Json::Object(out)
    }
}

impl AmsInfo {
    pub fn to_json(&self) -> (r: Json)
        ensures
            r@ == ams_info_json(self@),
    {
        let mut out: Vec<(String, Json)> = Vec::new();
        add_member(&mut out, "humidity", Json::Str(self.humidity.clone()));
        add_member(&mut out, "id", Json::Str(self.id.clone()));
        add_member(&mut out, "temp", Json::Str(self.temp.clone()));
        add_member(&mut out, "tray", trays_to_json(&self.tray));
        assert(members_view(out, out@.len() as int) == ams_info_json(self@)->Object_0);
        Json::Object(out)
    }
}

impl Ams {
    pub fn to_json(&self) -> (r: Json)
        ensures
            r@ == ams_json(self@),
    {
        let mut out: Vec<(String, Json)> = Vec::new();
        add_member(&mut out, "ams", ams_infos_to_json(&self.ams));
        add_member(&mut out, "version", usize_to_json(self.version));
        assert(members_view(out, out@.len() as int) == ams_json(self@)->Object_0);
        Json::Object(out)
    }
}

impl PrintValue {
    /// Appends the members that differ from their defaults.
    fn add_members(&self, out: &mut Vec<(String, Json)>)
        ensures
            members_view(*final(out), final(out)@.len() as int) == with_print_value(
                members_view(*old(out), old(out)@.len() as int),
                self@,
            ),
    {
        let ghost start = members_view(*out, out@.len() as int);
        let ghost v = self@;
        match &self.ams {
            Some(a) => add_member(out, "ams", a.to_json()),
            None => {},
        }
        let ghost s1 = members_view(*out, out@.len() as int);
        match &self.upgrade_state {
            Some(u) => add_member(out, "upgrade_state", u.to_json()),
            None => {},
        }
        let ghost s2 = members_view(*out, out@.len() as int);
        if self.module.len() != 0 {
            add_member(out, "module", modules_to_json(&self.module));
        }
        let ghost s3 = members_view(*out, out@.len() as int);
        match &self.cooling_fan_speed {
            Some(s) => add_member(out, "cooling_fan_speed", Json::Str(s.clone())),
            None => {},
        }
        let ghost s4 = members_view(*out, out@.len() as int);
        match self.fan_gear {
            Some(n) => add_member(out, "fan_gear", isize_to_json(n)),
            None => {},
        }
        let ghost s5 = members_view(*out, out@.len() as int);
        match self.nozzle_temper {
            Some(n) => add_member(out, "nozzle_temper", thousandths_to_json(n)),
            None => {},
        }
        let ghost s6 = members_view(*out, out@.len() as int);
        match self.bed_temper {
            Some(n) => add_member(out, "bed_temper", thousandths_to_json(n)),
            None => {},
        }
        let ghost s7 = members_view(*out, out@.len() as int);
        if self.version != 0 {
            add_member(out, "version", usize_to_json(self.version));
        }
    }
}

impl Report {
    /// The JSON form of this report, which [`Report::from_json`] reads back.
    pub fn to_json(&self) -> (r: Json)
        ensures
            r@ == report_json(self@),
    {
        let mut body: Vec<(String, Json)> = Vec::new();
        match self {
            Report::Print { sequence_id, value, .. } => {
                add_member(&mut body, "command", Json::Str("push_status".to_owned()));
                add_member(&mut body, "sequence_id", Json::Str(sequence_id.clone()));
                value.add_members(&mut body);
                let mut top: Vec<(String, Json)> = Vec::new();
                add_member(&mut top, "print", Json::Object(body));
                assert(members_view(top, top@.len() as int) == report_json(self@)->Object_0);
                Json::Object(top)
            },
            Report::Info { sequence_id, value: InfoValue::Module(m), .. } => {
                add_member(&mut body, "command", Json::Str("get_version".to_owned()));
                add_member(&mut body, "sequence_id", Json::Str(sequence_id.clone()));
                add_member(&mut body, "module", modules_to_json(m));
                let mut top: Vec<(String, Json)> = Vec::new();
                add_member(&mut top, "info", Json::Object(body));
                assert(members_view(top, top@.len() as int) == report_json(self@)->Object_0);
                Json::Object(top)
            },
            Report::McPrint { sequence_id, param, .. } => {
                add_member(&mut body, "command", Json::Str("push_info".to_owned()));
                add_member(&mut body, "sequence_id", Json::Str(sequence_id.clone()));
                add_member(&mut body, "param", param.duplicate());
                let mut top: Vec<(String, Json)> = Vec::new();
                add_member(&mut top, "mc_print", Json::Object(body));
                assert(members_view(top, top@.len() as int) == report_json(self@)->Object_0);
                Json::Object(top)
            },
        }
    }
}

} // verus!

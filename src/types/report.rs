//! Structured reports: the JSON objects a printer publishes, and their
//! decoding and encoding. Decoding follows the wire schema: a report is an
//! object with one member, `print`, `info` or `mc_print`; members a variant
//! does not know are ignored; optional members may be absent (or `null` where
//! the field is optional); temperatures are read in thousandths of a degree.
use vstd::prelude::*;

pub mod json_form;

use crate::error::DecodeError;
use crate::json::{
    field,
    isize_of,
    lemma_items_view,
    lemma_members_view,
    same_text,
    str_of,
    thousandths_of,
    usize_of,
    Json,
    JsonView,
};

verus! {

broadcast use
    vstd::std_specs::vec::group_vec_axioms,
    crate::json::lemma_first_member_push,
    crate::json::lemma_first_member_concat,
;

#[derive(Clone, Copy, PartialEq, Eq, Default, Debug, Structural)]
pub enum PrintCommand {
    #[default]
    PushStatus,
}

#[derive(Clone, Copy, PartialEq, Eq, Default, Debug, Structural)]
pub enum InfoCommand {
    #[default]
    GetVersion,
}

#[derive(Clone, Copy, PartialEq, Eq, Default, Debug, Structural)]
pub enum McPrintCommand {
    #[default]
    PushInfo,
}

#[derive(Clone, PartialEq, Default, Debug)]
pub struct UpgradeState {
    pub dis_state: usize,
    pub new_version_state: usize,
    pub ota_new_version_number: String,
}

#[derive(Clone, PartialEq, Default, Debug)]
pub struct ModuleInfo {
    pub hw_ver: String,
    pub name: String,
    pub sn: String,
    pub sw_ver: String,
}

#[derive(Clone, PartialEq, Default, Debug)]
pub struct TrayInfo {
    pub bed_temp: String,
    pub bed_temp_type: String,
    pub cali_idx: isize,
    pub cols: Vec<String>,
    pub ctype: usize,
    pub drying_temp: String,
    pub drying_time: String,
    pub nozzle_temp_max: String,
    pub nozzle_temp_min: String,
    pub remain: isize,
    pub tag_uid: String,
    pub tray_color: String,
    pub tray_diameter: String,
    pub tray_id_name: String,
    pub tray_info_idx: String,
    pub tray_sub_brands: String,
    pub tray_type: String,
    pub tray_uuid: String,
    pub tray_weight: String,
    pub xcam_info: String,
}

/// A filament tray; `info` is absent for an empty tray.
#[derive(Clone, PartialEq, Default, Debug)]
pub struct Tray {
    pub id: String,
    pub info: TrayInfo,
}

#[derive(Clone, PartialEq, Default, Debug)]
pub struct AmsInfo {
    pub humidity: String,
    pub id: String,
    pub temp: String,
    pub tray: Vec<Tray>,
}

#[derive(Clone, PartialEq, Default, Debug)]
pub struct Ams {
    pub ams: Vec<AmsInfo>,
    pub version: usize,
}

/// Status fields of a `print` report; temperatures in thousandths of a degree.
#[derive(Clone, PartialEq, Default, Debug)]
pub struct PrintValue {
    pub ams: Option<Ams>,
    pub upgrade_state: Option<UpgradeState>,
    pub module: Vec<ModuleInfo>,
    pub cooling_fan_speed: Option<String>,
    pub fan_gear: Option<isize>,
    pub nozzle_temper: Option<i64>,
    pub bed_temper: Option<i64>,
    pub version: usize,
}

#[derive(Clone, PartialEq, Debug)]
pub enum InfoValue {
    Module(Vec<ModuleInfo>),
}

#[derive(PartialEq, Debug)]
#[allow(inconsistent_fields)]
pub enum Report {
    Info { command: InfoCommand, sequence_id: String, value: InfoValue },
    Print { command: PrintCommand, sequence_id: String, value: PrintValue },
    McPrint { command: McPrintCommand, sequence_id: String, param: Json },
}

pub struct UpgradeStateView {
    pub dis_state: usize,
    pub new_version_state: usize,
    pub ota_new_version_number: Seq<char>,
}

pub struct ModuleInfoView {
    pub hw_ver: Seq<char>,
    pub name: Seq<char>,
    pub sn: Seq<char>,
    pub sw_ver: Seq<char>,
}

pub struct TrayInfoView {
    pub bed_temp: Seq<char>,
    pub bed_temp_type: Seq<char>,
    pub cali_idx: isize,
    pub cols: Seq<Seq<char>>,
    pub ctype: usize,
    pub drying_temp: Seq<char>,
    pub drying_time: Seq<char>,
    pub nozzle_temp_max: Seq<char>,
    pub nozzle_temp_min: Seq<char>,
    pub remain: isize,
    pub tag_uid: Seq<char>,
    pub tray_color: Seq<char>,
    pub tray_diameter: Seq<char>,
    pub tray_id_name: Seq<char>,
    pub tray_info_idx: Seq<char>,
    pub tray_sub_brands: Seq<char>,
    pub tray_type: Seq<char>,
    pub tray_uuid: Seq<char>,
    pub tray_weight: Seq<char>,
    pub xcam_info: Seq<char>,
}

pub struct TrayView {
    pub id: Seq<char>,
    pub info: TrayInfoView,
}

pub struct AmsInfoView {
    pub humidity: Seq<char>,
    pub id: Seq<char>,
    pub temp: Seq<char>,
    pub tray: Seq<TrayView>,
}

pub struct AmsView {
    pub ams: Seq<AmsInfoView>,
    pub version: usize,
}

pub struct PrintValueView {
    pub ams: Option<AmsView>,
    pub upgrade_state: Option<UpgradeStateView>,
    pub module: Seq<ModuleInfoView>,
    pub cooling_fan_speed: Option<Seq<char>>,
    pub fan_gear: Option<isize>,
    pub nozzle_temper: Option<i64>,
    pub bed_temper: Option<i64>,
    pub version: usize,
}

#[allow(inconsistent_fields)]
pub enum ReportView {
    Info { command: InfoCommand, sequence_id: Seq<char>, module: Seq<ModuleInfoView> },
    Print { command: PrintCommand, sequence_id: Seq<char>, value: PrintValueView },
    McPrint { command: McPrintCommand, sequence_id: Seq<char>, param: JsonView },
}

pub open spec fn texts_view(v: Seq<String>) -> Seq<Seq<char>> {
    Seq::new(v.len(), |i: int| v[i]@)
}

pub open spec fn modules_view(v: Seq<ModuleInfo>) -> Seq<ModuleInfoView> {
    Seq::new(v.len(), |i: int| v[i]@)
}

pub open spec fn trays_view(v: Seq<Tray>) -> Seq<TrayView> {
    Seq::new(v.len(), |i: int| v[i]@)
}

pub open spec fn ams_infos_view(v: Seq<AmsInfo>) -> Seq<AmsInfoView> {
    Seq::new(v.len(), |i: int| v[i]@)
}

impl View for UpgradeState {
    type V = UpgradeStateView;

    open spec fn view(&self) -> UpgradeStateView {
        UpgradeStateView {
            dis_state: self.dis_state,
            new_version_state: self.new_version_state,
            ota_new_version_number: self.ota_new_version_number@,
        }
    }
}

impl View for ModuleInfo {
    type V = ModuleInfoView;

    open spec fn view(&self) -> ModuleInfoView {
        ModuleInfoView { hw_ver: self.hw_ver@, name: self.name@, sn: self.sn@, sw_ver: self.sw_ver@ }
    }
}

impl View for TrayInfo {
    type V = TrayInfoView;

    open spec fn view(&self) -> TrayInfoView {
        TrayInfoView {
            bed_temp: self.bed_temp@,
            bed_temp_type: self.bed_temp_type@,
            cali_idx: self.cali_idx,
            cols: texts_view(self.cols@),
            ctype: self.ctype,
            drying_temp: self.drying_temp@,
            drying_time: self.drying_time@,
            nozzle_temp_max: self.nozzle_temp_max@,
            nozzle_temp_min: self.nozzle_temp_min@,
            remain: self.remain,
            tag_uid: self.tag_uid@,
            tray_color: self.tray_color@,
            tray_diameter: self.tray_diameter@,
            tray_id_name: self.tray_id_name@,
            tray_info_idx: self.tray_info_idx@,
            tray_sub_brands: self.tray_sub_brands@,
            tray_type: self.tray_type@,
            tray_uuid: self.tray_uuid@,
            tray_weight: self.tray_weight@,
            xcam_info: self.xcam_info@,
        }
    }
}

impl View for Tray {
    type V = TrayView;

    open spec fn view(&self) -> TrayView {
        TrayView { id: self.id@, info: self.info@ }
    }
}

impl View for AmsInfo {
    type V = AmsInfoView;

    open spec fn view(&self) -> AmsInfoView {
        AmsInfoView {
            humidity: self.humidity@,
            id: self.id@,
            temp: self.temp@,
            tray: trays_view(self.tray@),
        }
    }
}

impl View for Ams {
    type V = AmsView;

    open spec fn view(&self) -> AmsView {
        AmsView { ams: ams_infos_view(self.ams@), version: self.version }
    }
}

impl View for PrintValue {
    type V = PrintValueView;

    open spec fn view(&self) -> PrintValueView {
        PrintValueView {
            ams: match self.ams {
                Some(a) => Some(a@),
                None => None,
            },
            upgrade_state: match self.upgrade_state {
                Some(u) => Some(u@),
                None => None,
            },
            module: modules_view(self.module@),
            cooling_fan_speed: match self.cooling_fan_speed {
                Some(s) => Some(s@),
                None => None,
            },
            fan_gear: self.fan_gear,
            nozzle_temper: self.nozzle_temper,
            bed_temper: self.bed_temper,
            version: self.version,
        }
    }
}

impl View for Report {
    type V = ReportView;

    open spec fn view(&self) -> ReportView {
        match self {
            Report::Info { command, sequence_id, value: InfoValue::Module(m) } => ReportView::Info {
                command: *command,
                sequence_id: sequence_id@,
                module: modules_view(m@),
            },
            Report::Print { command, sequence_id, value } => ReportView::Print {
                command: *command,
                sequence_id: sequence_id@,
                value: value@,
            },
            Report::McPrint { command, sequence_id, param } => ReportView::McPrint {
                command: *command,
                sequence_id: sequence_id@,
                param: param@,
            },
        }
    }
}

// Member readers. A required member must be present with the right kind of
// value; a defaulted one may be absent; an optional one may be absent or null.

pub open spec fn text_at(o: JsonView, k: Seq<char>) -> Option<Seq<char>> {
    match field(o, k) {
        Some(v) => str_of(v),
        None => None,
    }
}

pub open spec fn text_or_empty(o: JsonView, k: Seq<char>) -> Option<Seq<char>> {
    match field(o, k) {
        Some(v) => str_of(v),
        None => Some(seq![]),
    }
}

pub open spec fn usize_at(o: JsonView, k: Seq<char>) -> Option<usize> {
    match field(o, k) {
        Some(v) => usize_of(v),
        None => None,
    }
}

pub open spec fn usize_or_zero(o: JsonView, k: Seq<char>) -> Option<usize> {
    match field(o, k) {
        Some(v) => usize_of(v),
        None => Some(0),
    }
}

pub open spec fn isize_or_zero(o: JsonView, k: Seq<char>) -> Option<isize> {
    match field(o, k) {
        Some(v) => isize_of(v),
        None => Some(0),
    }
}

pub open spec fn optional_text(o: JsonView, k: Seq<char>) -> Option<Option<Seq<char>>> {
    match field(o, k) {
        None => Some(None),
        Some(JsonView::Null) => Some(None),
        Some(v) => match str_of(v) {
            Some(s) => Some(Some(s)),
            None => None,
        },
    }
}

pub open spec fn optional_isize(o: JsonView, k: Seq<char>) -> Option<Option<isize>> {
    match field(o, k) {
        None => Some(None),
        Some(JsonView::Null) => Some(None),
        Some(v) => match isize_of(v) {
            Some(n) => Some(Some(n)),
            None => None,
        },
    }
}

pub open spec fn optional_thousandths(o: JsonView, k: Seq<char>) -> Option<Option<i64>> {
    match field(o, k) {
        None => Some(None),
        Some(JsonView::Null) => Some(None),
        Some(v) => match thousandths_of(v) {
            Some(n) => Some(Some(n)),
            None => None,
        },
    }
}

/// Each item read with `str_of`, where all of them read.
pub open spec fn texts_of(items: Seq<JsonView>) -> Option<Seq<Seq<char>>>
    decreases items.len(),
{
    if items.len() == 0 {
        Some(seq![])
    } else {
        match (texts_of(items.drop_last()), str_of(items.last())) {
            (Some(a), Some(x)) => Some(a.push(x)),
            _ => None,
        }
    }
}

pub open spec fn texts_list(j: JsonView) -> Option<Seq<Seq<char>>> {
    match j {
        JsonView::Array(items) => texts_of(items),
        _ => None,
    }
}

proof fn lemma_texts_prefix(items: Seq<JsonView>, k: int)
    requires
        0 <= k <= items.len(),
        texts_of(items) is Some,
    ensures
        texts_of(items.take(k)) is Some,
    decreases items.len(),
{
    if k < items.len() {
        assert(items.drop_last().take(k) == items.take(k));
        lemma_texts_prefix(items.drop_last(), k);
    } else {
        assert(items.take(k) == items);
    }
}

/// Each item read with `module_info_of`, where all of them read.
pub open spec fn modules_of(items: Seq<JsonView>) -> Option<Seq<ModuleInfoView>>
    decreases items.len(),
{
    if items.len() == 0 {
        Some(seq![])
    } else {
        match (modules_of(items.drop_last()), module_info_of(items.last())) {
            (Some(a), Some(x)) => Some(a.push(x)),
            _ => None,
        }
    }
}

pub open spec fn modules_list(j: JsonView) -> Option<Seq<ModuleInfoView>> {
    match j {
        JsonView::Array(items) => modules_of(items),
        _ => None,
    }
}

proof fn lemma_modules_prefix(items: Seq<JsonView>, k: int)
    requires
        0 <= k <= items.len(),
        modules_of(items) is Some,
    ensures
        modules_of(items.take(k)) is Some,
    decreases items.len(),
{
    if k < items.len() {
        assert(items.drop_last().take(k) == items.take(k));
        lemma_modules_prefix(items.drop_last(), k);
    } else {
        assert(items.take(k) == items);
    }
}

/// Each item read with `tray_of`, where all of them read.
pub open spec fn trays_of(items: Seq<JsonView>) -> Option<Seq<TrayView>>
    decreases items.len(),
{
    if items.len() == 0 {
        Some(seq![])
    } else {
        match (trays_of(items.drop_last()), tray_of(items.last())) {
            (Some(a), Some(x)) => Some(a.push(x)),
            _ => None,
        }
    }
}

pub open spec fn trays_list(j: JsonView) -> Option<Seq<TrayView>> {
    match j {
        JsonView::Array(items) => trays_of(items),
        _ => None,
    }
}

proof fn lemma_trays_prefix(items: Seq<JsonView>, k: int)
    requires
        0 <= k <= items.len(),
        trays_of(items) is Some,
    ensures
        trays_of(items.take(k)) is Some,
    decreases items.len(),
{
    if k < items.len() {
        assert(items.drop_last().take(k) == items.take(k));
        lemma_trays_prefix(items.drop_last(), k);
    } else {
        assert(items.take(k) == items);
    }
}

/// Each item read with `ams_info_of`, where all of them read.
pub open spec fn ams_infos_of(items: Seq<JsonView>) -> Option<Seq<AmsInfoView>>
    decreases items.len(),
{
    if items.len() == 0 {
        Some(seq![])
    } else {
        match (ams_infos_of(items.drop_last()), ams_info_of(items.last())) {
            (Some(a), Some(x)) => Some(a.push(x)),
            _ => None,
        }
    }
}

pub open spec fn ams_infos_list(j: JsonView) -> Option<Seq<AmsInfoView>> {
    match j {
        JsonView::Array(items) => ams_infos_of(items),
        _ => None,
    }
}

proof fn lemma_ams_infos_prefix(items: Seq<JsonView>, k: int)
    requires
        0 <= k <= items.len(),
        ams_infos_of(items) is Some,
    ensures
        ams_infos_of(items.take(k)) is Some,
    decreases items.len(),
{
    if k < items.len() {
        assert(items.drop_last().take(k) == items.take(k));
        lemma_ams_infos_prefix(items.drop_last(), k);
    } else {
        assert(items.take(k) == items);
    }
}

pub open spec fn texts_or_empty(o: JsonView, k: Seq<char>) -> Option<Seq<Seq<char>>> {
    match field(o, k) {
        Some(v) => texts_list(v),
        None => Some(seq![]),
    }
}

pub open spec fn modules_or_empty(o: JsonView, k: Seq<char>) -> Option<Seq<ModuleInfoView>> {
    match field(o, k) {
        Some(v) => modules_list(v),
        None => Some(seq![]),
    }
}

pub open spec fn ams_infos_or_empty(o: JsonView, k: Seq<char>) -> Option<Seq<AmsInfoView>> {
    match field(o, k) {
        Some(v) => ams_infos_list(v),
        None => Some(seq![]),
    }
}

pub open spec fn upgrade_state_of(j: JsonView) -> Option<UpgradeStateView> {
    let a = usize_at(j, "dis_state"@);
    let b = usize_at(j, "new_version_state"@);
    let c = text_at(j, "ota_new_version_number"@);
    if a is Some && b is Some && c is Some {
        Some(UpgradeStateView { dis_state: a->0, new_version_state: b->0, ota_new_version_number: c->0 })
    } else {
        None
    }
}

pub open spec fn module_info_of(j: JsonView) -> Option<ModuleInfoView> {
    let a = text_at(j, "hw_ver"@);
    let b = text_at(j, "name"@);
    let c = text_at(j, "sn"@);
    let d = text_at(j, "sw_ver"@);
    if a is Some && b is Some && c is Some && d is Some {
        Some(ModuleInfoView { hw_ver: a->0, name: b->0, sn: c->0, sw_ver: d->0 })
    } else {
        None
    }
}

/// The tray details of the object `j`; every member defaults.
pub open spec fn tray_info_of(j: JsonView) -> Option<TrayInfoView> {
    let m0 = text_or_empty(j, "bed_temp"@);
    let m1 = text_or_empty(j, "bed_temp_type"@);
    let m2 = isize_or_zero(j, "cali_idx"@);
    let m3 = texts_or_empty(j, "cols"@);
    let m4 = usize_or_zero(j, "ctype"@);
    let m5 = text_or_empty(j, "drying_temp"@);
    let m6 = text_or_empty(j, "drying_time"@);
    let m7 = text_or_empty(j, "nozzle_temp_max"@);
    let m8 = text_or_empty(j, "nozzle_temp_min"@);
    let m9 = isize_or_zero(j, "remain"@);
    let m10 = text_or_empty(j, "tag_uid"@);
    let m11 = text_or_empty(j, "tray_color"@);
    let m12 = text_or_empty(j, "tray_diameter"@);
    let m13 = text_or_empty(j, "tray_id_name"@);
    let m14 = text_or_empty(j, "tray_info_idx"@);
    let m15 = text_or_empty(j, "tray_sub_brands"@);
    let m16 = text_or_empty(j, "tray_type"@);
    let m17 = text_or_empty(j, "tray_uuid"@);
    let m18 = text_or_empty(j, "tray_weight"@);
    let m19 = text_or_empty(j, "xcam_info"@);
    if j is Object && m0 is Some && m1 is Some && m2 is Some && m3 is Some && m4 is Some && m5 is Some && m6 is Some && m7 is Some && m8 is Some && m9 is Some && m10 is Some && m11 is Some && m12 is Some && m13 is Some && m14 is Some && m15 is Some && m16 is Some && m17 is Some && m18 is Some && m19 is Some {
        Some(
            TrayInfoView {
                bed_temp: m0->0,
                bed_temp_type: m1->0,
                cali_idx: m2->0,
                cols: m3->0,
                ctype: m4->0,
                drying_temp: m5->0,
                drying_time: m6->0,
                nozzle_temp_max: m7->0,
                nozzle_temp_min: m8->0,
                remain: m9->0,
                tag_uid: m10->0,
                tray_color: m11->0,
                tray_diameter: m12->0,
                tray_id_name: m13->0,
                tray_info_idx: m14->0,
                tray_sub_brands: m15->0,
                tray_type: m16->0,
                tray_uuid: m17->0,
                tray_weight: m18->0,
                xcam_info: m19->0,
            },
        )
    } else {
        None
    }
}

pub open spec fn tray_of(j: JsonView) -> Option<TrayView> {
    let id = text_or_empty(j, "id"@);
    let info = tray_info_of(j);
    if id is Some && info is Some {
        Some(TrayView { id: id->0, info: info->0 })
    } else {
        None
    }
}

pub open spec fn ams_info_of(j: JsonView) -> Option<AmsInfoView> {
    let a = text_at(j, "humidity"@);
    let b = text_at(j, "id"@);
    let c = text_at(j, "temp"@);
    let d = match field(j, "tray"@) {
        Some(v) => trays_list(v),
        None => None,
    };
    if a is Some && b is Some && c is Some && d is Some {
        Some(AmsInfoView { humidity: a->0, id: b->0, temp: c->0, tray: d->0 })
    } else {
        None
    }
}

pub open spec fn ams_of(j: JsonView) -> Option<AmsView> {
    let a = ams_infos_or_empty(j, "ams"@);
    let b = usize_at(j, "version"@);
    if j is Object && a is Some && b is Some {
        Some(AmsView { ams: a->0, version: b->0 })
    } else {
        None
    }
}

pub open spec fn optional_ams(o: JsonView, k: Seq<char>) -> Option<Option<AmsView>> {
    match field(o, k) {
        None => Some(None),
        Some(JsonView::Null) => Some(None),
        Some(v) => match ams_of(v) {
            Some(a) => Some(Some(a)),
            None => None,
        },
    }
}

pub open spec fn optional_upgrade_state(o: JsonView, k: Seq<char>) -> Option<
    Option<UpgradeStateView>,
> {
    match field(o, k) {
        None => Some(None),
        Some(JsonView::Null) => Some(None),
        Some(v) => match upgrade_state_of(v) {
            Some(a) => Some(Some(a)),
            None => None,
        },
    }
}

/// The status fields of the object `j`; every member defaults.
pub open spec fn print_value_of(j: JsonView) -> Option<PrintValueView> {
    let a = optional_ams(j, "ams"@);
    let b = optional_upgrade_state(j, "upgrade_state"@);
    let c = modules_or_empty(j, "module"@);
    let d = optional_text(j, "cooling_fan_speed"@);
    let e = optional_isize(j, "fan_gear"@);
    let f = optional_thousandths(j, "nozzle_temper"@);
    let g = optional_thousandths(j, "bed_temper"@);
    let h = usize_or_zero(j, "version"@);
    if j is Object && a is Some && b is Some && c is Some && d is Some && e is Some && f is Some
        && g is Some && h is Some {
        Some(
            PrintValueView {
                ams: a->0,
                upgrade_state: b->0,
                module: c->0,
                cooling_fan_speed: d->0,
                fan_gear: e->0,
                nozzle_temper: f->0,
                bed_temper: g->0,
                version: h->0,
            },
        )
    } else {
        None
    }
}

/// The body of a `print` report.
pub open spec fn print_report_of(j: JsonView) -> Option<ReportView> {
    let seq_id = text_at(j, "sequence_id"@);
    let value = print_value_of(j);
    if text_at(j, "command"@) == Some("push_status"@) && seq_id is Some && value is Some {
        Some(
            ReportView::Print {
                command: PrintCommand::PushStatus,
                sequence_id: seq_id->0,
                value: value->0,
            },
        )
    } else {
        None
    }
}

/// The body of an `info` report.
pub open spec fn info_report_of(j: JsonView) -> Option<ReportView> {
    let seq_id = text_at(j, "sequence_id"@);
    let module = match field(j, "module"@) {
        Some(v) => modules_list(v),
        None => None,
    };
    if text_at(j, "command"@) == Some("get_version"@) && seq_id is Some && module is Some {
        Some(
            ReportView::Info {
                command: InfoCommand::GetVersion,
                sequence_id: seq_id->0,
                module: module->0,
            },
        )
    } else {
        None
    }
}

/// The body of an `mc_print` report.
pub open spec fn mc_print_report_of(j: JsonView) -> Option<ReportView> {
    let seq_id = text_at(j, "sequence_id"@);
    let param = field(j, "param"@);
    if text_at(j, "command"@) == Some("push_info"@) && seq_id is Some && param is Some {
        Some(
            ReportView::McPrint {
                command: McPrintCommand::PushInfo,
                sequence_id: seq_id->0,
                param: param->0,
            },
        )
    } else {
        None
    }
}

/// A report: an object with exactly one member, named `print`, `info` or
/// `mc_print`, whose value reads as that kind of report.
pub open spec fn report_of(j: JsonView) -> Result<ReportView, DecodeError> {
    match j {
        JsonView::Object(ms) => if ms.len() != 1 {
            Err(DecodeError::UnknownReport)
        } else {
            let body = if ms[0].0 == "print"@ {
                print_report_of(ms[0].1)
            } else if ms[0].0 == "info"@ {
                info_report_of(ms[0].1)
            } else {
                mc_print_report_of(ms[0].1)
            };
            if ms[0].0 != "print"@ && ms[0].0 != "info"@ && ms[0].0 != "mc_print"@ {
                Err(DecodeError::UnknownReport)
            } else if body is Some {
                Ok(body->0)
            } else {
                Err(DecodeError::InvalidField)
            }
        },
        _ => Err(DecodeError::UnknownReport),
    }
}

} // verus!

verus! {

pub open spec fn text_view(r: Option<String>) -> Option<Seq<char>> {
    match r {
        Some(s) => Some(s@),
        None => None,
    }
}

pub open spec fn optional_text_view(r: Option<Option<String>>) -> Option<Option<Seq<char>>> {
    match r {
        Some(Some(s)) => Some(Some(s@)),
        Some(None) => Some(None),
        None => None,
    }
}

pub open spec fn viewed<T: View>(r: Option<T>) -> Option<T::V> {
    match r {
        Some(x) => Some(x@),
        None => None,
    }
}

fn text_field(o: &Json, k: &str) -> (r: Option<String>)
    ensures
        text_view(r) == text_at(o@, k@),
{
    match o.get(k) {
        Some(v) => v.text(),
        None => None,
    }
}

fn text_or_empty_at(o: &Json, k: &str) -> (r: Option<String>)
    ensures
        text_view(r) == text_or_empty(o@, k@),
{
    match o.get(k) {
        Some(v) => v.text(),
        None => Some(String::new()),
    }
}

fn usize_field(o: &Json, k: &str) -> (r: Option<usize>)
    ensures
        r == usize_at(o@, k@),
{
    match o.get(k) {
        Some(v) => v.to_usize(),
        None => None,
    }
}

fn usize_or_zero_at(o: &Json, k: &str) -> (r: Option<usize>)
    ensures
        r == usize_or_zero(o@, k@),
{
    match o.get(k) {
        Some(v) => v.to_usize(),
        None => Some(0),
    }
}

fn isize_or_zero_at(o: &Json, k: &str) -> (r: Option<isize>)
    ensures
        r == isize_or_zero(o@, k@),
{
    match o.get(k) {
        Some(v) => v.to_isize(),
        None => Some(0),
    }
}

fn optional_text_at(o: &Json, k: &str) -> (r: Option<Option<String>>)
    ensures
        optional_text_view(r) == optional_text(o@, k@),
{
    match o.get(k) {
        None => Some(None),
        Some(v) => if v.is_null() {
            Some(None)
        } else {
            match v.text() {
                Some(s) => Some(Some(s)),
                None => None,
            }
        },
    }
}

fn optional_isize_at(o: &Json, k: &str) -> (r: Option<Option<isize>>)
    ensures
        r == optional_isize(o@, k@),
{
    match o.get(k) {
        None => Some(None),
        Some(v) => if v.is_null() {
            Some(None)
        } else {
            match v.to_isize() {
                Some(n) => Some(Some(n)),
                None => None,
            }
        },
    }
}

fn optional_thousandths_at(o: &Json, k: &str) -> (r: Option<Option<i64>>)
    ensures
        r == optional_thousandths(o@, k@),
{
    match o.get(k) {
        None => Some(None),
        Some(v) => if v.is_null() {
            Some(None)
        } else {
            match v.to_thousandths() {
                Some(n) => Some(Some(n)),
                None => None,
            }
        },
    }
}

fn texts_from(j: &Json) -> (r: Option<Vec<String>>)
    ensures
        match r {
            Some(out) => texts_list(j@) == Some(texts_view(out@)),
            None => texts_list(j@) is None,
        },
{
    match j {
        Json::Array(a) => {
            let ghost items = j@->Array_0;
            proof {
                lemma_items_view(*a, a@.len() as int);
            }
            let mut out: Vec<String> = Vec::new();
            let mut i: usize = 0;
            assert(items.take(0) == Seq::<JsonView>::empty());
            assert(texts_view(out@) == Seq::<Seq<char>>::empty());
            while i < a.len()
                invariant
                    i <= a@.len() == items.len(),
                    j@ == JsonView::Array(items),
                    forall|q: int| 0 <= q < items.len() ==> #[trigger] items[q] == a@[q]@,
                    texts_of(items.take(i as int)) == Some(texts_view(out@)),
                decreases a@.len() - i,
            {
                assert(items.take(i + 1).drop_last() == items.take(i as int));
                assert(items.take(i + 1).last() == a@[i as int]@);
                let v = &a[i];
                match v.text() {
                    Some(x) => {
                        let ghost before = out@;
                        out.push(x);
                        assert(texts_view(out@) == texts_view(before).push(x@));
                    },
                    None => {
                        proof {
                            if texts_of(items) is Some {
                                lemma_texts_prefix(items, i + 1);
                            }
                        }
                        return None;
                    },
                }
                i = i + 1;
            }
            assert(items.take(a@.len() as int) == items);
            Some(out)
        },
        _ => None,
    }
}

fn modules_from(j: &Json) -> (r: Option<Vec<ModuleInfo>>)
    ensures
        match r {
            Some(out) => modules_list(j@) == Some(modules_view(out@)),
            None => modules_list(j@) is None,
        },
{
    match j {
        Json::Array(a) => {
            let ghost items = j@->Array_0;
            proof {
                lemma_items_view(*a, a@.len() as int);
            }
            let mut out: Vec<ModuleInfo> = Vec::new();
            let mut i: usize = 0;
            assert(items.take(0) == Seq::<JsonView>::empty());
            assert(modules_view(out@) == Seq::<ModuleInfoView>::empty());
            while i < a.len()
                invariant
                    i <= a@.len() == items.len(),
                    j@ == JsonView::Array(items),
                    forall|q: int| 0 <= q < items.len() ==> #[trigger] items[q] == a@[q]@,
                    modules_of(items.take(i as int)) == Some(modules_view(out@)),
                decreases a@.len() - i,
            {
                assert(items.take(i + 1).drop_last() == items.take(i as int));
                assert(items.take(i + 1).last() == a@[i as int]@);
                let v = &a[i];
                match module_info_from(v) {
                    Some(x) => {
                        let ghost before = out@;
                        out.push(x);
                        assert(modules_view(out@) == modules_view(before).push(x@));
                    },
                    None => {
                        proof {
                            if modules_of(items) is Some {
                                lemma_modules_prefix(items, i + 1);
                            }
                        }
                        return None;
                    },
                }
                i = i + 1;
            }
            assert(items.take(a@.len() as int) == items);
            Some(out)
        },
        _ => None,
    }
}

fn trays_from(j: &Json) -> (r: Option<Vec<Tray>>)
    ensures
        match r {
            Some(out) => trays_list(j@) == Some(trays_view(out@)),
            None => trays_list(j@) is None,
        },
{
    match j {
        Json::Array(a) => {
            let ghost items = j@->Array_0;
            proof {
                lemma_items_view(*a, a@.len() as int);
            }
            let mut out: Vec<Tray> = Vec::new();
            let mut i: usize = 0;
            assert(items.take(0) == Seq::<JsonView>::empty());
            assert(trays_view(out@) == Seq::<TrayView>::empty());
            while i < a.len()
                invariant
                    i <= a@.len() == items.len(),
                    j@ == JsonView::Array(items),
                    forall|q: int| 0 <= q < items.len() ==> #[trigger] items[q] == a@[q]@,
                    trays_of(items.take(i as int)) == Some(trays_view(out@)),
                decreases a@.len() - i,
            {
                assert(items.take(i + 1).drop_last() == items.take(i as int));
                assert(items.take(i + 1).last() == a@[i as int]@);
                let v = &a[i];
                match tray_from(v) {
                    Some(x) => {
                        let ghost before = out@;
                        out.push(x);
                        assert(trays_view(out@) == trays_view(before).push(x@));
                    },
                    None => {
                        proof {
                            if trays_of(items) is Some {
                                lemma_trays_prefix(items, i + 1);
                            }
                        }
                        return None;
                    },
                }
                i = i + 1;
            }
            assert(items.take(a@.len() as int) == items);
            Some(out)
        },
        _ => None,
    }
}

fn ams_infos_from(j: &Json) -> (r: Option<Vec<AmsInfo>>)
    ensures
        match r {
            Some(out) => ams_infos_list(j@) == Some(ams_infos_view(out@)),
            None => ams_infos_list(j@) is None,
        },
{
    match j {
        Json::Array(a) => {
            let ghost items = j@->Array_0;
            proof {
                lemma_items_view(*a, a@.len() as int);
            }
            let mut out: Vec<AmsInfo> = Vec::new();
            let mut i: usize = 0;
            assert(items.take(0) == Seq::<JsonView>::empty());
            assert(ams_infos_view(out@) == Seq::<AmsInfoView>::empty());
            while i < a.len()
                invariant
                    i <= a@.len() == items.len(),
                    j@ == JsonView::Array(items),
                    forall|q: int| 0 <= q < items.len() ==> #[trigger] items[q] == a@[q]@,
                    ams_infos_of(items.take(i as int)) == Some(ams_infos_view(out@)),
                decreases a@.len() - i,
            {
                assert(items.take(i + 1).drop_last() == items.take(i as int));
                assert(items.take(i + 1).last() == a@[i as int]@);
                let v = &a[i];
                match ams_info_from(v) {
                    Some(x) => {
                        let ghost before = out@;
                        out.push(x);
                        assert(ams_infos_view(out@) == ams_infos_view(before).push(x@));
                    },
                    None => {
                        proof {
                            if ams_infos_of(items) is Some {
                                lemma_ams_infos_prefix(items, i + 1);
                            }
                        }
                        return None;
                    },
                }
                i = i + 1;
            }
            assert(items.take(a@.len() as int) == items);
            Some(out)
        },
        _ => None,
    }
}

fn texts_or_empty_at(o: &Json, k: &str) -> (r: Option<Vec<String>>)
    ensures
        match r {
            Some(out) => texts_or_empty(o@, k@) == Some(texts_view(out@)),
            None => texts_or_empty(o@, k@) is None,
        },
{
    match o.get(k) {
        Some(v) => texts_from(v),
        None => {
            let out: Vec<String> = Vec::new();
            assert(texts_view(out@) == Seq::<Seq<char>>::empty());
            Some(out)
        },
    }
}

fn upgrade_state_from(j: &Json) -> (r: Option<UpgradeState>)
    ensures
        viewed(r) == upgrade_state_of(j@),
{
    let dis_state = match usize_field(j, "dis_state") {
        Some(x) => x,
        None => return None,
    };
    let new_version_state = match usize_field(j, "new_version_state") {
        Some(x) => x,
        None => return None,
    };
    let ota_new_version_number = match text_field(j, "ota_new_version_number") {
        Some(x) => x,
        None => return None,
    };
    Some(UpgradeState { dis_state, new_version_state, ota_new_version_number })
}

fn module_info_from(j: &Json) -> (r: Option<ModuleInfo>)
    ensures
        viewed(r) == module_info_of(j@),
{
    let hw_ver = match text_field(j, "hw_ver") {
        Some(x) => x,
        None => return None,
    };
    let name = match text_field(j, "name") {
        Some(x) => x,
        None => return None,
    };
    let sn = match text_field(j, "sn") {
        Some(x) => x,
        None => return None,
    };
    let sw_ver = match text_field(j, "sw_ver") {
        Some(x) => x,
        None => return None,
    };
    Some(ModuleInfo { hw_ver, name, sn, sw_ver })
}

fn tray_info_from(j: &Json) -> (r: Option<TrayInfo>)
    ensures
        viewed(r) == tray_info_of(j@),
{
    if !j.is_object() {
        return None;
    }
    let bed_temp = match text_or_empty_at(j, "bed_temp") {
        Some(x) => x,
        None => return None,
    };
    let bed_temp_type = match text_or_empty_at(j, "bed_temp_type") {
        Some(x) => x,
        None => return None,
    };
    let cali_idx = match isize_or_zero_at(j, "cali_idx") {
        Some(x) => x,
        None => return None,
    };
    let cols = match texts_or_empty_at(j, "cols") {
        Some(x) => x,
        None => return None,
    };
    let ctype = match usize_or_zero_at(j, "ctype") {
        Some(x) => x,
        None => return None,
    };
    let drying_temp = match text_or_empty_at(j, "drying_temp") {
        Some(x) => x,
        None => return None,
    };
    let drying_time = match text_or_empty_at(j, "drying_time") {
        Some(x) => x,
        None => return None,
    };
    let nozzle_temp_max = match text_or_empty_at(j, "nozzle_temp_max") {
        Some(x) => x,
        None => return None,
    };
    let nozzle_temp_min = match text_or_empty_at(j, "nozzle_temp_min") {
        Some(x) => x,
        None => return None,
    };
    let remain = match isize_or_zero_at(j, "remain") {
        Some(x) => x,
        None => return None,
    };
    let tag_uid = match text_or_empty_at(j, "tag_uid") {
        Some(x) => x,
        None => return None,
    };
    let tray_color = match text_or_empty_at(j, "tray_color") {
        Some(x) => x,
        None => return None,
    };
    let tray_diameter = match text_or_empty_at(j, "tray_diameter") {
        Some(x) => x,
        None => return None,
    };
    let tray_id_name = match text_or_empty_at(j, "tray_id_name") {
        Some(x) => x,
        None => return None,
    };
    let tray_info_idx = match text_or_empty_at(j, "tray_info_idx") {
        Some(x) => x,
        None => return None,
    };
    let tray_sub_brands = match text_or_empty_at(j, "tray_sub_brands") {
        Some(x) => x,
        None => return None,
    };
    let tray_type = match text_or_empty_at(j, "tray_type") {
        Some(x) => x,
        None => return None,
    };
    let tray_uuid = match text_or_empty_at(j, "tray_uuid") {
        Some(x) => x,
        None => return None,
    };
    let tray_weight = match text_or_empty_at(j, "tray_weight") {
        Some(x) => x,
        None => return None,
    };
    let xcam_info = match text_or_empty_at(j, "xcam_info") {
        Some(x) => x,
        None => return None,
    };
    Some(TrayInfo {
        bed_temp,
        bed_temp_type,
        cali_idx,
        cols,
        ctype,
        drying_temp,
        drying_time,
        nozzle_temp_max,
        nozzle_temp_min,
        remain,
        tag_uid,
        tray_color,
        tray_diameter,
        tray_id_name,
        tray_info_idx,
        tray_sub_brands,
        tray_type,
        tray_uuid,
        tray_weight,
        xcam_info,
    })
}

fn tray_from(j: &Json) -> (r: Option<Tray>)
    ensures
        viewed(r) == tray_of(j@),
{
    let id = match text_or_empty_at(j, "id") {
        Some(x) => x,
        None => return None,
    };
    let info = match tray_info_from(j) {
        Some(x) => x,
        None => return None,
    };
    Some(Tray { id, info })
}

fn ams_info_from(j: &Json) -> (r: Option<AmsInfo>)
    ensures
        viewed(r) == ams_info_of(j@),
{
    let humidity = match text_field(j, "humidity") {
        Some(x) => x,
        None => return None,
    };
    let id = match text_field(j, "id") {
        Some(x) => x,
        None => return None,
    };
    let temp = match text_field(j, "temp") {
        Some(x) => x,
        None => return None,
    };
    let tray = match j.get("tray") {
        Some(v) => match trays_from(v) {
            Some(x) => x,
            None => return None,
        },
        None => return None,
    };
    Some(AmsInfo { humidity, id, temp, tray })
}

fn ams_from(j: &Json) -> (r: Option<Ams>)
    ensures
        viewed(r) == ams_of(j@),
{
    if !j.is_object() {
        return None;
    }
    let ams = match j.get("ams") {
        Some(v) => match ams_infos_from(v) {
            Some(x) => x,
            None => return None,
        },
        None => {
            let out: Vec<AmsInfo> = Vec::new();
            assert(ams_infos_view(out@) == Seq::<AmsInfoView>::empty());
            out
        },
    };
    let version = match usize_field(j, "version") {
        Some(x) => x,
        None => return None,
    };
    Some(Ams { ams, version })
}

fn print_value_from(j: &Json) -> (r: Option<PrintValue>)
    ensures
        viewed(r) == print_value_of(j@),
{
    if !j.is_object() {
        return None;
    }
    let ams = match j.get("ams") {
        None => None,
        Some(v) => if v.is_null() {
            None
        } else {
            match ams_from(v) {
                Some(a) => Some(a),
                None => return None,
            }
        },
    };
    let upgrade_state = match j.get("upgrade_state") {
        None => None,
        Some(v) => if v.is_null() {
            None
        } else {
            match upgrade_state_from(v) {
                Some(a) => Some(a),
                None => return None,
            }
        },
    };
    let module = match j.get("module") {
        Some(v) => match modules_from(v) {
            Some(x) => x,
            None => return None,
        },
        None => {
            let out: Vec<ModuleInfo> = Vec::new();
            assert(modules_view(out@) == Seq::<ModuleInfoView>::empty());
            out
        },
    };
    let cooling_fan_speed = match optional_text_at(j, "cooling_fan_speed") {
        Some(x) => x,
        None => return None,
    };
    let fan_gear = match optional_isize_at(j, "fan_gear") {
        Some(x) => x,
        None => return None,
    };
    let nozzle_temper = match optional_thousandths_at(j, "nozzle_temper") {
        Some(x) => x,
        None => return None,
    };
    let bed_temper = match optional_thousandths_at(j, "bed_temper") {
        Some(x) => x,
        None => return None,
    };
    let version = match usize_or_zero_at(j, "version") {
        Some(x) => x,
        None => return None,
    };
    Some(
        PrintValue {
            ams,
            upgrade_state,
            module,
            cooling_fan_speed,
            fan_gear,
            nozzle_temper,
            bed_temper,
            version,
        },
    )
}

fn command_is(j: &Json, name: &str) -> (r: bool)
    ensures
        r == (text_at(j@, "command"@) == Some(name@)),
{
    match text_field(j, "command") {
        Some(c) => same_text(&c, name),
        None => false,
    }
}

fn print_report_from(j: &Json) -> (r: Option<Report>)
    ensures
        viewed(r) == print_report_of(j@),
{
    if !command_is(j, "push_status") {
        return None;
    }
    let sequence_id = match text_field(j, "sequence_id") {
        Some(x) => x,
        None => return None,
    };
    let value = match print_value_from(j) {
        Some(x) => x,
        None => return None,
    };
    Some(Report::Print { command: PrintCommand::PushStatus, sequence_id, value })
}

fn info_report_from(j: &Json) -> (r: Option<Report>)
    ensures
        viewed(r) == info_report_of(j@),
{
    if !command_is(j, "get_version") {
        return None;
    }
    let sequence_id = match text_field(j, "sequence_id") {
        Some(x) => x,
        None => return None,
    };
    let module = match j.get("module") {
        Some(v) => match modules_from(v) {
            Some(x) => x,
            None => return None,
        },
        None => return None,
    };
    Some(
        Report::Info {
            command: InfoCommand::GetVersion,
            sequence_id,
            value: InfoValue::Module(module),
        },
    )
}

fn mc_print_report_from(j: &Json) -> (r: Option<Report>)
    ensures
        viewed(r) == mc_print_report_of(j@),
{
    if !command_is(j, "push_info") {
        return None;
    }
    let sequence_id = match text_field(j, "sequence_id") {
        Some(x) => x,
        None => return None,
    };
    let param = match j.get("param") {
        Some(v) => v.duplicate(),
        None => return None,
    };
    Some(Report::McPrint { command: McPrintCommand::PushInfo, sequence_id, param })
}

impl Report {
    /// Decodes a report: fails with `UnknownReport` unless `j` is an object
    /// with exactly one member named `print`, `info` or `mc_print`, and with
    /// `InvalidField` where that member's value does not read as such a
    /// report.
    pub fn from_json(j: &Json) -> (r: Result<Report, DecodeError>)
        ensures
            match r {
                Ok(v) => report_of(j@) == Ok::<ReportView, DecodeError>(v@),
                Err(e) => report_of(j@) == Err::<ReportView, DecodeError>(e),
            },
    {
        match j {
            Json::Object(ms) => {
                proof {
                    lemma_members_view(*ms, ms@.len() as int);
                }
                if ms.len() != 1 {
                    return Err(DecodeError::UnknownReport);
                }
                let k = &ms[0].0;
                let body = &ms[0].1;
                let decoded = if same_text(k, "print") {
                    print_report_from(body)
                } else if same_text(k, "info") {
                    info_report_from(body)
                } else if same_text(k, "mc_print") {
                    mc_print_report_from(body)
                } else {
                    return Err(DecodeError::UnknownReport);
                };
                match decoded {
                    Some(v) => Ok(v),
                    None => Err(DecodeError::InvalidField),
                }
            },
            _ => Err(DecodeError::UnknownReport),
        }
    }
}

} // verus!

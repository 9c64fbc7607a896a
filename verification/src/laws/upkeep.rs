//! Keeping devices and console in step.
use vstd::prelude::*;
use vstd::string::*;

use crate::api::push::PushConfig;
use crate::client_api::sync::{
    is_group_name, ConfigReport, CurrentStep, DecisionStep, PushCurrent, PushDecision, PushRule,
    SyncReport, SyncStep,
};
use crate::client_api::ClientError;
use crate::crypto::CryptoError;
use crate::db::device_config::{ConfigOutcome, DeviceConfig};
use crate::db::group_store::{CreateGroup, SetDeviceGroup};
use crate::db::{Database, DbError};
use crate::flow::{Call, Fresh, Reply, Step};
use crate::laws::groups::{has_no_secret, law_document_leaves_out_secrets_only};
use crate::laws::{counts, gives, gives_none, reads, runs};
use crate::models::{Group, VntClientConfig};
use crate::sql::{Column, SqlValue, SqlView};
use crate::text;

verus! {

/// Whether a row of a device and its group can be read.
pub open spec fn is_device_row(row: Seq<SqlValue>) -> bool {
    &&& row.len() == 11
    &&& row[0] is Text
    &&& row[1] is Text || row[1] is Null
    &&& row[2] is Text
    &&& row[3] is Text || row[3] is Null
    &&& row[4] is Text || row[4] is Null
    &&& row[5] is Integer
    &&& row[6] is Integer || row[6] is Null
    &&& row[7] is Text || row[7] is Null
    &&& row[8] is Text || row[8] is Null
    &&& row[9] is Text || row[9] is Null
    &&& row[10] is Text || row[10] is Null
}

/// The version that the console has for a device: the group's, or else one more than the device
/// has.
pub open spec fn console_version(row: Seq<SqlValue>) -> int {
    if row[6] is Integer {
        row[6]->Integer_0 as int
    } else {
        row[5]->Integer_0 + 1
    }
}

/// Whether a push to a device begins.
pub open spec fn push_begins(inner: PushConfig, call: Call, device_id: String) -> bool {
    &&& inner is Composing
    &&& inner->Composing_device_id == device_id
    &&& inner->Composing_inner == (DeviceConfig::Looking { device_id, override_group_id: None })
    &&& reads_device(call, device_id@)
}

/// Whether a call reads a device and its group.
pub open spec fn reads_device(call: Call, device_id: Seq<char>) -> bool {
    reads(
        call,
        "SELECT d.id, d.group_id, d.display_name, d.network_ip, d.network_node_id, d.config_version, g.config_version, g.encrypted_token, g.encrypted_server, g.encrypted_password, g.extra_config FROM devices d LEFT JOIN groups g ON d.group_id = g.id WHERE d.id = ?1"@,
        seq![SqlView::Text(device_id)],
        seq![
            Column::Text,
            Column::OptionalText,
            Column::Text,
            Column::OptionalText,
            Column::OptionalText,
            Column::Integer,
            Column::OptionalInteger,
            Column::OptionalText,
            Column::OptionalText,
            Column::OptionalText,
            Column::OptionalText,
        ],
    )
}

/// Whether a report ends with a push to the device.
pub open spec fn corrects(step: SyncStep, device_id: String) -> bool {
    &&& step is Ask
    &&& step->Ask_0 is Deciding
    &&& step->Ask_0->Deciding_inner is Pushing
    &&& push_begins(step->Ask_0->Deciding_inner->Pushing_inner, step->Ask_1, device_id)
}

/// Whether a report ends without a push.
pub open spec fn leaves(step: SyncStep) -> bool {
    step == SyncStep::Done(Ok(()))
}

/// Whether a decision of a report fell: it ends without a push exactly where nothing is to be
/// corrected, and otherwise with a push to the device.
pub open spec fn decided(step: SyncStep, device_id: String, in_step: bool) -> bool {
    &&& leaves(step) <==> in_step
    &&& corrects(step, device_id) <==> !in_step
}

/// Whether a step of a report fails because what is stored cannot be decrypted.
pub open spec fn undecipherable(step: SyncStep) -> bool {
    &&& step is Done
    &&& step->Done_0 is Err
    &&& step->Done_0->Err_0 is Stored
    &&& step->Done_0->Err_0->Stored_0 is Crypto
}

/// A device that reports from within a group is left alone exactly where the low 32 bits of the
/// console's version, which is the group's, are the version that it reports; with any other
/// version, older or newer, it is sent the configuration of its group.
pub proof fn law_report_is_corrected_where_versions_differ(
    db: Database,
    report: ConfigReport,
    home: Reply,
    home_row: Seq<SqlValue>,
    first: SyncStep,
    found: Reply,
    row: Seq<SqlValue>,
    second: SyncStep,
    read: Reply,
    third: SyncStep,
    fresh: Fresh,
)
    requires
        (SyncReport::Looking { report }).resumed(db, home, fresh, first),
        gives(home, home_row),
        home_row.len() == 2 && home_row[0] is Text && home_row[1] is Text,
        first is Ask ==> (first->Ask_0).resumed(db, found, fresh, second),
        gives(found, row),
        is_device_row(row),
        row[6] is Integer || row[5]->Integer_0 < i64::MAX,
        second is Ask ==> (second->Ask_0).resumed(db, read, fresh, third),
        read is Config,
    ensures
        first is Ask && reads_device(first->Ask_1, report.device_id@),
        ({
            let in_step = console_version(row) % 0x1_0000_0000 == report.config_version;
            if row[1] is Null || row[10] is Null {
                decided(second, report.device_id, in_step)
            } else {
                ||| undecipherable(second)
                ||| second is Ask && second->Ask_1 is DecodeConfig && (undecipherable(third)
                    || decided(third, report.device_id, in_step))
            }
        }),
{
    let device_id = report.device_id;
    let rule = PushRule::Differs { reported_version: report.config_version };
    let begun = choose|sub: DecisionStep| #[trigger]
        PushDecision::started(device_id, rule, sub) && SyncReport::decides(sub, first);
    let sub = choose|sub: DecisionStep| #[trigger]
        begun->Ask_0.resumed(db, found, fresh, sub) && SyncReport::decides(sub, second);
    let config = choose|config: Step<DeviceConfig, ConfigOutcome>| #[trigger]
        begun->Ask_0->Comparing_inner.resumed(db, found, config) && PushDecision::compares(
            device_id,
            rule,
            config,
            sub,
        );
    if second is Ask && second->Ask_1 is DecodeConfig {
        let next = choose|next: DecisionStep| #[trigger]
            sub->Ask_0.resumed(db, read, fresh, next) && SyncReport::decides(next, third);
        let told = choose|told: Step<DeviceConfig, ConfigOutcome>| #[trigger]
            sub->Ask_0->Comparing_inner.resumed(db, read, told) && PushDecision::compares(
                device_id,
                rule,
                told,
                next,
            );
    }
}

/// Whether a device that was let in is sent the configuration of the console.
pub open spec fn updates(step: CurrentStep, device_id: String) -> bool {
    &&& step is Ask
    &&& step->Ask_0 is Deciding
    &&& step->Ask_0->inner is Pushing
    &&& push_begins(step->Ask_0->inner->Pushing_inner, step->Ask_1, device_id)
}

/// A device that was let in is sent the configuration of its group exactly where the group's
/// version is greater than the version stored for the device; a device without a group, and one
/// whose version is the group's or later, is sent nothing.
pub proof fn law_device_is_brought_up_to_a_newer_version(
    db: Database,
    device_id: String,
    standing: Reply,
    standing_row: Seq<SqlValue>,
    first: CurrentStep,
    found: Reply,
    row: Seq<SqlValue>,
    second: CurrentStep,
    read: Reply,
    third: CurrentStep,
    fresh: Fresh,
)
    requires
        (PushCurrent::Looking { device_id }).resumed(db, standing, fresh, first),
        gives(standing, standing_row),
        standing_row.len() == 2 && (standing_row[0] is Text || standing_row[0] is Null)
            && standing_row[1] is Integer,
        first is Ask ==> (first->Ask_0).resumed(db, found, fresh, second),
        gives(found, row),
        is_device_row(row),
        row[6] is Integer || row[5]->Integer_0 < i64::MAX,
        second is Ask ==> (second->Ask_0).resumed(db, read, fresh, third),
        read is Config,
    ensures
        standing_row[0] is Null ==> first == CurrentStep::Done(Ok(())),
        standing_row[0] is Text ==> {
            let newer = console_version(row) > standing_row[1]->Integer_0;
            &&& first is Ask && reads_device(first->Ask_1, device_id@)
            &&& if row[1] is Null || row[10] is Null {
                &&& updates(second, device_id) <==> newer
                &&& second == CurrentStep::Done(Ok(())) <==> !newer
            } else {
                ||| second is Done && second->Done_0 is Err
                ||| second is Ask && second->Ask_1 is DecodeConfig && ({
                    ||| third is Done && third->Done_0 is Err
                    ||| {
                        &&& updates(third, device_id) <==> newer
                        &&& third == CurrentStep::Done(Ok(())) <==> !newer
                    }
                })
            }
        },
{
    if standing_row[0] is Text {
        let rule = PushRule::Newer { device_version: standing_row[1]->Integer_0 };
        let begun = choose|sub: DecisionStep| #[trigger]
            PushDecision::started(device_id, rule, sub) && PushCurrent::decides(sub, first);
        let sub = choose|sub: DecisionStep| #[trigger]
            begun->Ask_0.resumed(db, found, fresh, sub) && PushCurrent::decides(sub, second);
        let config = choose|config: Step<DeviceConfig, ConfigOutcome>| #[trigger]
            begun->Ask_0->Comparing_inner.resumed(db, found, config) && PushDecision::compares(
                device_id,
                rule,
                config,
                sub,
            );
        if second is Ask && second->Ask_1 is DecodeConfig {
            let next = choose|next: DecisionStep| #[trigger]
                sub->Ask_0.resumed(db, read, fresh, next) && PushCurrent::decides(next, third);
            let told = choose|told: Step<DeviceConfig, ConfigOutcome>| #[trigger]
                sub->Ask_0->Comparing_inner.resumed(db, read, told) && PushDecision::compares(
                    device_id,
                    rule,
                    told,
                    next,
                );
        }
    }
}

/// Whether a report goes on by making a group of what was reported: in the room of the device, with
/// the reported configuration and version, under the reported name or, where that is blank, under
/// the name for such groups.
pub open spec fn adopts_report(step: SyncStep, report: ConfigReport, room_id: String) -> bool {
    &&& step is Ask
    &&& step->Ask_1 is EncodeConfig
    &&& has_no_secret(step->Ask_1->EncodeConfig_0, report.config)
    &&& step->Ask_0 is Creating
    &&& step->Ask_0->Creating_device_id == report.device_id
    &&& step->Ask_0->Creating_room_id == room_id
    &&& step->Ask_0->Creating_config_version == report.config_version
    &&& step->Ask_0->Creating_inner is Encoding
    &&& step->Ask_0->Creating_inner->Encoding_room_id == room_id
    &&& step->Ask_0->Creating_inner->Encoding_config == report.config
    &&& step->Ask_0->Creating_inner->Encoding_version == report.config_version
    &&& ({
        let name = step->Ask_0->Creating_inner->Encoding_name;
        if report.config_name is Some && text::trimmed(report.config_name->Some_0@).len() > 0 {
            name@ == report.config_name->Some_0@
        } else {
            name@ == "客户端缓存配置"@
        }
    })
}

/// A device without a group that reports one, by a name that is not blank, has that group looked
/// up in the room of the device; where it reports none, its configuration becomes a group. A
/// device that is not known is left alone.
pub proof fn law_device_without_a_group_is_taken_in(
    db: Database,
    report: ConfigReport,
    home: Reply,
    row: Seq<SqlValue>,
    fresh: Fresh,
    step: SyncStep,
)
    requires
        (SyncReport::Looking { report }).resumed(db, home, fresh, step),
        gives_none(home) || (gives(home, row) && row.len() == 2 && row[0] is Text
            && row[1] is Null),
    ensures
        gives_none(home) ==> leaves(step),
        gives(home, row) ==> if report.group_id is Some && text::trimmed(
            report.group_id->Some_0@,
        ).len() > 0 {
            &&& step is Ask
            &&& step->Ask_0 == (SyncReport::Finding {
                report,
                room_id: row[0]->Text_0,
                group_id: report.group_id->Some_0,
            })
            &&& reads(
                step->Ask_1,
                "SELECT COUNT(*) FROM groups WHERE id = ?1 AND room_id = ?2"@,
                seq![SqlView::Text(report.group_id->Some_0@), SqlView::Text(row[0]->Text_0@)],
                seq![Column::Integer],
            )
        } else {
            adopts_report(step, report, row[0]->Text_0)
        },
{
    if gives(home, row) && !(report.group_id is Some && !text::is_blank(report.group_id->Some_0@)) {
        lemma_adopts(report, row[0]->Text_0, step);
    }
}

/// A device joins the group that it reports exactly where the room has it, and then the reported
/// version counts; otherwise what it reports becomes a group.
pub proof fn law_device_joins_the_reported_group_where_the_room_has_it(
    db: Database,
    report: ConfigReport,
    room_id: String,
    group_id: String,
    reply: Reply,
    n: int,
    fresh: Fresh,
    step: SyncStep,
)
    requires
        (SyncReport::Finding { report, room_id, group_id }).resumed(db, reply, fresh, step),
        counts(reply, n),
        n >= 0,
    ensures
        n == 0 ==> adopts_report(step, report, room_id),
        n > 0 ==> {
            &&& step is Ask
            &&& step->Ask_0 == (SyncReport::Joining {
                device_id: report.device_id,
                config_version: report.config_version,
                inner: SetDeviceGroup::Checking {
                    room_id,
                    group_id,
                    device_id: report.device_id,
                },
            })
        },
{
    if n == 0 {
        lemma_adopts(report, room_id, step);
    }
}

/// Once a device joined the group that it reported, the version it reported is held against the
/// group's, as that of any device in a group.
pub proof fn law_joined_device_is_compared(
    db: Database,
    device_id: String,
    config_version: u32,
    n: u64,
    fresh: Fresh,
    step: SyncStep,
)
    requires
        n > 0,
        (SyncReport::Joining { device_id, config_version, inner: SetDeviceGroup::Moving }).resumed(
            db,
            Reply::Affected(n),
            fresh,
            step,
        ),
    ensures
        step is Ask && reads_device(step->Ask_1, device_id@),
        step->Ask_0 is Deciding && step->Ask_0->Deciding_inner is Comparing,
        step->Ask_0->Deciding_inner->device_id == device_id,
        step->Ask_0->Deciding_inner->rule == (PushRule::Differs {
            reported_version: config_version,
        }),
        step->Ask_0->Deciding_inner->Comparing_inner == (DeviceConfig::Looking {
            device_id,
            override_group_id: None,
        }),
{
    let sub = choose|sub: Step<SetDeviceGroup, Result<(), DbError>>| #[trigger]
        SetDeviceGroup::Moving.resumed(Reply::Affected(n), sub) && SyncReport::joins(
            device_id,
            config_version,
            sub,
            step,
        );
    let begun = choose|begun: DecisionStep| #[trigger]
        PushDecision::started(
            device_id,
            PushRule::Differs { reported_version: config_version },
            begun,
        ) && SyncReport::decides(begun, step);
}

/// Once a group was made of what a device reported, the device moves into that very group, and
/// then the reported version is stored as the one the device has.
pub proof fn law_device_moves_into_the_group_made_for_it(
    db: Database,
    device_id: String,
    room_id: String,
    config_version: u32,
    group: Group,
    n: u64,
    fresh: Fresh,
    first: SyncStep,
    m: u64,
    second: SyncStep,
)
    requires
        (SyncReport::Creating {
            device_id,
            room_id,
            config_version,
            inner: CreateGroup::Inserting { group },
        }).resumed(db, Reply::Affected(n), fresh, first),
        m > 0,
        (SyncReport::Assigning {
            device_id,
            config_version,
            inner: SetDeviceGroup::Moving,
        }).resumed(db, Reply::Affected(m), fresh, second),
    ensures
        first is Ask,
        first->Ask_0 == (SyncReport::Assigning {
            device_id,
            config_version,
            inner: SetDeviceGroup::Checking { room_id, group_id: group.id, device_id },
        }),
        second is Ask,
        runs(
            second->Ask_1,
            "UPDATE devices SET config_version = ?1 WHERE id = ?2"@,
            seq![SqlView::Integer(config_version as i64), SqlView::Text(device_id@)],
        ),
{
    let sub = choose|sub: Step<CreateGroup, Result<Group, DbError>>| #[trigger]
        (CreateGroup::Inserting { group }).resumed(db, Reply::Affected(n), fresh, sub)
            && SyncReport::creates(device_id, room_id, config_version, sub, first);
    let next = choose|next: Step<SetDeviceGroup, Result<(), DbError>>| #[trigger]
        SetDeviceGroup::Moving.resumed(Reply::Affected(m), next) && SyncReport::assigns(
            device_id,
            config_version,
            next,
            second,
        );
}

/// What the adoption of a report comes to.
proof fn lemma_adopts(report: ConfigReport, room_id: String, step: SyncStep)
    requires
        SyncReport::adopts(report, room_id, step),
    ensures
        adopts_report(step, report, room_id),
{
    let (name, sub) = choose|name: String, sub: Step<CreateGroup, Result<Group, DbError>>|
        is_group_name(report.config_name, name@) && #[trigger] CreateGroup::started(
            room_id,
            name,
            report.config,
            report.config_version as i64,
            sub,
        ) && SyncReport::creates(
            report.device_id,
            room_id,
            report.config_version,
            sub,
            step,
        );
    law_document_leaves_out_secrets_only(report.config, sub->Ask_1->EncodeConfig_0);
}

/// A device that is gone by the time its configuration is put together is left alone.
pub proof fn law_vanished_device_is_left_alone(
    db: Database,
    device_id: String,
    rule: PushRule,
    reply: Reply,
    fresh: Fresh,
    step: DecisionStep,
)
    requires
        gives_none(reply),
        (PushDecision::Comparing {
            device_id,
            rule,
            inner: DeviceConfig::Looking { device_id, override_group_id: None },
        }).resumed(db, reply, fresh, step),
    ensures
        step == DecisionStep::Done(Ok(())),
{
    let sub = choose|sub: Step<DeviceConfig, ConfigOutcome>| #[trigger]
        (DeviceConfig::Looking { device_id, override_group_id: None }).resumed(db, reply, sub)
            && PushDecision::compares(device_id, rule, sub, step);
}

/// A device moves into the group that it reported or that was made for it once more only where the
/// room has that group, and the report ends well once its version is stored.
pub proof fn law_report_moves_the_device(
    db: Database,
    room_id: String,
    group_id: String,
    device_id: String,
    config_version: u32,
    reply: Reply,
    n: int,
    fresh: Fresh,
    joining: SyncStep,
    assigning: SyncStep,
    m: u64,
    versioned: SyncStep,
)
    requires
        (SyncReport::Joining {
            device_id,
            config_version,
            inner: SetDeviceGroup::Checking { room_id, group_id, device_id },
        }).resumed(db, reply, fresh, joining),
        (SyncReport::Assigning {
            device_id,
            config_version,
            inner: SetDeviceGroup::Checking { room_id, group_id, device_id },
        }).resumed(db, reply, fresh, assigning),
        counts(reply, n),
        SyncReport::Versioning.resumed(db, Reply::Affected(m), fresh, versioned),
    ensures
        n == 0 ==> joining == SyncStep::Done(Err(ClientError::Stored(DbError::GroupNotFound))),
        n == 0 ==> assigning == SyncStep::Done(Err(ClientError::Stored(DbError::GroupNotFound))),
        n != 0 ==> {
            &&& joining is Ask
            &&& joining->Ask_0 == (SyncReport::Joining {
                device_id,
                config_version,
                inner: SetDeviceGroup::Moving,
            })
            &&& runs(
                joining->Ask_1,
                "UPDATE devices SET group_id = ?1 WHERE id = ?2 AND room_id = ?3"@,
                seq![
                    SqlView::Text(group_id@),
                    SqlView::Text(device_id@),
                    SqlView::Text(room_id@),
                ],
            )
            &&& assigning is Ask
            &&& assigning->Ask_0 == (SyncReport::Assigning {
                device_id,
                config_version,
                inner: SetDeviceGroup::Moving,
            })
            &&& assigning->Ask_1 is Execute
            &&& assigning->Ask_1->Execute_0@ == joining->Ask_1->Execute_0@
        },
        versioned == SyncStep::Done(Ok(())),
{
    let inner = SetDeviceGroup::Checking { room_id, group_id, device_id };
    let a = choose|a: Step<SetDeviceGroup, Result<(), DbError>>| #[trigger]
        inner.resumed(reply, a) && SyncReport::joins(device_id, config_version, a, joining);
    let b = choose|b: Step<SetDeviceGroup, Result<(), DbError>>| #[trigger]
        inner.resumed(reply, b) && SyncReport::assigns(device_id, config_version, b, assigning);
}

/// The group made of a report is stored in the room of the device, with the reported version.
pub proof fn law_group_of_a_report_is_stored(
    db: Database,
    device_id: String,
    room_id: String,
    config_version: u32,
    name: String,
    config: VntClientConfig,
    version: i64,
    json: String,
    fresh: Fresh,
    step: SyncStep,
)
    requires
        (SyncReport::Creating {
            device_id,
            room_id,
            config_version,
            inner: CreateGroup::Encoding { room_id, name, config, version },
        }).resumed(db, Reply::Text(json), fresh, step),
    ensures
        step is Done ==> step == SyncStep::Done(
            Err(ClientError::Stored(DbError::Crypto(CryptoError::EncryptFailed))),
        ),
        step is Ask ==> {
            &&& step->Ask_0 is Creating
            &&& step->Ask_0->Creating_device_id == device_id
            &&& step->Ask_0->Creating_room_id == room_id
            &&& step->Ask_0->Creating_config_version == config_version
            &&& step->Ask_0->Creating_inner is Inserting
            &&& step->Ask_0->Creating_inner->group.id == fresh.id
            &&& step->Ask_0->Creating_inner->group.room_id == room_id
            &&& step->Ask_0->Creating_inner->group.name == name
            &&& step->Ask_0->Creating_inner->group.config_version == version
            &&& step->Ask_1 is Execute
        },
{
    let inner = CreateGroup::Encoding { room_id, name, config, version };
    let sub = choose|sub: Step<CreateGroup, Result<Group, DbError>>| #[trigger]
        inner.resumed(db, Reply::Text(json), fresh, sub) && SyncReport::creates(
            device_id,
            room_id,
            config_version,
            sub,
            step,
        );
}

} // verus!

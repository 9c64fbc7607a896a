//! Devices.
use vstd::prelude::*;
use vstd::string::*;

use crate::db::devices::{
    count_device, count_foreign_device, device_row, mark_kicked, select_devices, select_members,
    set_device_token, Introduction, Reception, UpdateDevice, UpsertDeviceHello,
};
use crate::db::DbError;
use crate::flow::{Fresh, Reply, Step};
use crate::laws::{
    gives, gives_none, is_query, is_statement, nullable, number_in, reads, runs, text_in,
};
use crate::models::{Device, UpdateDeviceRequest};
use crate::sql::{Column, SqlValue, SqlView};

verus! {

/// The value that a change binds: the one that is asked for, or else the one that is there.
pub open spec fn asked_or_kept(asked: Option<String>, there: SqlValue) -> SqlView {
    if asked is Some {
        SqlView::Text(asked->Some_0@)
    } else {
        there@
    }
}

/// What a change of a device does not ask for stays, and what it asks for is stored: of name,
/// group, address and network node each is bound as the request has it, and as the row that was
/// read has it where the request has none.
pub proof fn law_device_change_keeps_what_is_not_asked_for(
    room_id: String,
    device_id: String,
    request: UpdateDeviceRequest,
    reply: Reply,
    row: Seq<SqlValue>,
    step: Step<UpdateDevice, Result<(), DbError>>,
)
    requires
        (UpdateDevice::Looking { room_id, device_id, request }).resumed(reply, step),
        gives(reply, row),
        row.len() == 4,
        row[0] is Text,
        row[1] is Text || row[1] is Null,
        row[2] is Text || row[2] is Null,
        row[3] is Text || row[3] is Null,
    ensures
        step is Ask,
        runs(
            step->Ask_1,
            "UPDATE devices SET display_name = ?1, group_id = ?2, network_ip = ?3, network_node_id = ?4 WHERE id = ?5 AND room_id = ?6"@,
            seq![
                asked_or_kept(request.display_name, row[0]),
                asked_or_kept(request.group_id, row[1]),
                asked_or_kept(request.network_ip, row[2]),
                asked_or_kept(request.network_node_id, row[3]),
                SqlView::Text(device_id@),
                SqlView::Text(room_id@),
            ],
        ),
{
}

/// A change of a device looks the device up in its room; one that is not there is not found.
pub proof fn law_device_change_finds_its_device(
    room_id: String,
    device_id: String,
    request: UpdateDeviceRequest,
    first: Step<UpdateDevice, Result<(), DbError>>,
    reply: Reply,
    second: Step<UpdateDevice, Result<(), DbError>>,
)
    requires
        UpdateDevice::started(room_id, device_id, request, first),
        first is Ask ==> (first->Ask_0).resumed(reply, second),
    ensures
        first is Ask,
        first->Ask_0 == (UpdateDevice::Looking { room_id, device_id, request }),
        reads(
            first->Ask_1,
            "SELECT display_name, group_id, network_ip, network_node_id FROM devices WHERE id = ?1 AND room_id = ?2"@,
            seq![SqlView::Text(device_id@), SqlView::Text(room_id@)],
            seq![Column::Text, Column::OptionalText, Column::OptionalText, Column::OptionalText],
        ),
        gives_none(reply) ==> second == Step::<UpdateDevice, Result<(), DbError>>::Done(
            Err(DbError::DeviceNotFound),
        ),
{
}

/// A step of receiving a device.
pub type ReceptionStep = Step<UpsertDeviceHello, Result<Reception, DbError>>;

/// A device that does not name both an identifier and a token is stored as a new one that waits to
/// be let in: in the room it names, under a fresh identifier and with a fresh token, which it is
/// told, together with the status of such devices.
pub proof fn law_new_device_waits_with_a_fresh_identity(
    device: Introduction,
    fresh: Fresh,
    first: ReceptionStep,
    n: u64,
    second: ReceptionStep,
)
    requires
        device.device_id is None || device.device_token is None,
        UpsertDeviceHello::started(device, fresh, first),
        first is Ask ==> (first->Ask_0).resumed(Reply::Affected(n), fresh, second),
    ensures
        first is Ask,
        runs(
            first->Ask_1,
            "INSERT INTO devices(id, room_id, display_name, device_token, last_seen, status, config_version, created_at, client_version, console_public_ip) VALUES(?1, ?2, ?3, ?4, ?5, 'pending', 0, ?5, ?6, ?7)"@,
            seq![
                SqlView::Text(fresh.id@),
                SqlView::Text(device.room_id@),
                SqlView::Text(device.device_name@),
                SqlView::Text(fresh.secret@),
                SqlView::Integer(fresh.now),
                nullable(device.client_version),
                nullable(device.console_public_ip),
            ],
        ),
        second is Done && second->Done_0 is Ok,
        second->Done_0->Ok_0.device_id == fresh.id,
        second->Done_0->Ok_0.new_token == Some(fresh.secret),
        second->Done_0->Ok_0.status@ == "pending"@,
{
}

/// A device that names an identifier and a token is looked up in the room it names. Where it is not
/// there, or its token is another one, it is refused; otherwise its return is noted with the name
/// it gives, and it is told its identifier, no new token and the status that it had.
pub proof fn law_known_device_returns_with_its_token(
    device: Introduction,
    fresh: Fresh,
    first: ReceptionStep,
    reply: Reply,
    row: Seq<SqlValue>,
    second: ReceptionStep,
    n: u64,
    third: ReceptionStep,
)
    requires
        device.device_id is Some && device.device_token is Some,
        UpsertDeviceHello::started(device, fresh, first),
        first is Ask ==> (first->Ask_0).resumed(reply, fresh, second),
        gives_none(reply) || (gives(reply, row) && row.len() == 2 && row[0] is Text
            && row[1] is Text),
        second is Ask ==> (second->Ask_0).resumed(Reply::Affected(n), fresh, third),
    ensures
        first is Ask,
        reads(
            first->Ask_1,
            "SELECT device_token, status FROM devices WHERE id = ?1 AND room_id = ?2"@,
            seq![SqlView::Text(device.device_id->Some_0@), SqlView::Text(device.room_id@)],
            seq![Column::Text, Column::Text],
        ),
        gives_none(reply) ==> second == ReceptionStep::Done(Err(DbError::DeviceAuthFailed)),
        gives(reply, row) && row[0]->Text_0@ != device.device_token->Some_0@ ==> second
            == ReceptionStep::Done(Err(DbError::DeviceAuthFailed)),
        gives(reply, row) && row[0]->Text_0@ == device.device_token->Some_0@ ==> {
            &&& second is Ask
            &&& runs(
                second->Ask_1,
                "UPDATE devices SET display_name = ?1, last_seen = ?2, client_version = COALESCE(?3, client_version), console_public_ip = COALESCE(?4, console_public_ip), status = CASE WHEN status = 'kicked' THEN status ELSE 'online' END WHERE id = ?5"@,
                seq![
                    SqlView::Text(device.device_name@),
                    SqlView::Integer(fresh.now),
                    nullable(device.client_version),
                    nullable(device.console_public_ip),
                    SqlView::Text(device.device_id->Some_0@),
                ],
            )
            &&& third is Done && third->Done_0 is Ok
            &&& third->Done_0->Ok_0.device_id == device.device_id->Some_0
            &&& third->Done_0->Ok_0.new_token is None
            &&& third->Done_0->Ok_0.status == row[1]->Text_0
        },
{
}

/// The devices of a room are listed from the youngest on, and each field of a listed device is the
/// value of its own column.
pub proof fn law_listed_device_is_its_row(room_id: Seq<char>, row: Seq<SqlValue>, device: Device)
    requires
        device_row(row) == Some(device),
    ensures
        is_query(
            select_devices(room_id),
            "SELECT id, room_id, group_id, display_name, network_ip, network_node_id, last_seen, status, config_version, COALESCE(up_stream, 0), COALESCE(down_stream, 0), traffic_updated_at, created_at, client_version, console_public_ip, vnts_status, vnts_error, vnts_updated_at FROM devices WHERE room_id = ?1 ORDER BY created_at DESC"@,
            seq![SqlView::Text(room_id)],
            seq![
                Column::Text,
                Column::Text,
                Column::OptionalText,
                Column::Text,
                Column::OptionalText,
                Column::OptionalText,
                Column::OptionalInteger,
                Column::Text,
                Column::Integer,
                Column::Integer,
                Column::Integer,
                Column::OptionalInteger,
                Column::Integer,
                Column::OptionalText,
                Column::OptionalText,
                Column::OptionalText,
                Column::OptionalText,
                Column::OptionalInteger,
            ],
        ),
        row.len() >= 18,
        row[0] == SqlValue::Text(device.id),
        row[1] == SqlValue::Text(device.room_id),
        device.group_id == text_in(row[2]),
        row[3] == SqlValue::Text(device.display_name),
        device.network_ip == text_in(row[4]),
        device.network_node_id == text_in(row[5]),
        device.last_seen == number_in(row[6]),
        row[7] == SqlValue::Text(device.status),
        row[8] == SqlValue::Integer(device.config_version),
        row[9] == SqlValue::Integer(device.up_stream),
        row[10] == SqlValue::Integer(device.down_stream),
        device.traffic_updated_at == number_in(row[11]),
        row[12] == SqlValue::Integer(device.created_at),
        device.client_version == text_in(row[13]),
        device.console_public_ip == text_in(row[14]),
        device.vnts_status == text_in(row[15]),
        device.vnts_error == text_in(row[16]),
        device.vnts_updated_at == number_in(row[17]),
{
}

/// What is asked and stored of a single device names that device, and its room where the console
/// asks: its kick, a new token, its place in a room, whose it is, and who is in a group.
pub proof fn law_single_device_is_addressed(
    device_id: Seq<char>,
    room_id: Seq<char>,
    group_id: Seq<char>,
    user_id: Seq<char>,
    token: Seq<char>,
)
    ensures
        is_statement(
            mark_kicked(device_id, room_id),
            "UPDATE devices SET status = 'kicked' WHERE id = ?1 AND room_id = ?2"@,
            seq![SqlView::Text(device_id), SqlView::Text(room_id)],
        ),
        is_statement(
            set_device_token(token, device_id, room_id),
            "UPDATE devices SET device_token = ?1 WHERE id = ?2 AND room_id = ?3"@,
            seq![SqlView::Text(token), SqlView::Text(device_id), SqlView::Text(room_id)],
        ),
        is_query(
            count_device(device_id, room_id),
            "SELECT COUNT(*) FROM devices WHERE id = ?1 AND room_id = ?2"@,
            seq![SqlView::Text(device_id), SqlView::Text(room_id)],
            seq![Column::Integer],
        ),
        is_query(
            count_foreign_device(device_id, user_id),
            "SELECT COUNT(*) FROM devices d JOIN rooms r ON d.room_id = r.id WHERE d.id = ?1 AND r.owner_id <> ?2"@,
            seq![SqlView::Text(device_id), SqlView::Text(user_id)],
            seq![Column::Integer],
        ),
        is_query(
            select_members(room_id, group_id),
            "SELECT id FROM devices WHERE room_id = ?1 AND group_id = ?2"@,
            seq![SqlView::Text(room_id), SqlView::Text(group_id)],
            seq![Column::Text],
        ),
{
}

} // verus!

//! Devices.
use vstd::prelude::*;
use vstd::string::*;

use crate::db::transaction::{views, Transaction};
use crate::db::{Database, DbError};
use crate::flow;
use crate::flow::{Call, Fresh, Reply, Step};
use crate::models::{Device, UpdateDeviceRequest};
use crate::sql;
use crate::sql::{Column, Query, QueryView, Row, SqlValue, Statement, StatementView};
use crate::text;

verus! {

/// A device that introduces itself.
#[derive(Debug)]
pub struct Introduction {
    pub room_id: String,
    pub device_id: Option<String>,
    pub device_token: Option<String>,
    pub device_name: String,
    pub client_version: Option<String>,
    pub console_public_ip: Option<String>,
}

/// How a device was received: its identifier, its token where it is new, and the status it had.
#[derive(Debug)]
pub struct Reception {
    pub device_id: String,
    pub new_token: Option<String>,
    pub status: String,
}

/// Text of the query for the token and the status of a device of a room.
pub const SELECT_CREDENTIALS: &'static str =
    "SELECT device_token, status FROM devices WHERE id = ?1 AND room_id = ?2";

/// Finds the token and the status of a device of a room.
pub open spec fn select_credentials(device_id: Seq<char>, room_id: Seq<char>) -> QueryView {
    sql::query(sql::statement(SELECT_CREDENTIALS@).text(device_id).text(room_id)).column(
        Column::Text,
    ).column(Column::Text)
}

/// Text of the statement that notes a known device's return.
pub const RECEIVE_DEVICE: &'static str =
    "UPDATE devices SET display_name = ?1, last_seen = ?2, client_version = COALESCE(?3, client_version), console_public_ip = COALESCE(?4, console_public_ip), status = CASE WHEN status = 'kicked' THEN status ELSE 'online' END WHERE id = ?5";

/// Notes the return of a known device. One that was kicked stays so.
pub open spec fn receive_device(device: Introduction, device_id: Seq<char>, now: i64) -> StatementView {
    sql::statement(RECEIVE_DEVICE@).text(device.device_name@).integer(now).text_option(
        device.client_version,
    ).text_option(device.console_public_ip).text(device_id)
}

/// Text of the statement that stores a new device.
pub const INSERT_DEVICE: &'static str =
    "INSERT INTO devices(id, room_id, display_name, device_token, last_seen, status, config_version, created_at, client_version, console_public_ip) VALUES(?1, ?2, ?3, ?4, ?5, 'pending', 0, ?5, ?6, ?7)";

/// Stores a new device.
pub open spec fn insert_device(
    device: Introduction,
    id: Seq<char>,
    token: Seq<char>,
    now: i64,
) -> StatementView {
    sql::statement(INSERT_DEVICE@).text(id).text(device.room_id@).text(device.device_name@).text(
        token,
    ).integer(now).text_option(device.client_version).text_option(device.console_public_ip)
}

/// A device being received.
#[derive(Debug)]
pub enum UpsertDeviceHello {
    /// The credentials of a known device are being looked up.
    Authenticating { device: Introduction, device_id: String, device_token: String },
    /// The device is being stored.
    Storing { reception: Reception },
}

impl UpsertDeviceHello {
    /// The first step. A device that names identifier and token has to prove itself; any other
    /// is stored as new, under a fresh identifier and with a fresh token.
    pub open spec fn started(
        device: Introduction,
        fresh: Fresh,
        step: Step<UpsertDeviceHello, Result<Reception, DbError>>,
    ) -> bool {
        match (device.device_id, device.device_token) {
            (Some(id), Some(token)) => {
                &&& step matches Step::Ask(
                    UpsertDeviceHello::Authenticating { device: d, device_id, device_token },
                    call,
                )
                &&& d == device
                &&& device_id == id
                &&& device_token == token
                &&& call.fetches(select_credentials(id@, device.room_id@))
            },
            _ => {
                &&& step matches Step::Ask(UpsertDeviceHello::Storing { reception }, call)
                &&& reception.device_id == fresh.id
                &&& reception.new_token == Some(fresh.secret)
                &&& reception.status@ == "pending"@
                &&& call.executes(insert_device(device, fresh.id@, fresh.secret@, fresh.now))
            },
        }
    }

    /// How the reception goes on with a reply: a device that is unknown in the room or has
    /// another token is refused.
    pub open spec fn resumed(
        self,
        reply: Reply,
        fresh: Fresh,
        step: Step<UpsertDeviceHello, Result<Reception, DbError>>,
    ) -> bool {
        match self {
            UpsertDeviceHello::Authenticating { device, device_id, device_token } =>
            match flow::row_of(reply) {
                None => step == Step::<UpsertDeviceHello, Result<Reception, DbError>>::Done(
                    Err(DbError::Failed),
                ),
                Some(None) => step == Step::<UpsertDeviceHello, Result<Reception, DbError>>::Done(
                    Err(DbError::DeviceAuthFailed),
                ),
                Some(Some(row)) => match (sql::text_cell(row, 0), sql::text_cell(row, 1)) {
                    (Some(saved), Some(status)) => if saved@ != device_token@ {
                        step == Step::<UpsertDeviceHello, Result<Reception, DbError>>::Done(
                            Err(DbError::DeviceAuthFailed),
                        )
                    } else {
                        &&& step matches Step::Ask(state, call)
                        &&& state == (UpsertDeviceHello::Storing {
                            reception: Reception { device_id, new_token: None, status },
                        })
                        &&& call.executes(receive_device(device, device_id@, fresh.now))
                    },
                    _ => step == Step::<UpsertDeviceHello, Result<Reception, DbError>>::Done(
                        Err(DbError::Failed),
                    ),
                },
            },
            UpsertDeviceHello::Storing { reception } => step == Step::<
                UpsertDeviceHello,
                Result<Reception, DbError>,
            >::Done(
                match flow::affected_of(reply) {
                    Some(_) => Ok(reception),
                    None => Err(DbError::Failed),
                },
            ),
        }
    }

    /// Takes the reply and goes on.
    pub fn resume(self, reply: Reply, fresh: Fresh) -> (step: Step<
        UpsertDeviceHello,
        Result<Reception, DbError>,
    >)
        ensures
            self.resumed(reply, fresh, step),
    {
        match self {
            UpsertDeviceHello::Authenticating { device, device_id, device_token } => {
                let row = match flow::first_row(reply) {
                    None => return Step::Done(Err(DbError::Failed)),
                    Some(None) => return Step::Done(Err(DbError::DeviceAuthFailed)),
                    Some(Some(row)) => row,
                };
                match (sql::text_at(&row, 0), sql::text_at(&row, 1)) {
                    (Some(saved), Some(status)) => {
                        if !text::same_text(saved.as_str(), device_token.as_str()) {
                            return Step::Done(Err(DbError::DeviceAuthFailed));
                        }
                        let statement = Statement::new(RECEIVE_DEVICE).text(
                            device.device_name.as_str(),
                        ).integer(fresh.now).text_option(&device.client_version).text_option(
                            &device.console_public_ip,
                        ).text(device_id.as_str());
                        Step::Ask(
                            UpsertDeviceHello::Storing {
                                reception: Reception { device_id, new_token: None, status },
                            },
                            Call::Execute(statement),
                        )
                    },
                    _ => Step::Done(Err(DbError::Failed)),
                }
            },
            UpsertDeviceHello::Storing { reception } => match flow::affected(reply) {
                Some(_) => Step::Done(Ok(reception)),
                None => Step::Done(Err(DbError::Failed)),
            },
        }
    }
}

/// A device that names an identifier and a token is only received under that identifier, and
/// only where the room holds it with that token.
pub proof fn law_device_proves_itself(
    device: Introduction,
    device_id: String,
    device_token: String,
    reply: Reply,
    fresh: Fresh,
    step: Step<UpsertDeviceHello, Result<Reception, DbError>>,
)
    requires
        (UpsertDeviceHello::Authenticating { device, device_id, device_token }).resumed(
            reply,
            fresh,
            step,
        ),
    ensures
        step matches Step::Ask(UpsertDeviceHello::Storing { reception }, _)
            ==> reception.device_id == device_id && reception.new_token is None
            && flow::row_of(reply) is Some && flow::row_of(reply)->Some_0 is Some && sql::text_cell(
            flow::row_of(reply)->Some_0->Some_0,
            0,
        ) is Some && sql::text_cell(flow::row_of(reply)->Some_0->Some_0, 0)->Some_0@
            == device_token@,
        !(step is Ask) ==> step->Done_0 is Err,
{
}

/// The device in a row of `select_devices`.
pub open spec fn device_row(row: Seq<SqlValue>) -> Option<Device> {
    match (
        (
            sql::text_cell(row, 0),
            sql::text_cell(row, 1),
            sql::optional_text_cell(row, 2),
            sql::text_cell(row, 3),
            sql::optional_text_cell(row, 4),
            sql::optional_text_cell(row, 5),
        ),
        (
            sql::optional_integer_cell(row, 6),
            sql::text_cell(row, 7),
            sql::integer_cell(row, 8),
            sql::integer_cell(row, 9),
            sql::integer_cell(row, 10),
            sql::optional_integer_cell(row, 11),
            sql::integer_cell(row, 12),
        ),
        (
            sql::optional_text_cell(row, 13),
            sql::optional_text_cell(row, 14),
            sql::optional_text_cell(row, 15),
            sql::optional_text_cell(row, 16),
            sql::optional_integer_cell(row, 17),
        ),
    ) {
        (
            (
                Some(id),
                Some(room_id),
                Some(group_id),
                Some(display_name),
                Some(network_ip),
                Some(network_node_id),
            ),
            (
                Some(last_seen),
                Some(status),
                Some(config_version),
                Some(up_stream),
                Some(down_stream),
                Some(traffic_updated_at),
                Some(created_at),
            ),
            (
                Some(client_version),
                Some(console_public_ip),
                Some(vnts_status),
                Some(vnts_error),
                Some(vnts_updated_at),
            ),
        ) => Some(
            Device {
                id,
                room_id,
                group_id,
                display_name,
                client_version,
                console_public_ip,
                network_ip,
                network_node_id,
                last_seen,
                status,
                vnts_status,
                vnts_error,
                vnts_updated_at,
                config_version,
                up_stream,
                down_stream,
                traffic_updated_at,
                created_at,
            },
        ),
        _ => None,
    }
}

/// Reads a device out of a row; `None` where the row is none.
pub fn device_from_row(row: &Row) -> (device: Option<Device>)
    ensures
        device == device_row(row@),
{
    match (
        (
            sql::text_at(row, 0),
            sql::text_at(row, 1),
            sql::optional_text_at(row, 2),
            sql::text_at(row, 3),
            sql::optional_text_at(row, 4),
            sql::optional_text_at(row, 5),
        ),
        (
            sql::optional_integer_at(row, 6),
            sql::text_at(row, 7),
            sql::integer_at(row, 8),
            sql::integer_at(row, 9),
            sql::integer_at(row, 10),
            sql::optional_integer_at(row, 11),
            sql::integer_at(row, 12),
        ),
        (
            sql::optional_text_at(row, 13),
            sql::optional_text_at(row, 14),
            sql::optional_text_at(row, 15),
            sql::optional_text_at(row, 16),
            sql::optional_integer_at(row, 17),
        ),
    ) {
        (
            (
                Some(id),
                Some(room_id),
                Some(group_id),
                Some(display_name),
                Some(network_ip),
                Some(network_node_id),
            ),
            (
                Some(last_seen),
                Some(status),
                Some(config_version),
                Some(up_stream),
                Some(down_stream),
                Some(traffic_updated_at),
                Some(created_at),
            ),
            (
                Some(client_version),
                Some(console_public_ip),
                Some(vnts_status),
                Some(vnts_error),
                Some(vnts_updated_at),
            ),
        ) => Some(
            Device {
                id,
                room_id,
                group_id,
                display_name,
                client_version,
                console_public_ip,
                network_ip,
                network_node_id,
                last_seen,
                status,
                vnts_status,
                vnts_error,
                vnts_updated_at,
                config_version,
                up_stream,
                down_stream,
                traffic_updated_at,
                created_at,
            },
        ),
        _ => None,
    }
}

/// Whether devices are what the rows of a result hold, in order.
pub open spec fn are_devices(rows: Seq<Row>, devices: Seq<Device>) -> bool {
    &&& devices.len() == rows.len()
    &&& forall|i: int| 0 <= i < rows.len() ==> device_row(#[trigger] rows[i]@) == Some(devices[i])
}

/// Reads the devices of a result; `None` where a row is no device.
pub fn read_devices(rows: &Vec<Row>) -> (devices: Option<Vec<Device>>)
    ensures
        match devices {
            Some(d) => are_devices(rows@, d@),
            None => exists|i: int| 0 <= i < rows@.len() && device_row(#[trigger] rows@[i]@) is None,
        },
{
    let mut devices: Vec<Device> = Vec::new();
    let mut i: usize = 0;
    while i < rows.len()
        invariant
            i <= rows@.len(),
            devices@.len() == i,
            forall|j: int| 0 <= j < i ==> device_row(#[trigger] rows@[j]@) == Some(devices@[j]),
        decreases rows@.len() - i,
    {
        match device_from_row(&rows[i]) {
            Some(device) => {
                devices.push(device);
            },
            None => {
                assert(device_row(rows@[i as int]@) is None);
                return None;
            },
        }
        i = i + 1;
    }
    Some(devices)
}

/// Text of the query for the devices of a room.
pub const SELECT_DEVICES: &'static str =
    "SELECT id, room_id, group_id, display_name, network_ip, network_node_id, last_seen, status, config_version, COALESCE(up_stream, 0), COALESCE(down_stream, 0), traffic_updated_at, created_at, client_version, console_public_ip, vnts_status, vnts_error, vnts_updated_at FROM devices WHERE room_id = ?1 ORDER BY created_at DESC";

/// Lists the devices of a room, the youngest first.
pub open spec fn select_devices(room_id: Seq<char>) -> QueryView {
    sql::query(sql::statement(SELECT_DEVICES@).text(room_id)).column(Column::Text).column(
        Column::Text,
    ).column(Column::OptionalText).column(Column::Text).column(Column::OptionalText).column(
        Column::OptionalText,
    ).column(Column::OptionalInteger).column(Column::Text).column(Column::Integer).column(
        Column::Integer,
    ).column(Column::Integer).column(Column::OptionalInteger).column(Column::Integer).column(
        Column::OptionalText,
    ).column(Column::OptionalText).column(Column::OptionalText).column(
        Column::OptionalText,
    ).column(Column::OptionalInteger)
}

/// Text of the query for what can be changed of a device.
pub const SELECT_EDITABLE: &'static str =
    "SELECT display_name, group_id, network_ip, network_node_id FROM devices WHERE id = ?1 AND room_id = ?2";

/// Finds what can be changed of a device of a room.
pub open spec fn select_editable(device_id: Seq<char>, room_id: Seq<char>) -> QueryView {
    sql::query(sql::statement(SELECT_EDITABLE@).text(device_id).text(room_id)).column(
        Column::Text,
    ).column(Column::OptionalText).column(Column::OptionalText).column(Column::OptionalText)
}

/// Text of the statement that changes a device.
pub const CHANGE_DEVICE: &'static str =
    "UPDATE devices SET display_name = ?1, group_id = ?2, network_ip = ?3, network_node_id = ?4 WHERE id = ?5 AND room_id = ?6";

/// What of a device can be changed.
#[derive(Debug)]
pub struct Editable {
    pub display_name: String,
    pub group_id: Option<String>,
    pub network_ip: Option<String>,
    pub network_node_id: Option<String>,
}

/// Changes a device of a room.
pub open spec fn change_device(
    values: Editable,
    device_id: Seq<char>,
    room_id: Seq<char>,
) -> StatementView {
    sql::statement(CHANGE_DEVICE@).text(values.display_name@).text_option(
        values.group_id,
    ).text_option(values.network_ip).text_option(values.network_node_id).text(device_id).text(
        room_id,
    )
}

/// What can be changed of the device in a row of `select_editable`.
pub open spec fn editable_row(row: Seq<SqlValue>) -> Option<Editable> {
    match (
        sql::text_cell(row, 0),
        sql::optional_text_cell(row, 1),
        sql::optional_text_cell(row, 2),
        sql::optional_text_cell(row, 3),
    ) {
        (Some(display_name), Some(group_id), Some(network_ip), Some(network_node_id)) => Some(
            Editable { display_name, group_id, network_ip, network_node_id },
        ),
        _ => None,
    }
}

/// The first of two values that is there.
pub open spec fn either(first: Option<String>, second: Option<String>) -> Option<String> {
    match first {
        Some(v) => Some(v),
        None => second,
    }
}

/// A device with the requested changes; what is not requested stays.
pub open spec fn edited(current: Editable, request: UpdateDeviceRequest) -> Editable {
    Editable {
        display_name: match request.display_name {
            Some(name) => name,
            None => current.display_name,
        },
        group_id: either(request.group_id, current.group_id),
        network_ip: either(request.network_ip, current.network_ip),
        network_node_id: either(request.network_node_id, current.network_node_id),
    }
}

fn choose_text(first: Option<String>, second: Option<String>) -> (chosen: Option<String>)
    ensures
        chosen == either(first, second),
{
    match first {
        Some(v) => Some(v),
        None => second,
    }
}

fn edit(current: Editable, request: UpdateDeviceRequest) -> (values: Editable)
    ensures
        values == edited(current, request),
{
    Editable {
        display_name: match request.display_name {
            Some(name) => name,
            None => current.display_name,
        },
        group_id: choose_text(request.group_id, current.group_id),
        network_ip: choose_text(request.network_ip, current.network_ip),
        network_node_id: choose_text(request.network_node_id, current.network_node_id),
    }
}

/// A device being changed.
#[derive(Debug)]
pub enum UpdateDevice {
    /// The device is being looked up.
    Looking { room_id: String, device_id: String, request: UpdateDeviceRequest },
    /// The change is being stored.
    Writing,
}

impl UpdateDevice {
    /// The first step: the device is looked up in the room.
    pub open spec fn started(
        room_id: String,
        device_id: String,
        request: UpdateDeviceRequest,
        step: Step<UpdateDevice, Result<(), DbError>>,
    ) -> bool {
        &&& step matches Step::Ask(state, call)
        &&& state == (UpdateDevice::Looking { room_id, device_id, request })
        &&& call.fetches(select_editable(device_id@, room_id@))
    }

    /// How the change goes on with a reply.
    pub open spec fn resumed(
        self,
        reply: Reply,
        step: Step<UpdateDevice, Result<(), DbError>>,
    ) -> bool {
        match self {
            UpdateDevice::Looking { room_id, device_id, request } => match flow::row_of(reply) {
                None => step == Step::<UpdateDevice, Result<(), DbError>>::Done(
                    Err(DbError::Failed),
                ),
                Some(None) => step == Step::<UpdateDevice, Result<(), DbError>>::Done(
                    Err(DbError::DeviceNotFound),
                ),
                Some(Some(row)) => match editable_row(row) {
                    None => step == Step::<UpdateDevice, Result<(), DbError>>::Done(
                        Err(DbError::Failed),
                    ),
                    Some(current) => {
                        &&& step matches Step::Ask(UpdateDevice::Writing, call)
                        &&& call.executes(
                            change_device(edited(current, request), device_id@, room_id@),
                        )
                    },
                },
            },
            UpdateDevice::Writing => step == Step::<UpdateDevice, Result<(), DbError>>::Done(
                match flow::affected_of(reply) {
                    Some(_) => Ok(()),
                    None => Err(DbError::Failed),
                },
            ),
        }
    }

    /// Takes the reply and goes on.
    pub fn resume(self, reply: Reply) -> (step: Step<UpdateDevice, Result<(), DbError>>)
        ensures
            self.resumed(reply, step),
    {
        match self {
            UpdateDevice::Looking { room_id, device_id, request } => {
                let row = match flow::first_row(reply) {
                    None => return Step::Done(Err(DbError::Failed)),
                    Some(None) => return Step::Done(Err(DbError::DeviceNotFound)),
                    Some(Some(row)) => row,
                };
                match (
                    sql::text_at(&row, 0),
                    sql::optional_text_at(&row, 1),
                    sql::optional_text_at(&row, 2),
                    sql::optional_text_at(&row, 3),
                ) {
                    (
                        Some(display_name),
                        Some(group_id),
                        Some(network_ip),
                        Some(network_node_id),
                    ) => {
                        let current = Editable {
                            display_name,
                            group_id,
                            network_ip,
                            network_node_id,
                        };
                        let values = edit(current, request);
                        let statement = Statement::new(CHANGE_DEVICE).text(
                            values.display_name.as_str(),
                        ).text_option(&values.group_id).text_option(
                            &values.network_ip,
                        ).text_option(&values.network_node_id).text(device_id.as_str()).text(
                            room_id.as_str(),
                        );
                        Step::Ask(UpdateDevice::Writing, Call::Execute(statement))
                    },
                    _ => Step::Done(Err(DbError::Failed)),
                }
            },
            UpdateDevice::Writing => match flow::affected(reply) {
                Some(_) => Step::Done(Ok(())),
                None => Step::Done(Err(DbError::Failed)),
            },
        }
    }
}

/// Text of the statement that deletes the pushes to a device.
pub const DELETE_DEVICE_PUSHES: &'static str = "DELETE FROM config_pushes WHERE device_id = ?1";

/// Text of the statement that deletes the events of a device.
pub const DELETE_DEVICE_EVENTS: &'static str = "DELETE FROM events WHERE device_id = ?1";

/// Text of the statement that deletes a device of a room.
pub const DELETE_DEVICE: &'static str = "DELETE FROM devices WHERE id = ?1 AND room_id = ?2";

/// Deletes the pushes to a device and its events, and the device where it is one of the room.
pub open spec fn delete_device_statements(room_id: Seq<char>, device_id: Seq<char>) -> Seq<
    StatementView,
> {
    Seq::empty().push(sql::statement(DELETE_DEVICE_PUSHES@).text(device_id)).push(
        sql::statement(DELETE_DEVICE_EVENTS@).text(device_id),
    ).push(sql::statement(DELETE_DEVICE@).text(device_id).text(room_id))
}

/// Text of the statement that gives a device a new token.
pub const SET_DEVICE_TOKEN: &'static str =
    "UPDATE devices SET device_token = ?1 WHERE id = ?2 AND room_id = ?3";

/// Gives a device of a room a new token.
pub open spec fn set_device_token(
    token: Seq<char>,
    device_id: Seq<char>,
    room_id: Seq<char>,
) -> StatementView {
    sql::statement(SET_DEVICE_TOKEN@).text(token).text(device_id).text(room_id)
}

/// Text of the statement that stores the traffic of a device.
pub const SET_TRAFFIC: &'static str =
    "UPDATE devices SET up_stream = ?1, down_stream = ?2, traffic_updated_at = ?3, last_seen = ?3 WHERE id = ?4";

/// Stores the traffic of a device.
pub open spec fn set_traffic(device_id: Seq<char>, up: u64, down: u64, now: i64) -> StatementView {
    sql::statement(SET_TRAFFIC@).integer(sql::stored_u64(up)).integer(
        sql::stored_u64(down),
    ).integer(now).text(device_id)
}

/// Text of the statement that stores how a device is connected to its network.
pub const SET_VNTS_STATUS: &'static str =
    "UPDATE devices SET vnts_status = ?1, vnts_error = ?2, vnts_updated_at = ?3, last_seen = ?3 WHERE id = ?4";

/// Stores how a device is connected to its network.
pub open spec fn set_vnts_status(
    device_id: Seq<char>,
    status: Seq<char>,
    error: Option<String>,
    now: i64,
) -> StatementView {
    sql::statement(SET_VNTS_STATUS@).text(status).text_option(error).integer(now).text(device_id)
}

/// Text of the statement that marks a device as gone.
pub const MARK_OFFLINE: &'static str =
    "UPDATE devices SET status = CASE WHEN status = 'kicked' THEN status ELSE 'offline' END WHERE id = ?1";

/// Marks a device as gone. One that was kicked stays so.
pub open spec fn mark_offline(device_id: Seq<char>) -> StatementView {
    sql::statement(MARK_OFFLINE@).text(device_id)
}

/// Text of the statement that kicks a device.
pub const MARK_KICKED: &'static str =
    "UPDATE devices SET status = 'kicked' WHERE id = ?1 AND room_id = ?2";

/// Kicks a device of a room.
pub open spec fn mark_kicked(device_id: Seq<char>, room_id: Seq<char>) -> StatementView {
    sql::statement(MARK_KICKED@).text(device_id).text(room_id)
}

/// Text of the statement that notes that a device was heard of.
pub const MARK_SEEN: &'static str = "UPDATE devices SET last_seen = ?1 WHERE id = ?2";

/// Notes that a device was heard of.
pub open spec fn mark_seen(device_id: Seq<char>, now: i64) -> StatementView {
    sql::statement(MARK_SEEN@).integer(now).text(device_id)
}

/// Text of the statement that notes which configuration a device runs with.
pub const MARK_RUNNING: &'static str =
    "UPDATE devices SET config_version = ?1, last_seen = ?2, status = CASE WHEN status = 'kicked' THEN status ELSE 'online' END WHERE id = ?3";

/// Notes which configuration a device runs with. One that was kicked stays so.
pub open spec fn mark_running(device_id: Seq<char>, version: u32, now: i64) -> StatementView {
    sql::statement(MARK_RUNNING@).integer(version as i64).integer(now).text(device_id)
}

/// Text of the statement that marks the last push to a device as received.
pub const MARK_ACKED: &'static str =
    "UPDATE config_pushes SET acked = 1 WHERE id = (SELECT id FROM config_pushes WHERE device_id = ?1 AND acked = 0 ORDER BY pushed_at DESC LIMIT 1)";

/// Marks the last push to a device as received.
pub open spec fn mark_acked(device_id: Seq<char>) -> StatementView {
    sql::statement(MARK_ACKED@).text(device_id)
}

/// Text of the statement that stores the version that a device has.
pub const SET_DEVICE_VERSION: &'static str =
    "UPDATE devices SET config_version = ?1 WHERE id = ?2";

/// Stores the version that a device has.
pub open spec fn set_device_version(device_id: Seq<char>, version: u32) -> StatementView {
    sql::statement(SET_DEVICE_VERSION@).integer(version as i64).text(device_id)
}

/// Text of the query that counts a device of a room.
pub const COUNT_DEVICE: &'static str =
    "SELECT COUNT(*) FROM devices WHERE id = ?1 AND room_id = ?2";

/// Counts the devices of a room with an identifier.
pub open spec fn count_device(device_id: Seq<char>, room_id: Seq<char>) -> QueryView {
    sql::query(sql::statement(COUNT_DEVICE@).text(device_id).text(room_id)).column(Column::Integer)
}

/// Text of the query that counts a device of other owners.
pub const COUNT_FOREIGN_DEVICE: &'static str =
    "SELECT COUNT(*) FROM devices d JOIN rooms r ON d.room_id = r.id WHERE d.id = ?1 AND r.owner_id <> ?2";

/// Counts the devices with an identifier that stand in rooms of others than a user.
pub open spec fn count_foreign_device(device_id: Seq<char>, user_id: Seq<char>) -> QueryView {
    sql::query(sql::statement(COUNT_FOREIGN_DEVICE@).text(device_id).text(user_id)).column(
        Column::Integer,
    )
}

/// Text of the query for the devices of a group.
pub const SELECT_MEMBERS: &'static str =
    "SELECT id FROM devices WHERE room_id = ?1 AND group_id = ?2";

/// Lists the identifiers of the devices of a group.
pub open spec fn select_members(room_id: Seq<char>, group_id: Seq<char>) -> QueryView {
    sql::query(sql::statement(SELECT_MEMBERS@).text(room_id).text(group_id)).column(Column::Text)
}

impl Database {
    /// Begins to receive a device.
    pub fn upsert_device_hello(&self, device: Introduction, fresh: Fresh) -> (step: Step<
        UpsertDeviceHello,
        Result<Reception, DbError>,
    >)
        ensures
            UpsertDeviceHello::started(device, fresh, step),
    {
        if let (Some(id), Some(token)) = (&device.device_id, &device.device_token) {
            let device_id = id.clone();
            let device_token = token.clone();
            let query = Query::new(
                Statement::new(SELECT_CREDENTIALS).text(device_id.as_str()).text(
                    device.room_id.as_str(),
                ),
            ).column(Column::Text).column(Column::Text);
            return Step::Ask(
                UpsertDeviceHello::Authenticating { device, device_id, device_token },
                Call::Fetch(query),
            );
        }
        let statement = Statement::new(INSERT_DEVICE).text(fresh.id.as_str()).text(
            device.room_id.as_str(),
        ).text(device.device_name.as_str()).text(fresh.secret.as_str()).integer(
            fresh.now,
        ).text_option(&device.client_version).text_option(&device.console_public_ip);
        let reception = Reception {
            device_id: fresh.id,
            new_token: Some(fresh.secret),
            status: "pending".to_string(),
        };
        Step::Ask(UpsertDeviceHello::Storing { reception }, Call::Execute(statement))
    }

    /// The query for the devices of a room.
    pub fn list_devices(&self, room_id: &str) -> (q: Query)
        ensures
            q@ == select_devices(room_id@),
    {
        Query::new(Statement::new(SELECT_DEVICES).text(room_id)).column(Column::Text).column(
            Column::Text,
        ).column(Column::OptionalText).column(Column::Text).column(Column::OptionalText).column(
            Column::OptionalText,
        ).column(Column::OptionalInteger).column(Column::Text).column(Column::Integer).column(
            Column::Integer,
        ).column(Column::Integer).column(Column::OptionalInteger).column(Column::Integer).column(
            Column::OptionalText,
        ).column(Column::OptionalText).column(Column::OptionalText).column(
            Column::OptionalText,
        ).column(Column::OptionalInteger)
    }

    /// Begins to change a device of a room.
    pub fn update_device(&self, room_id: String, device_id: String, request: UpdateDeviceRequest)
        -> (step: Step<UpdateDevice, Result<(), DbError>>)
        ensures
            UpdateDevice::started(room_id, device_id, request, step),
    {
        let query = Query::new(
            Statement::new(SELECT_EDITABLE).text(device_id.as_str()).text(room_id.as_str()),
        ).column(Column::Text).column(Column::OptionalText).column(Column::OptionalText).column(
            Column::OptionalText,
        );
        Step::Ask(UpdateDevice::Looking { room_id, device_id, request }, Call::Fetch(query))
    }

    /// Begins to delete the pushes to a device and its events, and the device where it is one of
    /// the room.
    pub fn delete_device(&self, room_id: &str, device_id: &str) -> (step: Step<
        Transaction,
        Result<(), DbError>,
    >)
        ensures
            Transaction::started(delete_device_statements(room_id@, device_id@), step),
    {
        let mut statements: Vec<Statement> = Vec::new();
        statements.push(Statement::new(DELETE_DEVICE_PUSHES).text(device_id));
        statements.push(Statement::new(DELETE_DEVICE_EVENTS).text(device_id));
        statements.push(Statement::new(DELETE_DEVICE).text(device_id).text(room_id));
        assert(views(statements@) =~= delete_device_statements(room_id@, device_id@));
        Transaction::start(statements)
    }

    /// The statement that gives a device of a room a new token.
    pub fn regenerate_device_token(&self, room_id: &str, device_id: &str, token: &str) -> (s:
        Statement)
        ensures
            s@ == set_device_token(token@, device_id@, room_id@),
    {
        Statement::new(SET_DEVICE_TOKEN).text(token).text(device_id).text(room_id)
    }

    /// The statement that stores the traffic of a device.
    pub fn update_device_traffic(&self, device_id: &str, up: u64, down: u64, now: i64) -> (s:
        Statement)
        ensures
            s@ == set_traffic(device_id@, up, down, now),
    {
        Statement::new(SET_TRAFFIC).integer(sql::wrap_u64(up)).integer(
            sql::wrap_u64(down),
        ).integer(now).text(device_id)
    }

    /// The statement that stores how a device is connected to its network.
    pub fn update_device_vnts_status(
        &self,
        device_id: &str,
        status: &str,
        error: &Option<String>,
        now: i64,
    ) -> (s: Statement)
        ensures
            s@ == set_vnts_status(device_id@, status@, *error, now),
    {
        Statement::new(SET_VNTS_STATUS).text(status).text_option(error).integer(now).text(
            device_id,
        )
    }

    /// The statement that marks a device as gone.
    pub fn mark_device_offline(&self, device_id: &str) -> (s: Statement)
        ensures
            s@ == mark_offline(device_id@),
    {
        Statement::new(MARK_OFFLINE).text(device_id)
    }

    /// The statement that kicks a device of a room.
    pub fn kick_device(&self, device_id: &str, room_id: &str) -> (s: Statement)
        ensures
            s@ == mark_kicked(device_id@, room_id@),
    {
        Statement::new(MARK_KICKED).text(device_id).text(room_id)
    }

    /// The statement that notes that a device was heard of.
    pub fn mark_device_seen(&self, device_id: &str, now: i64) -> (s: Statement)
        ensures
            s@ == mark_seen(device_id@, now),
    {
        Statement::new(MARK_SEEN).integer(now).text(device_id)
    }

    /// The statement that notes which configuration a device runs with.
    pub fn mark_device_running(&self, device_id: &str, version: u32, now: i64) -> (s: Statement)
        ensures
            s@ == mark_running(device_id@, version, now),
    {
        Statement::new(MARK_RUNNING).integer(version as i64).integer(now).text(device_id)
    }

    /// The statement that marks the last push to a device as received.
    pub fn acknowledge_push(&self, device_id: &str) -> (s: Statement)
        ensures
            s@ == mark_acked(device_id@),
    {
        Statement::new(MARK_ACKED).text(device_id)
    }

    /// The statement that stores the version that a device has.
    pub fn set_device_version(&self, device_id: &str, version: u32) -> (s: Statement)
        ensures
            s@ == set_device_version(device_id@, version),
    {
        Statement::new(SET_DEVICE_VERSION).integer(version as i64).text(device_id)
    }

    /// The query that tells whether a device is in a room: whether it counts any.
    pub fn device_in_room(&self, device_id: &str, room_id: &str) -> (q: Query)
        ensures
            q@ == count_device(device_id@, room_id@),
    {
        Query::new(Statement::new(COUNT_DEVICE).text(device_id).text(room_id)).column(
            Column::Integer,
        )
    }

    /// The query that tells whether a device is another user's: whether it counts any.
    pub fn device_of_others(&self, device_id: &str, user_id: &str) -> (q: Query)
        ensures
            q@ == count_foreign_device(device_id@, user_id@),
    {
        Query::new(Statement::new(COUNT_FOREIGN_DEVICE).text(device_id).text(user_id)).column(
            Column::Integer,
        )
    }

    /// The query for the identifiers of the devices of a group.
    pub fn group_members(&self, room_id: &str, group_id: &str) -> (q: Query)
        ensures
            q@ == select_members(room_id@, group_id@),
    {
        Query::new(Statement::new(SELECT_MEMBERS).text(room_id).text(group_id)).column(
            Column::Text,
        )
    }
}

} // verus!

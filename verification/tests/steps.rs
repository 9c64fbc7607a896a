//! Single steps of operations, with replies made up by hand.
use vnt_hub::api;
use vnt_hub::api::account;
use vnt_hub::api::backup;
use vnt_hub::api::backup::EventQuery;
use vnt_hub::api::push;
use vnt_hub::api::push::PushConfig;
use vnt_hub::api::rooms;
use vnt_hub::api::rooms::{RoomAction, RoomRequest};
use vnt_hub::api::Body;
use vnt_hub::auth::AuthUser;
use vnt_hub::client_api;
use vnt_hub::client_api::hello;
use vnt_hub::client_api::hello::Welcome;
use vnt_hub::client_api::message;
use vnt_hub::client_api::session::{Session, SessionAction};
use vnt_hub::client_api::sync::{ConfigReport, PushCurrent, PushRule, SyncReport};
use vnt_hub::client_api::{ClientError, DatagramRoute};
use vnt_hub::config::Args;
use vnt_hub::crypto;
use vnt_hub::crypto::CryptoError;
use vnt_hub::db::backup::{import_rows, BackupTable, Export, ImportBackup};
use vnt_hub::db::device_config::DeviceConfig;
use vnt_hub::db::group_store::{CreateGroup, ListGroups, SetDeviceGroup, UpdateGroup};
use vnt_hub::db::groups;
use vnt_hub::db::groups::SealedConfig;
use vnt_hub::db::rooms::CreateRoom;
use vnt_hub::db::schema;
use vnt_hub::db::system::{EnsureTlsCert, TlsPem};
use vnt_hub::db::transaction::Transaction;
use vnt_hub::db::users::EnsureAdmin;
use vnt_hub::db::{Database, DbError};
use vnt_hub::flow::{Call, Fresh, Reply, Step, Table};
use vnt_hub::json::{JsonCell, JsonDocument, JsonMember, JsonRow};
use vnt_hub::models;
use vnt_hub::models::{
    BackupData, BackupEnvelope, ClientMessage, LoginRequest, ServerMessage, UpdateGroupRequest,
    VntClientConfig,
};
use vnt_hub::sql::{SqlValue, Statement};
use vnt_hub::state::{AppState, LoginFailures};
use vnt_hub::status::StatusCode;

fn database() -> Database {
    Database {
        master_key: "master".to_string(),
    }
}

fn fresh() -> Fresh {
    Fresh {
        now: 1000,
        id: "00000000-0000-4000-8000-000000000000".to_string(),
        secret: "secret".to_string(),
        room_id: "0123456789abcdef".to_string(),
        nonce_token: [1; 12],
        nonce_server: [2; 12],
        nonce_password: [3; 12],
        nonce_config: [4; 12],
    }
}

fn text(value: &str) -> SqlValue {
    SqlValue::Text(value.to_string())
}

fn one_row(cells: Vec<SqlValue>) -> Reply {
    Reply::Rows(vec![cells])
}

fn count(n: i64) -> Reply {
    one_row(vec![SqlValue::Integer(n)])
}

fn user(role: &str) -> AuthUser {
    AuthUser {
        id: "u1".to_string(),
        username: "alice".to_string(),
        role: role.to_string(),
    }
}

fn app_state(disable_register: bool) -> AppState {
    let args = Args {
        listen: "l".to_string(),
        console_listen: "c".to_string(),
        db: "d".to_string(),
        disable_register,
        log_path: "console".to_string(),
    };
    AppState::new(database(), args, "secret".to_string())
}

fn credentials(username: &str, password: &str) -> LoginRequest {
    LoginRequest {
        username: username.to_string(),
        password: password.to_string(),
    }
}

fn object(members: Vec<(&str, JsonCell)>) -> JsonRow {
    JsonRow::Object(
        members
            .into_iter()
            .map(|(name, value)| JsonMember {
                name: name.to_string(),
                value,
            })
            .collect(),
    )
}

fn params(statement: &Statement) -> Vec<String> {
    statement
        .params
        .iter()
        .map(|p| match p {
            SqlValue::Null => "NULL".to_string(),
            SqlValue::Integer(n) => format!("{}", n),
            SqlValue::Text(t) => format!("'{}'", t),
        })
        .collect()
}

#[test]
fn default_configuration_has_its_values() {
    let config = VntClientConfig::default();
    assert_eq!(config.server_address, "vnt.wherewego.top:29872");
    assert_eq!(
        config.stun_server,
        vec![
            "stun.miwifi.com:3478",
            "stun.chat.bilibili.com:3478",
            "stun.hitv.com:3478",
            "stun.cdnbye.com:3478"
        ]
    );
    assert_eq!(config.use_channel, "all");
    assert_eq!(config.punch_model, "all");
    assert_eq!(config.token, "");
    assert!(!config.tap && config.mtu.is_none() && config.ports.is_none());
    assert_eq!(models::default_backup_scope(), "full");
}

#[test]
fn copy_of_a_configuration_agrees() {
    let mut config = VntClientConfig::default();
    config.ports = Some(vec![1, 2]);
    config.dns = vec!["1.1.1.1".to_string()];
    config.packet_loss = Some(4602678819172646912);
    assert_eq!(format!("{:?}", config.duplicate()), format!("{:?}", config));
    let stripped = groups::strip_secrets(&config);
    assert_eq!(stripped.server_address, "");
    assert_eq!(stripped.password, None);
    assert_eq!(stripped.dns, config.dns);
}

#[test]
fn public_configuration_tells_whether_registration_is_open() {
    let open = api::public_config(&app_state(false));
    assert!(open.allow_register);
    assert_eq!(open.console_version, "1.0.0");
    assert!(!api::public_config(&app_state(true)).allow_register);
}

#[test]
fn names_and_passwords_are_validated() {
    assert_eq!(api::validate_username_password("a.B-9_", "123456"), Ok(()));
    let longest = "a".repeat(32);
    assert_eq!(api::validate_username_password(&longest, "123456"), Ok(()));
    let too_long = "a".repeat(33);
    for name in ["ab", too_long.as_str(), "a b", "näme", ""] {
        assert_eq!(
            api::validate_username_password(name, "123456"),
            Err(StatusCode::BadRequest)
        );
    }
    assert_eq!(api::validate_password("密码"), Ok(()));
    assert_eq!(api::validate_password(&"p".repeat(128)), Ok(()));
    assert_eq!(api::validate_password("12345"), Err(StatusCode::BadRequest));
    assert_eq!(
        api::validate_password(&"p".repeat(129)),
        Err(StatusCode::BadRequest)
    );
}

#[test]
fn place_of_a_login_is_the_first_forwarded_address() {
    let key = |value: Option<&str>| api::login_failure_key(&value.map(|v| v.to_string()));
    assert_eq!(key(Some(" 10.0.0.1 , 10.0.0.2")), "10.0.0.1");
    assert_eq!(key(Some(" , 10.0.0.2")), "local");
    assert_eq!(key(Some("")), "local");
    assert_eq!(key(None), "local");
}

#[test]
fn registration_is_checked_before_anything_is_stored() {
    assert!(matches!(
        account::register(&app_state(true), credentials("alice", "password"), fresh()),
        Step::Done(Err(StatusCode::Forbidden))
    ));
    assert!(matches!(
        account::register(&app_state(false), credentials("al", "password"), fresh()),
        Step::Done(Err(StatusCode::BadRequest))
    ));
    match account::register(&app_state(false), credentials("alice", "password"), fresh()) {
        Step::Ask(state, Call::Execute(statement)) => {
            assert_eq!(state.id, fresh().id);
            let bound = params(&statement);
            assert_eq!(bound[0], format!("'{}'", fresh().id));
            assert_eq!(bound[1], "'alice'");
            assert_ne!(bound[2], "'password'");
            assert_eq!(bound[3], "1000");
        }
        other => panic!("{:?}", other),
    }
}

#[test]
fn login_fails_when_the_stored_data_do() {
    let state = app_state(false);
    let mut failures = LoginFailures::new();
    let Step::Ask(first, _) = account::login(
        &state,
        &failures,
        Some("9.9.9.9".to_string()),
        credentials("alice", "password"),
        5,
    ) else {
        panic!("no question");
    };
    assert!(matches!(
        first.resume(&state, &mut failures, Reply::Failed, 5),
        Step::Done(Err(StatusCode::InternalServerError))
    ));
    assert!(!failures.is_locked("9.9.9.9", 5));
    let Step::Ask(second, _) = account::login(
        &state,
        &failures,
        Some("9.9.9.9".to_string()),
        credentials("alice", "password"),
        5,
    ) else {
        panic!("no question");
    };
    assert!(matches!(
        second.resume(&state, &mut failures, Reply::Rows(vec![]), 5),
        Step::Done(Err(StatusCode::Unauthorized))
    ));
}

#[test]
fn administrator_keeps_the_account() {
    let state = app_state(false);
    let mut named = user("user");
    named.username = "admin".to_string();
    for refused in [user("admin"), named] {
        assert!(matches!(
            account::delete_account(&state, &refused),
            Step::Done(Err(StatusCode::Forbidden))
        ));
    }
}

#[test]
fn room_identifiers_are_drawn_five_times_at_most() {
    let db = database();
    let mut step = db.create_room("u1".to_string(), "home".to_string(), fresh());
    let mut drawn = 0;
    loop {
        match step {
            Step::Ask(state, Call::Fetch(query)) => {
                drawn += 1;
                assert_eq!(params(&query.statement), vec!["'0123456789abcdef'"]);
                step = state.resume(count(1), fresh());
            }
            Step::Done(outcome) => {
                assert!(matches!(outcome, Err(DbError::RoomIdConflict)));
                break;
            }
            other => panic!("{:?}", other),
        }
    }
    assert_eq!(drawn, 5);
    let inserting = CreateRoom::Checking {
        owner_id: "u1".to_string(),
        name: "home".to_string(),
        id: "0123456789abcdef".to_string(),
        attempt: 5,
    };
    match inserting.resume(count(0), fresh()) {
        Step::Ask(_, Call::Execute(statement)) => assert_eq!(
            params(&statement),
            vec!["'0123456789abcdef'", "'home'", "'u1'", "1000"]
        ),
        other => panic!("{:?}", other),
    }
}

#[test]
fn transaction_stops_at_the_first_failure() {
    let statements = vec![Statement::new("A"), Statement::new("B")];
    let Step::Ask(state, Call::Begin) = Transaction::start(statements) else {
        panic!("no transaction");
    };
    let Step::Ask(state, Call::Execute(first)) = state.resume(Reply::Finished) else {
        panic!("no statement");
    };
    assert_eq!(first.sql, "A");
    let Step::Ask(state, Call::Execute(second)) = state.resume(Reply::Affected(0)) else {
        panic!("no statement");
    };
    assert_eq!(second.sql, "B");
    assert!(matches!(
        state.resume(Reply::Failed),
        Step::Done(Err(DbError::Failed))
    ));
    assert!(matches!(
        Transaction::Committing.resume(Reply::Failed),
        Step::Done(Err(DbError::Failed))
    ));
    assert!(matches!(
        Transaction::Committing.resume(Reply::Finished),
        Step::Done(Ok(()))
    ));
}

#[test]
fn version_that_cannot_grow_is_refused() {
    let db = database();
    let state = UpdateGroup::Looking {
        room_id: "r".to_string(),
        group_id: "g".to_string(),
        request: UpdateGroupRequest {
            name: None,
            config: None,
        },
    };
    let row = vec![
        text("name"),
        SqlValue::Integer(i64::MAX),
        SqlValue::Integer(1),
        SqlValue::Null,
        SqlValue::Null,
        SqlValue::Null,
        SqlValue::Null,
    ];
    assert!(matches!(
        state.resume(&db, one_row(row), fresh()),
        Step::Done(Err(DbError::VersionExhausted))
    ));
    let device = DeviceConfig::Looking {
        device_id: "d".to_string(),
        override_group_id: None,
    };
    let mut cells = vec![
        text("d"),
        SqlValue::Null,
        text("laptop"),
        SqlValue::Null,
        SqlValue::Null,
        SqlValue::Integer(i64::MAX),
    ];
    for _ in 0..5 {
        cells.push(SqlValue::Null);
    }
    assert!(matches!(
        device.resume(&db, one_row(cells)),
        Step::Done(Err(DbError::VersionExhausted))
    ));
}

#[test]
fn device_without_a_group_gets_the_default() {
    let device = DeviceConfig::Looking {
        device_id: "d".to_string(),
        override_group_id: None,
    };
    let cells = vec![
        text("d"),
        SqlValue::Null,
        text("laptop"),
        text("10.26.0.2"),
        text("node"),
        SqlValue::Integer(4),
        SqlValue::Null,
        SqlValue::Null,
        SqlValue::Null,
        SqlValue::Null,
        SqlValue::Null,
    ];
    match device.resume(&database(), one_row(cells)) {
        Step::Done(Ok(Some(effective))) => {
            assert_eq!(effective.group_id, None);
            assert_eq!(effective.version, 5);
            assert_eq!(effective.config.name, "laptop");
            assert_eq!(effective.config.device_id, "node");
            assert_eq!(effective.config.ip, Some("10.26.0.2".to_string()));
            assert_eq!(effective.config.server_address, "vnt.wherewego.top:29872");
        }
        other => panic!("{:?}", other),
    }
}

#[test]
fn missing_override_group_is_told() {
    let db = database();
    let looking = DeviceConfig::Looking {
        device_id: "d".to_string(),
        override_group_id: Some("g".to_string()),
    };
    let mut cells = vec![
        text("d"),
        text("own"),
        text("laptop"),
        SqlValue::Null,
        SqlValue::Null,
        SqlValue::Integer(0),
    ];
    for _ in 0..5 {
        cells.push(SqlValue::Null);
    }
    let Step::Ask(state, Call::Fetch(query)) = looking.resume(&db, one_row(cells)) else {
        panic!("no question");
    };
    assert_eq!(params(&query.statement), vec!["'g'"]);
    assert!(matches!(
        state.resume(&db, Reply::Rows(vec![])),
        Step::Done(Err(DbError::GroupNotFound))
    ));
    let unknown = DeviceConfig::Looking {
        device_id: "d".to_string(),
        override_group_id: None,
    };
    assert!(matches!(
        unknown.resume(&db, Reply::Rows(vec![])),
        Step::Done(Ok(None))
    ));
}

#[test]
fn secrets_of_another_installation_are_not_read() {
    let config = VntClientConfig::default();
    let sealed = groups::seal_config("master", "g", &config, "{}", &fresh()).unwrap();
    assert!(matches!(
        groups::open_extra("master", "g", &sealed),
        Some(Ok(json)) if json == "{}"
    ));
    assert_eq!(
        groups::open_extra("other", "g", &sealed),
        Some(Err(CryptoError::DecryptFailed))
    );
    assert_eq!(
        groups::open_extra("master", "other", &sealed),
        Some(Err(CryptoError::DecryptFailed))
    );
    let stripped = groups::strip_secrets(&config);
    let restored = groups::restore_secrets("master", "g", stripped, &sealed).unwrap();
    assert_eq!(format!("{:?}", restored), format!("{:?}", config));
    let none = SealedConfig {
        token: None,
        server: None,
        password: None,
        extra: None,
    };
    assert_eq!(groups::open_extra("master", "g", &none), None);
}

#[test]
fn secrets_of_a_group_are_encrypted_apart() {
    let mut config = VntClientConfig::default();
    config.token = "token".to_string();
    let sealed = groups::seal_config("master", "g", &config, "{}", &fresh()).unwrap();
    let token = sealed.token.unwrap();
    assert_eq!(
        crypto::decrypt_from_base64("master", "group:g:token", &token),
        Ok("token".to_string())
    );
    for context in ["group:g:server", "group:g:password", "group:g:config"] {
        assert_eq!(
            crypto::decrypt_from_base64("master", context, &token),
            Err(CryptoError::DecryptFailed)
        );
    }
    assert_eq!(sealed.password, None);
}

#[test]
fn undecipherable_group_fails_the_list() {
    let db = database();
    let row = vec![
        text("g"),
        text("r"),
        text("name"),
        SqlValue::Integer(1),
        SqlValue::Integer(2),
        SqlValue::Integer(3),
        SqlValue::Null,
        SqlValue::Null,
        SqlValue::Null,
        text("no separator"),
    ];
    assert!(matches!(
        ListGroups::Fetching.resume(&db, one_row(row)),
        Step::Done(Err(DbError::Crypto(CryptoError::InvalidFormat)))
    ));
    let bare = vec![
        text("g"),
        text("r"),
        text("name"),
        SqlValue::Integer(1),
        SqlValue::Integer(2),
        SqlValue::Integer(3),
        SqlValue::Null,
        SqlValue::Null,
        SqlValue::Null,
        SqlValue::Null,
    ];
    match ListGroups::Fetching.resume(&db, one_row(bare)) {
        Step::Done(Ok(groups)) => {
            assert_eq!(groups.len(), 1);
            assert!(groups[0].config.is_none());
        }
        other => panic!("{:?}", other),
    }
}

#[test]
fn failed_calls_fail_the_operations() {
    let db = database();
    assert!(matches!(
        CreateGroup::Encoding {
            room_id: "r".to_string(),
            name: "n".to_string(),
            config: VntClientConfig::default(),
            version: 1
        }
        .resume(&db, Reply::Failed, fresh()),
        Step::Done(Err(DbError::Failed))
    ));
    assert!(matches!(
        SetDeviceGroup::Moving.resume(Reply::Affected(0)),
        Step::Done(Err(DbError::DeviceNotFound))
    ));
    assert!(matches!(
        SetDeviceGroup::Checking {
            room_id: "r".to_string(),
            group_id: "g".to_string(),
            device_id: "d".to_string()
        }
        .resume(count(0)),
        Step::Done(Err(DbError::GroupNotFound))
    ));
    assert!(matches!(
        EnsureAdmin::Looking.resume(Reply::Sent(true), fresh()),
        Step::Done(Err(DbError::Failed))
    ));
    assert!(matches!(
        EnsureTlsCert::LookingForCertificate.resume(Reply::Failed, fresh()),
        Step::Done(Err(DbError::Failed))
    ));
    assert!(matches!(
        ListGroups::Fetching.resume(&db, one_row(vec![SqlValue::Integer(1)])),
        Step::Done(Err(DbError::Failed))
    ));
}

#[test]
fn certificate_that_cannot_be_loaded_is_told() {
    let state = TlsPem::LookingForKey {
        cert_value: "AAAA".to_string(),
    };
    assert!(matches!(
        state.resume(Reply::Rows(vec![])),
        Step::Done(Err(DbError::PrivateKeyMissing))
    ));
    let state = TlsPem::LookingForKey {
        cert_value: "AAAA".to_string(),
    };
    assert!(matches!(
        state.resume(one_row(vec![text("*")])),
        Step::Done(Err(DbError::InvalidPem))
    ));
    let state = TlsPem::LookingForKey {
        cert_value: "AQID".to_string(),
    };
    assert!(matches!(
        state.resume(one_row(vec![text("BAUG")])),
        Step::Done(Ok((cert, key))) if cert == vec![1, 2, 3] && key == vec![4, 5, 6]
    ));
    match EnsureTlsCert::store("abc", "def", 9) {
        Step::Ask(EnsureTlsCert::StoringCertificate { key_value }, Call::Execute(statement)) => {
            assert_eq!(key_value, "ZGVm");
            assert_eq!(params(&statement), vec!["'tls_cert'", "'YWJj'", "9"]);
        }
        other => panic!("{:?}", other),
    }
}

#[test]
fn missing_columns_are_added_in_order() {
    let named = |name: &str| vec![SqlValue::Integer(0), text(name)];
    let all = schema::missing_columns(&vec![]);
    assert_eq!(all.len(), 8);
    assert_eq!(
        all[0].sql,
        "ALTER TABLE devices ADD COLUMN up_stream INTEGER DEFAULT 0"
    );
    assert_eq!(
        all[2].sql,
        "ALTER TABLE devices ADD COLUMN traffic_updated_at INTEGER"
    );
    let some = schema::missing_columns(&vec![
        named("up_stream"),
        named("down_stream"),
        named("traffic_updated_at"),
        named("vnts_status"),
    ]);
    assert_eq!(
        some.iter().map(|s| s.sql.as_str()).collect::<Vec<_>>(),
        vec![
            "ALTER TABLE devices ADD COLUMN client_version TEXT",
            "ALTER TABLE devices ADD COLUMN console_public_ip TEXT",
            "ALTER TABLE devices ADD COLUMN vnts_error TEXT",
            "ALTER TABLE devices ADD COLUMN vnts_updated_at INTEGER",
        ]
    );
}

#[test]
fn imported_rows_are_bound_column_by_column() {
    let row = object(vec![
        ("value", JsonCell::Other("[1]".to_string())),
        ("key", JsonCell::Text("k".to_string())),
        ("updated_at", JsonCell::Unsigned(u64::MAX)),
        ("ignored", JsonCell::Unsigned(1)),
    ]);
    let import = import_rows(
        BackupTable::SystemConfig,
        vec![row, JsonRow::Other, object(vec![("updated_at", JsonCell::Negative(-2))])],
        false,
    );
    assert_eq!(import.attempted, 3);
    assert_eq!(import.skipped, 1);
    assert_eq!(import.pending.len(), 2);
    assert_eq!(
        import.pending[1].sql,
        "INSERT OR IGNORE INTO system_config(key, value, updated_at) VALUES(?1, ?2, ?3)"
    );
    assert_eq!(params(&import.pending[1]), vec!["'k'", "'[1]'", "-1"]);
    assert_eq!(params(&import.pending[0]), vec!["NULL", "NULL", "-2"]);
}

#[test]
fn administrator_is_merged_only_when_everything_is_replaced() {
    let admin = || object(vec![("username", JsonCell::Text("admin".to_string()))]);
    let kept = import_rows(BackupTable::Users, vec![admin()], false);
    assert_eq!((kept.skipped, kept.pending.len()), (1, 0));
    let replaced = import_rows(BackupTable::Users, vec![admin()], true);
    assert_eq!((replaced.skipped, replaced.pending.len()), (0, 1));
    assert_eq!(
        replaced.pending[0].sql,
        "INSERT OR REPLACE INTO users(id, username, password, role, created_at) VALUES(?1, ?2, ?3, ?4, ?5)"
    );
    let elsewhere = import_rows(BackupTable::Rooms, vec![admin()], false);
    assert_eq!(elsewhere.pending.len(), 1);
}

fn no_data() -> BackupData {
    BackupData {
        users: vec![],
        rooms: vec![],
        groups: vec![],
        devices: vec![],
        events: vec![],
        config_pushes: vec![],
        system_config: vec![],
    }
}

#[test]
fn overwriting_clears_every_table_first() {
    let db = database();
    let mut step = db.import_backup(no_data(), true, "kv".to_string(), "full".to_string());
    let mut run = Vec::new();
    loop {
        match step {
            Step::Ask(state, Call::Begin) => step = state.resume(Reply::Finished),
            Step::Ask(state, Call::Execute(statement)) => {
                run.push(statement.sql);
                step = state.resume(Reply::Affected(3));
            }
            Step::Ask(state, Call::Commit) => {
                assert!(matches!(state, ImportBackup::Committing { .. }));
                step = state.resume(Reply::Finished);
            }
            Step::Done(outcome) => {
                let report = outcome.unwrap();
                assert_eq!(report.source_mode, "kv");
                assert_eq!(report.tables.len(), 7);
                break;
            }
            other => panic!("{:?}", other),
        }
    }
    assert_eq!(
        run,
        vec![
            "DELETE FROM config_pushes",
            "DELETE FROM events",
            "DELETE FROM devices",
            "DELETE FROM groups",
            "DELETE FROM rooms",
            "DELETE FROM sessions",
            "DELETE FROM users",
            "DELETE FROM system_config",
        ]
    );
}

#[test]
fn rows_are_put_in_table_by_table_and_in_order() {
    let db = database();
    let mut data = no_data();
    for name in ["one", "two"] {
        data.rooms.push(object(vec![("id", JsonCell::Text(name.to_string()))]));
    }
    data.users.push(object(vec![("id", JsonCell::Text("u".to_string()))]));
    data.system_config.push(object(vec![("key", JsonCell::Text("k".to_string()))]));
    let mut step = db.import_backup(data, false, "m".to_string(), "s".to_string());
    let mut run = Vec::new();
    loop {
        match step {
            Step::Ask(state, Call::Execute(statement)) => {
                run.push(params(&statement)[0].clone());
                step = state.resume(Reply::Affected(1));
            }
            Step::Ask(state, _) => step = state.resume(Reply::Finished),
            Step::Done(outcome) => {
                assert!(outcome.is_ok());
                break;
            }
        }
    }
    assert_eq!(run, vec!["'u'", "'one'", "'two'", "'k'"]);
}

#[test]
fn import_counts_what_was_changed() {
    let db = database();
    let mut data = no_data();
    for _ in 0..3 {
        data.rooms.push(object(vec![]));
    }
    let mut step = db.import_backup(data, false, "m".to_string(), "s".to_string());
    let mut changed = vec![0u64, 1, 2].into_iter();
    loop {
        match step {
            Step::Ask(state, Call::Execute(_)) => {
                step = state.resume(Reply::Affected(changed.next().unwrap()));
            }
            Step::Ask(state, _) => step = state.resume(Reply::Finished),
            Step::Done(outcome) => {
                let report = outcome.unwrap();
                let rooms = &report.tables[1];
                assert_eq!(
                    (rooms.attempted, rooms.imported, rooms.skipped),
                    (3, 2, 1)
                );
                break;
            }
        }
    }
}

#[test]
fn import_is_for_administrators_and_the_known_form() {
    let db = database();
    let envelope = |format_version: u32| BackupEnvelope {
        format_version,
        exported_at: 0,
        source_mode: "sqlite".to_string(),
        scope: "full".to_string(),
        data: no_data(),
    };
    assert!(matches!(
        backup::import_backup(&db, &user("user"), None, envelope(1)),
        Step::Done(Err(StatusCode::Forbidden))
    ));
    assert!(matches!(
        backup::import_backup(&db, &user("admin"), None, envelope(2)),
        Step::Done(Err(StatusCode::BadRequest))
    ));
    assert!(matches!(
        backup::import_backup(&db, &user("admin"), None, envelope(1)),
        Step::Ask(_, Call::Begin)
    ));
}

#[test]
fn exported_values_keep_their_kind() {
    let table = Table {
        columns: vec!["a".to_string(), "b".to_string(), "c".to_string(), "d".to_string()],
        rows: vec![vec![text("t"), SqlValue::Integer(-3), SqlValue::Integer(4)]],
    };
    let export = Export {
        done: vec![],
        pending: vec![],
    };
    match export.resume(Reply::Table(table)) {
        Step::Done(Ok(data)) => {
            let row = &data.users[0];
            assert!(matches!(row.get("a"), Some(JsonCell::Text(t)) if t == "t"));
            assert!(matches!(row.get("b"), Some(JsonCell::Negative(-3))));
            assert!(matches!(row.get("c"), Some(JsonCell::Unsigned(4))));
            assert!(matches!(row.get("d"), Some(JsonCell::Null)));
            assert!(data.system_config.is_empty());
        }
        other => panic!("{:?}", other),
    }
    let export = Export {
        done: vec![],
        pending: vec![],
    };
    assert!(matches!(
        export.resume(Reply::Failed),
        Step::Done(Err(DbError::Failed))
    ));
}

#[test]
fn number_of_events_is_limited() {
    let db = database();
    for (asked, limit) in [
        (None, "200"),
        (Some(0), "1"),
        (Some(-5), "1"),
        (Some(7), "7"),
        (Some(1000), "1000"),
        (Some(100000), "1000"),
    ] {
        let query = EventQuery {
            device_id: None,
            event_type: None,
            limit: asked,
        };
        match backup::list_events(&db, &user("admin"), &query) {
            Step::Ask(_, Call::Fetch(q)) => assert_eq!(params(&q.statement), vec![limit]),
            other => panic!("{:?}", other),
        }
        match backup::list_events(&db, &user("user"), &query) {
            Step::Ask(_, Call::Fetch(q)) => {
                assert_eq!(params(&q.statement), vec!["'u1'", limit])
            }
            other => panic!("{:?}", other),
        }
    }
}

#[test]
fn stream_of_events_is_for_administrators() {
    assert_eq!(backup::events_stream(&user("admin")), Ok(()));
    assert_eq!(
        backup::events_stream(&user("user")),
        Err(StatusCode::Forbidden)
    );
}

#[test]
fn access_is_decided_before_anything_is_done() {
    let db = database();
    for (role, refused) in [
        ("admin", StatusCode::NotFound),
        ("user", StatusCode::Forbidden),
    ] {
        let step = rooms::room_request(
            &db,
            &user(role),
            "room".to_string(),
            RoomAction::DeleteRoom,
        );
        let Step::Ask(state, Call::Fetch(query)) = step else {
            panic!("no question");
        };
        assert!(query.statement.sql.starts_with("SELECT COUNT(*) FROM rooms"));
        assert!(matches!(
            state.resume(&db, count(0), fresh()),
            Step::Done(Err(status)) if status == refused
        ));
        let checking = RoomRequest::Checking {
            admin: role == "admin",
            user_id: "u1".to_string(),
            room_id: "room".to_string(),
            action: RoomAction::DeleteRoom,
        };
        assert!(matches!(
            checking.resume(&db, Reply::Failed, fresh()),
            Step::Done(Err(StatusCode::InternalServerError))
        ));
        let granted = RoomRequest::Checking {
            admin: role == "admin",
            user_id: "u1".to_string(),
            room_id: "room".to_string(),
            action: RoomAction::DeleteRoom,
        };
        assert!(matches!(
            granted.resume(&db, count(1), fresh()),
            Step::Ask(_, Call::Begin)
        ));
    }
}

#[test]
fn group_push_counts_the_devices_it_reached() {
    let db = database();
    let gathering = RoomRequest::Gathering {
        group_id: "g".to_string(),
    };
    assert!(matches!(
        gathering.resume(&db, Reply::Rows(vec![]), fresh()),
        Step::Done(Ok(Body::PushedTo(0)))
    ));
    let last = RoomRequest::PushingGroup {
        group_id: "g".to_string(),
        pending: vec![],
        pushed: 4,
        inner: PushConfig::Sending,
    };
    assert!(matches!(
        last.resume(&db, Reply::Sent(true), fresh()),
        Step::Done(Ok(Body::PushedTo(5)))
    ));
    let missed = RoomRequest::PushingGroup {
        group_id: "g".to_string(),
        pending: vec!["next".to_string()],
        pushed: 4,
        inner: PushConfig::Sending,
    };
    match missed.resume(&db, Reply::Sent(false), fresh()) {
        Step::Ask(RoomRequest::PushingGroup { pushed, pending, .. }, Call::Fetch(query)) => {
            assert_eq!(pushed, 4);
            assert!(pending.is_empty());
            assert_eq!(params(&query.statement), vec!["'next'"]);
        }
        other => panic!("{:?}", other),
    }
    let failing = RoomRequest::PushingGroup {
        group_id: "g".to_string(),
        pending: vec!["next".to_string()],
        pushed: 4,
        inner: PushConfig::Sending,
    };
    assert!(matches!(
        failing.resume(&db, Reply::Failed, fresh()),
        Step::Done(Err(StatusCode::InternalServerError))
    ));
}

#[test]
fn push_to_a_deleted_device_is_not_found() {
    let db = database();
    let Step::Ask(state, _) = push::push_config_to_device(&db, "d".to_string(), None) else {
        panic!("no question");
    };
    assert!(matches!(
        state.resume(&db, Reply::Rows(vec![]), fresh()),
        Step::Done(Err(StatusCode::NotFound))
    ));
}

#[test]
fn other_protocols_are_told_to_leave() {
    let db = database();
    let hello = ClientMessage::Hello {
        room_id: "r".to_string(),
        device_id: None,
        device_token: None,
        device_name: "laptop".to_string(),
        protocol_version: 2,
        client_version: None,
    };
    match hello::handle_client_hello(&db, hello, "1.2.3.4".to_string()) {
        Step::Done(welcome) => {
            assert_eq!(welcome.device_id, None);
            assert!(matches!(
                welcome.message,
                Some(ServerMessage::Kick { reason }) if reason == "unsupported protocol version"
            ));
        }
        other => panic!("{:?}", other),
    }
    let first = ClientMessage::Heartbeat { timestamp: 1 };
    match hello::handle_client_hello(&db, first, "1.2.3.4".to_string()) {
        Step::Done(welcome) => assert!(welcome.message.is_none() && welcome.device_id.is_none()),
        other => panic!("{:?}", other),
    }
}

#[test]
fn connection_takes_its_course() {
    let welcome = Welcome {
        message: Some(ServerMessage::Heartbeat { timestamp: 1 }),
        device_id: Some("d".to_string()),
    };
    let (session, actions) = Session::welcomed(welcome);
    assert_eq!(actions.len(), 3);
    assert!(matches!(&actions[0], SessionAction::Tell { .. }));
    assert!(matches!(&actions[1], SessionAction::Register { device_id } if device_id == "d"));
    assert!(matches!(&actions[2], SessionAction::Refresh { device_id } if device_id == "d"));
    assert!(matches!(
        session.received(ClientMessage::Heartbeat { timestamp: 2 }),
        Some(SessionAction::Deal { device_id, message: ClientMessage::Heartbeat { timestamp: 2 } })
            if device_id == "d"
    ));
    assert!(matches!(
        session.closed(),
        Some(SessionAction::Leave { device_id }) if device_id == "d"
    ));
}

#[test]
fn refused_client_is_only_told() {
    let welcome = Welcome {
        message: Some(ServerMessage::Heartbeat { timestamp: 1 }),
        device_id: None,
    };
    let (session, actions) = Session::welcomed(welcome);
    assert_eq!(actions.len(), 1);
    assert!(session
        .received(ClientMessage::Heartbeat { timestamp: 2 })
        .is_none());
    assert!(session.closed().is_none());
    let silent = Welcome {
        message: None,
        device_id: None,
    };
    assert!(Session::welcomed(silent).1.is_empty());
}

#[test]
fn datagrams_are_routed_by_sender() {
    let beat = ClientMessage::Heartbeat { timestamp: 1 };
    let bye = ClientMessage::Disconnect { timestamp: 1 };
    assert!(matches!(
        client_api::route_datagram(None, &beat),
        DatagramRoute::Drop
    ));
    assert!(matches!(
        client_api::route_datagram(Some("d".to_string()), &beat),
        DatagramRoute::Handle { device_id, forget: false } if device_id == "d"
    ));
    assert!(matches!(
        client_api::route_datagram(Some("d".to_string()), &bye),
        DatagramRoute::Handle { forget: true, .. }
    ));
    let hello = ClientMessage::Hello {
        room_id: "r".to_string(),
        device_id: None,
        device_token: None,
        device_name: "laptop".to_string(),
        protocol_version: 1,
        client_version: None,
    };
    assert!(matches!(
        client_api::route_datagram(Some("d".to_string()), &hello),
        DatagramRoute::Hello
    ));
}

#[test]
fn traffic_is_found_under_any_of_its_names() {
    use_traffic("traffic_stats", vec![("up_stream", JsonCell::Unsigned(1)), ("rx_bytes", JsonCell::Unsigned(2))], Some((1, 2)));
    use_traffic("client_status", vec![("upload", JsonCell::Text("3".to_string())), ("download", JsonCell::Unsigned(4))], Some((3, 4)));
    use_traffic("status", vec![("up_bytes", JsonCell::Text("x".to_string())), ("tx", JsonCell::Unsigned(5)), ("rx", JsonCell::Unsigned(6))], Some((5, 6)));
    use_traffic("traffic", vec![("tx", JsonCell::Negative(-1)), ("rx", JsonCell::Unsigned(6))], None);
    use_traffic("traffic", vec![("tx", JsonCell::Unsigned(1))], None);
    use_traffic("note", vec![("tx", JsonCell::Unsigned(1)), ("rx", JsonCell::Unsigned(6))], None);
    assert_eq!(
        client_api::payload::traffic_from_payload("traffic", &JsonRow::Other),
        None
    );
}

fn use_traffic(event_type: &str, members: Vec<(&str, JsonCell)>, expected: Option<(u64, u64)>) {
    assert_eq!(
        client_api::payload::traffic_from_payload(event_type, &object(members)),
        expected
    );
}

#[test]
fn traffic_is_stored_alike_however_it_is_reported() {
    let db = database();
    let event = ClientMessage::EventReport {
        event_type: "status".to_string(),
        payload: JsonDocument {
            text: "{}".to_string(),
            row: object(vec![
                ("tx", JsonCell::Unsigned(7)),
                ("rx", JsonCell::Unsigned(8)),
            ]),
        },
        timestamp: 1,
    };
    let stats = ClientMessage::TrafficStats {
        up_stream: 7,
        down_stream: 8,
        timestamp: 1,
    };
    for message in [event, stats] {
        match message::handle_client_message(&db, "d".to_string(), message, fresh()) {
            Step::Ask(_, Call::Execute(statement)) => {
                assert!(statement.sql.starts_with("UPDATE devices SET up_stream = ?1"));
                assert_eq!(params(&statement), vec!["7", "8", "1000", "'d'"]);
            }
            other => panic!("{:?}", other),
        }
    }
}

#[test]
fn status_of_a_connection_is_trimmed() {
    let found = |status: JsonCell, error: JsonCell| {
        client_api::payload::vnts_status_from_payload(
            "vnts_status",
            &object(vec![("status", status), ("error", error)]),
        )
    };
    let cell = |value: &str| JsonCell::Text(value.to_string());
    assert_eq!(
        found(cell(" up "), cell(" broken ")),
        Some(("up".to_string(), Some("broken".to_string())))
    );
    assert_eq!(
        found(cell("up"), JsonCell::Null),
        Some(("up".to_string(), None))
    );
    assert_eq!(found(cell("  "), cell("broken")), None);
    assert_eq!(found(JsonCell::Unsigned(1), JsonCell::Null), None);
    assert_eq!(
        client_api::payload::vnts_status_from_payload(
            "other",
            &object(vec![("status", cell("up"))])
        ),
        None
    );
}

#[test]
fn failures_of_a_client_are_told_apart() {
    let db = database();
    let looking = PushCurrent::Looking {
        device_id: "d".to_string(),
    };
    assert!(matches!(
        looking.resume(&db, Reply::Failed, fresh()),
        Step::Done(Err(ClientError::Stored(DbError::Failed)))
    ));
    let pushing = PushCurrent::Deciding {
        inner: vnt_hub::client_api::sync::PushDecision::Pushing {
            inner: PushConfig::Sending,
        },
    };
    assert!(matches!(
        pushing.resume(&db, Reply::Failed, fresh()),
        Step::Done(Err(ClientError::Push(StatusCode::InternalServerError)))
    ));
    let noting = SyncReport::Noting {
        report: ConfigReport {
            device_id: "d".to_string(),
            config_version: 1,
            group_id: None,
            config_name: None,
            config: VntClientConfig::default(),
            running: true,
        },
    };
    assert!(matches!(
        noting.resume(&db, Reply::Failed, fresh()),
        Step::Done(Err(ClientError::Stored(DbError::Failed)))
    ));
    let step = message::handle_client_message(
        &db,
        "d".to_string(),
        ClientMessage::Heartbeat { timestamp: 1 },
        fresh(),
    );
    let Step::Ask(state, Call::Execute(statement)) = step else {
        panic!("no statement");
    };
    assert_eq!(params(&statement), vec!["1000", "'d'"]);
    assert!(matches!(
        state.resume(&db, Reply::Failed, fresh()),
        Step::Done(Err(ClientError::Stored(DbError::Failed)))
    ));
    assert_ne!(
        PushRule::Newer { device_version: 1 },
        PushRule::Differs {
            reported_version: 1
        }
    );
}

#[test]
fn owners_are_asked_before_anything_is_reached() {
    let db = database();
    let guarding = |action: RoomAction| RoomRequest::Guarding {
        room_id: "room".to_string(),
        action,
    };
    let delete = || RoomAction::DeleteDevice {
        device_id: "d1".to_string(),
    };
    let renew = || RoomAction::RegenerateToken {
        device_id: "d1".to_string(),
    };
    for (role, asked) in [("user", true), ("admin", false)] {
        for action in [delete(), renew()] {
            let checking = RoomRequest::Checking {
                admin: role == "admin",
                user_id: "u1".to_string(),
                room_id: "room".to_string(),
                action,
            };
            match checking.resume(&db, count(1), fresh()) {
                Step::Ask(_, Call::Fetch(query)) => {
                    assert!(asked);
                    assert!(query.statement.sql.ends_with("r.owner_id <> ?2"));
                }
                Step::Ask(_, _) => assert!(!asked),
                other => panic!("{:?}", other),
            }
        }
    }
    assert!(matches!(
        guarding(delete()).resume(&db, Reply::Failed, fresh()),
        Step::Done(Err(StatusCode::InternalServerError))
    ));
    assert!(matches!(
        guarding(renew()).resume(&db, Reply::Failed, fresh()),
        Step::Done(Err(StatusCode::NotFound))
    ));
    assert!(matches!(
        guarding(delete()).resume(&db, count(1), fresh()),
        Step::Done(Ok(Body::Done))
    ));
    assert!(matches!(
        guarding(delete()).resume(&db, count(0), fresh()),
        Step::Ask(_, Call::Begin)
    ));
}

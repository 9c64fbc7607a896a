//! Why a device that was kicked stays kicked, whatever it says.
use vstd::prelude::*;
use vstd::string::*;

use crate::api::push;
use crate::api::push::{PushConfig, PushStep};
use crate::client_api::hello::{ClientHello, HelloStep, KICKED};
use crate::client_api::message::{MessageFlow, MessageStep};
use crate::client_api::sync::{
    CurrentStep, DecisionStep, PushCurrent, PushDecision, SyncReport, SyncStep,
};
use crate::db::device_config::{ConfigOutcome, DeviceConfig};
use crate::db::devices;
use crate::db::devices::{Reception, UpsertDeviceHello};
use crate::db::events;
use crate::db::group_store;
use crate::db::{Database, DbError};
use crate::flow::{Call, Fresh, Reply, Step};
use crate::models::ClientMessage;

verus! {

/// The rule by which a statement sets the status of every device but a kicked one.
pub const STATUS_RULE: &'static str = "status = CASE WHEN status = 'kicked' THEN status ELSE ";

/// Whether a statement names the column of the status from a place on.
pub open spec fn names_status_at(sql: Seq<char>, i: int) -> bool {
    &&& i + 7 <= sql.len()
    &&& sql[i] == ' '
    &&& sql[i + 1] == 's'
    &&& sql[i + 2] == 't'
    &&& sql[i + 3] == 'a'
    &&& sql[i + 4] == 't'
    &&& sql[i + 5] == 'u'
    &&& sql[i + 6] == 's'
}

/// Whether a part of a statement does not name the column of the status.
pub open spec fn clear_of_status(sql: Seq<char>, from: int, to: int) -> bool
    decreases to - from,
{
    from >= to || (!names_status_at(sql, from) && clear_of_status(sql, from + 1, to))
}

/// Whether a statement names the status only in the rule that spares kicked devices, which stands
/// at a place.
pub open spec fn rules_at(sql: Seq<char>, k: int) -> bool {
    &&& 0 < k
    &&& k + STATUS_RULE@.len() <= sql.len()
    &&& sql.subrange(k, k + STATUS_RULE@.len()) == STATUS_RULE@
    &&& clear_of_status(sql, 0, k - 1)
    &&& clear_of_status(sql, k + STATUS_RULE@.len() as int, sql.len() as int)
}

/// What is known of the status of a device after a statement was run on it: it stays where the
/// statement does not name it, and that of a kicked device where it is set by the rule.
pub open spec fn status_after(sql: Seq<char>, before: Seq<char>) -> Option<Seq<char>> {
    if clear_of_status(sql, 0, sql.len() as int) {
        Some(before)
    } else if before == KICKED@ && exists|k: int| #[trigger] rules_at(sql, k) {
        Some(before)
    } else {
        None
    }
}

/// Whether a kicked device is still kicked after a call.
pub open spec fn spares(call: Call) -> bool {
    call matches Call::Execute(statement) ==> status_after(statement@.sql, KICKED@) == Some(KICKED@)
}

proof fn lemma_clear_joins(sql: Seq<char>, from: int, middle: int, to: int)
    requires
        from <= middle <= to,
        clear_of_status(sql, from, middle),
        clear_of_status(sql, middle, to),
    ensures
        clear_of_status(sql, from, to),
    decreases middle - from,
{
    if from < middle {
        lemma_clear_joins(sql, from + 1, middle, to);
    }
}

/// Whether the first characters of a word stand in a text at a place.
spec fn agrees(sql: Seq<char>, k: int, word: Seq<char>, n: int) -> bool
    decreases n,
{
    n <= 0 || (sql[k + n - 1] == word[n - 1] && agrees(sql, k, word, n - 1))
}

proof fn lemma_agrees(sql: Seq<char>, k: int, word: Seq<char>, n: int, i: int)
    requires
        agrees(sql, k, word, n),
        0 <= i < n,
    ensures
        sql[k + i] == word[i],
    decreases n,
{
    if i < n - 1 {
        lemma_agrees(sql, k, word, n - 1, i);
    }
}

proof fn lemma_rule_stands(sql: Seq<char>, k: int)
    requires
        0 <= k,
        k + STATUS_RULE@.len() <= sql.len(),
        agrees(sql, k, STATUS_RULE@, STATUS_RULE@.len() as int),
    ensures
        sql.subrange(k, k + STATUS_RULE@.len()) == STATUS_RULE@,
{
    let found = sql.subrange(k, k + STATUS_RULE@.len());
    assert forall|i: int| 0 <= i < STATUS_RULE@.len() implies found[i] == STATUS_RULE@[i] by {
        lemma_agrees(sql, k, STATUS_RULE@, STATUS_RULE@.len() as int, i);
    }
    assert(found =~= STATUS_RULE@);
}

proof fn lemma_traffic_leaves_status()
    ensures
        clear_of_status(devices::SET_TRAFFIC@, 0, devices::SET_TRAFFIC@.len() as int),
{
    reveal_strlit(
        "UPDATE devices SET up_stream = ?1, down_stream = ?2, traffic_updated_at = ?3, last_seen = ?3 WHERE id = ?4",
    );
    let sql = devices::SET_TRAFFIC@;
    reveal_with_fuel(clear_of_status, 31);
    assert(clear_of_status(sql, 0, 30));
    assert(clear_of_status(sql, 30, 60));
    assert(clear_of_status(sql, 60, 90));
    assert(clear_of_status(sql, 90, 106));
    lemma_clear_joins(sql, 0, 30, 60);
    lemma_clear_joins(sql, 0, 60, 90);
    lemma_clear_joins(sql, 0, 90, 106);
}

proof fn lemma_vnts_status_leaves_status()
    ensures
        clear_of_status(devices::SET_VNTS_STATUS@, 0, devices::SET_VNTS_STATUS@.len() as int),
{
    reveal_strlit(
        "UPDATE devices SET vnts_status = ?1, vnts_error = ?2, vnts_updated_at = ?3, last_seen = ?3 WHERE id = ?4",
    );
    let sql = devices::SET_VNTS_STATUS@;
    reveal_with_fuel(clear_of_status, 31);
    assert(clear_of_status(sql, 0, 30));
    assert(clear_of_status(sql, 30, 60));
    assert(clear_of_status(sql, 60, 90));
    assert(clear_of_status(sql, 90, 104));
    lemma_clear_joins(sql, 0, 30, 60);
    lemma_clear_joins(sql, 0, 60, 90);
    lemma_clear_joins(sql, 0, 90, 104);
}

proof fn lemma_seen_leaves_status()
    ensures
        clear_of_status(devices::MARK_SEEN@, 0, devices::MARK_SEEN@.len() as int),
{
    reveal_strlit(
        "UPDATE devices SET last_seen = ?1 WHERE id = ?2",
    );
    let sql = devices::MARK_SEEN@;
    reveal_with_fuel(clear_of_status, 31);
    assert(clear_of_status(sql, 0, 30));
    assert(clear_of_status(sql, 30, 47));
    lemma_clear_joins(sql, 0, 30, 47);
}

proof fn lemma_acked_leaves_status()
    ensures
        clear_of_status(devices::MARK_ACKED@, 0, devices::MARK_ACKED@.len() as int),
{
    reveal_strlit(
        "UPDATE config_pushes SET acked = 1 WHERE id = (SELECT id FROM config_pushes WHERE device_id = ?1 AND acked = 0 ORDER BY pushed_at DESC LIMIT 1)",
    );
    let sql = devices::MARK_ACKED@;
    reveal_with_fuel(clear_of_status, 31);
    assert(clear_of_status(sql, 0, 30));
    assert(clear_of_status(sql, 30, 60));
    assert(clear_of_status(sql, 60, 90));
    assert(clear_of_status(sql, 90, 120));
    assert(clear_of_status(sql, 120, 143));
    lemma_clear_joins(sql, 0, 30, 60);
    lemma_clear_joins(sql, 0, 60, 90);
    lemma_clear_joins(sql, 0, 90, 120);
    lemma_clear_joins(sql, 0, 120, 143);
}

proof fn lemma_version_leaves_status()
    ensures
        clear_of_status(devices::SET_DEVICE_VERSION@, 0, devices::SET_DEVICE_VERSION@.len() as int),
{
    reveal_strlit(
        "UPDATE devices SET config_version = ?1 WHERE id = ?2",
    );
    let sql = devices::SET_DEVICE_VERSION@;
    reveal_with_fuel(clear_of_status, 31);
    assert(clear_of_status(sql, 0, 30));
    assert(clear_of_status(sql, 30, 52));
    lemma_clear_joins(sql, 0, 30, 52);
}

proof fn lemma_event_leaves_status()
    ensures
        clear_of_status(events::INSERT_EVENT@, 0, events::INSERT_EVENT@.len() as int),
{
    reveal_strlit(
        "INSERT INTO events(id, device_id, event_type, payload, created_at) VALUES(?1, ?2, ?3, ?4, ?5)",
    );
    let sql = events::INSERT_EVENT@;
    reveal_with_fuel(clear_of_status, 31);
    assert(clear_of_status(sql, 0, 30));
    assert(clear_of_status(sql, 30, 60));
    assert(clear_of_status(sql, 60, 90));
    assert(clear_of_status(sql, 90, 93));
    lemma_clear_joins(sql, 0, 30, 60);
    lemma_clear_joins(sql, 0, 60, 90);
    lemma_clear_joins(sql, 0, 90, 93);
}

proof fn lemma_group_leaves_status()
    ensures
        clear_of_status(group_store::INSERT_GROUP@, 0, group_store::INSERT_GROUP@.len() as int),
{
    reveal_strlit(
        "INSERT INTO groups(id, room_id, name, encrypted_token, encrypted_server, encrypted_password, extra_config, config_version, created_at, updated_at) VALUES(?1, ?2, ?3, ?4, ?5, ?6, ?7, ?8, ?9, ?9)",
    );
    let sql = group_store::INSERT_GROUP@;
    reveal_with_fuel(clear_of_status, 31);
    assert(clear_of_status(sql, 0, 30));
    assert(clear_of_status(sql, 30, 60));
    assert(clear_of_status(sql, 60, 90));
    assert(clear_of_status(sql, 90, 120));
    assert(clear_of_status(sql, 120, 150));
    assert(clear_of_status(sql, 150, 180));
    assert(clear_of_status(sql, 180, 193));
    lemma_clear_joins(sql, 0, 30, 60);
    lemma_clear_joins(sql, 0, 60, 90);
    lemma_clear_joins(sql, 0, 90, 120);
    lemma_clear_joins(sql, 0, 120, 150);
    lemma_clear_joins(sql, 0, 150, 180);
    lemma_clear_joins(sql, 0, 180, 193);
}

proof fn lemma_move_leaves_status()
    ensures
        clear_of_status(group_store::MOVE_DEVICE@, 0, group_store::MOVE_DEVICE@.len() as int),
{
    reveal_strlit(
        "UPDATE devices SET group_id = ?1 WHERE id = ?2 AND room_id = ?3",
    );
    let sql = group_store::MOVE_DEVICE@;
    reveal_with_fuel(clear_of_status, 31);
    assert(clear_of_status(sql, 0, 30));
    assert(clear_of_status(sql, 30, 60));
    assert(clear_of_status(sql, 60, 63));
    lemma_clear_joins(sql, 0, 30, 60);
    lemma_clear_joins(sql, 0, 60, 63);
}

proof fn lemma_push_leaves_status()
    ensures
        clear_of_status(push::INSERT_PUSH@, 0, push::INSERT_PUSH@.len() as int),
{
    reveal_strlit(
        "INSERT INTO config_pushes(id, device_id, group_id, config_snapshot, pushed_at, acked) VALUES(?1, ?2, ?3, ?4, ?5, 0)",
    );
    let sql = push::INSERT_PUSH@;
    reveal_with_fuel(clear_of_status, 31);
    assert(clear_of_status(sql, 0, 30));
    assert(clear_of_status(sql, 30, 60));
    assert(clear_of_status(sql, 60, 90));
    assert(clear_of_status(sql, 90, 115));
    lemma_clear_joins(sql, 0, 30, 60);
    lemma_clear_joins(sql, 0, 60, 90);
    lemma_clear_joins(sql, 0, 90, 115);
}

proof fn lemma_return_spares_kicked()
    ensures
        rules_at(devices::RECEIVE_DEVICE@, 154),
{
    reveal_strlit(
        "UPDATE devices SET display_name = ?1, last_seen = ?2, client_version = COALESCE(?3, client_version), console_public_ip = COALESCE(?4, console_public_ip), status = CASE WHEN status = 'kicked' THEN status ELSE 'online' END WHERE id = ?5",
    );
    reveal_strlit("status = CASE WHEN status = 'kicked' THEN status ELSE ");
    let sql = devices::RECEIVE_DEVICE@;
    assert(agrees(sql, 154, STATUS_RULE@, STATUS_RULE@.len() as int)) by {
        reveal_with_fuel(agrees, 55);
    }
    lemma_rule_stands(sql, 154);
    reveal_with_fuel(clear_of_status, 31);
    assert(clear_of_status(sql, 0, 30));
    assert(clear_of_status(sql, 30, 60));
    assert(clear_of_status(sql, 60, 90));
    assert(clear_of_status(sql, 90, 120));
    assert(clear_of_status(sql, 120, 150));
    assert(clear_of_status(sql, 150, 153));
    lemma_clear_joins(sql, 0, 30, 60);
    lemma_clear_joins(sql, 0, 60, 90);
    lemma_clear_joins(sql, 0, 90, 120);
    lemma_clear_joins(sql, 0, 120, 150);
    lemma_clear_joins(sql, 0, 150, 153);
    assert(clear_of_status(sql, 208, 234));
}

proof fn lemma_leave_spares_kicked()
    ensures
        rules_at(devices::MARK_OFFLINE@, 19),
{
    reveal_strlit(
        "UPDATE devices SET status = CASE WHEN status = 'kicked' THEN status ELSE 'offline' END WHERE id = ?1",
    );
    reveal_strlit("status = CASE WHEN status = 'kicked' THEN status ELSE ");
    let sql = devices::MARK_OFFLINE@;
    assert(agrees(sql, 19, STATUS_RULE@, STATUS_RULE@.len() as int)) by {
        reveal_with_fuel(agrees, 55);
    }
    lemma_rule_stands(sql, 19);
    reveal_with_fuel(clear_of_status, 31);
    assert(clear_of_status(sql, 0, 18));
    assert(clear_of_status(sql, 73, 100));
}

proof fn lemma_run_spares_kicked()
    ensures
        rules_at(devices::MARK_RUNNING@, 56),
{
    reveal_strlit(
        "UPDATE devices SET config_version = ?1, last_seen = ?2, status = CASE WHEN status = 'kicked' THEN status ELSE 'online' END WHERE id = ?3",
    );
    reveal_strlit("status = CASE WHEN status = 'kicked' THEN status ELSE ");
    let sql = devices::MARK_RUNNING@;
    assert(agrees(sql, 56, STATUS_RULE@, STATUS_RULE@.len() as int)) by {
        reveal_with_fuel(agrees, 55);
    }
    lemma_rule_stands(sql, 56);
    reveal_with_fuel(clear_of_status, 31);
    assert(clear_of_status(sql, 0, 30));
    assert(clear_of_status(sql, 30, 55));
    lemma_clear_joins(sql, 0, 30, 55);
    assert(clear_of_status(sql, 110, 136));
}

/// Whether a kicked device is still kicked after a statement.
spec fn keeps_kicked(sql: Seq<char>) -> bool {
    status_after(sql, KICKED@) == Some(KICKED@)
}

proof fn lemma_statements_of_clients()
    ensures
        keeps_kicked(devices::SET_TRAFFIC@),
        keeps_kicked(devices::SET_VNTS_STATUS@),
        keeps_kicked(devices::MARK_SEEN@),
        keeps_kicked(devices::MARK_ACKED@),
        keeps_kicked(devices::SET_DEVICE_VERSION@),
        keeps_kicked(events::INSERT_EVENT@),
        keeps_kicked(group_store::INSERT_GROUP@),
        keeps_kicked(group_store::MOVE_DEVICE@),
        keeps_kicked(push::INSERT_PUSH@),
        keeps_kicked(devices::RECEIVE_DEVICE@),
        keeps_kicked(devices::MARK_OFFLINE@),
        keeps_kicked(devices::MARK_RUNNING@),
{
    lemma_traffic_leaves_status();
    lemma_vnts_status_leaves_status();
    lemma_seen_leaves_status();
    lemma_acked_leaves_status();
    lemma_version_leaves_status();
    lemma_event_leaves_status();
    lemma_group_leaves_status();
    lemma_move_leaves_status();
    lemma_push_leaves_status();
    lemma_return_spares_kicked();
    lemma_leave_spares_kicked();
    lemma_run_spares_kicked();
}

proof fn lemma_config_spares(
    inner: DeviceConfig,
    db: Database,
    reply: Reply,
    sub: Step<DeviceConfig, ConfigOutcome>,
)
    requires
        inner.resumed(db, reply, sub),
    ensures
        sub is Ask ==> !(sub->Ask_1 is Execute),
{
}

proof fn lemma_push_spares(
    inner: PushConfig,
    db: Database,
    reply: Reply,
    fresh: Fresh,
    sub: PushStep,
)
    requires
        inner.resumed(db, reply, fresh, sub),
    ensures
        sub is Ask ==> spares(sub->Ask_1),
{
    lemma_statements_of_clients();
    if let PushConfig::Composing { device_id, inner: config } = inner {
        let step = choose|step: Step<DeviceConfig, ConfigOutcome>| #[trigger]
            config.resumed(db, reply, step) && PushConfig::composed(device_id, step, sub);
        lemma_config_spares(config, db, reply, step);
    }
}

proof fn lemma_decision_spares(
    inner: PushDecision,
    db: Database,
    reply: Reply,
    fresh: Fresh,
    sub: DecisionStep,
)
    requires
        inner.resumed(db, reply, fresh, sub),
    ensures
        sub is Ask ==> spares(sub->Ask_1),
{
    match inner {
        PushDecision::Comparing { device_id, rule, inner: config } => {
            let step = choose|step: Step<DeviceConfig, ConfigOutcome>| #[trigger]
                config.resumed(db, reply, step) && PushDecision::compares(
                    device_id,
                    rule,
                    step,
                    sub,
                );
            lemma_config_spares(config, db, reply, step);
        },
        PushDecision::Pushing { inner: push } => {
            let step = choose|step: PushStep| #[trigger]
                push.resumed(db, reply, fresh, step) && PushDecision::pushes(step, sub);
            lemma_push_spares(push, db, reply, fresh, step);
        },
    }
}

proof fn lemma_sync_spares(
    inner: SyncReport,
    db: Database,
    reply: Reply,
    fresh: Fresh,
    sub: SyncStep,
)
    requires
        inner.resumed(db, reply, fresh, sub),
    ensures
        sub is Ask ==> spares(sub->Ask_1),
{
    lemma_statements_of_clients();
    if let SyncReport::Deciding { inner: decision } = inner {
        let step = choose|step: DecisionStep| #[trigger]
            decision.resumed(db, reply, fresh, step) && SyncReport::decides(step, sub);
        lemma_decision_spares(decision, db, reply, fresh, step);
    }
}

/// No message of a client brings a kicked device back: whatever is stored on account of a message,
/// from its first step to its last, a device that was kicked is kicked afterwards.
pub proof fn law_no_message_brings_a_kicked_device_back(
    device_id: String,
    message: ClientMessage,
    begun_with: Fresh,
    first: MessageStep,
    state: MessageFlow,
    db: Database,
    reply: Reply,
    fresh: Fresh,
    step: MessageStep,
)
    requires
        MessageFlow::started(device_id, message, begun_with, first),
        state.resumed(db, reply, fresh, step),
    ensures
        first is Ask ==> spares(first->Ask_1),
        step is Ask ==> spares(step->Ask_1),
{
    lemma_statements_of_clients();
    if let MessageFlow::Syncing { inner } = state {
        let sub = choose|sub: SyncStep| #[trigger]
            inner.resumed(db, reply, fresh, sub) && MessageFlow::syncs(sub, step);
        lemma_sync_spares(inner, db, reply, fresh, sub);
    }
}

/// Nor does bringing a device up to date.
pub proof fn law_no_update_brings_a_kicked_device_back(
    state: PushCurrent,
    db: Database,
    reply: Reply,
    fresh: Fresh,
    step: CurrentStep,
)
    requires
        state.resumed(db, reply, fresh, step),
    ensures
        step is Ask ==> spares(step->Ask_1),
{
    if let PushCurrent::Deciding { inner } = state {
        let sub = choose|sub: DecisionStep| #[trigger]
            inner.resumed(db, reply, fresh, sub) && PushCurrent::decides(sub, step);
        lemma_decision_spares(inner, db, reply, fresh, sub);
    }
}

/// Nor does an introduction: what is stored for a known device spares it where it was kicked, and
/// any other statement stores a new device under the fresh identifier.
pub proof fn law_no_introduction_brings_a_kicked_device_back(
    state: ClientHello,
    reply: Reply,
    fresh: Fresh,
    step: HelloStep,
)
    requires
        state.resumed(reply, fresh, step),
        step is Ask,
        step->Ask_1 is Execute,
    ensures
        spares(step->Ask_1) || exists|device: devices::Introduction| #[trigger]
            step->Ask_1.executes(
                devices::insert_device(device, fresh.id@, fresh.secret@, fresh.now),
            ),
        state is Receiving ==> spares(step->Ask_1),
{
    lemma_statements_of_clients();
    match state {
        ClientHello::FindingRoom { device } => {
            let sub = choose|sub: Step<UpsertDeviceHello, Result<Reception, DbError>>| #[trigger]
                UpsertDeviceHello::started(device, fresh, sub) && ClientHello::receives(sub, step);
            assert(step->Ask_1.executes(
                devices::insert_device(device, fresh.id@, fresh.secret@, fresh.now),
            ));
        },
        ClientHello::Receiving { .. } => {},
    }
}

} // verus!

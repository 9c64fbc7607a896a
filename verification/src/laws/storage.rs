//! The tables, and what encrypted values look like.
use vstd::prelude::*;
use vstd::string::*;
use vstd::utf8::*;

use crate::crypto::{decrypted, stored_form, CryptoError};
use crate::db::schema::{
    add_column, alterations, create_statements, device_columns, first_device_columns,
    names_column, select_device_columns, Init,
};
use crate::db::DbError;
use crate::flow::{Fresh, Reply, Step};
use crate::laws::{is_query, is_statement, reads, runs};
use crate::models::VntClientConfig;
use crate::outside::{
    base64_bytes, base64_text, is_base64_symbol, is_hex_digit, opened, sealed, sha256_of,
    SEAL_LIMIT, TAG_LENGTH,
};
use crate::sql::{Column, Row, StatementView};
use crate::text::joined;

verus! {

/// Whether a column is declared under a name.
pub open spec fn declares(
    columns: Seq<(Seq<char>, Seq<char>)>,
    i: int,
    name: Seq<char>,
    declaration: Seq<char>,
) -> bool {
    columns[i].0 == name && columns[i].1 == declaration
}

/// The tables are created in the order in which one refers to the other, each with its columns.
pub proof fn law_tables_are_created_in_order()
    ensures
        create_statements().len() == 9,
        is_statement(
            create_statements()[0],
            "CREATE TABLE IF NOT EXISTS users (id TEXT PRIMARY KEY, username TEXT UNIQUE NOT NULL, password TEXT NOT NULL, role TEXT NOT NULL DEFAULT 'user', created_at INTEGER NOT NULL)"@,
            seq![],
        ),
        is_statement(
            create_statements()[1],
            "CREATE TABLE IF NOT EXISTS rooms (id TEXT PRIMARY KEY, name TEXT NOT NULL, owner_id TEXT NOT NULL, created_at INTEGER NOT NULL, FOREIGN KEY(owner_id) REFERENCES users(id))"@,
            seq![],
        ),
        is_statement(
            create_statements()[2],
            "CREATE UNIQUE INDEX IF NOT EXISTS idx_rooms_id ON rooms(id)"@,
            seq![],
        ),
        is_statement(
            create_statements()[3],
            "CREATE TABLE IF NOT EXISTS groups (id TEXT PRIMARY KEY, room_id TEXT NOT NULL, name TEXT NOT NULL, encrypted_token TEXT, encrypted_server TEXT, encrypted_password TEXT, extra_config TEXT, config_version INTEGER NOT NULL DEFAULT 1, created_at INTEGER NOT NULL, updated_at INTEGER NOT NULL, FOREIGN KEY(room_id) REFERENCES rooms(id))"@,
            seq![],
        ),
        is_statement(
            create_statements()[5],
            "CREATE TABLE IF NOT EXISTS events (id TEXT PRIMARY KEY, device_id TEXT NOT NULL, event_type TEXT NOT NULL, payload TEXT, created_at INTEGER NOT NULL, FOREIGN KEY(device_id) REFERENCES devices(id))"@,
            seq![],
        ),
        is_statement(
            create_statements()[6],
            "CREATE TABLE IF NOT EXISTS config_pushes (id TEXT PRIMARY KEY, device_id TEXT NOT NULL, group_id TEXT, config_snapshot TEXT NOT NULL, pushed_at INTEGER NOT NULL, acked INTEGER NOT NULL DEFAULT 0, FOREIGN KEY(device_id) REFERENCES devices(id))"@,
            seq![],
        ),
        is_statement(
            create_statements()[7],
            "CREATE TABLE IF NOT EXISTS sessions (token TEXT PRIMARY KEY, user_id TEXT NOT NULL, created_at INTEGER NOT NULL, expires_at INTEGER NOT NULL, FOREIGN KEY(user_id) REFERENCES users(id))"@,
            seq![],
        ),
        is_statement(
            create_statements()[8],
            "CREATE TABLE IF NOT EXISTS system_config (key TEXT PRIMARY KEY, value TEXT NOT NULL, updated_at INTEGER NOT NULL)"@,
            seq![],
        ),
{
}

/// The table of devices is created after rooms and groups, with the columns that devices had from
/// the start.
pub proof fn law_table_of_devices_has_its_columns()
    ensures
        create_statements()[4].params.len() == 0,
        create_statements()[4].sql == "CREATE TABLE IF NOT EXISTS devices ("@ + joined(
            Seq::new(
                14,
                |i: int| first_device_columns()[i].0 + " "@ + first_device_columns()[i].1,
            ),
            ", "@,
        )
            + ", FOREIGN KEY(room_id) REFERENCES rooms(id), FOREIGN KEY(group_id) REFERENCES groups(id))"@,
        first_device_columns().len() == 14,
        declares(first_device_columns(), 0, "id"@, "TEXT PRIMARY KEY"@),
        declares(first_device_columns(), 1, "room_id"@, "TEXT NOT NULL"@),
        declares(first_device_columns(), 2, "group_id"@, "TEXT"@),
        declares(first_device_columns(), 3, "display_name"@, "TEXT NOT NULL"@),
        declares(first_device_columns(), 4, "network_ip"@, "TEXT"@),
        declares(first_device_columns(), 5, "network_node_id"@, "TEXT"@),
        declares(first_device_columns(), 6, "device_token"@, "TEXT NOT NULL"@),
        declares(first_device_columns(), 7, "last_seen"@, "INTEGER"@),
        declares(first_device_columns(), 8, "status"@, "TEXT NOT NULL DEFAULT 'pending'"@),
        declares(first_device_columns(), 9, "config_version"@, "INTEGER NOT NULL DEFAULT 0"@),
        declares(first_device_columns(), 10, "up_stream"@, "INTEGER DEFAULT 0"@),
        declares(first_device_columns(), 11, "down_stream"@, "INTEGER DEFAULT 0"@),
        declares(first_device_columns(), 12, "traffic_updated_at"@, "INTEGER"@),
        declares(first_device_columns(), 13, "created_at"@, "INTEGER NOT NULL"@),
{
    let clauses = first_device_columns().map_values(
        |c: (Seq<char>, Seq<char>)| crate::db::schema::column_clause(c),
    );
    assert(clauses =~= Seq::new(
        14,
        |i: int| first_device_columns()[i].0 + " "@ + first_device_columns()[i].1,
    ));
}

/// The columns that were added to devices later are added, under their names and as they are
/// declared, to a table that does not have them.
pub proof fn law_later_columns_are_added(column: (Seq<char>, Seq<char>))
    ensures
        is_query(
            select_device_columns(),
            "PRAGMA table_info(devices)"@,
            seq![],
            seq![Column::Integer, Column::Text],
        ),
        is_statement(
            add_column(column),
            "ALTER TABLE devices ADD COLUMN "@ + column.0 + " "@ + column.1,
            seq![],
        ),
        device_columns().len() == 8,
        declares(device_columns(), 0, "up_stream"@, "INTEGER DEFAULT 0"@),
        declares(device_columns(), 1, "down_stream"@, "INTEGER DEFAULT 0"@),
        declares(device_columns(), 2, "traffic_updated_at"@, "INTEGER"@),
        declares(device_columns(), 3, "client_version"@, "TEXT"@),
        declares(device_columns(), 4, "console_public_ip"@, "TEXT"@),
        declares(device_columns(), 5, "vnts_status"@, "TEXT"@),
        declares(device_columns(), 6, "vnts_error"@, "TEXT"@),
        declares(device_columns(), 7, "vnts_updated_at"@, "INTEGER"@),
{
}

/// A step of setting the tables up.
pub type InitStep = Step<Init, Result<(), DbError>>;

/// Whether each step of setting up the tables follows from the one before, with every statement
/// going well.
pub open spec fn sets_up(steps: Seq<InitStep>, affected: Seq<u64>) -> bool {
    &&& steps.len() == affected.len() + 1
    &&& forall|k: int|
        #![trigger affected[k]]
        0 <= k < affected.len() && steps[k] is Ask ==> (steps[k]->Ask_0).resumed(
            Reply::Affected(affected[k]),
            steps[k + 1],
        )
}

/// The tables are created one after the other, and then it is asked which columns devices have.
pub proof fn law_tables_are_created_before_columns_are_asked_for(
    steps: Seq<InitStep>,
    affected: Seq<u64>,
)
    requires
        affected.len() == 9,
        sets_up(steps, affected),
        Init::creates(create_statements(), steps[0]),
    ensures
        forall|k: int|
            0 <= k < 9 ==> (#[trigger] steps[k]) is Ask && steps[k]->Ask_1.executes(
                create_statements()[k],
            ),
        steps[9] is Ask && steps[9]->Ask_0 is Inspecting,
        reads(
            steps[9]->Ask_1,
            "PRAGMA table_info(devices)"@,
            seq![],
            seq![Column::Integer, Column::Text],
        ),
{
    let all = create_statements();
    assert(all.len() == 9);
    assert(all.skip(0) =~= all);
    lemma_creates(all, steps, affected, 0);
    assert(all.skip(9) =~= Seq::empty());
}

proof fn lemma_creates(
    all: Seq<StatementView>,
    steps: Seq<InitStep>,
    affected: Seq<u64>,
    i: int,
)
    requires
        affected.len() == all.len(),
        sets_up(steps, affected),
        0 <= i <= all.len(),
        Init::creates(all.skip(i), steps[i]),
    ensures
        forall|k: int|
            i <= k < all.len() ==> (#[trigger] steps[k]) is Ask && steps[k]->Ask_1.executes(all[k]),
        Init::creates(all.skip(all.len() as int), steps[all.len() as int]),
    decreases all.len() - i,
{
    if i < all.len() {
        assert((steps[i]->Ask_0).resumed(Reply::Affected(affected[i]), steps[i + 1]));
        assert(all.skip(i).drop_first() =~= all.skip(i + 1));
        lemma_creates(all, steps, affected, i + 1);
    }
}

/// Where the table of devices has every later column, nothing is added; where it has none of them,
/// all are, the first of them first.
pub proof fn law_columns_are_added_where_they_are_missing(rows: Vec<Row>, step: InitStep)
    requires
        Init::Inspecting.resumed(Reply::Rows(rows), step),
    ensures
        rows@.len() == 0 ==> step is Ask && runs(
            step->Ask_1,
            "ALTER TABLE devices ADD COLUMN "@ + "up_stream"@ + " "@ + "INTEGER DEFAULT 0"@,
            seq![],
        ),
        (forall|c: int|
            0 <= c < 8 ==> exists|r: int|
                0 <= r < rows@.len() && has_column(
                    #[trigger] rows@[r],
                    #[trigger] device_columns()[c].0,
                ))
            ==> step == InitStep::Done(Ok(())),
{
    let columns = device_columns();
    assert(columns.len() == 8);
    if rows@.len() == 0 {
        lemma_all_missing(columns, rows@);
    }
    if forall|c: int|
        0 <= c < 8 ==> exists|r: int|
            0 <= r < rows@.len() && has_column(#[trigger] rows@[r], #[trigger] columns[c].0) {
        lemma_none_missing(columns, rows@);
    }
}

/// Whether a row names a column.
pub open spec fn has_column(row: Row, name: Seq<char>) -> bool {
    row@.len() == 2 && row@[1] is Text && row@[1]->Text_0@ == name
}

proof fn lemma_all_missing(columns: Seq<(Seq<char>, Seq<char>)>, rows: Seq<Row>)
    requires
        rows.len() == 0,
    ensures
        alterations(columns, rows).len() == columns.len(),
        columns.len() > 0 ==> alterations(columns, rows)[0] == add_column(columns[0]),
    decreases columns.len(),
{
    if columns.len() > 0 {
        lemma_all_missing(columns.drop_last(), rows);
    }
}

proof fn lemma_none_missing(columns: Seq<(Seq<char>, Seq<char>)>, rows: Seq<Row>)
    requires
        forall|c: int|
            0 <= c < columns.len() ==> exists|r: int|
                0 <= r < rows.len() && has_column(#[trigger] rows[r], #[trigger] columns[c].0),
    ensures
        alterations(columns, rows).len() == 0,
    decreases columns.len(),
{
    if columns.len() > 0 {
        let front = columns.drop_last();
        let last = columns.len() - 1;
        assert(columns.last() == columns[last]);
        let name = columns[last].0;
        let r = choose|r: int| 0 <= r < rows.len() && has_column(#[trigger] rows[r], name);
        assert(names_column(rows[r], name));
        assert forall|c: int| 0 <= c < front.len() implies exists|r: int|
            0 <= r < rows.len() && has_column(#[trigger] rows[r], #[trigger] front[c].0) by {
            let name = columns[c].0;
            let r = choose|r: int| 0 <= r < rows.len() && has_column(#[trigger] rows[r], name);
            assert(has_column(rows[r], front[c].0));
        }
        lemma_none_missing(front, rows);
    }
}

/// A configuration where nothing is set names the public server and the public STUN servers, uses
/// all channels and punches in every way, and switches nothing on.
pub proof fn law_default_configuration(config: VntClientConfig)
    requires
        config.is_default(),
    ensures
        config.token@.len() == 0 && config.device_id@.len() == 0 && config.name@.len() == 0,
        config.server_address@ == "vnt.wherewego.top:29872"@,
        config.stun_server@.len() == 4,
        config.stun_server@[0]@ == "stun.miwifi.com:3478"@,
        config.stun_server@[1]@ == "stun.chat.bilibili.com:3478"@,
        config.stun_server@[2]@ == "stun.hitv.com:3478"@,
        config.stun_server@[3]@ == "stun.cdnbye.com:3478"@,
        config.use_channel@ == "all"@ && config.punch_model@ == "all"@,
        config.dns@.len() == 0 && config.in_ips@.len() == 0 && config.out_ips@.len() == 0,
        config.mapping@.len() == 0 && config.vnt_mapping@.len() == 0,
        config.password is None && config.mtu is None && config.ip is None,
        config.cipher_model is None && config.ports is None && config.device_name is None,
        config.packet_loss is None && config.compressor is None && config.local_dev is None,
        config.hook is None && config.packet_delay == 0,
        !config.tap && !config.tcp && !config.no_proxy && !config.server_encrypt,
        !config.finger && !config.cmd && !config.first_latency && !config.disable_stats,
        !config.allow_wire_guard && !config.disable_relay,
{
}

/// What is drawn for an operation has its form: an identifier of 36 characters, a room name of 16
/// hexadecimal digits and a secret of 43 symbols.
pub proof fn law_drawn_names_have_their_length(fresh: Fresh, i: int)
    requires
        fresh.wf(),
        0 <= i < 16,
    ensures
        fresh.now >= 0,
        fresh.id@.len() == 36,
        fresh.room_id@.len() == 16,
        is_hex_digit(fresh.room_id@[i]),
        fresh.secret@.len() == 43,
        is_base64_symbol(fresh.secret@[i]) && fresh.secret@[i] != '=',
{
}

/// Whether a text is encrypted under a key made of a secret and a context: the hash of both with a
/// colon between them.
pub open spec fn key_for(master: Seq<char>, context: Seq<char>) -> Seq<u8> {
    sha256_of(encode_utf8(master) + seq![0x3au8] + encode_utf8(context))
}

/// An encrypted text is stored as its nonce and what it was sealed to, in base64 with a colon
/// between them.
pub proof fn law_encrypted_text_is_nonce_and_ciphertext(
    master: Seq<char>,
    context: Seq<char>,
    plaintext: Seq<char>,
    nonce: Seq<u8>,
)
    ensures
        stored_form(master, context, plaintext, nonce) == base64_text(nonce) + ":"@ + base64_text(
            sealed(key_for(master, context), nonce, encode_utf8(plaintext)),
        ),
{
}

/// A stored value is decrypted by what stands before its first colon, the nonce, and what stands
/// after it, the ciphertext; it is told what is wrong with one that cannot be.
pub proof fn law_stored_value_is_decrypted_by_its_parts(
    master: Seq<char>,
    context: Seq<char>,
    nonce: Seq<char>,
    ciphertext: Seq<char>,
)
    requires
        forall|i: int| 0 <= i < nonce.len() ==> (#[trigger] nonce[i]) != ':',
    ensures
        decrypted(master, context, nonce) == Err::<Seq<char>, CryptoError>(
            CryptoError::InvalidFormat,
        ),
        ({
            let outcome = decrypted(master, context, nonce + seq![':'] + ciphertext);
            let bytes = base64_bytes(ciphertext);
            let number = base64_bytes(nonce);
            &&& bytes is None ==> outcome == Err::<Seq<char>, CryptoError>(
                CryptoError::InvalidCiphertext,
            )
            &&& bytes is Some && number is None ==> outcome == Err::<Seq<char>, CryptoError>(
                CryptoError::InvalidNonce,
            )
            &&& bytes is Some && number is Some && number->Some_0.len() != 12 ==> outcome == Err::<
                Seq<char>,
                CryptoError,
            >(CryptoError::InvalidNonceLength)
            &&& bytes is Some && number is Some && number->Some_0.len() == 12
                && bytes->Some_0.len() > SEAL_LIMIT + TAG_LENGTH ==> outcome == Err::<
                Seq<char>,
                CryptoError,
            >(CryptoError::DecryptFailed)
            &&& bytes is Some && number is Some && number->Some_0.len() == 12
                && bytes->Some_0.len() <= SEAL_LIMIT + TAG_LENGTH ==> {
                let plain = opened(key_for(master, context), number->Some_0, bytes->Some_0);
                &&& plain is None ==> outcome == Err::<Seq<char>, CryptoError>(
                    CryptoError::DecryptFailed,
                )
                &&& plain is Some && valid_utf8(plain->Some_0) ==> outcome == Ok::<
                    Seq<char>,
                    CryptoError,
                >(decode_utf8(plain->Some_0))
                &&& plain is Some && !valid_utf8(plain->Some_0) ==> outcome == Err::<
                    Seq<char>,
                    CryptoError,
                >(CryptoError::InvalidText)
            }
        }),
{
    crate::text::lemma_split_none(nonce, ':');
    crate::text::lemma_split_first(nonce, ciphertext, ':');
}

/// What went wrong with an encrypted value is told in words.
pub proof fn law_crypto_errors_are_told_in_words()
    ensures
        CryptoError::EncryptFailed.message_text() == "encrypt failed"@,
        CryptoError::InvalidFormat.message_text() == "invalid encrypted value format"@,
        CryptoError::InvalidCiphertext.message_text() == "invalid ciphertext base64"@,
        CryptoError::InvalidNonce.message_text() == "invalid nonce base64"@,
        CryptoError::InvalidNonceLength.message_text() == "invalid nonce length"@,
        CryptoError::DecryptFailed.message_text() == "decrypt failed"@,
        CryptoError::InvalidText.message_text() == "invalid utf-8 plaintext"@,
{
}

} // verus!

//! The requests of the web console and how they are answered.
use vstd::prelude::*;
use vstd::string::*;
use vstd::utf8::*;

use crate::models::{
    BackupEnvelope, BackupImportReport, Device, EventItem, Group, LoginResponse, PublicConfig, Room,
};
use crate::state::AppState;
use crate::status::StatusCode;
use crate::text;

pub mod account;
pub mod backup;
pub mod push;
pub mod rooms;

verus! {

/// Version of the console.
pub const CONSOLE_VERSION: &'static str = "1.0.0";

/// What a request is answered with.
#[derive(Debug)]
pub enum Body {
    /// The request was carried out.
    Done,
    /// The identifier of a new user.
    Id(String),
    Login(LoginResponse),
    Rooms(Vec<Room>),
    Room(Room),
    Devices(Vec<Device>),
    /// The new token of a device.
    DeviceToken(String),
    Groups(Vec<Group>),
    Group(Group),
    /// Whether a configuration reached its device.
    Pushed(bool),
    /// The number of devices that a configuration reached.
    PushedTo(u64),
    Events(Vec<EventItem>),
    Backup(BackupEnvelope),
    Imported(BackupImportReport),
}

/// A body, or the status that a request is refused with.
pub type Answer = Result<Body, StatusCode>;

/// Answers with what anyone may know of the console.
pub fn public_config(state: &AppState) -> (config: PublicConfig)
    ensures
        config.allow_register == !state.args.disable_register,
        config.console_version@ == CONSOLE_VERSION@,
{
    PublicConfig {
        allow_register: !state.args.disable_register,
        console_version: CONSOLE_VERSION.to_string(),
    }
}

/// Characters of a user name: letters and digits of ASCII, underscore, hyphen and dot.
pub open spec fn is_name_char(c: char) -> bool {
    ||| 'a' <= c <= 'z'
    ||| 'A' <= c <= 'Z'
    ||| '0' <= c <= '9'
    ||| c == '_'
    ||| c == '-'
    ||| c == '.'
}

/// Whether a user may have a name: 3 to 32 characters, all of them allowed ones.
pub open spec fn valid_username(username: Seq<char>) -> bool {
    &&& 3 <= username.len() <= 32
    &&& forall|i: int| 0 <= i < username.len() ==> is_name_char(#[trigger] username[i])
}

/// Whether a user may have a password: 6 to 128 bytes.
pub open spec fn valid_password(password: Seq<char>) -> bool {
    6 <= encode_utf8(password).len() <= 128
}

/// Checks a password that a user wants to have.
pub fn validate_password(password: &str) -> (checked: Result<(), StatusCode>)
    ensures
        checked == (if valid_password(password@) {
            Ok::<(), StatusCode>(())
        } else {
            Err(StatusCode::BadRequest)
        }),
{
    let length: usize = password.as_bytes().len();
    if length < 6 || length > 128 {
        Err(StatusCode::BadRequest)
    } else {
        Ok(())
    }
}

fn name_char(c: char) -> (allowed: bool)
    ensures
        allowed == is_name_char(c),
{
    ('a' <= c && c <= 'z') || ('A' <= c && c <= 'Z') || ('0' <= c && c <= '9') || c == '_' || c
        == '-' || c == '.'
}

/// Checks the name that a user wants to have.
pub fn validate_username(username: &str) -> (checked: Result<(), StatusCode>)
    ensures
        checked == (if valid_username(username@) {
            Ok::<(), StatusCode>(())
        } else {
            Err(StatusCode::BadRequest)
        }),
{
    let chars = text::chars_of(username);
    if chars.len() < 3 || chars.len() > 32 {
        return Err(StatusCode::BadRequest);
    }
    let mut i: usize = 0;
    while i < chars.len()
        invariant
            i <= chars@.len(),
            chars@ == username@,
            forall|j: int| 0 <= j < i ==> is_name_char(#[trigger] username@[j]),
        decreases chars@.len() - i,
    {
        if !name_char(chars[i]) {
            assert(!is_name_char(username@[i as int]));
            return Err(StatusCode::BadRequest);
        }
        i = i + 1;
    }
    Ok(())
}

/// Checks the name and the password that a user wants to have.
pub fn validate_username_password(username: &str, password: &str) -> (checked: Result<
    (),
    StatusCode,
>)
    ensures
        checked == (if valid_username(username@) && valid_password(password@) {
            Ok::<(), StatusCode>(())
        } else {
            Err(StatusCode::BadRequest)
        }),
{
    match validate_username(username) {
        Ok(()) => validate_password(password),
        Err(status) => Err(status),
    }
}

/// The place that attempts to log in are counted under: the first address that a request was
/// forwarded for, or else the console's own machine.
pub open spec fn failure_key(forwarded_for: Option<Seq<char>>) -> Seq<char> {
    match forwarded_for {
        Some(list) => {
            let first = text::trimmed(text::before_first(list, ','));
            if first.len() > 0 {
                first
            } else {
                "local"@
            }
        },
        None => "local"@,
    }
}

/// Finds the place that attempts to log in are counted under.
pub fn login_failure_key(forwarded_for: &Option<String>) -> (key: String)
    ensures
        key@ == failure_key(
            match *forwarded_for {
                Some(list) => Some(list@),
                None => None,
            },
        ),
{
    match forwarded_for {
        Some(list) => {
            let first = text::head(list.as_str(), ',');
            let key = text::trim(first.as_str());
            if text::same_text(key.as_str(), "") {
                proof {
                    reveal_strlit("");
                }
                "local".to_string()
            } else {
                proof {
                    reveal_strlit("");
                    assert(key@.len() == 0 ==> key@ =~= ""@);
                }
                key
            }
        },
        None => "local".to_string(),
    }
}

} // verus!

//! What the payload of an event tells of a device.
use vstd::prelude::*;
use vstd::string::*;

use crate::json::{JsonCell, JsonRow};
use crate::text;

verus! {

/// A value as a number: an integer that is not negative, or a text that is one.
pub open spec fn number_of(cell: JsonCell) -> Option<u64> {
    match cell {
        JsonCell::Unsigned(n) => Some(n),
        JsonCell::Text(t) => text::unsigned_value(t@),
        _ => None,
    }
}

fn read_number(cell: &JsonCell) -> (n: Option<u64>)
    ensures
        n == number_of(*cell),
{
    match cell {
        JsonCell::Unsigned(n) => Some(*n),
        JsonCell::Text(t) => text::parse_u64(t.as_str()),
        _ => None,
    }
}

/// The number that an object has under a name.
pub open spec fn number_at(payload: JsonRow, name: Seq<char>) -> Option<u64> {
    match payload.value_of(name) {
        Some(cell) => number_of(cell),
        None => None,
    }
}

/// The number under the first name that has one.
pub open spec fn first_number(payload: JsonRow, names: Seq<Seq<char>>) -> Option<u64>
    decreases names.len(),
{
    if names.len() == 0 {
        None
    } else {
        match number_at(payload, names[0]) {
            Some(n) => Some(n),
            None => first_number(payload, names.drop_first()),
        }
    }
}

/// Finds the number under the first name that has one.
pub fn payload_u64(payload: &JsonRow, names: &Vec<&'static str>) -> (number: Option<u64>)
    ensures
        number == first_number(*payload, names@.map_values(|n: &'static str| n@)),
{
    let ghost views = names@.map_values(|n: &'static str| n@);
    let mut i: usize = 0;
    assert(views.skip(0) =~= views);
    while i < names.len()
        invariant
            i <= names@.len(),
            views == names@.map_values(|n: &'static str| n@),
            first_number(*payload, views) == first_number(*payload, views.skip(i as int)),
        decreases names@.len() - i,
    {
        assert(views.skip(i as int)[0] == names@[i as int]@);
        assert(views.skip(i as int).drop_first() =~= views.skip(i + 1));
        let found = match payload.get(names[i]) {
            Some(cell) => read_number(cell),
            None => None,
        };
        match found {
            Some(n) => return Some(n),
            None => {},
        }
        i = i + 1;
    }
    None
}

/// The names that bytes sent go by.
pub open spec fn up_names() -> Seq<Seq<char>> {
    Seq::empty().push("up_stream"@).push("up_bytes"@).push("upload"@).push("tx"@).push("tx_bytes"@)
}

/// The names that bytes received go by.
pub open spec fn down_names() -> Seq<Seq<char>> {
    Seq::empty().push("down_stream"@).push("down_bytes"@).push("download"@).push("rx"@).push(
        "rx_bytes"@,
    )
}

/// The types of events that tell of traffic.
pub open spec fn is_traffic_event(event_type: Seq<char>) -> bool {
    ||| event_type == "traffic_stats"@
    ||| event_type == "traffic"@
    ||| event_type == "status"@
    ||| event_type == "client_status"@
}

/// The traffic that an event tells of: bytes sent and received.
pub open spec fn traffic_of(event_type: Seq<char>, payload: JsonRow) -> Option<(u64, u64)> {
    if is_traffic_event(event_type) {
        match (first_number(payload, up_names()), first_number(payload, down_names())) {
            (Some(up), Some(down)) => Some((up, down)),
            _ => None,
        }
    } else {
        None
    }
}

/// Finds the traffic that an event tells of.
pub fn traffic_from_payload(event_type: &str, payload: &JsonRow) -> (traffic: Option<(u64, u64)>)
    ensures
        traffic == traffic_of(event_type@, *payload),
{
    if !(text::same_text(event_type, "traffic_stats") || text::same_text(event_type, "traffic")
        || text::same_text(event_type, "status") || text::same_text(event_type, "client_status")) {
        return None;
    }
    let mut up: Vec<&'static str> = Vec::new();
    up.push("up_stream");
    up.push("up_bytes");
    up.push("upload");
    up.push("tx");
    up.push("tx_bytes");
    let mut down: Vec<&'static str> = Vec::new();
    down.push("down_stream");
    down.push("down_bytes");
    down.push("download");
    down.push("rx");
    down.push("rx_bytes");
    assert(up@.map_values(|n: &'static str| n@) =~= up_names());
    assert(down@.map_values(|n: &'static str| n@) =~= down_names());
    match (payload_u64(payload, &up), payload_u64(payload, &down)) {
        (Some(sent), Some(received)) => Some((sent, received)),
        _ => None,
    }
}

/// The text that an object has under a name, without the white space around it; none where
/// nothing is left.
pub open spec fn trimmed_at(payload: JsonRow, name: Seq<char>) -> Option<Seq<char>> {
    match payload.value_of(name) {
        Some(JsonCell::Text(t)) => if text::trimmed(t@).len() > 0 {
            Some(text::trimmed(t@))
        } else {
            None
        },
        _ => None,
    }
}

fn read_trimmed(payload: &JsonRow, name: &str) -> (part: Option<String>)
    ensures
        match part {
            Some(t) => trimmed_at(*payload, name@) == Some(t@),
            None => trimmed_at(*payload, name@) is None,
        },
{
    match payload.get(name) {
        Some(cell) => match cell {
            JsonCell::Text(t) => {
                let part = text::trim(t.as_str());
                proof {
                    reveal_strlit("");
                    assert(part@.len() == 0 ==> part@ =~= ""@);
                }
                if text::same_text(part.as_str(), "") {
                    None
                } else {
                    Some(part)
                }
            },
            _ => None,
        },
        None => None,
    }
}

/// What an event tells of a device's connection to its network: the status, and the error where
/// there is one.
pub open spec fn vnts_status_of(event_type: Seq<char>, payload: JsonRow) -> Option<
    (Seq<char>, Option<Seq<char>>),
> {
    if event_type == "vnts_status"@ {
        match trimmed_at(payload, "status"@) {
            Some(status) => Some((status, trimmed_at(payload, "error"@))),
            None => None,
        }
    } else {
        None
    }
}

/// Whether a status and an error are those that an event tells of.
pub open spec fn is_vnts_status(
    found: Option<(String, Option<String>)>,
    expected: Option<(Seq<char>, Option<Seq<char>>)>,
) -> bool {
    match (found, expected) {
        (None, None) => true,
        (Some((status, error)), Some((s, e))) => {
            &&& status@ == s
            &&& match (error, e) {
                (None, None) => true,
                (Some(a), Some(b)) => a@ == b,
                _ => false,
            }
        },
        _ => false,
    }
}

/// Finds what an event tells of a device's connection to its network.
pub fn vnts_status_from_payload(event_type: &str, payload: &JsonRow) -> (found: Option<
    (String, Option<String>),
>)
    ensures
        is_vnts_status(found, vnts_status_of(event_type@, *payload)),
{
    if !text::same_text(event_type, "vnts_status") {
        return None;
    }
    match read_trimmed(payload, "status") {
        Some(status) => Some((status, read_trimmed(payload, "error"))),
        None => None,
    }
}

} // verus!

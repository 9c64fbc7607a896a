//! What events tell.
use vstd::prelude::*;
use vstd::string::*;

use crate::client_api::payload::{
    down_names, first_number, number_at, number_of, traffic_of, trimmed_at, up_names,
    vnts_status_of,
};
use crate::json::{member_of, JsonCell, JsonMember, JsonRow};
use crate::laws::text::{
    is_no_numeral, law_blank_is_white_space_alone, law_digits_are_read_as_their_number,
    law_other_texts_are_no_numbers, law_trimming_leaves_what_is_between, only_space, stands_for,
};
use crate::text::is_space;

verus! {

/// The place of a name among those that bytes sent go by: the earlier goes first.
pub open spec fn up_place(name: Seq<char>) -> int {
    if name == "up_stream"@ {
        0
    } else if name == "up_bytes"@ {
        1
    } else if name == "upload"@ {
        2
    } else if name == "tx"@ {
        3
    } else if name == "tx_bytes"@ {
        4
    } else {
        5
    }
}

/// The place of a name among those that bytes received go by: the earlier goes first.
pub open spec fn down_place(name: Seq<char>) -> int {
    if name == "down_stream"@ {
        0
    } else if name == "down_bytes"@ {
        1
    } else if name == "download"@ {
        2
    } else if name == "rx"@ {
        3
    } else if name == "rx_bytes"@ {
        4
    } else {
        5
    }
}

/// Whether a value is no number in any notation.
pub open spec fn is_no_number(cell: JsonCell) -> bool {
    cell is Null || cell is Negative || cell is Other || (cell is Text && is_no_numeral(
        cell->Text_0@,
    ))
}

/// Whether a value is a number: as such, or as a text of its decimal digits, with or without a plus
/// sign.
pub open spec fn is_number(cell: JsonCell, n: u64) -> bool {
    ||| cell == JsonCell::Unsigned(n)
    ||| cell is Text && stands_for(cell->Text_0@, n as nat)
    ||| cell is Text && exists|digits: Seq<char>|
        #[trigger] stands_for(digits, n as nat) && cell->Text_0@ == seq!['+'] + digits
}

proof fn lemma_number(cell: JsonCell, n: u64)
    ensures
        is_number(cell, n) ==> number_of(cell) == Some(n),
        is_no_number(cell) ==> number_of(cell) is None,
{
    if cell is Text {
        let t = cell->Text_0@;
        if is_no_numeral(t) {
            law_other_texts_are_no_numbers(t);
        }
        if stands_for(t, n as nat) {
            law_digits_are_read_as_their_number(t, n as nat);
        }
        if exists|digits: Seq<char>|
            #[trigger] stands_for(digits, n as nat) && t == seq!['+'] + digits {
            let digits = choose|digits: Seq<char>|
                #[trigger] stands_for(digits, n as nat) && t == seq!['+'] + digits;
            law_digits_are_read_as_their_number(digits, n as nat);
        }
    }
}

/// Whether no name occurs twice.
pub open spec fn distinct_names(members: Seq<JsonMember>) -> bool {
    forall|i: int, j: int|
        0 <= i < j < members.len() ==> (#[trigger] members[i]).name@ != (
        #[trigger] members[j]).name@
}

/// An event of one of the four types that tell of traffic tells of the bytes sent under the first
/// of the names `up_stream`, `up_bytes`, `upload`, `tx` and `tx_bytes` that has a number, and of
/// the bytes received under the first of `down_stream`, `down_bytes`, `download`, `rx` and
/// `rx_bytes`. Whatever else the event has does not matter.
pub proof fn law_traffic_goes_by_any_of_its_names(
    event_type: Seq<char>,
    payload: JsonRow,
    i: int,
    u: u64,
    j: int,
    d: u64,
)
    requires
        event_type == "traffic_stats"@ || event_type == "traffic"@ || event_type == "status"@
            || event_type == "client_status"@,
        payload is Object,
        distinct_names(payload->Object_0@),
        0 <= i < payload->Object_0@.len(),
        0 <= j < payload->Object_0@.len(),
        up_place(payload->Object_0@[i].name@) < 5,
        down_place(payload->Object_0@[j].name@) < 5,
        is_number(payload->Object_0@[i].value, u),
        is_number(payload->Object_0@[j].value, d),
        forall|k: int|
            0 <= k < payload->Object_0@.len() && up_place(
                (#[trigger] payload->Object_0@[k]).name@,
            ) < up_place(payload->Object_0@[i].name@) ==> is_no_number(payload->Object_0@[k].value),
        forall|k: int|
            0 <= k < payload->Object_0@.len() && down_place(
                (#[trigger] payload->Object_0@[k]).name@,
            ) < down_place(payload->Object_0@[j].name@) ==> is_no_number(
                payload->Object_0@[k].value,
            ),
    ensures
        traffic_of(event_type, payload) == Some((u, d)),
{
    let members = payload->Object_0@;
    lemma_places();
    lemma_number(members[i].value, u);
    lemma_number(members[j].value, d);
    lemma_found(payload, up_names(), up_place(members[i].name@), i);
    lemma_found(payload, down_names(), down_place(members[j].name@), j);
}

/// An event of any other type tells of no traffic, and neither does one that has no number under
/// any name of the bytes sent, or none under any name of the bytes received.
pub proof fn law_no_traffic_without_both_numbers(event_type: Seq<char>, payload: JsonRow)
    requires
        ({
            ||| event_type != "traffic_stats"@ && event_type != "traffic"@ && event_type
                != "status"@ && event_type != "client_status"@
            ||| !(payload is Object)
            ||| forall|k: int|
                0 <= k < payload->Object_0@.len() && up_place(
                    (#[trigger] payload->Object_0@[k]).name@,
                ) < 5 ==> is_no_number(payload->Object_0@[k].value)
            ||| forall|k: int|
                0 <= k < payload->Object_0@.len() && down_place(
                    (#[trigger] payload->Object_0@[k]).name@,
                ) < 5 ==> is_no_number(payload->Object_0@[k].value)
        }),
    ensures
        traffic_of(event_type, payload) is None,
{
    lemma_places();
    if !(payload is Object) {
        lemma_none(payload, up_names());
    } else {
        let members = payload->Object_0@;
        if forall|k: int|
            0 <= k < members.len() && up_place((#[trigger] members[k]).name@) < 5 ==> is_no_number(
                members[k].value,
            ) {
            assert forall|q: int| 0 <= q < 5 implies number_at(
                payload,
                #[trigger] up_names()[q],
            ) is None by {
                lemma_member(members, up_names()[q]);
                lemma_no_number_at(payload, up_names()[q]);
            }
            lemma_none(payload, up_names());
        }
        if forall|k: int|
            0 <= k < members.len() && down_place((#[trigger] members[k]).name@) < 5
                ==> is_no_number(members[k].value) {
            assert forall|q: int| 0 <= q < 5 implies number_at(
                payload,
                #[trigger] down_names()[q],
            ) is None by {
                lemma_member(members, down_names()[q]);
                lemma_no_number_at(payload, down_names()[q]);
            }
            lemma_none(payload, down_names());
        }
    }
}

/// Whether the member of an object with a name is a text that leaves a given one once the white
/// space around it is gone.
pub open spec fn has_text(payload: JsonRow, name: Seq<char>, core: Seq<char>) -> bool {
    &&& payload is Object
    &&& core.len() > 0 && !is_space(core[0]) && !is_space(core.last())
    &&& exists|i: int, before: Seq<char>, after: Seq<char>|
        {
            &&& 0 <= i < payload->Object_0@.len()
            &&& (#[trigger] payload->Object_0@[i]).name@ == name
            &&& payload->Object_0@[i].value is Text
            &&& payload->Object_0@[i].value->Text_0@ == #[trigger] padded(before, core, after)
            &&& only_space(before)
            &&& only_space(after)
        }
}

/// A text between two others.
pub open spec fn padded(before: Seq<char>, core: Seq<char>, after: Seq<char>) -> Seq<char> {
    before + core + after
}

/// Whether no member of an object with a name holds more than white space.
pub open spec fn has_no_text(payload: JsonRow, name: Seq<char>) -> bool {
    payload is Object ==> forall|i: int|
        0 <= i < payload->Object_0@.len() && (#[trigger] payload->Object_0@[i]).name@ == name
            && payload->Object_0@[i].value is Text ==> only_space(
            payload->Object_0@[i].value->Text_0@,
        )
}

/// An event of the type `vnts_status` tells the text under `status` and, where there is one, the
/// text under `error`, both without the white space around them.
pub proof fn law_network_status_goes_by_its_names(
    payload: JsonRow,
    status: Seq<char>,
    error: Seq<char>,
)
    requires
        payload is Object,
        distinct_names(payload->Object_0@),
        has_text(payload, "status"@, status),
        has_text(payload, "error"@, error) || has_no_text(payload, "error"@),
    ensures
        has_text(payload, "error"@, error) ==> vnts_status_of("vnts_status"@, payload) == Some(
            (status, Some(error)),
        ),
        has_no_text(payload, "error"@) ==> vnts_status_of("vnts_status"@, payload) == Some(
            (status, None::<Seq<char>>),
        ),
{
    lemma_text(payload, "status"@, status);
    if has_text(payload, "error"@, error) {
        lemma_text(payload, "error"@, error);
    }
    if has_no_text(payload, "error"@) {
        lemma_no_text(payload, "error"@);
    }
}

/// An event of another type, or without a text under `status`, tells of no network status.
pub proof fn law_no_network_status_without_its_text(event_type: Seq<char>, payload: JsonRow)
    requires
        event_type != "vnts_status"@ || has_no_text(payload, "status"@),
    ensures
        vnts_status_of(event_type, payload) is None,
{
    if event_type == "vnts_status"@ {
        lemma_no_text(payload, "status"@);
    }
}

proof fn lemma_text(payload: JsonRow, name: Seq<char>, core: Seq<char>)
    requires
        payload is Object,
        distinct_names(payload->Object_0@),
        has_text(payload, name, core),
    ensures
        trimmed_at(payload, name) == Some(core),
{
    let members = payload->Object_0@;
    let (i, before, after) = choose|i: int, before: Seq<char>, after: Seq<char>|
        {
            &&& 0 <= i < members.len()
            &&& (#[trigger] members[i]).name@ == name
            &&& members[i].value is Text
            &&& members[i].value->Text_0@ == #[trigger] padded(before, core, after)
            &&& only_space(before)
            &&& only_space(after)
        };
    lemma_member(members, name);
    let k = choose|k: int|
        0 <= k < members.len() && (#[trigger] members[k]).name@ == name && member_of(members, name)
            == Some(members[k].value);
    assert(k == i);
    law_trimming_leaves_what_is_between(before, core, after);
}

proof fn lemma_no_text(payload: JsonRow, name: Seq<char>)
    requires
        has_no_text(payload, name),
    ensures
        trimmed_at(payload, name) is None,
{
    if payload is Object {
        let members = payload->Object_0@;
        lemma_member(members, name);
        if member_of(members, name) is Some {
            let k = choose|k: int|
                0 <= k < members.len() && (#[trigger] members[k]).name@ == name && member_of(
                    members,
                    name,
                ) == Some(members[k].value);
            if members[k].value is Text {
                law_blank_is_white_space_alone(members[k].value->Text_0@);
            }
        }
    }
}

/// The names and their places fit together.
proof fn lemma_places()
    ensures
        up_names().len() == 5,
        down_names().len() == 5,
        forall|q: int| 0 <= q < 5 ==> up_place(#[trigger] up_names()[q]) == q,
        forall|q: int| 0 <= q < 5 ==> down_place(#[trigger] down_names()[q]) == q,
        forall|n: Seq<char>| up_place(n) < 5 ==> n == up_names()[#[trigger] up_place(n)],
        forall|n: Seq<char>| down_place(n) < 5 ==> n == down_names()[#[trigger] down_place(n)],
{
    reveal_strlit("up_stream");
    reveal_strlit("up_bytes");
    reveal_strlit("upload");
    reveal_strlit("tx");
    reveal_strlit("tx_bytes");
    reveal_strlit("down_stream");
    reveal_strlit("down_bytes");
    reveal_strlit("download");
    reveal_strlit("rx");
    reveal_strlit("rx_bytes");
    assert("up_bytes"@[0] == 'u' && "tx_bytes"@[0] == 't');
    assert("download"@[0] == 'd' && "rx_bytes"@[0] == 'r');
    assert(up_names()[0] == "up_stream"@ && up_names()[1] == "up_bytes"@ && up_names()[2]
        == "upload"@ && up_names()[3] == "tx"@ && up_names()[4] == "tx_bytes"@);
    assert(down_names()[0] == "down_stream"@ && down_names()[1] == "down_bytes"@
        && down_names()[2] == "download"@ && down_names()[3] == "rx"@ && down_names()[4]
        == "rx_bytes"@);
}

/// A member with a name is found where there is one.
pub proof fn lemma_member(members: Seq<JsonMember>, name: Seq<char>)
    ensures
        member_of(members, name) is None ==> forall|k: int|
            0 <= k < members.len() ==> (#[trigger] members[k]).name@ != name,
        member_of(members, name) is Some ==> exists|k: int|
            0 <= k < members.len() && (#[trigger] members[k]).name@ == name && member_of(
                members,
                name,
            ) == Some(members[k].value),
    decreases members.len(),
{
    if members.len() > 0 {
        let rest = members.drop_first();
        lemma_member(rest, name);
        if members[0].name@ == name {
        } else if member_of(rest, name) is Some {
            let k = choose|k: int|
                0 <= k < rest.len() && (#[trigger] rest[k]).name@ == name && member_of(rest, name)
                    == Some(rest[k].value);
            assert(members[k + 1] == rest[k]);
        } else {
            assert forall|k: int| 0 <= k < members.len() implies (
            #[trigger] members[k]).name@ != name by {
                if k > 0 {
                    assert(rest[k - 1] == members[k]);
                }
            }
        }
    }
}

/// The number under the first name that has one.
proof fn lemma_found(payload: JsonRow, names: Seq<Seq<char>>, place: int, i: int)
    requires
        payload is Object,
        distinct_names(payload->Object_0@),
        0 <= i < payload->Object_0@.len(),
        0 <= place < names.len(),
        payload->Object_0@[i].name@ == names[place],
        number_of(payload->Object_0@[i].value) is Some,
        forall|q: int, k: int|
            #![trigger names[q], payload->Object_0@[k]]
            0 <= q < place && 0 <= k < payload->Object_0@.len() && payload->Object_0@[k].name@
                == names[q] ==> is_no_number(payload->Object_0@[k].value),
    ensures
        first_number(payload, names) == number_of(payload->Object_0@[i].value),
    decreases names.len(),
{
    let members = payload->Object_0@;
    lemma_member(members, names[0]);
    if place == 0 {
        let k = choose|k: int|
            0 <= k < members.len() && (#[trigger] members[k]).name@ == names[0] && member_of(
                members,
                names[0],
            ) == Some(members[k].value);
        assert(k == i);
    } else {
        assert forall|k: int| 0 <= k < members.len() && (#[trigger] members[k]).name@
            == names[0] implies is_no_number(members[k].value) by {}
        lemma_no_number_at(payload, names[0]);
        let rest = names.drop_first();
        assert forall|q: int, k: int|
            #![trigger rest[q], members[k]]
            0 <= q < place - 1 && 0 <= k < members.len() && members[k].name@
                == rest[q] implies is_no_number(members[k].value) by {
            assert(rest[q] == names[q + 1]);
        }
        lemma_found(payload, rest, place - 1, i);
    }
}

/// No number where the member with a name is none.
proof fn lemma_no_number_at(payload: JsonRow, name: Seq<char>)
    requires
        payload is Object,
        forall|k: int|
            0 <= k < payload->Object_0@.len() && (#[trigger] payload->Object_0@[k]).name@ == name
                ==> is_no_number(payload->Object_0@[k].value),
    ensures
        number_at(payload, name) is None,
{
    let members = payload->Object_0@;
    lemma_member(members, name);
    if member_of(members, name) is Some {
        let k = choose|k: int|
            0 <= k < members.len() && (#[trigger] members[k]).name@ == name && member_of(
                members,
                name,
            ) == Some(members[k].value);
        lemma_number(members[k].value, 0);
    }
}

/// No number where no name has one.
proof fn lemma_none(payload: JsonRow, names: Seq<Seq<char>>)
    requires
        forall|q: int| 0 <= q < names.len() ==> number_at(payload, #[trigger] names[q]) is None,
    ensures
        first_number(payload, names) is None,
    decreases names.len(),
{
    if names.len() > 0 {
        assert(number_at(payload, names[0]) is None);
        assert forall|q: int| 0 <= q < names.drop_first().len() implies number_at(
            payload,
            #[trigger] names.drop_first()[q],
        ) is None by {
            assert(names[q + 1] == names.drop_first()[q]);
        }
        lemma_none(payload, names.drop_first());
    }
}

} // verus!

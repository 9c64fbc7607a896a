//! Rooms and what is in them.
use vstd::prelude::*;
use vstd::string::*;

use crate::api::push;
use crate::api::push::{PushConfig, PushStep};
use crate::api::{Answer, Body};
use crate::auth::AuthUser;
use crate::db::devices;
use crate::db::devices::UpdateDevice;
use crate::db::group_store;
use crate::db::group_store::{CreateGroup, ListGroups, SetDeviceGroup, UpdateGroup};
use crate::db::rooms;
use crate::db::rooms::CreateRoom;
use crate::db::transaction::Transaction;
use crate::db::{Database, DbError};
use crate::flow;
use crate::flow::{Call, Fresh, Reply, Step};
use crate::models::{
    CreateGroupRequest, CreateRoomRequest, Group, Room, ServerMessage, UpdateDeviceRequest,
    UpdateGroupRequest,
};
use crate::sql;
use crate::sql::{Query, QueryView, Row, SqlValue, SqlView};
use crate::status::StatusCode;

verus! {

/// The rooms of a user being listed.
#[derive(Debug)]
pub struct ListRooms;

/// A step of a list of rooms.
pub type ListRoomsStep = Step<ListRooms, Answer>;

impl ListRooms {
    /// The first step: the rooms of the user are fetched.
    pub open spec fn started(user: AuthUser, step: ListRoomsStep) -> bool {
        step matches Step::Ask(_, call) && call.fetches(rooms::select_rooms(user.id@))
    }

    /// How the list ends.
    pub open spec fn resumed(self, reply: Reply, step: ListRoomsStep) -> bool {
        match step {
            Step::Done(Ok(Body::Rooms(list))) => reply matches Reply::Rows(rows)
                && rooms::are_rooms(rows@, list@),
            Step::Done(Err(StatusCode::InternalServerError)) => !(reply matches Reply::Rows(rows)
                && forall|i: int|
                0 <= i < rows@.len() ==> rooms::room_row(#[trigger] rows@[i]@) is Some),
            _ => false,
        }
    }

    /// Takes the reply and ends.
    pub fn resume(self, reply: Reply) -> (step: ListRoomsStep)
        ensures
            self.resumed(reply, step),
    {
        match reply {
            Reply::Rows(rows) => match rooms::read_rooms(&rows) {
                Some(list) => Step::Done(Ok(Body::Rooms(list))),
                None => Step::Done(Err(StatusCode::InternalServerError)),
            },
            _ => Step::Done(Err(StatusCode::InternalServerError)),
        }
    }
}

/// Begins to list the rooms of a user.
pub fn list_rooms(db: &Database, user: &AuthUser) -> (step: ListRoomsStep)
    ensures
        ListRooms::started(*user, step),
{
    Step::Ask(ListRooms, Call::Fetch(db.list_rooms(user.id.as_str())))
}

/// A room being created for a user.
#[derive(Debug)]
pub struct NewRoom {
    pub inner: CreateRoom,
}

/// A step of the creation of a room.
pub type NewRoomStep = Step<NewRoom, Answer>;

impl NewRoom {
    /// The first step: a first identifier for the room of the user is looked up.
    pub open spec fn started(
        user: AuthUser,
        request: CreateRoomRequest,
        fresh: Fresh,
        step: NewRoomStep,
    ) -> bool {
        exists|sub: Step<CreateRoom, Result<Room, DbError>>| #[trigger]
            CreateRoom::checks(user.id, request.name, fresh.room_id, 1, sub) && NewRoom::lifts(
                sub,
                step,
            )
    }

    /// The step when the stored data has taken one.
    pub open spec fn lifts(sub: Step<CreateRoom, Result<Room, DbError>>, step: NewRoomStep) -> bool {
        match sub {
            Step::Ask(inner, call) => step == NewRoomStep::Ask(NewRoom { inner }, call),
            Step::Done(Ok(room)) => step == NewRoomStep::Done(Ok(Body::Room(room))),
            Step::Done(Err(_)) => step == NewRoomStep::Done(Err(StatusCode::InternalServerError)),
        }
    }

    /// How the creation goes on with a reply.
    pub open spec fn resumed(self, reply: Reply, fresh: Fresh, step: NewRoomStep) -> bool {
        exists|sub: Step<CreateRoom, Result<Room, DbError>>| #[trigger]
            self.inner.resumed(reply, fresh, sub) && NewRoom::lifts(sub, step)
    }

    fn lift(sub: Step<CreateRoom, Result<Room, DbError>>) -> (step: NewRoomStep)
        ensures
            NewRoom::lifts(sub, step),
    {
        match sub {
            Step::Ask(inner, call) => Step::Ask(NewRoom { inner }, call),
            Step::Done(Ok(room)) => Step::Done(Ok(Body::Room(room))),
            Step::Done(Err(_)) => Step::Done(Err(StatusCode::InternalServerError)),
        }
    }

    /// Takes the reply and goes on.
    pub fn resume(self, reply: Reply, fresh: Fresh) -> (step: NewRoomStep)
        ensures
            self.resumed(reply, fresh, step),
    {
        let inner = self.inner;
        let sub = inner.resume(reply, fresh);
        assert(self.inner.resumed(reply, fresh, sub));
        NewRoom::lift(sub)
    }
}

/// Begins to create a room for a user.
pub fn create_room(db: &Database, user: AuthUser, request: CreateRoomRequest, fresh: Fresh) -> (step:
    NewRoomStep)
    ensures
        NewRoom::started(user, request, fresh, step),
{
    let sub = db.create_room(user.id, request.name, fresh);
    NewRoom::lift(sub)
}

/// What a user wants of a room.
#[derive(Debug)]
pub enum RoomAction {
    DeleteRoom,
    ListDevices,
    UpdateDevice { device_id: String, request: UpdateDeviceRequest },
    DeleteDevice { device_id: String },
    RegenerateToken { device_id: String },
    KickDevice { device_id: String },
    PushDevice { device_id: String },
    ListGroups,
    CreateGroup { request: CreateGroupRequest },
    UpdateGroup { group_id: String, request: UpdateGroupRequest },
    DeleteGroup { group_id: String },
    PushGroup { group_id: String },
    /// Move a device into a group, or out of any.
    MoveDevice { group_id: Option<String>, device_id: String },
}

/// A request for a room, under way.
#[derive(Debug)]
pub enum RoomRequest {
    /// It is being checked whether the user may deal with the room.
    Checking { admin: bool, user_id: String, room_id: String, action: RoomAction },
    /// It is being checked whether the action would reach what another user owns.
    Guarding { room_id: String, action: RoomAction },
    DeletingRoom { inner: Transaction },
    ListingDevices,
    UpdatingDevice { inner: UpdateDevice },
    DeletingDevice { device_id: String, inner: Transaction },
    /// The token of a device is being stored.
    Rekeying { device_id: String, token: String },
    /// The connection of a device is being forgotten; then the body is the answer.
    Disconnecting { body: Body },
    Kicking { device_id: String },
    /// A kicked device is being told.
    Expelling,
    /// It is being checked whether a device is in the room.
    FindingDevice { device_id: String },
    PushingDevice { inner: PushConfig },
    ListingGroups { inner: ListGroups },
    CreatingGroup { inner: CreateGroup },
    UpdatingGroup { inner: UpdateGroup },
    DeletingGroup { inner: Transaction },
    /// It is being checked whether a group is in the room.
    FindingGroup { room_id: String, group_id: String },
    /// The devices of a group are being listed.
    Gathering { group_id: String },
    /// A device of a group is being served; those that follow are pending.
    PushingGroup { group_id: String, pending: Vec<String>, pushed: u64, inner: PushConfig },
    Moving { inner: SetDeviceGroup },
}

/// A step of a request for a room.
pub type RoomStep = Step<RoomRequest, Answer>;

/// The query that tells whether a user may deal with a room: an administrator with any that
/// exists, anyone else with their own.
pub open spec fn access_query(user: AuthUser, room_id: Seq<char>) -> QueryView {
    if user.admin() {
        rooms::count_room(room_id)
    } else {
        rooms::count_owned_room(room_id, user.id@)
    }
}

/// What the reply to that query decides.
pub open spec fn access_of(admin: bool, reply: Reply) -> Result<(), StatusCode> {
    match flow::count_of(reply) {
        None => Err(StatusCode::InternalServerError),
        Some(n) => if n > 0 {
            Ok(())
        } else if admin {
            Err(StatusCode::NotFound)
        } else {
            Err(StatusCode::Forbidden)
        },
    }
}

/// The answer to a request that is carried out or fails.
pub open spec fn done_or(outcome: Result<(), DbError>, status: StatusCode) -> Answer {
    match outcome {
        Ok(()) => Ok(Body::Done),
        Err(_) => Err(status),
    }
}

fn answer_done(outcome: Result<(), DbError>, status: StatusCode) -> (answer: Answer)
    ensures
        answer == done_or(outcome, status),
{
    match outcome {
        Ok(()) => Ok(Body::Done),
        Err(_) => Err(status),
    }
}

/// Begins to check whether a user may deal with a room.
pub fn ensure_room_access(db: &Database, user: &AuthUser, room_id: &str) -> (q: Query)
    ensures
        q@ == access_query(*user, room_id@),
{
    if user.is_admin() {
        db.room_exists(room_id)
    } else {
        db.room_belongs_to(room_id, user.id.as_str())
    }
}

fn decide_access(admin: bool, reply: Reply) -> (decision: Result<(), StatusCode>)
    ensures
        decision == access_of(admin, reply),
{
    match flow::count(reply) {
        None => Err(StatusCode::InternalServerError),
        Some(n) => if n > 0 {
            Ok(())
        } else if admin {
            Err(StatusCode::NotFound)
        } else {
            Err(StatusCode::Forbidden)
        },
    }
}

/// What the count of a device or a group in a room decides.
pub open spec fn presence_of(reply: Reply) -> Result<(), StatusCode> {
    match flow::count_of(reply) {
        None => Err(StatusCode::InternalServerError),
        Some(n) => if n > 0 {
            Ok(())
        } else {
            Err(StatusCode::NotFound)
        },
    }
}

fn decide_presence(reply: Reply) -> (decision: Result<(), StatusCode>)
    ensures
        decision == presence_of(reply),
{
    match flow::count(reply) {
        None => Err(StatusCode::InternalServerError),
        Some(n) => if n > 0 {
            Ok(())
        } else {
            Err(StatusCode::NotFound)
        },
    }
}

/// The identifiers in the rows of a result, where every row has one.
pub open spec fn identifiers(rows: Seq<Row>) -> Option<Seq<String>>
    decreases rows.len(),
{
    if rows.len() == 0 {
        Some(Seq::empty())
    } else {
        match (identifiers(rows.drop_last()), sql::text_cell(rows.last()@, 0)) {
            (Some(front), Some(id)) => Some(front.push(id)),
            _ => None,
        }
    }
}

proof fn lemma_identifiers_fail(rows: Seq<Row>, n: int)
    requires
        0 <= n <= rows.len(),
        identifiers(rows.take(n)) is None,
    ensures
        identifiers(rows) is None,
    decreases rows.len() - n,
{
    if n == rows.len() {
        assert(rows.take(n) =~= rows);
    } else {
        assert(rows.take(n + 1).drop_last() =~= rows.take(n));
        lemma_identifiers_fail(rows, n + 1);
    }
}

fn read_identifiers(rows: &Vec<Row>) -> (ids: Option<Vec<String>>)
    ensures
        match ids {
            Some(list) => identifiers(rows@) == Some(list@),
            None => identifiers(rows@) is None,
        },
{
    let mut ids: Vec<String> = Vec::new();
    let mut i: usize = 0;
    assert(rows@.take(0) =~= Seq::empty());
    while i < rows.len()
        invariant
            i <= rows@.len(),
            identifiers(rows@.take(i as int)) == Some(ids@),
        decreases rows@.len() - i,
    {
        assert(rows@.take(i + 1).drop_last() =~= rows@.take(i as int));
        match sql::text_at(&rows[i], 0) {
            Some(id) => {
                ids.push(id);
            },
            None => {
                proof {
                    lemma_identifiers_fail(rows@, i + 1);
                }
                return None;
            },
        }
        i = i + 1;
    }
    assert(rows@.take(i as int) =~= rows@);
    Some(ids)
}

/// One more, as far as the number can grow.
pub open spec fn one_more(n: u64) -> u64 {
    if n < u64::MAX {
        (n + 1) as u64
    } else {
        n
    }
}

/// What a kicked device is told.
pub open spec fn is_farewell(message: ServerMessage) -> bool {
    message matches ServerMessage::Kick { reason } && reason@ == "kicked by console"@
}

/// The query that tells whether an action would reach what another user owns: a device that is to
/// be deleted or to lose its connection, a group that a device is to join. Any other action names
/// only what is in the room.
pub open spec fn guard_query(action: RoomAction, user_id: Seq<char>) -> Option<QueryView> {
    match action {
        RoomAction::DeleteDevice { device_id } => Some(
            devices::count_foreign_device(device_id@, user_id),
        ),
        RoomAction::RegenerateToken { device_id } => Some(
            devices::count_foreign_device(device_id@, user_id),
        ),
        RoomAction::UpdateDevice { request, .. } => match request.group_id {
            Some(group_id) => Some(group_store::count_foreign_group(group_id@, user_id)),
            None => None,
        },
        _ => None,
    }
}

fn build_guard(db: &Database, action: &RoomAction, user_id: &str) -> (query: Option<Query>)
    ensures
        match query {
            Some(q) => guard_query(*action, user_id@) == Some(q@),
            None => guard_query(*action, user_id@) is None,
        },
{
    match action {
        RoomAction::DeleteDevice { device_id } => Some(
            db.device_of_others(device_id.as_str(), user_id),
        ),
        RoomAction::RegenerateToken { device_id } => Some(
            db.device_of_others(device_id.as_str(), user_id),
        ),
        RoomAction::UpdateDevice { request, .. } => match &request.group_id {
            Some(group_id) => Some(db.group_of_others(group_id.as_str(), user_id)),
            None => None,
        },
        _ => None,
    }
}

/// The answer to an action that fails on the stored data.
pub open spec fn failure_of(action: RoomAction) -> Answer {
    match action {
        RoomAction::DeleteDevice { .. } => Err(StatusCode::InternalServerError),
        _ => Err(StatusCode::NotFound),
    }
}

/// The answer to an action that would reach what another user owns. Nothing is done for it: a
/// device is as little deleted or disconnected as one that does not exist, and a group is not
/// found.
pub open spec fn spared(action: RoomAction, token: String) -> Answer {
    match action {
        RoomAction::DeleteDevice { .. } => Ok(Body::Done),
        RoomAction::RegenerateToken { .. } => Ok(Body::DeviceToken(token)),
        _ => Err(StatusCode::NotFound),
    }
}

fn answer_failed(action: &RoomAction) -> (answer: Answer)
    ensures
        answer == failure_of(*action),
{
    match action {
        RoomAction::DeleteDevice { .. } => Err(StatusCode::InternalServerError),
        _ => Err(StatusCode::NotFound),
    }
}

fn answer_spared(action: &RoomAction, token: String) -> (answer: Answer)
    ensures
        answer == spared(*action, token),
{
    match action {
        RoomAction::DeleteDevice { .. } => Ok(Body::Done),
        RoomAction::RegenerateToken { .. } => Ok(Body::DeviceToken(token)),
        _ => Err(StatusCode::NotFound),
    }
}

impl RoomRequest {
    /// The first step of every request for a room: whether the user may deal with it.
    pub open spec fn started(
        user: AuthUser,
        room_id: String,
        action: RoomAction,
        step: RoomStep,
    ) -> bool {
        &&& step matches Step::Ask(state, call)
        &&& state == (RoomRequest::Checking {
            admin: user.admin(),
            user_id: user.id,
            room_id,
            action,
        })
        &&& call.fetches(access_query(user, room_id@))
    }

    /// The step when the deletion of a room has taken one.
    pub open spec fn deletes_room(
        sub: Step<Transaction, Result<(), DbError>>,
        step: RoomStep,
    ) -> bool {
        match sub {
            Step::Ask(inner, call) => step == RoomStep::Ask(
                RoomRequest::DeletingRoom { inner },
                call,
            ),
            Step::Done(outcome) => step == RoomStep::Done(
                done_or(outcome, StatusCode::InternalServerError),
            ),
        }
    }

    /// The step when the change of a device has taken one.
    pub open spec fn updates_device(
        sub: Step<UpdateDevice, Result<(), DbError>>,
        step: RoomStep,
    ) -> bool {
        match sub {
            Step::Ask(inner, call) => step == RoomStep::Ask(
                RoomRequest::UpdatingDevice { inner },
                call,
            ),
            Step::Done(outcome) => step == RoomStep::Done(done_or(outcome, StatusCode::NotFound)),
        }
    }

    /// The step that forgets the connection of a device before the answer is given.
    pub open spec fn disconnects(device_id: String, body: Body, step: RoomStep) -> bool {
        step == RoomStep::Ask(
            RoomRequest::Disconnecting { body },
            Call::Unregister { device_id },
        )
    }

    /// The step when the deletion of a device has taken one.
    pub open spec fn deletes_device(
        device_id: String,
        sub: Step<Transaction, Result<(), DbError>>,
        step: RoomStep,
    ) -> bool {
        match sub {
            Step::Ask(inner, call) => step == RoomStep::Ask(
                RoomRequest::DeletingDevice { device_id, inner },
                call,
            ),
            Step::Done(Ok(())) => RoomRequest::disconnects(device_id, Body::Done, step),
            Step::Done(Err(_)) => step == RoomStep::Done(Err(StatusCode::InternalServerError)),
        }
    }

    /// The step when the list of groups has taken one.
    pub open spec fn lists_groups(
        sub: Step<ListGroups, Result<Vec<Group>, DbError>>,
        step: RoomStep,
    ) -> bool {
        match sub {
            Step::Ask(inner, call) => step == RoomStep::Ask(
                RoomRequest::ListingGroups { inner },
                call,
            ),
            Step::Done(Ok(groups)) => step == RoomStep::Done(Ok(Body::Groups(groups))),
            Step::Done(Err(_)) => step == RoomStep::Done(Err(StatusCode::InternalServerError)),
        }
    }

    /// The step when the creation of a group has taken one.
    pub open spec fn creates_group(
        sub: Step<CreateGroup, Result<Group, DbError>>,
        step: RoomStep,
    ) -> bool {
        match sub {
            Step::Ask(inner, call) => step == RoomStep::Ask(
                RoomRequest::CreatingGroup { inner },
                call,
            ),
            Step::Done(Ok(group)) => step == RoomStep::Done(Ok(Body::Group(group))),
            Step::Done(Err(_)) => step == RoomStep::Done(Err(StatusCode::InternalServerError)),
        }
    }

    /// The step when the change of a group has taken one.
    pub open spec fn updates_group(
        sub: Step<UpdateGroup, Result<Group, DbError>>,
        step: RoomStep,
    ) -> bool {
        match sub {
            Step::Ask(inner, call) => step == RoomStep::Ask(
                RoomRequest::UpdatingGroup { inner },
                call,
            ),
            Step::Done(Ok(group)) => step == RoomStep::Done(Ok(Body::Group(group))),
            Step::Done(Err(_)) => step == RoomStep::Done(Err(StatusCode::NotFound)),
        }
    }

    /// The step when the deletion of a group has taken one.
    pub open spec fn deletes_group(
        sub: Step<Transaction, Result<(), DbError>>,
        step: RoomStep,
    ) -> bool {
        match sub {
            Step::Ask(inner, call) => step == RoomStep::Ask(
                RoomRequest::DeletingGroup { inner },
                call,
            ),
            Step::Done(outcome) => step == RoomStep::Done(
                done_or(outcome, StatusCode::InternalServerError),
            ),
        }
    }

    /// The step when the move of a device has taken one.
    pub open spec fn moves(
        sub: Step<SetDeviceGroup, Result<(), DbError>>,
        step: RoomStep,
    ) -> bool {
        match sub {
            Step::Ask(inner, call) => step == RoomStep::Ask(RoomRequest::Moving { inner }, call),
            Step::Done(outcome) => step == RoomStep::Done(done_or(outcome, StatusCode::NotFound)),
        }
    }

    /// The step when a push to one device has taken one.
    pub open spec fn pushes_device(sub: PushStep, step: RoomStep) -> bool {
        match sub {
            Step::Ask(inner, call) => step == RoomStep::Ask(
                RoomRequest::PushingDevice { inner },
                call,
            ),
            Step::Done(Ok(reached)) => step == RoomStep::Done(Ok(Body::Pushed(reached))),
            Step::Done(Err(status)) => step == RoomStep::Done(Err(status)),
        }
    }

    /// The step when devices of a group are left to serve, or none.
    pub open spec fn serves(
        group_id: String,
        pending: Seq<String>,
        pushed: u64,
        step: RoomStep,
    ) -> bool {
        if pending.len() == 0 {
            step == RoomStep::Done(Ok(Body::PushedTo(pushed)))
        } else {
            exists|sub: PushStep| #[trigger]
                PushConfig::started(pending[0], Some(group_id), sub) && RoomRequest::pushes_group(
                    group_id,
                    pending.drop_first(),
                    pushed,
                    sub,
                    step,
                )
        }
    }

    /// The step when a push to a device of a group has asked for a call.
    pub open spec fn pushes_group(
        group_id: String,
        pending: Seq<String>,
        pushed: u64,
        sub: PushStep,
        step: RoomStep,
    ) -> bool {
        &&& sub is Ask
        &&& step matches Step::Ask(
            RoomRequest::PushingGroup { group_id: g, pending: p, pushed: n, inner },
            call,
        )
        &&& g == group_id
        &&& p@ == pending
        &&& n == pushed
        &&& inner == sub->Ask_0
        &&& call == sub->Ask_1
    }

    /// The step that carries out what the user wants, once access is granted.
    pub open spec fn begun(
        room_id: String,
        action: RoomAction,
        fresh: Fresh,
        step: RoomStep,
    ) -> bool {
        match action {
            RoomAction::DeleteRoom => exists|sub: Step<Transaction, Result<(), DbError>>|
                #[trigger]
                Transaction::started(rooms::delete_room_statements(room_id@), sub)
                    && RoomRequest::deletes_room(sub, step),
            RoomAction::ListDevices => step matches Step::Ask(RoomRequest::ListingDevices, call)
                && call.fetches(devices::select_devices(room_id@)),
            RoomAction::UpdateDevice { device_id, request } => exists|
                sub: Step<UpdateDevice, Result<(), DbError>>,
            | #[trigger]
                UpdateDevice::started(room_id, device_id, request, sub)
                    && RoomRequest::updates_device(sub, step),
            RoomAction::DeleteDevice { device_id } => exists|
                sub: Step<Transaction, Result<(), DbError>>,
            | #[trigger]
                Transaction::started(devices::delete_device_statements(room_id@, device_id@), sub)
                    && RoomRequest::deletes_device(device_id, sub, step),
            RoomAction::RegenerateToken { device_id } => step matches Step::Ask(state, call)
                && state == (RoomRequest::Rekeying { device_id, token: fresh.secret })
                && call.executes(
                devices::set_device_token(fresh.secret@, device_id@, room_id@),
            ),
            RoomAction::KickDevice { device_id } => step matches Step::Ask(state, call) && state
                == (RoomRequest::Kicking { device_id }) && call.executes(
                devices::mark_kicked(device_id@, room_id@),
            ),
            RoomAction::PushDevice { device_id } => step matches Step::Ask(state, call) && state
                == (RoomRequest::FindingDevice { device_id }) && call.fetches(
                devices::count_device(device_id@, room_id@),
            ),
            RoomAction::ListGroups => exists|sub: Step<ListGroups, Result<Vec<Group>, DbError>>|
                #[trigger]
                ListGroups::started(room_id@, sub) && RoomRequest::lists_groups(sub, step),
            RoomAction::CreateGroup { request } => exists|
                sub: Step<CreateGroup, Result<Group, DbError>>,
            | #[trigger]
                CreateGroup::started(room_id, request.name, request.config, 1, sub)
                    && RoomRequest::creates_group(sub, step),
            RoomAction::UpdateGroup { group_id, request } => exists|
                sub: Step<UpdateGroup, Result<Group, DbError>>,
            | #[trigger]
                UpdateGroup::started(room_id, group_id, request, sub)
                    && RoomRequest::updates_group(sub, step),
            RoomAction::DeleteGroup { group_id } => exists|
                sub: Step<Transaction, Result<(), DbError>>,
            | #[trigger]
                Transaction::started(
                    group_store::delete_group_statements(room_id@, group_id@),
                    sub,
                ) && RoomRequest::deletes_group(sub, step),
            RoomAction::PushGroup { group_id } => step matches Step::Ask(state, call) && state == (
            RoomRequest::FindingGroup { room_id, group_id }) && call.fetches(
                group_store::count_group(group_id@, room_id@),
            ),
            RoomAction::MoveDevice { group_id, device_id } => exists|
                sub: Step<SetDeviceGroup, Result<(), DbError>>,
            | #[trigger]
                SetDeviceGroup::started(room_id, group_id, device_id, sub) && RoomRequest::moves(
                    sub,
                    step,
                ),
        }
    }

    /// The step once access is granted: an administrator's action is carried out at once, anyone
    /// else's where it does not reach what another user owns.
    pub open spec fn granted(
        admin: bool,
        user_id: Seq<char>,
        room_id: String,
        action: RoomAction,
        fresh: Fresh,
        step: RoomStep,
    ) -> bool {
        match guard_query(action, user_id) {
            Some(query) if !admin => {
                &&& step matches Step::Ask(state, call)
                &&& state == (RoomRequest::Guarding { room_id, action })
                &&& call.fetches(query)
            },
            _ => RoomRequest::begun(room_id, action, fresh, step),
        }
    }

    /// How a request goes on with a reply.
    pub open spec fn resumed(
        self,
        db: Database,
        reply: Reply,
        fresh: Fresh,
        step: RoomStep,
    ) -> bool {
        match self {
            RoomRequest::Checking { admin, user_id, room_id, action } => match access_of(
                admin,
                reply,
            ) {
                Err(status) => step == RoomStep::Done(Err(status)),
                Ok(()) => RoomRequest::granted(admin, user_id@, room_id, action, fresh, step),
            },
            RoomRequest::Guarding { room_id, action } => match flow::count_of(reply) {
                None => step == RoomStep::Done(failure_of(action)),
                Some(n) => if n > 0 {
                    step == RoomStep::Done(spared(action, fresh.secret))
                } else {
                    RoomRequest::begun(room_id, action, fresh, step)
                },
            },
            RoomRequest::DeletingRoom { inner } => exists|
                sub: Step<Transaction, Result<(), DbError>>,
            | #[trigger] inner.resumed(reply, sub) && RoomRequest::deletes_room(sub, step),
            RoomRequest::ListingDevices => match step {
                Step::Done(Ok(Body::Devices(list))) => reply matches Reply::Rows(rows)
                    && devices::are_devices(rows@, list@),
                Step::Done(Err(StatusCode::InternalServerError)) => !(reply matches Reply::Rows(
                    rows,
                ) && forall|i: int|
                    0 <= i < rows@.len() ==> devices::device_row(#[trigger] rows@[i]@) is Some),
                _ => false,
            },
            RoomRequest::UpdatingDevice { inner } => exists|
                sub: Step<UpdateDevice, Result<(), DbError>>,
            | #[trigger] inner.resumed(reply, sub) && RoomRequest::updates_device(sub, step),
            RoomRequest::DeletingDevice { device_id, inner } => exists|
                sub: Step<Transaction, Result<(), DbError>>,
            | #[trigger]
                inner.resumed(reply, sub) && RoomRequest::deletes_device(device_id, sub, step),
            RoomRequest::Rekeying { device_id, token } => match flow::affected_of(reply) {
                None => step == RoomStep::Done(Err(StatusCode::NotFound)),
                Some(_) => RoomRequest::disconnects(device_id, Body::DeviceToken(token), step),
            },
            RoomRequest::Disconnecting { body } => step == RoomStep::Done(Ok(body)),
            RoomRequest::Kicking { device_id } => match flow::affected_of(reply) {
                None => step == RoomStep::Done(Err(StatusCode::InternalServerError)),
                Some(n) => if n == 0 {
                    step == RoomStep::Done(Err(StatusCode::NotFound))
                } else {
                    &&& step matches Step::Ask(
                        RoomRequest::Expelling,
                        Call::Expel { device_id: id, message },
                    )
                    &&& id == device_id
                    &&& is_farewell(message)
                },
            },
            RoomRequest::Expelling => step == RoomStep::Done(Ok(Body::Done)),
            RoomRequest::FindingDevice { device_id } => match presence_of(reply) {
                Err(status) => step == RoomStep::Done(Err(status)),
                Ok(()) => exists|sub: PushStep| #[trigger]
                    PushConfig::started(device_id, None, sub) && RoomRequest::pushes_device(
                        sub,
                        step,
                    ),
            },
            RoomRequest::PushingDevice { inner } => exists|sub: PushStep| #[trigger]
                inner.resumed(db, reply, fresh, sub) && RoomRequest::pushes_device(sub, step),
            RoomRequest::ListingGroups { inner } => exists|
                sub: Step<ListGroups, Result<Vec<Group>, DbError>>,
            | #[trigger] inner.resumed(db, reply, sub) && RoomRequest::lists_groups(sub, step),
            RoomRequest::CreatingGroup { inner } => exists|
                sub: Step<CreateGroup, Result<Group, DbError>>,
            | #[trigger]
                inner.resumed(db, reply, fresh, sub) && RoomRequest::creates_group(sub, step),
            RoomRequest::UpdatingGroup { inner } => exists|
                sub: Step<UpdateGroup, Result<Group, DbError>>,
            | #[trigger]
                inner.resumed(db, reply, fresh, sub) && RoomRequest::updates_group(sub, step),
            RoomRequest::DeletingGroup { inner } => exists|
                sub: Step<Transaction, Result<(), DbError>>,
            | #[trigger] inner.resumed(reply, sub) && RoomRequest::deletes_group(sub, step),
            RoomRequest::FindingGroup { room_id, group_id } => match presence_of(reply) {
                Err(status) => step == RoomStep::Done(Err(status)),
                Ok(()) => step matches Step::Ask(state, call) && state == (RoomRequest::Gathering {
                    group_id,
                }) && call.fetches(devices::select_members(room_id@, group_id@)),
            },
            RoomRequest::Gathering { group_id } => match flow::rows_of(reply) {
                None => step == RoomStep::Done(Err(StatusCode::InternalServerError)),
                Some(rows) => match identifiers(rows) {
                    None => step == RoomStep::Done(Err(StatusCode::InternalServerError)),
                    Some(ids) => RoomRequest::serves(group_id, ids, 0, step),
                },
            },
            RoomRequest::PushingGroup { group_id, pending, pushed, inner } => exists|
                sub: PushStep,
            | #[trigger]
                inner.resumed(db, reply, fresh, sub) && match sub {
                    Step::Ask(..) => RoomRequest::pushes_group(
                        group_id,
                        pending@,
                        pushed,
                        sub,
                        step,
                    ),
                    Step::Done(Err(status)) => step == RoomStep::Done(Err(status)),
                    Step::Done(Ok(reached)) => RoomRequest::serves(
                        group_id,
                        pending@,
                        if reached {
                            one_more(pushed)
                        } else {
                            pushed
                        },
                        step,
                    ),
                },
            RoomRequest::Moving { inner } => exists|
                sub: Step<SetDeviceGroup, Result<(), DbError>>,
            | #[trigger] inner.resumed(reply, sub) && RoomRequest::moves(sub, step),
        }
    }

    fn delete_room(sub: Step<Transaction, Result<(), DbError>>) -> (step: RoomStep)
        ensures
            RoomRequest::deletes_room(sub, step),
    {
        match sub {
            Step::Ask(inner, call) => Step::Ask(RoomRequest::DeletingRoom { inner }, call),
            Step::Done(outcome) => Step::Done(
                answer_done(outcome, StatusCode::InternalServerError),
            ),
        }
    }

    fn update_device(sub: Step<UpdateDevice, Result<(), DbError>>) -> (step: RoomStep)
        ensures
            RoomRequest::updates_device(sub, step),
    {
        match sub {
            Step::Ask(inner, call) => Step::Ask(RoomRequest::UpdatingDevice { inner }, call),
            Step::Done(outcome) => Step::Done(answer_done(outcome, StatusCode::NotFound)),
        }
    }

    fn delete_device(device_id: String, sub: Step<Transaction, Result<(), DbError>>) -> (step:
        RoomStep)
        ensures
            RoomRequest::deletes_device(device_id, sub, step),
    {
        match sub {
            Step::Ask(inner, call) => Step::Ask(
                RoomRequest::DeletingDevice { device_id, inner },
                call,
            ),
            Step::Done(Ok(())) => Step::Ask(
                RoomRequest::Disconnecting { body: Body::Done },
                Call::Unregister { device_id },
            ),
            Step::Done(Err(_)) => Step::Done(Err(StatusCode::InternalServerError)),
        }
    }

    fn list_groups(sub: Step<ListGroups, Result<Vec<Group>, DbError>>) -> (step: RoomStep)
        ensures
            RoomRequest::lists_groups(sub, step),
    {
        match sub {
            Step::Ask(inner, call) => Step::Ask(RoomRequest::ListingGroups { inner }, call),
            Step::Done(Ok(groups)) => Step::Done(Ok(Body::Groups(groups))),
            Step::Done(Err(_)) => Step::Done(Err(StatusCode::InternalServerError)),
        }
    }

    fn create_group(sub: Step<CreateGroup, Result<Group, DbError>>) -> (step: RoomStep)
        ensures
            RoomRequest::creates_group(sub, step),
    {
        match sub {
            Step::Ask(inner, call) => Step::Ask(RoomRequest::CreatingGroup { inner }, call),
            Step::Done(Ok(group)) => Step::Done(Ok(Body::Group(group))),
            Step::Done(Err(_)) => Step::Done(Err(StatusCode::InternalServerError)),
        }
    }

    fn update_group(sub: Step<UpdateGroup, Result<Group, DbError>>) -> (step: RoomStep)
        ensures
            RoomRequest::updates_group(sub, step),
    {
        match sub {
            Step::Ask(inner, call) => Step::Ask(RoomRequest::UpdatingGroup { inner }, call),
            Step::Done(Ok(group)) => Step::Done(Ok(Body::Group(group))),
            Step::Done(Err(_)) => Step::Done(Err(StatusCode::NotFound)),
        }
    }

    fn delete_group(sub: Step<Transaction, Result<(), DbError>>) -> (step: RoomStep)
        ensures
            RoomRequest::deletes_group(sub, step),
    {
        match sub {
            Step::Ask(inner, call) => Step::Ask(RoomRequest::DeletingGroup { inner }, call),
            Step::Done(outcome) => Step::Done(
                answer_done(outcome, StatusCode::InternalServerError),
            ),
        }
    }

    fn move_device(sub: Step<SetDeviceGroup, Result<(), DbError>>) -> (step: RoomStep)
        ensures
            RoomRequest::moves(sub, step),
    {
        match sub {
            Step::Ask(inner, call) => Step::Ask(RoomRequest::Moving { inner }, call),
            Step::Done(outcome) => Step::Done(answer_done(outcome, StatusCode::NotFound)),
        }
    }

    fn push_device(sub: PushStep) -> (step: RoomStep)
        ensures
            RoomRequest::pushes_device(sub, step),
    {
        match sub {
            Step::Ask(inner, call) => Step::Ask(RoomRequest::PushingDevice { inner }, call),
            Step::Done(Ok(reached)) => Step::Done(Ok(Body::Pushed(reached))),
            Step::Done(Err(status)) => Step::Done(Err(status)),
        }
    }

    fn serve(db: &Database, group_id: String, pending: Vec<String>, pushed: u64) -> (step: RoomStep)
        ensures
            RoomRequest::serves(group_id, pending@, pushed, step),
    {
        let mut pending = pending;
        if pending.len() == 0 {
            return Step::Done(Ok(Body::PushedTo(pushed)));
        }
        let ghost all = pending@;
        let device_id = pending.remove(0);
        assert(pending@ =~= all.drop_first());
        let sub = push::push_config_to_device(db, device_id, Some(group_id.clone()));
        assert(PushConfig::started(all[0], Some(group_id), sub));
        match sub {
            Step::Ask(inner, call) => Step::Ask(
                RoomRequest::PushingGroup { group_id, pending, pushed, inner },
                call,
            ),
            Step::Done(_) => Step::Done(Err(StatusCode::InternalServerError)),
        }
    }

    fn begin(db: &Database, room_id: String, action: RoomAction, fresh: Fresh) -> (step: RoomStep)
        ensures
            RoomRequest::begun(room_id, action, fresh, step),
    {
        match action {
            RoomAction::DeleteRoom => RoomRequest::delete_room(db.delete_room(room_id.as_str())),
            RoomAction::ListDevices => Step::Ask(
                RoomRequest::ListingDevices,
                Call::Fetch(db.list_devices(room_id.as_str())),
            ),
            RoomAction::UpdateDevice { device_id, request } => RoomRequest::update_device(
                db.update_device(room_id, device_id, request),
            ),
            RoomAction::DeleteDevice { device_id } => {
                let sub = db.delete_device(room_id.as_str(), device_id.as_str());
                RoomRequest::delete_device(device_id, sub)
            },
            RoomAction::RegenerateToken { device_id } => {
                let statement = db.regenerate_device_token(
                    room_id.as_str(),
                    device_id.as_str(),
                    fresh.secret.as_str(),
                );
                Step::Ask(
                    RoomRequest::Rekeying { device_id, token: fresh.secret },
                    Call::Execute(statement),
                )
            },
            RoomAction::KickDevice { device_id } => {
                let statement = db.kick_device(device_id.as_str(), room_id.as_str());
                Step::Ask(RoomRequest::Kicking { device_id }, Call::Execute(statement))
            },
            RoomAction::PushDevice { device_id } => {
                let query = db.device_in_room(device_id.as_str(), room_id.as_str());
                Step::Ask(RoomRequest::FindingDevice { device_id }, Call::Fetch(query))
            },
            RoomAction::ListGroups => RoomRequest::list_groups(db.list_groups(room_id.as_str())),
            RoomAction::CreateGroup { request } => RoomRequest::create_group(
                db.create_group(room_id, request.name, request.config),
            ),
            RoomAction::UpdateGroup { group_id, request } => RoomRequest::update_group(
                db.update_group(room_id, group_id, request),
            ),
            RoomAction::DeleteGroup { group_id } => RoomRequest::delete_group(
                db.delete_group(room_id.as_str(), group_id.as_str()),
            ),
            RoomAction::PushGroup { group_id } => {
                let query = group_store::count_group_query(group_id.as_str(), room_id.as_str());
                Step::Ask(RoomRequest::FindingGroup { room_id, group_id }, Call::Fetch(query))
            },
            RoomAction::MoveDevice { group_id, device_id } => RoomRequest::move_device(
                db.set_device_group(room_id, group_id, device_id),
            ),
        }
    }

    fn resume_device(self, db: &Database, reply: Reply, fresh: Fresh) -> (step: RoomStep)
        requires
            self is ListingDevices || self is UpdatingDevice || self is DeletingDevice
                || self is Rekeying || self is Disconnecting || self is Kicking
                || self is Expelling || self is FindingDevice || self is PushingDevice
                || self is Moving,
        ensures
            self.resumed(*db, reply, fresh, step),
    {
        match self {
            RoomRequest::ListingDevices => match reply {
                Reply::Rows(rows) => match devices::read_devices(&rows) {
                    Some(list) => Step::Done(Ok(Body::Devices(list))),
                    None => Step::Done(Err(StatusCode::InternalServerError)),
                },
                _ => Step::Done(Err(StatusCode::InternalServerError)),
            },
            RoomRequest::UpdatingDevice { inner } => {
                let sub = inner.resume(reply);
                assert(inner.resumed(reply, sub));
                RoomRequest::update_device(sub)
            },
            RoomRequest::DeletingDevice { device_id, inner } => {
                let sub = inner.resume(reply);
                assert(inner.resumed(reply, sub));
                RoomRequest::delete_device(device_id, sub)
            },
            RoomRequest::Rekeying { device_id, token } => match flow::affected(reply) {
                None => Step::Done(Err(StatusCode::NotFound)),
                Some(_) => Step::Ask(
                    RoomRequest::Disconnecting { body: Body::DeviceToken(token) },
                    Call::Unregister { device_id },
                ),
            },
            RoomRequest::Disconnecting { body } => Step::Done(Ok(body)),
            RoomRequest::Kicking { device_id } => match flow::affected(reply) {
                None => Step::Done(Err(StatusCode::InternalServerError)),
                Some(n) => if n == 0 {
                    Step::Done(Err(StatusCode::NotFound))
                } else {
                    Step::Ask(
                        RoomRequest::Expelling,
                        Call::Expel {
                            device_id,
                            message: ServerMessage::Kick {
                                reason: "kicked by console".to_string(),
                            },
                        },
                    )
                },
            },
            RoomRequest::FindingDevice { device_id } => match decide_presence(reply) {
                Err(status) => Step::Done(Err(status)),
                Ok(()) => {
                    let sub = push::push_config_to_device(db, device_id, None);
                    assert(PushConfig::started(device_id, None, sub));
                    RoomRequest::push_device(sub)
                },
            },
            RoomRequest::PushingDevice { inner } => {
                let sub = inner.resume(db, reply, fresh);
                assert(inner.resumed(*db, reply, fresh, sub));
                RoomRequest::push_device(sub)
            },
            RoomRequest::Moving { inner } => {
                let sub = inner.resume(reply);
                assert(inner.resumed(reply, sub));
                RoomRequest::move_device(sub)
            },
            _ => Step::Done(Ok(Body::Done)),
        }
    }

    fn resume_group(self, db: &Database, reply: Reply, fresh: Fresh) -> (step: RoomStep)
        requires
            self is ListingGroups || self is CreatingGroup || self is UpdatingGroup
                || self is DeletingGroup || self is FindingGroup || self is Gathering
                || self is PushingGroup,
        ensures
            self.resumed(*db, reply, fresh, step),
    {
        match self {
            RoomRequest::ListingGroups { inner } => {
                let sub = inner.resume(db, reply);
                assert(inner.resumed(*db, reply, sub));
                RoomRequest::list_groups(sub)
            },
            RoomRequest::CreatingGroup { inner } => {
                let sub = inner.resume(db, reply, fresh);
                assert(inner.resumed(*db, reply, fresh, sub));
                RoomRequest::create_group(sub)
            },
            RoomRequest::UpdatingGroup { inner } => {
                let sub = inner.resume(db, reply, fresh);
                assert(inner.resumed(*db, reply, fresh, sub));
                RoomRequest::update_group(sub)
            },
            RoomRequest::DeletingGroup { inner } => {
                let sub = inner.resume(reply);
                assert(inner.resumed(reply, sub));
                RoomRequest::delete_group(sub)
            },
            RoomRequest::FindingGroup { room_id, group_id } => match decide_presence(reply) {
                Err(status) => Step::Done(Err(status)),
                Ok(()) => {
                    let query = db.group_members(room_id.as_str(), group_id.as_str());
                    Step::Ask(RoomRequest::Gathering { group_id }, Call::Fetch(query))
                },
            },
            RoomRequest::Gathering { group_id } => match flow::rows(reply) {
                None => Step::Done(Err(StatusCode::InternalServerError)),
                Some(rows) => match read_identifiers(&rows) {
                    None => Step::Done(Err(StatusCode::InternalServerError)),
                    Some(ids) => RoomRequest::serve(db, group_id, ids, 0),
                },
            },
            RoomRequest::PushingGroup { group_id, pending, pushed, inner } => {
                let sub = inner.resume(db, reply, fresh);
                assert(inner.resumed(*db, reply, fresh, sub));
                match sub {
                    Step::Ask(inner, call) => Step::Ask(
                        RoomRequest::PushingGroup { group_id, pending, pushed, inner },
                        call,
                    ),
                    Step::Done(Err(status)) => Step::Done(Err(status)),
                    Step::Done(Ok(reached)) => {
                        let count: u64 = if reached && pushed < u64::MAX {
                            pushed + 1
                        } else {
                            pushed
                        };
                        RoomRequest::serve(db, group_id, pending, count)
                    },
                }
            },
            _ => Step::Done(Err(StatusCode::InternalServerError)),
        }
    }

    /// Takes the reply and goes on.
    pub fn resume(self, db: &Database, reply: Reply, fresh: Fresh) -> (step: RoomStep)
        ensures
            self.resumed(*db, reply, fresh, step),
    {
        match self {
            RoomRequest::Checking { admin, user_id, room_id, action } => match decide_access(
                admin,
                reply,
            ) {
                Err(status) => Step::Done(Err(status)),
                Ok(()) => {
                    if !admin {
                        if let Some(query) = build_guard(db, &action, user_id.as_str()) {
                            return Step::Ask(
                                RoomRequest::Guarding { room_id, action },
                                Call::Fetch(query),
                            );
                        }
                    }
                    RoomRequest::begin(db, room_id, action, fresh)
                },
            },
            RoomRequest::Guarding { room_id, action } => match flow::count(reply) {
                None => Step::Done(answer_failed(&action)),
                Some(n) => if n > 0 {
                    Step::Done(answer_spared(&action, fresh.secret))
                } else {
                    RoomRequest::begin(db, room_id, action, fresh)
                },
            },
            RoomRequest::DeletingRoom { inner } => {
                let sub = inner.resume(reply);
                assert(inner.resumed(reply, sub));
                RoomRequest::delete_room(sub)
            },
            RoomRequest::ListingGroups { .. }
            | RoomRequest::CreatingGroup { .. }
            | RoomRequest::UpdatingGroup { .. }
            | RoomRequest::DeletingGroup { .. }
            | RoomRequest::FindingGroup { .. }
            | RoomRequest::Gathering { .. }
            | RoomRequest::PushingGroup { .. } => self.resume_group(db, reply, fresh),
            _ => self.resume_device(db, reply, fresh),
        }
    }
}

/// Begins a request for a room.
pub fn room_request(db: &Database, user: &AuthUser, room_id: String, action: RoomAction) -> (step:
    RoomStep)
    ensures
        RoomRequest::started(*user, room_id, action, step),
{
    let query = ensure_room_access(db, user, room_id.as_str());
    Step::Ask(
        RoomRequest::Checking {
            admin: user.is_admin(),
            user_id: user.id.clone(),
            room_id,
            action,
        },
        Call::Fetch(query),
    )
}

/// Who may not deal with a room changes nothing and learns nothing: a request begins with a
/// query that does not act, and where the room does not exist, or is another user's, it ends
/// there, with the status that says so.
pub proof fn law_no_access_no_action(
    user: AuthUser,
    room_id: String,
    action: RoomAction,
    first: RoomStep,
    db: Database,
    reply: Reply,
    fresh: Fresh,
    step: RoomStep,
)
    requires
        RoomRequest::started(user, room_id, action, first),
        first->Ask_0.resumed(db, reply, fresh, step),
    ensures
        !first->Ask_1.acts(),
        flow::count_of(reply) is Some && flow::count_of(reply)->Some_0 <= 0 ==> step
            == RoomStep::Done(
            Err(
                if user.admin() {
                    StatusCode::NotFound
                } else {
                    StatusCode::Forbidden
                },
            ),
        ),
        flow::count_of(reply) is None ==> step == RoomStep::Done(
            Err(StatusCode::InternalServerError),
        ),
{
}

/// The device that an action deals with only where it is in the room.
pub open spec fn device_named(action: RoomAction) -> Option<String> {
    match action {
        RoomAction::UpdateDevice { device_id, .. } => Some(device_id),
        RoomAction::KickDevice { device_id } => Some(device_id),
        RoomAction::PushDevice { device_id } => Some(device_id),
        RoomAction::MoveDevice { device_id, .. } => Some(device_id),
        _ => None,
    }
}

/// Whether a reply says that nothing was found or changed.
pub open spec fn found_none(reply: Reply) -> bool {
    ||| flow::count_of(reply) == Some(0i64)
    ||| flow::row_of(reply) == Some(None::<Seq<SqlValue>>)
    ||| flow::affected_of(reply) == Some(0u64)
}

/// Whether a call acts only on a device of a room: it does not act at all, or it runs one
/// statement to which the device and the room are bound.
pub open spec fn confined(call: Call, device_id: Seq<char>, room_id: Seq<char>) -> bool {
    call.acts() ==> call is Execute && call->Execute_0@.params.contains(SqlView::Text(device_id))
        && call->Execute_0@.params.contains(SqlView::Text(room_id))
}

/// A device is changed, kicked, moved or sent its configuration only through its own room: the
/// first call of such an action is confined to the room, and where it finds or changes nothing the
/// request ends there, and nothing is stored, sent or forgotten on its behalf.
pub proof fn law_devices_of_other_rooms_stay_untouched(
    room_id: String,
    action: RoomAction,
    begun_with: Fresh,
    first: RoomStep,
    db: Database,
    reply: Reply,
    fresh: Fresh,
    step: RoomStep,
)
    requires
        device_named(action) is Some,
        RoomRequest::begun(room_id, action, begun_with, first),
        first->Ask_0.resumed(db, reply, fresh, step),
    ensures
        first is Ask,
        confined(first->Ask_1, device_named(action)->Some_0@, room_id@),
        found_none(reply) ==> step is Done,
{
    let device = device_named(action)->Some_0;
    if first->Ask_1 is Execute {
        let params = first->Ask_1->Execute_0@.params;
        match action {
            RoomAction::KickDevice { .. } => {
                assert(params[0] == SqlView::Text(device@));
                assert(params[1] == SqlView::Text(room_id@));
            },
            RoomAction::MoveDevice { .. } => {
                assert(params[1] == SqlView::Text(device@));
                assert(params[2] == SqlView::Text(room_id@));
            },
            _ => {},
        }
    }
}

/// Only an administrator reaches what another user owns. Where anyone else wants a device deleted
/// or its token renewed, or a device to join a group, it is first counted whether the device or
/// the group is another user's; where it is, the request ends with that count: nothing is deleted,
/// stored, sent or forgotten.
pub proof fn law_what_others_own_stays_untouched(
    user: AuthUser,
    room_id: String,
    action: RoomAction,
    first: RoomStep,
    db: Database,
    access: Reply,
    granted_with: Fresh,
    second: RoomStep,
    owners: Reply,
    fresh: Fresh,
    step: RoomStep,
)
    requires
        !user.admin(),
        guard_query(action, user.id@) is Some,
        RoomRequest::started(user, room_id, action, first),
        first->Ask_0.resumed(db, access, granted_with, second),
        second is Ask,
        second->Ask_0.resumed(db, owners, fresh, step),
    ensures
        !first->Ask_1.acts(),
        !second->Ask_1.acts(),
        second->Ask_1.fetches(guard_query(action, user.id@)->Some_0),
        flow::count_of(owners) is None ==> step == RoomStep::Done(failure_of(action)),
        flow::count_of(owners) is Some && flow::count_of(owners)->Some_0 > 0 ==> step
            == RoomStep::Done(spared(action, fresh.secret)),
{
}

/// A device is kicked before it is told, and only one of the room: the farewell is sent only
/// after the room's device was marked.
pub proof fn law_farewell_follows_the_mark(
    device_id: String,
    db: Database,
    reply: Reply,
    fresh: Fresh,
    step: RoomStep,
)
    requires
        (RoomRequest::Kicking { device_id }).resumed(db, reply, fresh, step),
    ensures
        step is Ask ==> flow::affected_of(reply) is Some && flow::affected_of(reply)->Some_0 > 0,
        step is Done ==> step->Done_0 is Err,
{
}

} // verus!

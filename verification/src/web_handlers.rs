//! What this process answers over HTTP: Trello's reports about the to-do
//! board, and probes that ask whether anybody is listening.

use vstd::prelude::*;
use vstd::string::*;
use crate::http::Method;
use crate::persistent_info::{callback_path, todo_board_path, PersistentInfo, PersistentInfoView};
use crate::trello::{TrelloBoard, TrelloBoardView};

verus! {

/// What Trello sends when the tracked board has changed: the board as it
/// is now.
#[derive(Debug)]
pub struct TrelloBoardResponse {
    model: TrelloBoard,
}

impl View for TrelloBoardResponse {
    type V = TrelloBoardView;

    closed spec fn view(&self) -> TrelloBoardView {
        self.model@
    }
}

impl TrelloBoardResponse {
    /// A report that says the board is now `model`.
    pub fn new(model: TrelloBoard) -> (payload: TrelloBoardResponse)
        ensures
            payload@ == model@,
    {
        TrelloBoardResponse { model }
    }

    /// The board that the report carries.
    pub fn model(&self) -> (model: TrelloBoard)
        ensures
            model@ == self@,
    {
        self.model.clone()
    }
}

/// The status that every answer of this process carries.
pub const OK: u16 = 200;

/// The session after a report that carries `payload`: the tracked board is
/// the reported one, whole; host, port and client are as before.
pub open spec fn after_delivery(info: PersistentInfoView, payload: TrelloBoardView) -> PersistentInfoView {
    PersistentInfoView { todo_board: payload, ..info }
}

/// The session after the reports `payloads`, taken one after the other.
pub open spec fn after_deliveries(info: PersistentInfoView, payloads: Seq<TrelloBoardView>) -> PersistentInfoView
    decreases payloads.len(),
{
    if payloads.len() == 0 {
        info
    } else {
        after_delivery(after_deliveries(info, payloads.drop_last()), payloads.last())
    }
}

/// Takes a report about the to-do board: the reported board replaces the
/// tracked one, whatever its id, and the answer is 200. The caller holds
/// the session exclusively for the length of the call.
pub fn todo_board_handler(info: &mut PersistentInfo, payload: &TrelloBoardResponse) -> (status: u16)
    ensures
        final(info)@ == after_delivery(old(info)@, payload@),
        status == OK,
{
    info.replace_board(payload.model());
    OK
}

/// A report that comes a second time changes nothing: the session is the
/// same after one delivery as after two.
pub proof fn lemma_delivery_is_idempotent(info: PersistentInfoView, payload: TrelloBoardView)
    ensures
        after_delivery(after_delivery(info, payload), payload) == after_delivery(info, payload),
{
}

/// However many reports come, in whatever order they are taken, the
/// session afterwards tracks one of the reported boards, whole (the one
/// taken last), and never a blend of two; host, port and client are
/// untouched.
pub proof fn lemma_deliveries_leave_one_board(info: PersistentInfoView, payloads: Seq<TrelloBoardView>)
    requires
        payloads.len() > 0,
    ensures
        after_deliveries(info, payloads).todo_board == payloads.last(),
        payloads.contains(after_deliveries(info, payloads).todo_board),
        after_deliveries(info, payloads) == after_delivery(info, payloads.last()),
    decreases payloads.len(),
{
    let earlier = payloads.drop_last();
    if earlier.len() > 0 {
        lemma_deliveries_leave_one_board(info, earlier);
    } else {
        assert(after_deliveries(info, earlier) == info);
    }
    assert(payloads[payloads.len() - 1] == payloads.last());
}

/// What answers a request.
#[derive(Clone, Copy, Debug, PartialEq, Eq, Structural)]
pub enum Endpoint {
    /// [`todo_board_handler`], on the report in the request's body.
    TodoBoard,
    /// Nothing but the status 200: the request only asks whether the
    /// process listens.
    Alive,
}

/// One line of the routing table.
#[derive(Debug)]
pub struct Route {
    pub method: Method,
    pub path: String,
    pub endpoint: Endpoint,
}

/// What a [`Route`] is in contracts.
pub struct RouteView {
    pub method: Method,
    pub path: Seq<char>,
    pub endpoint: Endpoint,
}

impl View for Route {
    type V = RouteView;

    open spec fn view(&self) -> RouteView {
        RouteView { method: self.method, path: self.path@, endpoint: self.endpoint }
    }
}

/// The path of the probe by which this process finds out whether it
/// listens.
pub open spec fn root_path() -> Seq<char> {
    "/"@
}

/// The routing table: reports are posted to the callback path; a `HEAD`
/// on that path or on the root is a probe.
pub open spec fn route_table() -> Seq<RouteView> {
    seq![
        RouteView { method: Method::Post, path: callback_path(), endpoint: Endpoint::TodoBoard },
        RouteView { method: Method::Head, path: callback_path(), endpoint: Endpoint::Alive },
        RouteView { method: Method::Head, path: root_path(), endpoint: Endpoint::Alive },
    ]
}

/// The views of `routes`, in order.
pub open spec fn route_views(routes: Seq<Route>) -> Seq<RouteView> {
    Seq::new(routes.len(), |i: int| routes[i]@)
}

/// The routes that the listener serves.
pub fn routes() -> (table: Vec<Route>)
    ensures
        route_views(table@) == route_table(),
{
    let mut table: Vec<Route> = Vec::new();
    table.push(
        Route {
            method: Method::Post,
            path: String::from_str(todo_board_path()),
            endpoint: Endpoint::TodoBoard,
        },
    );
    table.push(
        Route {
            method: Method::Head,
            path: String::from_str(todo_board_path()),
            endpoint: Endpoint::Alive,
        },
    );
    table.push(Route { method: Method::Head, path: String::from_str("/"), endpoint: Endpoint::Alive });
    assert(route_views(table@) =~= route_table());
    table
}

} // verus!

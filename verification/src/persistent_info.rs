//! The state of a running session: the board that is tracked, and where
//! Trello can reach this process.

use vstd::prelude::*;
use vstd::string::*;
use crate::http::{Method, Request, RequestView};
use crate::text::{decimal, u16_to_decimal};
use crate::trello::{webhook_url, TrelloAPI, TrelloAPIView, TrelloBoard, TrelloBoardView};

verus! {

/// The path under which this process takes Trello's reports about the
/// to-do board.
pub open spec fn callback_path() -> Seq<char> {
    "/trellocallbacks/todo-board"@
}

/// The address that Trello is to report to: plain HTTP, the host under
/// which this process is reached from outside, its port, and the callback
/// path.
pub open spec fn callback_url(ip: Seq<char>, port: u16) -> Seq<char> {
    "http://"@ + ip + ":"@ + decimal(port as nat) + callback_path()
}

/// Everything a handler needs: the tracked board, the host and port under
/// which Trello reaches this process, and the Trello client.
#[derive(Debug)]
pub struct PersistentInfo {
    pub todo_board: TrelloBoard,
    pub ip: String,
    pub port: u16,
    trello_api: TrelloAPI,
}

/// What a [`PersistentInfo`] is in contracts.
pub struct PersistentInfoView {
    pub todo_board: TrelloBoardView,
    pub ip: Seq<char>,
    pub port: u16,
    pub trello_api: TrelloAPIView,
}

impl View for PersistentInfo {
    type V = PersistentInfoView;

    closed spec fn view(&self) -> PersistentInfoView {
        PersistentInfoView {
            todo_board: self.todo_board@,
            ip: self.ip@,
            port: self.port,
            trello_api: self.trello_api@,
        }
    }
}

impl Clone for PersistentInfo {
    fn clone(&self) -> (copy: PersistentInfo)
        ensures
            copy == *self,
    {
        PersistentInfo {
            todo_board: self.todo_board.clone(),
            ip: self.ip.clone(),
            port: self.port,
            trello_api: self.trello_api.clone(),
        }
    }
}

/// The path under which this process takes Trello's reports about the
/// to-do board.
pub fn todo_board_path() -> (path: &'static str)
    ensures
        path@ == callback_path(),
{
    "/trellocallbacks/todo-board"
}

impl PersistentInfo {
    /// The state of a session that tracks `todo_board` and is reached from
    /// outside under `ip` and `port`.
    pub fn new(todo_board: &TrelloBoard, trello_api: &TrelloAPI, ip: &str, port: u16) -> (info:
        PersistentInfo)
        ensures
            info@ == (PersistentInfoView {
                todo_board: todo_board@,
                ip: ip@,
                port,
                trello_api: trello_api@,
            }),
    {
        PersistentInfo {
            todo_board: todo_board.clone(),
            trello_api: trello_api.clone(),
            ip: ip.to_owned(),
            port,
        }
    }

    /// The board that is tracked now.
    pub fn tracked_board(&self) -> (board: TrelloBoard)
        ensures
            board@ == self@.todo_board,
    {
        self.todo_board.clone()
    }

    /// The host under which Trello reaches this process.
    pub fn ip(&self) -> (ip: String)
        ensures
            ip@ == self@.ip,
    {
        self.ip.clone()
    }

    /// The port on which this process listens.
    pub fn port(&self) -> (port: u16)
        ensures
            port == self@.port,
    {
        self.port
    }

    /// Tracks `board` from now on, in place of the board tracked so far.
    /// Nothing of the old board is kept and nothing else changes.
    pub fn replace_board(&mut self, board: TrelloBoard)
        ensures
            final(self)@ == (PersistentInfoView { todo_board: board@, ..old(self)@ }),
    {
        self.todo_board = board;
    }

    /// The address that Trello is to report changes of the board to.
    pub fn callback_url(&self) -> (url: String)
        ensures
            url@ == callback_url(self@.ip, self@.port),
    {
        let mut url = String::from_str("http://");
        url.append(self.ip.as_str());
        url.append(":");
        url.append(u16_to_decimal(self.port).as_str());
        url.append(todo_board_path());
        url
    }

    /// The request that sets up the webhooks of a session: Trello is to
    /// report every change of the tracked board to the callback address.
    pub fn setup_webhooks(&self) -> (request: Request)
        ensures
            request@ == (RequestView {
                method: Method::Post,
                url: webhook_url(
                    self@.trello_api,
                    callback_url(self@.ip, self@.port),
                    self@.todo_board.id,
                ),
            }),
    {
        let callback = self.callback_url();
        let board_id = self.todo_board.id();
        self.trello_api.setup_webhook(callback.as_str(), board_id.as_str())
    }
}

} // verus!

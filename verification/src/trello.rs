//! Trello's records, and the client that words the requests for them.

use vstd::prelude::*;
use vstd::std_specs::cmp::PartialEqSpecImpl;
use vstd::string::*;
use crate::http::{Method, Request, RequestView};

verus! {

/// A Trello board.
#[derive(Debug)]
pub struct TrelloBoard {
    id: String,
    name: String,
    url: String,
}

/// What a [`TrelloBoard`] is in contracts.
pub struct TrelloBoardView {
    pub id: Seq<char>,
    pub name: Seq<char>,
    pub url: Seq<char>,
}

impl View for TrelloBoard {
    type V = TrelloBoardView;

    closed spec fn view(&self) -> TrelloBoardView {
        TrelloBoardView { id: self.id@, name: self.name@, url: self.url@ }
    }
}

impl TrelloBoard {
    /// A board with the given id, name and address.
    pub fn new(id: String, name: String, url: String) -> (board: TrelloBoard)
        ensures
            board@ == (TrelloBoardView { id: id@, name: name@, url: url@ }),
    {
        TrelloBoard { id, name, url }
    }

    /// The board's id.
    pub fn id(&self) -> (id: String)
        ensures
            id@ == self@.id,
    {
        self.id.clone()
    }

    /// The board's name.
    pub fn name(&self) -> (name: String)
        ensures
            name@ == self@.name,
    {
        self.name.clone()
    }

    /// The board's address.
    pub fn url(&self) -> (url: String)
        ensures
            url@ == self@.url,
    {
        self.url.clone()
    }
}

impl Clone for TrelloBoard {
    fn clone(&self) -> (copy: TrelloBoard)
        ensures
            copy == *self,
    {
        TrelloBoard { id: self.id.clone(), name: self.name.clone(), url: self.url.clone() }
    }
}

/// Two boards are the same board when their ids are equal, whatever their
/// names and addresses say.
impl PartialEq for TrelloBoard {
    fn eq(&self, other: &TrelloBoard) -> (same: bool) {
        self.id == other.id
    }
}

impl PartialEqSpecImpl for TrelloBoard {
    open spec fn obeys_eq_spec() -> bool {
        true
    }

    open spec fn eq_spec(&self, other: &TrelloBoard) -> bool {
        self@.id == other@.id
    }
}

impl Eq for TrelloBoard {

}

/// A list on a Trello board.
#[derive(Debug)]
pub struct TrelloList {
    id: String,
    name: String,
}

/// What a [`TrelloList`] is in contracts.
pub struct TrelloListView {
    pub id: Seq<char>,
    pub name: Seq<char>,
}

impl View for TrelloList {
    type V = TrelloListView;

    closed spec fn view(&self) -> TrelloListView {
        TrelloListView { id: self.id@, name: self.name@ }
    }
}

impl TrelloList {
    /// A list with the given id and name.
    pub fn new(id: String, name: String) -> (list: TrelloList)
        ensures
            list@ == (TrelloListView { id: id@, name: name@ }),
    {
        TrelloList { id, name }
    }

    /// The list's id.
    pub fn id(&self) -> (id: String)
        ensures
            id@ == self@.id,
    {
        self.id.clone()
    }

    /// The list's name.
    pub fn name(&self) -> (name: String)
        ensures
            name@ == self@.name,
    {
        self.name.clone()
    }
}

/// A card on a Trello list.
#[derive(Debug)]
pub struct TrelloCard {
    id: String,
    name: String,
    members: Vec<String>,
}

/// What a [`TrelloCard`] is in contracts. The members are ids of Trello
/// accounts, in the order in which Trello gave them.
pub struct TrelloCardView {
    pub id: Seq<char>,
    pub name: Seq<char>,
    pub members: Seq<Seq<char>>,
}

impl View for TrelloCard {
    type V = TrelloCardView;

    closed spec fn view(&self) -> TrelloCardView {
        TrelloCardView { id: self.id@, name: self.name@, members: self.members.deep_view() }
    }
}

impl TrelloCard {
    /// A card with the given id, name and member ids.
    pub fn new(id: String, name: String, members: Vec<String>) -> (card: TrelloCard)
        ensures
            card@ == (TrelloCardView { id: id@, name: name@, members: members.deep_view() }),
    {
        TrelloCard { id, name, members }
    }

    /// The card's id.
    pub fn id(&self) -> (id: String)
        ensures
            id@ == self@.id,
    {
        self.id.clone()
    }

    /// The card's name.
    pub fn name(&self) -> (name: String)
        ensures
            name@ == self@.name,
    {
        self.name.clone()
    }

    /// The ids of the card's members.
    pub fn members(&self) -> (members: Vec<String>)
        ensures
            members.deep_view() == self@.members,
    {
        let members = self.members.clone();
        assert(members.deep_view() =~= self.members.deep_view());
        members
    }
}

/// A Trello account.
#[derive(Debug)]
pub struct TrelloMember {
    id: String,
    username: String,
}

/// What a [`TrelloMember`] is in contracts.
pub struct TrelloMemberView {
    pub id: Seq<char>,
    pub username: Seq<char>,
}

impl View for TrelloMember {
    type V = TrelloMemberView;

    closed spec fn view(&self) -> TrelloMemberView {
        TrelloMemberView { id: self.id@, username: self.username@ }
    }
}

impl TrelloMember {
    /// An account with the given id and user name.
    pub fn new(id: String, username: String) -> (member: TrelloMember)
        ensures
            member@ == (TrelloMemberView { id: id@, username: username@ }),
    {
        TrelloMember { id, username }
    }

    /// The member's id.
    pub fn id(&self) -> (id: String)
        ensures
            id@ == self@.id,
    {
        self.id.clone()
    }

    /// The member's user name.
    pub fn username(&self) -> (username: String)
        ensures
            username@ == self@.username,
    {
        self.username.clone()
    }
}

impl Clone for TrelloMember {
    fn clone(&self) -> (copy: TrelloMember)
        ensures
            copy == *self,
    {
        TrelloMember { id: self.id.clone(), username: self.username.clone() }
    }
}

/// Where Trello answers.
pub open spec fn api_root() -> Seq<char> {
    "https://api.trello.com/1"@
}

/// The query parameters that carry the credentials: `key=` and the key,
/// then `&token=` and the token.
pub open spec fn credentials(api: TrelloAPIView) -> Seq<char> {
    "key="@ + api.key + "&token="@ + api.token
}

/// The address that lists the boards of the account.
pub open spec fn boards_url(api: TrelloAPIView) -> Seq<char> {
    api_root() + "/members/me/boards?fields=name,url&"@ + credentials(api)
}

/// The address that lists the lists of the board with id `board_id`.
pub open spec fn lists_url(api: TrelloAPIView, board_id: Seq<char>) -> Seq<char> {
    api_root() + "/boards/"@ + board_id + "/lists?"@ + credentials(api)
}

/// The address that lists every card the account can see.
pub open spec fn cards_url(api: TrelloAPIView) -> Seq<char> {
    api_root() + "/members/me/cards?"@ + credentials(api) + "&members=true"@
}

/// The address that lists the cards of the list with id `list_id`.
pub open spec fn list_cards_url(api: TrelloAPIView, list_id: Seq<char>) -> Seq<char> {
    api_root() + "/lists/"@ + list_id + "/cards?"@ + credentials(api) + "&members=true"@
}

/// The address that adds a card called `name` to the list with id `list_id`.
pub open spec fn new_card_url(api: TrelloAPIView, list_id: Seq<char>, name: Seq<char>) -> Seq<
    char,
> {
    api_root() + "/cards?"@ + credentials(api) + "&idList="@ + list_id + "&name="@ + name
}

/// The address that describes the account with id `id`.
pub open spec fn member_url(api: TrelloAPIView, id: Seq<char>) -> Seq<char> {
    api_root() + "/members/"@ + id + "?"@ + credentials(api)
}

/// The address that registers a webhook: Trello is to report every change
/// of the model with id `model_id` to `callback_url`.
pub open spec fn webhook_url(api: TrelloAPIView, callback_url: Seq<char>, model_id: Seq<char>) -> Seq<
    char,
> {
    api_root() + "/webhooks/?callbackURL="@ + callback_url + "&idModel="@ + model_id + "&"@
        + credentials(api)
}

/// The views of `boards`, in order.
pub open spec fn board_views(boards: Seq<TrelloBoard>) -> Seq<TrelloBoardView> {
    Seq::new(boards.len(), |i: int| boards[i]@)
}

/// The views of `lists`, in order.
pub open spec fn list_views(lists: Seq<TrelloList>) -> Seq<TrelloListView> {
    Seq::new(lists.len(), |i: int| lists[i]@)
}

/// The first of `boards` that is called exactly `name`, letter for letter
/// and case for case; `None` where no board is.
pub open spec fn board_named(boards: Seq<TrelloBoardView>, name: Seq<char>) -> Option<
    TrelloBoardView,
>
    decreases boards.len(),
{
    if boards.len() == 0 {
        None
    } else if boards.first().name == name {
        Some(boards.first())
    } else {
        board_named(boards.drop_first(), name)
    }
}

/// The first of `lists` that is called exactly `name`, letter for letter
/// and case for case; `None` where no list is.
pub open spec fn list_named(lists: Seq<TrelloListView>, name: Seq<char>) -> Option<TrelloListView>
    decreases lists.len(),
{
    if lists.len() == 0 {
        None
    } else if lists.first().name == name {
        Some(lists.first())
    } else {
        list_named(lists.drop_first(), name)
    }
}

/// A board that a lookup by name finds is called by that name, stands in
/// the list, and no board before it is called so; a lookup finds nothing
/// only where no board of the list is called by the name.
pub proof fn lemma_board_named(boards: Seq<TrelloBoardView>, name: Seq<char>)
    ensures
        match board_named(boards, name) {
            Some(board) => board.name == name && exists|i: int|
                0 <= i < boards.len() && #[trigger] boards[i] == board && forall|j: int|
                    0 <= j < i ==> (#[trigger] boards[j]).name != name,
            None => forall|i: int| 0 <= i < boards.len() ==> (#[trigger] boards[i]).name != name,
        },
    decreases boards.len(),
{
    if boards.len() == 0 {
    } else if boards.first().name == name {
        assert(boards[0] == boards.first());
    } else {
        let rest = boards.drop_first();
        lemma_board_named(rest, name);
        match board_named(rest, name) {
            Some(board) => {
                let i = choose|i: int|
                    0 <= i < rest.len() && #[trigger] rest[i] == board && forall|j: int|
                        0 <= j < i ==> (#[trigger] rest[j]).name != name;
                assert(boards[i + 1] == board);
                assert forall|j: int| 0 <= j < i + 1 implies (#[trigger] boards[j]).name
                    != name by {
                    if j > 0 {
                        assert(boards[j] == rest[j - 1]);
                    }
                }
            },
            None => {
                assert forall|i: int| 0 <= i < boards.len() implies (#[trigger] boards[i]).name
                    != name by {
                    if i > 0 {
                        assert(boards[i] == rest[i - 1]);
                    }
                }
            },
        }
    }
}

/// A list that a lookup by name finds is called by that name, stands in
/// the sequence, and no list before it is called so; a lookup finds
/// nothing only where no list of the sequence is called by the name.
pub proof fn lemma_list_named(lists: Seq<TrelloListView>, name: Seq<char>)
    ensures
        match list_named(lists, name) {
            Some(list) => list.name == name && exists|i: int|
                0 <= i < lists.len() && #[trigger] lists[i] == list && forall|j: int|
                    0 <= j < i ==> (#[trigger] lists[j]).name != name,
            None => forall|i: int| 0 <= i < lists.len() ==> (#[trigger] lists[i]).name != name,
        },
    decreases lists.len(),
{
    if lists.len() == 0 {
    } else if lists.first().name == name {
        assert(lists[0] == lists.first());
    } else {
        let rest = lists.drop_first();
        lemma_list_named(rest, name);
        match list_named(rest, name) {
            Some(list) => {
                let i = choose|i: int|
                    0 <= i < rest.len() && #[trigger] rest[i] == list && forall|j: int|
                        0 <= j < i ==> (#[trigger] rest[j]).name != name;
                assert(lists[i + 1] == list);
                assert forall|j: int| 0 <= j < i + 1 implies (#[trigger] lists[j]).name
                    != name by {
                    if j > 0 {
                        assert(lists[j] == rest[j - 1]);
                    }
                }
            },
            None => {
                assert forall|i: int| 0 <= i < lists.len() implies (#[trigger] lists[i]).name
                    != name by {
                    if i > 0 {
                        assert(lists[i] == rest[i - 1]);
                    }
                }
            },
        }
    }
}

/// The credentials of a Trello account. It words requests; sending them is
/// the caller's business.
#[derive(Debug)]
pub struct TrelloAPI {
    key: String,
    token: String,
}

/// What a [`TrelloAPI`] is in contracts.
pub struct TrelloAPIView {
    pub key: Seq<char>,
    pub token: Seq<char>,
}

impl View for TrelloAPI {
    type V = TrelloAPIView;

    closed spec fn view(&self) -> TrelloAPIView {
        TrelloAPIView { key: self.key@, token: self.token@ }
    }
}

impl Clone for TrelloAPI {
    fn clone(&self) -> (copy: TrelloAPI)
        ensures
            copy == *self,
    {
        TrelloAPI { key: self.key.clone(), token: self.token.clone() }
    }
}

impl TrelloAPI {
    /// A client for the account with the given key and token.
    pub fn new(key: String, token: String) -> (api: TrelloAPI)
        ensures
            api@ == (TrelloAPIView { key: key@, token: token@ }),
    {
        TrelloAPI { key, token }
    }

    /// Appends the credentials to `url` as query parameters.
    fn push_credentials(&self, url: &mut String)
        ensures
            final(url)@ == old(url)@ + credentials(self@),
    {
        url.append("key=");
        url.append(self.key.as_str());
        url.append("&token=");
        url.append(self.token.as_str());
        assert(url@ =~= old(url)@ + credentials(self@));
    }

    /// The request that lists the boards of the account.
    pub fn get_boards(&self) -> (request: Request)
        ensures
            request@ == (RequestView { method: Method::Get, url: boards_url(self@) }),
    {
        let mut url = String::from_str("https://api.trello.com/1");
        url.append("/members/me/boards?fields=name,url&");
        self.push_credentials(&mut url);
        Request { method: Method::Get, url }
    }

    /// Picks from `boards`, the answer to [`TrelloAPI::get_boards`], the first
    /// board called exactly `name`; `None` where no board is.
    pub fn get_board(&self, boards: Vec<TrelloBoard>, name: &str) -> (found: Option<TrelloBoard>)
        ensures
            match found {
                Some(board) => board_named(board_views(boards@), name@) == Some(board@),
                None => board_named(board_views(boards@), name@) is None,
            },
            found matches Some(board) ==> board@.name == name@,
            found is None <==> forall|i: int| 0 <= i < boards.len() ==> boards[i]@.name != name@,
    {
        let ghost views = board_views(boards@);
        let mut rest = boards;
        let wanted = name.to_owned();
        let mut i: usize = 0;
        assert(views.skip(0) =~= views);
        while i < rest.len()
            invariant
                rest@ == boards@,
                views == board_views(boards@),
                wanted@ == name@,
                i <= rest.len(),
                board_named(views, name@) == board_named(views.skip(i as int), name@),
                forall|j: int| 0 <= j < i ==> boards[j]@.name != name@,
            decreases rest.len() - i,
        {
            assert(views.skip(i as int).first() == boards[i as int]@);
            if rest[i].name == wanted {
                return Some(rest.remove(i));
            }
            assert(views.skip(i as int).drop_first() =~= views.skip(i + 1));
            i = i + 1;
        }
        None
    }

    /// The request that lists the lists of `board`.
    pub fn get_lists_in_board(&self, board: &TrelloBoard) -> (request: Request)
        ensures
            request@ == (RequestView { method: Method::Get, url: lists_url(self@, board@.id) }),
    {
        let mut url = String::from_str("https://api.trello.com/1");
        url.append("/boards/");
        url.append(board.id.as_str());
        url.append("/lists?");
        self.push_credentials(&mut url);
        Request { method: Method::Get, url }
    }

    /// Picks from `lists`, the answer to [`TrelloAPI::get_lists_in_board`],
    /// the first list called exactly `name`; `None` where no list is.
    pub fn get_list_in_board(&self, lists: Vec<TrelloList>, name: &str) -> (found: Option<
        TrelloList,
    >)
        ensures
            match found {
                Some(list) => list_named(list_views(lists@), name@) == Some(list@),
                None => list_named(list_views(lists@), name@) is None,
            },
            found matches Some(list) ==> list@.name == name@,
            found is None <==> forall|i: int| 0 <= i < lists.len() ==> lists[i]@.name != name@,
    {
        let ghost views = list_views(lists@);
        let mut rest = lists;
        let wanted = name.to_owned();
        let mut i: usize = 0;
        assert(views.skip(0) =~= views);
        while i < rest.len()
            invariant
                rest@ == lists@,
                views == list_views(lists@),
                wanted@ == name@,
                i <= rest.len(),
                list_named(views, name@) == list_named(views.skip(i as int), name@),
                forall|j: int| 0 <= j < i ==> lists[j]@.name != name@,
            decreases rest.len() - i,
        {
            assert(views.skip(i as int).first() == lists[i as int]@);
            if rest[i].name == wanted {
                return Some(rest.remove(i));
            }
            assert(views.skip(i as int).drop_first() =~= views.skip(i + 1));
            i = i + 1;
        }
        None
    }

    /// The request that lists every card the account can see.
    pub fn get_cards(&self) -> (request: Request)
        ensures
            request@ == (RequestView { method: Method::Get, url: cards_url(self@) }),
    {
        let mut url = String::from_str("https://api.trello.com/1");
        url.append("/members/me/cards?");
        self.push_credentials(&mut url);
        url.append("&members=true");
        Request { method: Method::Get, url }
    }

    /// The request that lists the cards of `list`.
    pub fn get_cards_in_list(&self, list: &TrelloList) -> (request: Request)
        ensures
            request@ == (RequestView { method: Method::Get, url: list_cards_url(self@, list@.id) }),
    {
        let mut url = String::from_str("https://api.trello.com/1");
        url.append("/lists/");
        url.append(list.id.as_str());
        url.append("/cards?");
        self.push_credentials(&mut url);
        url.append("&members=true");
        Request { method: Method::Get, url }
    }

    /// The request that adds a card called `name` to `list`. The name goes
    /// into the address as it is.
    pub fn add_card_to_list(&self, list: &TrelloList, name: &str) -> (request: Request)
        ensures
            request@ == (RequestView {
                method: Method::Post,
                url: new_card_url(self@, list@.id, name@),
            }),
    {
        let mut url = String::from_str("https://api.trello.com/1");
        url.append("/cards?");
        self.push_credentials(&mut url);
        url.append("&idList=");
        url.append(list.id.as_str());
        url.append("&name=");
        url.append(name);
        Request { method: Method::Post, url }
    }

    /// The request that describes the account with id `id`.
    pub fn get_user(&self, id: &str) -> (request: Request)
        ensures
            request@ == (RequestView { method: Method::Get, url: member_url(self@, id@) }),
    {
        let mut url = String::from_str("https://api.trello.com/1");
        url.append("/members/");
        url.append(id);
        url.append("?");
        self.push_credentials(&mut url);
        Request { method: Method::Get, url }
    }

    /// The request that registers a webhook: Trello is to report every
    /// change of the model with id `model_id` to `callback_url`.
    pub fn setup_webhook(&self, callback_url: &str, model_id: &str) -> (request: Request)
        ensures
            request@ == (RequestView {
                method: Method::Post,
                url: webhook_url(self@, callback_url@, model_id@),
            }),
    {
        let mut url = String::from_str("https://api.trello.com/1");
        url.append("/webhooks/?callbackURL=");
        url.append(callback_url);
        url.append("&idModel=");
        url.append(model_id);
        url.append("&");
        self.push_credentials(&mut url);
        Request { method: Method::Post, url }
    }
}

} // verus!

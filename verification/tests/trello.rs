use trello_canvas::http::Method;
use trello_canvas::trello::{TrelloAPI, TrelloBoard, TrelloCard, TrelloList, TrelloMember};

fn board(id: &str, name: &str, url: &str) -> TrelloBoard {
    TrelloBoard::new(id.to_string(), name.to_string(), url.to_string())
}

fn list(id: &str, name: &str) -> TrelloList {
    TrelloList::new(id.to_string(), name.to_string())
}

fn api() -> TrelloAPI {
    TrelloAPI::new("KEY".to_string(), "TOKEN".to_string())
}

#[test]
fn board_keeps_its_fields() {
    let b = board("b1", "To-Dos", "https://trello.com/b/b1");
    assert_eq!(b.id(), "b1");
    assert_eq!(b.name(), "To-Dos");
    assert_eq!(b.url(), "https://trello.com/b/b1");
}

#[test]
fn board_clone_keeps_every_field() {
    let b = board("b1", "To-Dos", "https://trello.com/b/b1");
    let c = b.clone();
    assert_eq!(c.id(), "b1");
    assert_eq!(c.name(), "To-Dos");
    assert_eq!(c.url(), "https://trello.com/b/b1");
}

#[test]
fn boards_are_equal_by_id() {
    assert!(board("b1", "Old", "http://x") == board("b1", "New", "http://y"));
    assert!(board("b1", "Same", "http://x") != board("b2", "Same", "http://x"));
}

#[test]
fn list_keeps_its_fields() {
    let l = list("l1", "Doing");
    assert_eq!(l.id(), "l1");
    assert_eq!(l.name(), "Doing");
}

#[test]
fn card_keeps_its_fields() {
    let c = TrelloCard::new(
        "c1".to_string(),
        "Essay".to_string(),
        vec!["m1".to_string(), "m2".to_string()],
    );
    assert_eq!(c.id(), "c1");
    assert_eq!(c.name(), "Essay");
    assert_eq!(c.members(), vec!["m1".to_string(), "m2".to_string()]);
}

#[test]
fn card_without_members() {
    let c = TrelloCard::new("c1".to_string(), "Essay".to_string(), Vec::new());
    assert!(c.members().is_empty());
}

#[test]
fn member_keeps_its_fields() {
    let m = TrelloMember::new("m1".to_string(), "ada".to_string());
    assert_eq!(m.id(), "m1");
    assert_eq!(m.username(), "ada");
    let n = m.clone();
    assert_eq!(n.id(), "m1");
    assert_eq!(n.username(), "ada");
}

#[test]
fn boards_request() {
    let r = api().get_boards();
    assert_eq!(r.method, Method::Get);
    assert_eq!(
        r.url,
        "https://api.trello.com/1/members/me/boards?fields=name,url&key=KEY&token=TOKEN"
    );
}

#[test]
fn lists_request() {
    let r = api().get_lists_in_board(&board("b1", "To-Dos", "http://x"));
    assert_eq!(r.method, Method::Get);
    assert_eq!(r.url, "https://api.trello.com/1/boards/b1/lists?key=KEY&token=TOKEN");
}

#[test]
fn cards_request() {
    let r = api().get_cards();
    assert_eq!(r.method, Method::Get);
    assert_eq!(r.url, "https://api.trello.com/1/members/me/cards?key=KEY&token=TOKEN&members=true");
}

#[test]
fn cards_in_list_request() {
    let r = api().get_cards_in_list(&list("l1", "Doing"));
    assert_eq!(r.method, Method::Get);
    assert_eq!(r.url, "https://api.trello.com/1/lists/l1/cards?key=KEY&token=TOKEN&members=true");
}

#[test]
fn add_card_request() {
    let r = api().add_card_to_list(&list("l1", "Doing"), "Essay");
    assert_eq!(r.method, Method::Post);
    assert_eq!(r.url, "https://api.trello.com/1/cards?key=KEY&token=TOKEN&idList=l1&name=Essay");
}

#[test]
fn add_card_request_takes_the_name_as_it_is() {
    let r = api().add_card_to_list(&list("l1", "Doing"), "Read ch. 3 & 4");
    assert_eq!(
        r.url,
        "https://api.trello.com/1/cards?key=KEY&token=TOKEN&idList=l1&name=Read ch. 3 & 4"
    );
}

#[test]
fn user_request() {
    let r = api().get_user("m1");
    assert_eq!(r.method, Method::Get);
    assert_eq!(r.url, "https://api.trello.com/1/members/m1?key=KEY&token=TOKEN");
}

#[test]
fn webhook_request() {
    let r = api().setup_webhook("http://203.0.113.5:9000/trellocallbacks/todo-board", "abc123");
    assert_eq!(r.method, Method::Post);
    assert_eq!(
        r.url,
        "https://api.trello.com/1/webhooks/?callbackURL=http://203.0.113.5:9000/trellocallbacks/todo-board&idModel=abc123&key=KEY&token=TOKEN"
    );
}

#[test]
fn requests_with_empty_credentials() {
    let r = TrelloAPI::new(String::new(), String::new()).get_boards();
    assert_eq!(r.url, "https://api.trello.com/1/members/me/boards?fields=name,url&key=&token=");
}

#[test]
fn board_lookup_finds_the_board_called_so() {
    let boards = vec![
        board("b1", "Groceries", "http://1"),
        board("b2", "To-Dos", "http://2"),
        board("b3", "Work", "http://3"),
    ];
    let found = api().get_board(boards, "To-Dos").expect("a board");
    assert_eq!(found.name(), "To-Dos");
    assert_eq!(found.id(), "b2");
    assert_eq!(found.url(), "http://2");
}

#[test]
fn board_lookup_takes_the_first_of_two() {
    let boards = vec![
        board("b1", "Work", "http://1"),
        board("b2", "To-Dos", "http://2"),
        board("b3", "To-Dos", "http://3"),
    ];
    let found = api().get_board(boards, "To-Dos").expect("a board");
    assert_eq!(found.id(), "b2");
}

#[test]
fn board_lookup_is_case_sensitive_and_exact() {
    let names = ["to-dos", "TO-DOS", "To-Dos ", " To-Dos", "To-Do", "To-Doss", ""];
    for name in names {
        let boards = vec![board("b1", "To-Dos", "http://1")];
        assert!(api().get_board(boards, name).is_none(), "{:?}", name);
    }
}

#[test]
fn board_lookup_returns_absence_for_an_unknown_name() {
    let boards = vec![board("b1", "Groceries", "http://1"), board("b2", "Work", "http://2")];
    assert!(api().get_board(boards, "To-Dos").is_none());
}

#[test]
fn board_lookup_in_an_empty_list() {
    assert!(api().get_board(Vec::new(), "To-Dos").is_none());
}

#[test]
fn board_lookup_result_always_carries_the_queried_name() {
    let names = ["A", "B", "a", "To-Dos", "C"];
    for wanted in ["A", "B", "a", "To-Dos", "C", "D", "b"] {
        let boards: Vec<TrelloBoard> = names
            .iter()
            .enumerate()
            .map(|(i, n)| board(&format!("b{}", i), n, "http://x"))
            .collect();
        match api().get_board(boards, wanted) {
            Some(found) => assert_eq!(found.name(), wanted),
            None => assert!(!names.contains(&wanted)),
        }
    }
}

#[test]
fn list_lookup_finds_the_first_list_called_so() {
    let lists = vec![list("l1", "Done"), list("l2", "Doing"), list("l3", "Doing")];
    let found = api().get_list_in_board(lists, "Doing").expect("a list");
    assert_eq!(found.id(), "l2");
    assert_eq!(found.name(), "Doing");
}

#[test]
fn list_lookup_returns_absence() {
    let lists = vec![list("l1", "Done"), list("l2", "Doing")];
    assert!(api().get_list_in_board(lists, "doing").is_none());
    assert!(api().get_list_in_board(Vec::new(), "Doing").is_none());
}

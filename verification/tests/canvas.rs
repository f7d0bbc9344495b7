use trello_canvas::canvas::{
    CanvasAPI, CanvasAssignment, CanvasCourse, CanvasError, CanvasTodo, PartialCanvasAssignment,
    PartialCanvasTodo, Timestamp,
};
use trello_canvas::http::Method;

fn partial(name: &str, due_at: Option<&str>, html_url: &str) -> PartialCanvasAssignment {
    PartialCanvasAssignment {
        name: name.to_string(),
        due_at: due_at.map(|text| text.to_string()),
        html_url: html_url.to_string(),
    }
}

fn entry(assignment: Option<PartialCanvasAssignment>) -> PartialCanvasTodo {
    PartialCanvasTodo { assignment }
}

#[test]
fn course_keeps_its_fields() {
    let c = CanvasCourse::new("Algebra".to_string(), 4711);
    assert_eq!(c.id(), 4711);
    assert_eq!(c.name(), "Algebra");
    let d = CanvasCourse::new(String::new(), -1);
    assert_eq!(d.id(), -1);
    assert_eq!(d.name(), "");
}

#[test]
fn courses_request() {
    let r = CanvasAPI::new("SECRET".to_string()).get_courses();
    assert_eq!(r.method, Method::Get);
    assert_eq!(r.url, "https://ames.instructure.com/api/v1/courses?access_token=SECRET");
}

#[test]
fn todos_request() {
    let r = CanvasAPI::new("SECRET".to_string()).get_todos();
    assert_eq!(r.method, Method::Get);
    assert_eq!(r.url, "https://ames.instructure.com/api/v1/users/self/todo?access_token=SECRET");
}

#[test]
fn assignment_reads_its_due_date_as_a_moment() {
    let a = CanvasAssignment::new(partial(
        "Essay",
        Some("2023-01-15T06:59:59Z"),
        "https://ames.instructure.com/courses/1/assignments/2",
    ))
    .expect("an assignment");
    assert_eq!(a.name(), "Essay");
    assert_eq!(a.due_date(), Some(Timestamp { seconds: 1673765999, nanos: 0 }));
    assert_eq!(a.url(), "https://ames.instructure.com/courses/1/assignments/2");
}

#[test]
fn assignment_due_date_heeds_the_offset() {
    let a = CanvasAssignment::new(partial("Essay", Some("2023-09-01T23:59:59-05:00"), "http://x/"))
        .expect("an assignment");
    assert_eq!(a.due_date(), Some(Timestamp { seconds: 1693630799, nanos: 0 }));
}

#[test]
fn assignment_due_date_keeps_fractions_of_a_second() {
    let a = CanvasAssignment::new(partial(
        "Essay",
        Some("2024-02-29T12:00:00.250+01:00"),
        "http://x/",
    ))
    .expect("an assignment");
    assert_eq!(a.due_date(), Some(Timestamp { seconds: 1709204400, nanos: 250_000_000 }));
}

#[test]
fn assignment_due_date_before_1970() {
    let a = CanvasAssignment::new(partial("Essay", Some("1969-12-31T23:59:59Z"), "http://x/"))
        .expect("an assignment");
    assert_eq!(a.due_date(), Some(Timestamp { seconds: -1, nanos: 0 }));
}

#[test]
fn assignment_due_date_in_relaxed_forms() {
    for text in [
        "2012-12-12T12:12:12Z",
        "2012-12-12 12:12:12Z",
        "2012-12-12 12:12:12+0000",
        "2012-12-12 12:12:12+00:00",
    ] {
        let a = CanvasAssignment::new(partial("Essay", Some(text), "http://x/"))
            .expect("an assignment");
        assert_eq!(a.due_date(), Some(Timestamp { seconds: 1355314332, nanos: 0 }), "{:?}", text);
    }
}

#[test]
fn assignment_without_due_date_has_no_deadline() {
    let a = CanvasAssignment::new(partial("Essay", None, "https://example.net/a"))
        .expect("an assignment");
    assert_eq!(a.due_date(), None);
    assert_eq!(a.name(), "Essay");
}

#[test]
fn assignment_address_is_put_in_normal_form() {
    let a = CanvasAssignment::new(partial("Essay", None, "https://example.net"))
        .expect("an assignment");
    assert_eq!(a.url(), "https://example.net/");
    let b = CanvasAssignment::new(partial("Essay", None, "HTTPS://Example.NET:443/a/../b"))
        .expect("an assignment");
    assert_eq!(b.url(), "https://example.net/b");
}

#[test]
fn assignment_with_a_malformed_due_date() {
    for text in ["", "tomorrow", "2023-01-15", "2023-13-01T00:00:00Z", "2023-01-15T06:59:59"] {
        let made = CanvasAssignment::new(partial("Essay", Some(text), "https://example.net/"));
        assert_eq!(made.err(), Some(CanvasError::DueDate), "{:?}", text);
    }
}

#[test]
fn assignment_with_a_malformed_address() {
    for text in ["", "not a url", "/courses/1", "//example.net/a", "http://"] {
        let made = CanvasAssignment::new(partial("Essay", Some("2023-01-15T06:59:59Z"), text));
        assert_eq!(made.err(), Some(CanvasError::Url), "{:?}", text);
        let made = CanvasAssignment::new(partial("Essay", None, text));
        assert_eq!(made.err(), Some(CanvasError::Url), "{:?}", text);
    }
}

#[test]
fn a_bad_due_date_is_reported_before_a_bad_address() {
    let made = CanvasAssignment::new(partial("Essay", Some("soon"), "nowhere"));
    assert_eq!(made.err(), Some(CanvasError::DueDate));
}

#[test]
fn assignment_from_parts_that_were_read() {
    let moment = Timestamp { seconds: 5, nanos: 6 };
    let a = CanvasAssignment::from_parts(
        "Essay".to_string(),
        Some(Some(moment)),
        Some("http://x/".to_string()),
    )
    .expect("an assignment");
    assert_eq!(a.name(), "Essay");
    assert_eq!(a.due_date(), Some(moment));
    assert_eq!(a.url(), "http://x/");
    let b = CanvasAssignment::from_parts("Quiz".to_string(), None, Some("http://y/".to_string()))
        .expect("an assignment");
    assert_eq!(b.due_date(), None);
    assert_eq!(b.url(), "http://y/");
}

#[test]
fn assignment_from_parts_that_were_not_read() {
    let moment = Timestamp { seconds: 5, nanos: 6 };
    let url = || Some("http://x/".to_string());
    assert_eq!(
        CanvasAssignment::from_parts("E".to_string(), Some(None), url()).err(),
        Some(CanvasError::DueDate)
    );
    assert_eq!(
        CanvasAssignment::from_parts("E".to_string(), Some(None), None).err(),
        Some(CanvasError::DueDate)
    );
    assert_eq!(
        CanvasAssignment::from_parts("E".to_string(), Some(Some(moment)), None).err(),
        Some(CanvasError::Url)
    );
    assert_eq!(
        CanvasAssignment::from_parts("E".to_string(), None, None).err(),
        Some(CanvasError::Url)
    );
}

#[test]
fn assignment_clone_keeps_every_field() {
    let a = CanvasAssignment::new(partial("Essay", Some("2023-01-15T06:59:59Z"), "http://x/a"))
        .expect("an assignment");
    let b = a.clone();
    assert_eq!(b.name(), "Essay");
    assert_eq!(b.due_date(), Some(Timestamp { seconds: 1673765999, nanos: 0 }));
    assert_eq!(b.url(), "http://x/a");
}

#[test]
fn todo_with_an_assignment() {
    let todo = CanvasTodo::new(entry(Some(partial("Essay", None, "http://x/a"))))
        .expect("an entry");
    let held = todo.assignment().expect("an assignment");
    assert_eq!(held.name(), "Essay");
    assert_eq!(held.url(), "http://x/a");
}

#[test]
fn todo_without_an_assignment() {
    let todo = CanvasTodo::new(entry(None)).expect("an entry");
    assert!(todo.assignment().is_none());
    assert!(CanvasTodo::from_assignment(None).assignment().is_none());
}

#[test]
fn todo_with_an_assignment_that_cannot_be_read() {
    assert_eq!(
        CanvasTodo::new(entry(Some(partial("Essay", Some("soon"), "http://x/")))).err(),
        Some(CanvasError::DueDate)
    );
    assert_eq!(
        CanvasTodo::new(entry(Some(partial("Essay", None, "nowhere")))).err(),
        Some(CanvasError::Url)
    );
}

#[test]
fn todo_list_is_read_in_order() {
    let partials = vec![
        entry(Some(partial("One", Some("2023-01-15T06:59:59Z"), "http://x/1"))),
        entry(None),
        entry(Some(partial("Three", None, "http://x/3"))),
    ];
    let todos = CanvasTodo::read_all(&partials).expect("a list");
    assert_eq!(todos.len(), 3);
    let first = todos[0].assignment().expect("an assignment");
    assert_eq!(first.name(), "One");
    assert_eq!(first.due_date(), Some(Timestamp { seconds: 1673765999, nanos: 0 }));
    assert!(todos[1].assignment().is_none());
    let third = todos[2].assignment().expect("an assignment");
    assert_eq!(third.name(), "Three");
    assert_eq!(third.url(), "http://x/3");
}

#[test]
fn empty_todo_list() {
    let todos = CanvasTodo::read_all(&Vec::new()).expect("a list");
    assert!(todos.is_empty());
}

#[test]
fn todo_list_fails_with_the_first_entry_that_cannot_be_read() {
    let partials = vec![
        entry(Some(partial("One", None, "http://x/1"))),
        entry(Some(partial("Two", None, "nowhere"))),
        entry(Some(partial("Three", Some("soon"), "http://x/3"))),
    ];
    assert_eq!(CanvasTodo::read_all(&partials).err(), Some(CanvasError::Url));
    let partials = vec![
        entry(Some(partial("One", Some("soon"), "http://x/1"))),
        entry(Some(partial("Two", None, "nowhere"))),
    ];
    assert_eq!(CanvasTodo::read_all(&partials).err(), Some(CanvasError::DueDate));
}

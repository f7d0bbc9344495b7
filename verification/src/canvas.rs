//! Canvas's records, the client that words the requests for them, and the
//! reading of what Canvas sends as text: due dates and addresses.

use vstd::prelude::*;
use vstd::string::*;
use crate::http::{Method, Request, RequestView};

verus! {

/// A Canvas course.
#[derive(Debug)]
pub struct CanvasCourse {
    name: String,
    id: i64,
}

/// What a [`CanvasCourse`] is in contracts.
pub struct CanvasCourseView {
    pub name: Seq<char>,
    pub id: i64,
}

impl View for CanvasCourse {
    type V = CanvasCourseView;

    closed spec fn view(&self) -> CanvasCourseView {
        CanvasCourseView { name: self.name@, id: self.id }
    }
}

impl CanvasCourse {
    /// A course with the given name and id.
    pub fn new(name: String, id: i64) -> (course: CanvasCourse)
        ensures
            course@ == (CanvasCourseView { name: name@, id }),
    {
        CanvasCourse { name, id }
    }

    /// The course's id.
    pub fn id(&self) -> (id: i64)
        ensures
            id == self@.id,
    {
        self.id
    }

    /// The course's name.
    pub fn name(&self) -> (name: String)
        ensures
            name@ == self@.name,
    {
        self.name.clone()
    }
}

/// A point in time: whole seconds since 1970-01-01T00:00:00Z, leap seconds
/// not counted, and the nanoseconds since that second began. During a leap
/// second `nanos` runs on past 999 999 999.
#[derive(Clone, Copy, Debug, PartialEq, Eq, Structural)]
pub struct Timestamp {
    pub seconds: i64,
    pub nanos: u32,
}

/// Why what Canvas sent could not be read.
#[derive(Clone, Copy, Debug, PartialEq, Eq, Structural)]
pub enum CanvasError {
    /// A due date is there and is no date and time.
    DueDate,
    /// The address of an assignment is no absolute URL.
    Url,
}

/// The point in time that chrono reads from `text` as a date and time with
/// an offset from UTC; `None` where chrono refuses the text.
pub uninterp spec fn parsed_timestamp(text: Seq<char>) -> Option<(i64, u32)>;

/// The normal form that the url crate gives the absolute URL `text`; `None`
/// where it refuses the text.
pub uninterp spec fn parsed_url(text: Seq<char>) -> Option<Seq<char>>;

/// chrono's reason for refusing a text. Nothing is read from it.
#[verifier::external_type_specification]
#[verifier::external_body]
pub struct ExTimestampError(chrono::ParseError);

/// The url crate's reason for refusing a text. Nothing is read from it.
#[verifier::external_type_specification]
#[verifier::external_body]
pub struct ExAddressError(url::ParseError);

/// Calls chrono's `FromStr` for `DateTime<FixedOffset>`, which reads a
/// relaxed RFC 3339 date and time, and hands back the moment it denotes as
/// `DateTime::timestamp` and `DateTime::timestamp_subsec_nanos` give it,
/// or chrono's error. Trusted: whether the text is read, and as which
/// moment, depends on the text alone.
#[verifier::external_body]
fn parse_timestamp(text: &str) -> (read: Result<(i64, u32), chrono::ParseError>)
    ensures
        match read {
            Ok(moment) => parsed_timestamp(text@) == Some(moment),
            Err(_) => parsed_timestamp(text@) is None,
        },
{
    match text.parse::<chrono::DateTime<chrono::FixedOffset>>() {
        Ok(moment) => Ok((moment.timestamp(), moment.timestamp_subsec_nanos())),
        Err(error) => Err(error),
    }
}

/// Calls `url::Url::parse` and hands back the serialization of the URL it
/// built, or the crate's error. Trusted: whether the text is read, and as
/// which URL, depends on the text alone.
#[verifier::external_body]
fn parse_url(text: &str) -> (read: Result<String, url::ParseError>)
    ensures
        match read {
            Ok(address) => parsed_url(text@) == Some(address@),
            Err(_) => parsed_url(text@) is None,
        },
{
    match url::Url::parse(text) {
        Ok(address) => Ok(String::from(address)),
        Err(error) => Err(error),
    }
}

/// The due date that stands for a moment read from text.
pub open spec fn timestamp_of(moment: Option<(i64, u32)>) -> Option<Timestamp> {
    match moment {
        Some(pair) => Some(Timestamp { seconds: pair.0, nanos: pair.1 }),
        None => None,
    }
}

/// An assignment as Canvas words it: the due date and the address are
/// still text.
#[derive(Debug)]
pub struct PartialCanvasAssignment {
    pub name: String,
    pub due_at: Option<String>,
    pub html_url: String,
}

/// What a [`PartialCanvasAssignment`] is in contracts.
pub struct PartialCanvasAssignmentView {
    pub name: Seq<char>,
    pub due_at: Option<Seq<char>>,
    pub html_url: Seq<char>,
}

impl View for PartialCanvasAssignment {
    type V = PartialCanvasAssignmentView;

    open spec fn view(&self) -> PartialCanvasAssignmentView {
        PartialCanvasAssignmentView {
            name: self.name@,
            due_at: self.due_at.deep_view(),
            html_url: self.html_url@,
        }
    }
}

impl Clone for PartialCanvasAssignment {
    fn clone(&self) -> (copy: PartialCanvasAssignment)
        ensures
            copy == *self,
    {
        PartialCanvasAssignment {
            name: self.name.clone(),
            due_at: match &self.due_at {
                Some(text) => Some(text.clone()),
                None => None,
            },
            html_url: self.html_url.clone(),
        }
    }
}

/// A Canvas assignment.
#[derive(Debug)]
pub struct CanvasAssignment {
    name: String,
    due_date: Option<Timestamp>,
    url: String,
}

/// What a [`CanvasAssignment`] is in contracts. An assignment without a
/// due date has no deadline.
pub struct CanvasAssignmentView {
    pub name: Seq<char>,
    pub due_date: Option<Timestamp>,
    pub url: Seq<char>,
}

impl View for CanvasAssignment {
    type V = CanvasAssignmentView;

    closed spec fn view(&self) -> CanvasAssignmentView {
        CanvasAssignmentView { name: self.name@, due_date: self.due_date, url: self.url@ }
    }
}

/// The assignment that a name, a due date as read and an address as read
/// make. `due_date` is `None` where Canvas sent no due date and
/// `Some(None)` where it sent one that could not be read; `url` is `None`
/// where the address could not be read. A bad due date is reported before
/// a bad address.
pub open spec fn assignment_from_parts(
    name: Seq<char>,
    due_date: Option<Option<Timestamp>>,
    url: Option<Seq<char>>,
) -> Result<CanvasAssignmentView, CanvasError> {
    if due_date == Some(None::<Timestamp>) {
        Err(CanvasError::DueDate)
    } else if url is None {
        Err(CanvasError::Url)
    } else {
        Ok(
            CanvasAssignmentView {
                name,
                due_date: if due_date is Some {
                    due_date->0
                } else {
                    None
                },
                url: url->0,
            },
        )
    }
}

/// The due date of `partial` as read: `None` where there is none.
pub open spec fn due_date_read(partial: PartialCanvasAssignmentView) -> Option<Option<Timestamp>> {
    match partial.due_at {
        Some(text) => Some(timestamp_of(parsed_timestamp(text))),
        None => None,
    }
}

/// The assignment that `partial` words, or why it words none.
pub open spec fn assignment_read(partial: PartialCanvasAssignmentView) -> Result<
    CanvasAssignmentView,
    CanvasError,
> {
    assignment_from_parts(partial.name, due_date_read(partial), parsed_url(partial.html_url))
}

/// Whether `made` is the assignment, or the failure, that `wanted` says.
pub open spec fn is_assignment(
    made: Result<CanvasAssignment, CanvasError>,
    wanted: Result<CanvasAssignmentView, CanvasError>,
) -> bool {
    match made {
        Ok(assignment) => wanted == Ok::<CanvasAssignmentView, CanvasError>(assignment@),
        Err(error) => wanted == Err::<CanvasAssignmentView, CanvasError>(error),
    }
}

impl CanvasAssignment {
    /// Puts an assignment together from its name and from what reading its
    /// due date and its address gave. `due_date` is `None` where Canvas
    /// sent no due date and `Some(None)` where the one it sent could not be
    /// read; `url` is `None` where the address could not be read.
    pub fn from_parts(name: String, due_date: Option<Option<Timestamp>>, url: Option<String>) -> (made:
        Result<CanvasAssignment, CanvasError>)
        ensures
            is_assignment(made, assignment_from_parts(name@, due_date, url.deep_view())),
    {
        let due_date = match due_date {
            Some(None) => {
                return Err(CanvasError::DueDate);
            },
            Some(Some(moment)) => Some(moment),
            None => None,
        };
        match url {
            Some(url) => Ok(CanvasAssignment { name, due_date, url }),
            None => Err(CanvasError::Url),
        }
    }

    /// Reads the assignment that `partial` words: its due date, where there
    /// is one, as a date and time with an offset from UTC, and its address
    /// as an absolute URL.
    pub fn new(partial: PartialCanvasAssignment) -> (made: Result<CanvasAssignment, CanvasError>)
        ensures
            is_assignment(made, assignment_read(partial@)),
    {
        let due_date = match &partial.due_at {
            Some(text) => {
                match parse_timestamp(text.as_str()) {
                    Ok(moment) => Some(Some(Timestamp { seconds: moment.0, nanos: moment.1 })),
                    Err(_) => Some(None),
                }
            },
            None => None,
        };
        let url = match parse_url(partial.html_url.as_str()) {
            Ok(address) => Some(address),
            Err(_) => None,
        };
        CanvasAssignment::from_parts(partial.name, due_date, url)
    }

    /// The assignment's name.
    pub fn name(&self) -> (name: String)
        ensures
            name@ == self@.name,
    {
        self.name.clone()
    }

    /// The assignment's due date; `None` where it has no deadline.
    pub fn due_date(&self) -> (due_date: Option<Timestamp>)
        ensures
            due_date == self@.due_date,
    {
        self.due_date
    }

    /// The assignment's address, in the url crate's normal form.
    pub fn url(&self) -> (url: String)
        ensures
            url@ == self@.url,
    {
        self.url.clone()
    }
}

impl Clone for CanvasAssignment {
    fn clone(&self) -> (copy: CanvasAssignment)
        ensures
            copy == *self,
    {
        CanvasAssignment { name: self.name.clone(), due_date: self.due_date, url: self.url.clone() }
    }
}

/// An entry of the to-do list as Canvas words it.
#[derive(Debug)]
pub struct PartialCanvasTodo {
    pub assignment: Option<PartialCanvasAssignment>,
}

/// What a [`PartialCanvasTodo`] is in contracts.
pub struct PartialCanvasTodoView {
    pub assignment: Option<PartialCanvasAssignmentView>,
}

impl View for PartialCanvasTodo {
    type V = PartialCanvasTodoView;

    open spec fn view(&self) -> PartialCanvasTodoView {
        PartialCanvasTodoView {
            assignment: match self.assignment {
                Some(partial) => Some(partial@),
                None => None,
            },
        }
    }
}

impl Clone for PartialCanvasTodo {
    fn clone(&self) -> (copy: PartialCanvasTodo)
        ensures
            copy == *self,
    {
        PartialCanvasTodo {
            assignment: match &self.assignment {
                Some(partial) => Some(partial.clone()),
                None => None,
            },
        }
    }
}

/// An entry of the to-do list: an assignment, or something else that is
/// not told apart (a quiz, say).
#[derive(Debug)]
pub struct CanvasTodo {
    assignment: Option<CanvasAssignment>,
}

/// What a [`CanvasTodo`] is in contracts.
pub struct CanvasTodoView {
    pub assignment: Option<CanvasAssignmentView>,
}

impl View for CanvasTodo {
    type V = CanvasTodoView;

    closed spec fn view(&self) -> CanvasTodoView {
        CanvasTodoView {
            assignment: match self.assignment {
                Some(assignment) => Some(assignment@),
                None => None,
            },
        }
    }
}

/// The entry that `partial` words, or why it words none: an entry without
/// an assignment is read as it is, one with an assignment as its
/// assignment is.
pub open spec fn todo_read(partial: PartialCanvasTodoView) -> Result<CanvasTodoView, CanvasError> {
    match partial.assignment {
        Some(assignment) => match assignment_read(assignment) {
            Ok(read) => Ok(CanvasTodoView { assignment: Some(read) }),
            Err(error) => Err(error),
        },
        None => Ok(CanvasTodoView { assignment: None }),
    }
}

/// Whether `made` is the entry, or the failure, that `wanted` says.
pub open spec fn is_todo(
    made: Result<CanvasTodo, CanvasError>,
    wanted: Result<CanvasTodoView, CanvasError>,
) -> bool {
    match made {
        Ok(todo) => wanted == Ok::<CanvasTodoView, CanvasError>(todo@),
        Err(error) => wanted == Err::<CanvasTodoView, CanvasError>(error),
    }
}

/// Whether `todos` are the entries that `partials` word, one for one and in
/// order.
pub open spec fn are_todos_read(todos: Seq<CanvasTodo>, partials: Seq<PartialCanvasTodo>) -> bool {
    &&& todos.len() == partials.len()
    &&& forall|i: int|
        0 <= i < partials.len() ==> todo_read(#[trigger] partials[i]@) == Ok::<
            CanvasTodoView,
            CanvasError,
        >(todos[i]@)
}

/// Whether the entry at `i` is the first of `partials` that cannot be read,
/// and `error` is why.
pub open spec fn is_first_unread(partials: Seq<PartialCanvasTodo>, i: int, error: CanvasError) -> bool {
    &&& 0 <= i < partials.len()
    &&& todo_read(partials[i]@) == Err::<CanvasTodoView, CanvasError>(error)
    &&& forall|j: int| 0 <= j < i ==> todo_read(#[trigger] partials[j]@) is Ok
}

impl CanvasTodo {
    /// An entry that holds `assignment`, or none.
    pub fn from_assignment(assignment: Option<CanvasAssignment>) -> (todo: CanvasTodo)
        ensures
            todo@.assignment == match assignment {
                Some(held) => Some(held@),
                None => None,
            },
    {
        CanvasTodo { assignment }
    }

    /// Reads the entry that `partial` words.
    pub fn new(partial: PartialCanvasTodo) -> (made: Result<CanvasTodo, CanvasError>)
        ensures
            is_todo(made, todo_read(partial@)),
    {
        match partial.assignment {
            Some(assignment) => {
                match CanvasAssignment::new(assignment) {
                    Ok(read) => Ok(CanvasTodo { assignment: Some(read) }),
                    Err(error) => Err(error),
                }
            },
            None => Ok(CanvasTodo { assignment: None }),
        }
    }

    /// Reads a whole to-do list, the decoded answer to
    /// [`CanvasAPI::get_todos`]. One entry that cannot be read fails the
    /// list, with the reason of the first such entry.
    pub fn read_all(partials: &Vec<PartialCanvasTodo>) -> (made: Result<Vec<CanvasTodo>, CanvasError>)
        ensures
            match made {
                Ok(todos) => are_todos_read(todos@, partials@),
                Err(error) => exists|i: int| #[trigger] is_first_unread(partials@, i, error),
            },
    {
        let mut todos: Vec<CanvasTodo> = Vec::new();
        let mut i: usize = 0;
        while i < partials.len()
            invariant
                i <= partials.len(),
                todos.len() == i,
                forall|j: int|
                    0 <= j < i ==> todo_read(#[trigger] partials[j]@) == Ok::<
                        CanvasTodoView,
                        CanvasError,
                    >(todos[j]@),
            decreases partials.len() - i,
        {
            match CanvasTodo::new(partials[i].clone()) {
                Ok(todo) => {
                    todos.push(todo);
                },
                Err(error) => {
                    assert(is_first_unread(partials@, i as int, error));
                    return Err(error);
                },
            }
            i = i + 1;
        }
        Ok(todos)
    }

    /// The entry's assignment; `None` where it holds none.
    pub fn assignment(&self) -> (assignment: Option<CanvasAssignment>)
        ensures
            self@.assignment == match assignment {
                Some(held) => Some(held@),
                None => None,
            },
    {
        match &self.assignment {
            Some(held) => Some(held.clone()),
            None => None,
        }
    }
}

/// The address that lists the courses of the account with `token`.
pub open spec fn courses_url(token: Seq<char>) -> Seq<char> {
    "https://ames.instructure.com/api/v1/courses?access_token="@ + token
}

/// The address that lists the to-do entries of the account with `token`.
pub open spec fn todos_url(token: Seq<char>) -> Seq<char> {
    "https://ames.instructure.com/api/v1/users/self/todo?access_token="@ + token
}

/// The access token of a Canvas account. It words requests; sending them
/// is the caller's business.
#[derive(Debug)]
pub struct CanvasAPI {
    token: String,
}

impl View for CanvasAPI {
    type V = Seq<char>;

    closed spec fn view(&self) -> Seq<char> {
        self.token@
    }
}

impl CanvasAPI {
    /// A client for the account with the given access token.
    pub fn new(token: String) -> (api: CanvasAPI)
        ensures
            api@ == token@,
    {
        CanvasAPI { token }
    }

    /// The request that lists the courses of the account.
    pub fn get_courses(&self) -> (request: Request)
        ensures
            request@ == (RequestView { method: Method::Get, url: courses_url(self@) }),
    {
        let mut url = String::from_str("https://ames.instructure.com/api/v1/courses?access_token=");
        url.append(self.token.as_str());
        Request { method: Method::Get, url }
    }

    /// The request that lists the to-do entries of the account. What comes
    /// back is read with [`CanvasTodo::read_all`].
    pub fn get_todos(&self) -> (request: Request)
        ensures
            request@ == (RequestView { method: Method::Get, url: todos_url(self@) }),
    {
        let mut url = String::from_str(
            "https://ames.instructure.com/api/v1/users/self/todo?access_token=",
        );
        url.append(self.token.as_str());
        Request { method: Method::Get, url }
    }
}

} // verus!

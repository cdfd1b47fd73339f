//! What is read out of the items of the progress store: users, the outcome
//! of a login, and the courses of a user.

use crate::item::{fields_view, text_views, Field, FieldValue, FieldView, ValueView};
use crate::request::CourseId;
use vstd::prelude::*;

verus! {

/// The value of the first field of `item` that is named `name`.
pub open spec fn first_named(item: Seq<FieldView>, name: Seq<char>) -> Option<ValueView>
    decreases item.len(),
{
    if item.len() == 0 {
        None
    } else if item[0].name == name {
        Some(item[0].value)
    } else {
        first_named(item.drop_first(), name)
    }
}

/// The text of the field `name`; empty where there is no such field or it
/// holds no text.
pub open spec fn text_of(item: Seq<FieldView>, name: Seq<char>) -> Seq<char> {
    match first_named(item, name) {
        Some(ValueView::Text(t)) => t,
        _ => Seq::empty(),
    }
}

/// The number of the field `name`, as it is written; empty where there is
/// no such field or it holds no number.
pub open spec fn number_of(item: Seq<FieldView>, name: Seq<char>) -> Seq<char> {
    match first_named(item, name) {
        Some(ValueView::Number(n)) => n,
        _ => Seq::empty(),
    }
}

/// The texts of the field `name`; none where there is no such field or it
/// holds no set of texts.
pub open spec fn texts_of(item: Seq<FieldView>, name: Seq<char>) -> Seq<Seq<char>> {
    match first_named(item, name) {
        Some(ValueView::TextSet(s)) => s,
        _ => Seq::empty(),
    }
}

/// `text` without `prefix` at its head; empty where `text` does not begin
/// with `prefix`.
pub open spec fn without_prefix(text: Seq<char>, prefix: Seq<char>) -> Seq<char> {
    if prefix.is_prefix_of(text) {
        text.subrange(prefix.len() as int, text.len() as int)
    } else {
        Seq::empty()
    }
}

/// The place of the first field of `item` that is named `name`.
pub fn find_field(item: &Vec<Field>, name: &str) -> (r: Option<usize>)
    ensures
        match r {
            Some(i) => i < item@.len() && first_named(fields_view(item@), name@) == Some(
                item@[i as int]@.value,
            ),
            None => first_named(fields_view(item@), name@) is None,
        },
{
    let wanted = String::from_str(name);
    let ghost all = fields_view(item@);
    let mut i: usize = 0;
    assert(all.subrange(0, all.len() as int) =~= all);
    while i < item.len()
        invariant
            i <= item.len(),
            all == fields_view(item@),
            wanted@ == name@,
            first_named(all, name@) == first_named(all.subrange(i as int, all.len() as int), name@),
        decreases item.len() - i,
    {
        let ghost rest = all.subrange(i as int, all.len() as int);
        assert(rest[0] == item@[i as int]@);
        if item[i].name == wanted {
            return Some(i);
        }
        assert(rest.drop_first() =~= all.subrange(i + 1, all.len() as int));
        i = i + 1;
    }
    None
}

/// The text of the field `name`; empty where there is no such field or it
/// holds no text.
pub fn text_named(item: &Vec<Field>, name: &str) -> (text: String)
    ensures
        text@ == text_of(fields_view(item@), name@),
{
    match find_field(item, name) {
        Some(i) => match &item[i].value {
            FieldValue::Text(t) => t.clone(),
            _ => String::new(),
        },
        None => String::new(),
    }
}

/// The number of the field `name`, as it is written; empty where there is
/// no such field or it holds no number.
pub fn number_named(item: &Vec<Field>, name: &str) -> (text: String)
    ensures
        text@ == number_of(fields_view(item@), name@),
{
    match find_field(item, name) {
        Some(i) => match &item[i].value {
            FieldValue::Number(n) => n.clone(),
            _ => String::new(),
        },
        None => String::new(),
    }
}

/// The texts of the field `name`; none where there is no such field or it
/// holds no set of texts.
pub fn texts_named(item: &Vec<Field>, name: &str) -> (texts: Vec<String>)
    ensures
        text_views(texts@) == texts_of(fields_view(item@), name@),
{
    match find_field(item, name) {
        Some(i) => match &item[i].value {
            FieldValue::TextSet(s) => {
                let mut texts: Vec<String> = Vec::new();
                let mut j: usize = 0;
                while j < s.len()
                    invariant
                        j <= s.len(),
                        texts.len() == j,
                        forall|k: int| 0 <= k < j ==> (#[trigger] texts@[k])@ == s@[k]@,
                    decreases s.len() - j,
                {
                    texts.push(s[j].clone());
                    j = j + 1;
                }
                assert(text_views(texts@) =~= text_views(s@));
                texts
            },
            _ => {
                let texts: Vec<String> = Vec::new();
                assert(text_views(texts@) =~= Seq::<Seq<char>>::empty());
                texts
            },
        },
        None => {
            let texts: Vec<String> = Vec::new();
            assert(text_views(texts@) =~= Seq::<Seq<char>>::empty());
            texts
        },
    }
}

/// A user as the progress store shows it.
#[derive(Debug)]
pub struct User {
    pub pk: String,
    pub sk: String,
    pub email: String,
    pub password: String,
    pub status: String,
    pub rating_data: String,
    pub completed_classes: Vec<String>,
    pub completion_percentage: String,
    pub timestamp: String,
}

impl User {
    /// Reads a user out of an item. A field that is absent, or holds a
    /// value of another kind, reads as empty.
    pub fn from_item(item: &Vec<Field>) -> (user: User)
        ensures
            user.pk@ == text_of(fields_view(item@), "PK"@),
            user.sk@ == text_of(fields_view(item@), "SK"@),
            user.email@ == text_of(fields_view(item@), "email"@),
            user.password@ == text_of(fields_view(item@), "password"@),
            user.status@ == text_of(fields_view(item@), "status"@),
            user.rating_data@ == text_of(fields_view(item@), "rating_data"@),
            text_views(user.completed_classes@) == texts_of(
                fields_view(item@),
                "completed_classes"@,
            ),
            user.completion_percentage@ == number_of(fields_view(item@), "completion_percentage"@),
            user.timestamp@ == text_of(fields_view(item@), "timestamp"@),
    {
        User {
            pk: text_named(item, "PK"),
            sk: text_named(item, "SK"),
            email: text_named(item, "email"),
            password: text_named(item, "password"),
            status: text_named(item, "status"),
            rating_data: text_named(item, "rating_data"),
            completed_classes: texts_named(item, "completed_classes"),
            completion_percentage: number_named(item, "completion_percentage"),
            timestamp: text_named(item, "timestamp"),
        }
    }
}

/// What a login comes to.
#[derive(Clone, Copy, Debug, PartialEq, Eq, Structural)]
pub enum LoginOutcome {
    /// The password is the one on record.
    LoggedIn,
    /// The password is another one than the one on record.
    InvalidPassword,
    /// There is no item for the user, or it holds no password.
    UserNotFound,
}

/// What a login with `password` comes to, given the item of the user.
pub open spec fn login_outcome_of(item: Option<Seq<FieldView>>, password: Seq<char>)
    -> LoginOutcome {
    match item {
        Some(fields) => match first_named(fields, "password"@) {
            Some(ValueView::Text(stored)) => if stored == password {
                LoginOutcome::LoggedIn
            } else {
                LoginOutcome::InvalidPassword
            },
            _ => LoginOutcome::UserNotFound,
        },
        None => LoginOutcome::UserNotFound,
    }
}

/// What a login with `password` comes to, given the item of the user, if
/// the store holds one.
pub fn login_outcome(item: &Option<Vec<Field>>, password: &String) -> (outcome: LoginOutcome)
    ensures
        outcome == login_outcome_of(
            match item {
                Some(fields) => Some(fields_view(fields@)),
                None => None,
            },
            password@,
        ),
{
    match item {
        Some(fields) => match find_field(fields, "password") {
            Some(i) => match &fields[i].value {
                FieldValue::Text(stored) => if *stored == *password {
                    LoginOutcome::LoggedIn
                } else {
                    LoginOutcome::InvalidPassword
                },
                _ => LoginOutcome::UserNotFound,
            },
            None => LoginOutcome::UserNotFound,
        },
        None => LoginOutcome::UserNotFound,
    }
}

/// `text` without `prefix` at its head; empty where `text` does not begin
/// with `prefix`.
pub fn strip_prefix_or_empty(text: &str, prefix: &str) -> (rest: String)
    ensures
        rest@ == without_prefix(text@, prefix@),
{
    let n: usize = prefix.unicode_len();
    let m: usize = text.unicode_len();
    if m < n {
        return String::new();
    }
    let head = String::from_str(text.substring_char(0, n));
    let wanted = String::from_str(prefix);
    if head == wanted {
        assert(text@.subrange(0, n as int) =~= prefix@);
        String::from_str(text.substring_char(n, m))
    } else {
        String::new()
    }
}

/// The course ids that the sort keys of the items of a user name: for each
/// item that has a text under `SK`, what follows `course#` in it.
pub open spec fn course_ids_of(items: Seq<Seq<FieldView>>) -> Seq<Seq<char>>
    decreases items.len(),
{
    if items.len() == 0 {
        Seq::empty()
    } else {
        let rest = course_ids_of(items.drop_last());
        match first_named(items.last(), "SK"@) {
            Some(ValueView::Text(key)) => rest.push(without_prefix(key, "course#"@)),
            _ => rest,
        }
    }
}

/// The views of the items of `items`.
pub open spec fn items_view(items: Seq<Vec<Field>>) -> Seq<Seq<FieldView>> {
    items.map_values(|item: Vec<Field>| fields_view(item@))
}

/// The views of the course ids of `ids`.
pub open spec fn course_id_views(ids: Seq<CourseId>) -> Seq<Seq<char>> {
    ids.map_values(|id: CourseId| id.course_id@)
}

/// The courses of a user, read off the sort keys of the user's items.
pub fn course_ids(items: &Vec<Vec<Field>>) -> (ids: Vec<CourseId>)
    ensures
        course_id_views(ids@) == course_ids_of(items_view(items@)),
{
    let mut ids: Vec<CourseId> = Vec::new();
    let ghost all = items_view(items@);
    let mut i: usize = 0;
    assert(course_id_views(ids@) =~= Seq::<Seq<char>>::empty());
    while i < items.len()
        invariant
            i <= items.len(),
            all == items_view(items@),
            course_id_views(ids@) == course_ids_of(all.subrange(0, i as int)),
        decreases items.len() - i,
    {
        let ghost next = all.subrange(0, i + 1);
        let ghost before = ids@;
        assert(next.drop_last() =~= all.subrange(0, i as int));
        assert(next.last() == fields_view(items@[i as int]@));
        match find_field(&items[i], "SK") {
            Some(j) => match &items[i][j].value {
                FieldValue::Text(key) => {
                    let id = CourseId { course_id: strip_prefix_or_empty(key.as_str(), "course#") };
                    ids.push(id);
                    assert(course_id_views(ids@) =~= course_id_views(before).push(
                        without_prefix(key@, "course#"@),
                    ));
                },
                _ => {},
            },
            None => {},
        }
        i = i + 1;
    }
    assert(all.subrange(0, items@.len() as int) =~= all);
    ids
}

} // verus!

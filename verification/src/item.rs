//! How the progress store is written to: its keys and the fields of its
//! items.
//!
//! The store finds an item by two texts, the partition key `PK` and the sort
//! key `SK`. The record of a user in a course lies under `user#` with the
//! e-mail address and `course#` with the canonical spelling of the course
//! id, so that there is one item for each pair of user and course.

use crate::completed::CompletedSet;
use crate::object_id::{lemma_hex_round_trip, DocId};
use crate::progress::Status;
use crate::text::{decimal_digits, decimal_text, joined};
use vstd::prelude::*;

verus! {

/// The value of a field: a text, a number written as text, or a set of
/// texts.
#[derive(Debug)]
pub enum FieldValue {
    Text(String),
    Number(String),
    TextSet(Vec<String>),
}

/// One named field of an item.
#[derive(Debug)]
pub struct Field {
    pub name: String,
    pub value: FieldValue,
}

/// What a field value is in mathematical terms.
pub enum ValueView {
    Text(Seq<char>),
    Number(Seq<char>),
    TextSet(Seq<Seq<char>>),
}

/// What a field is in mathematical terms.
pub struct FieldView {
    pub name: Seq<char>,
    pub value: ValueView,
}

/// The texts of `texts` as sequences of characters.
pub open spec fn text_views(texts: Seq<String>) -> Seq<Seq<char>> {
    texts.map_values(|t: String| t@)
}

impl View for FieldValue {
    type V = ValueView;

    open spec fn view(&self) -> ValueView {
        match self {
            FieldValue::Text(t) => ValueView::Text(t@),
            FieldValue::Number(n) => ValueView::Number(n@),
            FieldValue::TextSet(s) => ValueView::TextSet(text_views(s@)),
        }
    }
}

impl View for Field {
    type V = FieldView;

    open spec fn view(&self) -> FieldView {
        FieldView { name: self.name@, value: self.value@ }
    }
}

/// The fields of `item` in mathematical terms.
pub open spec fn fields_view(item: Seq<Field>) -> Seq<FieldView> {
    item.map_values(|f: Field| f@)
}

/// A field that holds a text.
pub open spec fn text_field(name: Seq<char>, value: Seq<char>) -> FieldView {
    FieldView { name, value: ValueView::Text(value) }
}

/// A field that holds a number.
pub open spec fn number_field(name: Seq<char>, value: Seq<char>) -> FieldView {
    FieldView { name, value: ValueView::Number(value) }
}

/// The partition key of a user.
pub open spec fn partition_key_text(user_email: Seq<char>) -> Seq<char> {
    "user#"@ + user_email
}

/// The sort key of a course.
pub open spec fn sort_key_text(course: DocId) -> Seq<char> {
    "course#"@ + course.hex()
}

/// The sort key of a comment.
pub open spec fn comment_key_text(comment: DocId) -> Seq<char> {
    "comment#"@ + comment.hex()
}

/// The two key fields of the record of a user in a course.
pub open spec fn key_fields(user_email: Seq<char>, course: DocId) -> Seq<FieldView> {
    seq![
        text_field("PK"@, partition_key_text(user_email)),
        text_field("SK"@, sort_key_text(course)),
    ]
}

/// The item of a user who has just registered for a course.
pub open spec fn registration_fields(user_email: Seq<char>, course: DocId, timestamp: Seq<char>)
    -> Seq<FieldView> {
    key_fields(user_email, course) + seq![
        text_field("status"@, Status::Initiated.json_text()),
        number_field("completion_percentage"@, decimal_digits(0)),
        text_field("timestamp"@, timestamp),
        text_field("rating_data"@, Seq::empty()),
    ]
}

/// The spellings of the ids of `ids`.
pub open spec fn spellings(ids: Seq<DocId>) -> Seq<Seq<char>> {
    ids.map_values(|id: DocId| id.hex())
}

/// The item that holds the progress of a user in a course. The store takes
/// no set without members, so the completed classes have a field only where
/// there are some.
pub open spec fn progress_fields(
    user_email: Seq<char>,
    course: DocId,
    status: Status,
    percentage: nat,
    completed: Seq<DocId>,
    timestamp: Seq<char>,
) -> Seq<FieldView> {
    key_fields(user_email, course) + seq![
        text_field("status"@, status.json_text()),
        number_field("completion_percentage"@, decimal_digits(percentage)),
        text_field("timestamp"@, timestamp),
    ] + if completed.len() == 0 {
        Seq::<FieldView>::empty()
    } else {
        seq![
            FieldView {
                name: "completed_classes"@,
                value: ValueView::TextSet(spellings(completed)),
            },
        ]
    }
}

/// The item of a user: the keys, the e-mail address and the password.
pub open spec fn user_fields(email: Seq<char>, password: Seq<char>) -> Seq<FieldView> {
    seq![
        text_field("PK"@, partition_key_text(email)),
        text_field("SK"@, "USER"@),
        text_field("email"@, email),
        text_field("password"@, password),
    ]
}

/// The item that notes a comment in the data of its author.
pub open spec fn comment_fields(
    author: Seq<char>,
    comment: DocId,
    title: Seq<char>,
    detail: Seq<char>,
    date: Seq<char>,
    kind: Seq<char>,
) -> Seq<FieldView> {
    seq![
        text_field("PK"@, partition_key_text(author)),
        text_field("SK"@, comment_key_text(comment)),
        text_field("author"@, author),
        text_field("title"@, title),
        text_field("detail"@, detail),
        text_field("date"@, date),
        text_field("type"@, kind),
    ]
}

/// The name of the table that holds all items.
pub fn table_name() -> (name: String)
    ensures
        name@ == "bdnsql"@,
{
    String::from_str("bdnsql")
}

/// The partition key of a user: `user#` and the e-mail address.
pub fn partition_key(user_email: &str) -> (key: String)
    ensures
        key@ == partition_key_text(user_email@),
{
    joined("user#", user_email)
}

/// The sort key of a course: `course#` and the canonical spelling of its
/// id.
pub fn sort_key(course: DocId) -> (key: String)
    ensures
        key@ == sort_key_text(course),
{
    let hex = course.to_hex();
    joined("course#", hex.as_str())
}

/// The sort key of a comment: `comment#` and the canonical spelling of its
/// id.
pub fn comment_key(comment: DocId) -> (key: String)
    ensures
        key@ == comment_key_text(comment),
{
    let hex = comment.to_hex();
    joined("comment#", hex.as_str())
}

/// A field named `name` that holds the text `value`.
pub fn text(name: &str, value: String) -> (f: Field)
    ensures
        f@ == text_field(name@, value@),
{
    Field { name: String::from_str(name), value: FieldValue::Text(value) }
}

/// A field named `name` that holds the number `value`.
pub fn number(name: &str, value: u64) -> (f: Field)
    ensures
        f@ == number_field(name@, decimal_digits(value as nat)),
{
    Field { name: String::from_str(name), value: FieldValue::Number(decimal_text(value)) }
}

/// The two key fields of the record of a user in a course.
pub fn record_key(user_email: &str, course: DocId) -> (item: Vec<Field>)
    ensures
        fields_view(item@) == key_fields(user_email@, course),
{
    let mut item: Vec<Field> = Vec::new();
    item.push(text("PK", partition_key(user_email)));
    item.push(text("SK", sort_key(course)));
    assert(fields_view(item@) =~= key_fields(user_email@, course));
    item
}

/// The item of a user who has just registered for a course: the keys, the
/// status `Initiated`, 0 percent, the timestamp and no rating data.
pub fn registration_item(user_email: &str, course: DocId, timestamp: String) -> (item: Vec<Field>)
    ensures
        fields_view(item@) == registration_fields(user_email@, course, timestamp@),
{
    let mut item: Vec<Field> = Vec::new();
    item.push(text("PK", partition_key(user_email)));
    item.push(text("SK", sort_key(course)));
    item.push(text("status", Status::Initiated.to_json()));
    item.push(number("completion_percentage", 0));
    item.push(text("timestamp", timestamp));
    item.push(text("rating_data", String::new()));
    assert(fields_view(item@) =~= registration_fields(user_email@, course, timestamp@));
    item
}

/// The item that holds the progress of a user in a course: the keys, the
/// status, the percentage, the timestamp and, where there are any, the
/// completed classes.
pub fn progress_item(
    user_email: &str,
    course: DocId,
    status: Status,
    percentage: u64,
    completed: &CompletedSet,
    timestamp: String,
) -> (item: Vec<Field>)
    ensures
        fields_view(item@) == progress_fields(
            user_email@,
            course,
            status,
            percentage as nat,
            completed.ids@,
            timestamp@,
        ),
{
    let mut item: Vec<Field> = Vec::new();
    item.push(text("PK", partition_key(user_email)));
    item.push(text("SK", sort_key(course)));
    item.push(text("status", status.to_json()));
    item.push(number("completion_percentage", percentage));
    item.push(text("timestamp", timestamp));
    if completed.ids.len() > 0 {
        let texts = completed.to_texts();
        assert(text_views(texts@) =~= spellings(completed.ids@));
        item.push(
            Field {
                name: String::from_str("completed_classes"),
                value: FieldValue::TextSet(texts),
            },
        );
    }
    assert(fields_view(item@) =~= progress_fields(
        user_email@,
        course,
        status,
        percentage as nat,
        completed.ids@,
        timestamp@,
    ));
    item
}

/// The item of a user.
pub fn user_item(email: &str, password: String) -> (item: Vec<Field>)
    ensures
        fields_view(item@) == user_fields(email@, password@),
{
    let mut item: Vec<Field> = Vec::new();
    item.push(text("PK", partition_key(email)));
    item.push(text("SK", String::from_str("USER")));
    item.push(text("email", String::from_str(email)));
    item.push(text("password", password));
    assert(fields_view(item@) =~= user_fields(email@, password@));
    item
}

/// The item that notes a comment in the data of its author.
pub fn comment_item(
    author: &str,
    comment: DocId,
    title: String,
    detail: String,
    date: String,
    kind: String,
) -> (item: Vec<Field>)
    ensures
        fields_view(item@) == comment_fields(author@, comment, title@, detail@, date@, kind@),
{
    let mut item: Vec<Field> = Vec::new();
    item.push(text("PK", partition_key(author)));
    item.push(text("SK", comment_key(comment)));
    item.push(text("author", String::from_str(author)));
    item.push(text("title", title));
    item.push(text("detail", detail));
    item.push(text("date", date));
    item.push(text("type", kind));
    assert(fields_view(item@) =~= comment_fields(author@, comment, title@, detail@, date@, kind@));
    item
}

/// The update that adds a class to the completed classes of a record. The
/// store adds to a set as one step, and a member that is there already is
/// not added again.
pub fn add_class_expression() -> (expression: String)
    ensures
        expression@ == "ADD completed_classes :class_id"@,
{
    String::from_str("ADD completed_classes :class_id")
}

/// The value that `add_class_expression` names: the set of the one class.
pub fn add_class_values(class: DocId) -> (values: Vec<Field>)
    ensures
        fields_view(values@) == seq![
            FieldView { name: ":class_id"@, value: ValueView::TextSet(seq![class.hex()]) },
        ],
{
    let mut texts: Vec<String> = Vec::new();
    texts.push(class.to_hex());
    assert(text_views(texts@) =~= seq![class.hex()]);
    let mut values: Vec<Field> = Vec::new();
    values.push(Field { name: String::from_str(":class_id"), value: FieldValue::TextSet(texts) });
    assert(fields_view(values@) =~= seq![
        FieldView { name: ":class_id"@, value: ValueView::TextSet(seq![class.hex()]) },
    ]);
    values
}

/// The condition under which an update is made: that there is an item under
/// the keys. The store makes an item for an update that finds none, unless
/// the update comes with this condition.
pub fn record_exists_condition() -> (condition: String)
    ensures
        condition@ == "attribute_exists(PK)"@,
{
    String::from_str("attribute_exists(PK)")
}

/// The update that notes a rating in a record and leaves the rest of the
/// record as it is. The text of the note stands for `:rating_data`.
pub fn note_rating_expression() -> (expression: String)
    ensures
        expression@ == "SET rating_data = :rating_data"@,
{
    String::from_str("SET rating_data = :rating_data")
}

/// Two records lie under the same keys only if they are records of the
/// same user in the same course.
pub proof fn lemma_keys_tell_records_apart(
    user_email: Seq<char>,
    course: DocId,
    other_email: Seq<char>,
    other_course: DocId,
)
    ensures
        partition_key_text(user_email) == partition_key_text(other_email) ==> user_email
            == other_email,
        sort_key_text(course) == sort_key_text(other_course) ==> course == other_course,
{
    let prefix = "user#"@;
    if partition_key_text(user_email) == partition_key_text(other_email) {
        assert((prefix + user_email).subrange(prefix.len() as int, (prefix + user_email).len() as int)
            =~= user_email);
        assert((prefix + other_email).subrange(
            prefix.len() as int,
            (prefix + other_email).len() as int,
        ) =~= other_email);
    }
    let prefix = "course#"@;
    if sort_key_text(course) == sort_key_text(other_course) {
        assert((prefix + course.hex()).subrange(
            prefix.len() as int,
            (prefix + course.hex()).len() as int,
        ) =~= course.hex());
        assert((prefix + other_course.hex()).subrange(
            prefix.len() as int,
            (prefix + other_course.hex()).len() as int,
        ) =~= other_course.hex());
        lemma_hex_round_trip(course);
        lemma_hex_round_trip(other_course);
    }
}

} // verus!

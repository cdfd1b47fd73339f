//! What is written to the graph mirror: the statements and the texts that
//! stand for their parameters. The mirror is written and never read.

use crate::comment::{CommentReceive, TypeComment};
use crate::item::{fields_view, text, text_field, Field, FieldView};
use crate::object_id::DocId;
use vstd::prelude::*;

verus! {

/// The statement that adds the edge of a rating. Its parameters are
/// `email`, `course_id`, `rating` and `timestamp`.
pub fn rating_statement() -> (statement: String)
    ensures
        statement@
            == "MERGE (u:User {email: $email}) MERGE (c:Course {id: $course_id}) CREATE (u)-[:RATED {rating: $rating, timestamp: $timestamp}]->(c)"@,
{
    String::from_str(
        "MERGE (u:User {email: $email}) MERGE (c:Course {id: $course_id}) CREATE (u)-[:RATED {rating: $rating, timestamp: $timestamp}]->(c)",
    )
}

/// The statement that adds the node of a course. Its parameters are
/// `course_id`, `name`, `description`, `rating`, `image` and `image_banner`.
pub fn course_statement() -> (statement: String)
    ensures
        statement@
            == "CREATE (c:Course {id: $course_id, name: $name, description: $description, rating: $rating, image: $image, image_banner: $image_banner})"@,
{
    String::from_str(
        "CREATE (c:Course {id: $course_id, name: $name, description: $description, rating: $rating, image: $image, image_banner: $image_banner})",
    )
}

/// The statement that adds the node of a comment. Its parameters are
/// `comment_id`, `author`, `title`, `detail`, `date`, `reference_id` and
/// `reference_type`.
pub fn comment_statement() -> (statement: String)
    ensures
        statement@
            == "CREATE (c:Comment {comment_id: $comment_id, author: $author, title: $title, detail: $detail, date: $date, reference_id: $reference_id, reference_type: $reference_type})"@,
{
    String::from_str(
        "CREATE (c:Comment {comment_id: $comment_id, author: $author, title: $title, detail: $detail, date: $date, reference_id: $reference_id, reference_type: $reference_type})",
    )
}

/// The texts among the parameters of the edge of a rating. The rating
/// itself is a number and goes beside them.
pub open spec fn rating_parameters(user_email: Seq<char>, course: DocId, timestamp: Seq<char>)
    -> Seq<FieldView> {
    seq![
        text_field("email"@, user_email),
        text_field("course_id"@, course.hex()),
        text_field("timestamp"@, timestamp),
    ]
}

/// The parameters of the node of a comment.
pub open spec fn comment_parameters(
    comment: DocId,
    author: Seq<char>,
    title: Seq<char>,
    detail: Seq<char>,
    date: Seq<char>,
    reference: Option<DocId>,
    kind: TypeComment,
) -> Seq<FieldView> {
    seq![
        text_field("author"@, author),
        text_field("comment_id"@, comment.hex()),
        text_field("title"@, title),
        text_field("detail"@, detail),
        text_field("date"@, date),
        text_field(
            "reference_id"@,
            match reference {
                Some(id) => id.hex(),
                None => Seq::empty(),
            },
        ),
        text_field("reference_type"@, kind.name_text()),
    ]
}

/// Computes `rating_parameters`.
pub fn rating_edge_parameters(user_email: &str, course: DocId, timestamp: String) -> (parameters:
    Vec<Field>)
    ensures
        fields_view(parameters@) == rating_parameters(user_email@, course, timestamp@),
{
    let mut parameters: Vec<Field> = Vec::new();
    parameters.push(text("email", String::from_str(user_email)));
    parameters.push(text("course_id", course.to_hex()));
    parameters.push(text("timestamp", timestamp));
    assert(fields_view(parameters@) =~= rating_parameters(user_email@, course, timestamp@));
    parameters
}

/// Computes `comment_parameters` for a comment that was sent in and stored
/// under the id `comment` at the time `date`. A comment about nothing has an
/// empty `reference_id`.
pub fn comment_node_parameters(comment: DocId, received: &CommentReceive, date: String) -> (parameters:
    Vec<Field>)
    ensures
        fields_view(parameters@) == comment_parameters(
            comment,
            received.author@,
            received.title@,
            received.detail@,
            date@,
            received.reference_id,
            received.reference_type,
        ),
{
    let reference = match received.reference_id {
        Some(id) => id.to_hex(),
        None => String::new(),
    };
    let mut parameters: Vec<Field> = Vec::new();
    parameters.push(text("author", received.author.clone()));
    parameters.push(text("comment_id", comment.to_hex()));
    parameters.push(text("title", received.title.clone()));
    parameters.push(text("detail", received.detail.clone()));
    parameters.push(text("date", date));
    parameters.push(text("reference_id", reference));
    parameters.push(text("reference_type", received.reference_type.name()));
    assert(fields_view(parameters@) =~= comment_parameters(
        comment,
        received.author@,
        received.title@,
        received.detail@,
        date@,
        received.reference_id,
        received.reference_type,
    ));
    parameters
}

} // verus!

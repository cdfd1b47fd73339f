//! Comments on courses and classes.

use crate::object_id::DocId;
use vstd::prelude::*;

verus! {

/// What a comment is about.
#[derive(Clone, Copy, Debug, PartialEq, Eq, Structural)]
pub enum TypeComment {
    Class,
    Course,
}

impl TypeComment {
    /// The name of the kind as it is stored and shown.
    pub open spec fn name_text(self) -> Seq<char> {
        match self {
            TypeComment::Class => "Class"@,
            TypeComment::Course => "Course"@,
        }
    }

    /// The name of the kind as it is stored and shown: `Class` or `Course`.
    pub fn name(&self) -> (text: String)
        ensures
            text@ == self.name_text(),
    {
        match self {
            TypeComment::Class => String::from_str("Class"),
            TypeComment::Course => String::from_str("Course"),
        }
    }
}

/// A comment as the content store holds it. `date` is the time at which it
/// was made, as text.
#[derive(Debug)]
pub struct Comment {
    pub id: Option<DocId>,
    pub author: String,
    pub date: String,
    pub title: String,
    pub detail: String,
    pub likes: usize,
    pub dislikes: usize,
    pub reference_id: Option<DocId>,
    pub reference_type: TypeComment,
}

/// A comment as it is sent in.
#[derive(Debug)]
pub struct CommentReceive {
    pub author: String,
    pub title: String,
    pub detail: String,
    pub reference_id: Option<DocId>,
    pub reference_type: TypeComment,
}

/// A comment as it is sent out.
#[derive(Debug)]
pub struct CommentSend {
    pub author: String,
    pub date: String,
    pub title: String,
    pub detail: String,
    pub likes: usize,
    pub dislikes: usize,
}

impl Comment {
    /// Who wrote the comment.
    pub fn author(&self) -> (author: &String)
        ensures
            *author == self.author,
    {
        &self.author
    }

    /// When the comment was made.
    pub fn date(&self) -> (date: &String)
        ensures
            *date == self.date,
    {
        &self.date
    }

    /// The title of the comment.
    pub fn title(&self) -> (title: &String)
        ensures
            *title == self.title,
    {
        &self.title
    }

    /// The text of the comment.
    pub fn detail(&self) -> (detail: &String)
        ensures
            *detail == self.detail,
    {
        &self.detail
    }

    /// How many liked the comment.
    pub fn likes(&self) -> (likes: usize)
        ensures
            likes == self.likes,
    {
        self.likes
    }

    /// How many disliked the comment.
    pub fn dislikes(&self) -> (dislikes: usize)
        ensures
            dislikes == self.dislikes,
    {
        self.dislikes
    }

    /// The comment to store for one that was sent in at the time `date`:
    /// without an id, which the store gives it, and with no likes and no
    /// dislikes.
    pub fn received(comment: &CommentReceive, date: String) -> (stored: Comment)
        ensures
            stored.id is None,
            stored.author == comment.author,
            stored.date == date,
            stored.title == comment.title,
            stored.detail == comment.detail,
            stored.likes == 0,
            stored.dislikes == 0,
            stored.reference_id == comment.reference_id,
            stored.reference_type == comment.reference_type,
    {
        Comment {
            id: None,
            author: comment.author.clone(),
            date,
            title: comment.title.clone(),
            detail: comment.detail.clone(),
            likes: 0,
            dislikes: 0,
            reference_id: comment.reference_id,
            reference_type: comment.reference_type,
        }
    }

    /// The comment as it is sent out: without the ids and what it is about.
    pub fn to_send(&self) -> (sent: CommentSend)
        ensures
            sent.author == self.author,
            sent.date == self.date,
            sent.title == self.title,
            sent.detail == self.detail,
            sent.likes == self.likes,
            sent.dislikes == self.dislikes,
    {
        CommentSend {
            author: self.author().clone(),
            date: self.date().clone(),
            title: self.title().clone(),
            detail: self.detail().clone(),
            likes: self.likes(),
            dislikes: self.dislikes(),
        }
    }
}

} // verus!

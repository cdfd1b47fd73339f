//! Progress of one user in one course: the status, the set of completed
//! classes and the completion percentage derived from it.

use crate::completed::CompletedSet;
use crate::object_id::DocId;
use crate::text::{decimal_digits, decimal_text};
use vstd::prelude::*;

verus! {

/// The share of `completed` in `total`, in percent, rounded to the nearest
/// whole number (halves upwards) and capped at 100; 0 where `total` is 0.
pub open spec fn percentage_of(completed: nat, total: nat) -> nat {
    if total == 0 {
        0
    } else if completed >= total {
        100
    } else {
        (200 * completed + total) / (2 * total)
    }
}

/// `percentage_of` is the whole number nearest to `100 * completed / total`:
/// twice the distance between the two is at most one, taken in units of
/// `1 / total`, and it never leaves `0..=100`.
pub proof fn lemma_percentage_is_rounded(completed: nat, total: nat)
    requires
        0 < total,
        completed <= total,
    ensures
        percentage_of(completed, total) <= 100,
        2 * total * percentage_of(completed, total) <= 200 * completed + total,
        200 * completed + total < 2 * total * (percentage_of(completed, total) + 1),
        percentage_of(completed, total) == 100 <==> 200 * completed >= 199 * total,
{
    let p = percentage_of(completed, total);
    if completed < total {
        assert(p <= 100 && 2 * total * p <= 200 * completed + total && 200 * completed + total < 2
            * total * (p + 1)) by (nonlinear_arith)
            requires
                p == (200 * completed + total) / (2 * total),
                0 < total,
                completed < total,
        ;
        assert(p == 100 <==> 200 * completed >= 199 * total) by (nonlinear_arith)
            requires
                2 * total * p <= 200 * completed + total,
                200 * completed + total < 2 * total * (p + 1),
                p <= 100,
                0 < total,
        ;
    } else {
        assert(2 * total * p == 200 * total && 2 * total * (p + 1) == 202 * total)
            by (nonlinear_arith)
            requires
                p == 100,
        ;
    }
}

/// A percentage is 100 at most, whatever the numbers.
pub proof fn lemma_percentage_bound(completed: nat, total: nat)
    ensures
        percentage_of(completed, total) <= 100,
        percentage_of(0, total) == 0,
{
    if 0 < total {
        if completed < total {
            lemma_percentage_is_rounded(completed, total);
        }
        lemma_percentage_is_rounded(0, total);
        assert(percentage_of(0, total) == 0) by (nonlinear_arith)
            requires
                2 * total * percentage_of(0, total) <= 200 * 0 + total,
                0 < total,
        ;
    }
}

/// Computes `percentage_of`.
pub fn completion_percentage(completed: u64, total: u64) -> (pct: u64)
    ensures
        pct == percentage_of(completed as nat, total as nat),
        pct <= 100,
{
    if total == 0 {
        0
    } else if completed >= total {
        100
    } else {
        let c: u128 = completed as u128;
        let t: u128 = total as u128;
        let q: u128 = (200 * c + t) / (2 * t);
        assert(q <= 100) by (nonlinear_arith)
            requires
                q == (200 * c + t) / (2 * t),
                c < t,
                t > 0,
        ;
        q as u64
    }
}

/// Where a user stands in a course. Only `InProgress` carries a percent.
#[derive(Clone, Copy, Debug, PartialEq, Eq, Structural)]
pub enum Status {
    Initiated,
    InProgress(u64),
    Completed,
}

impl Status {
    /// The percent of an `InProgress` status lies in `0..=100`. The other two
    /// carry nothing to check.
    pub open spec fn valid(self) -> bool {
        self matches Status::InProgress(p) ==> p <= 100
    }

    /// The status that a completion percentage stands for.
    pub open spec fn of_percentage(pct: nat) -> Status {
        if pct >= 100 {
            Status::Completed
        } else {
            Status::InProgress(pct as u64)
        }
    }

    /// Whether the status can stand beside the percentage `pct`: `Completed`
    /// beside 100 only, `InProgress` beside the percent that it carries and
    /// below 100, `Initiated` beside anything below 100.
    pub open spec fn agrees_with(self, pct: nat) -> bool {
        match self {
            Status::Initiated => pct < 100,
            Status::InProgress(p) => p == pct && pct < 100,
            Status::Completed => pct == 100,
        }
    }

    /// The status to record where the status `self` is named beside the
    /// percentage `pct`: the named one where it agrees with the percentage,
    /// the one that the percentage stands for where it does not.
    pub open spec fn settled(self, pct: nat) -> Status {
        if self.agrees_with(pct) {
            self
        } else {
            Status::of_percentage(pct)
        }
    }

    /// The text shown for the status.
    pub open spec fn label_text(self) -> Seq<char> {
        match self {
            Status::Initiated => "Initiated"@,
            Status::InProgress(p) => "In Progress: "@ + decimal_digits(p as nat) + ".00%"@,
            Status::Completed => "Completed"@,
        }
    }

    /// The status as a tagged JSON object.
    pub open spec fn json_text(self) -> Seq<char> {
        match self {
            Status::Initiated => "{\"type\":\"Initiated\"}"@,
            Status::InProgress(p) => "{\"type\":\"InProgress\",\"value\":"@ + decimal_digits(
                p as nat,
            ) + ".0}"@,
            Status::Completed => "{\"type\":\"Completed\"}"@,
        }
    }

    /// Accepts every status but an `InProgress` above 100 percent.
    pub fn validate(&self) -> (r: Result<(), String>)
        ensures
            r is Ok <==> self.valid(),
            r matches Err(message) ==> message@ == "Progress must be between 0 and 100."@,
    {
        match self {
            Status::InProgress(p) => {
                if *p > 100 {
                    return Err(String::from_str("Progress must be between 0 and 100."));
                }
            },
            _ => {},
        }
        Ok(())
    }

    /// `Completed` from 100 percent on, `InProgress` with the percent below.
    pub fn for_percentage(pct: u64) -> (s: Status)
        ensures
            s == Status::of_percentage(pct as nat),
            pct <= 100 ==> s.valid(),
            s is Completed <==> pct >= 100,
    {
        if pct >= 100 {
            Status::Completed
        } else {
            Status::InProgress(pct)
        }
    }

    /// The status to record where this one is named beside the percentage
    /// `pct`. A named status that contradicts the percentage gives way to the
    /// one that the percentage stands for, so that `Completed` is on record
    /// exactly at 100 percent.
    pub fn settle(self, pct: u64) -> (s: Status)
        ensures
            s == self.settled(pct as nat),
            pct <= 100 ==> (s is Completed <==> pct == 100),
            pct <= 100 ==> (s matches Status::InProgress(p) ==> p == pct),
            pct <= 100 ==> s.valid(),
    {
        let agrees = match self {
            Status::Initiated => pct < 100,
            Status::InProgress(p) => p == pct && pct < 100,
            Status::Completed => pct == 100,
        };
        if agrees {
            self
        } else {
            Status::for_percentage(pct)
        }
    }

    /// The text shown for the status: `Initiated`, `Completed`, or
    /// `In Progress: ` with the percent to two decimals.
    pub fn label(&self) -> (r: String)
        ensures
            r@ == self.label_text(),
    {
        match self {
            Status::Initiated => String::from_str("Initiated"),
            Status::InProgress(p) => {
                let mut s = String::from_str("In Progress: ");
                let digits = decimal_text(*p);
                s.append(digits.as_str());
                s.append(".00%");
                s
            },
            Status::Completed => String::from_str("Completed"),
        }
    }

    /// The status as a JSON object with its variant under `type` and the
    /// percent of `InProgress` under `value`.
    pub fn to_json(&self) -> (r: String)
        ensures
            r@ == self.json_text(),
    {
        match self {
            Status::Initiated => String::from_str("{\"type\":\"Initiated\"}"),
            Status::InProgress(p) => {
                let mut s = String::from_str("{\"type\":\"InProgress\",\"value\":");
                let digits = decimal_text(*p);
                s.append(digits.as_str());
                s.append(".0}");
                s
            },
            Status::Completed => String::from_str("{\"type\":\"Completed\"}"),
        }
    }
}

/// What a progress record is in mathematical terms.
pub struct RecordView {
    pub user_email: Seq<char>,
    pub course: DocId,
    pub status: Status,
    pub completed: Set<DocId>,
    pub percentage: nat,
    pub timestamp: Seq<char>,
}

/// The progress of one user in one course. There is one record for each
/// pair of user and course.
#[derive(Debug)]
pub struct ProgressRecord {
    pub user_email: String,
    pub course: DocId,
    pub status: Status,
    pub completed: CompletedSet,
    pub percentage: u64,
    pub timestamp: String,
}

impl View for ProgressRecord {
    type V = RecordView;

    open spec fn view(&self) -> RecordView {
        RecordView {
            user_email: self.user_email@,
            course: self.course,
            status: self.status,
            completed: self.completed@,
            percentage: self.percentage as nat,
            timestamp: self.timestamp@,
        }
    }
}

impl RecordView {
    /// The pair that the record is found by.
    pub open spec fn key(self) -> (Seq<char>, DocId) {
        (self.user_email, self.course)
    }

    /// The record of a user who has just registered for a course.
    pub open spec fn enrolled(user_email: Seq<char>, course: DocId, now: Seq<char>) -> RecordView {
        RecordView {
            user_email,
            course,
            status: Status::Initiated,
            completed: Set::empty(),
            percentage: 0,
            timestamp: now,
        }
    }

    /// The record once `class` is among the completed classes.
    pub open spec fn with_class(self, class: DocId) -> RecordView {
        RecordView { completed: self.completed.insert(class), ..self }
    }

    /// The record with its percentage and status derived anew from the
    /// completed classes, for a course of `total_classes` classes.
    pub open spec fn refreshed(self, total_classes: nat, now: Seq<char>) -> RecordView {
        let percentage = percentage_of(self.completed.len(), total_classes);
        RecordView {
            percentage,
            status: Status::of_percentage(percentage),
            timestamp: now,
            ..self
        }
    }

    /// The record with its percentage derived anew and the status that a
    /// caller names, where that status agrees with the percentage; where it
    /// does not, the status is the one that the percentage stands for.
    pub open spec fn restated(self, status: Status, total_classes: nat, now: Seq<char>)
        -> RecordView {
        let percentage = percentage_of(self.completed.len(), total_classes);
        RecordView { percentage, status: status.settled(percentage), timestamp: now, ..self }
    }

    /// The percentage is that of the completed classes among
    /// `total_classes`, and the status is `Completed` exactly at 100 percent.
    pub open spec fn derived_from(self, total_classes: nat) -> bool {
        &&& self.percentage == percentage_of(self.completed.len(), total_classes)
        &&& self.percentage <= 100
        &&& self.status is Completed <==> self.percentage == 100
        &&& self.status matches Status::InProgress(p) ==> p == self.percentage
        &&& self.status !is Initiated
    }
}

impl ProgressRecord {
    /// The set of completed classes holds nothing twice, and percentage and
    /// status are percentages.
    pub open spec fn wf(&self) -> bool {
        &&& self.completed.wf()
        &&& self.percentage <= 100
        &&& self.status.valid()
    }

    /// The record of a user who has just registered for a course: status
    /// `Initiated`, nothing completed, 0 percent.
    pub fn enrolled(user_email: String, course: DocId, now: String) -> (r: ProgressRecord)
        ensures
            r.wf(),
            r@ == RecordView::enrolled(user_email@, course, now@),
            r.user_email == user_email,
            r.timestamp == now,
    {
        ProgressRecord {
            user_email,
            course,
            status: Status::Initiated,
            completed: CompletedSet::new(),
            percentage: 0,
            timestamp: now,
        }
    }

    /// Whether this is the record of `user_email` in `course`.
    pub fn is_for(&self, user_email: &String, course: DocId) -> (found: bool)
        ensures
            found == (self@.key() == (user_email@, course)),
    {
        self.course == course && self.user_email == *user_email
    }

    /// Puts `class` among the completed classes. A class that is there
    /// already is not counted again.
    pub fn mark_completed(&mut self, class: DocId)
        requires
            old(self).wf(),
        ensures
            final(self).wf(),
            final(self)@ == old(self)@.with_class(class),
    {
        self.completed.insert(class);
    }

    /// Derives percentage and status anew from the completed classes, for a
    /// course of `total_classes` classes, and stamps the record.
    pub fn refresh(&mut self, total_classes: u64, now: String)
        requires
            old(self).wf(),
        ensures
            final(self).wf(),
            final(self)@ == old(self)@.refreshed(total_classes as nat, now@),
            final(self)@.derived_from(total_classes as nat),
    {
        let completed: u64 = self.completed.len() as u64;
        let percentage: u64 = completion_percentage(completed, total_classes);
        self.percentage = percentage;
        self.status = Status::for_percentage(percentage);
        self.timestamp = now;
    }

    /// Derives the percentage anew, sets the status that a caller names
    /// where it agrees with the percentage and the status that the percentage
    /// stands for where it does not, and stamps the record.
    pub fn restate(&mut self, status: Status, total_classes: u64, now: String)
        requires
            old(self).wf(),
        ensures
            final(self).wf(),
            final(self)@ == old(self)@.restated(status, total_classes as nat, now@),
            final(self)@.status is Completed <==> final(self)@.percentage == 100,
            final(self)@.status matches Status::InProgress(p) ==> p == final(self)@.percentage,
    {
        let completed: u64 = self.completed.len() as u64;
        let percentage: u64 = completion_percentage(completed, total_classes);
        self.percentage = percentage;
        self.status = status.settle(percentage);
        self.timestamp = now;
    }

    /// A copy of the record.
    pub fn duplicate(&self) -> (copy: ProgressRecord)
        ensures
            copy@ == self@,
            copy.wf() == self.wf(),
            copy.user_email == self.user_email,
            copy.timestamp == self.timestamp,
            copy.completed.ids@ == self.completed.ids@,
    {
        ProgressRecord {
            user_email: self.user_email.clone(),
            course: self.course,
            status: self.status,
            completed: self.completed.duplicate(),
            percentage: self.percentage,
            timestamp: self.timestamp.clone(),
        }
    }
}

} // verus!

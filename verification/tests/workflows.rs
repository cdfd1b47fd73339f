use elearning::appraisal::{Appraisal, RatingSink};
use elearning::campus::Campus;
use elearning::completion::{Completion, Restatement};
use elearning::enrollment::{Enrollment, Withdrawal};
use elearning::error::WorkflowError;
use elearning::object_id::DocId;
use elearning::progress::Status;
use elearning::request::{
    CompleteClass, CourseStatusRegister, CourseStatusUpdate, DeleteRegisterRequest, RatingRequest,
};
use elearning::service::{
    complete_class, complete_class_at, delete_register, post_rating, post_rating_neo4j,
    rate_course_at, register_course, register_course_at, update_course_status,
    update_course_status_at,
};
use elearning::store::{Action, StoreCall, StoreReply, Success};

const COURSE: &str = "64b7f0c2a1b2c3d4e5f60001";
const OTHER_COURSE: &str = "64b7f0c2a1b2c3d4e5f60002";
const UNIT_A: &str = "64b7f0c2a1b2c3d4e5f60011";
const UNIT_B: &str = "64b7f0c2a1b2c3d4e5f60012";
const OTHER_UNIT: &str = "64b7f0c2a1b2c3d4e5f60013";
const CLASSES: [&str; 4] = [
    "64b7f0c2a1b2c3d4e5f60101",
    "64b7f0c2a1b2c3d4e5f60102",
    "64b7f0c2a1b2c3d4e5f60103",
    "64b7f0c2a1b2c3d4e5f60104",
];
const OTHER_CLASS: &str = "64b7f0c2a1b2c3d4e5f60105";
const NO_CLASS: &str = "64b7f0c2a1b2c3d4e5f60199";
const USER: &str = "learner@example.com";

fn id(text: &str) -> DocId {
    DocId::parse(text).expect("a well-formed id")
}

/// A course of two units with two classes each, and a second course of one
/// unit with one class.
fn campus() -> Campus {
    let mut campus = Campus::new();
    assert!(campus.catalog.add_course(id(COURSE)));
    assert!(campus.catalog.add_course(id(OTHER_COURSE)));
    campus.catalog.add_unit(id(UNIT_A), id(COURSE));
    campus.catalog.add_unit(id(UNIT_B), id(COURSE));
    campus.catalog.add_unit(id(OTHER_UNIT), id(OTHER_COURSE));
    campus.catalog.add_class(id(CLASSES[0]), id(UNIT_A));
    campus.catalog.add_class(id(CLASSES[1]), id(UNIT_A));
    campus.catalog.add_class(id(CLASSES[2]), id(UNIT_B));
    campus.catalog.add_class(id(CLASSES[3]), id(UNIT_B));
    campus.catalog.add_class(id(OTHER_CLASS), id(OTHER_UNIT));
    campus
}

fn register(user: &str, course: &str) -> CourseStatusRegister {
    CourseStatusRegister { user_email: user.to_string(), course_id: course.to_string() }
}

fn complete(user: &str, course: &str, class: &str) -> CompleteClass {
    CompleteClass {
        user_email: user.to_string(),
        course_id: course.to_string(),
        class_id: class.to_string(),
    }
}

fn rating(user: &str, course: &str, value: f32) -> RatingRequest {
    RatingRequest {
        user_email: user.to_string(),
        course_id: course.to_string(),
        rating_bits: value.to_bits(),
    }
}

fn completed(status: Status, percentage: u64) -> Result<Success, WorkflowError> {
    Ok(Success::ClassCompleted { status, percentage })
}

#[test]
fn a_course_of_four_classes_is_completed_class_by_class() {
    let mut campus = campus();
    assert_eq!(register_course(&mut campus, register(USER, COURSE)), Ok(Success::Registered));
    let record = campus.ledger.get(&USER.to_string(), id(COURSE)).expect("registered");
    assert_eq!(record.percentage, 0);
    assert_eq!(record.status, Status::Initiated);
    assert_eq!(record.completed.ids.len(), 0);

    assert_eq!(
        complete_class(&mut campus, complete(USER, COURSE, CLASSES[0])),
        completed(Status::InProgress(25), 25)
    );
    assert_eq!(
        complete_class(&mut campus, complete(USER, COURSE, CLASSES[0])),
        completed(Status::InProgress(25), 25)
    );
    let record = campus.ledger.get(&USER.to_string(), id(COURSE)).expect("registered");
    assert_eq!(record.completed.ids, vec![id(CLASSES[0])]);
    assert_eq!(record.percentage, 25);

    assert_eq!(
        complete_class(&mut campus, complete(USER, COURSE, CLASSES[1])),
        completed(Status::InProgress(50), 50)
    );
    assert_eq!(
        complete_class(&mut campus, complete(USER, COURSE, CLASSES[2])),
        completed(Status::InProgress(75), 75)
    );
    assert_eq!(
        complete_class(&mut campus, complete(USER, COURSE, CLASSES[3])),
        completed(Status::Completed, 100)
    );
    let record = campus.ledger.get(&USER.to_string(), id(COURSE)).expect("registered");
    assert_eq!(record.percentage, 100);
    assert_eq!(record.status, Status::Completed);
    assert_eq!(record.completed.ids.len(), 4);
    assert_eq!(campus.ledger.records.len(), 1);
}

#[test]
fn a_class_of_no_unit_is_not_found() {
    let mut campus = campus();
    register_course(&mut campus, register(USER, COURSE)).expect("registered");
    assert_eq!(
        complete_class(&mut campus, complete(USER, COURSE, NO_CLASS)),
        Err(WorkflowError::ClassNotFound)
    );
    let record = campus.ledger.get(&USER.to_string(), id(COURSE)).expect("registered");
    assert_eq!(record.completed.ids.len(), 0);
}

#[test]
fn a_user_who_is_not_registered_cannot_complete_a_class() {
    let mut campus = campus();
    register_course(&mut campus, register("other@example.com", COURSE)).expect("registered");
    assert_eq!(
        complete_class(&mut campus, complete(USER, COURSE, CLASSES[0])),
        Err(WorkflowError::NotRegistered)
    );
    assert_eq!(campus.ledger.records.len(), 1);
    assert_eq!(campus.ledger.records[0].completed.ids.len(), 0);
}

#[test]
fn completing_a_class_twice_is_completing_it_once() {
    let mut once = campus();
    register_course(&mut once, register(USER, COURSE)).expect("registered");
    let first = complete_class_at(&mut once, complete(USER, COURSE, CLASSES[2]), "t1".to_string());

    let mut twice = campus();
    register_course(&mut twice, register(USER, COURSE)).expect("registered");
    complete_class_at(&mut twice, complete(USER, COURSE, CLASSES[2]), "t1".to_string())
        .expect("completed");
    let second =
        complete_class_at(&mut twice, complete(USER, COURSE, CLASSES[2]), "t2".to_string());

    assert_eq!(first, second);
    let a = once.ledger.get(&USER.to_string(), id(COURSE)).expect("registered");
    let b = twice.ledger.get(&USER.to_string(), id(COURSE)).expect("registered");
    assert_eq!(a.completed.ids, b.completed.ids);
    assert_eq!(a.percentage, b.percentage);
    assert_eq!(a.status, b.status);
    assert_eq!(a.timestamp, "t1");
    assert_eq!(b.timestamp, "t2");
}

#[test]
fn a_second_registration_is_turned_down_and_changes_nothing() {
    let mut campus = campus();
    assert_eq!(
        register_course_at(&mut campus, register(USER, COURSE), "first".to_string()),
        Ok(Success::Registered)
    );
    complete_class(&mut campus, complete(USER, COURSE, CLASSES[0])).expect("completed");
    let inscribed = campus.catalog.courses[0].inscribed;
    assert_eq!(inscribed, 1);
    let before = campus.ledger.get(&USER.to_string(), id(COURSE)).expect("registered");

    assert_eq!(
        register_course_at(&mut campus, register(USER, COURSE), "second".to_string()),
        Err(WorkflowError::AlreadyRegistered)
    );
    let after = campus.ledger.get(&USER.to_string(), id(COURSE)).expect("registered");
    assert_eq!(campus.ledger.records.len(), 1);
    assert_eq!(campus.catalog.courses[0].inscribed, inscribed);
    assert_eq!(after.completed.ids, before.completed.ids);
    assert_eq!(after.percentage, before.percentage);
    assert_eq!(after.status, before.status);
    assert_eq!(after.timestamp, before.timestamp);
}

#[test]
fn the_same_course_spelled_in_capitals_is_the_same_registration() {
    let mut campus = campus();
    register_course(&mut campus, register(USER, COURSE)).expect("registered");
    assert_eq!(
        register_course(&mut campus, register(USER, &COURSE.to_uppercase())),
        Err(WorkflowError::AlreadyRegistered)
    );
}

#[test]
fn registering_for_an_unknown_course_leaves_the_record_behind() {
    let mut campus = campus();
    let unknown = "64b7f0c2a1b2c3d4e5f60fff";
    assert_eq!(
        register_course(&mut campus, register(USER, unknown)),
        Err(WorkflowError::CourseNotFound)
    );
    assert!(campus.ledger.get(&USER.to_string(), id(unknown)).is_some());
    assert_eq!(
        register_course(&mut campus, register(USER, unknown)),
        Err(WorkflowError::AlreadyRegistered)
    );
}

#[test]
fn registering_counts_the_user_among_the_inscribed() {
    let mut campus = campus();
    register_course(&mut campus, register(USER, COURSE)).expect("registered");
    register_course(&mut campus, register("other@example.com", COURSE)).expect("registered");
    assert_eq!(campus.catalog.courses[0].inscribed, 2);
    assert_eq!(campus.catalog.courses[1].inscribed, 0);
}

#[test]
fn registering_stamps_the_record_with_the_time_of_the_call() {
    let mut campus = campus();
    register_course(&mut campus, register(USER, COURSE)).expect("registered");
    let record = campus.ledger.get(&USER.to_string(), id(COURSE)).expect("registered");
    assert!(record.timestamp.contains('T'));
    assert!(record.timestamp.len() >= 20);
}

#[test]
fn malformed_ids_are_turned_down_before_any_store_is_touched() {
    let mut campus = campus();
    assert_eq!(
        register_course(&mut campus, register(USER, "not-an-id")),
        Err(WorkflowError::InvalidCourseId)
    );
    assert_eq!(
        complete_class(&mut campus, complete(USER, "64b7f0c2a1b2c3d4e5f6000", CLASSES[0])),
        Err(WorkflowError::InvalidCourseId)
    );
    assert_eq!(
        complete_class(&mut campus, complete(USER, COURSE, "64b7f0c2a1b2c3d4e5f6010g")),
        Err(WorkflowError::InvalidClassId)
    );
    assert_eq!(
        post_rating(&mut campus, rating(USER, "", 3.0)),
        Err(WorkflowError::InvalidCourseId)
    );
    assert_eq!(campus.ledger.records.len(), 0);
    assert_eq!(campus.edges.len(), 0);
    assert!(matches!(
        Enrollment::start(register(USER, "xyz")),
        (Enrollment::Finished(_), Action::Finish(Err(WorkflowError::InvalidCourseId)))
    ));
}

#[test]
fn ratings_of_three_and_five_give_a_mean_of_four() {
    let mut campus = campus();
    let first = post_rating(&mut campus, rating(USER, COURSE, 3.0));
    assert_eq!(
        first,
        Ok(Success::RatingAccepted { rating_bits: 3.0f32.to_bits(), mirrored: true })
    );
    assert_eq!(campus.catalog.courses[0].rating.total_rates, 1);
    let second = post_rating(&mut campus, rating("other@example.com", COURSE, 5.0));
    assert_eq!(
        second,
        Ok(Success::RatingAccepted { rating_bits: 4.0f32.to_bits(), mirrored: true })
    );
    let state = campus.catalog.courses[0].rating;
    assert_eq!(state.rating_bits.map(f32::from_bits), Some(4.0));
    assert_eq!(state.total_rates, 2);
    assert_eq!(campus.catalog.courses[1].rating.total_rates, 0);
    assert_eq!(campus.catalog.courses[1].rating.rating_bits, None);
    assert_eq!(campus.edges.len(), 2);
    assert_eq!(campus.edges[1].user_email, "other@example.com");
    assert_eq!(f32::from_bits(campus.edges[1].rating_bits), 5.0);
    assert_eq!(campus.notes.len(), 0);
}

#[test]
fn a_rating_outside_one_to_five_is_turned_down_and_changes_nothing() {
    let mut campus = campus();
    post_rating(&mut campus, rating(USER, COURSE, 2.0)).expect("accepted");
    let before = campus.catalog.courses[0].rating;
    for value in [0.0f32, 0.5, 0.99999994, 5.0000005, 5.5, 100.0, -3.0, f32::NAN, f32::INFINITY] {
        assert_eq!(
            post_rating(&mut campus, rating(USER, COURSE, value)),
            Err(WorkflowError::InvalidRating)
        );
        assert_eq!(
            post_rating_neo4j(&mut campus, rating(USER, COURSE, value)),
            Err(WorkflowError::InvalidRating)
        );
    }
    assert_eq!(campus.catalog.courses[0].rating, before);
    assert_eq!(campus.edges.len(), 1);
    assert_eq!(campus.notes.len(), 0);
}

#[test]
fn the_bounds_of_the_rating_are_accepted() {
    let mut campus = campus();
    assert!(post_rating(&mut campus, rating(USER, COURSE, 1.0)).is_ok());
    assert!(post_rating(&mut campus, rating(USER, COURSE, 5.0)).is_ok());
    assert_eq!(campus.catalog.courses[0].rating.total_rates, 2);
    assert_eq!(campus.catalog.courses[0].rating.rating_bits.map(f32::from_bits), Some(3.0));
}

#[test]
fn rating_an_unknown_course_is_not_found() {
    let mut campus = campus();
    assert_eq!(
        post_rating(&mut campus, rating(USER, "64b7f0c2a1b2c3d4e5f60fff", 4.0)),
        Err(WorkflowError::CourseNotFound)
    );
    assert_eq!(campus.edges.len(), 0);
}

#[test]
fn a_rating_can_be_noted_in_the_record_of_the_user() {
    let mut campus = campus();
    register_course(&mut campus, register(USER, COURSE)).expect("registered");
    let outcome = rate_course_at(
        &mut campus,
        rating(USER, COURSE, 2.5),
        RatingSink::UserData,
        "now".to_string(),
    );
    assert_eq!(
        outcome,
        Ok(Success::RatingAccepted { rating_bits: 2.5f32.to_bits(), mirrored: true })
    );
    assert_eq!(campus.notes.len(), 1);
    assert_eq!(campus.notes[0].timestamp, "now");
    assert_eq!(campus.notes[0].course, id(COURSE));
    assert_eq!(campus.edges.len(), 0);
    assert_eq!(campus.ledger.records.len(), 1);
}

#[test]
fn a_rating_makes_no_registration() {
    let mut campus = campus();
    let outcome = post_rating_neo4j(&mut campus, rating(USER, COURSE, 2.5));
    assert_eq!(
        outcome,
        Ok(Success::RatingAccepted { rating_bits: 2.5f32.to_bits(), mirrored: false })
    );
    assert_eq!(campus.catalog.courses[0].rating.total_rates, 1);
    assert_eq!(campus.notes.len(), 0);
    assert_eq!(campus.ledger.records.len(), 0);
    assert_eq!(register_course(&mut campus, register(USER, COURSE)), Ok(Success::Registered));
    post_rating(&mut campus, rating("other@example.com", COURSE, 2.5)).expect("accepted");
    assert_eq!(campus.ledger.records.len(), 1);
    assert_eq!(campus.edges.len(), 1);
}

#[test]
fn a_failing_mirror_does_not_undo_the_rating() {
    let (stage, action) = Appraisal::start(rating(USER, COURSE, 4.0), RatingSink::Graph);
    assert!(matches!(action, Action::Call(StoreCall::FindCourseRating { .. })));
    let stored =
        elearning::rating::StoredRating { rating_bits: Some(2.0f32.to_bits()), total_rates: 1 };
    let (stage, action) =
        stage.advance_at(StoreReply::CourseRating(Some(stored)), "now".to_string());
    match action {
        Action::Call(StoreCall::SetCourseRating { course, rating_bits }) => {
            assert_eq!(course, id(COURSE));
            assert_eq!(f32::from_bits(rating_bits), 3.0);
        }
        other => panic!("unexpected {:?}", other),
    }
    let (stage, action) = stage.advance_at(StoreReply::Done, "now".to_string());
    match action {
        Action::Call(StoreCall::MirrorRating { user_email, rating_bits, timestamp, .. }) => {
            assert_eq!(user_email, USER);
            assert_eq!(f32::from_bits(rating_bits), 4.0);
            assert_eq!(timestamp, "now");
        }
        other => panic!("unexpected {:?}", other),
    }
    let (_, action) = stage.advance(StoreReply::Failed);
    assert!(matches!(
        action,
        Action::Finish(Ok(Success::RatingAccepted { mirrored: false, .. }))
    ));
}

#[test]
fn two_ratings_that_read_the_same_state_lose_one() {
    let mut campus = campus();
    let (first, first_read) = Appraisal::start(rating(USER, COURSE, 1.0), RatingSink::Graph);
    let (second, second_read) =
        Appraisal::start(rating("other@example.com", COURSE, 5.0), RatingSink::Graph);
    let (Action::Call(first_read), Action::Call(second_read)) = (first_read, second_read) else {
        panic!("both read the rating state first");
    };
    let first_state = campus.perform(first_read);
    let second_state = campus.perform(second_read);
    let (_, first_write) = first.advance(first_state);
    let (_, second_write) = second.advance(second_state);
    let (Action::Call(first_write), Action::Call(second_write)) = (first_write, second_write)
    else {
        panic!("both write the mean next");
    };
    campus.perform(first_write);
    campus.perform(second_write);
    let state = campus.catalog.courses[0].rating;
    assert_eq!(state.total_rates, 2);
    assert_eq!(state.rating_bits.map(f32::from_bits), Some(5.0));
}

#[test]
fn a_class_of_another_course_is_counted_all_the_same() {
    let mut campus = campus();
    register_course(&mut campus, register(USER, OTHER_COURSE)).expect("registered");
    assert_eq!(
        complete_class(&mut campus, complete(USER, OTHER_COURSE, CLASSES[0])),
        completed(Status::Completed, 100)
    );
}

#[test]
fn a_course_without_classes_stays_at_zero() {
    let mut campus = Campus::new();
    campus.catalog.add_course(id(COURSE));
    campus.catalog.add_class(id(CLASSES[0]), id(UNIT_A));
    register_course(&mut campus, register(USER, COURSE)).expect("registered");
    assert_eq!(
        complete_class(&mut campus, complete(USER, COURSE, CLASSES[0])),
        completed(Status::InProgress(0), 0)
    );
}

#[test]
fn the_total_is_counted_anew_in_every_run() {
    let mut campus = campus();
    register_course(&mut campus, register(USER, COURSE)).expect("registered");
    assert_eq!(
        complete_class(&mut campus, complete(USER, COURSE, CLASSES[0])),
        completed(Status::InProgress(25), 25)
    );
    campus.catalog.add_class(id(NO_CLASS), id(UNIT_B));
    assert_eq!(
        complete_class(&mut campus, complete(USER, COURSE, CLASSES[0])),
        completed(Status::InProgress(20), 20)
    );
}

#[test]
fn leaving_a_course_deletes_the_record() {
    let mut campus = campus();
    register_course(&mut campus, register(USER, COURSE)).expect("registered");
    let leave = |course: &str| DeleteRegisterRequest {
        user_email: USER.to_string(),
        course_id: course.to_string(),
    };
    assert_eq!(delete_register(&mut campus, leave(COURSE)), Ok(Success::Unregistered));
    assert_eq!(campus.ledger.records.len(), 0);
    assert_eq!(delete_register(&mut campus, leave(COURSE)), Ok(Success::Unregistered));
    assert_eq!(delete_register(&mut campus, leave("no id")), Ok(Success::Unregistered));
    assert_eq!(
        complete_class(&mut campus, complete(USER, COURSE, CLASSES[0])),
        Err(WorkflowError::NotRegistered)
    );
    assert_eq!(register_course(&mut campus, register(USER, COURSE)), Ok(Success::Registered));
    assert!(matches!(
        Withdrawal::start(leave(COURSE)).0.advance(StoreReply::Failed).1,
        Action::Finish(Err(WorkflowError::ProgressStoreUnavailable))
    ));
}

#[test]
fn a_named_status_is_put_on_record_with_the_percentage_derived() {
    let mut campus = campus();
    register_course(&mut campus, register(USER, COURSE)).expect("registered");
    complete_class(&mut campus, complete(USER, COURSE, CLASSES[0])).expect("completed");
    complete_class(&mut campus, complete(USER, COURSE, CLASSES[1])).expect("completed");
    let update = |status: Status| CourseStatusUpdate {
        user_email: USER.to_string(),
        course_id: COURSE.to_string(),
        status,
    };
    assert_eq!(
        update_course_status_at(&mut campus, update(Status::Initiated), "then".to_string()),
        Ok(Success::StatusUpdated { status: Status::Initiated, percentage: 50 })
    );
    let record = campus.ledger.get(&USER.to_string(), id(COURSE)).expect("registered");
    assert_eq!(record.status, Status::Initiated);
    assert_eq!(record.percentage, 50);
    assert_eq!(record.completed.ids.len(), 2);
    assert_eq!(record.timestamp, "then");
    assert_eq!(
        update_course_status(&mut campus, update(Status::InProgress(50))),
        Ok(Success::StatusUpdated { status: Status::InProgress(50), percentage: 50 })
    );
    assert_eq!(
        update_course_status(&mut campus, update(Status::InProgress(101))),
        Err(WorkflowError::InvalidStatus)
    );
    assert_eq!(
        update_course_status(
            &mut campus,
            CourseStatusUpdate {
                user_email: USER.to_string(),
                course_id: "?".to_string(),
                status: Status::Completed,
            }
        ),
        Err(WorkflowError::InvalidCourseId)
    );
}

#[test]
fn a_status_named_against_the_percentage_gives_way_to_the_derived_one() {
    let mut campus = campus();
    register_course(&mut campus, register(USER, COURSE)).expect("registered");
    complete_class(&mut campus, complete(USER, COURSE, CLASSES[0])).expect("completed");
    complete_class(&mut campus, complete(USER, COURSE, CLASSES[1])).expect("completed");
    let update = |status: Status| CourseStatusUpdate {
        user_email: USER.to_string(),
        course_id: COURSE.to_string(),
        status,
    };
    let half = Ok(Success::StatusUpdated { status: Status::InProgress(50), percentage: 50 });
    assert_eq!(update_course_status(&mut campus, update(Status::Completed)), half);
    let record = campus.ledger.get(&USER.to_string(), id(COURSE)).expect("registered");
    assert_eq!((record.status, record.percentage), (Status::InProgress(50), 50));
    assert_eq!(update_course_status(&mut campus, update(Status::InProgress(10))), half);
    assert_eq!(update_course_status(&mut campus, update(Status::InProgress(100))), half);

    complete_class(&mut campus, complete(USER, COURSE, CLASSES[2])).expect("completed");
    complete_class(&mut campus, complete(USER, COURSE, CLASSES[3])).expect("completed");
    let whole = Ok(Success::StatusUpdated { status: Status::Completed, percentage: 100 });
    assert_eq!(update_course_status(&mut campus, update(Status::Initiated)), whole);
    assert_eq!(update_course_status(&mut campus, update(Status::InProgress(99))), whole);
    assert_eq!(update_course_status(&mut campus, update(Status::Completed)), whole);
    let record = campus.ledger.get(&USER.to_string(), id(COURSE)).expect("registered");
    assert_eq!((record.status, record.percentage), (Status::Completed, 100));
    assert_eq!(record.completed.ids.len(), 4);
}

#[test]
fn naming_a_status_without_a_record_is_turned_down() {
    let mut campus = campus();
    let outcome = update_course_status(
        &mut campus,
        CourseStatusUpdate {
            user_email: USER.to_string(),
            course_id: COURSE.to_string(),
            status: Status::Completed,
        },
    );
    assert_eq!(outcome, Err(WorkflowError::NotRegistered));
    assert_eq!(campus.ledger.records.len(), 0);
    assert_eq!(register_course(&mut campus, register(USER, COURSE)), Ok(Success::Registered));
    assert_eq!(campus.catalog.courses[0].inscribed, 1);
    let (stage, _) = Restatement::start(CourseStatusUpdate {
        user_email: USER.to_string(),
        course_id: COURSE.to_string(),
        status: Status::Initiated,
    });
    let (stage, _) = stage.advance(StoreReply::Units(vec![]));
    let (stage, _) = stage.advance(StoreReply::Count(0));
    assert!(matches!(
        stage.advance(StoreReply::Record(None)).1,
        Action::Finish(Err(WorkflowError::NotRegistered))
    ));
}

#[test]
fn a_completed_class_counts_once_however_often_a_reply_holds_it() {
    let twice = || elearning::completed::CompletedSet { ids: vec![id(CLASSES[0]), id(CLASSES[0])] };
    assert_eq!(twice().count(), 1);
    let (stage, _) = Completion::start(complete(USER, COURSE, CLASSES[0]));
    let (stage, _) = stage.advance(StoreReply::Found(true));
    let (stage, _) = stage.advance(StoreReply::Record(Some(twice())));
    let (stage, _) = stage.advance(StoreReply::Done);
    let (stage, _) = stage.advance(StoreReply::Record(Some(twice())));
    let (stage, _) = stage.advance(StoreReply::Units(vec![id(UNIT_A)]));
    let (_, action) = stage.advance(StoreReply::Count(2));
    assert!(matches!(
        action,
        Action::Call(StoreCall::SaveProgress {
            status: Status::InProgress(50),
            percentage: 50,
            ..
        })
    ));
    let (stage, _) = Restatement::start(CourseStatusUpdate {
        user_email: USER.to_string(),
        course_id: COURSE.to_string(),
        status: Status::Completed,
    });
    let (stage, _) = stage.advance(StoreReply::Units(vec![id(UNIT_A)]));
    let (stage, _) = stage.advance(StoreReply::Count(2));
    let (_, action) = stage.advance(StoreReply::Record(Some(twice())));
    assert!(matches!(
        action,
        Action::Call(StoreCall::SaveProgress {
            status: Status::InProgress(50),
            percentage: 50,
            ..
        })
    ));
}

#[test]
fn a_record_that_is_gone_when_the_class_is_added_is_no_registration() {
    let (stage, _) = Completion::start(complete(USER, COURSE, CLASSES[0]));
    let (stage, _) = stage.advance(StoreReply::Found(true));
    let (stage, action) =
        stage.advance(StoreReply::Record(Some(elearning::completed::CompletedSet::new())));
    assert!(matches!(action, Action::Call(StoreCall::AddCompleted { .. })));
    assert!(matches!(
        stage.advance(StoreReply::Missing).1,
        Action::Finish(Err(WorkflowError::NotRegistered))
    ));
}

#[test]
fn a_mean_that_is_written_to_no_course_ends_the_rating() {
    let (stage, _) = Appraisal::start(rating(USER, COURSE, 4.0), RatingSink::Graph);
    let stored = elearning::rating::StoredRating { rating_bits: None, total_rates: 0 };
    let (stage, action) = stage.advance(StoreReply::CourseRating(Some(stored)));
    assert!(matches!(action, Action::Call(StoreCall::SetCourseRating { .. })));
    assert!(matches!(
        stage.advance(StoreReply::Missing).1,
        Action::Finish(Err(WorkflowError::CourseNotFound))
    ));
    let (stage, _) = Appraisal::start(rating(USER, COURSE, 4.0), RatingSink::Graph);
    let (stage, _) = stage.advance(StoreReply::CourseRating(Some(stored)));
    assert!(matches!(
        stage.advance(StoreReply::Failed).1,
        Action::Finish(Err(WorkflowError::ContentStoreUnavailable))
    ));
}

#[test]
fn a_failing_store_ends_a_completion_at_every_step() {
    let run = |replies: Vec<StoreReply>| {
        let (mut stage, mut action) = Completion::start(complete(USER, COURSE, CLASSES[0]));
        for reply in replies {
            assert!(matches!(action, Action::Call(_)));
            (stage, action) = stage.advance_at(reply, "now".to_string());
        }
        match action {
            Action::Finish(outcome) => outcome,
            Action::Call(call) => panic!("not ended: {:?}", call),
        }
    };
    let set = || {
        let mut set = elearning::completed::CompletedSet::new();
        set.insert(id(CLASSES[0]));
        set
    };
    let content = Err(WorkflowError::ContentStoreUnavailable);
    let progress = Err(WorkflowError::ProgressStoreUnavailable);
    assert_eq!(run(vec![StoreReply::Failed]), content);
    assert_eq!(run(vec![StoreReply::Found(false)]), Err(WorkflowError::ClassNotFound));
    assert_eq!(run(vec![StoreReply::Found(true), StoreReply::Failed]), progress);
    assert_eq!(
        run(vec![StoreReply::Found(true), StoreReply::Record(None)]),
        Err(WorkflowError::NotRegistered)
    );
    let registered = || vec![StoreReply::Found(true), StoreReply::Record(Some(set()))];
    let mut replies = registered();
    replies.push(StoreReply::Failed);
    assert_eq!(run(replies), progress);
    let mut replies = registered();
    replies.extend([StoreReply::Done, StoreReply::Record(None)]);
    assert_eq!(run(replies), progress);
    let reread = || {
        let mut replies = registered();
        replies.extend([StoreReply::Done, StoreReply::Record(Some(set()))]);
        replies
    };
    let mut replies = reread();
    replies.push(StoreReply::Failed);
    assert_eq!(run(replies), content);
    let mut replies = reread();
    replies.extend([StoreReply::Units(vec![id(UNIT_A)]), StoreReply::Failed]);
    assert_eq!(run(replies), content);
    let counted = || {
        let mut replies = reread();
        replies.extend([StoreReply::Units(vec![id(UNIT_A)]), StoreReply::Count(3)]);
        replies
    };
    let mut replies = counted();
    replies.push(StoreReply::Failed);
    assert_eq!(run(replies), progress);
    let mut replies = counted();
    replies.push(StoreReply::Done);
    assert_eq!(run(replies), completed(Status::InProgress(33), 33));
}

#[test]
fn the_calls_of_a_completion_come_in_their_order() {
    let (stage, action) = Completion::start(complete(USER, COURSE, CLASSES[1]));
    assert!(matches!(action, Action::Call(StoreCall::FindClass { class }) if class == id(CLASSES[1])));
    let (stage, action) = stage.advance(StoreReply::Found(true));
    assert!(matches!(action, Action::Call(StoreCall::GetRecord { .. })));
    let (stage, action) =
        stage.advance(StoreReply::Record(Some(elearning::completed::CompletedSet::new())));
    assert!(matches!(
        action,
        Action::Call(StoreCall::AddCompleted { class, course, .. })
            if class == id(CLASSES[1]) && course == id(COURSE)
    ));
    let (stage, action) = stage.advance(StoreReply::Done);
    assert!(matches!(action, Action::Call(StoreCall::GetRecord { .. })));
    let mut set = elearning::completed::CompletedSet::new();
    set.insert(id(CLASSES[1]));
    let (stage, action) = stage.advance(StoreReply::Record(Some(set)));
    assert!(matches!(action, Action::Call(StoreCall::ListUnits { course }) if course == id(COURSE)));
    let (stage, action) = stage.advance(StoreReply::Units(vec![id(UNIT_A), id(UNIT_B)]));
    assert!(matches!(
        action,
        Action::Call(StoreCall::CountClasses { ref units }) if units.len() == 2
    ));
    let (stage, action) = stage.advance(StoreReply::Count(4));
    match action {
        Action::Call(StoreCall::SaveProgress {
            status, percentage, completed, timestamp, ..
        }) => {
            assert_eq!(status, Status::InProgress(25));
            assert_eq!(percentage, 25);
            assert_eq!(completed.ids, vec![id(CLASSES[1])]);
            assert!(!timestamp.is_empty());
        }
        other => panic!("unexpected {:?}", other),
    }
    let (stage, action) = stage.advance(StoreReply::Done);
    assert!(matches!(
        action,
        Action::Finish(Ok(Success::ClassCompleted { status: Status::InProgress(25), percentage: 25 }))
    ));
    let (_, action) = stage.advance(StoreReply::Failed);
    assert!(matches!(
        action,
        Action::Finish(Ok(Success::ClassCompleted { status: Status::InProgress(25), percentage: 25 }))
    ));
}

#[test]
fn a_failing_store_ends_a_registration() {
    let (stage, _) = Enrollment::start(register(USER, COURSE));
    assert!(matches!(
        stage.advance(StoreReply::Failed).1,
        Action::Finish(Err(WorkflowError::ProgressStoreUnavailable))
    ));
    let (stage, _) = Enrollment::start(register(USER, COURSE));
    let (stage, action) = stage.advance(StoreReply::Record(None));
    assert!(matches!(action, Action::Call(StoreCall::CreateRecord { .. })));
    let (stage, action) = stage.advance(StoreReply::Done);
    assert!(matches!(action, Action::Call(StoreCall::AddInscribed { .. })));
    assert!(matches!(
        stage.advance(StoreReply::Failed).1,
        Action::Finish(Err(WorkflowError::ContentStoreUnavailable))
    ));
}

#[test]
fn a_failing_store_ends_the_naming_of_a_status() {
    let start = || {
        Restatement::start(CourseStatusUpdate {
            user_email: USER.to_string(),
            course_id: COURSE.to_string(),
            status: Status::Initiated,
        })
    };
    assert!(matches!(
        start().0.advance(StoreReply::Failed).1,
        Action::Finish(Err(WorkflowError::ContentStoreUnavailable))
    ));
    let (stage, _) = start();
    let (stage, _) = stage.advance(StoreReply::Units(vec![]));
    let (stage, action) = stage.advance(StoreReply::Count(0));
    assert!(matches!(action, Action::Call(StoreCall::GetRecord { .. })));
    assert!(matches!(
        stage.advance(StoreReply::Count(1)).1,
        Action::Finish(Err(WorkflowError::ProgressStoreUnavailable))
    ));
}

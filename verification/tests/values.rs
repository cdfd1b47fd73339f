use elearning::account::{
    course_ids, find_field, login_outcome, strip_prefix_or_empty, LoginOutcome, User,
};
use elearning::catalog::Catalog;
use elearning::class::{Classy, ClassyReceive};
use elearning::comment::{Comment, CommentReceive, TypeComment};
use elearning::completed::CompletedSet;
use elearning::course::{Course, CourseReceive, FullCourse};
use elearning::error::{ErrorClass, WorkflowError};
use elearning::item::{
    comment_item, comment_key, partition_key, progress_item, record_key, registration_item,
    sort_key, table_name, user_item, Field, FieldValue,
};
use elearning::ledger::Ledger;
use elearning::mirror::{
    comment_node_parameters, comment_statement, course_statement, rating_edge_parameters,
    rating_statement,
};
use elearning::object_id::DocId;
use elearning::progress::{completion_percentage, ProgressRecord, Status};
use elearning::rating::{next_stored_mean, Rating, RatingState, StoredRating};
use elearning::sorting::stable_places;
use elearning::store::Success;
use elearning::text::{decimal_text, joined};
use elearning::unit::{id_number, sort_by_order, with_unit, Unit, UnitFullCourse, UnitReceive, UnitSend};
use elearning::users::{User as Learner, UserReceive};

fn text_of(item: &[Field], name: &str) -> Option<String> {
    item.iter().find(|f| f.name == name).and_then(|f| match &f.value {
        FieldValue::Text(t) => Some(t.clone()),
        FieldValue::Number(n) => Some(n.clone()),
        FieldValue::TextSet(_) => None,
    })
}

fn names(item: &[Field]) -> Vec<&str> {
    item.iter().map(|f| f.name.as_str()).collect()
}

#[test]
fn an_id_is_read_from_twenty_four_hexadecimal_digits() {
    let id = DocId::parse("64b7f0c2a1b2c3d4e5f60718").expect("well formed");
    assert_eq!(id, DocId { seconds: 0x64b7_f0c2, tail: 0xa1b2_c3d4_e5f6_0718 });
    assert_eq!(
        DocId::parse("000000000000000000000000"),
        Some(DocId { seconds: 0, tail: 0 })
    );
    assert_eq!(
        DocId::parse("ffffffffffffffffffffffff"),
        Some(DocId { seconds: u32::MAX, tail: u64::MAX })
    );
    assert_eq!(
        DocId::parse("0000000100000000000000ff"),
        Some(DocId { seconds: 1, tail: 255 })
    );
}

#[test]
fn capitals_spell_the_same_id_and_are_written_back_small() {
    let small = DocId::parse("64b7f0c2a1b2c3d4e5f6abcd").expect("well formed");
    let capital = DocId::parse("64B7F0C2A1B2C3D4E5F6ABCD").expect("well formed");
    let mixed = DocId::parse("64b7F0c2A1b2C3d4E5f6AbCd").expect("well formed");
    assert_eq!(small, capital);
    assert_eq!(small, mixed);
    assert_eq!(capital.to_hex(), "64b7f0c2a1b2c3d4e5f6abcd");
}

#[test]
fn what_is_not_twenty_four_hexadecimal_digits_is_no_id() {
    for text in [
        "",
        "64b7f0c2a1b2c3d4e5f6071",
        "64b7f0c2a1b2c3d4e5f607180",
        "64b7f0c2a1b2c3d4e5f6071g",
        "64b7f0c2a1b2c3d4e5f6071 ",
        "+4b7f0c2a1b2c3d4e5f60718",
        "64b7f0c2-a1b2c3d4e5f6071",
        "64b7f0c2a1b2c3d4e5f607é",
        "６４b7f0c2a1b2c3d4e5f6",
    ] {
        assert_eq!(DocId::parse(text), None, "{:?}", text);
    }
}

#[test]
fn an_id_is_written_as_it_was_read() {
    for id in [
        DocId { seconds: 0, tail: 0 },
        DocId { seconds: 1, tail: 1 },
        DocId { seconds: 0x0102_0304, tail: 0x0506_0708_090a_0b0c },
        DocId { seconds: u32::MAX, tail: u64::MAX },
        DocId { seconds: 0xdead_beef, tail: 0x0000_0000_0000_00ff },
    ] {
        let hex = id.to_hex();
        assert_eq!(hex.len(), 24);
        assert_eq!(DocId::parse(&hex), Some(id));
    }
    assert_eq!(
        DocId { seconds: 0x0102_0304, tail: 0x0506_0708_090a_0b0c }.to_hex(),
        "0102030405060708090a0b0c"
    );
}

#[test]
fn the_percentage_is_the_rounded_share() {
    assert_eq!(completion_percentage(0, 4), 0);
    assert_eq!(completion_percentage(1, 4), 25);
    assert_eq!(completion_percentage(2, 4), 50);
    assert_eq!(completion_percentage(3, 4), 75);
    assert_eq!(completion_percentage(4, 4), 100);
    assert_eq!(completion_percentage(1, 3), 33);
    assert_eq!(completion_percentage(2, 3), 67);
    assert_eq!(completion_percentage(1, 8), 13);
    assert_eq!(completion_percentage(29, 200), 15);
    assert_eq!(completion_percentage(1, 200), 1);
    assert_eq!(completion_percentage(1, 201), 0);
    assert_eq!(completion_percentage(199, 200), 100);
    assert_eq!(completion_percentage(198, 200), 99);
}

#[test]
fn the_percentage_is_capped_and_zero_without_classes() {
    assert_eq!(completion_percentage(0, 0), 0);
    assert_eq!(completion_percentage(7, 0), 0);
    assert_eq!(completion_percentage(5, 4), 100);
    assert_eq!(completion_percentage(u64::MAX, 1), 100);
    assert_eq!(completion_percentage(u64::MAX - 1, u64::MAX), 100);
    assert_eq!(completion_percentage(u64::MAX / 2, u64::MAX), 50);
}

#[test]
fn the_percentage_agrees_with_rounding_the_exact_share() {
    for total in 1u64..=60 {
        for done in 0..=total {
            let exact = (200 * done + total) / (2 * total);
            assert_eq!(completion_percentage(done, total), exact);
            let tenfold = (done as f64) * 100.0 / (total as f64);
            assert!((completion_percentage(done, total) as f64 - tenfold).abs() <= 0.5);
        }
    }
}

#[test]
fn the_status_follows_the_percentage() {
    assert_eq!(Status::for_percentage(0), Status::InProgress(0));
    assert_eq!(Status::for_percentage(99), Status::InProgress(99));
    assert_eq!(Status::for_percentage(100), Status::Completed);
    assert_eq!(Status::for_percentage(250), Status::Completed);
}

#[test]
fn a_status_above_a_hundred_percent_is_not_valid() {
    assert_eq!(Status::Initiated.validate(), Ok(()));
    assert_eq!(Status::Completed.validate(), Ok(()));
    assert_eq!(Status::InProgress(0).validate(), Ok(()));
    assert_eq!(Status::InProgress(100).validate(), Ok(()));
    assert_eq!(
        Status::InProgress(101).validate(),
        Err("Progress must be between 0 and 100.".to_string())
    );
}

#[test]
fn a_status_is_shown_and_stored_as_text() {
    assert_eq!(Status::Initiated.label(), "Initiated");
    assert_eq!(Status::Completed.label(), "Completed");
    assert_eq!(Status::InProgress(25).label(), "In Progress: 25.00%");
    assert_eq!(Status::InProgress(0).label(), "In Progress: 0.00%");
    assert_eq!(Status::Initiated.to_json(), "{\"type\":\"Initiated\"}");
    assert_eq!(Status::Completed.to_json(), "{\"type\":\"Completed\"}");
    assert_eq!(Status::InProgress(7).to_json(), "{\"type\":\"InProgress\",\"value\":7.0}");
}

#[test]
fn numbers_are_written_in_decimal() {
    assert_eq!(decimal_text(0), "0");
    assert_eq!(decimal_text(9), "9");
    assert_eq!(decimal_text(10), "10");
    assert_eq!(decimal_text(100), "100");
    assert_eq!(decimal_text(1234567890), "1234567890");
    assert_eq!(decimal_text(u64::MAX), "18446744073709551615");
    assert_eq!(joined("user#", "a"), "user#a");
}

#[test]
fn a_rating_is_read_from_the_bits_of_a_number() {
    assert_eq!(Rating::from_f32_bits(1.0f32.to_bits()), Some(Rating { units: 1 << 23 }));
    assert_eq!(Rating::from_f32_bits(5.0f32.to_bits()), Some(Rating { units: 5 << 23 }));
    assert_eq!(Rating::from_f32_bits(2.0f32.to_bits()), Some(Rating { units: 2 << 23 }));
    assert_eq!(Rating::from_f32_bits(4.0f32.to_bits()), Some(Rating { units: 4 << 23 }));
    assert_eq!(Rating::from_f32_bits(1.5f32.to_bits()), Some(Rating { units: 3 << 22 }));
    for value in [1.0f32, 1.0000001, 1.9999999, 2.4, 3.3333333, 3.9999998, 4.0000005, 4.75, 5.0] {
        let rating = Rating::from_f32_bits(value.to_bits()).expect("between 1 and 5");
        assert_eq!(rating.units as f64, value as f64 * 8388608.0, "{}", value);
        assert_eq!(rating.to_f32_bits(), value.to_bits());
    }
    for value in [0.99999994f32, 5.0000005, 0.0, -0.0, -1.0, 8.0, f32::NAN, f32::NEG_INFINITY] {
        assert_eq!(Rating::from_f32_bits(value.to_bits()), None, "{}", value);
    }
    assert_eq!(Rating::from_f32_bits(u32::MAX), None);
    assert_eq!(Rating::from_f32_bits(0), None);
}

#[test]
fn a_rating_is_written_as_the_nearest_number() {
    for units in (1u32 << 23..=5 << 23).step_by(4099) {
        let bits = Rating { units }.to_f32_bits();
        let nearest = (units as f64 / 8388608.0) as f32;
        assert_eq!(bits, nearest.to_bits(), "{}", units);
    }
    for units in [(1 << 24) - 1, 1 << 24, (1 << 24) + 1, (1 << 25) - 1, (1 << 25) + 2, 5 << 23] {
        let bits = Rating { units }.to_f32_bits();
        let nearest = (units as f64 / 8388608.0) as f32;
        assert_eq!(bits, nearest.to_bits(), "{}", units);
    }
}

#[test]
fn the_mean_is_the_weighted_mean_to_the_nearest_unit() {
    let one = Rating::from_f32_bits(1.0f32.to_bits()).expect("a rating");
    let two = Rating::from_f32_bits(2.0f32.to_bits()).expect("a rating");
    let five = Rating::from_f32_bits(5.0f32.to_bits()).expect("a rating");
    let fresh = RatingState::unrated();
    assert_eq!(fresh.next_mean(two), two);
    let once = fresh.counted(two).expect("counted");
    assert_eq!(once, RatingState { rating: Some(two), total_rates: 1 });
    assert_eq!(once.next_mean(one), Rating { units: 3 << 22 });
    let twice = once.counted(one).expect("counted");
    assert_eq!(twice.total_rates, 2);
    // (1.5 * 2 + 5) / 3 = 8 / 3 of 2^23 units, which is 22369621.33..
    assert_eq!(twice.next_mean(five), Rating { units: 22369621 });
    // (1 * 2 + 2) / 3 = 4 / 3 of 2^23 units, which is 11184810.66..
    let ones = RatingState { rating: Some(one), total_rates: 2 };
    assert_eq!(ones.next_mean(two), Rating { units: 11184811 });
    let full = RatingState { rating: Some(five), total_rates: u64::MAX };
    assert_eq!(full.next_mean(one), five);
    assert_eq!(full.counted(one), None);
}

#[test]
fn the_mean_is_read_from_and_written_to_what_the_store_holds() {
    let three = Rating::from_f32_bits(3.0f32.to_bits()).expect("a rating");
    let unrated = StoredRating { rating_bits: None, total_rates: 0 };
    assert_eq!(RatingState::from_stored(unrated), Some(RatingState::unrated()));
    assert_eq!(next_stored_mean(unrated, three), Some(3.0f32.to_bits()));
    let seeded = StoredRating { rating_bits: Some(4.5f32.to_bits()), total_rates: 0 };
    assert_eq!(next_stored_mean(seeded, three), Some(3.0f32.to_bits()));
    let rated = StoredRating { rating_bits: Some(4.0f32.to_bits()), total_rates: 3 };
    assert_eq!(next_stored_mean(rated, three), Some(3.75f32.to_bits()));
    let broken = StoredRating { rating_bits: Some(9.0f32.to_bits()), total_rates: 3 };
    assert_eq!(RatingState::from_stored(broken), None);
    assert_eq!(next_stored_mean(broken, three), None);
    let counted_without_mean = StoredRating { rating_bits: None, total_rates: 2 };
    assert_eq!(next_stored_mean(counted_without_mean, three), None);
}

#[test]
fn failures_are_answered_by_their_class() {
    let all = [
        (WorkflowError::InvalidCourseId, ErrorClass::Validation, 400),
        (WorkflowError::InvalidClassId, ErrorClass::Validation, 400),
        (WorkflowError::InvalidRating, ErrorClass::Validation, 400),
        (WorkflowError::InvalidStatus, ErrorClass::Validation, 400),
        (WorkflowError::AlreadyRegistered, ErrorClass::Conflict, 400),
        (WorkflowError::NotRegistered, ErrorClass::Conflict, 400),
        (WorkflowError::CourseNotFound, ErrorClass::NotFound, 404),
        (WorkflowError::ClassNotFound, ErrorClass::NotFound, 404),
        (WorkflowError::ContentStoreUnavailable, ErrorClass::StoreUnavailable, 500),
        (WorkflowError::ProgressStoreUnavailable, ErrorClass::StoreUnavailable, 500),
    ];
    for (error, class, code) in all {
        assert_eq!(error.class(), class);
        assert_eq!(error.http_status(), code);
        assert!(!error.message().is_empty());
    }
    assert_eq!(WorkflowError::InvalidRating.message(), "Rating must be between 1 and 5");
    assert_eq!(WorkflowError::NotRegistered.message(), "User is not registered in the course.");
    assert_eq!(Success::Registered.message(), "User registered to course successfully!");
    assert_ne!(
        Success::RatingAccepted { rating_bits: 0, mirrored: true }.message(),
        Success::RatingAccepted { rating_bits: 0, mirrored: false }.message()
    );
}

#[test]
fn a_set_of_completed_classes_holds_each_class_once() {
    let a = DocId { seconds: 1, tail: 1 };
    let b = DocId { seconds: 1, tail: 2 };
    let mut set = CompletedSet::new();
    assert_eq!(set.len(), 0);
    assert!(set.insert(a));
    assert!(set.insert(b));
    assert!(!set.insert(a));
    assert_eq!(set.len(), 2);
    assert!(set.contains(a));
    assert!(!set.contains(DocId { seconds: 2, tail: 1 }));
    assert_eq!(set.duplicate().ids, vec![a, b]);
    assert_eq!(
        set.to_texts(),
        vec!["000000010000000000000001".to_string(), "000000010000000000000002".to_string()]
    );
    let read = CompletedSet::from_texts(&vec![
        "000000010000000000000002".to_string(),
        "nothing".to_string(),
        "000000010000000000000001".to_string(),
        "000000010000000000000002".to_string(),
    ]);
    assert_eq!(read.ids, vec![b, a]);
}

#[test]
fn the_ledger_holds_one_record_for_each_user_and_course() {
    let course = DocId { seconds: 7, tail: 7 };
    let other = DocId { seconds: 7, tail: 8 };
    let user = "a@example.com".to_string();
    let mut ledger = Ledger::new();
    assert!(ledger.get(&user, course).is_none());
    ledger.put(ProgressRecord::enrolled(user.clone(), course, "t0".to_string()));
    ledger.put(ProgressRecord::enrolled(user.clone(), other, "t1".to_string()));
    ledger.put(ProgressRecord::enrolled("b@example.com".to_string(), course, "t2".to_string()));
    ledger.put(ProgressRecord::enrolled(user.clone(), course, "t3".to_string()));
    assert_eq!(ledger.records.len(), 3);
    assert_eq!(ledger.get(&user, course).expect("there").timestamp, "t3");
    assert_eq!(ledger.find(&user, other), Some(1));
    assert!(ledger.add_completed(&user, course, DocId { seconds: 9, tail: 9 }));
    assert!(ledger.add_completed(&user, course, DocId { seconds: 9, tail: 9 }));
    assert!(!ledger.add_completed(&"c@example.com".to_string(), course, other));
    assert_eq!(ledger.get(&user, course).expect("there").completed.ids.len(), 1);
    assert_eq!(ledger.get(&user, other).expect("there").completed.ids.len(), 0);
    assert!(ledger.remove(&user, course));
    assert!(!ledger.remove(&user, course));
    assert_eq!(ledger.records.len(), 2);
    assert!(ledger.get(&user, other).is_some());
}

#[test]
fn a_record_is_refreshed_from_its_completed_classes() {
    let course = DocId { seconds: 7, tail: 7 };
    let mut record = ProgressRecord::enrolled("a@example.com".to_string(), course, "t0".to_string());
    assert!(record.is_for(&"a@example.com".to_string(), course));
    assert!(!record.is_for(&"b@example.com".to_string(), course));
    record.mark_completed(DocId { seconds: 1, tail: 1 });
    record.mark_completed(DocId { seconds: 1, tail: 1 });
    record.mark_completed(DocId { seconds: 1, tail: 2 });
    record.refresh(3, "t1".to_string());
    assert_eq!(record.percentage, 67);
    assert_eq!(record.status, Status::InProgress(67));
    assert_eq!(record.timestamp, "t1");
    record.refresh(2, "t2".to_string());
    assert_eq!(record.status, Status::Completed);
    record.restate(Status::Initiated, 4, "t3".to_string());
    assert_eq!(record.percentage, 50);
    assert_eq!(record.status, Status::Initiated);
    record.restate(Status::Completed, 4, "t4".to_string());
    assert_eq!(record.status, Status::InProgress(50));
    record.restate(Status::InProgress(7), 2, "t5".to_string());
    assert_eq!((record.status, record.percentage), (Status::Completed, 100));
    assert_eq!(Status::Completed.settle(100), Status::Completed);
    assert_eq!(Status::Completed.settle(99), Status::InProgress(99));
    assert_eq!(Status::Initiated.settle(0), Status::Initiated);
    assert_eq!(Status::Initiated.settle(100), Status::Completed);
    assert_eq!(Status::InProgress(40).settle(40), Status::InProgress(40));
    assert_eq!(Status::InProgress(40).settle(41), Status::InProgress(41));
}

#[test]
fn the_catalog_counts_the_classes_of_the_units_of_a_course() {
    let course = DocId { seconds: 1, tail: 0 };
    let other = DocId { seconds: 2, tail: 0 };
    let unit = |n: u64| DocId { seconds: 3, tail: n };
    let class = |n: u64| DocId { seconds: 4, tail: n };
    let mut catalog = Catalog::new();
    assert!(catalog.add_course(course));
    assert!(!catalog.add_course(course));
    assert!(catalog.add_course(other));
    catalog.add_unit(unit(1), course);
    catalog.add_unit(unit(2), other);
    catalog.add_unit(unit(3), course);
    for n in 0..7 {
        catalog.add_class(class(n), unit(1 + n % 3));
    }
    catalog.add_class(class(7), unit(9));
    assert_eq!(catalog.units_of(course), vec![unit(1), unit(3)]);
    assert_eq!(catalog.units_of(DocId { seconds: 9, tail: 9 }), vec![]);
    assert_eq!(catalog.count_classes_in(&vec![unit(1)]), 3);
    assert_eq!(catalog.count_classes_in(&vec![unit(2), unit(3)]), 4);
    assert_eq!(catalog.count_classes_in(&vec![]), 0);
    assert_eq!(catalog.class_count_for_course(course), 5);
    assert_eq!(catalog.class_count_for_course(other), 2);
    assert_eq!(catalog.class_count_for_course(unit(1)), 0);
    assert!(catalog.class_exists(class(7)));
    assert!(!catalog.class_exists(class(8)));
    assert!(catalog.course_exists(other));
    assert!(!catalog.course_exists(unit(1)));
    assert_eq!(catalog.find_course(other), Some(1));
    assert_eq!(catalog.course_rating(unit(1)), None);
    assert_eq!(
        catalog.course_rating(course),
        Some(StoredRating { rating_bits: None, total_rates: 0 })
    );
}

#[test]
fn the_keys_of_the_progress_store() {
    let course = DocId::parse("64B7F0C2A1B2C3D4E5F60718").expect("well formed");
    assert_eq!(table_name(), "bdnsql");
    assert_eq!(partition_key("a@example.com"), "user#a@example.com");
    assert_eq!(sort_key(course), "course#64b7f0c2a1b2c3d4e5f60718");
    assert_eq!(comment_key(course), "comment#64b7f0c2a1b2c3d4e5f60718");
    let key = record_key("a@example.com", course);
    assert_eq!(names(&key), vec!["PK", "SK"]);
    assert_eq!(text_of(&key, "PK").as_deref(), Some("user#a@example.com"));
    assert_eq!(text_of(&key, "SK").as_deref(), Some("course#64b7f0c2a1b2c3d4e5f60718"));
}

#[test]
fn the_items_of_the_progress_store() {
    let course = DocId { seconds: 1, tail: 2 };
    let item = registration_item("a@example.com", course, "now".to_string());
    assert_eq!(
        names(&item),
        vec!["PK", "SK", "status", "completion_percentage", "timestamp", "rating_data"]
    );
    assert_eq!(text_of(&item, "status").as_deref(), Some("{\"type\":\"Initiated\"}"));
    assert_eq!(text_of(&item, "completion_percentage").as_deref(), Some("0"));
    assert!(matches!(item[3].value, FieldValue::Number(_)));
    assert_eq!(text_of(&item, "timestamp").as_deref(), Some("now"));
    assert_eq!(text_of(&item, "rating_data").as_deref(), Some(""));

    let mut set = CompletedSet::new();
    let item = progress_item("a", course, Status::InProgress(0), 0, &set, "t".to_string());
    assert_eq!(names(&item), vec!["PK", "SK", "status", "completion_percentage", "timestamp"]);
    set.insert(DocId { seconds: 0, tail: 0xab });
    set.insert(DocId { seconds: 0, tail: 0xcd });
    let item = progress_item("a", course, Status::Completed, 100, &set, "t".to_string());
    assert_eq!(names(&item)[5], "completed_classes");
    assert_eq!(text_of(&item, "completion_percentage").as_deref(), Some("100"));
    assert_eq!(text_of(&item, "status").as_deref(), Some("{\"type\":\"Completed\"}"));
    match &item[5].value {
        FieldValue::TextSet(texts) => assert_eq!(
            texts,
            &vec![
                "0000000000000000000000ab".to_string(),
                "0000000000000000000000cd".to_string()
            ]
        ),
        other => panic!("unexpected {:?}", other),
    }

    let item = user_item("a@example.com", "secret".to_string());
    assert_eq!(names(&item), vec!["PK", "SK", "email", "password"]);
    assert_eq!(text_of(&item, "SK").as_deref(), Some("USER"));
    assert_eq!(text_of(&item, "password").as_deref(), Some("secret"));

    let item = comment_item(
        "a",
        course,
        "title".to_string(),
        "detail".to_string(),
        "date".to_string(),
        TypeComment::Course.name(),
    );
    assert_eq!(names(&item), vec!["PK", "SK", "author", "title", "detail", "date", "type"]);
    assert_eq!(text_of(&item, "SK").as_deref(), Some("comment#000000010000000000000002"));
    assert_eq!(text_of(&item, "type").as_deref(), Some("Course"));
}

#[test]
fn a_user_is_read_out_of_an_item() {
    let mut item = user_item("a@example.com", "secret".to_string());
    item.push(Field {
        name: "completed_classes".to_string(),
        value: FieldValue::TextSet(vec!["x".to_string(), "y".to_string()]),
    });
    item.push(Field {
        name: "completion_percentage".to_string(),
        value: FieldValue::Number("40".to_string()),
    });
    item.push(Field { name: "status".to_string(), value: FieldValue::Number("7".to_string()) });
    let user = User::from_item(&item);
    assert_eq!(user.pk, "user#a@example.com");
    assert_eq!(user.sk, "USER");
    assert_eq!(user.email, "a@example.com");
    assert_eq!(user.password, "secret");
    assert_eq!(user.status, "");
    assert_eq!(user.rating_data, "");
    assert_eq!(user.completed_classes, vec!["x".to_string(), "y".to_string()]);
    assert_eq!(user.completion_percentage, "40");
    assert_eq!(user.timestamp, "");
    assert_eq!(find_field(&item, "email"), Some(2));
    assert_eq!(find_field(&item, "e-mail"), None);
}

#[test]
fn a_login_compares_the_password_on_record() {
    let item = Some(user_item("a@example.com", "secret".to_string()));
    assert_eq!(login_outcome(&item, &"secret".to_string()), LoginOutcome::LoggedIn);
    assert_eq!(login_outcome(&item, &"Secret".to_string()), LoginOutcome::InvalidPassword);
    assert_eq!(login_outcome(&None, &"secret".to_string()), LoginOutcome::UserNotFound);
    let keys = Some(record_key("a@example.com", DocId { seconds: 0, tail: 0 }));
    assert_eq!(login_outcome(&keys, &"secret".to_string()), LoginOutcome::UserNotFound);
    let number = Some(vec![Field {
        name: "password".to_string(),
        value: FieldValue::Number("1".to_string()),
    }]);
    assert_eq!(login_outcome(&number, &"1".to_string()), LoginOutcome::UserNotFound);
}

#[test]
fn the_courses_of_a_user_are_read_off_the_sort_keys() {
    assert_eq!(strip_prefix_or_empty("course#abc", "course#"), "abc");
    assert_eq!(strip_prefix_or_empty("course#", "course#"), "");
    assert_eq!(strip_prefix_or_empty("cours", "course#"), "");
    assert_eq!(strip_prefix_or_empty("USER", "course#"), "");
    assert_eq!(strip_prefix_or_empty("Course#abc", "course#"), "");
    assert_eq!(strip_prefix_or_empty("course#ä#ö", "course#"), "ä#ö");
    let items = vec![
        record_key("a", DocId { seconds: 0, tail: 1 }),
        vec![Field { name: "PK".to_string(), value: FieldValue::Text("user#a".to_string()) }],
        user_item("a", "p".to_string()),
        record_key("a", DocId { seconds: 0, tail: 2 }),
    ];
    let ids: Vec<String> = course_ids(&items).into_iter().map(|c| c.course_id).collect();
    assert_eq!(ids, vec!["000000000000000000000001", "", "000000000000000000000002"]);
}

#[test]
fn keys_are_sorted_with_equal_keys_in_their_order() {
    assert_eq!(stable_places(&vec![]), Vec::<usize>::new());
    assert_eq!(stable_places(&vec![5]), vec![0]);
    assert_eq!(stable_places(&vec![3, 1, 2]), vec![1, 2, 0]);
    assert_eq!(stable_places(&vec![2, 1, 2, 1, 2]), vec![1, 3, 0, 2, 4]);
    assert_eq!(stable_places(&vec![1, 2, 3, 4]), vec![0, 1, 2, 3]);
    assert_eq!(stable_places(&vec![u128::MAX, 0, u128::MAX]), vec![1, 0, 2]);
}

#[test]
fn units_are_sent_in_their_order() {
    let unit = |name: &str, order: usize| UnitSend {
        unit_id: None,
        name: name.to_string(),
        order,
    };
    let units = vec![unit("c", 3), unit("a", 1), unit("b1", 2), unit("b2", 2), unit("z", 0)];
    let sorted: Vec<String> = sort_by_order(&units).into_iter().map(|u| u.name).collect();
    assert_eq!(sorted, vec!["z", "a", "b1", "b2", "c"]);
    assert_eq!(sort_by_order(&vec![]).len(), 0);
}

#[test]
fn the_units_of_a_course_are_kept_in_ascending_order() {
    let id = |seconds: u32, tail: u64| DocId { seconds, tail };
    assert_eq!(with_unit(&vec![], id(1, 1)), vec![id(1, 1)]);
    assert_eq!(
        with_unit(&vec![id(1, 5), id(2, 0), id(3, 9)], id(2, 7)),
        vec![id(1, 5), id(2, 0), id(2, 7), id(3, 9)]
    );
    assert_eq!(
        with_unit(&vec![id(3, 0), id(1, u64::MAX)], id(0, 4)),
        vec![id(0, 4), id(1, u64::MAX), id(3, 0)]
    );
    assert_eq!(id_number(id(1, 2)), (1u128 << 64) + 2);
}

#[test]
fn what_is_sent_in_is_stored_without_an_id() {
    let unit = DocId { seconds: 5, tail: 5 };
    let class = || ClassyReceive {
        unit_id: Some(unit),
        name: "n".to_string(),
        description: "d".to_string(),
        order: 2,
        video: "v".to_string(),
        tutor: "t".to_string(),
        support_material: vec!["m".to_string()],
    };
    let stored = Classy::received(class());
    assert_eq!(stored.id, None);
    assert_eq!(stored.unit_id, Some(unit));
    assert_eq!(stored.support_material, vec!["m".to_string()]);
    let placed = Classy::received_in(class(), DocId { seconds: 6, tail: 6 });
    assert_eq!(placed.unit_id, Some(DocId { seconds: 6, tail: 6 }));
    let sent = placed.into_send();
    assert_eq!((sent.name.as_str(), sent.order, sent.tutor.as_str()), ("n", 2, "t"));

    let stored = Unit::received(UnitReceive { course_id: Some(unit), name: "u".to_string(), order: 4 });
    assert_eq!((stored.id, stored.course_id, stored.order), (None, Some(unit), 4));
    let full = UnitFullCourse { name: "f".to_string(), order: 1, classes: vec![class()] };
    let mut of_course = Unit::of_course(&full, unit);
    assert_eq!(of_course.course_id, Some(unit));
    of_course.id = Some(DocId { seconds: 8, tail: 8 });
    let sent = of_course.into_send();
    assert_eq!(sent.unit_id, Some(DocId { seconds: 8, tail: 8 }));
    assert_eq!(sent.name, "f");

    let learner = Learner::received(&UserReceive { name: "l".to_string() });
    assert_eq!((learner.id, learner.name.as_str(), learner.seen_unit_class.len()), (None, "l", 0));
}

#[test]
fn a_course_that_comes_with_a_rating_outside_one_to_five_is_turned_down() {
    let course = |rating: Option<f32>| CourseReceive {
        name: "n".to_string(),
        description: "d".to_string(),
        rating_bits: rating.map(f32::to_bits),
        image: "i".to_string(),
        image_banner: "b".to_string(),
    };
    assert_eq!(Course::received(&course(Some(0.5))).err(), Some(WorkflowError::InvalidRating));
    assert_eq!(Course::received(&course(Some(5.5))).err(), Some(WorkflowError::InvalidRating));
    let stored = Course::received(&course(Some(4.5))).expect("valid");
    assert_eq!(stored.rating_bits.map(f32::from_bits), Some(4.5));
    assert_eq!((stored.id, stored.total_rates, stored.inscribed), (None, 0, 0));
    let stored = Course::received(&course(None)).expect("valid");
    assert_eq!(stored.stored_rating(), StoredRating { rating_bits: None, total_rates: 0 });
    let shown = stored.summary();
    assert_eq!((shown.name.as_str(), shown.image_banner.as_str()), ("n", "b"));
    let full = FullCourse {
        name: "f".to_string(),
        description: "d".to_string(),
        image: "i".to_string(),
        image_banner: "b".to_string(),
        units: vec![],
    };
    let blank = Course::of_full(&full);
    assert_eq!((blank.name.as_str(), blank.rating_bits, blank.units.len()), ("f", None, 0));
}

#[test]
fn a_comment_is_stored_and_sent() {
    let about = DocId { seconds: 3, tail: 3 };
    let received = CommentReceive {
        author: "a@example.com".to_string(),
        title: "t".to_string(),
        detail: "d".to_string(),
        reference_id: Some(about),
        reference_type: TypeComment::Class,
    };
    let stored = Comment::received(&received, "2024-01-01T00:00:00+00:00".to_string());
    assert_eq!(stored.id, None);
    assert_eq!(stored.author(), "a@example.com");
    assert_eq!(stored.title(), "t");
    assert_eq!(stored.detail(), "d");
    assert_eq!(stored.date(), "2024-01-01T00:00:00+00:00");
    assert_eq!((stored.likes(), stored.dislikes()), (0, 0));
    assert_eq!(stored.reference_id, Some(about));
    assert_eq!(stored.reference_type, TypeComment::Class);
    let sent = stored.to_send();
    assert_eq!((sent.author.as_str(), sent.likes, sent.dislikes), ("a@example.com", 0, 0));
    assert_eq!(TypeComment::Class.name(), "Class");
    assert_eq!(TypeComment::Course.name(), "Course");

    let parameters =
        comment_node_parameters(DocId { seconds: 1, tail: 1 }, &received, "d0".to_string());
    assert_eq!(
        names(&parameters),
        vec!["author", "comment_id", "title", "detail", "date", "reference_id", "reference_type"]
    );
    assert_eq!(text_of(&parameters, "reference_id").as_deref(), Some("000000030000000000000003"));
    assert_eq!(text_of(&parameters, "reference_type").as_deref(), Some("Class"));
}

#[test]
fn what_is_written_to_the_graph() {
    assert!(rating_statement().contains("CREATE (u)-[:RATED {rating: $rating, timestamp: $timestamp}]->(c)"));
    assert!(course_statement().starts_with("CREATE (c:Course {id: $course_id"));
    assert!(comment_statement().starts_with("CREATE (c:Comment {comment_id: $comment_id"));
    let parameters =
        rating_edge_parameters("a@example.com", DocId { seconds: 1, tail: 1 }, "now".to_string());
    assert_eq!(names(&parameters), vec!["email", "course_id", "timestamp"]);
    assert_eq!(text_of(&parameters, "course_id").as_deref(), Some("000000010000000000000001"));
}

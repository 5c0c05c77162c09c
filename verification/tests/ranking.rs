use hnstar::error::ErrorKind;
use hnstar::ranking::{upsert, validate_batch, GetStory, Ranking, SetStory, StoryRow};

fn set(story_id: i64, stars: Option<i32>, flags: Option<i32>, comment: Option<&str>) -> SetStory {
    SetStory { story_id, stars, flags, comment: comment.map(String::from) }
}

#[test]
fn valid_requests_pass() {
    assert!(set(1, None, None, None).is_valid().is_ok());
    assert!(set(1, Some(0), Some(0), Some("")).is_valid().is_ok());
    assert!(set(i64::MAX, Some(10), Some(i32::MAX), Some("x")).is_valid().is_ok());
}

#[test]
fn story_id_must_be_positive() {
    assert_eq!(set(0, None, None, None).is_valid().unwrap_err(), "Invalid story_id");
    assert_eq!(set(-1, Some(11), Some(-1), None).is_valid().unwrap_err(), "Invalid story_id");
}

#[test]
fn stars_must_lie_in_range() {
    assert_eq!(set(1, Some(11), None, None).is_valid().unwrap_err(), "Invalid star count");
    assert_eq!(set(1, Some(-1), Some(-1), None).is_valid().unwrap_err(), "Invalid star count");
}

#[test]
fn flags_must_not_be_negative() {
    assert_eq!(set(1, Some(5), Some(-1), None).is_valid().unwrap_err(), "Invalid flags");
}

#[test]
fn batch_of_valid_requests_is_accepted() {
    assert!(validate_batch(&vec![]).is_ok());
    assert!(validate_batch(&vec![set(1, Some(1), None, None), set(2, None, Some(3), None)]).is_ok());
}

#[test]
fn batch_with_one_invalid_request_is_refused_as_a_whole() {
    let batch = vec![set(1, Some(5), None, None), set(2, Some(11), None, None), set(0, None, None, None)];
    let e = validate_batch(&batch).unwrap_err();
    assert_eq!(e.kind(), ErrorKind::Validation);
    assert_eq!(e.message(), "Invalid star count");
    let r = e.to_response();
    assert_eq!(r.status, 400);
    assert_eq!(r.body, "Invalid star count");
}

#[test]
fn first_request_creates_the_row_with_defaults() {
    let row = upsert(None, 7, &set(42, Some(5), None, None), 100).unwrap();
    assert_eq!(row.user_id, 7);
    assert_eq!(row.story_id, 42);
    assert_eq!(row.stars, 5);
    assert_eq!(row.flags, 0);
    assert_eq!(row.comment, "");
    assert_eq!(row.created_at, 100);
    assert_eq!(row.updated_at, 100);
}

#[test]
fn partial_updates_keep_untouched_fields() {
    let first = upsert(None, 7, &set(42, Some(5), None, None), 100).unwrap();
    let second = upsert(Some(first), 7, &set(42, None, None, Some("x")), 200).unwrap();
    assert_eq!(second.stars, 5);
    assert_eq!(second.comment, "x");
    assert_eq!(second.flags, 0);
    assert_eq!(second.created_at, 100);
    assert_eq!(second.updated_at, 200);
}

#[test]
fn named_fields_overwrite() {
    let row = Ranking {
        user_id: 7,
        story_id: 42,
        stars: 5,
        flags: 2,
        comment: String::from("old"),
        created_at: 1,
        updated_at: 2,
    };
    let after = upsert(Some(row), 7, &set(42, Some(9), Some(0), Some("new")), 3).unwrap();
    assert_eq!(after.stars, 9);
    assert_eq!(after.flags, 0);
    assert_eq!(after.comment, "new");
    assert_eq!(after.created_at, 1);
    assert_eq!(after.updated_at, 3);
}

#[test]
fn row_of_another_key_counts_as_absent() {
    let row = Ranking {
        user_id: 8,
        story_id: 42,
        stars: 5,
        flags: 2,
        comment: String::from("old"),
        created_at: 1,
        updated_at: 2,
    };
    let after = upsert(Some(row), 7, &set(42, None, None, None), 3).unwrap();
    assert_eq!(after.user_id, 7);
    assert_eq!(after.stars, 0);
    assert_eq!(after.flags, 0);
    assert_eq!(after.comment, "");
    assert_eq!(after.created_at, 3);
}

fn row(title: &str) -> StoryRow {
    StoryRow {
        story_id: 1,
        score: 2,
        timestamp: 3,
        title: String::from(title),
        url: String::from("https://example.org/?a=1&amp;b=2"),
        status: 4,
        descendants: 5,
        stars: Some(6),
        flags: None,
        full_count: 7,
    }
}

#[test]
fn title_entities_are_decoded() {
    let s = GetStory::from_row(row("Tom &amp; Jerry &lt;3 &#x41;&#66;"));
    assert_eq!(s.title, "Tom & Jerry <3 AB");
    assert_eq!(s.url, "https://example.org/?a=1&amp;b=2");
    assert_eq!(s.story_id, 1);
    assert_eq!(s.score, 2);
    assert_eq!(s.timestamp, 3);
    assert_eq!(s.status, 4);
    assert_eq!(s.descendants, 5);
    assert_eq!(s.stars, Some(6));
    assert_eq!(s.flags, None);
    assert_eq!(s.full_count, 7);
}

#[test]
fn title_that_does_not_decode_is_kept() {
    assert_eq!(GetStory::from_row(row("AT&T earnings")).title, "AT&T earnings");
    assert_eq!(GetStory::from_row(row("a &nosuch; b")).title, "a &nosuch; b");
}

#[test]
fn invalid_request_gives_no_row() {
    let e = upsert(None, 7, &set(42, Some(11), None, None), 100).unwrap_err();
    assert_eq!(e.kind(), ErrorKind::Validation);
    assert_eq!(e.message(), "Invalid star count");
    let e = upsert(None, 7, &set(0, Some(1), None, None), 100).unwrap_err();
    assert_eq!(e.message(), "Invalid story_id");
    let e = upsert(None, 7, &set(1, None, Some(-2), None), 100).unwrap_err();
    assert_eq!(e.message(), "Invalid flags");
}

#[test]
fn batch_with_stars_out_of_range_persists_nothing() {
    let batch = vec![set(41, Some(3), None, None), set(42, Some(11), None, None)];
    let mut written: Vec<Ranking> = Vec::new();
    let outcome = validate_batch(&batch).and_then(|_| {
        for entry in batch.iter() {
            written.push(upsert(None, 7, entry, 100)?);
        }
        Ok(())
    });
    let e = outcome.unwrap_err();
    assert_eq!(e.to_response().status, 400);
    assert!(written.is_empty());
}

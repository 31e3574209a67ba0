use reddit_records::{Comment, CountingStorage, Filterable, Submission};

fn sample_comment() -> Comment {
    let line = "{\"author\":\"alice\",\"body\":\"hello\",\"subreddit\":\"rust\",\"score\":10,\"created_utc\":1500000000,\"link_id\":\"t3_q\",\"id\":\"c1\",\"parent_id\":\"t1_abc123\"}";
    Comment::from_json_str(line).unwrap()
}

fn sample_submission() -> Submission {
    let line = "{\"author\":\"bob\",\"permalink\":\"/r/rust/1\",\"title\":\"t\",\"selftext\":\"\",\"subreddit\":\"rust\",\"id\":\"s1\",\"score\":3,\"num_comments\":7,\"over_18\":false,\"is_self\":true,\"created_utc\":1700000000}";
    Submission::from_json_str(line).unwrap()
}

/// One generic routine serves both record kinds: the facade's four
/// accessors have identical types and shapes on each.
fn summarize<T: Filterable>(record: &T) -> (Option<i32>, Option<String>, Option<String>, i64) {
    (
        record.score(),
        record.author().map(|a| a.to_string()),
        record.subreddit().map(|s| s.to_string()),
        record.created(),
    )
}

#[test]
fn facade_is_uniform_over_both_kinds() {
    let c = sample_comment();
    let s = sample_submission();
    let (c_score, c_author, c_sub, c_created) = summarize(&c);
    let (s_score, s_author, s_sub, s_created) = summarize(&s);
    assert_eq!(c_score, Some(10));
    assert_eq!(c_author.as_deref(), Some("alice"));
    assert_eq!(c_sub.as_deref(), Some("rust"));
    assert_eq!(c_created, 1500000000);
    assert_eq!(s_score, Some(3));
    assert_eq!(s_author.as_deref(), Some("bob"));
    assert_eq!(s_sub.as_deref(), Some("rust"));
    assert_eq!(s_created, 1700000000);
}

#[test]
fn facade_reports_absent_submission_author_and_subreddit() {
    let line = "{\"permalink\":\"/r/rust/1\",\"title\":\"t\",\"selftext\":\"\",\"id\":\"s1\",\"num_comments\":0,\"over_18\":false,\"is_self\":false,\"created_utc\":1}";
    let s = Submission::from_json_str(line).unwrap();
    assert_eq!(s.score(), None);
    assert_eq!(s.author(), None);
    assert_eq!(s.subreddit(), None);
    assert_eq!(s.created(), 1);
}

#[test]
fn store_dispatches_by_record_kind() {
    let mut storage = CountingStorage::new();
    let c = sample_comment();
    let s = sample_submission();
    assert_eq!(c.store(&mut storage), Ok(1));
    assert_eq!(c.store(&mut storage), Ok(1));
    assert_eq!(s.store(&mut storage), Ok(1));
    assert_eq!(storage.comments, 2);
    assert_eq!(storage.submissions, 1);
}

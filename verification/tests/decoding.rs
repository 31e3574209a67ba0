use reddit_records::{Comment, DecodeErrorKind, ParentId, ParentIdError, Submission};

fn comment_line() -> String {
    "{\"author\":\"alice\",\"body\":\"hello\",\"subreddit\":\"rust\",\"score\":10,\"ups\":12,\"downs\":2,\"created_utc\":1500000000,\"link_id\":\"t3_q\",\"id\":\"c1\",\"parent_id\":\"t1_abc123\"}"
    .to_string()
}

fn submission_line() -> String {
    "{\"author\":\"bob\",\"permalink\":\"/r/rust/1\",\"title\":\"t\",\"selftext\":\"\",\"subreddit\":\"rust\",\"id\":\"s1\",\"score\":3,\"num_comments\":7,\"over_18\":false,\"is_self\":true,\"created_utc\":1700000000}"
    .to_string()
}

#[test]
fn comment_decodes_required_fields() {
    let c = Comment::from_json_str(&comment_line()).unwrap();
    assert_eq!(c.author, "alice");
    assert_eq!(c.body, "hello");
    assert_eq!(c.subreddit, "rust");
    assert_eq!(c.score, Some(10));
    assert_eq!(c.ups, Some(12));
    assert_eq!(c.downs, Some(2));
    assert_eq!(c.created_utc, 1500000000);
    assert_eq!(c.link_id, "t3_q");
    assert_eq!(c.id, "c1");
    assert_eq!(c.parent_id.parent_type, 1);
    assert_eq!(c.parent_id.parent_id, "abc123");
}

#[test]
fn comment_defaults_for_absent_fields() {
    let c = Comment::from_json_str(&comment_line()).unwrap();
    assert_eq!(c.author_flair_text, None);
    assert_eq!(c.controversiality, None);
    assert_eq!(c.retrieved_on, None);
    assert_eq!(c.permalink, None);
    assert_eq!(c.distinguished, None);
    assert!(!c.parent_is_post);
    assert!(!c.stickied);
    assert!(!c.is_submitter);
    assert!(!c.archived);
}

#[test]
fn comment_optional_fields_decode_when_present() {
    let line = "{\"author\":\"a\",\"body\":\"b\",\"subreddit\":\"s\",\"score\":null,\"created_utc\":1,\"link_id\":\"l\",\"id\":\"i\",\"parent_id\":\"t3_z\",\"stickied\":true,\"distinguished\":\"mod\",\"retrieved_on\":1600000000,\"controversiality\":1,\"permalink\":\"/p\"}";
    let c = Comment::from_json_str(line).unwrap();
    assert_eq!(c.score, None);
    assert!(c.stickied);
    assert_eq!(c.distinguished, Some("mod".to_string()));
    assert_eq!(c.retrieved_on, Some(1600000000));
    assert_eq!(c.controversiality, Some(1));
    assert_eq!(c.permalink, Some("/p".to_string()));
    assert_eq!(c.parent_id.parent_type, 3);
    assert_eq!(c.parent_id.parent_id, "z");
}

#[test]
fn comment_created_from_integer_and_float_agree() {
    let int_line = comment_line();
    let float_line = int_line.replace("1500000000", "1500000000.0");
    assert_ne!(int_line, float_line);
    let a = Comment::from_json_str(&int_line).unwrap();
    let b = Comment::from_json_str(&float_line).unwrap();
    assert_eq!(a.created_utc, 1500000000);
    assert_eq!(b.created_utc, 1500000000);
}

#[test]
fn comment_created_float_truncates() {
    let line = comment_line().replace("1500000000", "1500000000.9");
    let c = Comment::from_json_str(&line).unwrap();
    assert_eq!(c.created_utc, 1500000000);
}

#[test]
fn comment_created_as_string_is_schema_error() {
    let line = comment_line().replace("1500000000", "\"1500000000\"");
    let e = Comment::from_json_str(&line).unwrap_err();
    assert_eq!(e.kind, DecodeErrorKind::Schema);
}

#[test]
fn comment_created_above_signed_range_is_schema_error() {
    let line = comment_line().replace("1500000000", "18446744073709551615");
    let e = Comment::from_json_str(&line).unwrap_err();
    assert_eq!(e.kind, DecodeErrorKind::Schema);
}

#[test]
fn comment_missing_required_field_is_schema_error() {
    let line = comment_line().replace("\"body\":\"hello\",", "");
    let e = Comment::from_json_str(&line).unwrap_err();
    assert_eq!(e.kind, DecodeErrorKind::Schema);
}

#[test]
fn comment_score_out_of_range_is_schema_error() {
    let line = comment_line().replace("\"score\":10", "\"score\":3000000000");
    let e = Comment::from_json_str(&line).unwrap_err();
    assert_eq!(e.kind, DecodeErrorKind::Schema);
}

#[test]
fn parent_id_parses_type_and_base() {
    let p = ParentId::parse(Some("t1_abc123")).unwrap();
    assert_eq!(p.parent_type, 1);
    assert_eq!(p.parent_id, "abc123");
    let p = ParentId::parse(Some("t3_xyz")).unwrap();
    assert_eq!(p.parent_type, 3);
    assert_eq!(p.parent_id, "xyz");
}

#[test]
fn parent_id_absent_is_its_own_error() {
    assert_eq!(ParentId::parse(None).unwrap_err(), ParentIdError::Absent);
}

#[test]
fn parent_id_malformed_variants() {
    assert_eq!(
        ParentId::parse(Some("abc123")).unwrap_err(),
        ParentIdError::Malformed
    );
    assert_eq!(
        ParentId::parse(Some("_abc123")).unwrap_err(),
        ParentIdError::Malformed
    );
    assert_eq!(
        ParentId::parse(Some("tx_abc123")).unwrap_err(),
        ParentIdError::Malformed
    );
}

#[test]
fn parent_id_marker_longer_than_two_characters() {
    let p = ParentId::parse(Some("t1x_id")).unwrap();
    assert_eq!(p.parent_type, 1);
    assert_eq!(p.parent_id, "id");
}

#[test]
fn comment_null_parent_is_absent_error() {
    let line = comment_line().replace("\"t1_abc123\"", "null");
    let e = Comment::from_json_str(&line).unwrap_err();
    assert_eq!(e.kind, DecodeErrorKind::ParentAbsent);
}

#[test]
fn comment_missing_parent_is_absent_error() {
    let line = comment_line().replace(",\"parent_id\":\"t1_abc123\"", "");
    let e = Comment::from_json_str(&line).unwrap_err();
    assert_eq!(e.kind, DecodeErrorKind::ParentAbsent);
}

#[test]
fn comment_malformed_parent_is_malformed_error() {
    let line = comment_line().replace("t1_abc123", "abc123");
    let e = Comment::from_json_str(&line).unwrap_err();
    assert_eq!(e.kind, DecodeErrorKind::ParentMalformed);
}

#[test]
fn submission_decodes_required_fields() {
    let s = Submission::from_json_str(&submission_line()).unwrap();
    assert_eq!(s.author.as_deref(), Some("bob"));
    assert_eq!(s.permalink, "/r/rust/1");
    assert_eq!(s.title, "t");
    assert_eq!(s.selftext, "");
    assert_eq!(s.subreddit.as_deref(), Some("rust"));
    assert_eq!(s.id, "s1");
    assert_eq!(s.score, Some(3));
    assert_eq!(s.num_comments, 7);
    assert!(!s.over_18);
    assert!(s.is_self);
    assert!(!s.stickied);
    assert_eq!(s.created_utc, 1700000000);
    assert_eq!(s.num_crossposts, None);
    assert_eq!(s.retrieved_on, None);
}

#[test]
fn submission_timestamp_three_encodings_agree() {
    let int_line = submission_line();
    let float_line = int_line.replace("1700000000}", "1700000000.9}");
    let string_line = int_line.replace("1700000000}", "\"1700000000\"}");
    assert_eq!(Submission::from_json_str(&int_line).unwrap().created_utc, 1700000000);
    assert_eq!(Submission::from_json_str(&float_line).unwrap().created_utc, 1700000000);
    assert_eq!(Submission::from_json_str(&string_line).unwrap().created_utc, 1700000000);
}

#[test]
fn submission_timestamp_bad_string_is_timestamp_error() {
    let line = submission_line().replace("1700000000}", "\"yesterday\"}");
    let e = Submission::from_json_str(&line).unwrap_err();
    assert_eq!(e.kind, DecodeErrorKind::Timestamp);
}

#[test]
fn submission_timestamp_bad_shape_is_timestamp_error() {
    let null_line = submission_line().replace("1700000000}", "null}");
    let e = Submission::from_json_str(&null_line).unwrap_err();
    assert_eq!(e.kind, DecodeErrorKind::Timestamp);
    let arr_line = submission_line().replace("1700000000}", "[1700000000]}");
    let e = Submission::from_json_str(&arr_line).unwrap_err();
    assert_eq!(e.kind, DecodeErrorKind::Timestamp);
}

#[test]
fn submission_timestamp_missing_is_schema_error() {
    let line = submission_line().replace(",\"created_utc\":1700000000", "");
    let e = Submission::from_json_str(&line).unwrap_err();
    assert_eq!(e.kind, DecodeErrorKind::Schema);
}

#[test]
fn submission_timestamp_above_signed_range_saturates() {
    let line = submission_line().replace("1700000000}", "18446744073709551615}");
    let s = Submission::from_json_str(&line).unwrap();
    assert_eq!(s.created_utc, i64::MAX);
}

#[test]
fn submission_negative_and_signed_string_timestamps() {
    let line = submission_line().replace("1700000000}", "\"-5\"}");
    assert_eq!(Submission::from_json_str(&line).unwrap().created_utc, -5);
    let line = submission_line().replace("1700000000}", "\"+17\"}");
    assert_eq!(Submission::from_json_str(&line).unwrap().created_utc, 17);
}

#[test]
fn submission_nul_padding_decodes_identically() {
    let line = submission_line();
    let padded = format!("{}\u{0}\u{0}\u{0}", line);
    let a = Submission::from_json_str(&line).unwrap();
    let b = Submission::from_json_str(&padded).unwrap();
    assert_eq!(a.author, b.author);
    assert_eq!(a.url, b.url);
    assert_eq!(a.permalink, b.permalink);
    assert_eq!(a.score, b.score);
    assert_eq!(a.title, b.title);
    assert_eq!(a.selftext, b.selftext);
    assert_eq!(a.domain, b.domain);
    assert_eq!(a.subreddit, b.subreddit);
    assert_eq!(a.subreddit_id, b.subreddit_id);
    assert_eq!(a.id, b.id);
    assert_eq!(a.num_comments, b.num_comments);
    assert_eq!(a.over_18, b.over_18);
    assert_eq!(a.is_self, b.is_self);
    assert_eq!(a.spoiler, b.spoiler);
    assert_eq!(a.pinned, b.pinned);
    assert_eq!(a.stickied, b.stickied);
    assert_eq!(a.num_crossposts, b.num_crossposts);
    assert_eq!(a.ups, b.ups);
    assert_eq!(a.downs, b.downs);
    assert_eq!(a.created_utc, b.created_utc);
    assert_eq!(a.retrieved_on, b.retrieved_on);
}

#[test]
fn invalid_json_is_malformed_error_with_line() {
    let line = "not json at all {";
    let e = Comment::from_json_str(line).unwrap_err();
    assert_eq!(e.kind, DecodeErrorKind::MalformedJson);
    assert_eq!(e.line, line);
    let e = Submission::from_json_str(line).unwrap_err();
    assert_eq!(e.kind, DecodeErrorKind::MalformedJson);
    assert_eq!(e.line, line);
}

#[test]
fn missing_permalink_is_schema_error_with_line() {
    let line = submission_line().replace("\"permalink\":\"/r/rust/1\",", "");
    let e = Submission::from_json_str(&line).unwrap_err();
    assert_eq!(e.kind, DecodeErrorKind::Schema);
    assert_eq!(e.line, line);
}

#[test]
fn non_object_line_is_schema_error() {
    let e = Comment::from_json_str("[1,2,3]").unwrap_err();
    assert_eq!(e.kind, DecodeErrorKind::Schema);
    let e = Submission::from_json_str("42").unwrap_err();
    assert_eq!(e.kind, DecodeErrorKind::Schema);
}

#[test]
fn unknown_fields_are_ignored() {
    let line = comment_line().replace(
        "\"author\":\"alice\"",
        "\"gilded\":2,\"edited\":false,\"author\":\"alice\"",
    );
    let c = Comment::from_json_str(&line).unwrap();
    assert_eq!(c.author, "alice");
}

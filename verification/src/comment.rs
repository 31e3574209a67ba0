//! The comment decoder.
//!
//! A comment line must carry its author, body, subreddit, identifiers and a
//! well-formed parent reference; optional metadata defaults instead of
//! failing. The creation time drifts between integer and floating-point
//! encodings across dump eras, so both are accepted and reduced to one
//! integer before the strict field decode.

use vstd::prelude::*;

use crate::error::{DecodeError, DecodeErrorKind};
use crate::fields::{
    bool_or_false, find_field, lookup_field, opt_i32, opt_i64, opt_string, req_string,
    spec_bool_or_false, spec_opt_i32, spec_opt_i64, spec_opt_string, spec_req_string,
};
use crate::json::{fields_view, json_line_model, parse_json_line, JsonScalar, LineModel,
    ParsedLine, ScalarModel};
use crate::filter::Filterable;
use crate::parent::{spec_parse_parent_str, ParentId, ParentIdModel};
use crate::storage::Storage;

verus! {

/// One decoded comment record.
#[derive(Debug, Clone)]
pub struct Comment {
    pub author: String,
    pub body: String,
    pub subreddit: String,
    pub author_flair_text: Option<String>,
    pub score: Option<i32>,
    pub ups: Option<i32>,
    pub downs: Option<i32>,
    pub controversiality: Option<i32>,
    pub created_utc: i64,
    pub retrieved_on: Option<i64>,
    pub link_id: String,
    pub id: String,
    pub permalink: Option<String>,
    pub parent_id: ParentId,
    pub parent_is_post: bool,
    pub stickied: bool,
    pub is_submitter: bool,
    pub archived: bool,
    pub distinguished: Option<String>,
}

/// Specification-level mirror of `Comment`.
pub struct CommentModel {
    pub author: Seq<char>,
    pub body: Seq<char>,
    pub subreddit: Seq<char>,
    pub author_flair_text: Option<Seq<char>>,
    pub score: Option<i32>,
    pub ups: Option<i32>,
    pub downs: Option<i32>,
    pub controversiality: Option<i32>,
    pub created_utc: i64,
    pub retrieved_on: Option<i64>,
    pub link_id: Seq<char>,
    pub id: Seq<char>,
    pub permalink: Option<Seq<char>>,
    pub parent_id: ParentIdModel,
    pub parent_is_post: bool,
    pub stickied: bool,
    pub is_submitter: bool,
    pub archived: bool,
    pub distinguished: Option<Seq<char>>,
}

impl View for Comment {
    type V = CommentModel;

    open spec fn view(&self) -> CommentModel {
        CommentModel {
            author: self.author@,
            body: self.body@,
            subreddit: self.subreddit@,
            author_flair_text: self.author_flair_text.deep_view(),
            score: self.score,
            ups: self.ups,
            downs: self.downs,
            controversiality: self.controversiality,
            created_utc: self.created_utc,
            retrieved_on: self.retrieved_on,
            link_id: self.link_id@,
            id: self.id@,
            permalink: self.permalink.deep_view(),
            parent_id: self.parent_id@,
            parent_is_post: self.parent_is_post,
            stickied: self.stickied,
            is_submitter: self.is_submitter,
            archived: self.archived,
            distinguished: self.distinguished.deep_view(),
        }
    }
}

/// A comment's creation time: a required integer, with a floating-point
/// source value already truncated toward zero by the targeted pre-pass.
/// Comment dumps never encode this field as a string, so a string is a
/// schema error here.
pub open spec fn spec_comment_created(
    fs: Seq<(Seq<char>, ScalarModel)>,
) -> Result<i64, DecodeErrorKind> {
    match lookup_field(fs, "created_utc"@) {
        Some(ScalarModel::Int(t)) => Ok(t),
        Some(ScalarModel::Float(t)) => Ok(t),
        _ => Err(DecodeErrorKind::Schema),
    }
}

fn comment_created(fs: &Vec<(String, JsonScalar)>) -> (r: Result<i64, DecodeErrorKind>)
    ensures
        match r {
            Ok(t) => spec_comment_created(fields_view(fs@)) == Ok::<_, DecodeErrorKind>(t),
            Err(k) => spec_comment_created(fields_view(fs@)) == Err::<i64, _>(k),
        },
{
    match find_field(fs, "created_utc") {
        Some(JsonScalar::Int(t)) => Ok(*t),
        Some(JsonScalar::Float(t)) => Ok(*t),
        _ => Err(DecodeErrorKind::Schema),
    }
}

/// A comment's parent reference: a mandatory field of its own error kinds.
/// Missing and explicit null are the absent kind; a malformed string is the
/// malformed kind; any other shape is a schema error.
pub open spec fn spec_parent_field(
    fs: Seq<(Seq<char>, ScalarModel)>,
) -> Result<ParentIdModel, DecodeErrorKind> {
    match lookup_field(fs, "parent_id"@) {
        None => Err(DecodeErrorKind::ParentAbsent),
        Some(ScalarModel::Null) => Err(DecodeErrorKind::ParentAbsent),
        Some(ScalarModel::Str(s)) => match spec_parse_parent_str(s) {
            Some(p) => Ok(p),
            None => Err(DecodeErrorKind::ParentMalformed),
        },
        Some(_) => Err(DecodeErrorKind::Schema),
    }
}

fn parent_field(fs: &Vec<(String, JsonScalar)>) -> (r: Result<ParentId, DecodeErrorKind>)
    ensures
        match r {
            Ok(p) => spec_parent_field(fields_view(fs@)) == Ok::<_, DecodeErrorKind>(p@),
            Err(k) => spec_parent_field(fields_view(fs@)) == Err::<ParentIdModel, _>(k),
        },
{
    match find_field(fs, "parent_id") {
        None => Err(DecodeErrorKind::ParentAbsent),
        Some(JsonScalar::Null) => Err(DecodeErrorKind::ParentAbsent),
        Some(JsonScalar::Str(s)) => match ParentId::parse(Some(s.as_str())) {
            Ok(p) => Ok(p),
            Err(_) => Err(DecodeErrorKind::ParentMalformed),
        },
        Some(_) => Err(DecodeErrorKind::Schema),
    }
}

/// What decoding a comment from a parsed field list yields, field by field
/// in a fixed order, stopping at the first failure.
pub open spec fn spec_comment_from_fields(
    fs: Seq<(Seq<char>, ScalarModel)>,
) -> Result<CommentModel, DecodeErrorKind> {
    match spec_req_string(fs, "author"@) {
        Err(k) => Err(k),
        Ok(author) => match spec_req_string(fs, "body"@) {
            Err(k) => Err(k),
            Ok(body) => match spec_req_string(fs, "subreddit"@) {
                Err(k) => Err(k),
                Ok(subreddit) => match spec_opt_string(fs, "author_flair_text"@) {
                    Err(k) => Err(k),
                    Ok(author_flair_text) => match spec_opt_i32(fs, "score"@) {
                        Err(k) => Err(k),
                        Ok(score) => match spec_opt_i32(fs, "ups"@) {
                            Err(k) => Err(k),
                            Ok(ups) => match spec_opt_i32(fs, "downs"@) {
                                Err(k) => Err(k),
                                Ok(downs) => match spec_opt_i32(fs, "controversiality"@) {
                                    Err(k) => Err(k),
                                    Ok(controversiality) => match spec_comment_created(fs) {
                                        Err(k) => Err(k),
                                        Ok(created_utc) => match spec_opt_i64(
                                            fs,
                                            "retrieved_on"@,
                                        ) {
                                            Err(k) => Err(k),
                                            Ok(retrieved_on) => match spec_req_string(
                                                fs,
                                                "link_id"@,
                                            ) {
                                                Err(k) => Err(k),
                                                Ok(link_id) => match spec_req_string(fs, "id"@) {
                                                    Err(k) => Err(k),
                                                    Ok(id) => match spec_opt_string(
                                                        fs,
                                                        "permalink"@,
                                                    ) {
                                                        Err(k) => Err(k),
                                                        Ok(permalink) => match spec_parent_field(
                                                            fs,
                                                        ) {
                                                            Err(k) => Err(k),
                                                            Ok(parent_id) => spec_comment_flags(
                                                                fs,
                                                                CommentModel {
                                                                    author,
                                                                    body,
                                                                    subreddit,
                                                                    author_flair_text,
                                                                    score,
                                                                    ups,
                                                                    downs,
                                                                    controversiality,
                                                                    created_utc,
                                                                    retrieved_on,
                                                                    link_id,
                                                                    id,
                                                                    permalink,
                                                                    parent_id,
                                                                    parent_is_post: false,
                                                                    stickied: false,
                                                                    is_submitter: false,
                                                                    archived: false,
                                                                    distinguished: None,
                                                                },
                                                            ),
                                                        },
                                                    },
                                                },
                                            },
                                        },
                                    },
                                },
                            },
                        },
                    },
                },
            },
        },
    }
}

/// The tail of the comment decode: the defaultable flags and the
/// distinguished marker, written onto an otherwise complete record.
pub open spec fn spec_comment_flags(
    fs: Seq<(Seq<char>, ScalarModel)>,
    base: CommentModel,
) -> Result<CommentModel, DecodeErrorKind> {
    match spec_bool_or_false(fs, "parent_is_post"@) {
        Err(k) => Err(k),
        Ok(parent_is_post) => match spec_bool_or_false(fs, "stickied"@) {
            Err(k) => Err(k),
            Ok(stickied) => match spec_bool_or_false(fs, "is_submitter"@) {
                Err(k) => Err(k),
                Ok(is_submitter) => match spec_bool_or_false(fs, "archived"@) {
                    Err(k) => Err(k),
                    Ok(archived) => match spec_opt_string(fs, "distinguished"@) {
                        Err(k) => Err(k),
                        Ok(distinguished) => Ok(
                            CommentModel {
                                parent_is_post,
                                stickied,
                                is_submitter,
                                archived,
                                distinguished,
                                ..base
                            },
                        ),
                    },
                },
            },
        },
    }
}

/// What decoding one comment line yields.
pub open spec fn spec_decode_comment(line: Seq<char>) -> Result<CommentModel, DecodeErrorKind> {
    match json_line_model(line) {
        LineModel::NotJson => Err(DecodeErrorKind::MalformedJson),
        LineModel::NotObject => Err(DecodeErrorKind::Schema),
        LineModel::Fields(fs) => spec_comment_from_fields(fs),
    }
}

impl Comment {
    fn from_fields(fs: &Vec<(String, JsonScalar)>) -> (r: Result<Comment, DecodeErrorKind>)
        ensures
            match r {
                Ok(c) => spec_comment_from_fields(fields_view(fs@)) == Ok::<_, DecodeErrorKind>(
                    c@,
                ),
                Err(k) => spec_comment_from_fields(fields_view(fs@)) == Err::<CommentModel, _>(k),
            },
    {
        let author = match req_string(fs, "author") {
            Ok(v) => v,
            Err(k) => return Err(k),
        };
        let body = match req_string(fs, "body") {
            Ok(v) => v,
            Err(k) => return Err(k),
        };
        let subreddit = match req_string(fs, "subreddit") {
            Ok(v) => v,
            Err(k) => return Err(k),
        };
        let author_flair_text = match opt_string(fs, "author_flair_text") {
            Ok(v) => v,
            Err(k) => return Err(k),
        };
        let score = match opt_i32(fs, "score") {
            Ok(v) => v,
            Err(k) => return Err(k),
        };
        let ups = match opt_i32(fs, "ups") {
            Ok(v) => v,
            Err(k) => return Err(k),
        };
        let downs = match opt_i32(fs, "downs") {
            Ok(v) => v,
            Err(k) => return Err(k),
        };
        let controversiality = match opt_i32(fs, "controversiality") {
            Ok(v) => v,
            Err(k) => return Err(k),
        };
        let created_utc = match comment_created(fs) {
            Ok(v) => v,
            Err(k) => return Err(k),
        };
        let retrieved_on = match opt_i64(fs, "retrieved_on") {
            Ok(v) => v,
            Err(k) => return Err(k),
        };
        let link_id = match req_string(fs, "link_id") {
            Ok(v) => v,
            Err(k) => return Err(k),
        };
        let id = match req_string(fs, "id") {
            Ok(v) => v,
            Err(k) => return Err(k),
        };
        let permalink = match opt_string(fs, "permalink") {
            Ok(v) => v,
            Err(k) => return Err(k),
        };
        let parent_id = match parent_field(fs) {
            Ok(v) => v,
            Err(k) => return Err(k),
        };
        let parent_is_post = match bool_or_false(fs, "parent_is_post") {
            Ok(v) => v,
            Err(k) => return Err(k),
        };
        let stickied = match bool_or_false(fs, "stickied") {
            Ok(v) => v,
            Err(k) => return Err(k),
        };
        let is_submitter = match bool_or_false(fs, "is_submitter") {
            Ok(v) => v,
            Err(k) => return Err(k),
        };
        let archived = match bool_or_false(fs, "archived") {
            Ok(v) => v,
            Err(k) => return Err(k),
        };
        let distinguished = match opt_string(fs, "distinguished") {
            Ok(v) => v,
            Err(k) => return Err(k),
        };
        Ok(
            Comment {
                author,
                body,
                subreddit,
                author_flair_text,
                score,
                ups,
                downs,
                controversiality,
                created_utc,
                retrieved_on,
                link_id,
                id,
                permalink,
                parent_id,
                parent_is_post,
                stickied,
                is_submitter,
                archived,
                distinguished,
            },
        )
    }

    /// Decode one comment line, or fail with the offending line attached.
    pub fn from_json_str(line: &str) -> (r: Result<Comment, DecodeError>)
        ensures
            match r {
                Ok(c) => spec_decode_comment(line@) == Ok::<_, DecodeErrorKind>(c@),
                Err(e) => spec_decode_comment(line@) == Err::<CommentModel, _>(e.kind)
                    && e.line@ == line@,
            },
    {
        match parse_json_line(line) {
            ParsedLine::NotJson => Err(
                DecodeError { kind: DecodeErrorKind::MalformedJson, line: line.to_owned() },
            ),
            ParsedLine::NotObject => Err(
                DecodeError { kind: DecodeErrorKind::Schema, line: line.to_owned() },
            ),
            ParsedLine::Fields(fs) => match Comment::from_fields(&fs) {
                Ok(c) => Ok(c),
                Err(k) => Err(DecodeError { kind: k, line: line.to_owned() }),
            },
        }
    }
}

impl Comment {
    /// Hand this record to a storage backend's comment insertion and return
    /// the backend's reported outcome unchanged.
    pub fn store<S: Storage>(&self, storage: &mut S) -> (r: Result<
        usize,
        S::Err,
    >)
        ensures
            ((*final(storage), r)) == old(storage).comment_insert(*self),
    {
        storage.insert_comment(self)
    }
}

impl Filterable for Comment {
    open spec fn spec_score(&self) -> Option<i32> {
        self.score
    }

    open spec fn spec_author(&self) -> Option<Seq<char>> {
        Some(self.author@)
    }

    open spec fn spec_subreddit(&self) -> Option<Seq<char>> {
        Some(self.subreddit@)
    }

    open spec fn spec_created(&self) -> i64 {
        self.created_utc
    }

    fn score(&self) -> (r: Option<i32>) {
        self.score
    }

    fn author<'a>(&'a self) -> (r: Option<&'a str>) {
        Some(self.author.as_str())
    }

    fn subreddit<'a>(&'a self) -> (r: Option<&'a str>) {
        Some(self.subreddit.as_str())
    }

    fn created(&self) -> (r: i64) {
        self.created_utc
    }
}

/// Law: when a comment line's creation time is encoded as an integer, or as
/// a floating-point value whose truncation is that integer, a successful
/// decode records exactly that integer — both encodings yield the same
/// record field.
pub proof fn lemma_comment_created_matches_field(fs: Seq<(Seq<char>, ScalarModel)>, t: i64)
    requires
        lookup_field(fs, "created_utc"@) == Some(ScalarModel::Int(t)) || lookup_field(
            fs,
            "created_utc"@,
        ) == Some(ScalarModel::Float(t)),
        spec_comment_from_fields(fs) is Ok,
    ensures
        spec_comment_from_fields(fs)->Ok_0.created_utc == t,
{
}

} // verus!

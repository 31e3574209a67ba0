//! The submission decoder.
//!
//! A submission line must carry its permalink, title, selftext, identifier,
//! comment count and two required flags; the rest is optional. Some archival
//! dumps pad lines with trailing NUL characters, so those are stripped
//! before parsing, and the creation time runs through the polymorphic
//! timestamp normalizer because dumps encode it as an integer, a
//! floating-point number, or a string depending on the era.

use vstd::prelude::*;

use crate::error::{DecodeError, DecodeErrorKind};
use crate::fields::{
    bool_or_false, find_field, lookup_field, opt_bool, opt_i32, opt_i64, opt_string, opt_u32,
    req_bool, req_i32, req_string, spec_bool_or_false, spec_opt_bool, spec_opt_i32, spec_opt_i64,
    spec_opt_string, spec_opt_u32, spec_req_bool, spec_req_i32, spec_req_string,
};
use crate::json::{fields_view, json_line_model, parse_json_line, JsonScalar, LineModel,
    ParsedLine, ScalarModel};
use crate::filter::Filterable;
use crate::storage::Storage;
use crate::timestamp::{normalize_timestamp, spec_normalize_timestamp};

verus! {

/// One decoded submission record.
#[derive(Debug, Clone)]
pub struct Submission {
    pub author: Option<String>,
    pub url: Option<String>,
    pub permalink: String,
    pub score: Option<i32>,
    pub title: String,
    pub selftext: String,
    pub domain: Option<String>,
    pub author_flair_text: Option<String>,
    pub subreddit: Option<String>,
    pub subreddit_id: Option<String>,
    pub id: String,
    pub num_comments: i32,
    pub over_18: bool,
    pub is_self: bool,
    pub link_flair_text: Option<String>,
    pub spoiler: Option<bool>,
    pub pinned: Option<bool>,
    pub stickied: bool,
    pub num_crossposts: Option<u32>,
    pub ups: Option<i32>,
    pub downs: Option<i32>,
    pub created_utc: i64,
    pub retrieved_on: Option<i64>,
}

/// Specification-level mirror of `Submission`.
pub struct SubmissionModel {
    pub author: Option<Seq<char>>,
    pub url: Option<Seq<char>>,
    pub permalink: Seq<char>,
    pub score: Option<i32>,
    pub title: Seq<char>,
    pub selftext: Seq<char>,
    pub domain: Option<Seq<char>>,
    pub author_flair_text: Option<Seq<char>>,
    pub subreddit: Option<Seq<char>>,
    pub subreddit_id: Option<Seq<char>>,
    pub id: Seq<char>,
    pub num_comments: i32,
    pub over_18: bool,
    pub is_self: bool,
    pub link_flair_text: Option<Seq<char>>,
    pub spoiler: Option<bool>,
    pub pinned: Option<bool>,
    pub stickied: bool,
    pub num_crossposts: Option<u32>,
    pub ups: Option<i32>,
    pub downs: Option<i32>,
    pub created_utc: i64,
    pub retrieved_on: Option<i64>,
}

impl View for Submission {
    type V = SubmissionModel;

    open spec fn view(&self) -> SubmissionModel {
        SubmissionModel {
            author: self.author.deep_view(),
            url: self.url.deep_view(),
            permalink: self.permalink@,
            score: self.score,
            title: self.title@,
            selftext: self.selftext@,
            domain: self.domain.deep_view(),
            author_flair_text: self.author_flair_text.deep_view(),
            subreddit: self.subreddit.deep_view(),
            subreddit_id: self.subreddit_id.deep_view(),
            id: self.id@,
            num_comments: self.num_comments,
            over_18: self.over_18,
            is_self: self.is_self,
            link_flair_text: self.link_flair_text.deep_view(),
            spoiler: self.spoiler,
            pinned: self.pinned,
            stickied: self.stickied,
            num_crossposts: self.num_crossposts,
            ups: self.ups,
            downs: self.downs,
            created_utc: self.created_utc,
            retrieved_on: self.retrieved_on,
        }
    }
}

/// A line with its trailing NUL characters removed.
pub open spec fn strip_trailing_nuls(s: Seq<char>) -> Seq<char>
    decreases s.len(),
{
    if s.len() > 0 && s.last() == '\0' {
        strip_trailing_nuls(s.drop_last())
    } else {
        s
    }
}

/// Strip the trailing NUL padding some archival dumps leave on a line.
pub fn strip_nuls(line: &str) -> (r: &str)
    ensures
        r@ == strip_trailing_nuls(line@),
{
    let n = line.unicode_len();
    proof {
        assert(line@.take(n as int) =~= line@);
    }
    let mut end = n;
    while end > 0 && line.get_char(end - 1) == '\0'
        invariant
            0 <= end <= n,
            n == line@.len(),
            strip_trailing_nuls(line@) == strip_trailing_nuls(line@.take(end as int)),
        decreases end,
    {
        proof {
            assert(line@.take(end as int).last() == line@[end - 1]);
            assert(line@.take(end as int).drop_last() =~= line@.take(end - 1));
        }
        end = end - 1;
    }
    proof {
        assert(line@.take(n as int) =~= line@);
        if end > 0 {
            assert(line@.take(end as int).last() == line@[end - 1]);
        }
        assert(strip_trailing_nuls(line@.take(end as int)) == line@.take(end as int));
    }
    line.substring_char(0, end)
}

/// A submission's creation time: a required field, normalized from any of
/// the accepted encodings.
pub open spec fn spec_timestamp_field(
    fs: Seq<(Seq<char>, ScalarModel)>,
) -> Result<i64, DecodeErrorKind> {
    match lookup_field(fs, "created_utc"@) {
        None => Err(DecodeErrorKind::Schema),
        Some(v) => spec_normalize_timestamp(v),
    }
}

fn timestamp_field(fs: &Vec<(String, JsonScalar)>) -> (r: Result<i64, DecodeErrorKind>)
    ensures
        match r {
            Ok(t) => spec_timestamp_field(fields_view(fs@)) == Ok::<_, DecodeErrorKind>(t),
            Err(k) => spec_timestamp_field(fields_view(fs@)) == Err::<i64, _>(k),
        },
{
    match find_field(fs, "created_utc") {
        None => Err(DecodeErrorKind::Schema),
        Some(v) => normalize_timestamp(v),
    }
}

/// What decoding a submission from a parsed field list yields, field by
/// field in a fixed order, stopping at the first failure.
pub open spec fn spec_submission_from_fields(
    fs: Seq<(Seq<char>, ScalarModel)>,
) -> Result<SubmissionModel, DecodeErrorKind> {
    match spec_opt_string(fs, "author"@) {
        Err(k) => Err(k),
        Ok(author) => match spec_opt_string(fs, "url"@) {
            Err(k) => Err(k),
            Ok(url) => match spec_req_string(fs, "permalink"@) {
                Err(k) => Err(k),
                Ok(permalink) => match spec_opt_i32(fs, "score"@) {
                    Err(k) => Err(k),
                    Ok(score) => match spec_req_string(fs, "title"@) {
                        Err(k) => Err(k),
                        Ok(title) => match spec_req_string(fs, "selftext"@) {
                            Err(k) => Err(k),
                            Ok(selftext) => match spec_opt_string(fs, "domain"@) {
                                Err(k) => Err(k),
                                Ok(domain) => match spec_opt_string(fs, "author_flair_text"@) {
                                    Err(k) => Err(k),
                                    Ok(author_flair_text) => match spec_opt_string(
                                        fs,
                                        "subreddit"@,
                                    ) {
                                        Err(k) => Err(k),
                                        Ok(subreddit) => match spec_opt_string(
                                            fs,
                                            "subreddit_id"@,
                                        ) {
                                            Err(k) => Err(k),
                                            Ok(subreddit_id) => match spec_req_string(fs, "id"@) {
                                                Err(k) => Err(k),
                                                Ok(id) => match spec_req_i32(
                                                    fs,
                                                    "num_comments"@,
                                                ) {
                                                    Err(k) => Err(k),
                                                    Ok(num_comments) => spec_submission_rest(
                                                        fs,
                                                        SubmissionModel {
                                                            author,
                                                            url,
                                                            permalink,
                                                            score,
                                                            title,
                                                            selftext,
                                                            domain,
                                                            author_flair_text,
                                                            subreddit,
                                                            subreddit_id,
                                                            id,
                                                            num_comments,
                                                            over_18: false,
                                                            is_self: false,
                                                            link_flair_text: None,
                                                            spoiler: None,
                                                            pinned: None,
                                                            stickied: false,
                                                            num_crossposts: None,
                                                            ups: None,
                                                            downs: None,
                                                            created_utc: 0,
                                                            retrieved_on: None,
                                                        },
                                                    ),
                                                },
                                            },
                                        },
                                    },
                                },
                            },
                        },
                    },
                },
            },
        },
    }
}

/// The tail of the submission decode: flags, counters and the normalized
/// timestamp, written onto an otherwise complete record.
pub open spec fn spec_submission_rest(
    fs: Seq<(Seq<char>, ScalarModel)>,
    base: SubmissionModel,
) -> Result<SubmissionModel, DecodeErrorKind> {
    match spec_req_bool(fs, "over_18"@) {
        Err(k) => Err(k),
        Ok(over_18) => match spec_req_bool(fs, "is_self"@) {
            Err(k) => Err(k),
            Ok(is_self) => match spec_opt_string(fs, "link_flair_text"@) {
                Err(k) => Err(k),
                Ok(link_flair_text) => match spec_opt_bool(fs, "spoiler"@) {
                    Err(k) => Err(k),
                    Ok(spoiler) => match spec_opt_bool(fs, "pinned"@) {
                        Err(k) => Err(k),
                        Ok(pinned) => match spec_bool_or_false(fs, "stickied"@) {
                            Err(k) => Err(k),
                            Ok(stickied) => match spec_opt_u32(fs, "num_crossposts"@) {
                                Err(k) => Err(k),
                                Ok(num_crossposts) => match spec_opt_i32(fs, "ups"@) {
                                    Err(k) => Err(k),
                                    Ok(ups) => match spec_opt_i32(fs, "downs"@) {
                                        Err(k) => Err(k),
                                        Ok(downs) => match spec_timestamp_field(fs) {
                                            Err(k) => Err(k),
                                            Ok(created_utc) => match spec_opt_i64(
                                                fs,
                                                "retrieved_on"@,
                                            ) {
                                                Err(k) => Err(k),
                                                Ok(retrieved_on) => Ok(
                                                    SubmissionModel {
                                                        over_18,
                                                        is_self,
                                                        link_flair_text,
                                                        spoiler,
                                                        pinned,
                                                        stickied,
                                                        num_crossposts,
                                                        ups,
                                                        downs,
                                                        created_utc,
                                                        retrieved_on,
                                                        ..base
                                                    },
                                                ),
                                            },
                                        },
                                    },
                                },
                            },
                        },
                    },
                },
            },
        },
    }
}

/// What decoding one submission line yields: trailing NUL padding is
/// stripped before the parse.
pub open spec fn spec_decode_submission(line: Seq<char>) -> Result<
    SubmissionModel,
    DecodeErrorKind,
> {
    match json_line_model(strip_trailing_nuls(line)) {
        LineModel::NotJson => Err(DecodeErrorKind::MalformedJson),
        LineModel::NotObject => Err(DecodeErrorKind::Schema),
        LineModel::Fields(fs) => spec_submission_from_fields(fs),
    }
}

impl Submission {
    fn from_fields(fs: &Vec<(String, JsonScalar)>) -> (r: Result<Submission, DecodeErrorKind>)
        ensures
            match r {
                Ok(s) => spec_submission_from_fields(fields_view(fs@)) == Ok::<
                    _,
                    DecodeErrorKind,
                >(s@),
                Err(k) => spec_submission_from_fields(fields_view(fs@)) == Err::<
                    SubmissionModel,
                    _,
                >(k),
            },
    {
        let author = match opt_string(fs, "author") {
            Ok(v) => v,
            Err(k) => return Err(k),
        };
        let url = match opt_string(fs, "url") {
            Ok(v) => v,
            Err(k) => return Err(k),
        };
        let permalink = match req_string(fs, "permalink") {
            Ok(v) => v,
            Err(k) => return Err(k),
        };
        let score = match opt_i32(fs, "score") {
            Ok(v) => v,
            Err(k) => return Err(k),
        };
        let title = match req_string(fs, "title") {
            Ok(v) => v,
            Err(k) => return Err(k),
        };
        let selftext = match req_string(fs, "selftext") {
            Ok(v) => v,
            Err(k) => return Err(k),
        };
        let domain = match opt_string(fs, "domain") {
            Ok(v) => v,
            Err(k) => return Err(k),
        };
        let author_flair_text = match opt_string(fs, "author_flair_text") {
            Ok(v) => v,
            Err(k) => return Err(k),
        };
        let subreddit = match opt_string(fs, "subreddit") {
            Ok(v) => v,
            Err(k) => return Err(k),
        };
        let subreddit_id = match opt_string(fs, "subreddit_id") {
            Ok(v) => v,
            Err(k) => return Err(k),
        };
        let id = match req_string(fs, "id") {
            Ok(v) => v,
            Err(k) => return Err(k),
        };
        let num_comments = match req_i32(fs, "num_comments") {
            Ok(v) => v,
            Err(k) => return Err(k),
        };
        let over_18 = match req_bool(fs, "over_18") {
            Ok(v) => v,
            Err(k) => return Err(k),
        };
        let is_self = match req_bool(fs, "is_self") {
            Ok(v) => v,
            Err(k) => return Err(k),
        };
        let link_flair_text = match opt_string(fs, "link_flair_text") {
            Ok(v) => v,
            Err(k) => return Err(k),
        };
        let spoiler = match opt_bool(fs, "spoiler") {
            Ok(v) => v,
            Err(k) => return Err(k),
        };
        let pinned = match opt_bool(fs, "pinned") {
            Ok(v) => v,
            Err(k) => return Err(k),
        };
        let stickied = match bool_or_false(fs, "stickied") {
            Ok(v) => v,
            Err(k) => return Err(k),
        };
        let num_crossposts = match opt_u32(fs, "num_crossposts") {
            Ok(v) => v,
            Err(k) => return Err(k),
        };
        let ups = match opt_i32(fs, "ups") {
            Ok(v) => v,
            Err(k) => return Err(k),
        };
        let downs = match opt_i32(fs, "downs") {
            Ok(v) => v,
            Err(k) => return Err(k),
        };
        let created_utc = match timestamp_field(fs) {
            Ok(v) => v,
            Err(k) => return Err(k),
        };
        let retrieved_on = match opt_i64(fs, "retrieved_on") {
            Ok(v) => v,
            Err(k) => return Err(k),
        };
        Ok(
            Submission {
                author,
                url,
                permalink,
                score,
                title,
                selftext,
                domain,
                author_flair_text,
                subreddit,
                subreddit_id,
                id,
                num_comments,
                over_18,
                is_self,
                link_flair_text,
                spoiler,
                pinned,
                stickied,
                num_crossposts,
                ups,
                downs,
                created_utc,
                retrieved_on,
            },
        )
    }

    /// Decode one submission line, or fail with the offending line attached.
    pub fn from_json_str(line: &str) -> (r: Result<Submission, DecodeError>)
        ensures
            match r {
                Ok(s) => spec_decode_submission(line@) == Ok::<_, DecodeErrorKind>(s@),
                Err(e) => spec_decode_submission(line@) == Err::<SubmissionModel, _>(e.kind)
                    && e.line@ == line@,
            },
    {
        let stripped = strip_nuls(line);
        match parse_json_line(stripped) {
            ParsedLine::NotJson => Err(
                DecodeError { kind: DecodeErrorKind::MalformedJson, line: line.to_owned() },
            ),
            ParsedLine::NotObject => Err(
                DecodeError { kind: DecodeErrorKind::Schema, line: line.to_owned() },
            ),
            ParsedLine::Fields(fs) => match Submission::from_fields(&fs) {
                Ok(s) => Ok(s),
                Err(k) => Err(DecodeError { kind: k, line: line.to_owned() }),
            },
        }
    }
}

impl Submission {
    /// Hand this record to a storage backend's submission insertion and
    /// return the backend's reported outcome unchanged.
    pub fn store<S: Storage>(&self, storage: &mut S) -> (r: Result<
        usize,
        S::Err,
    >)
        ensures
            ((*final(storage), r)) == old(storage).submission_insert(*self),
    {
        storage.insert_submission(self)
    }
}

impl Filterable for Submission {
    open spec fn spec_score(&self) -> Option<i32> {
        self.score
    }

    open spec fn spec_author(&self) -> Option<Seq<char>> {
        self.author.deep_view()
    }

    open spec fn spec_subreddit(&self) -> Option<Seq<char>> {
        self.subreddit.deep_view()
    }

    open spec fn spec_created(&self) -> i64 {
        self.created_utc
    }

    fn score(&self) -> (r: Option<i32>) {
        self.score
    }

    fn author<'a>(&'a self) -> (r: Option<&'a str>) {
        match &self.author {
            Some(s) => Some(s.as_str()),
            None => None,
        }
    }

    fn subreddit<'a>(&'a self) -> (r: Option<&'a str>) {
        match &self.subreddit {
            Some(s) => Some(s.as_str()),
            None => None,
        }
    }

    fn created(&self) -> (r: i64) {
        self.created_utc
    }
}

/// Law: stripping is blind to padding — a line extended by any run of NUL
/// characters strips to the same text.
pub proof fn lemma_strip_ignores_nul_padding(l: Seq<char>, pad: Seq<char>)
    requires
        forall|i: int| 0 <= i < pad.len() ==> pad[i] == '\0',
    ensures
        strip_trailing_nuls(l + pad) == strip_trailing_nuls(l),
    decreases pad.len(),
{
    if pad.len() == 0 {
        assert(l + pad =~= l);
    } else {
        assert((l + pad).last() == '\0');
        assert((l + pad).drop_last() =~= l + pad.drop_last());
        lemma_strip_ignores_nul_padding(l, pad.drop_last());
    }
}

/// Law: a submission line padded with trailing NUL characters decodes to
/// exactly the same outcome as the line without the padding.
pub proof fn lemma_nul_padding_decodes_identically(l: Seq<char>, pad: Seq<char>)
    requires
        forall|i: int| 0 <= i < pad.len() ==> pad[i] == '\0',
    ensures
        spec_decode_submission(l + pad) == spec_decode_submission(l),
{
    lemma_strip_ignores_nul_padding(l, pad);
}

} // verus!

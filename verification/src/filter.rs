//! The normalized-access facade.
//!
//! Both record kinds expose the same four accessors with the same shapes,
//! so downstream filtering can treat a mixed stream of records uniformly
//! without knowing the concrete kind. A comment always has an author and a
//! subreddit; a submission may lack either; both always have a creation
//! time.

use vstd::prelude::*;

verus! {

/// Uniform read access to the fields downstream filters care about.
pub trait Filterable {
    spec fn spec_score(&self) -> Option<i32>;

    spec fn spec_author(&self) -> Option<Seq<char>>;

    spec fn spec_subreddit(&self) -> Option<Seq<char>>;

    spec fn spec_created(&self) -> i64;

    fn score(&self) -> (r: Option<i32>)
        ensures
            r == self.spec_score(),
    ;

    fn author<'a>(&'a self) -> (r: Option<&'a str>)
        ensures
            r.deep_view() == self.spec_author(),
    ;

    fn subreddit<'a>(&'a self) -> (r: Option<&'a str>)
        ensures
            r.deep_view() == self.spec_subreddit(),
    ;

    fn created(&self) -> (r: i64)
        ensures
            r == self.spec_created(),
    ;
}

} // verus!

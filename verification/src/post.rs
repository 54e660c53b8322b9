//! The post itself: its executable form, its mathematical view, and the
//! one error the library can report.

use vstd::prelude::*;

verus! {

/// Mathematical view of a single blog post.
pub struct PostView {
    pub id: int,
    pub title: Seq<char>,
    pub date: Seq<char>,
    pub article: Seq<char>,
}

/// One published article: a unique id, a non-empty title, the publication
/// date, and a non-empty body.
#[derive(Debug)]
pub struct Post {
    pub id: usize,
    pub title: String,
    pub date: String,
    pub article: String,
}

impl View for Post {
    type V = PostView;

    open spec fn view(&self) -> PostView {
        PostView {
            id: self.id as int,
            title: self.title@,
            date: self.date@,
            article: self.article@,
        }
    }
}

impl Clone for Post {
    fn clone(&self) -> (r: Self)
        ensures
            r == *self,
    {
        Post {
            id: self.id,
            title: self.title.clone(),
            date: self.date.clone(),
            article: self.article.clone(),
        }
    }
}

/// The views of a sequence of posts, in order.
pub open spec fn views_of(posts: Seq<Post>) -> Seq<PostView> {
    posts.map_values(|p: Post| p@)
}

/// The single error of the library: a required field was empty.
#[derive(Debug)]
pub struct ValidationError;

impl ValidationError {
    /// The message shown to a caller whose input was rejected.
    pub fn message(&self) -> (m: String)
        ensures
            m@ == "Title and article are required"@,
    {
        String::from_str("Title and article are required")
    }
}

} // verus!

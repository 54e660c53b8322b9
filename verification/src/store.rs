//! The store: an ordered, append-only collection of posts whose ids are
//! exactly their insertion indices.

use vstd::prelude::*;
use crate::post::{Post, PostView, ValidationError, views_of};

verus! {

/// The date stamped on every post.
pub open spec fn post_date() -> Seq<char> {
    "2024-01-15"@
}

/// An input is accepted when both the title and the article are non-empty.
pub open spec fn valid_input(title: Seq<char>, article: Seq<char>) -> bool {
    title.len() > 0 && article.len() > 0
}

/// The view of the post a successful append adds to a store whose view is `s`.
pub open spec fn new_post_view(s: Seq<PostView>, title: Seq<char>, article: Seq<char>) -> PostView {
    PostView { id: s.len() as int, title, date: post_date(), article }
}

/// The view of a store after a successful append.
pub open spec fn appended(s: Seq<PostView>, title: Seq<char>, article: Seq<char>) -> Seq<PostView> {
    s.push(new_post_view(s, title, article))
}

/// Well-formedness of a store's view: each post sits at the index equal to
/// its id, carries the fixed date, and has a non-empty title and article.
pub open spec fn wf_posts(s: Seq<PostView>) -> bool {
    forall|i: int| #![trigger s[i]]
        0 <= i < s.len() ==> s[i].id == i && s[i].date == post_date()
            && valid_input(s[i].title, s[i].article)
}

/// An ordered, append-only, in-memory collection of posts.
pub struct PostStore {
    posts: Vec<Post>,
}

impl View for PostStore {
    type V = Seq<PostView>;

    closed spec fn view(&self) -> Seq<PostView> {
        views_of(self.posts@)
    }
}

impl PostStore {
    #[verifier::type_invariant]
    spec fn wf(self) -> bool {
        wf_posts(self@)
    }

    /// A store with no posts.
    pub fn new() -> (s: Self)
        ensures
            s@ == Seq::<PostView>::empty(),
    {
        let s = PostStore { posts: Vec::new() };
        proof {
            assert(s@ =~= Seq::<PostView>::empty());
        }
        s
    }

    /// Every store reachable through this interface is well formed.
    pub fn well_formed(&self)
        ensures
            wf_posts(self@),
    {
        proof {
            use_type_invariant(&*self);
        }
    }

    /// Appends a post built from the given title and article, assigning as
    /// its id the number of posts already stored, and returns a copy of it;
    /// rejects empty input without changing the store.
    pub fn append(&mut self, title: String, article: String) -> (r: Result<Post, ValidationError>)
        ensures
            valid_input(title@, article@) ==> (r matches Ok(p)
                && p@ == new_post_view(old(self)@, title@, article@)
                && final(self)@ == appended(old(self)@, title@, article@)),
            !valid_input(title@, article@) ==> r is Err && final(self)@ == old(self)@,
    {
        proof {
            use_type_invariant(&*self);
        }
        if title.as_str().is_empty() || article.as_str().is_empty() {
            return Err(ValidationError);
        }
        let mut posts: Vec<Post> = Vec::new();
        core::mem::swap(&mut posts, &mut self.posts);
        proof {
            assert(self@ =~= Seq::<PostView>::empty());
        }
        let id = posts.len();
        let post = Post {
            id,
            title,
            date: String::from_str("2024-01-15"),
            article,
        };
        posts.push(post.clone());
        proof {
            assert(views_of(posts@) =~= appended(views_of(old(self).posts@), post.title@, post.article@));
        }
        core::mem::swap(&mut posts, &mut self.posts);
        Ok(post)
    }

    /// Returns a snapshot of all posts, in insertion order.
    pub fn list(&self) -> (r: Vec<Post>)
        ensures
            views_of(r@) == self@,
    {
        let r = self.posts.clone();
        proof {
            assert(views_of(r@) =~= self@);
        }
        r
    }
}

/// Id monotonicity: in a well-formed store the n-th post, counting from
/// one, carries id n - 1; since a successful append assigns the prior
/// count as the id, every run of successful appends numbers its posts
/// 0, 1, 2, ... in order.
pub proof fn lemma_id_monotonic(s: Seq<PostView>, n: int)
    requires
        wf_posts(s),
        1 <= n <= s.len(),
    ensures
        s[n - 1].id == n - 1,
{
}

/// A successful append preserves well-formedness and assigns the prior
/// count as the new id.
pub proof fn lemma_append_well_formed(s: Seq<PostView>, title: Seq<char>, article: Seq<char>)
    requires
        wf_posts(s),
        valid_input(title, article),
    ensures
        wf_posts(appended(s, title, article)),
        new_post_view(s, title, article).id == s.len(),
{
}

/// Order preservation: an append leaves every post already stored at its
/// index unchanged and places the new post at the end, so appends in a
/// given order are listed in that order.
pub proof fn lemma_order_preserved(s: Seq<PostView>, title: Seq<char>, article: Seq<char>)
    ensures
        appended(s, title, article).len() == s.len() + 1,
        forall|i: int| 0 <= i < s.len() ==> appended(s, title, article)[i] == s[i],
        appended(s, title, article)[s.len() as int] == new_post_view(s, title, article),
{
}

/// Appending three posts in a given order lists them in that order, after
/// whatever the store already held.
pub proof fn lemma_three_appends_in_order(
    s: Seq<PostView>,
    t1: Seq<char>, a1: Seq<char>,
    t2: Seq<char>, a2: Seq<char>,
    t3: Seq<char>, a3: Seq<char>,
)
    ensures
        ({
            let s1 = appended(s, t1, a1);
            let s2 = appended(s1, t2, a2);
            let s3 = appended(s2, t3, a3);
            s3.len() == s.len() + 3
                && (forall|i: int| #![trigger s3[i]] 0 <= i < s.len() ==> s3[i] == s[i])
                && s3[s.len() as int] == new_post_view(s, t1, a1)
                && s3[s.len() as int + 1] == new_post_view(s1, t2, a2)
                && s3[s.len() as int + 2] == new_post_view(s2, t3, a3)
        }),
{
}

/// Listing is idempotent: two snapshots taken with no intervening append
/// each equal the store's view, hence each other.
pub proof fn lemma_listing_idempotent(s: Seq<PostView>, r1: Seq<PostView>, r2: Seq<PostView>)
    requires
        r1 == s,
        r2 == s,
    ensures
        r1 == r2,
{
}

/// Distinct ids with no gaps: a well-formed store of N posts assigns the
/// ids 0 through N - 1 with no duplicates, so N successful appends each
/// receive a distinct id in that range.
pub proof fn lemma_ids_distinct_and_gapless(s: Seq<PostView>)
    requires
        wf_posts(s),
    ensures
        forall|i: int, j: int| 0 <= i < j < s.len() ==> #[trigger] s[i].id != #[trigger] s[j].id,
        forall|k: int| #![trigger s[k]] 0 <= k < s.len()
            ==> (s[k].id == k && exists|i: int| 0 <= i < s.len() && #[trigger] s[i].id == k),
{
}

} // verus!

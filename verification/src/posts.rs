use vstd::prelude::*;

use crate::ApiError;

verus! {

/// An owned resource: a post with the creator identity captured at creation
/// time. The `author_email` field is set once and never reassigned; it is the
/// sole authorization key for mutating the post.
#[derive(Debug, Clone)]
pub struct Resource {
    pub id: i64,
    pub title: String,
    pub body: String,
    pub author_email: String,
}

/// The mathematical value of one stored post.
pub ghost struct PostView {
    pub title: Seq<char>,
    pub body: Seq<char>,
    pub author: Seq<char>,
}

impl View for Resource {
    type V = PostView;

    open spec fn view(&self) -> PostView {
        PostView { title: self.title@, body: self.body@, author: self.author_email@ }
    }
}

/// No two records carry the same identifier.
pub open spec fn ids_unique(s: Seq<Resource>) -> bool {
    forall|i: int, j: int| 0 <= i < j < s.len() ==> s[i].id != s[j].id
}

/// Records sit in creation order: identifiers grow strictly along the
/// sequence.
pub open spec fn ids_sorted(s: Seq<Resource>) -> bool {
    forall|i: int, j: int| 0 <= i < j < s.len() ==> s[i].id < s[j].id
}

/// Some record carries the identifier `id`.
pub open spec fn contains_id(s: Seq<Resource>, id: int) -> bool {
    exists|i: int| 0 <= i < s.len() && s[i].id == id
}

/// The post stored under `id` (meaningful only when `contains_id` holds and
/// the identifiers are unique).
pub open spec fn post_at(s: Seq<Resource>, id: int) -> PostView {
    let i = choose|i: int| 0 <= i < s.len() && s[i].id == id;
    s[i]@
}

/// The records as a map from identifier to post value.
pub open spec fn post_map(s: Seq<Resource>) -> Map<int, PostView> {
    Map::new(|id: int| contains_id(s, id), |id: int| post_at(s, id))
}

/// The ownership rule that gates every mutation: a missing resource is
/// `NotFound` whoever asks — existence is decided before ownership — and an
/// existing one may be mutated by its creator alone, anyone else being turned
/// away with `AuthorizationDenied`.
pub open spec fn mutation_gate(m: Map<int, PostView>, id: int, caller: Seq<char>) -> Result<(), ApiError> {
    if !m.contains_key(id) {
        Err(ApiError::NotFound)
    } else if m[id].author != caller {
        Err(ApiError::AuthorizationDenied)
    } else {
        Ok(())
    }
}

/// Law: the ownership gate in one statement. A nonexistent identifier is
/// reported `NotFound` regardless of the caller; an attempt by anyone other
/// than the creator is `AuthorizationDenied` and an attempt by the creator
/// passes.
pub proof fn lemma_ownership_gate(m: Map<int, PostView>, id: int, caller: Seq<char>)
    ensures
        !m.contains_key(id) ==> mutation_gate(m, id, caller) == Err::<(), ApiError>(ApiError::NotFound),
        m.contains_key(id) && m[id].author != caller
            ==> mutation_gate(m, id, caller) == Err::<(), ApiError>(ApiError::AuthorizationDenied),
        m.contains_key(id) && m[id].author == caller
            ==> mutation_gate(m, id, caller) == Ok::<(), ApiError>(()),
{
}

/// Decide one mutation attempt from the store's answer: `owner` is what the
/// lookup of the resource's creator field returned — the recorded owner, or
/// nothing when no such resource exists. Existence is decided first, so a
/// missing resource is `NotFound` whoever asks; then ownership, exact
/// identity equality, turns every other caller away with
/// `AuthorizationDenied`.
pub fn check_mutation(owner: Option<&String>, caller: &String) -> (r: Result<(), ApiError>)
    ensures
        owner is None ==> r == Err::<(), ApiError>(ApiError::NotFound),
        owner matches Some(o) && o@ != caller@
            ==> r == Err::<(), ApiError>(ApiError::AuthorizationDenied),
        owner matches Some(o) && o@ == caller@ ==> r is Ok,
{
    match owner {
        None => Err(ApiError::NotFound),
        Some(o) => match crate::authz::authorize(o, caller) {
            crate::authz::AccessDecision::Allow => Ok(()),
            crate::authz::AccessDecision::Forbidden => Err(ApiError::AuthorizationDenied),
        },
    }
}

/// With unique identifiers, any record that carries `id` is the record the
/// map speaks of.
proof fn lemma_post_found(s: Seq<Resource>, i: int, id: int)
    requires
        ids_unique(s),
        0 <= i < s.len(),
        s[i].id == id,
    ensures
        contains_id(s, id),
        post_at(s, id) == s[i]@,
{
    assert(contains_id(s, id));
    let j = choose|j: int| 0 <= j < s.len() && s[j].id == id;
    if i < j {
        assert(s[i].id != s[j].id);
    } else if j < i {
        assert(s[j].id != s[i].id);
    }
}

/// Appending a record with a fresh identifier keeps the identifiers unique
/// and adds exactly one map entry.
proof fn lemma_push_view(s: Seq<Resource>, c: Resource)
    requires
        ids_unique(s),
        !contains_id(s, c.id as int),
    ensures
        ids_unique(s.push(c)),
        post_map(s.push(c)) == post_map(s).insert(c.id as int, c@),
{
    let s2 = s.push(c);
    assert forall|i: int, j: int| 0 <= i < j < s2.len() implies s2[i].id != s2[j].id by {
        if j < s.len() {
            assert(s[i].id != s[j].id);
        } else {
            if s2[i].id == c.id {
                assert(s[i].id == c.id);
                assert(contains_id(s, c.id as int));
            }
        }
    }
    let m2 = post_map(s2);
    let m1 = post_map(s).insert(c.id as int, c@);
    assert forall|id: int| m2.dom().contains(id) <==> m1.dom().contains(id) by {
        if contains_id(s2, id) {
            let i = choose|i: int| 0 <= i < s2.len() && s2[i].id == id;
            if i < s.len() {
                assert(s[i].id == id);
                assert(contains_id(s, id));
            }
        }
        if contains_id(s, id) {
            let i = choose|i: int| 0 <= i < s.len() && s[i].id == id;
            assert(s2[i].id == id);
            assert(contains_id(s2, id));
        }
        if id == c.id as int {
            assert(s2[s.len() as int].id == id);
            assert(contains_id(s2, id));
        }
    }
    assert forall|id: int| m2.dom().contains(id) implies m2[id] == m1[id] by {
        if id == c.id as int {
            lemma_post_found(s2, s.len() as int, id);
        } else {
            assert(contains_id(s2, id));
            let i = choose|i: int| 0 <= i < s2.len() && s2[i].id == id;
            assert(i < s.len());
            assert(s[i].id == id);
            lemma_post_found(s2, i, id);
            lemma_post_found(s, i, id);
        }
    }
    assert(m2 =~= m1);
}

/// Replacing the record at `i` by one with the same identifier rewrites that
/// one map entry and nothing else.
proof fn lemma_update_view(s: Seq<Resource>, i: int, c: Resource)
    requires
        ids_unique(s),
        0 <= i < s.len(),
        c.id == s[i].id,
    ensures
        ids_unique(s.update(i, c)),
        post_map(s.update(i, c)) == post_map(s).insert(c.id as int, c@),
{
    let s2 = s.update(i, c);
    assert forall|p: int, q: int| 0 <= p < q < s2.len() implies s2[p].id != s2[q].id by {
        assert(s[p].id != s[q].id);
    }
    let m2 = post_map(s2);
    let m1 = post_map(s).insert(c.id as int, c@);
    assert forall|id: int| m2.dom().contains(id) <==> m1.dom().contains(id) by {
        if contains_id(s2, id) {
            let k = choose|k: int| 0 <= k < s2.len() && s2[k].id == id;
            assert(s[k].id == id);
            assert(contains_id(s, id));
        }
        if contains_id(s, id) {
            let k = choose|k: int| 0 <= k < s.len() && s[k].id == id;
            if k == i {
                assert(s2[i].id == id);
            } else {
                assert(s2[k].id == id);
            }
            assert(contains_id(s2, id));
        }
    }
    assert forall|id: int| m2.dom().contains(id) implies m2[id] == m1[id] by {
        if id == c.id as int {
            lemma_post_found(s2, i, id);
        } else {
            assert(contains_id(s2, id));
            let k = choose|k: int| 0 <= k < s2.len() && s2[k].id == id;
            assert(k != i);
            assert(s[k].id == id);
            lemma_post_found(s2, k, id);
            lemma_post_found(s, k, id);
        }
    }
    assert(m2 =~= m1);
}

/// Removing the record at `i` removes exactly its map entry.
proof fn lemma_remove_view(s: Seq<Resource>, i: int)
    requires
        ids_unique(s),
        0 <= i < s.len(),
    ensures
        ids_unique(s.remove(i)),
        post_map(s.remove(i)) == post_map(s).remove(s[i].id as int),
{
    s.remove_ensures(i);
    let s2 = s.remove(i);
    assert forall|p: int, q: int| 0 <= p < q < s2.len() implies s2[p].id != s2[q].id by {
        let p0 = if p < i { p } else { p + 1 };
        let q0 = if q < i { q } else { q + 1 };
        assert(s2[p] == s[p0]);
        assert(s2[q] == s[q0]);
        assert(s[p0].id != s[q0].id);
    }
    let m2 = post_map(s2);
    let m1 = post_map(s).remove(s[i].id as int);
    assert forall|id: int| m2.dom().contains(id) <==> m1.dom().contains(id) by {
        if contains_id(s2, id) {
            let k = choose|k: int| 0 <= k < s2.len() && s2[k].id == id;
            let k0 = if k < i { k } else { k + 1 };
            assert(s2[k] == s[k0]);
            assert(contains_id(s, id));
            if id == s[i].id as int {
                assert(s[k0].id == s[i].id);
                if k0 < i {
                    assert(s[k0].id != s[i].id);
                } else {
                    assert(s[i].id != s[k0].id);
                }
            }
        }
        if contains_id(s, id) && id != s[i].id as int {
            let k = choose|k: int| 0 <= k < s.len() && s[k].id == id;
            assert(k != i);
            if k < i {
                assert(s2[k] == s[k]);
            } else {
                assert(s2[k - 1] == s[k]);
            }
            assert(contains_id(s2, id));
        }
    }
    assert forall|id: int| m2.dom().contains(id) implies m2[id] == m1[id] by {
        assert(contains_id(s2, id));
        let k = choose|k: int| 0 <= k < s2.len() && s2[k].id == id;
        let k0 = if k < i { k } else { k + 1 };
        assert(s2[k] == s[k0]);
        lemma_post_found(s2, k, id);
        lemma_post_found(s, k0, id);
    }
    assert(m2 =~= m1);
}

/// The resource store: posts keyed by a server-assigned identifier, each
/// carrying its creator. Identifiers are unique and grow monotonically, so a
/// deleted identifier is never reissued.
pub struct ResourceStore {
    posts: Vec<Resource>,
    next_id: i64,
}

impl View for ResourceStore {
    type V = Map<int, PostView>;

    closed spec fn view(&self) -> Map<int, PostView> {
        post_map(self.posts@)
    }
}

impl ResourceStore {
    /// The identifier the next created post will receive. Creation fails
    /// only when this has reached the end of the identifier type — a machine
    /// limit, not a policy.
    pub closed spec fn next_id_spec(&self) -> int {
        self.next_id as int
    }

    /// Identifier uniqueness, creation order, and every stored identifier
    /// lies below the next one to be assigned.
    pub closed spec fn wf(&self) -> bool {
        &&& ids_unique(self.posts@)
        &&& ids_sorted(self.posts@)
        &&& self.next_id >= 1
        &&& forall|i: int| 0 <= i < self.posts@.len() ==> self.posts@[i].id < self.next_id
    }

    /// An empty store: no posts yet; identifiers start at 1.
    pub fn new() -> (r: ResourceStore)
        ensures
            r.wf(),
            r@ == Map::<int, PostView>::empty(),
            r.next_id_spec() == 1,
    {
        let r = ResourceStore { posts: Vec::new(), next_id: 1 };
        proof {
            assert(r@ =~= Map::<int, PostView>::empty());
        }
        r
    }

    /// Create a post owned by the authenticated caller: the store assigns
    /// the next identifier and captures `author` as the immutable creator.
    /// Success is owed until the identifier space runs out — the one failure,
    /// an internal one, which leaves the store unchanged.
    pub fn create_post(&mut self, title: &String, body: &String, author: &String) -> (r: Result<i64, ApiError>)
        requires
            old(self).wf(),
        ensures
            final(self).wf(),
            r is Ok <==> old(self).next_id_spec() < i64::MAX,
            r matches Ok(id) ==> id as int == old(self).next_id_spec()
                && final(self).next_id_spec() == old(self).next_id_spec() + 1
                && !old(self)@.contains_key(id as int)
                && final(self)@ == old(self)@.insert(
                    id as int,
                    PostView { title: title@, body: body@, author: author@ },
                ),
            r matches Err(e) ==> e == ApiError::InternalFailure && final(self)@ == old(self)@
                && final(self).next_id_spec() == old(self).next_id_spec(),
    {
        if self.next_id == i64::MAX {
            return Err(ApiError::InternalFailure);
        }
        let id = self.next_id;
        let record = Resource {
            id,
            title: title.clone(),
            body: body.clone(),
            author_email: author.clone(),
        };
        proof {
            if contains_id(self.posts@, id as int) {
                let k = choose|k: int| 0 <= k < self.posts@.len() && self.posts@[k].id == id;
                assert(self.posts@[k].id < self.next_id);
            }
            lemma_push_view(self.posts@, record);
            let s2 = self.posts@.push(record);
            assert forall|p: int, q: int| 0 <= p < q < s2.len() implies s2[p].id < s2[q].id by {
                if q < self.posts@.len() {
                    assert(self.posts@[p].id < self.posts@[q].id);
                } else {
                    assert(self.posts@[p].id < self.next_id);
                }
            }
        }
        self.posts.push(record);
        self.next_id = id + 1;
        Ok(id)
    }

    /// Look a post up by identifier. Reads are intentionally unauthenticated:
    /// no caller identity is taken. A missing identifier is `NotFound`.
    pub fn get_post(&self, id: i64) -> (r: Result<&Resource, ApiError>)
        requires
            self.wf(),
        ensures
            r matches Ok(p) ==> self@.contains_key(id as int) && p.id == id && p@ == self@[id as int],
            r matches Err(e) ==> e == ApiError::NotFound && !self@.contains_key(id as int),
    {
        let n = self.posts.len();
        let mut i: usize = 0;
        while i < n
            invariant
                self.wf(),
                n == self.posts@.len(),
                i <= n,
                forall|j: int| 0 <= j < i ==> self.posts@[j].id != id,
            decreases n - i,
        {
            if self.posts[i].id == id {
                proof {
                    lemma_post_found(self.posts@, i as int, id as int);
                }
                return Ok(&self.posts[i]);
            }
            i += 1;
        }
        proof {
            assert(!contains_id(self.posts@, id as int));
        }
        Err(ApiError::NotFound)
    }

    /// List every post, newest first — identifiers grow with creation, so the
    /// listing comes back in strictly falling identifier order. Like
    /// `get_post`, reads are unauthenticated. Each listed post is exactly the
    /// stored one, and every stored post is listed.
    pub fn get_all_posts(&self) -> (r: Vec<Resource>)
        requires
            self.wf(),
        ensures
            forall|k: int| 0 <= k < r@.len()
                ==> self@.contains_key(#[trigger] r@[k].id as int) && r@[k]@ == self@[r@[k].id as int],
            forall|id: int| #[trigger] self@.contains_key(id)
                ==> exists|k: int| 0 <= k < r@.len() && r@[k].id as int == id,
            forall|k: int, l: int| 0 <= k < l < r@.len() ==> r@[k].id > r@[l].id,
    {
        let n = self.posts.len();
        let mut out: Vec<Resource> = Vec::new();
        let mut i: usize = n;
        while i > 0
            invariant
                self.wf(),
                n == self.posts@.len(),
                i <= n,
                out@.len() == n - i,
                forall|k: int| 0 <= k < out@.len()
                    ==> #[trigger] out@[k].id == self.posts@[n - 1 - k].id
                        && out@[k]@ == self.posts@[n - 1 - k]@,
            decreases i,
        {
            i -= 1;
            let p = &self.posts[i];
            out.push(Resource {
                id: p.id,
                title: p.title.clone(),
                body: p.body.clone(),
                author_email: p.author_email.clone(),
            });
        }
        proof {
            assert forall|k: int| 0 <= k < out@.len()
                implies self@.contains_key(#[trigger] out@[k].id as int)
                    && out@[k]@ == self@[out@[k].id as int] by {
                lemma_post_found(self.posts@, n - 1 - k, out@[k].id as int);
            }
            assert forall|id: int| #[trigger] self@.contains_key(id)
                implies exists|k: int| 0 <= k < out@.len() && out@[k].id as int == id by {
                let m = choose|m: int| 0 <= m < self.posts@.len() && self.posts@[m].id == id;
                assert(out@[n - 1 - m].id as int == id);
            }
        }
        out
    }

    /// Update a post's title and body. The existence check precedes the
    /// ownership check, so a missing identifier is `NotFound` whoever asks;
    /// a caller other than the creator is turned away with
    /// `AuthorizationDenied` and nothing changes; the creator's update
    /// rewrites title and body and leaves the creator field untouched.
    pub fn update_post(&mut self, id: i64, title: &String, body: &String, caller: &String) -> (r: Result<(), ApiError>)
        requires
            old(self).wf(),
        ensures
            final(self).wf(),
            final(self).next_id_spec() == old(self).next_id_spec(),
            r == mutation_gate(old(self)@, id as int, caller@),
            r is Ok ==> final(self)@ == old(self)@.insert(
                id as int,
                PostView { title: title@, body: body@, author: old(self)@[id as int].author },
            ),
            r is Err ==> final(self)@ == old(self)@,
    {
        let n = self.posts.len();
        let mut i: usize = 0;
        while i < n
            invariant
                self.wf(),
                self == old(self),
                n == self.posts@.len(),
                i <= n,
                forall|j: int| 0 <= j < i ==> self.posts@[j].id != id,
            decreases n - i,
        {
            if self.posts[i].id == id {
                proof {
                    lemma_post_found(self.posts@, i as int, id as int);
                }
                if self.posts[i].author_email != *caller {
                    return Err(ApiError::AuthorizationDenied);
                }
                let ghost s = self.posts@;
                let mut record = self.posts.remove(i);
                record.title = title.clone();
                record.body = body.clone();
                proof {
                    s.remove_ensures(i as int);
                    assert(s.remove(i as int).insert(i as int, record) =~= s.update(i as int, record));
                    lemma_update_view(s, i as int, record);
                    let s2 = s.update(i as int, record);
                    assert forall|p: int, q: int| 0 <= p < q < s2.len() implies s2[p].id < s2[q].id by {
                        assert(s[p].id < s[q].id);
                    }
                }
                self.posts.insert(i, record);
                return Ok(());
            }
            i += 1;
        }
        proof {
            assert(!contains_id(self.posts@, id as int));
        }
        Err(ApiError::NotFound)
    }

    /// Delete a post. The same gate as `update_post`: existence first, then
    /// ownership; only the creator's attempt removes the record.
    pub fn delete_post(&mut self, id: i64, caller: &String) -> (r: Result<(), ApiError>)
        requires
            old(self).wf(),
        ensures
            final(self).wf(),
            final(self).next_id_spec() == old(self).next_id_spec(),
            r == mutation_gate(old(self)@, id as int, caller@),
            r is Ok ==> final(self)@ == old(self)@.remove(id as int),
            r is Err ==> final(self)@ == old(self)@,
    {
        let n = self.posts.len();
        let mut i: usize = 0;
        while i < n
            invariant
                self.wf(),
                self == old(self),
                n == self.posts@.len(),
                i <= n,
                forall|j: int| 0 <= j < i ==> self.posts@[j].id != id,
            decreases n - i,
        {
            if self.posts[i].id == id {
                proof {
                    lemma_post_found(self.posts@, i as int, id as int);
                }
                if self.posts[i].author_email != *caller {
                    return Err(ApiError::AuthorizationDenied);
                }
                proof {
                    lemma_remove_view(self.posts@, i as int);
                    self.posts@.remove_ensures(i as int);
                    let s = self.posts@;
                    let s2 = s.remove(i as int);
                    assert forall|p: int, q: int| 0 <= p < q < s2.len() implies s2[p].id < s2[q].id by {
                        let p0 = if p < i { p } else { p + 1 };
                        let q0 = if q < i { q } else { q + 1 };
                        assert(s2[p] == s[p0]);
                        assert(s2[q] == s[q0]);
                        assert(s[p0].id < s[q0].id);
                    }
                }
                self.posts.remove(i);
                return Ok(());
            }
            i += 1;
        }
        proof {
            assert(!contains_id(self.posts@, id as int));
        }
        Err(ApiError::NotFound)
    }
}

} // verus!

use vstd::prelude::*;

verus! {

/// One identity record: a unique email and the bcrypt digest of the
/// password. The digest is opaque; nothing here ever exposes a password.
#[derive(Debug, Clone)]
pub struct Credential {
    pub email: String,
    pub password_hash: String,
}

/// No two records carry the same email.
pub open spec fn emails_unique(s: Seq<Credential>) -> bool {
    forall|i: int, j: int| 0 <= i < j < s.len() ==> s[i].email@ != s[j].email@
}

/// Some record carries the email `e`.
pub open spec fn contains_email(s: Seq<Credential>, e: Seq<char>) -> bool {
    exists|i: int| 0 <= i < s.len() && s[i].email@ == e
}

/// The digest stored beside the email `e` (meaningful only when
/// `contains_email` holds and the emails are unique).
pub open spec fn hash_at(s: Seq<Credential>, e: Seq<char>) -> Seq<char> {
    let i = choose|i: int| 0 <= i < s.len() && s[i].email@ == e;
    s[i].password_hash@
}

/// The records as a map from email to stored digest.
pub open spec fn cred_map(s: Seq<Credential>) -> Map<Seq<char>, Seq<char>> {
    Map::new(|e: Seq<char>| contains_email(s, e), |e: Seq<char>| hash_at(s, e))
}

/// The credential store: identity records keyed by email, with email
/// uniqueness as its one rule. Emails are compared exactly as given —
/// case-sensitive, with no normalization — and emptiness is not policed
/// here; uniqueness is the store's only rule.
pub struct CredentialStore {
    users: Vec<Credential>,
}

impl View for CredentialStore {
    type V = Map<Seq<char>, Seq<char>>;

    closed spec fn view(&self) -> Map<Seq<char>, Seq<char>> {
        cred_map(self.users@)
    }
}

/// With unique emails, any record that carries `e` is the record the map
/// speaks of: membership holds and the stored digest is that record's.
proof fn lemma_record_found(s: Seq<Credential>, i: int, e: Seq<char>)
    requires
        emails_unique(s),
        0 <= i < s.len(),
        s[i].email@ == e,
    ensures
        contains_email(s, e),
        hash_at(s, e) == s[i].password_hash@,
{
    assert(contains_email(s, e));
    let j = choose|j: int| 0 <= j < s.len() && s[j].email@ == e;
    if i < j {
        assert(s[i].email@ != s[j].email@);
    } else if j < i {
        assert(s[j].email@ != s[i].email@);
    }
}

/// Appending a record with a fresh email keeps the emails unique and adds
/// exactly one map entry.
proof fn lemma_push_view(s: Seq<Credential>, c: Credential)
    requires
        emails_unique(s),
        !contains_email(s, c.email@),
    ensures
        emails_unique(s.push(c)),
        cred_map(s.push(c)) == cred_map(s).insert(c.email@, c.password_hash@),
{
    let s2 = s.push(c);
    assert forall|i: int, j: int| 0 <= i < j < s2.len() implies s2[i].email@ != s2[j].email@ by {
        if j < s.len() {
            assert(s[i].email@ != s[j].email@);
        } else {
            if s2[i].email@ == c.email@ {
                assert(s[i].email@ == c.email@);
                assert(contains_email(s, c.email@));
            }
        }
    }
    let m2 = cred_map(s2);
    let m1 = cred_map(s).insert(c.email@, c.password_hash@);
    assert forall|e: Seq<char>| m2.dom().contains(e) <==> m1.dom().contains(e) by {
        if contains_email(s2, e) {
            let i = choose|i: int| 0 <= i < s2.len() && s2[i].email@ == e;
            if i < s.len() {
                assert(s[i].email@ == e);
                assert(contains_email(s, e));
            }
        }
        if contains_email(s, e) {
            let i = choose|i: int| 0 <= i < s.len() && s[i].email@ == e;
            assert(s2[i].email@ == e);
            assert(contains_email(s2, e));
        }
        if e == c.email@ {
            assert(s2[s.len() as int].email@ == e);
            assert(contains_email(s2, e));
        }
    }
    assert forall|e: Seq<char>| m2.dom().contains(e) implies m2[e] == m1[e] by {
        if e == c.email@ {
            lemma_record_found(s2, s.len() as int, e);
        } else {
            assert(contains_email(s2, e));
            let i = choose|i: int| 0 <= i < s2.len() && s2[i].email@ == e;
            assert(i < s.len());
            assert(s[i].email@ == e);
            lemma_record_found(s2, i, e);
            lemma_record_found(s, i, e);
        }
    }
    assert(m2 =~= m1);
}

impl CredentialStore {
    /// Email uniqueness, the store's standing rule.
    pub closed spec fn wf(&self) -> bool {
        emails_unique(self.users@)
    }

    /// An empty store: no identities yet.
    pub fn new() -> (r: CredentialStore)
        ensures
            r.wf(),
            r@ == Map::<Seq<char>, Seq<char>>::empty(),
    {
        let r = CredentialStore { users: Vec::new() };
        proof {
            assert(r@ =~= Map::<Seq<char>, Seq<char>>::empty());
        }
        r
    }

    /// Look an identity up by email: the stored digest if the email is
    /// registered, and nothing otherwise.
    pub fn find_user_by_email(&self, email: &String) -> (r: Option<&String>)
        requires
            self.wf(),
        ensures
            r matches Some(h) ==> self@.contains_key(email@) && h@ == self@[email@],
            r is None ==> !self@.contains_key(email@),
    {
        let n = self.users.len();
        let mut i: usize = 0;
        while i < n
            invariant
                self.wf(),
                n == self.users.len(),
                i <= n,
                forall|j: int| 0 <= j < i ==> self.users@[j].email@ != email@,
            decreases n - i,
        {
            if self.users[i].email == *email {
                proof {
                    lemma_record_found(self.users@, i as int, email@);
                }
                return Some(&self.users[i].password_hash);
            }
            i += 1;
        }
        proof {
            assert(!contains_email(self.users@, email@));
        }
        None
    }

    /// Insert a fresh identity. Returns `true` and records it when the email
    /// is new; returns `false` and changes nothing when the email is already
    /// taken — the uniqueness violation the caller turns into a conflict.
    pub fn insert_user(&mut self, email: String, password_hash: String) -> (inserted: bool)
        requires
            old(self).wf(),
        ensures
            final(self).wf(),
            inserted == !old(self)@.contains_key(email@),
            inserted ==> final(self)@ == old(self)@.insert(email@, password_hash@),
            !inserted ==> final(self)@ == old(self)@,
    {
        let n = self.users.len();
        let mut i: usize = 0;
        while i < n
            invariant
                self.wf(),
                self == old(self),
                n == self.users.len(),
                i <= n,
                forall|j: int| 0 <= j < i ==> self.users@[j].email@ != email@,
            decreases n - i,
        {
            if self.users[i].email == email {
                proof {
                    lemma_record_found(self.users@, i as int, email@);
                }
                return false;
            }
            i += 1;
        }
        proof {
            assert(!contains_email(self.users@, email@));
        }
        let ghost s = self.users@;
        let record = Credential { email, password_hash };
        proof {
            lemma_push_view(s, record);
        }
        self.users.push(record);
        true
    }
}

} // verus!

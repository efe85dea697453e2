//! The cookie store: the set of cookies scoped to the provider's web domain.
//!
//! The store is a name-to-value mapping kept in insertion order with
//! last-write-wins overwrites. It is fed from `Set-Cookie` response headers
//! and from the fixed client-identity cookies, and is read back only to
//! compute the outgoing `Cookie:` header value and to extract the session
//! identifier right after login.

use crate::raw::cookie_parse_of;
use crate::raw::parse_cookie_pair;
use vstd::prelude::*;

verus! {

/// One (name, value) pair as the store models it.
pub type CookiePair = (Seq<char>, Seq<char>);

/// Inserting a pair: replaces the value at the first entry with that name,
/// or appends a new entry.
pub open spec fn spec_insert(s: Seq<CookiePair>, name: Seq<char>, value: Seq<char>) -> Seq<
    CookiePair,
>
    decreases s.len(),
{
    if s.len() == 0 {
        seq![(name, value)]
    } else if s[0].0 == name {
        seq![(name, value)] + s.drop_first()
    } else {
        seq![s[0]] + spec_insert(s.drop_first(), name, value)
    }
}

/// The value at the first entry with the given name, if any.
pub open spec fn spec_get(s: Seq<CookiePair>, name: Seq<char>) -> Option<Seq<char>>
    decreases s.len(),
{
    if s.len() == 0 {
        None
    } else if s[0].0 == name {
        Some(s[0].1)
    } else {
        spec_get(s.drop_first(), name)
    }
}

/// The text of one pair within a `Cookie:` header value.
pub open spec fn pair_text(p: CookiePair) -> Seq<char> {
    p.0 + seq!['='] + p.1
}

/// The `Cookie:` header value of a store: the pairs in order, joined by `; `.
pub open spec fn spec_header(s: Seq<CookiePair>) -> Seq<char>
    decreases s.len(),
{
    if s.len() == 0 {
        Seq::<char>::empty()
    } else if s.len() == 1 {
        pair_text(s[0])
    } else {
        spec_header(s.drop_last()) + seq![';', ' '] + pair_text(s.last())
    }
}

/// The store after merging a sequence of `Set-Cookie` header values:
/// each value that parses is inserted, malformed ones are skipped.
pub open spec fn spec_merge(s: Seq<CookiePair>, headers: Seq<Seq<char>>) -> Seq<CookiePair>
    decreases headers.len(),
{
    if headers.len() == 0 {
        s
    } else {
        let next = match cookie_parse_of(headers[0]) {
            Some(p) => spec_insert(s, p.0, p.1),
            None => s,
        };
        spec_merge(next, headers.drop_first())
    }
}

/// The store after the fixed client-identity cookies (and, when a session
/// exists, the session-identifier cookie) are forced in.
pub open spec fn spec_apply_identity(s: Seq<CookiePair>, session_id: Option<Seq<char>>) -> Seq<
    CookiePair,
> {
    let s1 = spec_insert(s, "mobileClientVersion"@, "0 (2.1.3)"@);
    let s2 = spec_insert(s1, "mobileClient"@, "android"@);
    let s3 = spec_insert(s2, "Steam_Language"@, "english"@);
    match session_id {
        Some(sid) => spec_insert(s3, "sessionid"@, sid),
        None => s3,
    }
}

/// The cookie store scoped to the provider's web domain.
pub struct CookieStore {
    entries: Vec<(String, String)>,
}

impl View for CookieStore {
    type V = Seq<CookiePair>;

    closed spec fn view(&self) -> Seq<CookiePair> {
        self.entries@.map_values(|p: (String, String)| (p.0@, p.1@))
    }
}

impl CookieStore {
    /// An empty store.
    pub fn new() -> (r: CookieStore)
        ensures
            r@ == Seq::<CookiePair>::empty(),
    {
        let r = CookieStore { entries: Vec::new() };
        proof {
            assert(r@ =~= Seq::<CookiePair>::empty());
        }
        r
    }

    /// Stores a cookie, overwriting the value of an existing entry with the
    /// same name (last write wins).
    pub fn insert(&mut self, name: String, value: String)
        ensures
            final(self)@ == spec_insert(old(self)@, name@, value@),
    {
        let ghost s = self@;
        let mut i: usize = 0;
        let n = self.entries.len();
        while i < n
            invariant
                0 <= i <= n,
                n == self.entries.len(),
                self@ == s,
                s == old(self)@,
                forall|j: int| 0 <= j < i ==> s[j].0 != name@,
            decreases n - i,
        {
            proof {
                assert(s[i as int] == (self.entries@[i as int].0@, self.entries@[i as int].1@));
            }
            if self.entries[i].0 == name {
                self.entries[i] = (name, value);
                proof {
                    assert(self@ =~= s.update(i as int, (name@, value@)));
                    lemma_insert_at_first(s, name@, value@, i as int);
                }
                return ;
            }
            i = i + 1;
        }
        self.entries.push((name, value));
        proof {
            assert(self@ =~= s.push((name@, value@)));
            lemma_insert_append(s, name@, value@);
        }
    }

    /// The value stored under a name, if any.
    pub fn get(&self, name: &str) -> (r: Option<String>)
        ensures
            match r {
                Some(v) => spec_get(self@, name@) == Some(v@),
                None => spec_get(self@, name@) is None,
            },
    {
        let ghost s = self@;
        let name_owned = name.to_owned();
        let mut i: usize = 0;
        let n = self.entries.len();
        while i < n
            invariant
                0 <= i <= n,
                n == self.entries.len(),
                self@ == s,
                name_owned@ == name@,
                forall|j: int| 0 <= j < i ==> s[j].0 != name@,
            decreases n - i,
        {
            proof {
                assert(s[i as int] == (self.entries@[i as int].0@, self.entries@[i as int].1@));
            }
            if self.entries[i].0 == name_owned {
                proof {
                    lemma_get_at_first(s, name@, i as int);
                }
                return Some(self.entries[i].1.clone());
            }
            i = i + 1;
        }
        proof {
            lemma_get_absent(s, name@);
        }
        None
    }

    /// Serializes the store to a single `Cookie:` header value.
    pub fn header_value(&self) -> (r: String)
        ensures
            r@ == spec_header(self@),
    {
        let ghost s = self@;
        let mut r = String::new();
        let mut i: usize = 0;
        let n = self.entries.len();
        proof {
            reveal_strlit("; ");
            reveal_strlit("=");
        }
        while i < n
            invariant
                0 <= i <= n,
                n == self.entries.len(),
                self@ == s,
                r@ == spec_header(s.subrange(0, i as int)),
                "; "@ == seq![';', ' '],
                "="@ == seq!['='],
            decreases n - i,
        {
            if i > 0 {
                r.append("; ");
            }
            r.append(self.entries[i].0.as_str());
            r.append("=");
            r.append(self.entries[i].1.as_str());
            proof {
                let p = s.subrange(0, i as int + 1);
                assert(p.drop_last() =~= s.subrange(0, i as int));
                assert(p.last() == s[i as int]);
                if i == 0 {
                    assert(r@ =~= pair_text(s[0]));
                } else {
                    assert(r@ =~= spec_header(p.drop_last()) + seq![';', ' '] + pair_text(
                        p.last(),
                    ));
                }
            }
            i = i + 1;
        }
        proof {
            assert(s.subrange(0, n as int) =~= s);
        }
        r
    }

    /// Merges every `Set-Cookie` header value of a response into the store;
    /// a value the cookie grammar rejects is skipped, never fatal.
    pub fn merge_set_cookie(&mut self, headers: &Vec<String>)
        ensures
            final(self)@ == spec_merge(old(self)@, headers.deep_view()),
    {
        let ghost hv = headers.deep_view();
        let mut i: usize = 0;
        let n = headers.len();
        proof {
            assert(hv.len() == n);
            assert(hv.subrange(0, n as int) =~= hv);
        }
        while i < n
            invariant
                0 <= i <= n,
                n == headers.len(),
                hv == headers.deep_view(),
                hv.len() == n,
                spec_merge(old(self)@, hv) == spec_merge(self@, hv.subrange(i as int, n as int)),
            decreases n - i,
        {
            let ghost pre = self@;
            let ghost rest = hv.subrange(i as int, n as int);
            proof {
                assert(rest[0] == hv[i as int]);
                assert(hv[i as int] == headers@[i as int]@);
                assert(rest.drop_first() =~= hv.subrange(i as int + 1, n as int));
            }
            match parse_cookie_pair(headers[i].as_str()) {
                Some(pair) => {
                    self.insert(pair.0, pair.1);
                },
                None => {},
            }
            proof {
                assert(spec_merge(pre, rest) == spec_merge(self@, rest.drop_first()));
            }
            i = i + 1;
        }
        proof {
            assert(hv.subrange(n as int, n as int) =~= Seq::<Seq<char>>::empty());
        }
    }

    /// Forces the three fixed client-identity cookies and, when a session
    /// exists, the session-identifier cookie into the store.
    pub fn apply_identity(&mut self, session_id: Option<&String>)
        ensures
            final(self)@ == spec_apply_identity(
                old(self)@,
                match session_id {
                    Some(sid) => Some(sid@),
                    None => None,
                },
            ),
    {
        self.insert("mobileClientVersion".to_owned(), "0 (2.1.3)".to_owned());
        self.insert("mobileClient".to_owned(), "android".to_owned());
        self.insert("Steam_Language".to_owned(), "english".to_owned());
        match session_id {
            Some(sid) => {
                self.insert("sessionid".to_owned(), sid.clone());
            },
            None => {},
        }
    }
}

/// Inserting replaces the first entry carrying the name.
proof fn lemma_insert_at_first(s: Seq<CookiePair>, name: Seq<char>, value: Seq<char>, i: int)
    requires
        0 <= i < s.len(),
        s[i].0 == name,
        forall|j: int| 0 <= j < i ==> s[j].0 != name,
    ensures
        spec_insert(s, name, value) == s.update(i, (name, value)),
    decreases i,
{
    if i == 0 {
        assert(seq![(name, value)] + s.drop_first() =~= s.update(0, (name, value)));
    } else {
        let d = s.drop_first();
        assert(d[i - 1].0 == name);
        assert(forall|j: int| 0 <= j < i - 1 ==> d[j].0 != name);
        lemma_insert_at_first(d, name, value, i - 1);
        assert(seq![s[0]] + d.update(i - 1, (name, value)) =~= s.update(i, (name, value)));
    }
}

/// Inserting a fresh name appends the pair.
proof fn lemma_insert_append(s: Seq<CookiePair>, name: Seq<char>, value: Seq<char>)
    requires
        forall|j: int| 0 <= j < s.len() ==> s[j].0 != name,
    ensures
        spec_insert(s, name, value) == s.push((name, value)),
    decreases s.len(),
{
    if s.len() == 0 {
        assert(seq![(name, value)] =~= s.push((name, value)));
    } else {
        let d = s.drop_first();
        lemma_insert_append(d, name, value);
        assert(seq![s[0]] + d.push((name, value)) =~= s.push((name, value)));
    }
}

/// The lookup finds the first entry carrying the name.
proof fn lemma_get_at_first(s: Seq<CookiePair>, name: Seq<char>, i: int)
    requires
        0 <= i < s.len(),
        s[i].0 == name,
        forall|j: int| 0 <= j < i ==> s[j].0 != name,
    ensures
        spec_get(s, name) == Some(s[i].1),
    decreases i,
{
    if i > 0 {
        let d = s.drop_first();
        assert(d[i - 1].0 == name);
        assert(forall|j: int| 0 <= j < i - 1 ==> d[j].0 != name);
        lemma_get_at_first(d, name, i - 1);
    }
}

/// The lookup of an absent name yields nothing.
proof fn lemma_get_absent(s: Seq<CookiePair>, name: Seq<char>)
    requires
        forall|j: int| 0 <= j < s.len() ==> s[j].0 != name,
    ensures
        spec_get(s, name) is None,
    decreases s.len(),
{
    if s.len() > 0 {
        lemma_get_absent(s.drop_first(), name);
    }
}

/// After an insert, the inserted name maps to the inserted value.
pub proof fn lemma_insert_get_same(s: Seq<CookiePair>, name: Seq<char>, value: Seq<char>)
    ensures
        spec_get(spec_insert(s, name, value), name) == Some(value),
    decreases s.len(),
{
    if s.len() == 0 {
    } else if s[0].0 == name {
        assert((seq![(name, value)] + s.drop_first())[0] == (name, value));
    } else {
        lemma_insert_get_same(s.drop_first(), name, value);
        let t = seq![s[0]] + spec_insert(s.drop_first(), name, value);
        assert(t.drop_first() =~= spec_insert(s.drop_first(), name, value));
    }
}

/// An insert leaves the value of every other name unchanged.
pub proof fn lemma_insert_get_other(
    s: Seq<CookiePair>,
    name: Seq<char>,
    value: Seq<char>,
    other: Seq<char>,
)
    requires
        other != name,
    ensures
        spec_get(spec_insert(s, name, value), other) == spec_get(s, other),
    decreases s.len(),
{
    if s.len() == 0 {
        let t = seq![(name, value)];
        assert(spec_insert(s, name, value) == t);
        assert(t[0].0 == name);
        assert(t.drop_first() =~= Seq::<CookiePair>::empty());
        assert(spec_get(t, other) == spec_get(t.drop_first(), other));
    } else if s[0].0 == name {
        let t = seq![(name, value)] + s.drop_first();
        assert(spec_insert(s, name, value) == t);
        assert(t[0].0 == name);
        assert(t.drop_first() =~= s.drop_first());
        assert(spec_get(t, other) == spec_get(s.drop_first(), other));
        assert(spec_get(s, other) == spec_get(s.drop_first(), other));
    } else {
        lemma_insert_get_other(s.drop_first(), name, value, other);
        let t = seq![s[0]] + spec_insert(s.drop_first(), name, value);
        assert(spec_insert(s, name, value) == t);
        assert(t[0] == s[0]);
        assert(t.len() > 0);
        assert(t.drop_first() =~= spec_insert(s.drop_first(), name, value));
        if s[0].0 == other {
            assert(spec_get(t, other) == Some(t[0].1));
            assert(spec_get(s, other) == Some(s[0].1));
        } else {
            assert(spec_get(t, other) == spec_get(t.drop_first(), other));
            assert(spec_get(s, other) == spec_get(s.drop_first(), other));
        }
    }
}

/// Re-inserting the value a name already carries leaves the store unchanged.
pub proof fn lemma_insert_noop(s: Seq<CookiePair>, name: Seq<char>, value: Seq<char>)
    requires
        spec_get(s, name) == Some(value),
    ensures
        spec_insert(s, name, value) == s,
    decreases s.len(),
{
    if s[0].0 == name {
        assert(s[0] == (s[0].0, s[0].1));
        assert(seq![(name, value)] + s.drop_first() =~= s);
    } else {
        lemma_insert_noop(s.drop_first(), name, value);
        assert(seq![s[0]] + s.drop_first() =~= s);
    }
}

/// The cookie store never diverges from the session: once the identity
/// cookies are forced with a session present, the store's session cookie is
/// exactly the session's identifier.
pub proof fn lemma_apply_identity_asserts_session(s: Seq<CookiePair>, session_id: Seq<char>)
    ensures
        spec_get(spec_apply_identity(s, Some(session_id)), "sessionid"@) == Some(session_id),
{
    let s3 = spec_insert(
        spec_insert(
            spec_insert(s, "mobileClientVersion"@, "0 (2.1.3)"@),
            "mobileClient"@,
            "android"@,
        ),
        "Steam_Language"@,
        "english"@,
    );
    lemma_insert_get_same(s3, "sessionid"@, session_id);
}

/// Forcing the identity cookies twice in a row yields the same store, and
/// therefore the same `Cookie:` header value, as forcing them once.
pub proof fn lemma_apply_identity_idempotent(s: Seq<CookiePair>, session_id: Option<Seq<char>>)
    ensures
        spec_apply_identity(spec_apply_identity(s, session_id), session_id)
            == spec_apply_identity(s, session_id),
        spec_header(spec_apply_identity(spec_apply_identity(s, session_id), session_id))
            == spec_header(spec_apply_identity(s, session_id)),
{
    let n1 = "mobileClientVersion"@;
    let v1 = "0 (2.1.3)"@;
    let n2 = "mobileClient"@;
    let v2 = "android"@;
    let n3 = "Steam_Language"@;
    let v3 = "english"@;
    let n4 = "sessionid"@;
    reveal_strlit("mobileClientVersion");
    reveal_strlit("mobileClient");
    reveal_strlit("Steam_Language");
    reveal_strlit("sessionid");
    assert(n1.len() == 19 && n2.len() == 12 && n3.len() == 14 && n4.len() == 9);
    let s1 = spec_insert(s, n1, v1);
    let s2 = spec_insert(s1, n2, v2);
    let s3 = spec_insert(s2, n3, v3);
    lemma_insert_get_same(s, n1, v1);
    lemma_insert_get_other(s1, n2, v2, n1);
    lemma_insert_get_other(s2, n3, v3, n1);
    lemma_insert_get_same(s1, n2, v2);
    lemma_insert_get_other(s2, n3, v3, n2);
    lemma_insert_get_same(s2, n3, v3);
    match session_id {
        Some(sid) => {
            let s4 = spec_insert(s3, n4, sid);
            lemma_insert_get_other(s3, n4, sid, n1);
            lemma_insert_get_other(s3, n4, sid, n2);
            lemma_insert_get_other(s3, n4, sid, n3);
            lemma_insert_get_same(s3, n4, sid);
            lemma_insert_noop(s4, n1, v1);
            lemma_insert_noop(s4, n2, v2);
            lemma_insert_noop(s4, n3, v3);
            lemma_insert_noop(s4, n4, sid);
        },
        None => {
            lemma_insert_noop(s3, n1, v1);
            lemma_insert_noop(s3, n2, v2);
            lemma_insert_noop(s3, n3, v3);
        },
    }
}

} // verus!

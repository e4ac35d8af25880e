use vstd::prelude::*;
use vstd::string::StringExecFns;

verus! {

/// A cookie as an authorization chain hands it over.
#[derive(Clone, Debug)]
pub struct Cookie {
    pub name: String,
    pub value: String,
    /// The path the cookie applies to; `/` when absent.
    pub path: Option<String>,
}

/// A cookie held by a jar, with the host and path it is scoped to.
#[derive(Clone, Debug)]
pub struct StoredCookie {
    pub host: String,
    pub path: String,
    pub name: String,
    pub value: String,
}

/// What identifies a stored cookie: host, path and name.
pub type CookieKey = (Seq<char>, Seq<char>, Seq<char>);

pub open spec fn key_of(c: StoredCookie) -> CookieKey {
    (c.host@, c.path@, c.name@)
}

/// The contents of a list of stored cookies, a later entry winning over an earlier one.
pub open spec fn map_of(s: Seq<StoredCookie>) -> Map<CookieKey, Seq<char>>
    decreases s.len(),
{
    if s.len() == 0 {
        Map::empty()
    } else {
        map_of(s.drop_last()).insert(key_of(s.last()), s.last().value@)
    }
}

pub open spec fn keys_unique(s: Seq<StoredCookie>) -> bool {
    forall|i: int, j: int|
        0 <= i < s.len() && 0 <= j < s.len() && i != j ==> key_of(#[trigger] s[i]) != key_of(
            #[trigger] s[j],
        )
}

/// The path a cookie is stored under.
pub open spec fn path_of(c: Cookie) -> Seq<char> {
    match c.path {
        Some(p) => p@,
        None => seq!['/'],
    }
}

/// The key a cookie takes when it is installed for `host`.
pub open spec fn key_for(host: Seq<char>, c: Cookie) -> CookieKey {
    (host, path_of(c), c.name@)
}

/// The jar's contents after installing `cs`, in order, for `host`.
pub open spec fn installed(
    m: Map<CookieKey, Seq<char>>,
    host: Seq<char>,
    cs: Seq<Cookie>,
) -> Map<CookieKey, Seq<char>>
    decreases cs.len(),
{
    if cs.len() == 0 {
        m
    } else {
        installed(m, host, cs.drop_last()).insert(key_for(host, cs.last()), cs.last().value@)
    }
}

/// Installing cookies for `host` touches no entry of another host, and every
/// entry it adds belongs to `host`.
pub proof fn install_scoped_to_host(
    m: Map<CookieKey, Seq<char>>,
    host: Seq<char>,
    cs: Seq<Cookie>,
    k: CookieKey,
)
    ensures
        k.0 != host ==> (installed(m, host, cs).contains_key(k) == m.contains_key(k)),
        k.0 != host && m.contains_key(k) ==> installed(m, host, cs)[k] == m[k],
        installed(m, host, cs).contains_key(k) && !m.contains_key(k) ==> k.0 == host,
    decreases cs.len(),
{
    if cs.len() > 0 {
        install_scoped_to_host(m, host, cs.drop_last(), k);
    }
}

proof fn lemma_map_of_key_absent(s: Seq<StoredCookie>, k: CookieKey)
    requires
        forall|i: int| 0 <= i < s.len() ==> key_of(#[trigger] s[i]) != k,
    ensures
        !map_of(s).contains_key(k),
    decreases s.len(),
{
    if s.len() > 0 {
        lemma_map_of_key_absent(s.drop_last(), k);
    }
}

proof fn lemma_map_of_update(s: Seq<StoredCookie>, i: int, e: StoredCookie)
    requires
        keys_unique(s),
        0 <= i < s.len(),
        key_of(e) == key_of(s[i]),
    ensures
        map_of(s.update(i, e)) == map_of(s).insert(key_of(e), e.value@),
    decreases s.len(),
{
    let t = s.update(i, e);
    if i == s.len() - 1 {
        assert(t.drop_last() =~= s.drop_last());
        assert(map_of(s.drop_last()).insert(key_of(s.last()), s.last().value@).insert(
            key_of(e),
            e.value@,
        ) =~= map_of(s.drop_last()).insert(key_of(e), e.value@));
    } else {
        assert(t.drop_last() =~= s.drop_last().update(i, e));
        lemma_map_of_update(s.drop_last(), i, e);
        assert(key_of(s.last()) != key_of(e));
        assert(map_of(t) =~= map_of(s).insert(key_of(e), e.value@));
    }
}

proof fn lemma_keys_unique_push(s: Seq<StoredCookie>, e: StoredCookie)
    requires
        keys_unique(s),
        forall|i: int| 0 <= i < s.len() ==> key_of(#[trigger] s[i]) != key_of(e),
    ensures
        keys_unique(s.push(e)),
{
    let t = s.push(e);
    assert forall|i: int, j: int|
        0 <= i < t.len() && 0 <= j < t.len() && i != j implies key_of(#[trigger] t[i]) != key_of(
            #[trigger] t[j],
        ) by {
        if i < s.len() && j < s.len() {
            assert(t[i] == s[i] && t[j] == s[j]);
        } else if i < s.len() {
            assert(t[i] == s[i]);
        } else {
            assert(t[j] == s[j]);
        }
    }
}

/// A per-job store of session cookies, keyed by host, path and name.
pub struct CookieJar {
    entries: Vec<StoredCookie>,
}

impl View for CookieJar {
    type V = Map<CookieKey, Seq<char>>;

    closed spec fn view(&self) -> Map<CookieKey, Seq<char>> {
        map_of(self.entries@)
    }
}

impl CookieJar {
    /// No two stored cookies share host, path and name.
    pub closed spec fn wf(&self) -> bool {
        keys_unique(self.entries@)
    }

    pub fn new() -> (r: Self)
        ensures
            r.wf(),
            r@ == Map::<CookieKey, Seq<char>>::empty(),
    {
        CookieJar { entries: Vec::new() }
    }

    /// Stores `value` under (host, path, name), replacing what was there.
    pub fn put(&mut self, host: String, path: String, name: String, value: String)
        requires
            old(self).wf(),
        ensures
            final(self).wf(),
            final(self)@ == old(self)@.insert((host@, path@, name@), value@),
    {
        let e = StoredCookie { host, path, name, value };
        let n = self.entries.len();
        let mut i: usize = 0;
        while i < n
            invariant
                n == self.entries@.len(),
                0 <= i <= n,
                self.entries@ == old(self).entries@,
                keys_unique(self.entries@),
                key_of(e) == (host@, path@, name@),
                e.value@ == value@,
                forall|j: int| 0 <= j < i ==> key_of(#[trigger] self.entries@[j]) != key_of(e),
            decreases n - i,
        {
            let same = self.entries[i].host == e.host && self.entries[i].path == e.path
                && self.entries[i].name == e.name;
            if same {
                proof {
                    assert(key_of(self.entries@[i as int]) == key_of(e));
                    lemma_map_of_update(self.entries@, i as int, e);
                    let t = self.entries@.update(i as int, e);
                    assert forall|a: int, b: int|
                        0 <= a < t.len() && 0 <= b < t.len() && a != b implies key_of(
                            #[trigger] t[a],
                        ) != key_of(#[trigger] t[b]) by {
                        if a != i && b != i {
                            assert(t[a] == self.entries@[a] && t[b] == self.entries@[b]);
                        } else if a == i {
                            assert(t[b] == self.entries@[b]);
                        } else {
                            assert(t[a] == self.entries@[a]);
                        }
                    }
                }
                self.entries.set(i, e);
                return ;
            }
            i = i + 1;
        }
        proof {
            lemma_keys_unique_push(self.entries@, e);
            assert(self.entries@.push(e).drop_last() =~= self.entries@);
        }
        self.entries.push(e);
    }

    /// Installs each cookie of `cookies`, in order, for `host`; a cookie
    /// without a path is stored under `/`. Other entries are left as they were.
    pub fn install(&mut self, host: &str, cookies: Vec<Cookie>)
        requires
            old(self).wf(),
        ensures
            final(self).wf(),
            final(self)@ == installed(old(self)@, host@, cookies@),
    {
        let n = cookies.len();
        let mut i: usize = 0;
        while i < n
            invariant
                n == cookies@.len(),
                0 <= i <= n,
                self.wf(),
                self@ == installed(old(self)@, host@, cookies@.take(i as int)),
            decreases n - i,
        {
            let c = &cookies[i];
            let path = match &c.path {
                Some(p) => p.clone(),
                None => String::from_str("/"),
            };
            proof {
                reveal_strlit("/");
                assert(path@ == path_of(cookies@[i as int]));
                assert(cookies@.take(i + 1).drop_last() =~= cookies@.take(i as int));
            }
            self.put(host.to_owned(), path, c.name.clone(), c.value.clone());
            i = i + 1;
        }
        proof {
            assert(cookies@.take(n as int) =~= cookies@);
        }
    }

    /// The value stored under (host, path, name), if any.
    pub fn get(&self, host: &str, path: &str, name: &str) -> (r: Option<String>)
        requires
            self.wf(),
        ensures
            match r {
                Some(v) => self@.contains_key((host@, path@, name@)) && self@[(host@, path@, name@)]
                    == v@,
                None => !self@.contains_key((host@, path@, name@)),
            },
    {
        let hs = host.to_owned();
        let ps = path.to_owned();
        let ns = name.to_owned();
        let n = self.entries.len();
        let mut i: usize = 0;
        while i < n
            invariant
                n == self.entries@.len(),
                0 <= i <= n,
                keys_unique(self.entries@),
                forall|j: int|
                    0 <= j < i ==> key_of(#[trigger] self.entries@[j]) != (hs@, ps@, ns@),
                hs@ == host@ && ps@ == path@ && ns@ == name@,
            decreases n - i,
        {
            let e = &self.entries[i];
            if e.host == hs && e.path == ps && e.name == ns {
                proof {
                    lemma_map_of_value(self.entries@, i as int);
                }
                let v = e.value.clone();
                return Some(v);
            }
            i = i + 1;
        }
        proof {
            lemma_map_of_key_absent(self.entries@, (hs@, ps@, ns@));
        }
        None
    }

    /// The number of stored cookies.
    pub fn len(&self) -> (r: usize)
        requires
            self.wf(),
        ensures
            r == self@.len(),
    {
        proof {
            lemma_map_of_len(self.entries@);
        }
        self.entries.len()
    }
}

proof fn lemma_map_of_value(s: Seq<StoredCookie>, i: int)
    requires
        keys_unique(s),
        0 <= i < s.len(),
    ensures
        map_of(s).contains_key(key_of(s[i])),
        map_of(s)[key_of(s[i])] == s[i].value@,
    decreases s.len(),
{
    if i < s.len() - 1 {
        assert(keys_unique(s.drop_last()));
        lemma_map_of_value(s.drop_last(), i);
        assert(key_of(s.last()) != key_of(s[i]));
    }
}

proof fn lemma_map_of_len(s: Seq<StoredCookie>)
    requires
        keys_unique(s),
    ensures
        map_of(s).len() == s.len(),
        map_of(s).dom().finite(),
    decreases s.len(),
{
    if s.len() > 0 {
        let p = s.drop_last();
        assert(keys_unique(p));
        lemma_map_of_len(p);
        assert forall|i: int| 0 <= i < p.len() implies key_of(#[trigger] p[i]) != key_of(
            s.last(),
        ) by {
            assert(p[i] == s[i]);
        }
        lemma_map_of_key_absent(p, key_of(s.last()));
    }
}

} // verus!

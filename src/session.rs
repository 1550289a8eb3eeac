//! The registry of authorization attempts that wait for their callback.
use vstd::prelude::*;

verus! {

/// One authorization attempt, keyed by its anti-forgery `state`.
#[derive(Debug)]
pub struct AuthState {
    pub code_verifier: String,
    pub state: String,
    pub client_id: String,
    pub port: u16,
}

/// Whether some session in `s` has the key `key`.
pub open spec fn has_key(s: Seq<AuthState>, key: Seq<char>) -> bool {
    exists|i: int| 0 <= i < s.len() && s[i].state@ == key
}

/// No two sessions share a key.
pub open spec fn keys_unique(s: Seq<AuthState>) -> bool {
    forall|i: int, j: int|
        0 <= i < s.len() && 0 <= j < s.len() && i != j ==> s[i].state@ != s[j].state@
}

pub open spec fn index_of(s: Seq<AuthState>, key: Seq<char>) -> int {
    choose|i: int| 0 <= i < s.len() && s[i].state@ == key
}

/// The session stored under `key`, if any.
pub open spec fn lookup(s: Seq<AuthState>, key: Seq<char>) -> Option<AuthState> {
    if has_key(s, key) {
        Some(s[index_of(s, key)])
    } else {
        None
    }
}

/// The sessions once the one under `key` is removed.
pub open spec fn without(s: Seq<AuthState>, key: Seq<char>) -> Seq<AuthState> {
    if has_key(s, key) {
        s.remove(index_of(s, key))
    } else {
        s
    }
}

/// The sessions once `a` is stored, replacing one with the same key.
pub open spec fn with_session(s: Seq<AuthState>, a: AuthState) -> Seq<AuthState> {
    if has_key(s, a.state@) {
        s.update(index_of(s, a.state@), a)
    } else {
        s.push(a)
    }
}

proof fn lemma_index_unique(s: Seq<AuthState>, key: Seq<char>, i: int)
    requires
        keys_unique(s),
        0 <= i < s.len(),
        s[i].state@ == key,
    ensures
        has_key(s, key),
        index_of(s, key) == i,
{
}

/// Sessions in flight, at most one per key.
pub struct SessionRegistry {
    sessions: Vec<AuthState>,
}

impl View for SessionRegistry {
    type V = Seq<AuthState>;

    /// The stored sessions, in the order they were stored.
    closed spec fn view(&self) -> Seq<AuthState> {
        self.sessions@
    }
}

impl SessionRegistry {
    pub open spec fn wf(&self) -> bool {
        keys_unique(self@)
    }

    /// How many sessions are stored.
    pub fn len(&self) -> (r: usize)
        ensures
            r == self@.len(),
    {
        self.sessions.len()
    }

    /// The `i`-th stored session.
    pub fn get(&self, i: usize) -> (r: &AuthState)
        requires
            i < self@.len(),
        ensures
            *r == self@[i as int],
    {
        &self.sessions[i]
    }

    pub fn new() -> (r: SessionRegistry)
        ensures
            r.wf(),
            r@.len() == 0,
    {
        SessionRegistry { sessions: Vec::new() }
    }

    fn position(&self, key: &String) -> (r: Option<usize>)
        requires
            self.wf(),
        ensures
            r is None <==> !has_key(self@, key@),
            r is Some ==> r.unwrap() < self@.len() && r.unwrap() as int == index_of(self@, key@),
    {
        let mut i: usize = 0;
        while i < self.sessions.len()
            invariant
                i <= self.sessions@.len(),
                self.wf(),
                forall|j: int| 0 <= j < i ==> self.sessions@[j].state@ != key@,
            decreases self.sessions@.len() - i,
        {
            if self.sessions[i].state == *key {
                proof {
                    lemma_index_unique(self.sessions@, key@, i as int);
                }
                return Some(i);
            }
            i = i + 1;
        }
        None
    }

    /// Whether a session is stored under `key`.
    pub fn contains_key(&self, key: &String) -> (r: bool)
        requires
            self.wf(),
        ensures
            r == has_key(self@, key@),
    {
        self.position(key).is_some()
    }

    /// Stores a session under its key, replacing any session with that key.
    pub fn insert(&mut self, session: AuthState)
        requires
            old(self).wf(),
        ensures
            final(self).wf(),
            final(self)@ == with_session(old(self)@, session),
    {
        let ghost s = self.sessions@;
        let ghost a = session;
        match self.position(&session.state) {
            Some(i) => self.sessions.set(i, session),
            None => self.sessions.push(session),
        }
        proof {
            lemma_with_session_found(s, a);
        }
    }

    /// Removes and returns the session stored under `key`, if any.
    pub fn take(&mut self, key: &String) -> (r: Option<AuthState>)
        requires
            old(self).wf(),
        ensures
            final(self).wf(),
            r == lookup(old(self)@, key@),
            final(self)@ == without(old(self)@, key@),
    {
        match self.position(key) {
            Some(i) => {
                let ghost s = self.sessions@;
                let a = self.sessions.remove(i);
                assert forall|x: int, y: int|
                    0 <= x < self.sessions@.len() && 0 <= y < self.sessions@.len() && x != y
                        implies self.sessions@[x].state@ != self.sessions@[y].state@ by {
                    let xo = if x < i { x } else { x + 1 };
                    let yo = if y < i { y } else { y + 1 };
                    assert(self.sessions@[x] == s[xo]);
                    assert(self.sessions@[y] == s[yo]);
                }
                Some(a)
            },
            None => None,
        }
    }
}

proof fn lemma_without_drops_key(s: Seq<AuthState>, key: Seq<char>)
    requires
        keys_unique(s),
    ensures
        !has_key(without(s, key), key),
{
    if has_key(s, key) {
        let i = index_of(s, key);
        let t = s.remove(i);
        if has_key(t, key) {
            let j = choose|j: int| 0 <= j < t.len() && t[j].state@ == key;
            let jo = if j < i { j } else { j + 1 };
            assert(t[j] == s[jo]);
        }
    }
}

proof fn lemma_with_session_found(s: Seq<AuthState>, a: AuthState)
    requires
        keys_unique(s),
    ensures
        keys_unique(with_session(s, a)),
        lookup(with_session(s, a), a.state@) == Some(a),
{
    let t = with_session(s, a);
    if has_key(s, a.state@) {
        let i = index_of(s, a.state@);
        assert forall|x: int, y: int| 0 <= x < t.len() && 0 <= y < t.len() && x != y implies t[x].state@
            != t[y].state@ by {
            if x != i && y != i {
                assert(s[x].state@ != s[y].state@);
            }
        }
        lemma_index_unique(t, a.state@, i);
    } else {
        let n = s.len() as int;
        assert(t[n] == a);
        lemma_index_unique(t, a.state@, n);
    }
}

/// A stored session is taken exactly once: the first `take` under its state
/// returns it, and a second `take` under that state finds nothing.
pub proof fn lemma_take_once(s: Seq<AuthState>, a: AuthState)
    requires
        keys_unique(s),
    ensures
        lookup(with_session(s, a), a.state@) == Some(a),
        lookup(without(with_session(s, a), a.state@), a.state@) is None,
{
    lemma_with_session_found(s, a);
    lemma_without_drops_key(with_session(s, a), a.state@);
}

} // verus!

//! Who is logged in: the agent that keeps the token and tells the page's
//! parts about logins and logouts, and the header that shows the state.

use vstd::prelude::*;
use crate::jwt::{Jwt, JwtError, StoredToken};
use std::collections::HashSet;

verus! {

/// What a part of the page asks of the login agent.
#[derive(Debug)]
pub enum LoginRequest {
    Logout,
    Login { jwt_string: String },
    Query,
}

/// What the login agent tells a part of the page.
#[derive(Debug)]
pub enum LoginResponse {
    LoggedOut,
    LoggedIn(Jwt),
}

/// Two payloads with the same fields.
pub open spec fn same_jwt(a: Jwt, b: Jwt) -> bool {
    a.sub == b.sub && a.user_roles@ == b.user_roles@ && a.exp == b.exp && a.iat == b.iat
}

impl Clone for Jwt {
    fn clone(&self) -> (r: Self)
        ensures
            same_jwt(r, *self),
    {
        let mut roles = Vec::new();
        let mut k: usize = 0;
        while k < self.user_roles.len()
            invariant
                k <= self.user_roles@.len(),
                roles@ == self.user_roles@.take(k as int),
            decreases self.user_roles@.len() - k,
        {
            roles.push(self.user_roles[k]);
            k = k + 1;
            assert(roles@ =~= self.user_roles@.take(k as int));
        }
        assert(roles@ =~= self.user_roles@);
        Jwt { sub: self.sub, user_roles: roles, exp: self.exp, iat: self.iat }
    }
}

/// What happens to the token kept in the browser's storage.
#[derive(Debug)]
pub enum StorageChange {
    Keep,
    Store(String),
    Remove,
}

/// The login agent: the set of the parts of the page that listen to it,
/// each known by a number.
#[derive(Debug)]
pub struct LoginAgent {
    pub subscribers: HashSet<u64>,
}

/// No number occurs twice.
pub open spec fn no_duplicates(s: Seq<u64>) -> bool {
    forall|i: int, j: int| 0 <= i < j < s.len() ==> s[i] != s[j]
}

/// `order` lists each member of `set` once, and nothing else.
pub open spec fn lists(order: Seq<u64>, set: Set<u64>) -> bool {
    no_duplicates(order) && order.to_set() == set
}

/// The listeners other than `who`, in the order of `s`.
pub open spec fn others(s: Seq<u64>, who: u64) -> Seq<u64> {
    s.filter(|x: u64| x != who)
}

/// Each listener in `to` is told, in order, that this payload logged in.
pub open spec fn told_logged_in(r: Seq<(u64, LoginResponse)>, to: Seq<u64>, jwt: Jwt) -> bool {
    &&& r.len() == to.len()
    &&& forall|i: int|
        0 <= i < r.len() ==> #[trigger] r[i].0 == to[i] && (r[i].1 matches LoginResponse::LoggedIn(
            j,
        ) && same_jwt(j, jwt))
}

/// Each listener in `to` is told, in order, that the user logged out.
pub open spec fn told_logged_out(r: Seq<(u64, LoginResponse)>, to: Seq<u64>) -> bool {
    &&& r.len() == to.len()
    &&& forall|i: int|
        0 <= i < r.len() ==> #[trigger] r[i].0 == to[i] && (r[i].1 is LoggedOut)
}

/// Leaving out one number keeps the others, and no number comes twice.
proof fn lemma_others(s: Seq<u64>, who: u64)
    requires
        no_duplicates(s),
    ensures
        no_duplicates(others(s, who)),
        forall|y: u64| others(s, who).contains(y) <==> (s.contains(y) && y != who),
    decreases s.len(),
{
    reveal_with_fuel(Seq::<_>::filter, 1);
    if s.len() > 0 {
        let t = s.drop_last();
        let x = s.last();
        lemma_others(t, who);
        assert(!t.contains(x)) by {
            if t.contains(x) {
                let m = choose|m: int| 0 <= m < t.len() && t[m] == x;
                assert(s[m] == s[s.len() - 1]);
            }
        }
        assert forall|y: u64| s.contains(y) <==> (t.contains(y) || y == x) by {
            if s.contains(y) {
                let m = choose|m: int| 0 <= m < s.len() && s[m] == y;
                if m < s.len() - 1 {
                    assert(t[m] == y);
                }
            }
            if t.contains(y) {
                let m = choose|m: int| 0 <= m < t.len() && t[m] == y;
                assert(s[m] == y);
            }
            if y == x {
                assert(s[s.len() - 1] == y);
            }
        }
        let o = others(t, who);
        if x != who {
            assert(others(s, who) == o.push(x));
            assert forall|y: u64| o.push(x).contains(y) <==> (o.contains(y) || y == x) by {
                if o.push(x).contains(y) {
                    let m = choose|m: int| 0 <= m < o.push(x).len() && o.push(x)[m] == y;
                    if m < o.len() {
                        assert(o[m] == y);
                    }
                }
                if o.contains(y) {
                    let m = choose|m: int| 0 <= m < o.len() && o[m] == y;
                    assert(o.push(x)[m] == y);
                }
                if y == x {
                    assert(o.push(x)[o.len() as int] == y);
                }
            }
            assert forall|i: int, j: int| 0 <= i < j < o.push(x).len() implies o.push(x)[i]
                != o.push(x)[j] by {
                if j == o.len() {
                    assert(o.contains(o[i]));
                }
            }
        } else {
            assert(others(s, who) == o);
        }
    } else {
        assert(others(s, who) =~= Seq::<u64>::empty());
    }
}

/// The part of the page that logs in or out is never told of it; every
/// other listener is, once.
pub proof fn lemma_sender_not_told(order: Seq<u64>, listeners: Set<u64>, who: u64)
    requires
        lists(order, listeners),
    ensures
        lists(others(order, who), listeners.remove(who)),
        !others(order, who).contains(who),
{
    lemma_others(order, who);
    assert(others(order, who).to_set() =~= listeners.remove(who));
}

/// A listener that connects and then disconnects leaves the set of
/// listeners as it was.
pub proof fn lemma_connect_then_disconnect(listeners: Set<u64>, who: u64)
    requires
        !listeners.contains(who),
    ensures
        listeners.insert(who).remove(who) == listeners,
{
    assert(listeners.insert(who).remove(who) =~= listeners);
}

impl LoginAgent {
    /// An agent with no listeners.
    pub fn create() -> (r: LoginAgent)
        ensures
            r.subscribers@ == Set::<u64>::empty(),
    {
        LoginAgent { subscribers: HashSet::new() }
    }

    /// `who` starts to listen; the set of listeners gains it.
    pub fn connected(&mut self, who: u64)
        ensures
            final(self).subscribers@ == old(self).subscribers@.insert(who),
    {
        broadcast use vstd::std_specs::hash::group_hash_axioms;

        self.subscribers.insert(who);
    }

    /// `who` stops listening; the set of listeners loses it.
    pub fn disconnected(&mut self, who: u64)
        ensures
            final(self).subscribers@ == old(self).subscribers@.remove(who),
    {
        broadcast use vstd::std_specs::hash::group_hash_axioms;

        self.subscribers.remove(&who);
    }

    /// The listeners, each once, in the order the set hands them out.
    fn listeners(&self) -> (r: Vec<u64>)
        ensures
            lists(r@, self.subscribers@),
    {
        broadcast use vstd::std_specs::hash::group_hash_axioms;

        let mut out: Vec<u64> = Vec::new();
        for s in it: self.subscribers.iter()
            invariant
                it.seq().unref().to_set() == self.subscribers@,
                it.seq().unref().no_duplicates(),
                out@ == it.seq().unref().take(it.index()),
                it.index() == it.seq().len() ==> out@ == it.seq().unref(),
        {
            out.push(*s);
            assert(out@ =~= it.seq().unref().take(it.index() + 1));
            assert(it.seq().unref().take(it.seq().len() as int) =~= it.seq().unref());
        }
        out
    }

    /// The answer to a login with `jwt_string`, whose payload reads as
    /// `payload`: a readable token is stored and every other listener is
    /// told of it, once, in some order of the listeners; an unreadable one
    /// changes nothing.
    pub fn handle_login(&self, jwt_string: String, payload: Result<Jwt, JwtError>, who: u64) -> (r: (
        StorageChange,
        Vec<(u64, LoginResponse)>,
    ))
        ensures
            match payload {
                Ok(jwt) => (r.0 matches StorageChange::Store(t) && t == jwt_string) && exists|
                    order: Seq<u64>,
                |
                    #[trigger] lists(order, self.subscribers@) && told_logged_in(
                        r.1@,
                        others(order, who),
                        jwt,
                    ),
                Err(_) => (r.0 is Keep) && r.1@.len() == 0,
            },
    {
        match payload {
            Ok(jwt) => {
                let subs = self.listeners();
                let mut out: Vec<(u64, LoginResponse)> = Vec::new();
                let mut k: usize = 0;
                while k < subs.len()
                    invariant
                        k <= subs@.len(),
                        told_logged_in(out@, others(subs@.take(k as int), who), jwt),
                    decreases subs@.len() - k,
                {
                    let s = subs[k];
                    proof {
                        reveal_with_fuel(Seq::<_>::filter, 1);
                        assert(subs@.take(k as int + 1).drop_last() =~= subs@.take(k as int));
                    }
                    if s != who {
                        out.push((s, LoginResponse::LoggedIn(jwt.clone())));
                    }
                    k = k + 1;
                }
                assert(subs@.take(subs@.len() as int) =~= subs@);
                (StorageChange::Store(jwt_string), out)
            },
            Err(_) => (StorageChange::Keep, Vec::new()),
        }
    }

    /// The answer to a logout: the token is removed and every other
    /// listener is told, once, in some order of the listeners.
    pub fn handle_logout(&self, who: u64) -> (r: (StorageChange, Vec<(u64, LoginResponse)>))
        ensures
            r.0 is Remove,
            exists|order: Seq<u64>|
                #[trigger] lists(order, self.subscribers@) && told_logged_out(
                    r.1@,
                    others(order, who),
                ),
    {
        let subs = self.listeners();
        let mut out: Vec<(u64, LoginResponse)> = Vec::new();
        let mut k: usize = 0;
        while k < subs.len()
            invariant
                k <= subs@.len(),
                told_logged_out(out@, others(subs@.take(k as int), who)),
            decreases subs@.len() - k,
        {
            let s = subs[k];
            proof {
                reveal_with_fuel(Seq::<_>::filter, 1);
                assert(subs@.take(k as int + 1).drop_last() =~= subs@.take(k as int));
            }
            if s != who {
                out.push((s, LoginResponse::LoggedOut));
            }
            k = k + 1;
        }
        assert(subs@.take(subs@.len() as int) =~= subs@);
        (StorageChange::Remove, out)
    }

    /// The answer to a query, which goes to the asker alone: logged out
    /// when no token is stored, logged in with its payload otherwise, and
    /// with an empty payload when the stored token cannot be read.
    pub fn handle_query(&self, stored: &StoredToken, who: u64) -> (r: (u64, LoginResponse))
        ensures
            r.0 == who,
            match *stored {
                StoredToken::Absent => r.1 is LoggedOut,
                StoredToken::Present { payload: Ok(jwt), .. } => r.1 matches LoginResponse::LoggedIn(
                    j,
                ) && same_jwt(j, jwt),
                StoredToken::Present { payload: Err(_), .. } => r.1 matches LoginResponse::LoggedIn(
                    j,
                ) && j.user_roles@.len() == 0 && j.exp == 0 && j.iat == 0 && j.sub.value == 0,
            },
    {
        match stored {
            StoredToken::Absent => (who, LoginResponse::LoggedOut),
            StoredToken::Present { payload: Ok(jwt), .. } => (who, LoginResponse::LoggedIn(jwt.clone())),
            StoredToken::Present { payload: Err(_), .. } => (
                who,
                LoginResponse::LoggedIn(Jwt::default()),
            ),
        }
    }
}

impl Default for Jwt {
    fn default() -> (r: Self)
        ensures
            r.user_roles@.len() == 0,
            r.exp == 0,
            r.iat == 0,
            r.sub.value == 0,
    {
        Jwt { sub: crate::ids::Uuid { value: 0 }, user_roles: Vec::new(), exp: 0, iat: 0 }
    }
}

/// The header at the top of every page.
#[derive(Debug)]
pub struct Header {
    pub is_logged_in: bool,
}

/// What the header reacts to.
#[derive(Debug)]
pub enum HeaderMsg {
    InitiateLogout,
    HandleLoginResponse(LoginResponse),
    NoOp,
}

/// The route of the login page.
pub open spec fn login_route() -> Seq<char> {
    "auth/login"@
}

impl Header {
    /// A header that shows the user as logged out and asks the agent.
    pub fn create() -> (r: (Header, LoginRequest))
        ensures
            !r.0.is_logged_in,
            r.1 is Query,
    {
        (Header { is_logged_in: false }, LoginRequest::Query)
    }

    /// Reacts to `msg`: whether the header is drawn again, what it asks of
    /// the login agent, and the route it moves to. A logout asks the agent
    /// to log out and goes to the login page; the agent's answer sets
    /// whether the user is shown as logged in.
    pub fn update(&mut self, msg: HeaderMsg) -> (r: (bool, Option<LoginRequest>, Option<String>))
        ensures
            match msg {
                HeaderMsg::InitiateLogout => {
                    &&& r.0
                    &&& r.1 matches Some(LoginRequest::Logout)
                    &&& r.2 matches Some(route) && route@ == login_route()
                    &&& !final(self).is_logged_in
                },
                HeaderMsg::HandleLoginResponse(response) => {
                    &&& r.0
                    &&& r.1 is None
                    &&& r.2 is None
                    &&& final(self).is_logged_in == (response is LoggedIn)
                },
                HeaderMsg::NoOp => !r.0 && r.1 is None && r.2 is None && final(self).is_logged_in
                    == old(self).is_logged_in,
            },
    {
        match msg {
            HeaderMsg::InitiateLogout => {
                self.is_logged_in = false;
                (true, Some(LoginRequest::Logout), Some(String::from_str("auth/login")))
            },
            HeaderMsg::HandleLoginResponse(response) => {
                match response {
                    LoginResponse::LoggedIn(_) => self.is_logged_in = true,
                    LoginResponse::LoggedOut => self.is_logged_in = false,
                }
                (true, None, None)
            },
            HeaderMsg::NoOp => (false, None, None),
        }
    }
}

} // verus!

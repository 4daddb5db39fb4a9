//! The roster of drivers: names in rotation order, each at most once.
use vstd::prelude::*;

verus! {

/// `names` holds no name twice.
pub open spec fn distinct(names: Seq<Seq<char>>) -> bool {
    forall|i: int, j: int| 0 <= i < j < names.len() ==> names[i] != names[j]
}

/// The roster once `user` is on it: unchanged if present, else with `user` last.
pub open spec fn with_user(names: Seq<Seq<char>>, user: Seq<char>) -> Seq<Seq<char>> {
    if names.contains(user) {
        names
    } else {
        names.push(user)
    }
}

/// The position of `user` on a roster that holds it.
pub open spec fn position(names: Seq<Seq<char>>, user: Seq<char>) -> int {
    choose|i: int| 0 <= i < names.len() && names[i] == user
}

/// Who drives after `user`: the entry that follows `user` on the roster, wrapping to
/// the start, once `user` is on it; nobody while the roster has fewer than two names.
pub open spec fn next_driver(names: Seq<Seq<char>>, user: Seq<char>) -> Option<Seq<char>> {
    let r = with_user(names, user);
    if r.len() < 2 {
        None
    } else {
        Some(r[(position(r, user) + 1) % (r.len() as int)])
    }
}

proof fn lemma_with_user_distinct(names: Seq<Seq<char>>, user: Seq<char>)
    requires
        distinct(names),
    ensures
        distinct(with_user(names, user)),
        with_user(names, user).contains(user),
{
    let r = with_user(names, user);
    if !names.contains(user) {
        assert(r[r.len() - 1] == user);
    }
}

/// On a roster of distinct names, each name is followed by the next one in order,
/// and the last by the first.
pub proof fn lemma_rotation_cycles(names: Seq<Seq<char>>, i: int)
    requires
        distinct(names),
        0 <= i < names.len(),
    ensures
        next_driver(names, names[i]) == if names.len() < 2 {
            None
        } else {
            Some(names[(i + 1) % (names.len() as int)])
        },
{
    assert(names.contains(names[i]));
    let p = position(names, names[i]);
    assert(names[p] == names[i]);
}

/// Handing over is total: there is a next driver exactly when, with `user` on it,
/// the roster holds two names or more, and it is then another person on the roster.
pub proof fn lemma_next_total(names: Seq<Seq<char>>, user: Seq<char>)
    requires
        distinct(names),
    ensures
        next_driver(names, user) is Some <==> with_user(names, user).len() >= 2,
        next_driver(names, user) is Some ==> next_driver(names, user)->Some_0 != user
            && with_user(names, user).contains(next_driver(names, user)->Some_0),
{
    let r = with_user(names, user);
    lemma_with_user_distinct(names, user);
    if r.len() >= 2 {
        let p = position(r, user);
        assert(r[p] == user);
        let q = (p + 1) % (r.len() as int);
        assert(0 <= q < r.len());
        assert(q != p) by {
            if p + 1 == r.len() {
                vstd::arithmetic::div_mod::lemma_mod_self_0(r.len() as int);
            } else {
                vstd::arithmetic::div_mod::lemma_small_mod((p + 1) as nat, r.len() as nat);
            }
        }
        assert(r.contains(r[q]));
    }
}

/// Asking twice in a row who follows `user` gives the same answer, and the roster
/// does not change the second time.
pub proof fn lemma_next_repeats(names: Seq<Seq<char>>, user: Seq<char>)
    requires
        distinct(names),
    ensures
        with_user(with_user(names, user), user) == with_user(names, user),
        next_driver(with_user(names, user), user) == next_driver(names, user),
{
    lemma_with_user_distinct(names, user);
}

/// The people taking turns to drive, in rotation order.
pub struct Drivers {
    names: Vec<String>,
}

impl View for Drivers {
    type V = Seq<Seq<char>>;

    closed spec fn view(&self) -> Seq<Seq<char>> {
        self.names@.map_values(|s: String| s@)
    }
}

impl Drivers {
    pub open spec fn wf(&self) -> bool {
        distinct(self@)
    }

    /// An empty roster.
    pub fn new() -> (r: Drivers)
        ensures
            r.wf(),
            r@ == Seq::<Seq<char>>::empty(),
    {
        let r = Drivers { names: Vec::new() };
        assert(r@ =~= Seq::<Seq<char>>::empty());
        r
    }

    /// Where `user` stands on the roster, if anywhere.
    fn find(&self, user: &String) -> (r: Option<usize>)
        ensures
            r is None <==> !self@.contains(user@),
            r matches Some(i) ==> i < self@.len() && self@[i as int] == user@,
    {
        let mut i: usize = 0;
        while i < self.names.len()
            invariant
                i <= self.names.len(),
                forall|j: int| 0 <= j < i ==> self@[j] != user@,
            decreases self.names.len() - i,
        {
            if self.names[i] == *user {
                assert(self@[i as int] == user@);
                return Some(i);
            }
            i = i + 1;
        }
        assert forall|j: int| 0 <= j < self@.len() implies self@[j] != user@ by {}
        None
    }

    /// Whether `user` is on the roster.
    pub fn contains(&self, user: &str) -> (r: bool)
        ensures
            r == self@.contains(user@),
    {
        let u = user.to_owned();
        self.find(&u).is_some()
    }

    /// Puts `user` on the roster, last, unless already there.
    pub fn add(&mut self, user: &str)
        requires
            old(self).wf(),
        ensures
            final(self).wf(),
            final(self)@ == with_user(old(self)@, user@),
    {
        let u = user.to_owned();
        if self.find(&u).is_none() {
            self.names.push(u);
            assert(self@ =~= old(self)@.push(user@));
        }
    }

    /// The names in rotation order.
    pub fn all(&self) -> (r: Vec<String>)
        ensures
            r@.map_values(|s: String| s@) == self@,
    {
        let mut out: Vec<String> = Vec::new();
        let mut i: usize = 0;
        while i < self.names.len()
            invariant
                i <= self.names.len(),
                out@.len() == i,
                forall|j: int| 0 <= j < i ==> out@[j]@ == self@[j],
            decreases self.names.len() - i,
        {
            out.push(self.names[i].clone());
            i = i + 1;
        }
        assert(out@.map_values(|s: String| s@) =~= self@);
        out
    }

    /// Who drives after `user`. `user` is put on the roster first, if missing; with
    /// fewer than two names there is nobody to hand over to.
    pub fn next(&mut self, user: &str) -> (r: Option<String>)
        requires
            old(self).wf(),
        ensures
            final(self).wf(),
            final(self)@ == with_user(old(self)@, user@),
            r is None <==> next_driver(old(self)@, user@) is None,
            r is Some ==> next_driver(old(self)@, user@) == Some(r->Some_0@),
    {
        self.add(user);
        let u = user.to_owned();
        assert(self@.contains(user@)) by {
            if !old(self)@.contains(user@) {
                assert(self@[self@.len() - 1] == user@);
            }
        }
        let i = match self.find(&u) {
            Some(i) => i,
            None => {
                return None;
            },
        };
        let n = self.names.len();
        proof {
            assert(self@.contains(user@));
            let p = position(self@, user@);
            assert(self@[p] == user@);
            assert(p == i);
        }
        if n < 2 {
            return None;
        }
        let j: usize = if i + 1 == n { 0 } else { i + 1 };
        assert(j as int == (i as int + 1) % (n as int)) by {
            if i + 1 == n {
                vstd::arithmetic::div_mod::lemma_mod_self_0(n as int);
            } else {
                vstd::arithmetic::div_mod::lemma_small_mod((i + 1) as nat, n as nat);
            }
        }
        Some(self.names[j].clone())
    }
}

} // verus!

//! The set of cache keys whose fetch or derivation is under way. The first
//! request for a cold key leads the work; every later one waits for it.

use vstd::prelude::*;
use crate::profile::views;
use crate::text::str_eq;

verus! {

/// Cache keys with a fetch or derivation in progress.
pub struct InFlight {
    keys: Vec<String>,
}

/// The registry after a request for `key` asks to lead, and whether it leads.
pub open spec fn begin_spec(s: Set<Seq<char>>, key: Seq<char>) -> (Set<Seq<char>>, bool) {
    (s.insert(key), !s.contains(key))
}

/// How many of the requests `ks`, arriving in order with nothing finishing
/// in between, become leaders.
pub open spec fn leaders(s: Set<Seq<char>>, ks: Seq<Seq<char>>) -> nat
    decreases ks.len(),
{
    if ks.len() == 0 {
        0
    } else {
        let (s2, lead) = begin_spec(s, ks[0]);
        (if lead { 1nat } else { 0nat }) + leaders(s2, ks.drop_first())
    }
}

impl InFlight {
    /// The keys in progress.
    pub closed spec fn view(&self) -> Set<Seq<char>> {
        views(self.keys@).to_set()
    }

    /// No key is listed twice.
    pub closed spec fn wf(&self) -> bool {
        views(self.keys@).no_duplicates()
    }

    /// An empty registry.
    pub fn new() -> (r: InFlight)
        ensures
            r.wf(),
            r@ == Set::<Seq<char>>::empty(),
    {
        let r = InFlight { keys: Vec::new() };
        assert(views(r.keys@) =~= Seq::<Seq<char>>::empty());
        r
    }

    fn position(&self, key: &str) -> (r: Option<usize>)
        ensures
            match r {
                Some(i) => i < self.keys@.len() && self.keys@[i as int]@ == key@,
                None => !self@.contains(key@),
            },
    {
        let mut i: usize = 0;
        while i < self.keys.len()
            invariant
                i <= self.keys@.len(),
                forall|j: int| 0 <= j < i ==> self.keys@[j]@ != key@,
            decreases self.keys@.len() - i,
        {
            if str_eq(self.keys[i].as_str(), key) {
                return Some(i);
            }
            i = i + 1;
        }
        proof {
            if views(self.keys@).contains(key@) {
                let j = views(self.keys@).index_of(key@);
                assert(self.keys@[j]@ == key@);
            }
        }
        None
    }

    /// Whether `key` is in progress.
    pub fn contains(&self, key: &str) -> (r: bool)
        ensures
            r == self@.contains(key@),
    {
        match self.position(key) {
            Some(i) => {
                assert(views(self.keys@)[i as int] == key@);
                true
            },
            None => false,
        }
    }

    /// Registers a request for `key`: it leads the work exactly when no other
    /// request for `key` is in progress. Afterwards `key` is in progress.
    pub fn try_begin(&mut self, key: &str) -> (lead: bool)
        requires
            old(self).wf(),
        ensures
            final(self).wf(),
            (final(self)@, lead) == begin_spec(old(self)@, key@),
    {
        if self.contains(key) {
            assert(self@.insert(key@) =~= self@);
            false
        } else {
            let ghost before = views(self.keys@);
            self.keys.push(String::from_str(key));
            assert(views(self.keys@) =~= before.push(key@));
            assert(views(self.keys@).to_set() =~= before.to_set().insert(key@)) by {
                assert forall|x: Seq<char>| #[trigger] views(self.keys@).contains(x) <==> (x == key@ || before.contains(x)) by {
                    if views(self.keys@).contains(x) {
                        let j = views(self.keys@).index_of(x);
                        if j < before.len() {
                            assert(before[j] == x);
                        }
                    }
                    if before.contains(x) {
                        let j = before.index_of(x);
                        assert(views(self.keys@)[j] == x);
                    }
                    if x == key@ {
                        assert(views(self.keys@)[before.len() as int] == x);
                    }
                }
            }
            true
        }
    }

    /// Marks the work for `key` as done, whether it succeeded or not.
    pub fn finish(&mut self, key: &str)
        requires
            old(self).wf(),
        ensures
            final(self).wf(),
            final(self)@ == old(self)@.remove(key@),
    {
        match self.position(key) {
            Some(i) => {
                let ghost before = views(self.keys@);
                self.keys.remove(i);
                assert(views(self.keys@) =~= before.remove(i as int));
                assert(views(self.keys@).to_set() =~= before.to_set().remove(key@)) by {
                    assert forall|x: Seq<char>| #[trigger] views(self.keys@).contains(x) <==> (x != key@ && before.contains(x)) by {
                        if views(self.keys@).contains(x) {
                            let j = views(self.keys@).index_of(x);
                            if j < i {
                                assert(before[j] == x);
                            } else {
                                assert(before[j + 1] == x);
                            }
                            assert(before[i as int] == key@);
                        }
                        if x != key@ && before.contains(x) {
                            let j = before.index_of(x);
                            if j < i {
                                assert(views(self.keys@)[j] == x);
                            } else {
                                assert(j != i);
                                assert(views(self.keys@)[j - 1] == x);
                            }
                        }
                    }
                }
            },
            None => {
                assert(self@.remove(key@) =~= self@);
            },
        }
    }
}

/// Of any number of requests for one cache key that arrive while no work for
/// it is in progress and before that work finishes, exactly one leads: the
/// origin is fetched, and the transcoder run, once.
pub proof fn law_single_leader(s: Set<Seq<char>>, key: Seq<char>, n: nat)
    requires
        !s.contains(key),
        n >= 1,
    ensures
        leaders(s, Seq::new(n, |i: int| key)) == 1,
{
    let ks = Seq::new(n, |i: int| key);
    assert(ks.drop_first() =~= Seq::new((n - 1) as nat, |i: int| key));
    lemma_followers(s.insert(key), key, (n - 1) as nat);
}

/// Once `key` is in progress, no further request for it leads.
proof fn lemma_followers(s: Set<Seq<char>>, key: Seq<char>, n: nat)
    requires
        s.contains(key),
    ensures
        leaders(s, Seq::new(n, |i: int| key)) == 0,
    decreases n,
{
    if n > 0 {
        let ks = Seq::new(n, |i: int| key);
        assert(ks.drop_first() =~= Seq::new((n - 1) as nat, |i: int| key));
        assert(s.insert(key) =~= s);
        lemma_followers(s, key, (n - 1) as nat);
    }
}

} // verus!

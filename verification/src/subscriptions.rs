//! The set of feed keys the engine has already asked the bridge to
//! subscribe, so that a key is requested once and not on every cycle.
use vstd::prelude::*;

verus! {

/// Feed keys already requested, in the order they were first requested.
pub struct SubscriptionLedger {
    keys: Vec<String>,
}

/// The keys of `keys`, as text.
pub open spec fn key_texts(keys: Seq<String>) -> Seq<Seq<char>> {
    keys.map_values(|k: String| k@)
}

/// The keys of `keys` that are not in `seen` and not repeated earlier in
/// `keys`, in order of first appearance.
pub open spec fn fresh_keys(seen: Set<Seq<char>>, keys: Seq<Seq<char>>) -> Seq<Seq<char>>
    decreases keys.len(),
{
    if keys.len() == 0 {
        Seq::empty()
    } else if seen.contains(keys[0]) {
        fresh_keys(seen, keys.drop_first())
    } else {
        seq![keys[0]] + fresh_keys(seen.insert(keys[0]), keys.drop_first())
    }
}

impl View for SubscriptionLedger {
    type V = Set<Seq<char>>;

    /// The keys requested so far.
    closed spec fn view(&self) -> Set<Seq<char>> {
        Set::new(|x: Seq<char>| exists|i: int| 0 <= i < self.keys@.len() && self.keys@[i]@ == x)
    }
}

impl SubscriptionLedger {
    /// A ledger in which nothing has been requested.
    pub fn new() -> (l: Self)
        ensures
            l@ == Set::<Seq<char>>::empty(),
    {
        let l = SubscriptionLedger { keys: Vec::new() };
        assert(l@ =~= Set::<Seq<char>>::empty());
        l
    }

    fn contains(&self, key: &String) -> (b: bool)
        ensures
            b == self@.contains(key@),
    {
        let mut j: usize = 0;
        while j < self.keys.len()
            invariant
                j <= self.keys@.len(),
                forall|jj: int| 0 <= jj < j ==> self.keys@[jj]@ != key@,
            decreases self.keys@.len() - j,
        {
            if self.keys[j] == *key {
                assert(self.keys@[j as int]@ == key@);
                return true;
            }
            j = j + 1;
        }
        assert(!self@.contains(key@));
        false
    }

    /// Mark `keys` as requested, returning only the ones that were not
    /// requested before, each once, in the order they appear in `keys`.
    pub fn newly_subscribed(&mut self, keys: &[String]) -> (fresh: Vec<String>)
        ensures
            key_texts(fresh@) == fresh_keys(old(self)@, key_texts(keys@)),
            forall|x: Seq<char>|
                final(self)@.contains(x) <==> (old(self)@.contains(x) || key_texts(
                    keys@,
                ).contains(x)),
    {
        let ghost kv = key_texts(keys@);
        let ghost start = self@;
        let mut fresh: Vec<String> = Vec::new();
        let mut i: usize = 0;
        assert(kv.subrange(0, kv.len() as int) =~= kv);
        assert(key_texts(fresh@) + fresh_keys(self@, kv) =~= fresh_keys(self@, kv));
        assert forall|x: Seq<char>|
            self@.contains(x) <==> (start.contains(x) || kv.subrange(0, 0).contains(x)) by {}
        while i < keys.len()
            invariant
                i <= keys@.len(),
                kv == key_texts(keys@),
                fresh_keys(start, kv) == key_texts(fresh@) + fresh_keys(
                    self@,
                    kv.subrange(i as int, kv.len() as int),
                ),
                forall|x: Seq<char>|
                    self@.contains(x) <==> (start.contains(x) || kv.subrange(0, i as int).contains(
                        x,
                    )),
            decreases keys@.len() - i,
        {
            let k = &keys[i];
            let ghost rest = kv.subrange(i as int, kv.len() as int);
            assert(rest[0] == k@);
            assert(rest.drop_first() =~= kv.subrange(i + 1, kv.len() as int));
            let ghost before = self@;
            let ghost old_keys = self.keys@;
            assert(forall|x: Seq<char>|
                #[trigger] before.contains(x) <==> (start.contains(x) || kv.subrange(0, i as int).contains(x)));
            let already = self.contains(k);
            if !already {
                self.keys.push(k.clone());
                assert(self.keys@ == old_keys.push(self.keys@[self.keys@.len() - 1]));
                assert(self@ =~= before.insert(k@)) by {
                    assert(self.keys@[self.keys@.len() - 1]@ == k@);
                    assert forall|x: Seq<char>| before.contains(x) implies self@.contains(x) by {
                        let w = choose|w: int| 0 <= w < old_keys.len() && old_keys[w]@ == x;
                        assert(self.keys@[w] == old_keys[w]);
                    }
                    assert forall|x: Seq<char>| self@.contains(x) implies before.insert(
                        k@,
                    ).contains(x) by {
                        let w = choose|w: int| 0 <= w < self.keys@.len() && self.keys@[w]@ == x;
                        if w < self.keys@.len() - 1 {
                            assert(old_keys[w] == self.keys@[w]);
                            assert(before.contains(x));
                        }
                    }
                }
                fresh.push(k.clone());
                assert(key_texts(fresh@) =~= key_texts(fresh@.drop_last()).push(k@));
            }
            assert(self@ =~= before.insert(k@));
            let ghost p0 = kv.subrange(0, i as int);
            let ghost p1 = kv.subrange(0, i + 1);
            assert(p1 =~= p0.push(k@));
            assert forall|x: Seq<char>| #[trigger] p1.contains(x) <==> (p0.contains(x) || x == k@) by {
                if p1.contains(x) && x != k@ {
                    let w = choose|w: int| 0 <= w < p1.len() && p1[w] == x;
                    assert(w < i);
                    assert(p0[w] == x);
                }
                if p0.contains(x) {
                    let w = choose|w: int| 0 <= w < p0.len() && p0[w] == x;
                    assert(p1[w] == x);
                }
                if x == k@ {
                    assert(p1[i as int] == x);
                }
            }
            assert forall|x: Seq<char>| #[trigger] self@.contains(x) <==> (start.contains(x) || p1.contains(x)) by {
                assert(before.contains(x) <==> (start.contains(x) || p0.contains(x)));
                assert(self@.contains(x) <==> (before.contains(x) || x == k@));
            }
            i = i + 1;
        }
        assert(kv.subrange(i as int, kv.len() as int).len() == 0);
        assert(kv.subrange(0, i as int) =~= kv);
        assert(key_texts(fresh@) + Seq::<Seq<char>>::empty() =~= key_texts(fresh@));
        fresh
    }

    /// The keys to ask the bridge for now. Nothing is requested, and nothing
    /// is marked as requested, while the feed connection is down; otherwise
    /// this is [`Self::newly_subscribed`].
    pub fn requests_for(&mut self, connected: bool, keys: &[String]) -> (fresh: Vec<String>)
        ensures
            !connected ==> fresh@.len() == 0 && final(self)@ == old(self)@,
            connected ==> key_texts(fresh@) == fresh_keys(old(self)@, key_texts(keys@)),
            connected ==> forall|x: Seq<char>|
                final(self)@.contains(x) <==> (old(self)@.contains(x) || key_texts(
                    keys@,
                ).contains(x)),
    {
        if !connected {
            return Vec::new();
        }
        self.newly_subscribed(keys)
    }

    /// Forget every request, so that a new connection subscribes all feeds
    /// again.
    pub fn reset_subscribed(&mut self)
        ensures
            final(self)@ == Set::<Seq<char>>::empty(),
    {
        self.keys.clear();
        assert(self@ =~= Set::<Seq<char>>::empty());
    }
}

/// Keys that were all requested before yield nothing new.
pub proof fn known_keys_are_not_requested_again(seen: Set<Seq<char>>, keys: Seq<Seq<char>>)
    requires
        forall|j: int| 0 <= j < keys.len() ==> seen.contains(#[trigger] keys[j]),
    ensures
        fresh_keys(seen, keys) == Seq::<Seq<char>>::empty(),
    decreases keys.len(),
{
    if keys.len() > 0 {
        assert(seen.contains(keys[0]));
        assert forall|j: int| 0 <= j < keys.drop_first().len() implies seen.contains(
            #[trigger] keys.drop_first()[j],
        ) by {
            assert(keys.drop_first()[j] == keys[j + 1]);
        }
        known_keys_are_not_requested_again(seen, keys.drop_first());
    }
}

/// Every key handed out is new: it was not requested before, and it is
/// handed out only once.
pub proof fn fresh_keys_are_new_and_distinct(seen: Set<Seq<char>>, keys: Seq<Seq<char>>)
    ensures
        forall|j: int|
            0 <= j < fresh_keys(seen, keys).len() ==> !seen.contains(
                #[trigger] fresh_keys(seen, keys)[j],
            ),
        forall|j: int|
            0 <= j < fresh_keys(seen, keys).len() ==> keys.contains(
                #[trigger] fresh_keys(seen, keys)[j],
            ),
        forall|a: int, b: int|
            0 <= a < b < fresh_keys(seen, keys).len() ==> fresh_keys(seen, keys)[a]
                != fresh_keys(seen, keys)[b],
    decreases keys.len(),
{
    if keys.len() > 0 {
        let rest = keys.drop_first();
        if seen.contains(keys[0]) {
            fresh_keys_are_new_and_distinct(seen, rest);
            assert(fresh_keys(seen, keys) == fresh_keys(seen, rest));
            assert forall|j: int|
                0 <= j < fresh_keys(seen, keys).len() implies keys.contains(
                #[trigger] fresh_keys(seen, keys)[j],
            ) by {
                let x = fresh_keys(seen, keys)[j];
                assert(rest.contains(x));
                let w = choose|w: int| 0 <= w < rest.len() && rest[w] == x;
                assert(keys[w + 1] == x);
            }
        } else {
            let s2 = seen.insert(keys[0]);
            fresh_keys_are_new_and_distinct(s2, rest);
            let f = fresh_keys(seen, keys);
            let tail = fresh_keys(s2, rest);
            assert(f == seq![keys[0]] + tail);
            assert forall|j: int| 0 <= j < f.len() implies !seen.contains(#[trigger] f[j]) by {
                if j > 0 {
                    assert(f[j] == tail[j - 1]);
                    assert(!s2.contains(tail[j - 1]));
                }
            }
            assert forall|j: int| 0 <= j < f.len() implies keys.contains(#[trigger] f[j]) by {
                if j == 0 {
                    assert(keys[0] == f[0]);
                } else {
                    assert(f[j] == tail[j - 1]);
                    assert(rest.contains(tail[j - 1]));
                    let w = choose|w: int| 0 <= w < rest.len() && rest[w] == tail[j - 1];
                    assert(keys[w + 1] == f[j]);
                }
            }
            assert forall|a: int, b: int| 0 <= a < b < f.len() implies f[a] != f[b] by {
                assert(f[b] == tail[b - 1]);
                assert(!s2.contains(tail[b - 1]));
                if a > 0 {
                    assert(f[a] == tail[a - 1]);
                } else {
                    assert(s2.contains(f[a]));
                }
            }
        }
    }
}

} // verus!

verus! {

/// Every key of the request that was not requested before is handed out.
pub proof fn every_new_key_is_requested(seen: Set<Seq<char>>, keys: Seq<Seq<char>>)
    ensures
        forall|j: int|
            0 <= j < keys.len() && !seen.contains(#[trigger] keys[j]) ==> fresh_keys(
                seen,
                keys,
            ).contains(keys[j]),
    decreases keys.len(),
{
    if keys.len() > 0 {
        let rest = keys.drop_first();
        let s2 = if seen.contains(keys[0]) { seen } else { seen.insert(keys[0]) };
        every_new_key_is_requested(s2, rest);
        assert forall|j: int|
            0 <= j < keys.len() && !seen.contains(#[trigger] keys[j]) implies fresh_keys(
            seen,
            keys,
        ).contains(keys[j]) by {
            let f = fresh_keys(seen, keys);
            let tail = fresh_keys(s2, rest);
            if seen.contains(keys[0]) {
                assert(f == tail);
                assert(rest[j - 1] == keys[j]);
                assert(!s2.contains(rest[j - 1]));
            } else {
                assert(f == seq![keys[0]] + tail);
                if keys[j] == keys[0] {
                    assert(f[0] == keys[j]);
                } else {
                    assert(j > 0);
                    assert(rest[j - 1] == keys[j]);
                    assert(!s2.contains(rest[j - 1]));
                    assert(tail.contains(keys[j]));
                    let w = choose|w: int| 0 <= w < tail.len() && tail[w] == keys[j];
                    assert(f[w + 1] == keys[j]);
                }
            }
        }
    }
}

} // verus!

//! The ledger of message identifiers already delivered locally.
use vstd::prelude::*;

verus! {

/// The identifiers of the messages delivered locally so far.
///
/// No identifier is held twice, and none is ever removed.
pub struct SeenLedger {
    ids: Vec<String>,
}

impl View for SeenLedger {
    type V = Set<Seq<char>>;

    closed spec fn view(&self) -> Set<Seq<char>> {
        self.ids@.map_values(|s: String| s@).to_set()
    }
}

impl SeenLedger {
    /// The identifiers are held once each.
    pub closed spec fn wf(&self) -> bool {
        forall|i: int, j: int|
            0 <= i < self.ids@.len() && 0 <= j < self.ids@.len() && i != j
                ==> #[trigger] self.ids@[i]@ != #[trigger] self.ids@[j]@
    }

    /// An empty ledger.
    pub fn new() -> (r: SeenLedger)
        ensures
            r.wf(),
            r@ == Set::<Seq<char>>::empty(),
    {
        let r = SeenLedger { ids: Vec::new() };
        assert(r@ =~= Set::<Seq<char>>::empty());
        r
    }

    /// Whether `id` has been marked.
    pub fn has_seen(&self, id: &String) -> (r: bool)
        requires
            self.wf(),
        ensures
            r == self@.contains(id@),
    {
        let mut i: usize = 0;
        while i < self.ids.len()
            invariant
                0 <= i <= self.ids@.len(),
                forall|k: int| 0 <= k < i ==> self.ids@[k]@ != id@,
            decreases self.ids@.len() - i,
        {
            if self.ids[i].eq(id) {
                proof {
                    assert(self.ids@.map_values(|s: String| s@)[i as int] == id@);
                }
                return true;
            }
            i = i + 1;
        }
        proof {
            if self@.contains(id@) {
                let k = self.ids@.map_values(|s: String| s@).index_of(id@);
                assert(self.ids@[k]@ == id@);
            }
        }
        false
    }

    /// Marks `id` as delivered, in one step with the test of whether it was:
    /// `true` exactly when `id` had not been marked before.
    pub fn check_and_mark(&mut self, id: String) -> (fresh: bool)
        requires
            old(self).wf(),
        ensures
            final(self).wf(),
            fresh == !old(self)@.contains(id@),
            final(self)@ == old(self)@.insert(id@),
    {
        if self.has_seen(&id) {
            proof {
                assert(self@.insert(id@) =~= self@);
            }
            false
        } else {
            let ghost before = self.ids@;
            let ghost key = id@;
            self.ids.push(id);
            proof {
                assert(self.ids@ == before.push(self.ids@[before.len() as int]));
                assert forall|i: int, j: int|
                    0 <= i < self.ids@.len() && 0 <= j < self.ids@.len() && i != j
                    implies #[trigger] self.ids@[i]@ != #[trigger] self.ids@[j]@ by {
                    if i == before.len() {
                        assert(before.map_values(|s: String| s@)[j] == before[j]@);
                    } else if j == before.len() {
                        assert(before.map_values(|s: String| s@)[i] == before[i]@);
                    }
                }
                let vs = self.ids@.map_values(|s: String| s@);
                let olds = before.map_values(|s: String| s@);
                assert(vs =~= olds.push(key));
                assert(vs.to_set() =~= olds.to_set().insert(key)) by {
                    assert forall|x: Seq<char>| vs.to_set().contains(x)
                        implies olds.to_set().insert(x).contains(x) && (x == key || olds.to_set().contains(x)) by {
                        let k = vs.index_of(x);
                        if k < olds.len() {
                            assert(olds[k] == x);
                        }
                    }
                    assert forall|x: Seq<char>| olds.to_set().insert(key).contains(x)
                        implies vs.to_set().contains(x) by {
                        if x == key {
                            assert(vs[olds.len() as int] == x);
                        } else {
                            let k = olds.index_of(x);
                            assert(vs[k] == x);
                        }
                    }
                }
            }
            true
        }
    }

    /// Marks `id` as delivered.
    pub fn mark_seen(&mut self, id: String)
        requires
            old(self).wf(),
        ensures
            final(self).wf(),
            final(self)@ == old(self)@.insert(id@),
    {
        let _ = self.check_and_mark(id);
    }
}

/// Marking an identifier a second time has no further effect: the ledger after
/// the second mark is the ledger after the first, and it holds the identifier,
/// so a later test of that identifier finds it already seen.
pub proof fn law_mark_seen_idempotent(x: Seq<char>, before: SeenLedger, once: SeenLedger, twice: SeenLedger)
    requires
        once@ == before@.insert(x),
        twice@ == once@.insert(x),
    ensures
        twice@ == once@,
        twice@.contains(x),
{
    assert(once@.insert(x) =~= once@);
}

} // verus!

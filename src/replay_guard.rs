use vstd::prelude::*;

verus! {

/// The set of nonces that successful verifications have consumed.
///
/// Each nonce is held at most once; `try_consume` is the only operation that
/// adds to the set, and it checks and inserts in one step.
pub struct ReplayGuard {
    consumed: Vec<String>,
}

impl View for ReplayGuard {
    type V = Set<Seq<char>>;

    closed spec fn view(&self) -> Set<Seq<char>> {
        self.entries().to_set()
    }
}

impl ReplayGuard {
    /// The consumed nonces in the order they were consumed.
    spec fn entries(&self) -> Seq<Seq<char>> {
        self.consumed@.map_values(|s: String| s@)
    }

    /// Well-formed: no nonce is held twice.
    pub closed spec fn wf(&self) -> bool {
        self.entries().no_duplicates()
    }

    /// A guard that has consumed nothing.
    pub fn new() -> (r: ReplayGuard)
        ensures
            r.wf(),
            r@ == Set::<Seq<char>>::empty(),
    {
        let r = ReplayGuard { consumed: Vec::new() };
        assert(r@ =~= Set::<Seq<char>>::empty());
        r
    }

    /// Index of `nonce` among the consumed entries, if it is there.
    fn position(&self, nonce: &String) -> (r: Option<usize>)
        ensures
            match r {
                Some(i) => i < self.consumed@.len() && self.entries()[i as int] == nonce@,
                None => !self@.contains(nonce@),
            },
    {
        let mut i: usize = 0;
        while i < self.consumed.len()
            invariant
                i <= self.consumed@.len(),
                forall|j: int| 0 <= j < i ==> self.entries()[j] != nonce@,
            decreases self.consumed@.len() - i,
        {
            if self.consumed[i] == *nonce {
                return Some(i);
            }
            i = i + 1;
        }
        None
    }

    /// Whether `nonce` has been consumed.
    pub fn contains(&self, nonce: &str) -> (r: bool)
        ensures
            r == self@.contains(nonce@),
    {
        let candidate = nonce.to_owned();
        self.position(&candidate).is_some()
    }

    /// Consumes `nonce` in one step: when it is absent it is added and the
    /// result is `true`; when it is present the set is left as it was and
    /// the result is `false`.
    pub fn try_consume(&mut self, nonce: &str) -> (r: bool)
        requires
            old(self).wf(),
        ensures
            final(self).wf(),
            r == !old(self)@.contains(nonce@),
            final(self)@ == old(self)@.insert(nonce@),
    {
        let candidate = nonce.to_owned();
        match self.position(&candidate) {
            Some(_) => {
                assert(old(self)@.insert(nonce@) =~= old(self)@);
                false
            },
            None => {
                let ghost before = self.entries();
                self.consumed.push(candidate);
                assert(self.entries() =~= before.push(nonce@));
                assert forall|a: Seq<char>| #[trigger] self.entries().contains(a) <==> (before.contains(a) || a == nonce@) by {
                    if before.contains(a) {
                        let k = choose|k: int| 0 <= k < before.len() && before[k] == a;
                        assert(self.entries()[k] == a);
                    }
                    if a == nonce@ {
                        assert(self.entries()[before.len() as int] == a);
                    }
                }
                assert(self@ =~= old(self)@.insert(nonce@));
                true
            },
        }
    }

    /// Number of consumed nonces.
    pub fn count(&self) -> (r: usize)
        requires
            self.wf(),
        ensures
            r == self@.len(),
    {
        proof {
            self.entries().unique_seq_to_set();
        }
        self.consumed.len()
    }

    /// Forgets every consumed nonce.
    pub fn clear(&mut self)
        ensures
            final(self).wf(),
            final(self)@ == Set::<Seq<char>>::empty(),
    {
        self.consumed = Vec::new();
        assert(self@ =~= Set::<Seq<char>>::empty());
    }

    /// The consumed nonces, each once, in the order they were consumed.
    pub fn nonces(&self) -> (r: Vec<String>)
        requires
            self.wf(),
        ensures
            r@.len() == self@.len(),
            forall|n: Seq<char>| self@.contains(n) <==> exists|i: int| 0 <= i < r@.len() && #[trigger] r@[i]@ == n,
    {
        proof {
            self.entries().unique_seq_to_set();
        }
        let mut out: Vec<String> = Vec::new();
        let mut i: usize = 0;
        while i < self.consumed.len()
            invariant
                i <= self.consumed@.len(),
                out@.len() == i,
                forall|j: int| 0 <= j < i ==> #[trigger] out@[j]@ == self.entries()[j],
            decreases self.consumed@.len() - i,
        {
            out.push(self.consumed[i].clone());
            i = i + 1;
        }
        assert forall|n: Seq<char>| self@.contains(n) <==> exists|i: int| 0 <= i < out@.len() && #[trigger] out@[i]@ == n by {
            if self@.contains(n) {
                let k = choose|k: int| 0 <= k < self.entries().len() && self.entries()[k] == n;
                assert(out@[k]@ == n);
            }
        }
        out
    }
}

} // verus!

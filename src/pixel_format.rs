use vstd::prelude::*;

verus! {

/// What the selection reads of one candidate pixel-format configuration
/// offered by the platform.
#[derive(PartialEq, Eq, Structural, Clone, Copy, Debug)]
pub struct ConfigCandidate {
    /// Whether the configuration supports a transparent window; `None` where
    /// the platform cannot tell.
    pub transparency: Option<bool>,
    /// Multisample count of the configuration.
    pub samples: u8,
}

impl ConfigCandidate {
    pub open spec fn is_transparent(self) -> bool {
        self.transparency == Some(true)
    }

    /// `self` is strictly preferable to `other`: transparency support first,
    /// then fewer samples.
    pub open spec fn outranks(self, other: ConfigCandidate) -> bool {
        (self.is_transparent() && !other.is_transparent()) || (self.is_transparent()
            == other.is_transparent() && self.samples < other.samples)
    }

    /// Executable form of `outranks`.
    pub fn preferred_over(&self, other: &ConfigCandidate) -> (r: bool)
        ensures
            r == self.outranks(*other),
    {
        let mine = match self.transparency {
            Some(t) => t,
            None => false,
        };
        let theirs = match other.transparency {
            Some(t) => t,
            None => false,
        };
        (mine && !theirs) || (mine == theirs && self.samples < other.samples)
    }
}

/// `i` is the first best candidate of `cs`: none outranks it, and it outranks
/// every candidate before it.
pub open spec fn is_first_best(cs: Seq<ConfigCandidate>, i: int) -> bool {
    &&& 0 <= i < cs.len()
    &&& forall|j: int| 0 <= j < cs.len() ==> !(#[trigger] cs[j]).outranks(cs[i])
    &&& forall|j: int| 0 <= j < i ==> cs[i].outranks(#[trigger] cs[j])
}

/// Picks the configuration to build the context on: the one with transparency
/// support and, among those equal on that, the fewest samples; the earliest
/// of equals. `None` only where there is no candidate.
pub fn select_config(cs: &Vec<ConfigCandidate>) -> (r: Option<usize>)
    ensures
        r is None <==> cs@.len() == 0,
        r matches Some(i) ==> is_first_best(cs@, i as int),
{
    if cs.len() == 0 {
        return None;
    }
    let mut best: usize = 0;
    let mut k: usize = 1;
    while k < cs.len()
        invariant
            1 <= k <= cs@.len(),
            is_first_best(cs@.subrange(0, k as int), best as int),
        decreases cs@.len() - k,
    {
        proof {
            let pre = cs@.subrange(0, k as int);
            let post = cs@.subrange(0, k + 1);
            assert(forall|j: int| 0 <= j < k ==> post[j] == pre[j]);
        }
        if cs[k].preferred_over(&cs[best]) {
            best = k;
        }
        k = k + 1;
    }
    assert(cs@.subrange(0, cs@.len() as int) =~= cs@);
    Some(best)
}

} // verus!

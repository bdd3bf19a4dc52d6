//! Sets of component addresses.
use vstd::prelude::*;

use crate::service::SystemAndComponent;

verus! {

/// A set of component addresses; none of them stands twice.
#[derive(Debug)]
pub struct CameraSet {
    pub members: Vec<SystemAndComponent>,
}

impl View for CameraSet {
    type V = Set<SystemAndComponent>;

    open spec fn view(&self) -> Set<SystemAndComponent> {
        self.members@.to_set()
    }
}

impl CameraSet {
    /// No member stands twice.
    pub open spec fn wf(&self) -> bool {
        self.members@.no_duplicates()
    }

    /// The empty set.
    pub fn new() -> (r: Self)
        ensures
            r.wf(),
            r@ == Set::<SystemAndComponent>::empty(),
            r.members@.len() == 0,
    {
        let r = CameraSet { members: Vec::new() };
        assert(r@ =~= Set::<SystemAndComponent>::empty());
        r
    }

    /// Where `camera` stands.
    fn find(&self, camera: SystemAndComponent) -> (r: Option<usize>)
        ensures
            match r {
                Some(i) => i < self.members@.len() && self.members@[i as int] == camera,
                None => !self@.contains(camera),
            },
    {
        let mut i: usize = 0;
        while i < self.members.len()
            invariant
                i <= self.members@.len(),
                forall|j: int| 0 <= j < i ==> self.members@[j] != camera,
            decreases self.members@.len() - i,
        {
            if self.members[i] == camera {
                return Some(i);
            }
            i = i + 1;
        }
        None
    }

    /// Whether `camera` is a member.
    pub fn contains(&self, camera: SystemAndComponent) -> (r: bool)
        ensures
            r == self@.contains(camera),
    {
        match self.find(camera) {
            Some(i) => {
                assert(self.members@[i as int] == camera);
                true
            },
            None => false,
        }
    }

    /// Adds `camera`; tells whether it was missing before.
    pub fn insert(&mut self, camera: SystemAndComponent) -> (r: bool)
        requires
            old(self).wf(),
        ensures
            final(self).wf(),
            final(self)@ == old(self)@.insert(camera),
            r == !old(self)@.contains(camera),
            final(self).members@ == (if r {
                old(self).members@.push(camera)
            } else {
                old(self).members@
            }),
    {
        if self.contains(camera) {
            assert(self@ =~= old(self)@.insert(camera));
            false
        } else {
            self.members.push(camera);
            proof {
                let after = self.members@;
                let before = old(self).members@;
                assert forall|c: SystemAndComponent| after.contains(c) <==> before.contains(c) || c
                    == camera by {
                    if after.contains(c) {
                        let i = choose|i: int| 0 <= i < after.len() && after[i] == c;
                        if i < before.len() {
                            assert(before[i] == c);
                        }
                    }
                    if before.contains(c) {
                        let i = choose|i: int| 0 <= i < before.len() && before[i] == c;
                        assert(after[i] == c);
                    }
                    assert(after[before.len() as int] == camera);
                }
                assert(self@ =~= old(self)@.insert(camera));
                assert forall|i: int, j: int|
                    0 <= i < after.len() && 0 <= j < after.len() && i != j implies after[i]
                    != after[j] by {
                    if i < before.len() && j == before.len() {
                        assert(before.contains(before[i]));
                    }
                    if j < before.len() && i == before.len() {
                        assert(before.contains(before[j]));
                    }
                }
            }
            true
        }
    }

    /// Takes `camera` out.
    pub fn remove(&mut self, camera: SystemAndComponent)
        requires
            old(self).wf(),
        ensures
            final(self).wf(),
            final(self)@ == old(self)@.remove(camera),
    {
        match self.find(camera) {
            Some(i) => {
                let _ = self.members.remove(i);
                proof {
                    let before = old(self).members@;
                    let after = self.members@;
                    assert forall|c: SystemAndComponent| after.contains(c) <==> before.contains(c)
                        && c != camera by {
                        if after.contains(c) {
                            let k = choose|k: int| 0 <= k < after.len() && after[k] == c;
                            if k < i {
                                assert(before[k] == c);
                            } else {
                                assert(before[k + 1] == c);
                            }
                        }
                        if before.contains(c) && c != camera {
                            let k = choose|k: int| 0 <= k < before.len() && before[k] == c;
                            if k < i {
                                assert(after[k] == c);
                            } else {
                                assert(after[k - 1] == c);
                            }
                        }
                    }
                    assert(self@ =~= old(self)@.remove(camera));
                }
            },
            None => {
                assert(self@ =~= old(self)@.remove(camera));
            },
        }
    }
}

} // verus!

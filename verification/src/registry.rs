//! Registry of user-enabled server integrations.
//!
//! The registry is a set of server names. Persistence (the JSON file on
//! disk, its location, and the atomic-rename save) is host glue; this module
//! owns the set semantics the file stores. A registry is modeled as the set
//! of its names' character sequences; the carrier vector holds no duplicate
//! names.

use vstd::prelude::*;

verus! {

/// The character sequences of each name, in carrier order.
pub open spec fn name_views(v: Seq<String>) -> Seq<Seq<char>> {
    v.map_values(|s: String| s@)
}

/// Registry tracking user-managed server enablement state.
#[derive(Debug, PartialEq, Eq)]
pub struct McpRegistry {
    enabled: Vec<String>,
}

impl Default for McpRegistry {
    /// An empty registry, as [`McpRegistry::new`] yields.
    fn default() -> (r: McpRegistry)
        ensures
            r@ == Set::<Seq<char>>::empty(),
            r.names() == Seq::<String>::empty(),
            r.wf(),
    {
        McpRegistry::new()
    }
}

impl Clone for McpRegistry {
    fn clone(&self) -> (r: Self)
        ensures
            r.names() == self.names(),
            r@ == self@,
            r.wf() == self.wf(),
    {
        McpRegistry { enabled: crate::snapshot::clone_string_vec(&self.enabled) }
    }
}

impl View for McpRegistry {
    type V = Set<Seq<char>>;

    open spec fn view(&self) -> Set<Seq<char>> {
        name_views(self.names()).to_set()
    }
}

impl McpRegistry {
    /// The carrier: enabled names in insertion order.
    pub closed spec fn names(self) -> Seq<String> {
        self.enabled@
    }

    /// No two carrier entries spell the same name.
    pub open spec fn wf(self) -> bool {
        forall|i: int, j: int|
            0 <= i < self.names().len() && 0 <= j < self.names().len() && i != j
                ==> self.names()[i]@ != self.names()[j]@
    }

    /// An empty registry: nothing enabled.
    pub fn new() -> (r: McpRegistry)
        ensures
            r@ == Set::<Seq<char>>::empty(),
            r.names() == Seq::<String>::empty(),
            r.wf(),
    {
        let r = McpRegistry { enabled: Vec::new() };
        proof {
            assert(r@ =~= Set::<Seq<char>>::empty());
        }
        r
    }

    /// Return the names of all enabled servers.
    pub fn enabled(&self) -> (r: &Vec<String>)
        ensures
            r@ == self.names(),
    {
        &self.enabled
    }

    /// Returns `true` when the supplied server name is enabled.
    pub fn is_enabled(&self, name: &str) -> (r: bool)
        ensures
            r == self@.contains(name@),
    {
        match self.position_of(name) {
            Some(_) => true,
            None => false,
        }
    }

    /// Enable or disable the supplied server. Returns `true` when the
    /// registry was changed.
    pub fn set_enabled(&mut self, name: &str, enable: bool) -> (r: bool)
        requires
            old(self).wf(),
        ensures
            enable ==> final(self)@ == old(self)@.insert(name@),
            !enable ==> final(self)@ == old(self)@.remove(name@),
            r == (enable != old(self)@.contains(name@)),
            final(self).wf(),
    {
        let found = self.position_of(name);
        match (enable, found) {
            (true, Some(_)) => {
                proof {
                    assert(self@.insert(name@) =~= self@);
                }
                false
            },
            (true, None) => {
                let owned = name.to_owned();
                self.enabled.push(owned);
                proof {
                    lemma_push_view(old(self).names(), owned, name@);
                    assert(self.names() == old(self).names().push(owned));
                    assert forall|i: int, j: int|
                        0 <= i < self.names().len() && 0 <= j < self.names().len() && i != j
                            implies self.names()[i]@ != self.names()[j]@ by {
                        let m = old(self).names().len() as int;
                        if i < m && j < m {
                            assert(old(self).names()[i]@ != old(self).names()[j]@);
                        }
                    }
                }
                true
            },
            (false, Some(i)) => {
                self.enabled.remove(i);
                proof {
                    lemma_remove_view(old(self).names(), i as int, name@);
                    let w = old(self).names().remove(i as int);
                    assert(self.names() == w);
                    assert forall|k: int, l: int|
                        0 <= k < w.len() && 0 <= l < w.len() && k != l
                            implies w[k]@ != w[l]@ by {
                        let ko = if k < i as int { k } else { k + 1 };
                        let lo = if l < i as int { l } else { l + 1 };
                        assert(w[k] == old(self).names()[ko]);
                        assert(w[l] == old(self).names()[lo]);
                    }
                }
                true
            },
            (false, None) => {
                proof {
                    assert(self@.remove(name@) =~= self@);
                }
                false
            },
        }
    }

    /// Enable every name in the list; duplicates collapse into the set.
    /// This is the load-side reconstruction: an empty registry fed the
    /// stored names ends up with exactly their set.
    pub fn enable_all(&mut self, names: &Vec<String>)
        requires
            old(self).wf(),
        ensures
            final(self)@ == old(self)@.union(name_views(names@).to_set()),
            final(self).wf(),
    {
        let n = names.len();
        let mut i: usize = 0;
        proof {
            assert(self@ =~= old(self)@.union(name_views(names@.subrange(0, 0)).to_set()));
        }
        while i < n
            invariant
                self.wf(),
                n == names@.len(),
                i <= n,
                self@ == old(self)@.union(name_views(names@.subrange(0, i as int)).to_set()),
            decreases n - i,
        {
            let ghost prefix = names@.subrange(0, i as int);
            let ghost before = self@;
            self.set_enabled(names[i].as_str(), true);
            proof {
                lemma_push_view(prefix, names@[i as int], names@[i as int]@);
                assert(names@.subrange(0, i + 1 as int) =~= prefix.push(names@[i as int]));
                assert(before.insert(names@[i as int]@) =~= old(self)@.union(
                    name_views(names@.subrange(0, i + 1 as int)).to_set(),
                ));
            }
            i += 1;
        }
        proof {
            assert(names@.subrange(0, n as int) =~= names@);
        }
    }

    /// Index of the carrier entry spelling `name`, if any.
    fn position_of(&self, name: &str) -> (r: Option<usize>)
        ensures
            match r {
                Some(i) => {
                    &&& i < self.names().len()
                    &&& self.names()[i as int]@ == name@
                    &&& self@.contains(name@)
                },
                None => {
                    &&& !self@.contains(name@)
                    &&& forall|k: int| 0 <= k < self.names().len()
                        ==> self.names()[k]@ != name@
                },
            },
    {
        let owned = name.to_owned();
        let n = self.enabled.len();
        let mut i: usize = 0;
        while i < n
            invariant
                n == self.names().len(),
                i <= n,
                forall|k: int| 0 <= k < i ==> self.names()[k]@ != name@,
                owned@ == name@,
            decreases n - i,
        {
            if self.enabled[i] == owned {
                proof {
                    assert(name_views(self.names())[i as int] == name@);
                    assert(name_views(self.names()).contains(name@));
                }
                return Some(i);
            }
            i += 1;
        }
        proof {
            assert(forall|k: int| 0 <= k < self.names().len()
                ==> name_views(self.names())[k] != name@);
            assert(!name_views(self.names()).contains(name@));
        }
        None
    }
}

/// Pushing a fresh name adds exactly its character sequence to the view.
proof fn lemma_push_view(v: Seq<String>, s: String, sv: Seq<char>)
    requires
        s@ == sv,
    ensures
        name_views(v.push(s)).to_set() == name_views(v).to_set().insert(sv),
{
    assert(name_views(v.push(s)) =~= name_views(v).push(sv));
    assert forall|x: Seq<char>| name_views(v.push(s)).to_set().contains(x)
        <==> name_views(v).to_set().insert(sv).contains(x) by {
        if name_views(v.push(s)).contains(x) {
            let k = choose|k: int|
                0 <= k < name_views(v.push(s)).len() && name_views(v.push(s))[k] == x;
            if k < v.len() {
                assert(name_views(v)[k] == x);
            }
        }
        if name_views(v).contains(x) {
            let k = choose|k: int| 0 <= k < name_views(v).len() && name_views(v)[k] == x;
            assert(name_views(v.push(s))[k] == x);
        }
        if x == sv {
            assert(name_views(v.push(s))[v.len() as int] == x);
        }
    }
    assert(name_views(v.push(s)).to_set() =~= name_views(v).to_set().insert(sv));
}

/// Removing the only carrier entry spelling a name deletes exactly its
/// character sequence from the view.
proof fn lemma_remove_view(v: Seq<String>, i: int, sv: Seq<char>)
    requires
        0 <= i < v.len(),
        v[i]@ == sv,
        forall|k: int, l: int| 0 <= k < v.len() && 0 <= l < v.len() && k != l
            ==> v[k]@ != v[l]@,
    ensures
        name_views(v.remove(i)).to_set() == name_views(v).to_set().remove(sv),
{
    let w = v.remove(i);
    assert forall|x: Seq<char>| name_views(w).to_set().contains(x)
        <==> name_views(v).to_set().remove(sv).contains(x) by {
        if name_views(w).contains(x) {
            let k = choose|k: int| 0 <= k < name_views(w).len() && name_views(w)[k] == x;
            if k < i {
                assert(name_views(v)[k] == x);
                assert(v[k]@ != v[i]@);
            } else {
                assert(name_views(v)[k + 1] == x);
                assert(v[k + 1]@ != v[i]@);
            }
        }
        if name_views(v).contains(x) && x != sv {
            let k = choose|k: int| 0 <= k < name_views(v).len() && name_views(v)[k] == x;
            if k < i {
                assert(name_views(w)[k] == x);
            } else {
                assert(k != i);
                assert(name_views(w)[k - 1] == x);
            }
        }
    }
    assert(name_views(v.remove(i)).to_set() =~= name_views(v).to_set().remove(sv));
}

} // verus!

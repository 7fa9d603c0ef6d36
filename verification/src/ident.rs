//! Table identifiers: an ordered sequence of namespace segments plus a table
//! name, used as the catalog lookup key.

use vstd::prelude::*;

verus! {

/// Mathematical model of an [`Identifier`].
pub struct IdentifierV {
    pub namespace: Seq<Seq<char>>,
    pub name: Seq<char>,
}

impl IdentifierV {
    /// An identifier is well formed when both its namespace and its name are
    /// non-empty.
    pub open spec fn wf(self) -> bool {
        self.namespace.len() > 0 && self.name.len() > 0
    }
}

/// A logical table identifier: namespace segments plus a table name.
/// Immutable once constructed; [`Identifier::try_new`] enforces the invariant
/// that neither part is empty.
#[derive(Debug)]
pub struct Identifier {
    pub namespace: Vec<String>,
    pub name: String,
}

impl View for Identifier {
    type V = IdentifierV;

    open spec fn view(&self) -> IdentifierV {
        IdentifierV {
            namespace: self.namespace@.map_values(|s: String| s@),
            name: self.name@,
        }
    }
}

impl Identifier {
    /// Builds an identifier, rejecting an empty namespace or an empty name.
    pub fn try_new(namespace: Vec<String>, name: String) -> (r: Option<Identifier>)
        ensures
            r is Some <==> (namespace@.len() > 0 && name@.len() > 0),
            r is Some ==> {
                let id = r->0;
                &&& id@.namespace == namespace@.map_values(|s: String| s@)
                &&& id@.name == name@
                &&& id@.wf()
            },
    {
        let empty = String::new();
        let name_is_empty = name == empty;
        proof {
            if name@.len() == 0 {
                assert(name@ =~= Seq::<char>::empty());
            }
        }
        if namespace.len() == 0 || name_is_empty {
            None
        } else {
            Some(Identifier { namespace, name })
        }
    }

    /// The namespace segments.
    pub fn namespace(&self) -> (r: &Vec<String>)
        ensures
            r@.map_values(|s: String| s@) == self@.namespace,
    {
        &self.namespace
    }

    /// The table name.
    pub fn name(&self) -> (r: &String)
        ensures
            r@ == self@.name,
    {
        &self.name
    }

    /// A deep copy.
    pub fn duplicate(&self) -> (r: Identifier)
        ensures
            r@ == self@,
    {
        let mut segs: Vec<String> = Vec::new();
        let mut i: usize = 0;
        while i < self.namespace.len()
            invariant
                i <= self.namespace.len(),
                segs@.len() == i,
                forall|j: int| 0 <= j < i ==> segs@[j]@ == self.namespace@[j]@,
            decreases self.namespace.len() - i,
        {
            segs.push(self.namespace[i].clone());
            i += 1;
        }
        let r = Identifier { namespace: segs, name: self.name.clone() };
        proof {
            assert(r@.namespace =~= self@.namespace);
            assert(r@ =~= self@);
        }
        r
    }

    /// True exactly when the two identifiers denote the same table.
    pub fn same_as(&self, other: &Identifier) -> (r: bool)
        ensures
            r == (self@ == other@),
    {
        if self.namespace.len() != other.namespace.len() {
            proof {
                assert(self@.namespace.len() != other@.namespace.len());
                assert(self@ != other@);
            }
            return false;
        }
        let mut i: usize = 0;
        while i < self.namespace.len()
            invariant
                i <= self.namespace.len(),
                self.namespace.len() == other.namespace.len(),
                forall|j: int| 0 <= j < i ==> self@.namespace[j] == other@.namespace[j],
            decreases self.namespace.len() - i,
        {
            if self.namespace[i] != other.namespace[i] {
                proof {
                    assert(self@.namespace[i as int] != other@.namespace[i as int]);
                    assert(self@ != other@);
                }
                return false;
            }
            i += 1;
        }
        if self.name == other.name {
            proof {
                assert(self@.namespace =~= other@.namespace);
                assert(self@ =~= other@);
            }
            true
        } else {
            proof {
                assert(self@.name != other@.name);
                assert(self@ != other@);
            }
            false
        }
    }
}

} // verus!

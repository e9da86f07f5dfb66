//! The mapping from host-assigned function identifiers to function descriptors.
use vstd::prelude::*;

verus! {

/// `i` is the first descriptor called `name`.
pub open spec fn is_first_named(names: Seq<String>, name: Seq<char>, i: int) -> bool {
    &&& 0 <= i < names.len()
    &&& names[i]@ == name
    &&& forall|j: int| 0 <= j < i ==> names[j]@ != name
}

/// Some descriptor is called `name`.
pub open spec fn has_named(names: Seq<String>, name: Seq<char>) -> bool {
    exists|i: int| 0 <= i < names.len() && names[i]@ == name
}

/// The position of the first descriptor called `name`.
pub open spec fn first_named(names: Seq<String>, name: Seq<char>) -> int {
    choose|i: int| is_first_named(names, name, i)
}

/// Registering `id` under `name` succeeds: a descriptor has that name, and `id`
/// is unbound or already bound to that same descriptor.
pub open spec fn can_bind(
    names: Seq<String>,
    bound: Map<Seq<char>, nat>,
    id: Seq<char>,
    name: Seq<char>,
) -> bool {
    exists|i: int|
        is_first_named(names, name, i) && (!bound.contains_key(id) || bound[id] == i)
}

/// The bindings after registering `id` under `name`.
pub open spec fn bind(
    names: Seq<String>,
    bound: Map<Seq<char>, nat>,
    id: Seq<char>,
    name: Seq<char>,
) -> Map<Seq<char>, nat> {
    if can_bind(names, bound, id, name) && !bound.contains_key(id) {
        bound.insert(id, first_named(names, name) as nat)
    } else {
        bound
    }
}

/// There is at most one first descriptor of a name.
pub proof fn lemma_first_named_unique(names: Seq<String>, name: Seq<char>, i: int, j: int)
    requires
        is_first_named(names, name, i),
        is_first_named(names, name, j),
    ensures
        i == j,
{
    if i < j {
        assert(names[i]@ == name);
    } else if j < i {
        assert(names[j]@ == name);
    }
}

/// Registering the same id under the same name a second time succeeds again
/// and leaves the bindings as the first registration made them: no duplicate
/// entry, no other id touched.
pub proof fn lemma_register_idempotent(
    names: Seq<String>,
    bound: Map<Seq<char>, nat>,
    id: Seq<char>,
    name: Seq<char>,
)
    requires
        can_bind(names, bound, id, name),
    ensures
        can_bind(names, bind(names, bound, id, name), id, name),
        bind(names, bind(names, bound, id, name), id, name) == bind(names, bound, id, name),
        bind(names, bound, id, name).dom() == bound.dom().insert(id),
{
    let i = choose|i: int|
        is_first_named(names, name, i) && (!bound.contains_key(id) || bound[id] == i);
    let f = first_named(names, name);
    lemma_first_named_unique(names, name, i, f);
    let once = bind(names, bound, id, name);
    assert(once.contains_key(id) && once[id] == i);
    assert(is_first_named(names, name, i) && (!once.contains_key(id) || once[id] == i));
    if bound.contains_key(id) {
        assert(bound.dom().insert(id) =~= bound.dom());
    }
}

/// Descriptors are addressed by their position in the set the registry was
/// built from; a function id is bound to at most one of them, and never
/// unbound or rebound.
pub struct Registry {
    names: Vec<String>,
    ids: Vec<String>,
    targets: Vec<usize>,
    bound: Ghost<Map<Seq<char>, nat>>,
}

impl Registry {
    /// The names of the descriptors, by position.
    pub closed spec fn descriptors(&self) -> Seq<String> {
        self.names@
    }

    /// Which descriptor each bound function id refers to.
    pub closed spec fn bindings(&self) -> Map<Seq<char>, nat> {
        self.bound@
    }

    pub closed spec fn wf(&self) -> bool {
        &&& self.ids@.len() == self.targets@.len()
        &&& forall|k: int| 0 <= k < self.targets@.len() ==> self.targets@[k] < self.names@.len()
        &&& forall|k: int, j: int|
            0 <= k < self.ids@.len() && 0 <= j < self.ids@.len() && k != j ==> self.ids@[k]@
                != self.ids@[j]@
        &&& forall|id: Seq<char>|
            self.bound@.contains_key(id) <==> exists|k: int|
                0 <= k < self.ids@.len() && self.ids@[k]@ == id
        &&& forall|k: int|
            0 <= k < self.ids@.len() ==> self.bound@[self.ids@[k]@] == self.targets@[k] as nat
    }

    /// A registry over the given descriptors, with no function id bound.
    pub fn new(names: Vec<String>) -> (r: Registry)
        ensures
            r.wf(),
            r.descriptors() == names@,
            r.bindings() == Map::<Seq<char>, nat>::empty(),
    {
        Registry { names, ids: Vec::new(), targets: Vec::new(), bound: Ghost(Map::empty()) }
    }

    /// The number of descriptors.
    pub fn len(&self) -> (r: usize)
        ensures
            r == self.descriptors().len(),
    {
        self.names.len()
    }

    /// The name of descriptor `i`.
    pub fn name(&self, i: usize) -> (r: &String)
        requires
            i < self.descriptors().len(),
        ensures
            *r == self.descriptors()[i as int],
    {
        &self.names[i]
    }

    fn find_name(&self, name: &String) -> (r: Option<usize>)
        ensures
            match r {
                Some(i) => is_first_named(self.names@, name@, i as int),
                None => !has_named(self.names@, name@),
            },
    {
        let mut i: usize = 0;
        while i < self.names.len()
            invariant
                i <= self.names@.len(),
                forall|j: int| 0 <= j < i ==> self.names@[j]@ != name@,
            decreases self.names@.len() - i,
        {
            if self.names[i] == *name {
                return Some(i);
            }
            i = i + 1;
        }
        None
    }

    fn find_id(&self, function_id: &String) -> (r: Option<usize>)
        requires
            self.wf(),
        ensures
            match r {
                Some(k) => k < self.ids@.len() && self.ids@[k as int]@ == function_id@,
                None => !self.bindings().contains_key(function_id@),
            },
    {
        let mut k: usize = 0;
        while k < self.ids.len()
            invariant
                self.wf(),
                k <= self.ids@.len(),
                forall|j: int| 0 <= j < k ==> self.ids@[j]@ != function_id@,
            decreases self.ids@.len() - k,
        {
            if self.ids[k] == *function_id {
                return Some(k);
            }
            k = k + 1;
        }
        None
    }

    /// Binds `function_id` to the first descriptor called `name`. Fails when no
    /// descriptor has that name, or when the id is already bound to another
    /// descriptor; binding an id again to the same descriptor succeeds and
    /// changes nothing.
    pub fn register(&mut self, function_id: &String, name: &String) -> (r: bool)
        requires
            old(self).wf(),
        ensures
            final(self).wf(),
            final(self).descriptors() == old(self).descriptors(),
            r == can_bind(old(self).descriptors(), old(self).bindings(), function_id@, name@),
            final(self).bindings() == bind(
                old(self).descriptors(),
                old(self).bindings(),
                function_id@,
                name@,
            ),
    {
        let found = self.find_name(name);
        match found {
            None => false,
            Some(i) => {
                match self.find_id(function_id) {
                    Some(k) => {
                        let same = self.targets[k] == i;
                        proof {
                            if !same {
                                assert forall|i2: int|
                                    is_first_named(self.names@, name@, i2) implies self.bound@[function_id@] != i2 by {
                                    if i2 < i as int {
                                        assert(self.names@[i2]@ != name@);
                                    } else if i2 > i as int {
                                        assert(self.names@[i as int]@ == name@);
                                    }
                                }
                            }
                        }
                        same
                    },
                    None => {
                        let ghost before = self.bound@;
                        proof {
                            lemma_first_named_unique(
                                self.names@,
                                name@,
                                i as int,
                                first_named(self.names@, name@),
                            );
                        }
                        self.ids.push(function_id.clone());
                        self.targets.push(i);
                        self.bound = Ghost(before.insert(function_id@, i as nat));
                        proof {
                            let n = self.ids@.len() - 1;
                            assert(self.ids@[n]@ == function_id@);
                            assert forall|id: Seq<char>|
                                self.bound@.contains_key(id) <==> exists|k: int|
                                    0 <= k < self.ids@.len() && self.ids@[k]@ == id by {
                                if before.contains_key(id) {
                                    let k = choose|k: int| 0 <= k < old(self).ids@.len() && old(self).ids@[k]@ == id;
                                    assert(self.ids@[k] == old(self).ids@[k]);
                                }
                                if exists|k: int| 0 <= k < self.ids@.len() && self.ids@[k]@ == id {
                                    let k = choose|k: int| 0 <= k < self.ids@.len() && self.ids@[k]@ == id;
                                    if k < n {
                                        assert(self.ids@[k] == old(self).ids@[k]);
                                    }
                                }
                            }
                        }
                        true
                    },
                }
            },
        }
    }

    /// The descriptor bound to `function_id`, if any.
    pub fn get(&self, function_id: &String) -> (r: Option<usize>)
        requires
            self.wf(),
        ensures
            r is Some <==> self.bindings().contains_key(function_id@),
            r matches Some(i) ==> i as nat == self.bindings()[function_id@],
            r matches Some(i) ==> i < self.descriptors().len(),
    {
        match self.find_id(function_id) {
            Some(k) => Some(self.targets[k]),
            None => None,
        }
    }
}

} // verus!

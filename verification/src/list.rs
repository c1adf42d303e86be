//! Immutable-shape singly linked lists and association tables keyed by names.
use vstd::prelude::*;

verus! {

/// A cons list. Its spec equality is structural, so a deep copy made by
/// [`DeepClone`] is equal to its source.
#[derive(Debug, PartialEq)]
pub enum List<T> {
    Nil,
    Cons(Box<T>, Box<List<T>>),
}

/// The list of one element.
impl<T> From<T> for List<T> {
    fn from(x: T) -> (r: List<T>) {
        List::Cons(Box::new(x), Box::new(List::Nil))
    }
}

impl<T> vstd::std_specs::convert::FromSpecImpl<T> for List<T> {
    open spec fn obeys_from_spec() -> bool {
        true
    }

    open spec fn from_spec(x: T) -> List<T> {
        List::Cons(Box::new(x), Box::new(List::Nil))
    }
}

/// Types whose values can be copied into a value that is spec-equal to the source.
pub trait DeepClone: Sized {
    fn deep_clone(&self) -> (r: Self)
        ensures
            r == *self,
    ;
}

impl DeepClone for usize {
    fn deep_clone(&self) -> (r: Self) {
        *self
    }
}

impl DeepClone for String {
    fn deep_clone(&self) -> (r: Self) {
        self.clone()
    }
}

impl<T> List<T> {
    /// Number of elements.
    pub open spec fn len(&self) -> nat
        decreases self,
    {
        match self {
            List::Nil => 0,
            List::Cons(_, rest) => 1 + rest.len(),
        }
    }

    /// The elements in order.
    pub open spec fn seq(&self) -> Seq<T>
        decreases self,
    {
        match self {
            List::Nil => Seq::empty(),
            List::Cons(x, rest) => seq![**x] + rest.seq(),
        }
    }

    pub proof fn lemma_seq_len(&self)
        ensures
            self.seq().len() == self.len(),
        decreases self,
    {
        match self {
            List::Nil => {},
            List::Cons(_, rest) => {
                rest.lemma_seq_len();
            },
        }
    }

    pub fn new() -> (r: Self)
        ensures
            r == List::<T>::Nil,
    {
        List::Nil
    }

    pub fn length(&self) -> (n: usize)
        requires
            self.len() <= usize::MAX,
        ensures
            n == self.len(),
        decreases self,
    {
        match self {
            List::Nil => 0,
            List::Cons(_, rest) => 1 + rest.length(),
        }
    }

    pub fn is_empty(&self) -> (b: bool)
        ensures
            b == (self.len() == 0),
    {
        match self {
            List::Nil => true,
            List::Cons(..) => false,
        }
    }

    /// Whether the list has more than `n` elements.
    pub fn longer_than(&self, n: usize) -> (b: bool)
        ensures
            b == (self.len() > n),
        decreases self,
    {
        match self {
            List::Nil => false,
            List::Cons(_, rest) => if n == 0 {
                true
            } else {
                rest.longer_than(n - 1)
            },
        }
    }

    /// Adds an element at the end.
    pub fn push_back(self, x: T) -> (r: Self)
        ensures
            r.seq() == self.seq().push(x),
            r.len() == self.len() + 1,
        decreases self,
    {
        match self {
            List::Nil => List::Cons(Box::new(x), Box::new(List::Nil)),
            List::Cons(y, rest) => {
                let r = List::Cons(y, Box::new((*rest).push_back(x)));
                assert(r.seq() =~= self.seq().push(x));
                r
            },
        }
    }

    /// Adds an element at the front.
    pub fn push_front(self, x: T) -> (r: Self)
        ensures
            r == List::Cons(Box::new(x), Box::new(self)),
    {
        List::Cons(Box::new(x), Box::new(self))
    }

    /// Builds a list holding the elements of `v` in order.
    pub fn from_vec(v: Vec<T>) -> (r: Self)
        ensures
            r.seq() == v@,
    {
        let mut v = v;
        let mut r = List::Nil;
        let ghost orig = v@;
        while v.len() > 0
            invariant
                orig == v@ + r.seq(),
            decreases v.len(),
        {
            let x = v.pop().unwrap();
            r = List::Cons(Box::new(x), Box::new(r));
            assert(orig =~= v@ + r.seq());
        }
        assert(v@ =~= Seq::<T>::empty());
        assert(orig =~= r.seq());
        r
    }
}

impl<T: DeepClone> DeepClone for List<T> {
    fn deep_clone(&self) -> (r: Self)
        decreases self,
    {
        match self {
            List::Nil => List::Nil,
            List::Cons(x, rest) => List::Cons(Box::new((**x).deep_clone()), Box::new((**rest).deep_clone())),
        }
    }
}

} // verus!

verus! {

/// An association table from names to values with at most one entry per name,
/// kept in insertion order (the order of a name's first insertion).
#[derive(Debug)]
pub struct SymTable<V> {
    pub entries: List<(String, V)>,
}

/// First value bound to `k` in an association list.
pub open spec fn assoc_lookup<V>(l: List<(String, V)>, k: Seq<char>) -> Option<V>
    decreases l,
{
    match l {
        List::Nil => None,
        List::Cons(e, rest) => if e.0@ == k {
            Some(e.1)
        } else {
            assoc_lookup(*rest, k)
        },
    }
}

/// No name is bound twice.
pub open spec fn assoc_distinct<V>(l: List<(String, V)>) -> bool
    decreases l,
{
    match l {
        List::Nil => true,
        List::Cons(e, rest) => assoc_lookup(*rest, e.0@) is None && assoc_distinct(*rest),
    }
}

/// The list after binding `k` to `v`: an existing binding is replaced in place,
/// a new one goes at the end.
pub open spec fn assoc_insert<V>(l: List<(String, V)>, k: String, v: V) -> List<(String, V)>
    decreases l,
{
    match l {
        List::Nil => List::Cons(Box::new((k, v)), Box::new(List::Nil)),
        List::Cons(e, rest) => if e.0@ == k@ {
            List::Cons(Box::new((k, v)), rest)
        } else {
            List::Cons(e, Box::new(assoc_insert(*rest, k, v)))
        },
    }
}

pub proof fn lemma_assoc_insert<V>(l: List<(String, V)>, k: String, v: V)
    ensures
        forall|q: Seq<char>|
            #[trigger] assoc_lookup(assoc_insert(l, k, v), q) == if q == k@ {
                Some(v)
            } else {
                assoc_lookup(l, q)
            },
        assoc_distinct(l) ==> assoc_distinct(assoc_insert(l, k, v)),
    decreases l,
{
    match l {
        List::Nil => {
            let r = assoc_insert(l, k, v);
            let tail = List::<(String, V)>::Nil;
            assert(r == List::Cons(Box::new((k, v)), Box::new(tail)));
            assert forall|q: Seq<char>| #[trigger] assoc_lookup(assoc_insert(l, k, v), q) == if q == k@ {
                Some(v)
            } else {
                assoc_lookup(l, q)
            } by {
                assert(assoc_lookup(tail, q) is None);
                assert((k, v).0@ == k@);
            }
        },
        List::Cons(e, rest) => {
            lemma_assoc_insert(*rest, k, v);
            assert forall|q: Seq<char>| #[trigger] assoc_lookup(assoc_insert(l, k, v), q) == if q == k@ {
                Some(v)
            } else {
                assoc_lookup(l, q)
            } by {
                assert(assoc_lookup(assoc_insert(*rest, k, v), q) == if q == k@ {
                    Some(v)
                } else {
                    assoc_lookup(*rest, q)
                });
            }
        },
    }
}

/// Binding the same name twice leaves only the second binding.
pub proof fn lemma_assoc_insert_twice<V>(l: List<(String, V)>, k: String, v1: V, v2: V)
    ensures
        assoc_insert(assoc_insert(l, k, v1), k, v2) == assoc_insert(l, k, v2),
    decreases l,
{
    match l {
        List::Nil => {},
        List::Cons(e, rest) => {
            lemma_assoc_insert_twice(*rest, k, v1, v2);
        },
    }
}

pub fn assoc_get<'a, V>(l: &'a List<(String, V)>, k: &String) -> (r: Option<&'a V>)
    ensures
        match r {
            Some(v) => assoc_lookup(*l, k@) == Some(*v),
            None => assoc_lookup(*l, k@) is None,
        },
    decreases l,
{
    match l {
        List::Nil => None,
        List::Cons(e, rest) => {
            if e.0 == *k {
                Some(&e.1)
            } else {
                assoc_get(&**rest, k)
            }
        },
    }
}

fn assoc_insert_exec<V>(l: List<(String, V)>, k: String, v: V) -> (r: List<(String, V)>)
    ensures
        r == assoc_insert(l, k, v),
    decreases l,
{
    match l {
        List::Nil => List::Cons(Box::new((k, v)), Box::new(List::Nil)),
        List::Cons(e, rest) => {
            if e.0 == k {
                List::Cons(Box::new((k, v)), rest)
            } else {
                List::Cons(e, Box::new(assoc_insert_exec(*rest, k, v)))
            }
        },
    }
}

impl<V> SymTable<V> {
    /// The value bound to `k`, if any.
    pub open spec fn lookup(&self, k: Seq<char>) -> Option<V> {
        assoc_lookup(self.entries, k)
    }

    /// The table binds every name at most once.
    pub open spec fn wf(&self) -> bool {
        assoc_distinct(self.entries)
    }

    /// The table after binding `k` to `v`.
    pub open spec fn with(self, k: String, v: V) -> SymTable<V> {
        SymTable { entries: assoc_insert(self.entries, k, v) }
    }

    pub fn new() -> (r: Self)
        ensures
            r.entries == List::<(String, V)>::Nil,
            r.wf(),
            forall|q: Seq<char>| #[trigger] r.lookup(q) is None,
    {
        SymTable { entries: List::Nil }
    }

    pub fn get(&self, k: &String) -> (r: Option<&V>)
        ensures
            match r {
                Some(v) => self.lookup(k@) == Some(*v),
                None => self.lookup(k@) is None,
            },
    {
        assoc_get(&self.entries, k)
    }

    pub fn contains_key(&self, k: &String) -> (b: bool)
        ensures
            b == (self.lookup(k@) is Some),
    {
        match self.get(k) {
            Some(_) => true,
            None => false,
        }
    }

    /// Binds `k` to `v`, replacing an existing binding of the same name.
    pub fn insert(&mut self, k: String, v: V)
        ensures
            final(self).entries == assoc_insert(old(self).entries, k, v),
            forall|q: Seq<char>|
                #[trigger] final(self).lookup(q) == if q == k@ {
                    Some(v)
                } else {
                    old(self).lookup(q)
                },
            old(self).wf() ==> final(self).wf(),
    {
        proof {
            lemma_assoc_insert(self.entries, k, v);
        }
        let mut l = List::Nil;
        std::mem::swap(&mut l, &mut self.entries);
        self.entries = assoc_insert_exec(l, k, v);
    }
}

impl<V: DeepClone> DeepClone for SymTable<V> {
    fn deep_clone(&self) -> (r: Self) {
        SymTable { entries: self.entries.deep_clone() }
    }
}

impl<A: DeepClone, B: DeepClone> DeepClone for (A, B) {
    fn deep_clone(&self) -> (r: Self) {
        (self.0.deep_clone(), self.1.deep_clone())
    }
}

} // verus!

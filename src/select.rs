//! Building a new name map from an old one, entry by entry: each value is
//! transformed, or dropped.
use crate::decl::{
    subst_class_const, subst_type_const, ClassConst, ClassishKind, DeclTy, FoldedElement, TypeConst,
    Visibility,
};
use crate::name_map::{index_in, keys, lemma_index_in, NameMap};
use vstd::prelude::*;

verus! {

/// A transformation of the values of a map that may drop some.
pub trait EntryMap<A, B> {
    spec fn ready(&self) -> bool;

    spec fn f(&self, a: A) -> Option<B>;

    fn apply(&self, a: &A) -> (r: Option<B>)
        requires
            self.ready(),
        ensures
            r == self.f(*a),
    ;
}

/// The entries of `s` whose values `t` keeps, transformed, in order.
pub open spec fn selected<A, B, T: EntryMap<A, B>>(t: T, s: Seq<(u64, A)>) -> Seq<(u64, B)> {
    s.filter_map(
        |e: (u64, A)|
            match t.f(e.1) {
                Some(b) => Some((e.0, b)),
                None => None,
            },
    )
}

/// The map of the entries of `m` whose values `t` keeps, transformed.
pub fn select<A, B, T: EntryMap<A, B>>(t: &T, m: &NameMap<A>) -> (r: NameMap<B>)
    requires
        t.ready(),
        m.wf(),
    ensures
        r.wf(),
        r@ == selected(*t, m@),
{
    proof {
        m.lemma_distinct();
    }
    let mut r: NameMap<B> = NameMap::new();
    let mut i: usize = 0;
    while i < m.len()
        invariant
            0 <= i <= m@.len(),
            m.wf(),
            t.ready(),
            keys(m@).no_duplicates(),
            r.wf(),
            r@ == selected(*t, m@.take(i as int)),
            forall|j: int| 0 <= j < r@.len() ==> exists|q: int| 0 <= q < i && #[trigger] r@[j].0 == m@[q].0,
        decreases m@.len() - i,
    {
        let e = m.entry(i);
        let k = e.0;
        let ghost prev = r@;
        assert(m@.take(i + 1).drop_last() =~= m@.take(i as int));
        match t.apply(&e.1) {
            Some(b) => {
                proof {
                    lemma_index_in(r@, k);
                    let x = index_in(r@, k);
                    if x >= 0 {
                        let q = choose|q: int| 0 <= q < i && #[trigger] r@[x].0 == m@[q].0;
                        assert(keys(m@)[q] == keys(m@)[i as int]);
                    }
                }
                r.insert(k, b);
                assert(r@ == prev.push((k, b)));
                assert(r@ =~= selected(*t, m@.take(i + 1)));
                assert forall|j: int| 0 <= j < r@.len() implies exists|q: int| 0 <= q < i + 1 && #[trigger] r@[j].0 == m@[q].0 by {
                    if j == prev.len() {
                        assert(r@[j].0 == m@[i as int].0);
                    } else {
                        assert(r@[j] == prev[j]);
                    }
                }
            },
            None => {},
        }
        i = i + 1;
    }
    assert(m@.take(i as int) =~= m@);
    r
}

/// A member as a trait passes it to the class that uses it: private members,
/// and protected ones that are not synthesized, become the user's own.
pub open spec fn chown(e: FoldedElement, owner: u64) -> FoldedElement {
    match e.visibility {
        Visibility::Private(_) => FoldedElement { visibility: Visibility::Private(owner), ..e },
        Visibility::Protected(_) => if !e.is_synthesized {
            FoldedElement { visibility: Visibility::Protected(owner), ..e }
        } else {
            e
        },
        _ => e,
    }
}

/// A class or interface passes on every member but the private ones that are
/// not late-static-bound.
pub open spec fn passes_on(e: FoldedElement) -> bool {
    !(e.visibility is Private) || e.is_lsb
}

/// What an ancestor of the given kind passes on of a member to `owner`.
pub struct Transfer {
    pub kind: ClassishKind,
    pub owner: u64,
}

impl EntryMap<FoldedElement, FoldedElement> for Transfer {
    open spec fn ready(&self) -> bool {
        true
    }

    open spec fn f(&self, e: FoldedElement) -> Option<FoldedElement> {
        match self.kind {
            ClassishKind::Trait => Some(chown(e, self.owner)),
            ClassishKind::Class(_) | ClassishKind::Interface => if passes_on(e) {
                Some(e)
            } else {
                None
            },
            ClassishKind::Enum | ClassishKind::EnumClass(_) => Some(e),
        }
    }

    fn apply(&self, e: &FoldedElement) -> (r: Option<FoldedElement>) {
        match self.kind {
            ClassishKind::Trait => {
                let visibility = match e.visibility {
                    Visibility::Private(_) => Visibility::Private(self.owner),
                    Visibility::Protected(o) => if !e.is_synthesized {
                        Visibility::Protected(self.owner)
                    } else {
                        Visibility::Protected(o)
                    },
                    v => v,
                };
                Some(FoldedElement { visibility, ..*e })
            },
            ClassishKind::Class(_) | ClassishKind::Interface => {
                let private = match e.visibility {
                    Visibility::Private(_) => true,
                    _ => false,
                };
                if !private || e.is_lsb {
                    Some(*e)
                } else {
                    None
                }
            },
            ClassishKind::Enum | ClassishKind::EnumClass(_) => Some(*e),
        }
    }
}

/// Keeps the properties that are XHP attributes.
pub struct XhpOnly;

impl EntryMap<FoldedElement, FoldedElement> for XhpOnly {
    open spec fn ready(&self) -> bool {
        true
    }

    open spec fn f(&self, e: FoldedElement) -> Option<FoldedElement> {
        if e.is_xhp_attr {
            Some(e)
        } else {
            None
        }
    }

    fn apply(&self, e: &FoldedElement) -> (r: Option<FoldedElement>) {
        if e.is_xhp_attr {
            Some(*e)
        } else {
            None
        }
    }
}

/// Applies a substitution to constants and type constants.
pub struct Instantiate<'a> {
    pub sig: &'a NameMap<DeclTy>,
}

impl<'a> EntryMap<ClassConst, ClassConst> for Instantiate<'a> {
    open spec fn ready(&self) -> bool {
        self.sig.wf()
    }

    open spec fn f(&self, c: ClassConst) -> Option<ClassConst> {
        Some(subst_class_const(self.sig@, c))
    }

    fn apply(&self, c: &ClassConst) -> (r: Option<ClassConst>) {
        Some(c.instantiate(self.sig))
    }
}

impl<'a> EntryMap<TypeConst, TypeConst> for Instantiate<'a> {
    open spec fn ready(&self) -> bool {
        self.sig.wf()
    }

    open spec fn f(&self, c: TypeConst) -> Option<TypeConst> {
        Some(subst_type_const(self.sig@, c))
    }

    fn apply(&self, c: &TypeConst) -> (r: Option<TypeConst>) {
        Some(c.instantiate(self.sig))
    }
}

} // verus!

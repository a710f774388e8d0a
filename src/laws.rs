//! Properties of the fold that hold for all inputs.
use crate::decl::{
    coalesce_spec, ClassConst, ClassishKind, ConsistentKind, DeclTy, FoldedClass, FoldedElement, ShallowClass, SubstContext, TypeConst, Visibility,
};
use crate::folder::{
    ancestor_of, dependencies_backward, dependencies_forward, dependencies_of, dependency_of, enum_includes, fold_backward, inherited_of, members_from_class, parent_tys,
};
use crate::inherit::{
    absorb, empty_model, fold_in, ConstRule, Inherited, InheritedModel, MergeRule, MethodRule, SubstRule,
    TypeConstRule,
};
use crate::name_map::{keys, lemma_put_lookup, lookup};
use crate::select::{selected, EntryMap, Transfer};
use std::sync::Arc;
use vstd::prelude::*;

verus! {

/// Absorbing one entry under `k` leaves under `k` what the rule picks from
/// the old value and the new one, or the new one where there was none.
pub proof fn lemma_absorb_one<V, R: MergeRule<V>>(acc: Seq<(u64, V)>, k: u64, v: V)
    requires
        keys(acc).no_duplicates(),
    ensures
        lookup(fold_in::<V, R>(acc, seq![(k, v)]), k) == Some(
            match lookup(acc, k) {
                Some(o) => R::pick(o, v),
                None => v,
            },
        ),
{
    assert(seq![(k, v)].drop_last() =~= Seq::<(u64, V)>::empty());
    assert(fold_in::<V, R>(acc, Seq::<(u64, V)>::empty()) == acc);
    assert(seq![(k, v)].last() == (k, v));
    lemma_put_lookup(
        acc,
        k,
        match lookup(acc, k) {
            Some(o) => R::pick(o, v),
            None => v,
        },
    );
}

/// Two folds of the same declaration over the same ancestors give the same
/// members, in the same order.
pub proof fn law_fold_is_deterministic(
    child: ShallowClass,
    parents: Seq<(u64, Arc<FoldedClass>)>,
    a: Inherited,
    b: Inherited,
)
    requires
        a@ == inherited_of(child, parents),
        b@ == inherited_of(child, parents),
    ensures
        a@ == b@,
{
}

/// A concrete method is never replaced by an abstract one of the same name.
pub proof fn law_concrete_method_kept(acc: Seq<(u64, FoldedElement)>, k: u64, old: FoldedElement, new: FoldedElement)
    requires
        keys(acc).no_duplicates(),
        lookup(acc, k) == Some(old),
        !old.is_abstract,
        new.is_abstract,
    ensures
        lookup(fold_in::<FoldedElement, MethodRule>(acc, seq![(k, new)]), k) == Some(old),
{
    lemma_absorb_one::<FoldedElement, MethodRule>(acc, k, new);
}

/// Parents are absorbed last declared first: of two, the second one's
/// members are absorbed before the first one's.
pub proof fn law_parents_absorbed_in_reverse(
    acc: InheritedModel,
    child: u64,
    parents: Seq<(u64, Arc<FoldedClass>)>,
    first: DeclTy,
    second: DeclTy,
)
    ensures
        fold_backward(acc, child, parents, seq![first, second]) == absorb(
            absorb(acc, members_from_class(child, parents, second)),
            members_from_class(child, parents, first),
        ),
{
    let a1 = absorb(acc, members_from_class(child, parents, second));
    let a2 = absorb(a1, members_from_class(child, parents, first));
    assert(seq![first, second].drop_last() =~= seq![first]);
    assert(seq![first].drop_last() =~= Seq::<DeclTy>::empty());
    assert(fold_backward(a2, child, parents, Seq::<DeclTy>::empty()) == a2);
    assert(fold_backward(a1, child, parents, seq![first]) == a2);
}

/// A synthesized method never replaces a declared one of the same
/// abstractness, whichever comes first; a declared one replaces a synthesized
/// one and is then no superfluous override.
pub proof fn law_synthesized_never_overrides_declared(
    acc: Seq<(u64, FoldedElement)>,
    k: u64,
    old: FoldedElement,
    new: FoldedElement,
)
    requires
        keys(acc).no_duplicates(),
        lookup(acc, k) == Some(old),
        old.is_abstract == new.is_abstract,
        old.is_synthesized != new.is_synthesized,
    ensures
        new.is_synthesized ==> lookup(fold_in::<FoldedElement, MethodRule>(acc, seq![(k, new)]), k) == Some(old),
        old.is_synthesized ==> lookup(fold_in::<FoldedElement, MethodRule>(acc, seq![(k, new)]), k) == Some(
            FoldedElement { is_superfluous_override: false, ..new },
        ),
{
    lemma_absorb_one::<FoldedElement, MethodRule>(acc, k, new);
}

/// A substitution context that came only through a required extends gives
/// way to a genuine one, and a genuine one stays, whichever comes first.
pub proof fn law_genuine_substitution_wins(acc: Seq<(u64, SubstContext)>, k: u64, old: SubstContext, new: SubstContext)
    requires
        keys(acc).no_duplicates(),
        lookup(acc, k) == Some(old),
        old.from_req_extends != new.from_req_extends,
    ensures
        lookup(fold_in::<SubstContext, SubstRule>(acc, seq![(k, new)]), k) == Some(
            if new.from_req_extends { old } else { new },
        ),
{
    lemma_absorb_one::<SubstContext, SubstRule>(acc, k, new);
}

/// A synthesized constant never replaces a declared one, and an abstract
/// constant never replaces a concrete one.
pub proof fn law_constant_rules(acc: Seq<(u64, ClassConst)>, k: u64, old: ClassConst, new: ClassConst)
    requires
        keys(acc).no_duplicates(),
        lookup(acc, k) == Some(old),
    ensures
        (new.is_synthesized && !old.is_synthesized) ==> lookup(fold_in::<ClassConst, ConstRule>(acc, seq![(k, new)]), k)
            == Some(old),
        (new.kind is Abstract && old.kind is Concrete) ==> lookup(fold_in::<ClassConst, ConstRule>(acc, seq![(k, new)]), k)
            == Some(old),
        (!new.is_synthesized || old.is_synthesized) && !(new.kind is Abstract && old.kind is Concrete) ==> lookup(
            fold_in::<ClassConst, ConstRule>(acc, seq![(k, new)]),
            k,
        ) == Some(new),
{
    lemma_absorb_one::<ClassConst, ConstRule>(acc, k, new);
}

/// A type constant is enforceable after a merge exactly when either side was.
pub proof fn law_enforceability_sticks(acc: Seq<(u64, TypeConst)>, k: u64, old: TypeConst, new: TypeConst)
    requires
        keys(acc).no_duplicates(),
        lookup(acc, k) == Some(old),
    ensures
        lookup(fold_in::<TypeConst, TypeConstRule>(acc, seq![(k, new)]), k) matches Some(r) && r.is_enforceable() == (
        old.is_enforceable() || new.is_enforceable()),
{
    lemma_absorb_one::<TypeConst, TypeConstRule>(acc, k, new);
}

/// Of an abstract type constant with a default and one without, the one with
/// the default gives the definition, whichever comes first.
pub proof fn law_default_takes_priority(acc: Seq<(u64, TypeConst)>, k: u64, old: TypeConst, new: TypeConst)
    requires
        keys(acc).no_duplicates(),
        lookup(acc, k) == Some(old),
        old.kind is Abstract,
        new.kind is Abstract,
        old.kind->Abstract_default is Some != new.kind->Abstract_default is Some,
    ensures
        lookup(fold_in::<TypeConst, TypeConstRule>(acc, seq![(k, new)]), k) matches Some(r) && r.kind == (
        if old.kind->Abstract_default is Some { old.kind } else { new.kind }),
{
    lemma_absorb_one::<TypeConst, TypeConstRule>(acc, k, new);
}

proof fn lemma_selected_from<A, B, T: EntryMap<A, B>>(t: T, s: Seq<(u64, A)>)
    ensures
        forall|j: int|
            0 <= j < selected(t, s).len() ==> exists|i: int|
                0 <= i < s.len() && t.f(s[i].1) == Some(#[trigger] selected(t, s)[j].1),
    decreases s.len(),
{
    if s.len() > 0 {
        lemma_selected_from(t, s.drop_last());
        let prev = selected(t, s.drop_last());
        assert forall|j: int| 0 <= j < selected(t, s).len() implies exists|i: int|
            0 <= i < s.len() && t.f(s[i].1) == Some(#[trigger] selected(t, s)[j].1) by {
            if j < prev.len() {
                assert(selected(t, s)[j] == prev[j]);
                let i = choose|i: int| 0 <= i < s.drop_last().len() && t.f(s.drop_last()[i].1) == Some(#[trigger] prev[j].1);
                assert(s[i] == s.drop_last()[i]);
            } else {
                assert(t.f(s[s.len() - 1].1) == Some(selected(t, s)[j].1));
            }
        }
    }
}

/// Every private member that a used trait passes on is owned by the class
/// that uses it.
pub proof fn law_trait_private_members_owned_by_child(
    child: u64,
    parents: Seq<(u64, Arc<FoldedClass>)>,
    ty: DeclTy,
)
    requires
        ancestor_of(parents, ty) matches Some(p) && p.kind == ClassishKind::Trait,
    ensures
        forall|j: int|
            0 <= j < members_from_class(child, parents, ty).props.len() && (
            #[trigger] members_from_class(child, parents, ty).props[j]).1.visibility is Private
                ==> members_from_class(child, parents, ty).props[j].1.visibility == Visibility::Private(child),
        forall|j: int|
            0 <= j < members_from_class(child, parents, ty).methods.len() && (
            #[trigger] members_from_class(child, parents, ty).methods[j]).1.visibility is Private
                ==> members_from_class(child, parents, ty).methods[j].1.visibility == Visibility::Private(child),
{
    let p = ancestor_of(parents, ty)->Some_0;
    let t = Transfer { kind: p.kind, owner: child };
    lemma_selected_from(t, p.props@);
    lemma_selected_from(t, p.methods@);
}

/// A declaration with no relationship of any kind inherits nothing: every
/// map is empty, the constructor is absent and inconsistent, and no
/// dependency is recorded.
pub proof fn law_no_relationships_inherit_nothing(child: ShallowClass, parents: Seq<(u64, Arc<FoldedClass>)>)
    requires
        child.extends@.len() == 0,
        child.implements@.len() == 0,
        child.uses@.len() == 0,
        child.req_extends@.len() == 0,
        child.req_implements@.len() == 0,
        child.xhp_attr_uses@.len() == 0,
        enum_includes(child).len() == 0,
    ensures
        inherited_of(child, parents) == empty_model(),
        dependencies_of(child, parents).len() == 0,
{
    assert(parent_tys(child).len() == 0);
}

/// Coalescing constructor consistencies is commutative and associative, so
/// the order in which ancestors' constructors are folded does not change it.
pub proof fn law_coalesce_commutative_associative(a: ConsistentKind, b: ConsistentKind, c: ConsistentKind)
    ensures
        coalesce_spec(a, b) == coalesce_spec(b, a),
        coalesce_spec(coalesce_spec(a, b), c) == coalesce_spec(a, coalesce_spec(b, c)),
{
}

/// A declaration whose only relationship is one parent records one
/// constructor dependency on that parent if it is found and not builtin, and
/// none otherwise.
pub proof fn law_one_parent_dependency(child: ShallowClass, parents: Seq<(u64, Arc<FoldedClass>)>, ty: DeclTy)
    requires
        parent_tys(child) == seq![ty],
        child.req_extends@.len() == 0,
        child.uses@.len() == 0,
    ensures
        dependencies_of(child, parents) == (match ancestor_of(parents, ty) {
            Some(p) => if p.is_builtin {
                Seq::<u64>::empty()
            } else {
                seq![p.name]
            },
            None => Seq::<u64>::empty(),
        }),
{
    assert(seq![ty].drop_last() =~= Seq::<DeclTy>::empty());
    assert(seq![ty].last() == ty);
    assert(dependencies_backward(parents, Seq::<DeclTy>::empty()) == Seq::<u64>::empty());
    assert(dependencies_backward(parents, seq![ty]) =~= dependency_of(parents, ty));
    assert(dependencies_forward(parents, child.req_extends@) == Seq::<u64>::empty());
    assert(dependencies_forward(parents, child.uses@) == Seq::<u64>::empty());
    assert(dependencies_of(child, parents) =~= dependency_of(parents, ty));
}

} // verus!

//! Folding the members that one class-like declaration inherits from its
//! ancestors, in a fixed order of precedence.
use crate::decl::{
    class_ref, make_subst, subst_class_const, subst_from, subst_of, subst_type_const, Abstraction, ClassConst,
    ClassishKind, DeclTy, FoldedClass, ShallowClass, Subst, SubstContext, TypeConst,
};
use crate::inherit::{absorb, empty_model, synthesize_model, Inherited, InheritedModel};
use crate::name_map::{lemma_index_in, lookup, put, NameMap};
use crate::select::{select, selected, Instantiate, Transfer, XhpOnly};
use std::sync::Arc;
use vstd::prelude::*;

verus! {

/// A declaration that depends on others.
#[derive(Clone, Copy, Debug, PartialEq, Eq)]
pub enum DeclName {
    Type(u64),
}

/// What a declaration depends on.
#[derive(Clone, Copy, Debug, PartialEq, Eq)]
pub enum DependencyName {
    Constructor(u64),
}

/// A failure to record a dependency.
#[derive(Debug, PartialEq, Eq)]
pub struct Error {
    pub message: String,
}

/// Records dependencies between declarations for incremental recomputation.
pub trait DependencyRegistrar {
    fn add_dependency(&mut self, dependent: DeclName, dependency: DependencyName) -> Result<(), Error>;
}

/// Each ancestor is well formed.
pub open spec fn ancestors_wf(parents: Seq<(u64, Arc<FoldedClass>)>) -> bool {
    forall|i: int| 0 <= i < parents.len() ==> (*parents[i].1).wf()
}

/// The ancestor that a type refers to, if it is a class type whose name the
/// ancestors hold.
pub open spec fn ancestor_of(parents: Seq<(u64, Arc<FoldedClass>)>, ty: DeclTy) -> Option<FoldedClass> {
    match class_ref(ty) {
        Some((c, _)) => match lookup(parents, c) {
            Some(p) => Some(*p),
            None => None,
        },
        None => None,
    }
}

/// The substitution from the ancestor's generic parameters to the type's
/// arguments.
pub open spec fn sig_of(p: FoldedClass, ty: DeclTy) -> Seq<(u64, DeclTy)> {
    subst_of(p.tparams@, class_ref(ty)->Some_0.1)
}

/// What a whole ancestor passes on to `child`.
pub open spec fn members_from_class(child: u64, parents: Seq<(u64, Arc<FoldedClass>)>, ty: DeclTy) -> InheritedModel {
    match ancestor_of(parents, ty) {
        None => empty_model(),
        Some(p) => {
            let sig = sig_of(p, ty);
            let t = Transfer { kind: p.kind, owner: child };
            InheritedModel {
                substs: put(
                    p.substs@,
                    p.name,
                    SubstContext { subst: subst_from(sig), class_context: child, from_req_extends: false },
                ),
                props: selected(t, p.props@),
                static_props: selected(t, p.static_props@),
                methods: selected(t, p.methods@),
                static_methods: selected(t, p.static_methods@),
                constructor: p.constructor,
                consts: subst_consts(sig, p.consts@),
                type_consts: subst_type_consts(sig, p.type_consts@),
            }
        },
    }
}

pub open spec fn subst_consts(sig: Seq<(u64, DeclTy)>, s: Seq<(u64, ClassConst)>) -> Seq<(u64, ClassConst)> {
    s.map_values(|e: (u64, ClassConst)| (e.0, subst_class_const(sig, e.1)))
}

pub open spec fn subst_type_consts(sig: Seq<(u64, DeclTy)>, s: Seq<(u64, TypeConst)>) -> Seq<(u64, TypeConst)> {
    s.map_values(|e: (u64, TypeConst)| (e.0, subst_type_const(sig, e.1)))
}

/// The constants and type constants of an ancestor, substituted.
pub open spec fn class_constants_from_class(parents: Seq<(u64, Arc<FoldedClass>)>, ty: DeclTy) -> InheritedModel {
    match ancestor_of(parents, ty) {
        None => empty_model(),
        Some(p) => InheritedModel {
            consts: subst_consts(sig_of(p, ty), p.consts@),
            type_consts: subst_type_consts(sig_of(p, ty), p.type_consts@),
            ..empty_model()
        },
    }
}

/// The properties of an ancestor that are XHP attributes.
pub open spec fn xhp_attrs_from_class(parents: Seq<(u64, Arc<FoldedClass>)>, ty: DeclTy) -> InheritedModel {
    match ancestor_of(parents, ty) {
        None => empty_model(),
        Some(p) => InheritedModel { props: selected(XhpOnly, p.props@), ..empty_model() },
    }
}

/// How a relationship contributes.
pub enum Extraction {
    Members,
    Required,
    Constants,
    XhpAttrs,
}

pub open spec fn contribution(x: Extraction, child: u64, parents: Seq<(u64, Arc<FoldedClass>)>, ty: DeclTy) -> InheritedModel {
    match x {
        Extraction::Members => members_from_class(child, parents, ty),
        Extraction::Required => synthesize_model(members_from_class(child, parents, ty)),
        Extraction::Constants => class_constants_from_class(parents, ty),
        Extraction::XhpAttrs => xhp_attrs_from_class(parents, ty),
    }
}

/// `acc` after absorbing the contribution of each type of `tys`, first to last.
pub open spec fn fold_forward(
    acc: InheritedModel,
    x: Extraction,
    child: u64,
    parents: Seq<(u64, Arc<FoldedClass>)>,
    tys: Seq<DeclTy>,
) -> InheritedModel
    decreases tys.len(),
{
    if tys.len() == 0 {
        acc
    } else {
        absorb(fold_forward(acc, x, child, parents, tys.drop_last()), contribution(x, child, parents, tys.last()))
    }
}

/// `acc` after absorbing the contribution of each type of `tys`, last to first.
pub open spec fn fold_backward(
    acc: InheritedModel,
    child: u64,
    parents: Seq<(u64, Arc<FoldedClass>)>,
    tys: Seq<DeclTy>,
) -> InheritedModel
    decreases tys.len(),
{
    if tys.len() == 0 {
        acc
    } else {
        fold_backward(absorb(acc, members_from_class(child, parents, tys.last())), child, parents, tys.drop_last())
    }
}

/// The relationships whose members a declaration inherits as from parents.
pub open spec fn parent_tys(child: ShallowClass) -> Seq<DeclTy> {
    match child.kind {
        ClassishKind::Class(Abstraction::Abstract) => child.implements@ + child.extends@,
        ClassishKind::Trait => child.implements@ + child.extends@ + child.req_implements@,
        _ => child.extends@,
    }
}

pub open spec fn enum_includes(child: ShallowClass) -> Seq<DeclTy> {
    match child.enum_type {
        Some(et) => et.includes@,
        None => Seq::empty(),
    }
}

/// Everything `child` inherits: parents (last declared first), then required
/// extends as synthesized members, traits, XHP attribute donors, and the
/// constants of required interfaces, included enums and implemented
/// interfaces.
pub open spec fn inherited_of(child: ShallowClass, parents: Seq<(u64, Arc<FoldedClass>)>) -> InheritedModel {
    let n = child.name;
    let m1 = fold_backward(empty_model(), n, parents, parent_tys(child));
    let m2 = fold_forward(m1, Extraction::Required, n, parents, child.req_extends@);
    let m3 = fold_forward(m2, Extraction::Members, n, parents, child.uses@);
    let m4 = fold_forward(m3, Extraction::XhpAttrs, n, parents, child.xhp_attr_uses@);
    let m5 = fold_forward(m4, Extraction::Constants, n, parents, child.req_implements@);
    let m6 = fold_forward(m5, Extraction::Constants, n, parents, enum_includes(child));
    fold_forward(m6, Extraction::Constants, n, parents, child.implements@)
}

/// The constructor dependency that inheriting the members of `ty` records: on
/// an ancestor that is found and is not builtin.
pub open spec fn dependency_of(parents: Seq<(u64, Arc<FoldedClass>)>, ty: DeclTy) -> Seq<u64> {
    match ancestor_of(parents, ty) {
        Some(p) => if p.is_builtin {
            Seq::empty()
        } else {
            seq![p.name]
        },
        None => Seq::empty(),
    }
}

/// The dependencies of the types of `tys`, first to last.
pub open spec fn dependencies_forward(parents: Seq<(u64, Arc<FoldedClass>)>, tys: Seq<DeclTy>) -> Seq<u64>
    decreases tys.len(),
{
    if tys.len() == 0 {
        Seq::empty()
    } else {
        dependencies_forward(parents, tys.drop_last()) + dependency_of(parents, tys.last())
    }
}

/// The dependencies of the types of `tys`, last to first.
pub open spec fn dependencies_backward(parents: Seq<(u64, Arc<FoldedClass>)>, tys: Seq<DeclTy>) -> Seq<u64>
    decreases tys.len(),
{
    if tys.len() == 0 {
        Seq::empty()
    } else {
        dependency_of(parents, tys.last()) + dependencies_backward(parents, tys.drop_last())
    }
}

/// The ancestors whose constructors `child` depends on, in the order in which
/// their members are folded.
pub open spec fn dependencies_of(child: ShallowClass, parents: Seq<(u64, Arc<FoldedClass>)>) -> Seq<u64> {
    dependencies_backward(parents, parent_tys(child)) + dependencies_forward(parents, child.req_extends@)
        + dependencies_forward(parents, child.uses@)
}

proof fn lemma_instantiated_consts(inst: Instantiate, s: Seq<(u64, ClassConst)>)
    ensures
        selected(inst, s) == subst_consts(inst.sig@, s),
    decreases s.len(),
{
    if s.len() > 0 {
        lemma_instantiated_consts(inst, s.drop_last());
        assert(subst_consts(inst.sig@, s).drop_last() =~= subst_consts(inst.sig@, s.drop_last()));
    }
    assert(selected(inst, s) =~= subst_consts(inst.sig@, s));
}

proof fn lemma_instantiated_type_consts(inst: Instantiate, s: Seq<(u64, TypeConst)>)
    ensures
        selected(inst, s) == subst_type_consts(inst.sig@, s),
    decreases s.len(),
{
    if s.len() > 0 {
        lemma_instantiated_type_consts(inst, s.drop_last());
        assert(subst_type_consts(inst.sig@, s).drop_last() =~= subst_type_consts(inst.sig@, s.drop_last()));
    }
    assert(selected(inst, s) =~= subst_type_consts(inst.sig@, s));
}

/// Folding `a + b` last to first is folding `b`, then `a`.
proof fn lemma_fold_backward_concat(
    acc: InheritedModel,
    child: u64,
    parents: Seq<(u64, Arc<FoldedClass>)>,
    a: Seq<DeclTy>,
    b: Seq<DeclTy>,
)
    ensures
        fold_backward(acc, child, parents, a + b) == fold_backward(
            fold_backward(acc, child, parents, b),
            child,
            parents,
            a,
        ),
        dependencies_backward(parents, a + b) == dependencies_backward(parents, b) + dependencies_backward(parents, a),
    decreases b.len(),
{
    if b.len() == 0 {
        assert(a + b =~= a);
        assert(dependencies_backward(parents, b) + dependencies_backward(parents, a) =~= dependencies_backward(parents, a));
    } else {
        assert((a + b).drop_last() =~= a + b.drop_last());
        assert((a + b).last() == b.last());
        lemma_fold_backward_concat(
            absorb(acc, members_from_class(child, parents, b.last())),
            child,
            parents,
            a,
            b.drop_last(),
        );
        assert(dependencies_backward(parents, a + b) =~= dependency_of(parents, b.last()) + (
        dependencies_backward(parents, b.drop_last()) + dependencies_backward(parents, a)));
    }
}

/// The ancestor found under a name is well formed.
proof fn lemma_found_wf(parents: Seq<(u64, Arc<FoldedClass>)>, c: u64)
    requires
        ancestors_wf(parents),
        lookup(parents, c) is Some,
    ensures
        (*lookup(parents, c)->Some_0).wf(),
{
    lemma_index_in(parents, c);
}

/// Folds the members of one declaration, recording the constructor
/// dependencies met on the way.
pub struct MemberFolder<'a> {
    pub child: &'a ShallowClass,
    pub parents: &'a NameMap<Arc<FoldedClass>>,
    pub members: Inherited,
    pub dependencies: Vec<u64>,
}

impl<'a> MemberFolder<'a> {
    pub open spec fn ready(&self) -> bool {
        &&& self.parents.wf()
        &&& ancestors_wf(self.parents@)
        &&& self.members.wf()
    }

    /// What the ancestor that `ty` refers to passes on to the child.
    pub fn members_from_class(&mut self, ty: &DeclTy) -> (r: Inherited)
        requires
            old(self).ready(),
        ensures
            final(self).ready(),
            final(self).child == old(self).child,
            final(self).parents == old(self).parents,
            final(self).members == old(self).members,
            final(self).dependencies@ == old(self).dependencies@ + dependency_of(old(self).parents@, *ty),
            r.wf(),
            r@ == members_from_class(old(self).child.name, old(self).parents@, *ty),
    {
        let (c, args) = match ty.unwrap_class_type() {
            Some(x) => x,
            None => {
                assert(self.dependencies@ =~= old(self).dependencies@ + dependency_of(self.parents@, *ty));
                return Inherited::default();
            },
        };
        let p: &FoldedClass = match self.parents.get(c) {
            Some(p) => &**p,
            None => {
                assert(self.dependencies@ =~= old(self).dependencies@ + dependency_of(self.parents@, *ty));
                return Inherited::default();
            },
        };
        proof {
            lemma_found_wf(self.parents@, c);
        }
        let sig = make_subst(&p.tparams, args);
        let inst = Instantiate { sig: &sig };
        let consts = select(&inst, &p.consts);
        let type_consts = select(&inst, &p.type_consts);
        proof {
            lemma_instantiated_consts(inst, p.consts@);
            lemma_instantiated_type_consts(inst, p.type_consts@);
        }
        let t = Transfer { kind: p.kind, owner: self.child.name };
        let props = select(&t, &p.props);
        let static_props = select(&t, &p.static_props);
        let methods = select(&t, &p.methods);
        let static_methods = select(&t, &p.static_methods);
        let mut substs = p.substs.duplicate_map();
        substs.insert(
            p.name,
            SubstContext { subst: Subst::from_map(&sig), class_context: self.child.name, from_req_extends: false },
        );
        if !p.is_builtin {
            self.dependencies.push(p.name);
        }
        assert(self.dependencies@ =~= old(self).dependencies@ + dependency_of(self.parents@, *ty));
        Inherited {
            substs,
            props,
            static_props,
            methods,
            static_methods,
            constructor: p.constructor,
            consts,
            type_consts,
        }
    }

    /// The constants and type constants of the ancestor that `ty` refers to.
    pub fn class_constants_from_class(&self, ty: &DeclTy) -> (r: Inherited)
        requires
            self.ready(),
        ensures
            r.wf(),
            r@ == class_constants_from_class(self.parents@, *ty),
    {
        let (c, args) = match ty.unwrap_class_type() {
            Some(x) => x,
            None => return Inherited::default(),
        };
        let p: &FoldedClass = match self.parents.get(c) {
            Some(p) => &**p,
            None => return Inherited::default(),
        };
        proof {
            lemma_found_wf(self.parents@, c);
        }
        let sig = make_subst(&p.tparams, args);
        let inst = Instantiate { sig: &sig };
        let mut r = Inherited::default();
        r.consts = select(&inst, &p.consts);
        r.type_consts = select(&inst, &p.type_consts);
        proof {
            lemma_instantiated_consts(inst, p.consts@);
            lemma_instantiated_type_consts(inst, p.type_consts@);
        }
        r
    }

    /// The properties that are XHP attributes of the ancestor that `ty`
    /// refers to.
    pub fn xhp_attrs_from_class(&self, ty: &DeclTy) -> (r: Inherited)
        requires
            self.ready(),
        ensures
            r.wf(),
            r@ == xhp_attrs_from_class(self.parents@, *ty),
    {
        let c = match ty.unwrap_class_type() {
            Some((c, _)) => c,
            None => return Inherited::default(),
        };
        let p: &FoldedClass = match self.parents.get(c) {
            Some(p) => &**p,
            None => return Inherited::default(),
        };
        proof {
            lemma_found_wf(self.parents@, c);
        }
        let mut r = Inherited::default();
        r.props = select(&XhpOnly, &p.props);
        r
    }

    /// Absorbs the members of the ancestors of `tys`, last to first.
    fn fold_backward(&mut self, tys: &Vec<DeclTy>)
        requires
            old(self).ready(),
        ensures
            final(self).ready(),
            final(self).child == old(self).child,
            final(self).parents == old(self).parents,
            final(self).members@ == fold_backward(old(self).members@, old(self).child.name, old(self).parents@, tys@),
            final(self).dependencies@ == old(self).dependencies@ + dependencies_backward(old(self).parents@, tys@),
    {
        let mut i: usize = tys.len();
        assert(tys@.take(i as int) =~= tys@);
        assert(self.dependencies@ =~= old(self).dependencies@ + Seq::<u64>::empty());
        while i > 0
            invariant
                i <= tys@.len(),
                self.ready(),
                self.child == old(self).child,
                self.parents == old(self).parents,
                fold_backward(self.members@, self.child.name, self.parents@, tys@.take(i as int)) == fold_backward(
                    old(self).members@,
                    self.child.name,
                    self.parents@,
                    tys@,
                ),
                self.dependencies@ + dependencies_backward(self.parents@, tys@.take(i as int))
                    == old(self).dependencies@ + dependencies_backward(self.parents@, tys@),
            decreases i,
        {
            assert(tys@.take(i as int).drop_last() =~= tys@.take(i - 1));
            let ghost before = self.dependencies@;
            let inherited = self.members_from_class(&tys[i - 1]);
            self.members.add_inherited(inherited);
            i = i - 1;
            assert(self.dependencies@ + dependencies_backward(self.parents@, tys@.take(i as int)) =~= before
                + dependencies_backward(self.parents@, tys@.take(i + 1)));
        }
        assert(self.dependencies@ + Seq::<u64>::empty() =~= self.dependencies@);
    }

    /// Absorbs the contributions of the ancestors of `tys`, first to last.
    fn fold_forward(&mut self, x: Extraction, tys: &Vec<DeclTy>)
        requires
            old(self).ready(),
        ensures
            final(self).ready(),
            final(self).child == old(self).child,
            final(self).parents == old(self).parents,
            final(self).members@ == fold_forward(old(self).members@, x, old(self).child.name, old(self).parents@, tys@),
            final(self).dependencies@ == old(self).dependencies@ + (if x is Members || x is Required {
                dependencies_forward(old(self).parents@, tys@)
            } else {
                Seq::empty()
            }),
    {
        let mut i: usize = 0;
        assert(self.dependencies@ =~= old(self).dependencies@ + Seq::<u64>::empty());
        while i < tys.len()
            invariant
                i <= tys@.len(),
                self.ready(),
                self.child == old(self).child,
                self.parents == old(self).parents,
                self.members@ == fold_forward(old(self).members@, x, self.child.name, self.parents@, tys@.take(i as int)),
                self.dependencies@ == old(self).dependencies@ + (if x is Members || x is Required {
                    dependencies_forward(self.parents@, tys@.take(i as int))
                } else {
                    Seq::empty()
                }),
            decreases tys@.len() - i,
        {
            assert(tys@.take(i + 1).drop_last() =~= tys@.take(i as int));
            let ty = &tys[i];
            let inherited = match x {
                Extraction::Members => self.members_from_class(ty),
                Extraction::Required => {
                    let mut m = self.members_from_class(ty);
                    m.mark_as_synthesized();
                    m
                },
                Extraction::Constants => self.class_constants_from_class(ty),
                Extraction::XhpAttrs => self.xhp_attrs_from_class(ty),
            };
            self.members.add_inherited(inherited);
            i = i + 1;
            assert(self.dependencies@ =~= old(self).dependencies@ + (if x is Members || x is Required {
                dependencies_forward(self.parents@, tys@.take(i as int))
            } else {
                Seq::empty()
            }));
        }
        assert(tys@.take(i as int) =~= tys@);
    }

    /// Members of extended classes and, for abstract classes and traits, of
    /// implemented interfaces (and, for traits, required interfaces), the
    /// last declared first.
    pub fn add_from_parents(&mut self)
        requires
            old(self).ready(),
        ensures
            final(self).ready(),
            final(self).child == old(self).child,
            final(self).parents == old(self).parents,
            final(self).members@ == fold_backward(old(self).members@, old(self).child.name, old(self).parents@, parent_tys(*old(self).child)),
            final(self).dependencies@ == old(self).dependencies@ + dependencies_backward(old(self).parents@, parent_tys(*old(self).child)),
    {
        let child = self.child;
        let ghost acc = self.members@;
        let ghost n = child.name;
        let ghost ps = self.parents@;
        match child.kind {
            ClassishKind::Class(Abstraction::Abstract) => {
                proof {
                    lemma_fold_backward_concat(acc, n, ps, child.implements@, child.extends@);
                }
                self.fold_backward(&child.extends);
                self.fold_backward(&child.implements);
            },
            ClassishKind::Trait => {
                proof {
                    lemma_fold_backward_concat(acc, n, ps, child.implements@ + child.extends@, child.req_implements@);
                    lemma_fold_backward_concat(
                        fold_backward(acc, n, ps, child.req_implements@),
                        n,
                        ps,
                        child.implements@,
                        child.extends@,
                    );
                }
                self.fold_backward(&child.req_implements);
                self.fold_backward(&child.extends);
                self.fold_backward(&child.implements);
            },
            _ => {
                self.fold_backward(&child.extends);
            },
        }
        assert(self.dependencies@ =~= old(self).dependencies@ + dependencies_backward(ps, parent_tys(*child)));
    }
}

impl<'a> MemberFolder<'a> {
    /// Members of required extends, marked synthesized.
    pub fn add_from_requirements(&mut self)
        requires
            old(self).ready(),
        ensures
            final(self).ready(),
            final(self).child == old(self).child,
            final(self).parents == old(self).parents,
            final(self).members@ == fold_forward(old(self).members@, Extraction::Required, old(self).child.name, old(self).parents@, old(self).child.req_extends@),
            final(self).dependencies@ == old(self).dependencies@ + dependencies_forward(old(self).parents@, old(self).child.req_extends@),
    {
        let child = self.child;
        self.fold_forward(Extraction::Required, &child.req_extends);
    }

    /// Members of used traits.
    pub fn add_from_traits(&mut self)
        requires
            old(self).ready(),
        ensures
            final(self).ready(),
            final(self).child == old(self).child,
            final(self).parents == old(self).parents,
            final(self).members@ == fold_forward(old(self).members@, Extraction::Members, old(self).child.name, old(self).parents@, old(self).child.uses@),
            final(self).dependencies@ == old(self).dependencies@ + dependencies_forward(old(self).parents@, old(self).child.uses@),
    {
        let child = self.child;
        self.fold_forward(Extraction::Members, &child.uses);
    }

    /// XHP attributes of attribute donors.
    pub fn add_from_xhp_attr_uses(&mut self)
        requires
            old(self).ready(),
        ensures
            final(self).ready(),
            final(self).child == old(self).child,
            final(self).parents == old(self).parents,
            final(self).members@ == fold_forward(old(self).members@, Extraction::XhpAttrs, old(self).child.name, old(self).parents@, old(self).child.xhp_attr_uses@),
            final(self).dependencies@ == old(self).dependencies@ + Seq::empty(),
    {
        let child = self.child;
        self.fold_forward(Extraction::XhpAttrs, &child.xhp_attr_uses);
    }

    /// Constants of required interfaces.
    pub fn add_from_interface_constants(&mut self)
        requires
            old(self).ready(),
        ensures
            final(self).ready(),
            final(self).child == old(self).child,
            final(self).parents == old(self).parents,
            final(self).members@ == fold_forward(old(self).members@, Extraction::Constants, old(self).child.name, old(self).parents@, old(self).child.req_implements@),
            final(self).dependencies@ == old(self).dependencies@ + Seq::empty(),
    {
        let child = self.child;
        self.fold_forward(Extraction::Constants, &child.req_implements);
    }

    /// Constants of implemented interfaces.
    pub fn add_from_implements_constants(&mut self)
        requires
            old(self).ready(),
        ensures
            final(self).ready(),
            final(self).child == old(self).child,
            final(self).parents == old(self).parents,
            final(self).members@ == fold_forward(old(self).members@, Extraction::Constants, old(self).child.name, old(self).parents@, old(self).child.implements@),
            final(self).dependencies@ == old(self).dependencies@ + Seq::empty(),
    {
        let child = self.child;
        self.fold_forward(Extraction::Constants, &child.implements);
    }

    /// Constants of included enums.
    pub fn add_from_included_enums_constants(&mut self)
        requires
            old(self).ready(),
        ensures
            final(self).ready(),
            final(self).child == old(self).child,
            final(self).parents == old(self).parents,
            final(self).members@ == fold_forward(old(self).members@, Extraction::Constants, old(self).child.name, old(self).parents@, enum_includes(*old(self).child)),
            final(self).dependencies@ == old(self).dependencies@,
    {
        let child = self.child;
        match &child.enum_type {
            Some(et) => self.fold_forward(Extraction::Constants, &et.includes),
            None => {
                assert(self.dependencies@ =~= old(self).dependencies@);
            },
        }
        assert(self.dependencies@ =~= old(self).dependencies@);
    }
}

impl Inherited {
    /// Folds what `child` inherits from the ancestors in `parents`, and
    /// records with `dependency_registrar` that `child` depends on the
    /// constructor of each ancestor, not builtin, whose members it takes. The
    /// first failure to record is returned.
    pub fn make<D: DependencyRegistrar>(
        child: &ShallowClass,
        parents: &NameMap<Arc<FoldedClass>>,
        dependency_registrar: &mut D,
    ) -> (r: Result<Inherited, Error>)
        requires
            parents.wf(),
            ancestors_wf(parents@),
        ensures
            r matches Ok(v) ==> v.wf() && v@ == inherited_of(*child, parents@),
            dependencies_of(*child, parents@).len() == 0 ==> r is Ok,
    {
        let mut folder = MemberFolder { child, parents, members: Inherited::default(), dependencies: Vec::new() };
        folder.add_from_parents();
        // Members inherited from parents can be overridden by traits.
        folder.add_from_requirements();
        folder.add_from_traits();
        folder.add_from_xhp_attr_uses();
        folder.add_from_interface_constants();
        folder.add_from_included_enums_constants();
        folder.add_from_implements_constants();
        assert(folder.dependencies@ =~= dependencies_of(*child, parents@));
        let mut i: usize = 0;
        while i < folder.dependencies.len()
            invariant
                folder.dependencies@ == dependencies_of(*child, parents@),
            decreases folder.dependencies@.len() - i,
        {
            let dependency = folder.dependencies[i];
            match dependency_registrar.add_dependency(DeclName::Type(child.name), DependencyName::Constructor(dependency)) {
                Ok(()) => {},
                Err(e) => return Err(e),
            }
            i = i + 1;
        }
        Ok(folder.members)
    }
}

} // verus!

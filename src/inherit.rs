//! The aggregate of inherited members and the rules by which two aggregates
//! merge.
use crate::decl::{
    coalesce_spec, ClassConst, ClassConstKind, ConsistentKind, Constructor, Duplicate, FoldedElement,
    SubstContext, TypeConst, Typeconst,
};
use crate::name_map::{lookup, put, NameMap};
use vstd::prelude::*;

verus! {

/// How the value already stored under a name and an incoming value under the
/// same name combine.
pub trait MergeRule<V> {
    spec fn pick(old: V, new: V) -> V;

    fn resolve(old: &V, new: &V) -> (r: V)
        ensures
            r == Self::pick(*old, *new),
    ;
}

/// `acc` after absorbing each entry of `inc` in order: a new name is added
/// last, a known one takes the value that the rule picks.
pub open spec fn fold_in<V, R: MergeRule<V>>(acc: Seq<(u64, V)>, inc: Seq<(u64, V)>) -> Seq<(u64, V)>
    decreases inc.len(),
{
    if inc.len() == 0 {
        acc
    } else {
        let prev = fold_in::<V, R>(acc, inc.drop_last());
        let k = inc.last().0;
        let v = inc.last().1;
        put(
            prev,
            k,
            match lookup(prev, k) {
                Some(o) => R::pick(o, v),
                None => v,
            },
        )
    }
}

/// Absorbs each entry of `inc` into `acc` by the rule `R`.
pub fn merge_into<V: Duplicate, R: MergeRule<V>>(acc: &mut NameMap<V>, inc: &NameMap<V>)
    requires
        old(acc).wf(),
    ensures
        final(acc).wf(),
        final(acc)@ == fold_in::<V, R>(old(acc)@, inc@),
{
    let mut i: usize = 0;
    while i < inc.len()
        invariant
            0 <= i <= inc@.len(),
            acc.wf(),
            acc@ == fold_in::<V, R>(old(acc)@, inc@.take(i as int)),
        decreases inc@.len() - i,
    {
        let e = inc.entry(i);
        let k = e.0;
        let v = match acc.get(k) {
            Some(o) => R::resolve(o, &e.1),
            None => e.1.duplicate(),
        };
        acc.insert(k, v);
        assert(inc@.take(i + 1).drop_last() =~= inc@.take(i as int));
        i = i + 1;
    }
    assert(inc@.take(i as int) =~= inc@);
}

/// Whether an existing signature `old` is kept over an incoming `new` one: a
/// concrete one is never replaced by an abstract one, and where both are
/// equally abstract a declared one is never replaced by a synthesized one.
pub open spec fn keep_old_sig(new: FoldedElement, old: FoldedElement) -> bool {
    (!old.is_abstract && new.is_abstract) || (old.is_abstract == new.is_abstract && !old.is_synthesized
        && new.is_synthesized)
}

pub fn should_keep_old_sig(new: &FoldedElement, old: &FoldedElement) -> (r: bool)
    ensures
        r == keep_old_sig(*new, *old),
{
    !old.is_abstract && new.is_abstract || old.is_abstract == new.is_abstract && !old.is_synthesized
        && new.is_synthesized
}

/// Methods: the old signature stays where `keep_old_sig` says so; otherwise
/// the incoming one wins and is no longer a superfluous override.
pub struct MethodRule;

impl MergeRule<FoldedElement> for MethodRule {
    open spec fn pick(old: FoldedElement, new: FoldedElement) -> FoldedElement {
        if keep_old_sig(new, old) {
            old
        } else {
            FoldedElement { is_superfluous_override: false, ..new }
        }
    }

    fn resolve(old: &FoldedElement, new: &FoldedElement) -> (r: FoldedElement) {
        if should_keep_old_sig(new, old) {
            *old
        } else {
            FoldedElement { is_superfluous_override: false, ..*new }
        }
    }
}

/// Properties: the incoming one always wins.
pub struct PropRule;

impl MergeRule<FoldedElement> for PropRule {
    open spec fn pick(old: FoldedElement, new: FoldedElement) -> FoldedElement {
        new
    }

    fn resolve(old: &FoldedElement, new: &FoldedElement) -> (r: FoldedElement) {
        *new
    }
}

/// Substitution contexts: one that came only through a required extends
/// gives way to one that did not; otherwise the old one stays.
pub struct SubstRule;

impl MergeRule<SubstContext> for SubstRule {
    open spec fn pick(old: SubstContext, new: SubstContext) -> SubstContext {
        if old.from_req_extends && !new.from_req_extends {
            new
        } else {
            old
        }
    }

    fn resolve(old: &SubstContext, new: &SubstContext) -> (r: SubstContext) {
        if old.from_req_extends && !new.from_req_extends {
            new.duplicate()
        } else {
            old.duplicate()
        }
    }
}

/// Class constants: a declared constant is never replaced by a synthesized
/// one, nor a concrete one by an abstract one; otherwise the incoming one wins.
pub struct ConstRule;

impl MergeRule<ClassConst> for ConstRule {
    open spec fn pick(old: ClassConst, new: ClassConst) -> ClassConst {
        if new.is_synthesized && !old.is_synthesized {
            old
        } else if new.kind is Abstract && old.kind is Concrete {
            old
        } else {
            new
        }
    }

    fn resolve(old: &ClassConst, new: &ClassConst) -> (r: ClassConst) {
        if new.is_synthesized && !old.is_synthesized {
            old.duplicate()
        } else if matches!(new.kind, ClassConstKind::Abstract(_)) && matches!(old.kind, ClassConstKind::Concrete) {
            old.duplicate()
        } else {
            new.duplicate()
        }
    }
}

/// Whether the old definition of a type constant stays: a concrete one over
/// an abstract one, and an abstract one with a default over an abstract one
/// without.
pub open spec fn keeps_old_definition(old: Typeconst, new: Typeconst) -> bool {
    (old is Concrete && new is Abstract) || (old matches Typeconst::Abstract { default: Some(_), .. }
        && new matches Typeconst::Abstract { default: None, .. })
}

fn keeps_old_def(old: &Typeconst, new: &Typeconst) -> (r: bool)
    ensures
        r == keeps_old_definition(*old, *new),
{
    match (old, new) {
        (Typeconst::Concrete(_), Typeconst::Abstract { .. }) => true,
        (Typeconst::Abstract { default: Some(_), .. }, Typeconst::Abstract { default: None, .. }) => true,
        _ => false,
    }
}

/// Type constants: enforceability passes to the old entry from an enforceable
/// incoming one; then the old definition stays where `keeps_old_definition`
/// says so, and otherwise the incoming one wins, taking enforceability from
/// the old one if it had it.
pub struct TypeConstRule;

pub open spec fn with_enforceability(old: TypeConst, new: TypeConst) -> TypeConst {
    if new.is_enforceable() && !old.is_enforceable() {
        TypeConst { enforceable: new.enforceable, ..old }
    } else {
        old
    }
}

impl MergeRule<TypeConst> for TypeConstRule {
    open spec fn pick(old: TypeConst, new: TypeConst) -> TypeConst {
        let old = with_enforceability(old, new);
        if keeps_old_definition(old.kind, new.kind) {
            old
        } else if old.is_enforceable() && !new.is_enforceable() {
            TypeConst { enforceable: old.enforceable, ..new }
        } else {
            new
        }
    }

    fn resolve(old: &TypeConst, new: &TypeConst) -> (r: TypeConst) {
        let mut kept = old.duplicate();
        if new.enforceable.is_enforceable && !kept.enforceable.is_enforceable {
            kept.enforceable = new.enforceable;
        }
        if keeps_old_def(&kept.kind, &new.kind) {
            kept
        } else {
            let mut taken = new.duplicate();
            if kept.enforceable.is_enforceable && !taken.enforceable.is_enforceable {
                taken.enforceable = kept.enforceable;
            }
            taken
        }
    }
}

/// The constructor after absorbing `inc`: an incoming one without a member
/// keeps the current member; otherwise `keep_old_sig` decides. The
/// consistencies coalesce.
pub open spec fn merge_constructor(cur: Constructor, inc: Constructor) -> Constructor {
    Constructor {
        elt: match (inc.elt, cur.elt) {
            (None, c) => c,
            (Some(n), Some(o)) => if keep_old_sig(n, o) {
                Some(o)
            } else {
                Some(n)
            },
            (Some(n), None) => Some(n),
        },
        consistency: coalesce_spec(cur.consistency, inc.consistency),
    }
}

/// A member that can be marked as arising only through a requirement.
pub trait Synthesize: Sized {
    spec fn synthesized(self) -> Self;

    fn to_synthesized(&self) -> (r: Self)
        ensures
            r == self.synthesized(),
    ;
}

impl Synthesize for FoldedElement {
    open spec fn synthesized(self) -> FoldedElement {
        FoldedElement { is_synthesized: true, ..self }
    }

    fn to_synthesized(&self) -> (r: FoldedElement) {
        FoldedElement { is_synthesized: true, ..*self }
    }
}

impl Synthesize for ClassConst {
    open spec fn synthesized(self) -> ClassConst {
        ClassConst { is_synthesized: true, ..self }
    }

    fn to_synthesized(&self) -> (r: ClassConst) {
        let mut c = self.duplicate();
        c.is_synthesized = true;
        c
    }
}

impl Synthesize for TypeConst {
    open spec fn synthesized(self) -> TypeConst {
        TypeConst { is_synthesized: true, ..self }
    }

    fn to_synthesized(&self) -> (r: TypeConst) {
        let mut c = self.duplicate();
        c.is_synthesized = true;
        c
    }
}

impl Synthesize for SubstContext {
    open spec fn synthesized(self) -> SubstContext {
        SubstContext { from_req_extends: true, ..self }
    }

    fn to_synthesized(&self) -> (r: SubstContext) {
        let mut c = self.duplicate();
        c.from_req_extends = true;
        c
    }
}

/// Each value of `s` marked as synthesized, keys and order unchanged.
pub open spec fn synthesize_all<V: Synthesize>(s: Seq<(u64, V)>) -> Seq<(u64, V)> {
    s.map_values(|e: (u64, V)| (e.0, e.1.synthesized()))
}

/// Marks each value of `m` as synthesized.
pub fn mark_all<V: Synthesize>(m: &mut NameMap<V>)
    requires
        old(m).wf(),
    ensures
        final(m).wf(),
        final(m)@ == synthesize_all(old(m)@),
{
    let mut i: usize = 0;
    while i < m.len()
        invariant
            0 <= i <= m@.len(),
            m.wf(),
            m@.len() == old(m)@.len(),
            forall|j: int| 0 <= j < i ==> m@[j] == (old(m)@[j].0, old(m)@[j].1.synthesized()),
            forall|j: int| i <= j < m@.len() ==> m@[j] == old(m)@[j],
        decreases m@.len() - i,
    {
        let v = m.entry(i).1.to_synthesized();
        m.set_value(i, v);
        i = i + 1;
    }
    assert(m@ =~= synthesize_all(old(m)@));
}

/// What a class inherits: one map per kind of member, keyed by name, and the
/// constructor.
pub struct Inherited {
    pub substs: NameMap<SubstContext>,
    pub props: NameMap<FoldedElement>,
    pub static_props: NameMap<FoldedElement>,
    pub methods: NameMap<FoldedElement>,
    pub static_methods: NameMap<FoldedElement>,
    pub constructor: Constructor,
    pub consts: NameMap<ClassConst>,
    pub type_consts: NameMap<TypeConst>,
}

/// The contents of an `Inherited`: each map as its sequence of entries.
pub struct InheritedModel {
    pub substs: Seq<(u64, SubstContext)>,
    pub props: Seq<(u64, FoldedElement)>,
    pub static_props: Seq<(u64, FoldedElement)>,
    pub methods: Seq<(u64, FoldedElement)>,
    pub static_methods: Seq<(u64, FoldedElement)>,
    pub constructor: Constructor,
    pub consts: Seq<(u64, ClassConst)>,
    pub type_consts: Seq<(u64, TypeConst)>,
}

impl View for Inherited {
    type V = InheritedModel;

    open spec fn view(&self) -> InheritedModel {
        InheritedModel {
            substs: self.substs@,
            props: self.props@,
            static_props: self.static_props@,
            methods: self.methods@,
            static_methods: self.static_methods@,
            constructor: self.constructor,
            consts: self.consts@,
            type_consts: self.type_consts@,
        }
    }
}

/// Nothing inherited, and no constructor, inconsistently.
pub open spec fn empty_model() -> InheritedModel {
    InheritedModel {
        substs: Seq::empty(),
        props: Seq::empty(),
        static_props: Seq::empty(),
        methods: Seq::empty(),
        static_methods: Seq::empty(),
        constructor: Constructor { elt: None, consistency: ConsistentKind::Inconsistent },
        consts: Seq::empty(),
        type_consts: Seq::empty(),
    }
}

/// `a` after absorbing `b`, each kind of member by its own rule.
pub open spec fn absorb(a: InheritedModel, b: InheritedModel) -> InheritedModel {
    InheritedModel {
        substs: fold_in::<SubstContext, SubstRule>(a.substs, b.substs),
        props: fold_in::<FoldedElement, PropRule>(a.props, b.props),
        static_props: fold_in::<FoldedElement, PropRule>(a.static_props, b.static_props),
        methods: fold_in::<FoldedElement, MethodRule>(a.methods, b.methods),
        static_methods: fold_in::<FoldedElement, MethodRule>(a.static_methods, b.static_methods),
        constructor: merge_constructor(a.constructor, b.constructor),
        consts: fold_in::<ClassConst, ConstRule>(a.consts, b.consts),
        type_consts: fold_in::<TypeConst, TypeConstRule>(a.type_consts, b.type_consts),
    }
}

pub open spec fn synthesize_elt(e: Option<FoldedElement>) -> Option<FoldedElement> {
    match e {
        Some(x) => Some(x.synthesized()),
        None => None,
    }
}

/// `a` with every member marked synthesized and every substitution context
/// marked as coming through a required extends.
pub open spec fn synthesize_model(a: InheritedModel) -> InheritedModel {
    InheritedModel {
        substs: synthesize_all(a.substs),
        props: synthesize_all(a.props),
        static_props: synthesize_all(a.static_props),
        methods: synthesize_all(a.methods),
        static_methods: synthesize_all(a.static_methods),
        constructor: Constructor { elt: synthesize_elt(a.constructor.elt), ..a.constructor },
        consts: synthesize_all(a.consts),
        type_consts: synthesize_all(a.type_consts),
    }
}

impl Default for Inherited {
    fn default() -> (r: Inherited)
        ensures
            r.wf(),
            r@ == empty_model(),
    {
        Inherited {
            substs: NameMap::new(),
            props: NameMap::new(),
            static_props: NameMap::new(),
            methods: NameMap::new(),
            static_methods: NameMap::new(),
            constructor: Constructor { elt: None, consistency: ConsistentKind::Inconsistent },
            consts: NameMap::new(),
            type_consts: NameMap::new(),
        }
    }
}

impl Inherited {
    pub open spec fn wf(&self) -> bool {
        &&& self.substs.wf()
        &&& self.props.wf()
        &&& self.static_props.wf()
        &&& self.methods.wf()
        &&& self.static_methods.wf()
        &&& self.consts.wf()
        &&& self.type_consts.wf()
    }

    pub fn add_constructor(&mut self, constructor: Constructor)
        ensures
            final(self).constructor == merge_constructor(old(self).constructor, constructor),
            final(self).substs == old(self).substs,
            final(self).props == old(self).props,
            final(self).static_props == old(self).static_props,
            final(self).methods == old(self).methods,
            final(self).static_methods == old(self).static_methods,
            final(self).consts == old(self).consts,
            final(self).type_consts == old(self).type_consts,
    {
        let elt = match (constructor.elt, self.constructor.elt) {
            (None, cur) => cur,
            (Some(n), Some(o)) => if should_keep_old_sig(&n, &o) {
                Some(o)
            } else {
                Some(n)
            },
            (Some(n), None) => Some(n),
        };
        self.constructor = Constructor {
            elt,
            consistency: self.constructor.consistency.coalesce(constructor.consistency),
        };
    }

    /// Absorbs substitution contexts: a genuine one replaces one that came only
    /// through a required extends.
    pub fn add_substs(&mut self, other: &NameMap<SubstContext>)
        requires
            old(self).substs.wf(),
        ensures
            final(self).substs.wf(),
            final(self).substs@ == fold_in::<SubstContext, SubstRule>(old(self).substs@, other@),
            final(self).props == old(self).props,
            final(self).static_props == old(self).static_props,
            final(self).methods == old(self).methods,
            final(self).static_methods == old(self).static_methods,
            final(self).consts == old(self).consts,
            final(self).type_consts == old(self).type_consts,
            final(self).constructor == old(self).constructor,
    {
        merge_into::<SubstContext, SubstRule>(&mut self.substs, other);
    }

    /// Absorbs properties: a later one replaces an earlier one.
    pub fn add_props(&mut self, other: &NameMap<FoldedElement>)
        requires
            old(self).props.wf(),
        ensures
            final(self).props.wf(),
            final(self).props@ == fold_in::<FoldedElement, PropRule>(old(self).props@, other@),
            final(self).substs == old(self).substs,
            final(self).static_props == old(self).static_props,
            final(self).methods == old(self).methods,
            final(self).static_methods == old(self).static_methods,
            final(self).consts == old(self).consts,
            final(self).type_consts == old(self).type_consts,
            final(self).constructor == old(self).constructor,
    {
        merge_into::<FoldedElement, PropRule>(&mut self.props, other);
    }

    /// Absorbs static properties: a later one replaces an earlier one.
    pub fn add_static_props(&mut self, other: &NameMap<FoldedElement>)
        requires
            old(self).static_props.wf(),
        ensures
            final(self).static_props.wf(),
            final(self).static_props@ == fold_in::<FoldedElement, PropRule>(old(self).static_props@, other@),
            final(self).substs == old(self).substs,
            final(self).props == old(self).props,
            final(self).methods == old(self).methods,
            final(self).static_methods == old(self).static_methods,
            final(self).consts == old(self).consts,
            final(self).type_consts == old(self).type_consts,
            final(self).constructor == old(self).constructor,
    {
        merge_into::<FoldedElement, PropRule>(&mut self.static_props, other);
    }

    /// Absorbs methods by `keep_old_sig`.
    pub fn add_methods(&mut self, other: &NameMap<FoldedElement>)
        requires
            old(self).methods.wf(),
        ensures
            final(self).methods.wf(),
            final(self).methods@ == fold_in::<FoldedElement, MethodRule>(old(self).methods@, other@),
            final(self).substs == old(self).substs,
            final(self).props == old(self).props,
            final(self).static_props == old(self).static_props,
            final(self).static_methods == old(self).static_methods,
            final(self).consts == old(self).consts,
            final(self).type_consts == old(self).type_consts,
            final(self).constructor == old(self).constructor,
    {
        merge_into::<FoldedElement, MethodRule>(&mut self.methods, other);
    }

    /// Absorbs static methods by `keep_old_sig`.
    pub fn add_static_methods(&mut self, other: &NameMap<FoldedElement>)
        requires
            old(self).static_methods.wf(),
        ensures
            final(self).static_methods.wf(),
            final(self).static_methods@ == fold_in::<FoldedElement, MethodRule>(old(self).static_methods@, other@),
            final(self).substs == old(self).substs,
            final(self).props == old(self).props,
            final(self).static_props == old(self).static_props,
            final(self).methods == old(self).methods,
            final(self).consts == old(self).consts,
            final(self).type_consts == old(self).type_consts,
            final(self).constructor == old(self).constructor,
    {
        merge_into::<FoldedElement, MethodRule>(&mut self.static_methods, other);
    }

    /// Absorbs class constants by the rules of `ConstRule`.
    pub fn add_consts(&mut self, other: &NameMap<ClassConst>)
        requires
            old(self).consts.wf(),
        ensures
            final(self).consts.wf(),
            final(self).consts@ == fold_in::<ClassConst, ConstRule>(old(self).consts@, other@),
            final(self).substs == old(self).substs,
            final(self).props == old(self).props,
            final(self).static_props == old(self).static_props,
            final(self).methods == old(self).methods,
            final(self).static_methods == old(self).static_methods,
            final(self).type_consts == old(self).type_consts,
            final(self).constructor == old(self).constructor,
    {
        merge_into::<ClassConst, ConstRule>(&mut self.consts, other);
    }

    /// Absorbs type constants by the rules of `TypeConstRule`.
    pub fn add_type_consts(&mut self, other: &NameMap<TypeConst>)
        requires
            old(self).type_consts.wf(),
        ensures
            final(self).type_consts.wf(),
            final(self).type_consts@ == fold_in::<TypeConst, TypeConstRule>(old(self).type_consts@, other@),
            final(self).substs == old(self).substs,
            final(self).props == old(self).props,
            final(self).static_props == old(self).static_props,
            final(self).methods == old(self).methods,
            final(self).static_methods == old(self).static_methods,
            final(self).consts == old(self).consts,
            final(self).constructor == old(self).constructor,
    {
        merge_into::<TypeConst, TypeConstRule>(&mut self.type_consts, other);
    }

    /// Absorbs `other` into `self`, each kind of member by its own rule.
    pub fn add_inherited(&mut self, other: Inherited)
        requires
            old(self).wf(),
        ensures
            final(self).wf(),
            final(self)@ == absorb(old(self)@, other@),
    {
        self.add_substs(&other.substs);
        self.add_props(&other.props);
        self.add_static_props(&other.static_props);
        self.add_methods(&other.methods);
        self.add_static_methods(&other.static_methods);
        self.add_constructor(other.constructor);
        self.add_consts(&other.consts);
        self.add_type_consts(&other.type_consts);
    }

    /// Marks every member as synthesized and every substitution context as
    /// coming through a required extends.
    pub fn mark_as_synthesized(&mut self)
        requires
            old(self).wf(),
        ensures
            final(self).wf(),
            final(self)@ == synthesize_model(old(self)@),
    {
        mark_all(&mut self.substs);
        if let Some(e) = self.constructor.elt {
            self.constructor.elt = Some(e.to_synthesized());
        }
        mark_all(&mut self.props);
        mark_all(&mut self.static_props);
        mark_all(&mut self.methods);
        mark_all(&mut self.static_methods);
        mark_all(&mut self.consts);
        mark_all(&mut self.type_consts);
    }
}

} // verus!

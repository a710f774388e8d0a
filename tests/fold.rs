use folded_inherit::decl::{
    Abstraction, ClassConst, ClassConstKind, ClassishKind, ConsistentKind, Constructor, DeclTy, Enforceable,
    EnumType, FoldedClass, FoldedElement, ShallowClass, Subst, SubstContext, TypeConst, Typeconst, Visibility,
};
use folded_inherit::folder::{DeclName, DependencyName, DependencyRegistrar, Error};
use folded_inherit::inherit::Inherited;
use folded_inherit::name_map::NameMap;
use std::sync::Arc;

const CHILD: u64 = 1;
const BASE: u64 = 2;
const OTHER: u64 = 3;
const TRAIT: u64 = 4;
const F: u64 = 100;
const G: u64 = 101;
const T: u64 = 200;
const TP: u64 = 300;
const INT: u64 = 400;
const MIXED: u64 = 401;

struct Recorder {
    calls: Vec<(DeclName, DependencyName)>,
    fail: bool,
}

impl DependencyRegistrar for Recorder {
    fn add_dependency(&mut self, dependent: DeclName, dependency: DependencyName) -> Result<(), Error> {
        self.calls.push((dependent, dependency));
        if self.fail {
            Err(Error { message: "storage unavailable".to_string() })
        } else {
            Ok(())
        }
    }
}

fn recorder() -> Recorder {
    Recorder { calls: Vec::new(), fail: false }
}

fn elt(origin: u64, visibility: Visibility, is_abstract: bool, is_synthesized: bool) -> FoldedElement {
    FoldedElement {
        origin,
        visibility,
        is_abstract,
        is_synthesized,
        is_superfluous_override: true,
        is_lsb: false,
        is_xhp_attr: false,
    }
}

fn shallow(name: u64, kind: ClassishKind) -> ShallowClass {
    ShallowClass {
        name,
        kind,
        extends: Vec::new(),
        implements: Vec::new(),
        uses: Vec::new(),
        req_extends: Vec::new(),
        req_implements: Vec::new(),
        xhp_attr_uses: Vec::new(),
        enum_type: None,
    }
}

fn folded(name: u64, kind: ClassishKind) -> FoldedClass {
    FoldedClass {
        name,
        kind,
        is_builtin: false,
        tparams: Vec::new(),
        substs: NameMap::new(),
        props: NameMap::new(),
        static_props: NameMap::new(),
        methods: NameMap::new(),
        static_methods: NameMap::new(),
        constructor: Constructor { elt: None, consistency: ConsistentKind::Inconsistent },
        consts: NameMap::new(),
        type_consts: NameMap::new(),
    }
}

fn class_ty(name: u64) -> DeclTy {
    DeclTy::class(name, Vec::new())
}

fn ancestors(list: Vec<FoldedClass>) -> NameMap<Arc<FoldedClass>> {
    let mut m = NameMap::new();
    for c in list {
        m.insert(c.name, Arc::new(c));
    }
    m
}

fn concrete_class() -> ClassishKind {
    ClassishKind::Class(Abstraction::Concrete)
}

fn abstract_class() -> ClassishKind {
    ClassishKind::Class(Abstraction::Abstract)
}

fn type_const(origin: u64, kind: Typeconst, enforceable: bool) -> TypeConst {
    TypeConst { is_synthesized: false, origin, kind, enforceable: Enforceable { pos: origin, is_enforceable: enforceable } }
}

fn class_const(origin: u64, kind: ClassConstKind, is_synthesized: bool) -> ClassConst {
    ClassConst { is_synthesized, kind, origin, ty: DeclTy::Other(INT) }
}

#[test]
fn empty_child_inherits_nothing() {
    let child = shallow(CHILD, concrete_class());
    let mut reg = recorder();
    let r = Inherited::make(&child, &ancestors(Vec::new()), &mut reg).unwrap();
    assert_eq!(r.substs.len(), 0);
    assert_eq!(r.props.len(), 0);
    assert_eq!(r.static_props.len(), 0);
    assert_eq!(r.methods.len(), 0);
    assert_eq!(r.static_methods.len(), 0);
    assert_eq!(r.consts.len(), 0);
    assert_eq!(r.type_consts.len(), 0);
    assert_eq!(r.constructor, Constructor { elt: None, consistency: ConsistentKind::Inconsistent });
    assert!(reg.calls.is_empty());
}

#[test]
fn missing_ancestor_contributes_nothing() {
    let mut child = shallow(CHILD, concrete_class());
    child.extends.push(class_ty(BASE));
    child.uses.push(DeclTy::Other(INT));
    let mut reg = recorder();
    let r = Inherited::make(&child, &ancestors(Vec::new()), &mut reg).unwrap();
    assert_eq!(r.methods.len(), 0);
    assert_eq!(r.substs.len(), 0);
    assert!(reg.calls.is_empty());
}

#[test]
fn concrete_method_outranks_abstract_of_earlier_interface() {
    // An abstract class implementing I and extending Base: Base is folded
    // first, then I; the abstract `f` of I must not shadow Base's concrete one.
    let mut base = folded(BASE, concrete_class());
    base.methods.insert(F, elt(BASE, Visibility::Public, false, false));
    let mut iface = folded(OTHER, ClassishKind::Interface);
    iface.methods.insert(F, elt(OTHER, Visibility::Public, true, false));
    let mut child = shallow(CHILD, abstract_class());
    child.implements.push(class_ty(OTHER));
    child.extends.push(class_ty(BASE));
    let r = Inherited::make(&child, &ancestors(vec![base, iface]), &mut recorder()).unwrap();
    assert_eq!(r.methods.get(F).unwrap().origin, BASE);
    assert!(!r.methods.get(F).unwrap().is_abstract);
}

#[test]
fn earlier_declared_parent_wins_a_tie() {
    // Two concrete interfaces' methods of equal rank: the one declared first is
    // absorbed last and wins.
    let mut a = folded(BASE, ClassishKind::Interface);
    a.methods.insert(F, elt(BASE, Visibility::Public, true, false));
    let mut b = folded(OTHER, ClassishKind::Interface);
    b.methods.insert(F, elt(OTHER, Visibility::Public, true, false));
    let mut child = shallow(CHILD, ClassishKind::Interface);
    child.extends.push(class_ty(BASE));
    child.extends.push(class_ty(OTHER));
    let r = Inherited::make(&child, &ancestors(vec![a, b]), &mut recorder()).unwrap();
    let f = r.methods.get(F).unwrap();
    assert_eq!(f.origin, BASE);
    assert!(!f.is_superfluous_override);
}

#[test]
fn required_extends_method_does_not_override_parent_or_trait() {
    let mut base = folded(BASE, concrete_class());
    base.methods.insert(F, elt(BASE, Visibility::Public, false, false));
    let mut req = folded(OTHER, concrete_class());
    req.methods.insert(F, elt(OTHER, Visibility::Public, false, false));
    req.methods.insert(G, elt(OTHER, Visibility::Public, false, false));
    let mut tr = folded(TRAIT, ClassishKind::Trait);
    tr.methods.insert(G, elt(TRAIT, Visibility::Public, false, false));
    let mut child = shallow(CHILD, concrete_class());
    child.extends.push(class_ty(BASE));
    child.req_extends.push(class_ty(OTHER));
    child.uses.push(class_ty(TRAIT));
    let r = Inherited::make(&child, &ancestors(vec![base, req, tr]), &mut recorder()).unwrap();
    assert_eq!(r.methods.get(F).unwrap().origin, BASE);
    assert!(!r.methods.get(F).unwrap().is_synthesized);
    assert_eq!(r.methods.get(G).unwrap().origin, TRAIT);
    assert!(!r.methods.get(G).unwrap().is_synthesized);
}

#[test]
fn required_extends_alone_gives_synthesized_members() {
    let mut req = folded(BASE, concrete_class());
    req.methods.insert(F, elt(BASE, Visibility::Public, false, false));
    req.consts.insert(G, class_const(BASE, ClassConstKind::Concrete, false));
    let mut child = shallow(CHILD, ClassishKind::Trait);
    child.req_extends.push(class_ty(BASE));
    let r = Inherited::make(&child, &ancestors(vec![req]), &mut recorder()).unwrap();
    assert!(r.methods.get(F).unwrap().is_synthesized);
    assert!(r.consts.get(G).unwrap().is_synthesized);
    assert!(r.substs.get(BASE).unwrap().from_req_extends);
}

fn generic_base() -> FoldedClass {
    let mut base = folded(BASE, concrete_class());
    base.tparams.push(TP);
    base.consts.insert(G, ClassConst { is_synthesized: false, kind: ClassConstKind::Concrete, origin: BASE, ty: DeclTy::Tparam(TP) });
    base
}

#[test]
fn genuine_extends_substitution_overrides_required_one() {
    // class Child extends Base<int> { use MyTrait; } with
    // trait MyTrait { require extends Base<mixed>; }
    let mut tr = folded(TRAIT, ClassishKind::Trait);
    tr.substs.insert(
        BASE,
        SubstContext { subst: Subst::Bind(TP, Box::new(DeclTy::Other(MIXED)), Box::new(Subst::Empty)), class_context: TRAIT, from_req_extends: true },
    );
    let mut child = shallow(CHILD, concrete_class());
    child.extends.push(DeclTy::class(BASE, vec![DeclTy::Other(INT)]));
    child.uses.push(class_ty(TRAIT));
    let r = Inherited::make(&child, &ancestors(vec![generic_base(), tr]), &mut recorder()).unwrap();
    let sc = r.substs.get(BASE).unwrap();
    assert!(!sc.from_req_extends);
    assert_eq!(sc.class_context, CHILD);
    assert_eq!(sc.subst, Subst::Bind(TP, Box::new(DeclTy::Other(INT)), Box::new(Subst::Empty)));
    assert_eq!(r.consts.get(G).unwrap().ty, DeclTy::Other(INT));
}

#[test]
fn required_substitution_gives_way_whatever_the_order() {
    let mut child = shallow(CHILD, concrete_class());
    child.req_extends.push(DeclTy::class(BASE, vec![DeclTy::Other(MIXED)]));
    child.extends.push(DeclTy::class(BASE, vec![DeclTy::Other(INT)]));
    let r = Inherited::make(&child, &ancestors(vec![generic_base()]), &mut recorder()).unwrap();
    let sc = r.substs.get(BASE).unwrap();
    assert!(!sc.from_req_extends);
    assert_eq!(sc.subst, Subst::Bind(TP, Box::new(DeclTy::Other(INT)), Box::new(Subst::Empty)));
}

#[test]
fn missing_type_argument_becomes_any() {
    let mut child = shallow(CHILD, concrete_class());
    child.extends.push(class_ty(BASE));
    let r = Inherited::make(&child, &ancestors(vec![generic_base()]), &mut recorder()).unwrap();
    assert_eq!(r.consts.get(G).unwrap().ty, DeclTy::Any);
}

#[test]
fn nested_type_arguments_are_substituted() {
    let mut base = folded(BASE, concrete_class());
    base.tparams.push(TP);
    base.consts.insert(
        G,
        ClassConst { is_synthesized: false, kind: ClassConstKind::Concrete, origin: BASE, ty: DeclTy::class(OTHER, vec![DeclTy::Tparam(TP), DeclTy::Tparam(T)]) },
    );
    let mut child = shallow(CHILD, concrete_class());
    child.extends.push(DeclTy::class(BASE, vec![DeclTy::Other(INT), DeclTy::Other(MIXED)]));
    let r = Inherited::make(&child, &ancestors(vec![base]), &mut recorder()).unwrap();
    assert_eq!(r.consts.get(G).unwrap().ty, DeclTy::class(OTHER, vec![DeclTy::Other(INT), DeclTy::Tparam(T)]));
}

fn const_conflict(first: ClassConst, second: ClassConst) -> ClassConst {
    // `first` comes from a required interface, `second` from an implemented
    // one, which is folded later.
    let mut a = folded(BASE, ClassishKind::Interface);
    a.consts.insert(G, first);
    let mut b = folded(OTHER, ClassishKind::Interface);
    b.consts.insert(G, second);
    let mut child = shallow(CHILD, concrete_class());
    child.req_implements.push(class_ty(BASE));
    child.implements.push(class_ty(OTHER));
    let r = Inherited::make(&child, &ancestors(vec![a, b]), &mut recorder()).unwrap();
    let c = r.consts.get(G).unwrap();
    ClassConst { is_synthesized: c.is_synthesized, kind: c.kind, origin: c.origin, ty: DeclTy::Other(INT) }
}

#[test]
fn synthesized_constant_never_replaces_declared_one() {
    let c = const_conflict(class_const(BASE, ClassConstKind::Abstract(false), false), class_const(OTHER, ClassConstKind::Concrete, true));
    assert_eq!(c.origin, BASE);
    let c = const_conflict(class_const(BASE, ClassConstKind::Abstract(false), true), class_const(OTHER, ClassConstKind::Abstract(false), false));
    assert_eq!(c.origin, OTHER);
    assert!(!c.is_synthesized);
}

#[test]
fn concrete_constant_never_replaced_by_abstract() {
    let c = const_conflict(class_const(BASE, ClassConstKind::Concrete, false), class_const(OTHER, ClassConstKind::Abstract(true), false));
    assert_eq!(c.origin, BASE);
    let c = const_conflict(class_const(BASE, ClassConstKind::Abstract(true), false), class_const(OTHER, ClassConstKind::Concrete, false));
    assert_eq!(c.origin, OTHER);
    let c = const_conflict(class_const(BASE, ClassConstKind::Concrete, false), class_const(OTHER, ClassConstKind::Concrete, false));
    assert_eq!(c.origin, OTHER);
}

fn type_const_conflict(first: TypeConst, second: TypeConst) -> (u64, bool, bool) {
    let mut a = folded(BASE, ClassishKind::Interface);
    a.type_consts.insert(T, first);
    let mut b = folded(OTHER, ClassishKind::Interface);
    b.type_consts.insert(T, second);
    let mut child = shallow(CHILD, concrete_class());
    child.req_implements.push(class_ty(BASE));
    child.implements.push(class_ty(OTHER));
    let r = Inherited::make(&child, &ancestors(vec![a, b]), &mut recorder()).unwrap();
    let t = r.type_consts.get(T).unwrap();
    let has_default = matches!(t.kind, Typeconst::Abstract { default: Some(_), .. });
    (t.origin, t.enforceable.is_enforceable, has_default)
}

fn abstract_tc(default: Option<DeclTy>) -> Typeconst {
    Typeconst::Abstract { as_constraint: None, default }
}

#[test]
fn enforceability_sticks_to_type_constant() {
    // The concrete definition wins, the enforceability of the abstract one stays.
    let r = type_const_conflict(type_const(BASE, Typeconst::Concrete(DeclTy::Other(INT)), false), type_const(OTHER, abstract_tc(None), true));
    assert_eq!(r, (BASE, true, false));
    let r = type_const_conflict(type_const(BASE, abstract_tc(None), true), type_const(OTHER, Typeconst::Concrete(DeclTy::Other(INT)), false));
    assert_eq!(r, (OTHER, true, false));
    let r = type_const_conflict(type_const(BASE, abstract_tc(None), false), type_const(OTHER, abstract_tc(None), false));
    assert_eq!(r, (OTHER, false, false));
}

#[test]
fn abstract_type_constant_with_default_wins() {
    let r = type_const_conflict(type_const(BASE, abstract_tc(Some(DeclTy::Other(INT))), false), type_const(OTHER, abstract_tc(None), false));
    assert_eq!(r, (BASE, false, true));
    let r = type_const_conflict(type_const(BASE, abstract_tc(None), false), type_const(OTHER, abstract_tc(Some(DeclTy::Other(INT))), false));
    assert_eq!(r, (OTHER, false, true));
}

#[test]
fn trait_private_property_is_owned_by_child() {
    let mut tr = folded(TRAIT, ClassishKind::Trait);
    tr.props.insert(F, elt(TRAIT, Visibility::Private(TRAIT), false, false));
    tr.props.insert(G, elt(TRAIT, Visibility::Protected(TRAIT), false, false));
    tr.methods.insert(F, elt(TRAIT, Visibility::Protected(TRAIT), false, true));
    let mut child = shallow(CHILD, concrete_class());
    child.uses.push(class_ty(TRAIT));
    let r = Inherited::make(&child, &ancestors(vec![tr]), &mut recorder()).unwrap();
    assert_eq!(r.props.get(F).unwrap().visibility, Visibility::Private(CHILD));
    assert_eq!(r.props.get(G).unwrap().visibility, Visibility::Protected(CHILD));
    assert_eq!(r.methods.get(F).unwrap().visibility, Visibility::Protected(TRAIT));
}

#[test]
fn class_private_members_are_not_inherited() {
    let mut base = folded(BASE, concrete_class());
    base.props.insert(F, elt(BASE, Visibility::Private(BASE), false, false));
    base.props.insert(G, elt(BASE, Visibility::Protected(BASE), false, false));
    let mut lsb = elt(BASE, Visibility::Private(BASE), false, false);
    lsb.is_lsb = true;
    base.static_props.insert(F, lsb);
    let mut child = shallow(CHILD, concrete_class());
    child.extends.push(class_ty(BASE));
    let r = Inherited::make(&child, &ancestors(vec![base]), &mut recorder()).unwrap();
    assert!(r.props.get(F).is_none());
    assert_eq!(r.props.get(G).unwrap().visibility, Visibility::Protected(BASE));
    assert_eq!(r.static_props.get(F).unwrap().visibility, Visibility::Private(BASE));
}

#[test]
fn enum_ancestor_passes_everything() {
    let mut e = folded(BASE, ClassishKind::Enum);
    e.props.insert(F, elt(BASE, Visibility::Private(BASE), false, false));
    let mut child = shallow(CHILD, ClassishKind::Enum);
    child.extends.push(class_ty(BASE));
    let r = Inherited::make(&child, &ancestors(vec![e]), &mut recorder()).unwrap();
    assert_eq!(r.props.get(F).unwrap().visibility, Visibility::Private(BASE));
}

#[test]
fn xhp_donor_gives_only_xhp_attributes() {
    let mut donor = folded(BASE, concrete_class());
    let mut attr = elt(BASE, Visibility::Public, false, false);
    attr.is_xhp_attr = true;
    donor.props.insert(F, elt(BASE, Visibility::Public, false, false));
    donor.props.insert(G, attr);
    donor.props.insert(T, elt(BASE, Visibility::Public, false, false));
    donor.methods.insert(F, elt(BASE, Visibility::Public, false, false));
    donor.consts.insert(F, class_const(BASE, ClassConstKind::Concrete, false));
    let mut child = shallow(CHILD, concrete_class());
    child.xhp_attr_uses.push(class_ty(BASE));
    let mut reg = recorder();
    let r = Inherited::make(&child, &ancestors(vec![donor]), &mut reg).unwrap();
    assert_eq!(r.props.len(), 1);
    assert!(r.props.get(G).unwrap().is_xhp_attr);
    assert_eq!(r.methods.len(), 0);
    assert_eq!(r.consts.len(), 0);
    assert!(reg.calls.is_empty());
}

#[test]
fn non_builtin_parent_records_one_dependency() {
    let mut base = folded(BASE, concrete_class());
    base.constructor = Constructor { elt: Some(elt(BASE, Visibility::Public, false, false)), consistency: ConsistentKind::FinalClass };
    let mut child = shallow(CHILD, concrete_class());
    child.extends.push(class_ty(BASE));
    let mut reg = recorder();
    let r = Inherited::make(&child, &ancestors(vec![base]), &mut reg).unwrap();
    assert_eq!(reg.calls, vec![(DeclName::Type(CHILD), DependencyName::Constructor(BASE))]);
    assert_eq!(r.constructor.elt.unwrap().origin, BASE);
    assert_eq!(r.constructor.consistency, ConsistentKind::FinalClass);
}

#[test]
fn builtin_parent_records_no_dependency() {
    let mut base = folded(BASE, concrete_class());
    base.is_builtin = true;
    base.constructor = Constructor { elt: Some(elt(BASE, Visibility::Public, false, false)), consistency: ConsistentKind::Inconsistent };
    let mut child = shallow(CHILD, concrete_class());
    child.extends.push(class_ty(BASE));
    let mut reg = recorder();
    let r = Inherited::make(&child, &ancestors(vec![base]), &mut reg).unwrap();
    assert!(reg.calls.is_empty());
    assert_eq!(r.constructor.elt.unwrap().origin, BASE);
}

#[test]
fn constants_only_relationships_record_no_dependency() {
    let mut child = shallow(CHILD, ClassishKind::Enum);
    child.implements.push(class_ty(BASE));
    child.enum_type = Some(EnumType { includes: vec![class_ty(OTHER)] });
    let mut other = folded(OTHER, ClassishKind::Enum);
    other.consts.insert(G, class_const(OTHER, ClassConstKind::Concrete, false));
    other.methods.insert(F, elt(OTHER, Visibility::Public, false, false));
    let mut reg = recorder();
    let r = Inherited::make(&child, &ancestors(vec![folded(BASE, ClassishKind::Interface), other]), &mut reg).unwrap();
    assert!(reg.calls.is_empty());
    assert_eq!(r.consts.get(G).unwrap().origin, OTHER);
    assert_eq!(r.methods.len(), 0);
}

#[test]
fn registrar_failure_aborts_the_fold() {
    let mut child = shallow(CHILD, concrete_class());
    child.extends.push(class_ty(BASE));
    child.uses.push(class_ty(TRAIT));
    let mut reg = Recorder { calls: Vec::new(), fail: true };
    let r = Inherited::make(&child, &ancestors(vec![folded(BASE, concrete_class()), folded(TRAIT, ClassishKind::Trait)]), &mut reg);
    assert_eq!(r.err().unwrap(), Error { message: "storage unavailable".to_string() });
    assert_eq!(reg.calls.len(), 1);
}

#[test]
fn folding_twice_gives_identical_results() {
    let mut a = folded(BASE, ClassishKind::Interface);
    a.methods.insert(G, elt(BASE, Visibility::Public, true, false));
    a.methods.insert(F, elt(BASE, Visibility::Public, true, false));
    let mut tr = folded(TRAIT, ClassishKind::Trait);
    tr.methods.insert(T, elt(TRAIT, Visibility::Public, false, false));
    tr.methods.insert(F, elt(TRAIT, Visibility::Public, false, false));
    let mut child = shallow(CHILD, abstract_class());
    child.implements.push(class_ty(BASE));
    child.uses.push(class_ty(TRAIT));
    let parents = ancestors(vec![a, tr]);
    let r1 = Inherited::make(&child, &parents, &mut recorder()).unwrap();
    let r2 = Inherited::make(&child, &parents, &mut recorder()).unwrap();
    let order = |r: &Inherited| (0..r.methods.len()).map(|i| (r.methods.entry(i).0, r.methods.entry(i).1.origin)).collect::<Vec<_>>();
    assert_eq!(order(&r1), order(&r2));
    assert_eq!(order(&r1), vec![(G, BASE), (F, TRAIT), (T, TRAIT)]);
}

#[test]
fn constructor_consistency_coalesces() {
    assert_eq!(ConsistentKind::Inconsistent.coalesce(ConsistentKind::Inconsistent), ConsistentKind::Inconsistent);
    assert_eq!(ConsistentKind::Inconsistent.coalesce(ConsistentKind::FinalClass), ConsistentKind::FinalClass);
    assert_eq!(ConsistentKind::FinalClass.coalesce(ConsistentKind::ConsistentConstruct), ConsistentKind::ConsistentConstruct);
    assert_eq!(ConsistentKind::ConsistentConstruct.coalesce(ConsistentKind::Inconsistent), ConsistentKind::ConsistentConstruct);
}

#[test]
fn name_map_keeps_first_insertion_order() {
    let mut m: NameMap<u64> = NameMap::new();
    m.insert(5, 50);
    m.insert(3, 30);
    m.insert(5, 51);
    assert_eq!(m.len(), 2);
    assert_eq!(*m.entry(0), (5, 51));
    assert_eq!(*m.entry(1), (3, 30));
    assert_eq!(m.position(3), Some(1));
    assert_eq!(m.get(7), None);
}

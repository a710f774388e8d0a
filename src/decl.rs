//! Declarations as the fold reads them. Names of classes, members and type
//! parameters are interned symbols, written as `u64`.
use crate::name_map::{index_in, keys, lemma_index_in, lookup, put, NameMap};
use vstd::prelude::*;

verus! {

/// A type as written in a declaration.
#[derive(Debug, PartialEq, Eq)]
pub enum DeclTy {
    /// A reference to a generic parameter.
    Tparam(u64),
    /// A class-like type applied to type arguments.
    Apply(u64, TyList),
    /// The type that stands for a missing type argument.
    Any,
    /// Any other type (a primitive, a shape, ...), by its interned name.
    Other(u64),
}

/// A list of type arguments.
#[derive(Debug, PartialEq, Eq)]
pub enum TyList {
    Nil,
    Cons(Box<DeclTy>, Box<TyList>),
}

/// The type arguments of a list, in order.
pub open spec fn tys_of(l: TyList) -> Seq<DeclTy>
    decreases l,
{
    match l {
        TyList::Nil => Seq::empty(),
        TyList::Cons(h, t) => seq![*h].add(tys_of(*t)),
    }
}

/// The class name and type arguments of a class type, if it is one.
pub open spec fn class_ref(t: DeclTy) -> Option<(u64, Seq<DeclTy>)> {
    match t {
        DeclTy::Apply(c, args) => Some((c, tys_of(args))),
        _ => None,
    }
}

/// `t` with each generic parameter bound in `sig` replaced by its binding.
pub open spec fn subst_ty(sig: Seq<(u64, DeclTy)>, t: DeclTy) -> DeclTy
    decreases t,
{
    match t {
        DeclTy::Tparam(n) => match lookup(sig, n) {
            Some(u) => u,
            None => DeclTy::Tparam(n),
        },
        DeclTy::Apply(c, args) => DeclTy::Apply(c, subst_list(sig, args)),
        DeclTy::Any => DeclTy::Any,
        DeclTy::Other(x) => DeclTy::Other(x),
    }
}

pub open spec fn subst_list(sig: Seq<(u64, DeclTy)>, l: TyList) -> TyList
    decreases l,
{
    match l {
        TyList::Nil => TyList::Nil,
        TyList::Cons(h, t) => TyList::Cons(Box::new(subst_ty(sig, *h)), Box::new(subst_list(sig, *t))),
    }
}

/// The substitution from declared generic parameters to supplied type
/// arguments; a parameter with no argument is bound to `Any`, and arguments
/// beyond the parameters are ignored.
pub open spec fn subst_of(tparams: Seq<u64>, args: Seq<DeclTy>) -> Seq<(u64, DeclTy)>
    decreases tparams.len(),
{
    if tparams.len() == 0 {
        Seq::empty()
    } else {
        let i = tparams.len() - 1;
        put(
            subst_of(tparams.drop_last(), args),
            tparams[i],
            if i < args.len() { args[i] } else { DeclTy::Any },
        )
    }
}

impl DeclTy {
    /// A class type applied to the given arguments.
    pub fn class(name: u64, args: Vec<DeclTy>) -> (r: DeclTy)
        ensures
            class_ref(r) == Some((name, args@)),
    {
        let ghost all = args@;
        let mut args = args;
        let mut l = TyList::Nil;
        while args.len() > 0
            invariant
                args@.add(tys_of(l)) == all,
            decreases args.len(),
        {
            let ghost before = args@;
            let h = args.pop().unwrap();
            assert(before == args@.push(h));
            assert(args@.add(seq![h].add(tys_of(l))) =~= before.add(tys_of(l)));
            l = TyList::Cons(Box::new(h), Box::new(l));
        }
        assert(args@.add(tys_of(l)) =~= tys_of(l));
        DeclTy::Apply(name, l)
    }

    /// The class name and type arguments of a class type, if it is one.
    pub fn unwrap_class_type(&self) -> (r: Option<(u64, &TyList)>)
        ensures
            r matches Some((c, l)) ==> class_ref(*self) == Some((c, tys_of(*l))),
            r is None ==> class_ref(*self) is None,
    {
        match self {
            DeclTy::Apply(c, l) => Some((*c, l)),
            _ => None,
        }
    }

    /// An equal copy.
    pub fn copy(&self) -> (r: DeclTy)
        ensures
            r == *self,
        decreases self,
    {
        match self {
            DeclTy::Tparam(n) => DeclTy::Tparam(*n),
            DeclTy::Apply(c, l) => DeclTy::Apply(*c, l.copy()),
            DeclTy::Any => DeclTy::Any,
            DeclTy::Other(x) => DeclTy::Other(*x),
        }
    }

    /// The type with the substitution `sig` applied.
    pub fn instantiate(&self, sig: &NameMap<DeclTy>) -> (r: DeclTy)
        requires
            sig.wf(),
        ensures
            r == subst_ty(sig@, *self),
        decreases self,
    {
        match self {
            DeclTy::Tparam(n) => match sig.get(*n) {
                Some(u) => u.copy(),
                None => DeclTy::Tparam(*n),
            },
            DeclTy::Apply(c, l) => DeclTy::Apply(*c, l.instantiate(sig)),
            DeclTy::Any => DeclTy::Any,
            DeclTy::Other(x) => DeclTy::Other(*x),
        }
    }
}

impl TyList {
    /// An equal copy.
    pub fn copy(&self) -> (r: TyList)
        ensures
            r == *self,
        decreases self,
    {
        match self {
            TyList::Nil => TyList::Nil,
            TyList::Cons(h, t) => TyList::Cons(Box::new((**h).copy()), Box::new((**t).copy())),
        }
    }

    /// The list with the substitution `sig` applied to each argument.
    pub fn instantiate(&self, sig: &NameMap<DeclTy>) -> (r: TyList)
        requires
            sig.wf(),
        ensures
            r == subst_list(sig@, *self),
        decreases self,
    {
        match self {
            TyList::Nil => TyList::Nil,
            TyList::Cons(h, t) => TyList::Cons(
                Box::new((**h).instantiate(sig)),
                Box::new((**t).instantiate(sig)),
            ),
        }
    }
}

proof fn lemma_subst_of_step(tparams: Seq<u64>, args: Seq<DeclTy>, i: int)
    requires
        0 <= i < tparams.len(),
    ensures
        subst_of(tparams.take(i + 1), args) == put(
            subst_of(tparams.take(i), args),
            tparams[i],
            if i < args.len() { args[i] } else { DeclTy::Any },
        ),
{
    assert(tparams.take(i + 1).drop_last() =~= tparams.take(i));
}

/// The substitution from `tparams` to the arguments of `args`, as `subst_of`
/// states it.
pub fn make_subst(tparams: &Vec<u64>, args: &TyList) -> (r: NameMap<DeclTy>)
    ensures
        r.wf(),
        r@ == subst_of(tparams@, tys_of(*args)),
{
    let ghost a = tys_of(*args);
    let mut r: NameMap<DeclTy> = NameMap::new();
    let mut rest = args;
    let mut i: usize = 0;
    while i < tparams.len()
        invariant
            0 <= i <= tparams.len(),
            a == tys_of(*args),
            r.wf(),
            r@ == subst_of(tparams@.take(i as int), a),
            i <= a.len() ==> tys_of(*rest) == a.skip(i as int),
            i > a.len() ==> *rest == TyList::Nil,
        decreases tparams.len() - i,
    {
        proof {
            lemma_subst_of_step(tparams@, a, i as int);
        }
        match rest {
            TyList::Cons(h, t) => {
                proof {
                    assert(tys_of(*rest) == seq![**h].add(tys_of(**t)));
                    assert(i <= a.len());
                    assert(tys_of(*rest)[0] == **h);
                    assert(a.skip(i as int)[0] == a[i as int]);
                    assert(a[i as int] == **h);
                    assert forall|j: int| 0 <= j < tys_of(**t).len() implies tys_of(**t)[j] == a.skip(i + 1)[j] by {
                        assert(tys_of(*rest)[j + 1] == tys_of(**t)[j]);
                        assert(a.skip(i as int)[j + 1] == a[i + 1 + j]);
                    }
                    assert(tys_of(**t) =~= a.skip(i + 1));
                }
                r.insert(tparams[i], (**h).copy());
                rest = &**t;
            },
            TyList::Nil => {
                r.insert(tparams[i], DeclTy::Any);
            },
        }
        i = i + 1;
    }
    assert(tparams@.take(i as int) =~= tparams@);
    r
}

/// A value that can be copied into an equal one.
pub trait Duplicate: Sized {
    fn duplicate(&self) -> (r: Self)
        ensures
            r == *self,
    ;
}

impl Duplicate for DeclTy {
    fn duplicate(&self) -> (r: DeclTy) {
        self.copy()
    }
}

impl<V: Duplicate> NameMap<V> {
    /// An equal copy.
    pub fn duplicate_map(&self) -> (r: NameMap<V>)
        requires
            self.wf(),
        ensures
            r.wf(),
            r@ == self@,
    {
        let mut r: NameMap<V> = NameMap::new();
        let mut i: usize = 0;
        while i < self.len()
            invariant
                0 <= i <= self@.len(),
                self.wf(),
                r.wf(),
                r@ == self@.take(i as int),
            decreases self@.len() - i,
        {
            let e = self.entry(i);
            proof {
                self.lemma_distinct();
                lemma_fresh_key(self@, i as int);
            }
            r.insert(e.0, e.1.duplicate());
            assert(self@.take(i + 1) =~= self@.take(i as int).push(self@[i as int]));
            i = i + 1;
        }
        assert(self@.take(i as int) =~= self@);
        r
    }
}

/// The key at position `n` of a sequence with distinct keys is not among the
/// keys before it.
pub proof fn lemma_fresh_key<V>(s: Seq<(u64, V)>, n: int)
    requires
        keys(s).no_duplicates(),
        0 <= n < s.len(),
    ensures
        index_in(s.take(n), s[n].0) == -1,
{
    let t = s.take(n);
    lemma_index_in(t, s[n].0);
    let r = index_in(t, s[n].0);
    if r >= 0 {
        assert(t[r] == s[r]);
        assert(keys(s)[r] == keys(s)[n]);
    }
}

/// Who may see a member, and which type owns the private or protected ones.
#[derive(Clone, Copy, Debug, PartialEq, Eq)]
pub enum Visibility {
    Public,
    Private(u64),
    Protected(u64),
    Internal(u64),
}

/// One inherited member: a property, a method or a constructor.
#[derive(Clone, Copy, Debug, PartialEq, Eq)]
pub struct FoldedElement {
    /// The type that declared the member.
    pub origin: u64,
    pub visibility: Visibility,
    pub is_abstract: bool,
    /// The member exists only through a requirement, not a declaration.
    pub is_synthesized: bool,
    pub is_superfluous_override: bool,
    /// A private static member visible through late static binding.
    pub is_lsb: bool,
    /// The property is an XHP attribute.
    pub is_xhp_attr: bool,
}

impl Duplicate for FoldedElement {
    fn duplicate(&self) -> (r: FoldedElement) {
        *self
    }
}

#[derive(Clone, Copy, Debug, PartialEq, Eq)]
pub enum ClassConstKind {
    /// Abstract; the flag says whether it has a default value.
    Abstract(bool),
    Concrete,
}

/// A class constant.
#[derive(Debug, PartialEq, Eq)]
pub struct ClassConst {
    pub is_synthesized: bool,
    pub kind: ClassConstKind,
    pub origin: u64,
    pub ty: DeclTy,
}

impl Duplicate for ClassConst {
    fn duplicate(&self) -> (r: ClassConst) {
        ClassConst { is_synthesized: self.is_synthesized, kind: self.kind, origin: self.origin, ty: self.ty.copy() }
    }
}

/// The definition of a type constant.
#[derive(Debug, PartialEq, Eq)]
pub enum Typeconst {
    Abstract { as_constraint: Option<DeclTy>, default: Option<DeclTy> },
    Concrete(DeclTy),
}

fn copy_opt(t: &Option<DeclTy>) -> (r: Option<DeclTy>)
    ensures
        r == *t,
{
    match t {
        Some(u) => Some(u.copy()),
        None => None,
    }
}

fn instantiate_opt(t: &Option<DeclTy>, sig: &NameMap<DeclTy>) -> (r: Option<DeclTy>)
    requires
        sig.wf(),
    ensures
        r == subst_opt(sig@, *t),
{
    match t {
        Some(u) => Some(u.instantiate(sig)),
        None => None,
    }
}

pub open spec fn subst_opt(sig: Seq<(u64, DeclTy)>, t: Option<DeclTy>) -> Option<DeclTy> {
    match t {
        Some(u) => Some(subst_ty(sig, u)),
        None => None,
    }
}

impl Duplicate for Typeconst {
    fn duplicate(&self) -> (r: Typeconst) {
        match self {
            Typeconst::Abstract { as_constraint, default } => Typeconst::Abstract {
                as_constraint: copy_opt(as_constraint),
                default: copy_opt(default),
            },
            Typeconst::Concrete(t) => Typeconst::Concrete(t.copy()),
        }
    }
}

/// A type constant.
#[derive(Debug, PartialEq, Eq)]
pub struct TypeConst {
    pub is_synthesized: bool,
    pub origin: u64,
    pub kind: Typeconst,
    pub enforceable: Enforceable,
}

/// Whether a type constant is enforceable, and where that was declared.
#[derive(Clone, Copy, Debug, PartialEq, Eq)]
pub struct Enforceable {
    pub pos: u64,
    pub is_enforceable: bool,
}

impl Duplicate for TypeConst {
    fn duplicate(&self) -> (r: TypeConst) {
        TypeConst {
            is_synthesized: self.is_synthesized,
            origin: self.origin,
            kind: self.kind.duplicate(),
            enforceable: self.enforceable,
        }
    }
}

/// The class constant with the substitution `sig` applied to its type.
pub open spec fn subst_class_const(sig: Seq<(u64, DeclTy)>, c: ClassConst) -> ClassConst {
    ClassConst { ty: subst_ty(sig, c.ty), ..c }
}

/// The type constant with the substitution `sig` applied to its types.
pub open spec fn subst_type_const(sig: Seq<(u64, DeclTy)>, c: TypeConst) -> TypeConst {
    TypeConst {
        kind: match c.kind {
            Typeconst::Abstract { as_constraint, default } => Typeconst::Abstract {
                as_constraint: subst_opt(sig, as_constraint),
                default: subst_opt(sig, default),
            },
            Typeconst::Concrete(t) => Typeconst::Concrete(subst_ty(sig, t)),
        },
        ..c
    }
}

impl ClassConst {
    pub fn instantiate(&self, sig: &NameMap<DeclTy>) -> (r: ClassConst)
        requires
            sig.wf(),
        ensures
            r == subst_class_const(sig@, *self),
    {
        ClassConst { is_synthesized: self.is_synthesized, kind: self.kind, origin: self.origin, ty: self.ty.instantiate(sig) }
    }
}

impl TypeConst {
    pub fn instantiate(&self, sig: &NameMap<DeclTy>) -> (r: TypeConst)
        requires
            sig.wf(),
        ensures
            r == subst_type_const(sig@, *self),
    {
        let kind = match &self.kind {
            Typeconst::Abstract { as_constraint, default } => Typeconst::Abstract {
                as_constraint: instantiate_opt(as_constraint, sig),
                default: instantiate_opt(default, sig),
            },
            Typeconst::Concrete(t) => Typeconst::Concrete(t.instantiate(sig)),
        };
        TypeConst { is_synthesized: self.is_synthesized, origin: self.origin, kind, enforceable: self.enforceable }
    }

    pub open spec fn is_enforceable(&self) -> bool {
        self.enforceable.is_enforceable
    }
}

/// The bindings of a substitution, in order.
#[derive(Debug, PartialEq, Eq)]
pub enum Subst {
    Empty,
    Bind(u64, Box<DeclTy>, Box<Subst>),
}

/// The substitution holding the bindings of `s`, in order.
pub open spec fn subst_from(s: Seq<(u64, DeclTy)>) -> Subst
    decreases s.len(),
{
    if s.len() == 0 {
        Subst::Empty
    } else {
        Subst::Bind(s[0].0, Box::new(s[0].1), Box::new(subst_from(s.drop_first())))
    }
}

impl Subst {
    /// The bindings of `m`, in order.
    pub fn from_map(m: &NameMap<DeclTy>) -> (r: Subst)
        ensures
            r == subst_from(m@),
    {
        let mut r = Subst::Empty;
        let mut i: usize = m.len();
        while i > 0
            invariant
                i <= m@.len(),
                r == subst_from(m@.skip(i as int)),
            decreases i,
        {
            i = i - 1;
            let e = m.entry(i);
            r = Subst::Bind(e.0, Box::new(e.1.copy()), Box::new(r));
            assert(m@.skip(i as int).drop_first() =~= m@.skip(i + 1));
        }
        assert(m@.skip(0) =~= m@);
        r
    }
}

impl Duplicate for Subst {
    fn duplicate(&self) -> (r: Subst)
        decreases self,
    {
        match self {
            Subst::Empty => Subst::Empty,
            Subst::Bind(k, t, rest) => Subst::Bind(*k, Box::new((**t).copy()), Box::new((**rest).duplicate())),
        }
    }
}

/// How an ancestor was reached: the substitution used, the class in whose
/// context it was computed, and whether it came only through a required
/// extends.
#[derive(Debug, PartialEq, Eq)]
pub struct SubstContext {
    pub subst: Subst,
    pub class_context: u64,
    pub from_req_extends: bool,
}

impl Duplicate for SubstContext {
    fn duplicate(&self) -> (r: SubstContext) {
        SubstContext {
            subst: self.subst.duplicate(),
            class_context: self.class_context,
            from_req_extends: self.from_req_extends,
        }
    }
}

/// How consistently a constructor is required across a hierarchy.
#[derive(Clone, Copy, Debug, PartialEq, Eq)]
pub enum ConsistentKind {
    Inconsistent,
    ConsistentConstruct,
    FinalClass,
}

/// `ConsistentConstruct` wins over everything, then `FinalClass`;
/// `Inconsistent` comes only from two `Inconsistent`.
pub open spec fn coalesce_spec(a: ConsistentKind, b: ConsistentKind) -> ConsistentKind {
    if a == ConsistentKind::ConsistentConstruct || b == ConsistentKind::ConsistentConstruct {
        ConsistentKind::ConsistentConstruct
    } else if a == ConsistentKind::FinalClass || b == ConsistentKind::FinalClass {
        ConsistentKind::FinalClass
    } else {
        ConsistentKind::Inconsistent
    }
}

impl ConsistentKind {
    pub fn coalesce(self, other: ConsistentKind) -> (r: ConsistentKind)
        ensures
            r == coalesce_spec(self, other),
    {
        match (self, other) {
            (ConsistentKind::ConsistentConstruct, _) | (_, ConsistentKind::ConsistentConstruct) => ConsistentKind::ConsistentConstruct,
            (ConsistentKind::FinalClass, _) | (_, ConsistentKind::FinalClass) => ConsistentKind::FinalClass,
            _ => ConsistentKind::Inconsistent,
        }
    }
}

/// A constructor: the member, if there is one, and its consistency.
#[derive(Clone, Copy, Debug, PartialEq, Eq)]
pub struct Constructor {
    pub elt: Option<FoldedElement>,
    pub consistency: ConsistentKind,
}

#[derive(Clone, Copy, Debug, PartialEq, Eq)]
pub enum Abstraction {
    Abstract,
    Concrete,
}

/// The kind of a class-like declaration.
#[derive(Clone, Copy, Debug, PartialEq, Eq)]
pub enum ClassishKind {
    Class(Abstraction),
    Interface,
    Trait,
    Enum,
    EnumClass(Abstraction),
}

/// What an enum declaration adds: the enums whose constants it includes.
pub struct EnumType {
    pub includes: Vec<DeclTy>,
}

/// A class-like declaration before folding.
pub struct ShallowClass {
    pub name: u64,
    pub kind: ClassishKind,
    pub extends: Vec<DeclTy>,
    pub implements: Vec<DeclTy>,
    pub uses: Vec<DeclTy>,
    pub req_extends: Vec<DeclTy>,
    pub req_implements: Vec<DeclTy>,
    pub xhp_attr_uses: Vec<DeclTy>,
    pub enum_type: Option<EnumType>,
}

/// A class-like declaration after folding.
pub struct FoldedClass {
    pub name: u64,
    pub kind: ClassishKind,
    /// The declaration comes from a builtin (hhi) file.
    pub is_builtin: bool,
    pub tparams: Vec<u64>,
    pub substs: NameMap<SubstContext>,
    pub props: NameMap<FoldedElement>,
    pub static_props: NameMap<FoldedElement>,
    pub methods: NameMap<FoldedElement>,
    pub static_methods: NameMap<FoldedElement>,
    pub constructor: Constructor,
    pub consts: NameMap<ClassConst>,
    pub type_consts: NameMap<TypeConst>,
}

impl FoldedClass {
    pub open spec fn wf(&self) -> bool {
        &&& self.substs.wf()
        &&& self.props.wf()
        &&& self.static_props.wf()
        &&& self.methods.wf()
        &&& self.static_methods.wf()
        &&& self.consts.wf()
        &&& self.type_consts.wf()
    }
}

} // verus!

//! Reading a `#[capsule]` impl block: the source text is parsed by `syn`
//! into plain values, from which the method descriptions that
//! [`plan_capsule`](crate::capsule::plan_capsule) takes are derived.
use vstd::prelude::*;
use syn::punctuated::Punctuated;
use crate::capsule::{
    doc_text, joined_doc, opt_text, plan_capsule, methods_fold, empty_plan, plan_is, ArgKind, AstridAttr,
    CapsulePlan, ErrorSpan, MethodInfo, PlanError,
};
use crate::elicit::string_texts;
use crate::strings::trim;
use crate::text::str_eq;

verus! {

#[verifier::external_type_specification]
#[verifier::external_body]
pub struct ExItemImpl(syn::ItemImpl);

#[verifier::external_type_specification]
#[verifier::external_body]
pub struct ExImplItem(syn::ImplItem);

#[verifier::external_type_specification]
#[verifier::external_body]
pub struct ExImplItemFn(syn::ImplItemFn);

#[verifier::external_type_specification]
#[verifier::external_body]
pub struct ExAttribute(syn::Attribute);

#[verifier::external_type_specification]
#[verifier::external_body]
pub struct ExExpr(syn::Expr);

#[verifier::external_type_specification]
#[verifier::external_body]
pub struct ExFnArg(syn::FnArg);

#[verifier::external_type_specification]
#[verifier::external_body]
pub struct ExType(syn::Type);

// ---------------------------------------------------------------------------
// The syntax, as plain values.
// ---------------------------------------------------------------------------

/// One expression among an attribute's arguments, or the value after `=`.
#[derive(Debug, Clone)]
pub enum AttrArg {
    /// A string literal, by its value.
    Str(String),
    /// A path; with its identifier when the path is one plain identifier.
    Path(Option<String>),
    /// Any other expression.
    Other,
}

/// An attribute of an item.
#[derive(Debug, Clone)]
pub struct AttrSyntax {
    /// The identifiers of the attribute path's segments.
    pub segments: Vec<String>,
    /// The path as one plain identifier, when it is one.
    pub ident: Option<String>,
    /// The comma-separated expressions between the parentheses, when the
    /// attribute has them and they parse.
    pub args: Option<Vec<AttrArg>>,
    /// The expression after `=`, for an attribute of the form `path = value`.
    pub value: Option<AttrArg>,
}

/// The type of a typed argument, as far as the plan looks at it.
#[derive(Debug, Clone)]
pub enum TypeShape {
    /// A reference `&T` or `&mut T`; with `T`'s identifier when `T` is a
    /// path that is one plain identifier.
    Reference(Option<String>),
    /// Any other type.
    Other,
}

/// One input of a method's signature.
#[derive(Debug, Clone)]
pub enum ArgSyntax {
    /// The `self` receiver: whether the binding is `mut self`, and whether
    /// it is the shorthand `&mut self`.
    Receiver { mut_binding: bool, mut_reference: bool },
    /// A typed argument.
    Typed(TypeShape),
}

/// A method of the impl block.
#[derive(Debug, Clone)]
pub struct MethodSyntax {
    pub name: String,
    pub attrs: Vec<AttrSyntax>,
    pub inputs: Vec<ArgSyntax>,
}

/// An item of the impl block.
#[derive(Debug, Clone)]
pub enum ItemSyntax {
    Method(MethodSyntax),
    /// A constant, type, macro or other item.
    Other,
}

/// An impl block: its own attributes and its items, in order.
#[derive(Debug, Clone)]
pub struct ImplSyntax {
    pub attrs: Vec<AttrSyntax>,
    pub items: Vec<ItemSyntax>,
}

pub enum ArgModel {
    Str(Seq<char>),
    Path(Option<Seq<char>>),
    Other,
}

pub struct AttrModel {
    pub segments: Seq<Seq<char>>,
    pub ident: Option<Seq<char>>,
    pub args: Option<Seq<ArgModel>>,
    pub value: Option<ArgModel>,
}

pub enum ShapeModel {
    Reference(Option<Seq<char>>),
    Other,
}

pub enum InputModel {
    Receiver { mut_binding: bool, mut_reference: bool },
    Typed(ShapeModel),
}

pub struct MethodModel {
    pub name: Seq<char>,
    pub attrs: Seq<AttrModel>,
    pub inputs: Seq<InputModel>,
}

pub enum ItemModel {
    Method(MethodModel),
    Other,
}

pub struct ImplModel {
    pub attrs: Seq<AttrModel>,
    pub items: Seq<ItemModel>,
}

pub open spec fn arg_model(a: AttrArg) -> ArgModel {
    match a {
        AttrArg::Str(s) => ArgModel::Str(s@),
        AttrArg::Path(p) => ArgModel::Path(opt_text(p)),
        AttrArg::Other => ArgModel::Other,
    }
}

pub open spec fn attr_model(a: AttrSyntax) -> AttrModel {
    AttrModel {
        segments: string_texts(a.segments@),
        ident: opt_text(a.ident),
        args: match a.args {
            Some(v) => Some(v@.map_values(|x: AttrArg| arg_model(x))),
            None => None,
        },
        value: match a.value {
            Some(x) => Some(arg_model(x)),
            None => None,
        },
    }
}

pub open spec fn attr_models(v: Seq<AttrSyntax>) -> Seq<AttrModel> {
    v.map_values(|a: AttrSyntax| attr_model(a))
}

pub open spec fn input_model(a: ArgSyntax) -> InputModel {
    match a {
        ArgSyntax::Receiver { mut_binding, mut_reference } => InputModel::Receiver { mut_binding, mut_reference },
        ArgSyntax::Typed(TypeShape::Reference(t)) => InputModel::Typed(ShapeModel::Reference(opt_text(t))),
        ArgSyntax::Typed(TypeShape::Other) => InputModel::Typed(ShapeModel::Other),
    }
}

pub open spec fn method_model(m: MethodSyntax) -> MethodModel {
    MethodModel {
        name: m.name@,
        attrs: attr_models(m.attrs@),
        inputs: m.inputs@.map_values(|a: ArgSyntax| input_model(a)),
    }
}

pub open spec fn item_model(i: ItemSyntax) -> ItemModel {
    match i {
        ItemSyntax::Method(m) => ItemModel::Method(method_model(m)),
        ItemSyntax::Other => ItemModel::Other,
    }
}

impl View for ImplSyntax {
    type V = ImplModel;

    open spec fn view(&self) -> ImplModel {
        ImplModel { attrs: attr_models(self.attrs@), items: self.items@.map_values(|i: ItemSyntax| item_model(i)) }
    }
}

// ---------------------------------------------------------------------------
// Parsing with `syn`.
// ---------------------------------------------------------------------------

/// Name for what `syn::parse_str::<syn::ItemImpl>` makes of `text`, as
/// plain values: `None` when the text is not one impl block.
pub uninterp spec fn impl_syntax_of(text: Seq<char>) -> Option<ImplModel>;

/// Name for what `syn::parse_str::<syn::Ident>` makes of `text`: the
/// identifier's text, or `None` when the text is not one identifier.
pub uninterp spec fn ident_of(text: Seq<char>) -> Option<Seq<char>>;

/// An expression, as an attribute argument.
#[verifier::external_body]
fn attr_arg(e: &syn::Expr) -> AttrArg {
    match e {
        syn::Expr::Lit(syn::ExprLit { lit: syn::Lit::Str(s), .. }) => AttrArg::Str(s.value()),
        syn::Expr::Path(p) => AttrArg::Path(p.path.get_ident().map(|i| i.to_string())),
        _ => AttrArg::Other,
    }
}

/// An attribute, converted field by field.
#[verifier::external_body]
fn attr_syntax(a: &syn::Attribute) -> AttrSyntax {
    let path = a.path();
    AttrSyntax {
        segments: path.segments.iter().map(|s| s.ident.to_string()).collect(),
        ident: path.get_ident().map(|i| i.to_string()),
        args: a.parse_args_with(Punctuated::<syn::Expr, syn::token::Comma>::parse_terminated)
            .ok()
            .map(|p| p.iter().map(attr_arg).collect()),
        value: match &a.meta {
            syn::Meta::NameValue(nv) => Some(attr_arg(&nv.value)),
            _ => None,
        },
    }
}

/// A type, as far as the plan looks at it.
#[verifier::external_body]
fn type_shape(t: &syn::Type) -> TypeShape {
    match t {
        syn::Type::Reference(r) => TypeShape::Reference(match r.elem.as_ref() {
            syn::Type::Path(p) => p.path.get_ident().map(|i| i.to_string()),
            _ => None,
        }),
        _ => TypeShape::Other,
    }
}

/// An input of a signature.
#[verifier::external_body]
fn arg_syntax(a: &syn::FnArg) -> ArgSyntax {
    match a {
        syn::FnArg::Receiver(r) => ArgSyntax::Receiver {
            mut_binding: r.mutability.is_some(),
            mut_reference: matches!(r.kind, syn::ReceiverKind::Reference(_, _, Some(_))),
        },
        syn::FnArg::Typed(t) => ArgSyntax::Typed(type_shape(&t.ty)),
    }
}

/// A method, converted field by field.
#[verifier::external_body]
fn method_syntax(m: &syn::ImplItemFn) -> MethodSyntax {
    MethodSyntax {
        name: m.sig.ident.to_string(),
        attrs: m.attrs.iter().map(attr_syntax).collect(),
        inputs: m.sig.inputs.iter().map(arg_syntax).collect(),
    }
}

/// An item of an impl block.
#[verifier::external_body]
fn item_syntax(i: &syn::ImplItem) -> ItemSyntax {
    match i {
        syn::ImplItem::Fn(m) => ItemSyntax::Method(method_syntax(m)),
        _ => ItemSyntax::Other,
    }
}

/// An impl block, converted field by field.
#[verifier::external_body]
fn impl_syntax(i: &syn::ItemImpl) -> ImplSyntax {
    ImplSyntax {
        attrs: i.attrs.iter().map(attr_syntax).collect(),
        items: i.items.iter().map(item_syntax).collect(),
    }
}

/// Parses `item` as an impl block with `syn::parse_str::<syn::ItemImpl>`:
/// its syntax as plain values, the named [`impl_syntax_of`] of the text;
/// on failure, `syn`'s error text.
#[verifier::external_body]
pub fn parse_impl_block(item: &str) -> (r: Result<ImplSyntax, String>)
    ensures
        match r {
            Ok(s) => impl_syntax_of(item@) == Some(s@),
            Err(_) => impl_syntax_of(item@) is None,
        },
{
    match syn::parse_str::<syn::ItemImpl>(item) {
        Ok(i) => Ok(impl_syntax(&i)),
        Err(e) => Err(e.to_string()),
    }
}

/// Parses `text` as one identifier with `syn::parse_str::<syn::Ident>`:
/// its text, the named [`ident_of`] of the input.
#[verifier::external_body]
fn parse_ident(text: &str) -> (r: Option<String>)
    ensures
        opt_text(r) == ident_of(text@),
{
    syn::parse_str::<syn::Ident>(text).ok().map(|i| i.to_string())
}

// ---------------------------------------------------------------------------
// From the syntax to the method descriptions.
// ---------------------------------------------------------------------------

/// Whether `a` is an `#[astrid::<kind>]` attribute: a path of exactly two
/// segments, the first `astrid`.
pub open spec fn is_astrid(a: AttrModel) -> bool {
    a.segments.len() == 2 && a.segments[0] == "astrid"@
}

/// The `astrid::` attributes among `attrs`, in order.
pub open spec fn astrid_of(attrs: Seq<AttrModel>) -> Seq<AttrModel>
    decreases attrs.len(),
{
    if attrs.len() == 0 {
        Seq::empty()
    } else if is_astrid(attrs.last()) {
        astrid_of(attrs.drop_last()).push(attrs.last())
    } else {
        astrid_of(attrs.drop_last())
    }
}

/// The last string literal among `args`.
pub open spec fn last_str(args: Seq<ArgModel>) -> Option<Seq<char>>
    decreases args.len(),
{
    if args.len() == 0 {
        None
    } else {
        match args.last() {
            ArgModel::Str(s) => Some(s),
            _ => last_str(args.drop_last()),
        }
    }
}

/// Whether the bare path `mutable` is among `args`.
pub open spec fn has_mutable(args: Seq<ArgModel>) -> bool {
    exists|i: int| 0 <= i < args.len() && #[trigger] args[i] == ArgModel::Path(Some("mutable"@))
}

/// The name an attribute gives: its last string-literal argument.
pub open spec fn name_of(a: AttrModel) -> Option<Seq<char>> {
    match a.args {
        Some(v) => last_str(v),
        None => None,
    }
}

/// Whether an attribute's arguments hold the bare path `mutable`.
pub open spec fn mutable_of(a: AttrModel) -> bool {
    match a.args {
        Some(v) => has_mutable(v),
        None => false,
    }
}

/// Whether `x` describes the `astrid::` attribute `a`: its kind is the
/// second path segment, its name the last string literal among its
/// arguments, and it is mutable when a bare `mutable` is among them.
pub open spec fn attr_is(x: AstridAttr, a: AttrModel) -> bool {
    &&& x.kind@ == a.segments[1]
    &&& opt_text(x.name) == name_of(a)
    &&& x.mutable == mutable_of(a)
}

/// The values of the `doc = "..."` attributes among `attrs`, in order.
pub open spec fn doc_lines(attrs: Seq<AttrModel>) -> Seq<Seq<char>>
    decreases attrs.len(),
{
    if attrs.len() == 0 {
        Seq::empty()
    } else {
        match (attrs.last().ident, attrs.last().value) {
            (Some(i), Some(ArgModel::Str(line))) => if i == "doc"@ {
                doc_lines(attrs.drop_last()).push(line)
            } else {
                doc_lines(attrs.drop_last())
            },
            _ => doc_lines(attrs.drop_last()),
        }
    }
}

/// The description the doc comment among `attrs` gives.
pub open spec fn description_of(attrs: Seq<AttrModel>) -> Option<Seq<char>> {
    let ls = doc_lines(attrs);
    if ls.len() == 0 {
        None
    } else {
        Some(trim(joined_doc(ls)))
    }
}

/// The type of the first typed input.
pub open spec fn first_typed(inputs: Seq<InputModel>) -> Option<ShapeModel>
    decreases inputs.len(),
{
    if inputs.len() == 0 {
        None
    } else {
        match inputs[0] {
            InputModel::Typed(t) => Some(t),
            _ => first_typed(inputs.drop_first()),
        }
    }
}

/// The shape of a method's first typed argument.
pub open spec fn arg_kind_of(inputs: Seq<InputModel>) -> ArgKind {
    match first_typed(inputs) {
        None => ArgKind::NoArg,
        Some(ShapeModel::Reference(Some(t))) => if t == "str"@ {
            ArgKind::RefStr
        } else {
            ArgKind::Other
        },
        Some(_) => ArgKind::Other,
    }
}

/// Whether an input is the receiver `mut self` or `&mut self`.
pub open spec fn is_mut_receiver(x: InputModel) -> bool {
    match x {
        InputModel::Receiver { mut_binding, mut_reference } => mut_binding || mut_reference,
        InputModel::Typed(_) => false,
    }
}

/// Whether a method takes `mut self` or `&mut self`.
pub open spec fn mut_receiver_of(inputs: Seq<InputModel>) -> bool {
    exists|i: int| 0 <= i < inputs.len() && is_mut_receiver(#[trigger] inputs[i])
}

proof fn lemma_first_typed_step(s: Seq<InputModel>, n: int)
    requires
        0 <= n < s.len(),
    ensures
        first_typed(s.take(n + 1)) == (if first_typed(s.take(n)) is Some {
            first_typed(s.take(n))
        } else {
            match s[n] {
                InputModel::Typed(t) => Some(t),
                _ => None,
            }
        }),
    decreases n,
{
    if n == 0 {
        assert(s.take(1).drop_first() =~= Seq::<InputModel>::empty());
        assert(s.take(0) =~= Seq::<InputModel>::empty());
    } else {
        assert(s.take(n + 1)[0] == s[0]);
        assert(s.take(n)[0] == s[0]);
        assert(s.take(n + 1).drop_first() =~= s.drop_first().take(n));
        assert(s.take(n).drop_first() =~= s.drop_first().take(n - 1));
        lemma_first_typed_step(s.drop_first(), n - 1);
    }
}

proof fn lemma_first_typed_prefix(s: Seq<InputModel>, n: int)
    requires
        0 <= n <= s.len(),
        first_typed(s.take(n)) is Some,
    ensures
        first_typed(s) == first_typed(s.take(n)),
    decreases n,
{
    if n == 0 {
        assert(s.take(0) =~= Seq::<InputModel>::empty());
    } else {
        assert(s.take(n)[0] == s[0]);
        assert(s.take(n).drop_first() =~= s.drop_first().take(n - 1));
        match s[0] {
            InputModel::Typed(_) => {},
            _ => lemma_first_typed_prefix(s.drop_first(), n - 1),
        }
    }
}

/// Whether `m` describes the method `s`.
pub open spec fn method_info_is(m: MethodInfo, s: MethodModel) -> bool {
    let astrid = astrid_of(s.attrs);
    &&& m.name@ == s.name
    &&& m.arg == arg_kind_of(s.inputs)
    &&& m.mut_receiver == mut_receiver_of(s.inputs)
    &&& m.attrs@.len() == astrid.len()
    &&& forall|i: int| 0 <= i < astrid.len() ==> attr_is(#[trigger] m.attrs@[i], astrid[i])
    &&& opt_text(m.description) == description_of(s.attrs)
}

/// The methods among `items`, in order.
pub open spec fn methods_of(items: Seq<ItemModel>) -> Seq<MethodModel>
    decreases items.len(),
{
    if items.len() == 0 {
        Seq::empty()
    } else {
        match items.last() {
            ItemModel::Method(m) => methods_of(items.drop_last()).push(m),
            ItemModel::Other => methods_of(items.drop_last()),
        }
    }
}

/// Whether `ms` describes the methods `s`, one for one.
pub open spec fn infos_are(ms: Seq<MethodInfo>, s: Seq<MethodModel>) -> bool {
    &&& ms.len() == s.len()
    &&& forall|i: int| 0 <= i < s.len() ==> method_info_is(#[trigger] ms[i], s[i])
}

fn clone_text(s: &String) -> (r: String)
    ensures
        r@ == s@,
{
    String::from_str(s.as_str())
}

/// The `astrid::` attribute `a`, described.
fn astrid_attr(a: &AttrSyntax) -> (r: AstridAttr)
    requires
        is_astrid(attr_model(*a)),
    ensures
        attr_is(r, attr_model(*a)),
{
    let kind = clone_text(&a.segments[1]);
    let mut name: Option<String> = None;
    let mut mutable = false;
    match &a.args {
        Some(args) => {
            let ghost am = args@.map_values(|x: AttrArg| arg_model(x));
            let mut i: usize = 0;
            while i < args.len()
                invariant
                    i <= args@.len(),
                    am == args@.map_values(|x: AttrArg| arg_model(x)),
                    opt_text(name) == last_str(am.take(i as int)),
                    mutable == has_mutable(am.take(i as int)),
                decreases args.len() - i,
            {
                let ghost t = am.take(i + 1);
                proof {
                    assert(t.drop_last() =~= am.take(i as int));
                    assert(t.last() == arg_model(args@[i as int]));
                }
                match &args[i] {
                    AttrArg::Str(v) => {
                        name = Some(clone_text(v));
                    },
                    AttrArg::Path(Some(p)) => {
                        if str_eq(p.as_str(), "mutable") {
                            mutable = true;
                        }
                    },
                    _ => {},
                }
                proof {
                    reveal_strlit("mutable");
                    if mutable {
                        if !has_mutable(am.take(i as int)) {
                            assert(t[i as int] == ArgModel::Path(Some("mutable"@)));
                        } else {
                            let w = choose|w: int| 0 <= w < i && #[trigger] am.take(i as int)[w] == ArgModel::Path(Some("mutable"@));
                            assert(t[w] == am.take(i as int)[w]);
                        }
                    } else {
                        assert forall|w: int| 0 <= w < t.len() implies #[trigger] t[w] != ArgModel::Path(Some("mutable"@)) by {
                            if w < i {
                                assert(t[w] == am.take(i as int)[w]);
                            }
                        }
                    }
                }
                i = i + 1;
            }
            assert(am.take(args@.len() as int) =~= am);
        },
        None => {},
    }
    AstridAttr { kind, name, mutable }
}

/// The method `m`, described for the plan.
fn method_info(m: &MethodSyntax) -> (r: MethodInfo)
    ensures
        method_info_is(r, method_model(*m)),
{
    let ghost am = attr_models(m.attrs@);
    let mut attrs: Vec<AstridAttr> = Vec::new();
    let mut lines: Vec<String> = Vec::new();
    let mut i: usize = 0;
    while i < m.attrs.len()
        invariant
            i <= m.attrs@.len(),
            am == attr_models(m.attrs@),
            attrs@.len() == astrid_of(am.take(i as int)).len(),
            forall|k: int| 0 <= k < attrs@.len() ==> attr_is(#[trigger] attrs@[k], astrid_of(am.take(i as int))[k]),
            string_texts(lines@) == doc_lines(am.take(i as int)),
        decreases m.attrs.len() - i,
    {
        let a = &m.attrs[i];
        let ghost t = am.take(i + 1);
        let ghost prev = astrid_of(am.take(i as int));
        proof {
            assert(t.drop_last() =~= am.take(i as int));
            assert(t.last() == attr_model(*a));
        }
        if a.segments.len() == 2 && str_eq(a.segments[0].as_str(), "astrid") {
            proof {
                reveal_strlit("astrid");
                assert(string_texts(a.segments@)[0] == a.segments@[0]@);
            }
            let x = astrid_attr(a);
            let ghost before = attrs@;
            attrs.push(x);
            proof {
                assert(astrid_of(t) == prev.push(attr_model(*a)));
                assert forall|k: int| 0 <= k < attrs@.len() implies attr_is(#[trigger] attrs@[k], astrid_of(t)[k]) by {
                    if k < prev.len() {
                        assert(attrs@[k] == before[k]);
                        assert(astrid_of(t)[k] == prev[k]);
                    }
                }
            }
        } else {
            proof {
                reveal_strlit("astrid");
                if is_astrid(attr_model(*a)) {
                    assert(string_texts(a.segments@)[0] == a.segments@[0]@);
                }
                assert(astrid_of(t) == prev);
            }
        }
        let ghost lines_before = lines@;
        match (&a.ident, &a.value) {
            (Some(id), Some(AttrArg::Str(line))) => {
                if str_eq(id.as_str(), "doc") {
                    lines.push(clone_text(line));
                    proof {
                        reveal_strlit("doc");
                        assert(string_texts(lines@) =~= string_texts(lines_before).push(line@));
                    }
                } else {
                    proof {
                        reveal_strlit("doc");
                    }
                }
            },
            _ => {},
        }
        i = i + 1;
    }
    proof {
        assert(am.take(m.attrs@.len() as int) =~= am);
    }
    let description = doc_text(&lines);
    let ghost im = m.inputs@.map_values(|a: ArgSyntax| input_model(a));
    let mut arg = ArgKind::NoArg;
    let mut found = false;
    let mut mut_receiver = false;
    let mut j: usize = 0;
    while j < m.inputs.len()
        invariant
            j <= m.inputs@.len(),
            im == m.inputs@.map_values(|a: ArgSyntax| input_model(a)),
            found == (first_typed(im.take(j as int)) is Some),
            found ==> first_typed(im) == first_typed(im.take(j as int)),
            found ==> arg == arg_kind_of(im),
            !found ==> arg == ArgKind::NoArg,
            mut_receiver == mut_receiver_of(im.take(j as int)),
        decreases m.inputs.len() - j,
    {
        let ghost t = im.take(j + 1);
        proof {
            lemma_first_typed_step(im, j as int);
            assert(im[j as int] == input_model(m.inputs@[j as int]));
            assert(t.drop_last() =~= im.take(j as int));
            assert(t.last() == im[j as int]);
        }
        match &m.inputs[j] {
            ArgSyntax::Receiver { mut_binding, mut_reference } => {
                if *mut_binding || *mut_reference {
                    mut_receiver = true;
                }
            },
            ArgSyntax::Typed(shape) => {
                if !found {
                    found = true;
                    arg = match shape {
                        TypeShape::Reference(Some(name)) => if str_eq(name.as_str(), "str") {
                            ArgKind::RefStr
                        } else {
                            ArgKind::Other
                        },
                        _ => ArgKind::Other,
                    };
                    proof {
                        reveal_strlit("str");
                    }
                }
            },
        }
        proof {
            if found {
                lemma_first_typed_prefix(im, j + 1);
            }
            let p = im.take(j as int);
            if mut_receiver {
                if !mut_receiver_of(p) {
                    assert(is_mut_receiver(t[j as int]));
                } else {
                    let w = choose|w: int| 0 <= w < p.len() && is_mut_receiver(#[trigger] p[w]);
                    assert(t[w] == p[w]);
                }
            } else {
                assert forall|w: int| 0 <= w < t.len() implies !is_mut_receiver(#[trigger] t[w]) by {
                    if w < j {
                        assert(t[w] == p[w]);
                    }
                }
            }
        }
        j = j + 1;
    }
    proof {
        assert(im.take(m.inputs@.len() as int) =~= im);
    }
    MethodInfo { name: clone_text(&m.name), arg, mut_receiver, attrs, description }
}

/// The descriptions of the methods of the impl block `s`, in order: for
/// each method, its name, the shape of its first typed argument, whether
/// it takes `mut self` or `&mut self`, its `astrid::` attributes (kind,
/// name and inline `mutable`) and the description its doc comment gives.
pub fn method_infos(s: &ImplSyntax) -> (r: Vec<MethodInfo>)
    ensures
        infos_are(r@, methods_of(s@.items)),
{
    let ghost items = s@.items;
    let mut out: Vec<MethodInfo> = Vec::new();
    let mut i: usize = 0;
    while i < s.items.len()
        invariant
            i <= s.items@.len(),
            items == s@.items,
            infos_are(out@, methods_of(items.take(i as int))),
        decreases s.items.len() - i,
    {
        let ghost t = items.take(i + 1);
        let ghost prev = methods_of(items.take(i as int));
        proof {
            assert(t.drop_last() =~= items.take(i as int));
            assert(t.last() == item_model(s.items@[i as int]));
        }
        match &s.items[i] {
            ItemSyntax::Method(m) => {
                let info = method_info(m);
                let ghost before = out@;
                out.push(info);
                proof {
                    assert(methods_of(t) == prev.push(method_model(*m)));
                    assert forall|k: int| 0 <= k < methods_of(t).len() implies method_info_is(#[trigger] out@[k], methods_of(t)[k]) by {
                        if k < prev.len() {
                            assert(out@[k] == before[k]);
                        }
                    }
                }
            },
            ItemSyntax::Other => {
                proof {
                    assert(methods_of(t) == prev);
                }
            },
        }
        i = i + 1;
    }
    proof {
        assert(items.take(s.items@.len() as int) =~= items);
    }
    out
}

/// The description of the capsule: what the impl block's own doc comment
/// gives.
pub fn capsule_description(s: &ImplSyntax) -> (r: Option<String>)
    ensures
        opt_text(r) == description_of(s@.attrs),
{
    let ghost am = s@.attrs;
    let mut lines: Vec<String> = Vec::new();
    let mut i: usize = 0;
    while i < s.attrs.len()
        invariant
            i <= s.attrs@.len(),
            am == s@.attrs,
            string_texts(lines@) == doc_lines(am.take(i as int)),
        decreases s.attrs.len() - i,
    {
        let a = &s.attrs[i];
        let ghost t = am.take(i + 1);
        proof {
            assert(t.drop_last() =~= am.take(i as int));
            assert(t.last() == attr_model(*a));
        }
        let ghost lines_before = lines@;
        match (&a.ident, &a.value) {
            (Some(id), Some(AttrArg::Str(line))) => {
                if str_eq(id.as_str(), "doc") {
                    lines.push(clone_text(line));
                    proof {
                        reveal_strlit("doc");
                        assert(string_texts(lines@) =~= string_texts(lines_before).push(line@));
                    }
                } else {
                    proof {
                        reveal_strlit("doc");
                    }
                }
            },
            _ => {},
        }
        i = i + 1;
    }
    proof {
        assert(am.take(s.attrs@.len() as int) =~= am);
    }
    doc_text(&lines)
}

/// Whether the capsule attribute's text `attr` is the identifier `state`
/// (`#[capsule(state)]`); any other text, or none, is not.
pub fn state_attr(attr: &str) -> (b: bool)
    ensures
        b == (ident_of(attr@) == Some("state"@)),
{
    match parse_ident(attr) {
        Some(id) => {
            proof {
                reveal_strlit("state");
            }
            str_eq(id.as_str(), "state")
        },
        None => false,
    }
}

/// The dispatch plan of the `#[capsule]` impl block `item`, with `attr` the
/// capsule attribute's text: the block is parsed, its methods described
/// and planned; a text that is not one impl block is a compile error at
/// the item carrying `syn`'s message.
pub fn plan_capsule_text(attr: &str, item: &str) -> (r: Result<CapsulePlan, PlanError>)
    ensures
        impl_syntax_of(item@) is None ==> (r matches Err(e) && e.span == ErrorSpan::Item),
        impl_syntax_of(item@) matches Some(s) ==> exists|ms: Seq<MethodInfo>| #[trigger] infos_are(ms, methods_of(s.items))
            && match methods_fold(empty_plan(), ms) {
            Ok(st) => r matches Ok(p) && plan_is(p, st, ident_of(attr@) == Some("state"@), ms),
            Err(e) => r matches Err(pe) && pe.message@ == e.message && pe.span == e.span,
        },
{
    let syntax = match parse_impl_block(item) {
        Ok(s) => s,
        Err(message) => {
            return Err(PlanError { message, span: ErrorSpan::Item });
        },
    };
    let stateful = state_attr(attr);
    let methods = method_infos(&syntax);
    let r = plan_capsule(stateful, &methods);
    proof {
        let s = impl_syntax_of(item@)->Some_0;
        assert(s == syntax@);
        assert(infos_are(methods@, methods_of(s.items)));
    }
    r
}

} // verus!

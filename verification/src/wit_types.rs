//! Rust declarations for WIT contract types: how each WIT type is written
//! as a Rust type, which named types become Rust items, and which module
//! each item lands in.
//!
//! The WIT package is described by a [`WitModel`]: its type arena (each
//! type listed after the types it mentions, as a resolved WIT package
//! lists them) and its interfaces.
use vstd::prelude::*;
use crate::strings::{chars_less, lemma_text_less_total, lemma_text_less_transitive, text_less, trim, trim_chars};
use crate::text::{chars_of, decimal, push_str, str_eq, string_from_chars};
use crate::wit::{kebab_to_pascal, kebab_to_snake, pascal, snake};

verus! {

/// A WIT type as it appears in a field, case or type definition.
#[derive(Debug, Clone, Copy, PartialEq, Eq)]
pub enum WitType {
    Bool,
    U8,
    U16,
    U32,
    U64,
    S8,
    S16,
    S32,
    S64,
    F32,
    F64,
    Char,
    String,
    ErrorContext,
    /// The type defined at this index of the arena.
    Id(usize),
}

/// A record field.
#[derive(Debug, Clone)]
pub struct WitField {
    pub name: String,
    pub ty: WitType,
    pub docs: Option<String>,
}

/// An enum case, flag or variant case (only variant cases carry a type).
#[derive(Debug, Clone)]
pub struct WitCase {
    pub name: String,
    pub ty: Option<WitType>,
    pub docs: Option<String>,
}

/// What a type definition defines.
#[derive(Debug, Clone)]
pub enum WitTypeKind {
    Record(Vec<WitField>),
    Enum(Vec<WitCase>),
    Flags(Vec<WitCase>),
    Variant(Vec<WitCase>),
    List(WitType),
    Option(WitType),
    Tuple(Vec<WitType>),
    /// `type x = y`.
    Alias(WitType),
    /// Any other kind (resources, handles, results, futures, streams...).
    Other,
}

/// One entry of the type arena.
#[derive(Debug, Clone)]
pub struct WitTypeDef {
    pub name: Option<String>,
    pub kind: WitTypeKind,
    /// The index of the owning interface, for a type defined in one.
    pub interface: Option<usize>,
    pub docs: Option<String>,
}

/// A resolved WIT package: its type arena and its interfaces' names.
#[derive(Debug, Clone)]
pub struct WitModel {
    pub types: Vec<WitTypeDef>,
    pub interfaces: Vec<Option<String>>,
}

/// The text written for any WIT type without a Rust counterpart.
pub open spec fn json_value_text() -> Seq<char> {
    "::serde_json::Value"@
}

/// The Rust path of the named type defined at `j`: its PascalCase name
/// (`Unknown` when unnamed), qualified as `super::<interface>::` when its
/// owning interface has a name.
pub open spec fn named_text(m: WitModel, j: int) -> Seq<char> {
    let d = m.types@[j];
    let ident = pascal(
        match d.name {
            Some(n) => n@,
            None => "Unknown"@,
        },
    );
    match d.interface {
        Some(k) => if k < m.interfaces@.len() {
            match m.interfaces@[k as int] {
                Some(iname) => "super::"@ + snake(iname@) + "::"@ + ident,
                None => ident,
            }
        } else {
            ident
        },
        None => ident,
    }
}

/// The Rust type written for `t`, and whether a field of that type is
/// optional (written as `Option<...>` with serde defaults). Only types
/// before `bound` in the arena are followed.
pub open spec fn ty_text(m: WitModel, t: WitType, bound: nat) -> (Seq<char>, bool)
    decreases bound, 1nat, 0nat,
{
    match t {
        WitType::Bool => ("bool"@, false),
        WitType::U8 => ("u8"@, false),
        WitType::U16 => ("u16"@, false),
        WitType::U32 => ("u32"@, false),
        WitType::U64 => ("u64"@, false),
        WitType::S8 => ("i8"@, false),
        WitType::S16 => ("i16"@, false),
        WitType::S32 => ("i32"@, false),
        WitType::S64 => ("i64"@, false),
        WitType::F32 => ("f32"@, false),
        WitType::F64 => ("f64"@, false),
        WitType::Char => ("char"@, false),
        WitType::String => ("String"@, false),
        WitType::ErrorContext => ("String"@, false),
        WitType::Id(j) => if j < bound && j < m.types@.len() {
            def_text(m, j as nat)
        } else {
            (json_value_text(), false)
        },
    }
}

/// The Rust type written for the definition at `j`.
pub open spec fn def_text(m: WitModel, j: nat) -> (Seq<char>, bool)
    decreases j + 1, 0nat, 0nat,
{
    if j < m.types@.len() {
        match m.types@[j as int].kind {
            WitTypeKind::List(inner) => ("Vec<"@ + ty_text(m, inner, j).0 + ">"@, false),
            WitTypeKind::Option(inner) => {
                let (it, io) = ty_text(m, inner, j);
                if io {
                    ("Option<"@ + it + ">"@, true)
                } else {
                    (it, true)
                }
            },
            WitTypeKind::Tuple(ts) => ("("@ + tuple_items(m, ts@, j) + ")"@, false),
            WitTypeKind::Alias(inner) => ty_text(m, inner, j),
            WitTypeKind::Record(_) => (named_text(m, j as int), false),
            WitTypeKind::Enum(_) => (named_text(m, j as int), false),
            WitTypeKind::Flags(_) => (named_text(m, j as int), false),
            WitTypeKind::Variant(_) => (named_text(m, j as int), false),
            WitTypeKind::Other => (json_value_text(), false),
        }
    } else {
        (json_value_text(), false)
    }
}

/// The Rust types of a tuple's members, separated by `, `.
pub open spec fn tuple_items(m: WitModel, ts: Seq<WitType>, bound: nat) -> Seq<char>
    decreases bound, 2nat, ts.len(),
{
    if ts.len() == 0 {
        Seq::empty()
    } else if ts.len() == 1 {
        ty_text(m, ts[0], bound).0
    } else {
        tuple_items(m, ts.drop_last(), bound) + ", "@ + ty_text(m, ts.last(), bound).0
    }
}

fn named_text_exec(m: &WitModel, j: usize) -> (r: Vec<char>)
    requires
        j < m.types@.len(),
    ensures
        r@ == named_text(*m, j as int),
{
    let d = &m.types[j];
    let name: &str = match &d.name {
        Some(n) => n.as_str(),
        None => "Unknown",
    };
    let ident = chars_of(kebab_to_pascal(name).as_str());
    match d.interface {
        Some(k) => {
            if k < m.interfaces.len() {
                match &m.interfaces[k] {
                    Some(iname) => {
                        let mut out: Vec<char> = Vec::new();
                        push_str(&mut out, "super::");
                        push_str(&mut out, kebab_to_snake(iname.as_str()).as_str());
                        push_str(&mut out, "::");
                        let mut id = ident;
                        out.append(&mut id);
                        out
                    },
                    None => ident,
                }
            } else {
                ident
            }
        },
        None => ident,
    }
}

fn chars(s: &str) -> (v: Vec<char>)
    ensures
        v@ == s@,
{
    chars_of(s)
}

/// The Rust type written for `t`, following only types before `bound`.
pub fn type_text(m: &WitModel, t: WitType, bound: usize) -> (r: (Vec<char>, bool))
    requires
        bound <= m.types@.len(),
    ensures
        r.0@ == ty_text(*m, t, bound as nat).0,
        r.1 == ty_text(*m, t, bound as nat).1,
    decreases bound, 1nat, 0nat,
{
    match t {
        WitType::Bool => (chars("bool"), false),
        WitType::U8 => (chars("u8"), false),
        WitType::U16 => (chars("u16"), false),
        WitType::U32 => (chars("u32"), false),
        WitType::U64 => (chars("u64"), false),
        WitType::S8 => (chars("i8"), false),
        WitType::S16 => (chars("i16"), false),
        WitType::S32 => (chars("i32"), false),
        WitType::S64 => (chars("i64"), false),
        WitType::F32 => (chars("f32"), false),
        WitType::F64 => (chars("f64"), false),
        WitType::Char => (chars("char"), false),
        WitType::String => (chars("String"), false),
        WitType::ErrorContext => (chars("String"), false),
        WitType::Id(j) => {
            if j < bound {
                definition_text(m, j)
            } else {
                (chars("::serde_json::Value"), false)
            }
        },
    }
}

/// The Rust type written for the definition at `j`.
pub fn definition_text(m: &WitModel, j: usize) -> (r: (Vec<char>, bool))
    requires
        j < m.types@.len(),
    ensures
        r.0@ == def_text(*m, j as nat).0,
        r.1 == def_text(*m, j as nat).1,
    decreases j + 1, 0nat, 0nat,
{
    match &m.types[j].kind {
        WitTypeKind::List(inner) => {
            let (it, _) = type_text(m, *inner, j);
            let mut out = chars("Vec<");
            let mut it = it;
            out.append(&mut it);
            push_str(&mut out, ">");
            (out, false)
        },
        WitTypeKind::Option(inner) => {
            let (it, io) = type_text(m, *inner, j);
            if io {
                let mut out = chars("Option<");
                let mut it = it;
                out.append(&mut it);
                push_str(&mut out, ">");
                (out, true)
            } else {
                (it, true)
            }
        },
        WitTypeKind::Tuple(ts) => {
            let mut items: Vec<char> = Vec::new();
            let mut i: usize = 0;
            while i < ts.len()
                invariant
                    j < m.types@.len(),
                    m.types@[j as int].kind == WitTypeKind::Tuple(*ts),
                    i <= ts@.len(),
                    items@ == tuple_items(*m, ts@.take(i as int), j as nat),
                decreases ts.len() - i,
            {
                let (t_i, _) = type_text(m, ts[i], j);
                let ghost prev = items@;
                if i > 0 {
                    push_str(&mut items, ", ");
                }
                let mut t_i = t_i;
                items.append(&mut t_i);
                proof {
                    let tk = ts@.take(i + 1);
                    assert(tk.drop_last() =~= ts@.take(i as int));
                    assert(tk.last() == ts@[i as int]);
                    if i == 0 {
                        assert(items@ =~= tuple_items(*m, tk, j as nat));
                    } else {
                        assert(items@ =~= prev + ", "@ + ty_text(*m, ts@[i as int], j as nat).0);
                    }
                }
                i = i + 1;
            }
            assert(ts@.take(ts@.len() as int) =~= ts@);
            let mut out = chars("(");
            out.append(&mut items);
            push_str(&mut out, ")");
            (out, false)
        },
        WitTypeKind::Alias(inner) => type_text(m, *inner, j),
        WitTypeKind::Record(_) => (named_text_exec(m, j), false),
        WitTypeKind::Enum(_) => (named_text_exec(m, j), false),
        WitTypeKind::Flags(_) => (named_text_exec(m, j), false),
        WitTypeKind::Variant(_) => (named_text_exec(m, j), false),
        WitTypeKind::Other => (chars("::serde_json::Value"), false),
    }
}

/// The doc text of a WIT item: its doc comment trimmed, when not blank.
pub open spec fn doc_of(docs: Option<String>) -> Option<Seq<char>> {
    match docs {
        Some(d) => if trim(d@).len() > 0 {
            Some(trim(d@))
        } else {
            None
        },
        None => None,
    }
}

fn doc_text(docs: &Option<String>) -> (r: Option<String>)
    ensures
        match doc_of(*docs) {
            Some(t) => r matches Some(s) && s@ == t,
            None => r is None,
        },
{
    match docs {
        Some(d) => {
            let t = trim_chars(&chars_of(d.as_str()));
            if t.len() > 0 {
                Some(string_from_chars(t.as_slice()))
            } else {
                None
            }
        },
        None => None,
    }
}

/// The kind of Rust item a WIT type becomes.
#[derive(Debug, Clone, Copy, PartialEq, Eq)]
pub enum DeclKind {
    /// A record: a struct with snake_case fields.
    Struct,
    /// An enum: a fieldless enum.
    Enum,
    /// Flags: a fieldless `<Name>Flag` enum and `type <Name> = Vec<<Name>Flag>`.
    Flags,
    /// A variant: an adjacently tagged enum.
    Variant,
}

/// A struct field of a generated record.
#[derive(Debug, Clone)]
pub struct FieldDecl {
    pub name: String,
    /// The field's Rust type, inside `Option<...>` when `optional`.
    pub ty: String,
    pub optional: bool,
    pub doc: Option<String>,
}

/// A variant of a generated enum.
#[derive(Debug, Clone)]
pub struct CaseDecl {
    pub name: String,
    /// The Rust type the variant carries, if any.
    pub payload: Option<String>,
    pub doc: Option<String>,
}

/// The Rust item generated for one named WIT type.
#[derive(Debug, Clone)]
pub struct TypeDecl {
    pub kind: DeclKind,
    /// The type's PascalCase name.
    pub name: String,
    /// The name of the generated enum: `<Name>Flag` for flags, the name
    /// otherwise.
    pub enum_name: String,
    pub doc: Option<String>,
    pub fields: Vec<FieldDecl>,
    pub cases: Vec<CaseDecl>,
}

/// Whether the definition at `i` becomes a Rust item: it is named and is a
/// record, enum, flags or variant.
pub open spec fn emitted(m: WitModel, i: int) -> bool {
    let d = m.types@[i];
    &&& d.name is Some
    &&& match d.kind {
        WitTypeKind::Record(_) => true,
        WitTypeKind::Enum(_) => true,
        WitTypeKind::Flags(_) => true,
        WitTypeKind::Variant(_) => true,
        _ => false,
    }
}

pub open spec fn opt_text_is(r: Option<String>, t: Option<Seq<char>>) -> bool {
    match t {
        Some(x) => r matches Some(s) && s@ == x,
        None => r is None,
    }
}

/// Whether `f` is the declaration of record field `w` of the type at `i`.
pub open spec fn field_decl_is(m: WitModel, i: int, w: WitField, f: FieldDecl) -> bool {
    &&& f.name@ == snake(w.name@)
    &&& f.ty@ == ty_text(m, w.ty, i as nat).0
    &&& f.optional == ty_text(m, w.ty, i as nat).1
    &&& opt_text_is(f.doc, doc_of(w.docs))
}

/// Whether `c` is the declaration of case `w` of the type at `i`.
pub open spec fn case_decl_is(m: WitModel, i: int, w: WitCase, c: CaseDecl) -> bool {
    &&& c.name@ == pascal(w.name@)
    &&& opt_text_is(c.payload, match w.ty {
        Some(t) => Some(ty_text(m, t, i as nat).0),
        None => None,
    })
    &&& opt_text_is(c.doc, doc_of(w.docs))
}

/// Whether `r` is the Rust item generated for the type at `i`.
pub open spec fn decl_is(m: WitModel, i: int, r: TypeDecl) -> bool {
    let d = m.types@[i];
    let name = pascal(d.name->0@);
    &&& r.name@ == name
    &&& opt_text_is(r.doc, doc_of(d.docs))
    &&& match d.kind {
        WitTypeKind::Record(fs) => {
            &&& r.kind == DeclKind::Struct
            &&& r.enum_name@ == name
            &&& r.cases@.len() == 0
            &&& r.fields@.len() == fs@.len()
            &&& forall|k: int| 0 <= k < fs@.len() ==> field_decl_is(m, i, fs@[k], #[trigger] r.fields@[k])
        },
        WitTypeKind::Enum(cs) => {
            &&& r.kind == DeclKind::Enum
            &&& r.enum_name@ == name
            &&& r.fields@.len() == 0
            &&& r.cases@.len() == cs@.len()
            &&& forall|k: int| 0 <= k < cs@.len() ==> case_decl_is(m, i, WitCase { ty: None, ..cs@[k] }, #[trigger] r.cases@[k])
        },
        WitTypeKind::Flags(cs) => {
            &&& r.kind == DeclKind::Flags
            &&& r.enum_name@ == name + "Flag"@
            &&& r.fields@.len() == 0
            &&& r.cases@.len() == cs@.len()
            &&& forall|k: int| 0 <= k < cs@.len() ==> case_decl_is(m, i, WitCase { ty: None, ..cs@[k] }, #[trigger] r.cases@[k])
        },
        WitTypeKind::Variant(cs) => {
            &&& r.kind == DeclKind::Variant
            &&& r.enum_name@ == name
            &&& r.fields@.len() == 0
            &&& r.cases@.len() == cs@.len()
            &&& forall|k: int| 0 <= k < cs@.len() ==> case_decl_is(m, i, cs@[k], #[trigger] r.cases@[k])
        },
        _ => false,
    }
}

fn case_decls(m: &WitModel, i: usize, cs: &Vec<WitCase>, with_payload: bool) -> (r: Vec<CaseDecl>)
    requires
        i < m.types@.len(),
    ensures
        r@.len() == cs@.len(),
        forall|k: int| 0 <= k < cs@.len() ==> case_decl_is(*m, i as int, if with_payload { cs@[k] } else { WitCase { ty: None, ..cs@[k] } }, #[trigger] r@[k]),
{
    let mut out: Vec<CaseDecl> = Vec::new();
    let mut k: usize = 0;
    while k < cs.len()
        invariant
            i < m.types@.len(),
            k <= cs@.len(),
            out@.len() == k,
            forall|q: int| 0 <= q < k ==> case_decl_is(*m, i as int, if with_payload { cs@[q] } else { WitCase { ty: None, ..cs@[q] } }, #[trigger] out@[q]),
        decreases cs.len() - k,
    {
        let c = &cs[k];
        let payload = if with_payload {
            match c.ty {
                Some(t) => {
                    let (text, _) = type_text(m, t, i);
                    Some(string_from_chars(text.as_slice()))
                },
                None => None,
            }
        } else {
            None
        };
        let decl = CaseDecl { name: kebab_to_pascal(c.name.as_str()), payload, doc: doc_text(&c.docs) };
        out.push(decl);
        k = k + 1;
    }
    out
}

/// The Rust item generated for the type at `i`, or `None` when the type is
/// unnamed or of a kind that generates no item.
pub fn type_decl(m: &WitModel, i: usize) -> (r: Option<TypeDecl>)
    requires
        i < m.types@.len(),
    ensures
        emitted(*m, i as int) ==> (r matches Some(d) && decl_is(*m, i as int, d)),
        !emitted(*m, i as int) ==> r is None,
{
    let d = &m.types[i];
    let raw_name = match &d.name {
        Some(n) => n,
        None => {
            return None;
        },
    };
    let name = kebab_to_pascal(raw_name.as_str());
    let doc = doc_text(&d.docs);
    match &d.kind {
        WitTypeKind::Record(fs) => {
            let mut fields: Vec<FieldDecl> = Vec::new();
            let mut k: usize = 0;
            while k < fs.len()
                invariant
                    i < m.types@.len(),
                    k <= fs@.len(),
                    fields@.len() == k,
                    forall|q: int| 0 <= q < k ==> field_decl_is(*m, i as int, fs@[q], #[trigger] fields@[q]),
                decreases fs.len() - k,
            {
                let f = &fs[k];
                let (text, optional) = type_text(m, f.ty, i);
                let decl = FieldDecl {
                    name: kebab_to_snake(f.name.as_str()),
                    ty: string_from_chars(text.as_slice()),
                    optional,
                    doc: doc_text(&f.docs),
                };
                fields.push(decl);
                k = k + 1;
            }
            let enum_name = name.clone();
            Some(TypeDecl { kind: DeclKind::Struct, name, enum_name, doc, fields, cases: Vec::new() })
        },
        WitTypeKind::Enum(cs) => {
            let cases = case_decls(m, i, cs, false);
            let enum_name = name.clone();
            Some(TypeDecl { kind: DeclKind::Enum, name, enum_name, doc, fields: Vec::new(), cases })
        },
        WitTypeKind::Flags(cs) => {
            let cases = case_decls(m, i, cs, false);
            let mut en = chars_of(name.as_str());
            push_str(&mut en, "Flag");
            let enum_name = string_from_chars(en.as_slice());
            Some(TypeDecl { kind: DeclKind::Flags, name, enum_name, doc, fields: Vec::new(), cases })
        },
        WitTypeKind::Variant(cs) => {
            let cases = case_decls(m, i, cs, true);
            let enum_name = name.clone();
            Some(TypeDecl { kind: DeclKind::Variant, name, enum_name, doc, fields: Vec::new(), cases })
        },
        _ => None,
    }
}

/// The interface a type's item is grouped under: the owning interface's
/// name, or `anon` for an unnamed one; `None` for a package-level type.
pub open spec fn interface_of(m: WitModel, i: int) -> Option<Seq<char>> {
    match m.types@[i].interface {
        Some(k) => Some(
            if k < m.interfaces@.len() && m.interfaces@[k as int] is Some {
                m.interfaces@[k as int]->0@
            } else {
                "anon"@
            },
        ),
        None => None,
    }
}

/// The items generated for one interface, in one module.
#[derive(Debug, Clone)]
pub struct ModuleGroup {
    /// The interface's name.
    pub interface: String,
    /// The module's name: the interface's name in snake_case.
    pub module: String,
    /// The arena indices of the types whose items the module holds, in
    /// arena order.
    pub types: Vec<usize>,
}

/// Where the generated items go: package-level items first, then one
/// module per interface, ordered by interface name.
#[derive(Debug, Clone)]
pub struct Layout {
    /// The arena indices of package-level types, in arena order.
    pub orphans: Vec<usize>,
    /// The interface modules, by increasing interface name.
    pub modules: Vec<ModuleGroup>,
}

pub open spec fn increasing(s: Seq<usize>) -> bool {
    forall|a: int, b: int| 0 <= a < b < s.len() ==> s[a] < s[b]
}

/// Whether `g` is a well-formed module over the first `n` types: it holds
/// at least one item, each an item of its interface.
pub open spec fn group_ok(m: WitModel, n: int, g: ModuleGroup) -> bool {
    &&& g.module@ == snake(g.interface@)
    &&& g.types@.len() > 0
    &&& increasing(g.types@)
    &&& forall|k: int| 0 <= k < g.types@.len() ==> {
        &&& (#[trigger] g.types@[k]) < n
        &&& emitted(m, g.types@[k] as int)
        &&& interface_of(m, g.types@[k] as int) == Some(g.interface@)
    }
}

/// Whether `orphans` holds exactly the package-level items of the first
/// `n` types, in arena order.
pub open spec fn orphans_ok(m: WitModel, n: int, orphans: Seq<usize>) -> bool {
    &&& increasing(orphans)
    &&& forall|k: int| 0 <= k < orphans.len() ==> {
        &&& (#[trigger] orphans[k]) < n
        &&& emitted(m, orphans[k] as int)
        &&& interface_of(m, orphans[k] as int) is None
    }
    &&& forall|j: int| 0 <= j < n && #[trigger] emitted(m, j) && interface_of(m, j) is None ==> orphans.contains(j as usize)
}

/// Whether `groups` places each interface item of the first `n` types in
/// the module of its interface, modules sorted by interface name.
pub open spec fn groups_ok(m: WitModel, n: int, groups: Seq<ModuleGroup>) -> bool {
    &&& forall|g: int, h: int| 0 <= g < h < groups.len() ==> text_less(#[trigger] groups[g].interface@, #[trigger] groups[h].interface@)
    &&& forall|g: int| 0 <= g < groups.len() ==> group_ok(m, n, #[trigger] groups[g])
    &&& forall|j: int| 0 <= j < n && #[trigger] emitted(m, j) && interface_of(m, j) is Some ==> exists|g: int|
        0 <= g < groups.len() && (#[trigger] groups[g]).interface@ == interface_of(m, j)->0 && groups[g].types@.contains(j as usize)
}

/// Whether `orphans` and `groups` place exactly the items of the first
/// `n` types.
pub open spec fn layout_ok(m: WitModel, n: int, orphans: Seq<usize>, groups: Seq<ModuleGroup>) -> bool {
    orphans_ok(m, n, orphans) && groups_ok(m, n, groups)
}

proof fn lemma_groups_grow(m: WitModel, n: int, groups: Seq<ModuleGroup>)
    requires
        0 <= n < m.types@.len(),
        groups_ok(m, n, groups),
        !emitted(m, n) || interface_of(m, n) is None,
    ensures
        groups_ok(m, n + 1, groups),
{
    assert forall|g: int| 0 <= g < groups.len() implies group_ok(m, n + 1, #[trigger] groups[g]) by {
        assert(group_ok(m, n, groups[g]));
    }
    assert forall|j: int| 0 <= j < n + 1 && #[trigger] emitted(m, j) && interface_of(m, j) is Some implies exists|g: int|
        0 <= g < groups.len() && (#[trigger] groups[g]).interface@ == interface_of(m, j)->0 && groups[g].types@.contains(j as usize) by {
        assert(j < n);
    }
}

proof fn lemma_orphans_grow(m: WitModel, n: int, orphans: Seq<usize>)
    requires
        0 <= n < m.types@.len(),
        orphans_ok(m, n, orphans),
        !emitted(m, n) || interface_of(m, n) is Some,
    ensures
        orphans_ok(m, n + 1, orphans),
{
    assert forall|j: int| 0 <= j < n + 1 && #[trigger] emitted(m, j) && interface_of(m, j) is None implies orphans.contains(j as usize) by {
        assert(j < n);
    }
}

fn is_emitted(m: &WitModel, i: usize) -> (b: bool)
    requires
        i < m.types@.len(),
    ensures
        b == emitted(*m, i as int),
{
    let d = &m.types[i];
    d.name.is_some() && match d.kind {
        WitTypeKind::Record(_) => true,
        WitTypeKind::Enum(_) => true,
        WitTypeKind::Flags(_) => true,
        WitTypeKind::Variant(_) => true,
        _ => false,
    }
}

fn interface_name(m: &WitModel, i: usize) -> (r: Option<String>)
    requires
        i < m.types@.len(),
    ensures
        opt_text_is(r, interface_of(*m, i as int)),
{
    match m.types[i].interface {
        Some(k) => {
            if k < m.interfaces.len() {
                match &m.interfaces[k] {
                    Some(n) => Some(n.clone()),
                    None => Some(String::from_str("anon")),
                }
            } else {
                Some(String::from_str("anon"))
            }
        },
        None => None,
    }
}

/// Place type `i`, an item of interface `name`, in its module: appended
/// to the module of that name, or in a new module inserted where the
/// name sorts.
fn place_in_group(m: &WitModel, groups: &mut Vec<ModuleGroup>, i: usize, name: String)
    requires
        i < m.types@.len(),
        emitted(*m, i as int),
        interface_of(*m, i as int) == Some(name@),
        groups_ok(*m, i as int, old(groups)@),
    ensures
        groups_ok(*m, i + 1, final(groups)@),
{
    let ghost g0 = groups@;
    let key = chars_of(name.as_str());
    let mut p: usize = 0;
    while p < groups.len() && chars_less(&chars_of(groups[p].interface.as_str()), &key)
        invariant
            p <= groups@.len(),
            groups@ == g0,
            key@ == name@,
            forall|q: int| 0 <= q < p ==> text_less(#[trigger] groups@[q].interface@, name@),
        decreases groups.len() - p,
    {
        p = p + 1;
    }
    if p < groups.len() && str_eq(groups[p].interface.as_str(), name.as_str()) {
        let mut g = groups.remove(p);
        let ghost t0 = g.types@;
        g.types.push(i);
        proof {
            assert(group_ok(*m, i as int, g0[p as int]));
            assert(g.types@ == t0.push(i));
            assert forall|k: int| 0 <= k < g.types@.len() implies {
                &&& (#[trigger] g.types@[k]) < i + 1
                &&& emitted(*m, g.types@[k] as int)
                &&& interface_of(*m, g.types@[k] as int) == Some(g.interface@)
            } by {
                if k < t0.len() {
                    assert(g.types@[k] == t0[k]);
                }
            }
            assert(group_ok(*m, i + 1, g));
        }
        groups.insert(p, g);
        proof {
            assert(groups@ =~= g0.update(p as int, g));
            assert forall|q: int| 0 <= q < groups@.len() implies group_ok(*m, i + 1, #[trigger] groups@[q]) by {
                if q != p {
                    assert(groups@[q] == g0[q]);
                    assert(group_ok(*m, i as int, g0[q]));
                }
            }
            assert forall|j: int| 0 <= j < i + 1 && #[trigger] emitted(*m, j) && interface_of(*m, j) is Some implies exists|q: int|
                0 <= q < groups@.len() && (#[trigger] groups@[q]).interface@ == interface_of(*m, j)->0 && groups@[q].types@.contains(j as usize) by {
                if j < i {
                    let w = choose|w: int| 0 <= w < g0.len() && (#[trigger] g0[w]).interface@ == interface_of(*m, j)->0 && g0[w].types@.contains(j as usize);
                    if w == p {
                        let z = choose|z: int| 0 <= z < t0.len() && t0[z] == j as usize;
                        assert(groups@[w].types@[z] == j as usize);
                    } else {
                        assert(groups@[w] == g0[w]);
                    }
                } else {
                    assert(groups@[p as int].types@[t0.len() as int] == i);
                }
            }
        }
    } else {
        let module = kebab_to_snake(name.as_str());
        let mut types: Vec<usize> = Vec::new();
        types.push(i);
        let g = ModuleGroup { interface: name, module, types };
        proof {
            if p < g0.len() {
                assert(g0[p as int].interface@ != g.interface@);
                assert(!text_less(g0[p as int].interface@, g.interface@));
                lemma_text_less_total(g0[p as int].interface@, g.interface@);
            }
            assert(group_ok(*m, i + 1, g));
        }
        groups.insert(p, g);
        proof {
            assert(groups@ =~= g0.insert(p as int, g));
            assert forall|a: int, b: int| 0 <= a < b < groups@.len() implies text_less(#[trigger] groups@[a].interface@, #[trigger] groups@[b].interface@) by {
                if b < p {
                    assert(groups@[a] == g0[a] && groups@[b] == g0[b]);
                } else if b == p {
                    assert(groups@[a] == g0[a]);
                } else if a < p {
                    assert(groups@[a] == g0[a] && groups@[b] == g0[b - 1]);
                    assert(text_less(g0[a].interface@, g.interface@));
                    assert(text_less(g.interface@, g0[p as int].interface@));
                    if b - 1 > p {
                        lemma_text_less_transitive(g.interface@, g0[p as int].interface@, g0[b - 1].interface@);
                    }
                    lemma_text_less_transitive(g0[a].interface@, g.interface@, g0[b - 1].interface@);
                } else if a == p {
                    assert(groups@[b] == g0[b - 1]);
                    if b - 1 > p {
                        lemma_text_less_transitive(g.interface@, g0[p as int].interface@, g0[b - 1].interface@);
                    }
                } else {
                    assert(groups@[a] == g0[a - 1] && groups@[b] == g0[b - 1]);
                }
            }
            assert forall|q: int| 0 <= q < groups@.len() implies group_ok(*m, i + 1, #[trigger] groups@[q]) by {
                if q < p {
                    assert(groups@[q] == g0[q]);
                    assert(group_ok(*m, i as int, g0[q]));
                } else if q > p {
                    assert(groups@[q] == g0[q - 1]);
                    assert(group_ok(*m, i as int, g0[q - 1]));
                }
            }
            assert forall|j: int| 0 <= j < i + 1 && #[trigger] emitted(*m, j) && interface_of(*m, j) is Some implies exists|q: int|
                0 <= q < groups@.len() && (#[trigger] groups@[q]).interface@ == interface_of(*m, j)->0 && groups@[q].types@.contains(j as usize) by {
                if j < i {
                    let w = choose|w: int| 0 <= w < g0.len() && (#[trigger] g0[w]).interface@ == interface_of(*m, j)->0 && g0[w].types@.contains(j as usize);
                    if w < p {
                        assert(groups@[w] == g0[w]);
                    } else {
                        assert(groups@[w + 1] == g0[w]);
                    }
                } else {
                    assert(groups@[p as int].types@[0] == i);
                }
            }
        }
    }
}

/// The layout of the items generated for the package `m`.
pub fn module_layout(m: &WitModel) -> (l: Layout)
    ensures
        layout_ok(*m, m.types@.len() as int, l.orphans@, l.modules@),
{
    let mut orphans: Vec<usize> = Vec::new();
    let mut groups: Vec<ModuleGroup> = Vec::new();
    let mut i: usize = 0;
    while i < m.types.len()
        invariant
            i <= m.types@.len(),
            layout_ok(*m, i as int, orphans@, groups@),
        decreases m.types.len() - i,
    {
        let ghost o0 = orphans@;
        if is_emitted(m, i) {
            match interface_name(m, i) {
                None => {
                    proof {
                        lemma_groups_grow(*m, i as int, groups@);
                    }
                    orphans.push(i);
                    proof {
                        assert(orphans@[o0.len() as int] == i);
                        assert forall|j: int| 0 <= j < i + 1 && #[trigger] emitted(*m, j) && interface_of(*m, j) is None implies orphans@.contains(j as usize) by {
                            if j < i {
                                let w = choose|w: int| 0 <= w < o0.len() && o0[w] == j as usize;
                                assert(orphans@[w] == j as usize);
                            } else {
                                assert(orphans@[o0.len() as int] == j as usize);
                            }
                        }
                    }
                },
                Some(name) => {
                    proof {
                        lemma_orphans_grow(*m, i as int, orphans@);
                    }
                    place_in_group(m, &mut groups, i, name);
                },
            }
        } else {
            proof {
                lemma_groups_grow(*m, i as int, groups@);
                lemma_orphans_grow(*m, i as int, orphans@);
            }
        }
        i = i + 1;
    }
    Layout { orphans, modules: groups }
}

// ---------------------------------------------------------------------------
// Laws of the type mapping.
// ---------------------------------------------------------------------------

/// The signedness and bit width of a WIT integer type.
pub open spec fn wit_int(t: WitType) -> Option<(bool, nat)> {
    match t {
        WitType::U8 => Some((false, 8)),
        WitType::U16 => Some((false, 16)),
        WitType::U32 => Some((false, 32)),
        WitType::U64 => Some((false, 64)),
        WitType::S8 => Some((true, 8)),
        WitType::S16 => Some((true, 16)),
        WitType::S32 => Some((true, 32)),
        WitType::S64 => Some((true, 64)),
        _ => None,
    }
}

/// The name of the Rust integer type of this signedness and width: `i` for
/// signed, `u` for unsigned, followed by the width in decimal.
pub open spec fn rust_int_name(signed: bool, bits: nat) -> Seq<char> {
    seq![if signed { 'i' } else { 'u' }] + decimal(bits)
}

/// Every WIT integer type is written as the Rust integer type of the same
/// signedness and width (`s32` as `i32`, `u8` as `u8`, ...), never as an
/// optional type, whatever the package and the bound.
pub proof fn law_integer_types(m: WitModel, t: WitType, bound: nat)
    requires
        wit_int(t) is Some,
    ensures
        wit_int(t) matches Some((signed, bits)) && ty_text(m, t, bound) == (rust_int_name(signed, bits), false),
{
    reveal_with_fuel(decimal, 3);
    reveal_strlit("u8");
    reveal_strlit("u16");
    reveal_strlit("u32");
    reveal_strlit("u64");
    reveal_strlit("i8");
    reveal_strlit("i16");
    reveal_strlit("i32");
    reveal_strlit("i64");
    let (sg, w) = wit_int(t)->Some_0;
    assert(ty_text(m, t, bound).0 =~= rust_int_name(sg, w));
}

/// The WIT `bool`, `char` and `string` types are written as the Rust
/// `bool`, `char` and `String`.
pub proof fn law_scalar_types(m: WitModel, bound: nat)
    ensures
        ty_text(m, WitType::Bool, bound) == (seq!['b', 'o', 'o', 'l'], false),
        ty_text(m, WitType::Char, bound) == (seq!['c', 'h', 'a', 'r'], false),
        ty_text(m, WitType::String, bound) == (seq!['S', 't', 'r', 'i', 'n', 'g'], false),
{
    reveal_strlit("bool");
    reveal_strlit("char");
    reveal_strlit("String");
    assert(ty_text(m, WitType::Bool, bound).0 =~= seq!['b', 'o', 'o', 'l']);
    assert(ty_text(m, WitType::Char, bound).0 =~= seq!['c', 'h', 'a', 'r']);
    assert(ty_text(m, WitType::String, bound).0 =~= seq!['S', 't', 'r', 'i', 'n', 'g']);
}

} // verus!

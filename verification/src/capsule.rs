//! The dispatch plan of a capsule: which methods of a `#[capsule]` impl
//! block serve as lifecycle hooks, tools, commands and interceptors, and
//! the compile errors an ill-formed block gets.
//!
//! The plan is made from a plain description of each method (its name, the
//! shape of its first argument, its receiver and its `#[astrid::...]`
//! attributes) and is what the generated `Guest` implementation dispatches
//! on.
use vstd::prelude::*;
use crate::strings::{trim, trim_chars};
use crate::text::{chars_of, push_str, str_eq, string_from_chars};

verus! {

/// The first typed argument of a method (after the receiver).
#[derive(Debug, Clone, Copy, PartialEq, Eq)]
pub enum ArgKind {
    /// No typed argument.
    NoArg,
    /// A `&str` argument.
    RefStr,
    /// An argument of any other type.
    Other,
}

/// One `#[astrid::<kind>(...)]` attribute of a method.
#[derive(Debug, Clone)]
pub struct AstridAttr {
    /// The attribute's name after `astrid::` (`tool`, `install`, ...).
    pub kind: String,
    /// The last string literal among its arguments, if any.
    pub name: Option<String>,
    /// Whether a bare `mutable` is among its arguments.
    pub mutable: bool,
}

/// What the plan needs to know of one method of the impl block.
#[derive(Debug, Clone)]
pub struct MethodInfo {
    /// The method's name.
    pub name: String,
    /// Its first typed argument.
    pub arg: ArgKind,
    /// Whether it takes `&mut self`.
    pub mut_receiver: bool,
    /// Its `#[astrid::...]` attributes, in order.
    pub attrs: Vec<AstridAttr>,
    /// Its doc comment, as extracted by [`doc_text`].
    pub description: Option<String>,
}

/// How a hook action is served.
#[derive(Debug, Clone, Copy, PartialEq, Eq)]
pub enum ArmKind {
    /// A tool: the action is `tool_execute_<name>` and the result is
    /// published on the tool's result topic.
    Tool,
    /// A command.
    Command,
    /// An interceptor.
    Interceptor,
    /// The shared `tool_describe` action: publishes every tool's schema on
    /// the describe response topic and returns it.
    ToolDescribe,
}

/// One arm of the generated hook dispatch.
#[derive(Debug, Clone)]
pub struct HookArm {
    /// The action string the arm matches.
    pub action: String,
    /// The tool, command or interceptor name.
    pub name: String,
    /// The method called (empty for `tool_describe`).
    pub method: String,
    pub kind: ArmKind,
    /// Whether the method takes a deserialized argument.
    pub takes_args: bool,
    /// The topic the arm publishes its answer on: a tool's result topic,
    /// the describe response topic, or none for commands and interceptors
    /// (they answer only by their return value).
    pub publish_topic: Option<String>,
}

/// The schema entry of one tool in the `tool_describe` answer.
#[derive(Debug, Clone)]
pub struct ToolSchema {
    pub name: String,
    pub method: String,
    /// Whether the tool is marked mutable.
    pub mutable: bool,
    /// The method's doc comment, the tool's description.
    pub description: Option<String>,
    /// Whether the tool takes arguments (an argument schema is derived).
    pub takes_args: bool,
}

/// Where a compile error points.
#[derive(Debug, Clone, Copy, PartialEq, Eq)]
pub enum ErrorSpan {
    /// At the offending attribute.
    Attribute,
    /// At the method's signature.
    Signature,
    /// At the impl block as a whole: it is not one impl block.
    Item,
}

/// A compile error of an ill-formed impl block.
#[derive(Debug, Clone)]
pub struct PlanError {
    pub message: String,
    pub span: ErrorSpan,
}

/// The dispatch plan of a well-formed impl block.
#[derive(Debug, Clone)]
pub struct CapsulePlan {
    /// Whether the capsule's state is loaded before and saved after each
    /// handler.
    pub stateful: bool,
    /// The `#[astrid::install]` method.
    pub install: Option<String>,
    /// The `#[astrid::upgrade]` method.
    pub upgrade: Option<String>,
    /// The `#[astrid::run]` method.
    pub run: Option<String>,
    /// The hook arms in dispatch order: tools and interceptors in
    /// declaration order, then `tool_describe` when there is any tool, then
    /// commands.
    pub arms: Vec<HookArm>,
    /// The tools, in declaration order.
    pub tools: Vec<ToolSchema>,
    /// The exports of the generated guest implementation, all present
    /// whatever the block holds.
    pub exports: Vec<String>,
    /// The action a handled hook answers with.
    pub continue_action: String,
    /// The action a failed or unknown hook answers with, halting the
    /// interceptor chain.
    pub deny_action: String,
}

// ---------------------------------------------------------------------------
// The plan as a mathematical value.
// ---------------------------------------------------------------------------

/// An arm of the dispatch, as plain values.
pub struct ArmSpec {
    pub action: Seq<char>,
    pub name: Seq<char>,
    pub method: Seq<char>,
    pub kind: ArmKind,
    pub takes_args: bool,
    pub publish_topic: Option<Seq<char>>,
}

/// A tool schema entry, as plain values.
pub struct ToolSpec {
    pub name: Seq<char>,
    pub method: Seq<char>,
    pub mutable: bool,
    pub description: Option<Seq<char>>,
    pub takes_args: bool,
}

/// What the plan holds after some of the methods, as plain values.
#[verifier::ext_equal]
pub struct PlanSpec {
    pub install: Option<Seq<char>>,
    pub upgrade: Option<Seq<char>>,
    pub run: Option<Seq<char>>,
    pub hooks: Seq<ArmSpec>,
    pub commands: Seq<ArmSpec>,
    pub tools: Seq<ToolSpec>,
}

/// A compile error, as plain values.
pub struct ErrorSpec {
    pub message: Seq<char>,
    pub span: ErrorSpan,
}

pub open spec fn opt_text(s: Option<String>) -> Option<Seq<char>> {
    match s {
        Some(t) => Some(t@),
        None => None,
    }
}

pub open spec fn arm_spec(a: HookArm) -> ArmSpec {
    ArmSpec {
        action: a.action@,
        name: a.name@,
        method: a.method@,
        kind: a.kind,
        takes_args: a.takes_args,
        publish_topic: opt_text(a.publish_topic),
    }
}

pub open spec fn tool_spec(t: ToolSchema) -> ToolSpec {
    ToolSpec {
        name: t.name@,
        method: t.method@,
        mutable: t.mutable,
        description: opt_text(t.description),
        takes_args: t.takes_args,
    }
}

pub open spec fn arm_specs(arms: Seq<HookArm>) -> Seq<ArmSpec> {
    arms.map_values(|a: HookArm| arm_spec(a))
}

pub open spec fn tool_specs(tools: Seq<ToolSchema>) -> Seq<ToolSpec> {
    tools.map_values(|t: ToolSchema| tool_spec(t))
}

/// The plan before any method.
pub open spec fn empty_plan() -> PlanSpec {
    PlanSpec {
        install: None,
        upgrade: None,
        run: None,
        hooks: Seq::empty(),
        commands: Seq::empty(),
        tools: Seq::empty(),
    }
}

pub open spec fn mutable_lifecycle_message() -> Seq<char> {
    "#[astrid::mutable] cannot be used on lifecycle hooks or #[astrid::run]"@
}

pub open spec fn duplicate_message(kind: Seq<char>) -> Seq<char> {
    "only one #[astrid::"@ + kind + "] method is allowed per capsule"@
}

pub open spec fn no_arg_signature_message(kind: Seq<char>) -> Seq<char> {
    "#[astrid::"@ + kind + "] must have signature: fn(&self) -> Result<(), SysError>"@
}

pub open spec fn upgrade_signature_message() -> Seq<char> {
    "#[astrid::upgrade] must have signature: fn(&self, prev_version: &str) -> Result<(), SysError>"@
}

/// Whether any attribute of a method is the standalone `#[astrid::mutable]`.
pub open spec fn standalone_mutable(attrs: Seq<AstridAttr>) -> bool {
    exists|i: int| 0 <= i < attrs.len() && #[trigger] attrs[i].kind@ == "mutable"@
}

/// The effect of one attribute `a` of method `m` on the plan `st`, with
/// `mutable` the method's mutability so far: the new plan and
/// mutability, or the compile error.
pub open spec fn attr_step(st: PlanSpec, m: MethodInfo, mutable: bool, a: AstridAttr) -> Result<(PlanSpec, bool), ErrorSpec> {
    let k = a.kind@;
    let takes = !(m.arg is NoArg);
    if k == "install"@ || k == "upgrade"@ || k == "run"@ {
        if mutable {
            Err(ErrorSpec { message: mutable_lifecycle_message(), span: ErrorSpan::Attribute })
        } else if k == "install"@ {
            if st.install is Some {
                Err(ErrorSpec { message: duplicate_message(k), span: ErrorSpan::Attribute })
            } else if takes {
                Err(ErrorSpec { message: no_arg_signature_message(k), span: ErrorSpan::Signature })
            } else {
                Ok((PlanSpec { install: Some(m.name@), ..st }, mutable))
            }
        } else if k == "upgrade"@ {
            if st.upgrade is Some {
                Err(ErrorSpec { message: duplicate_message(k), span: ErrorSpan::Attribute })
            } else if !(m.arg is RefStr) {
                Err(ErrorSpec { message: upgrade_signature_message(), span: ErrorSpan::Signature })
            } else {
                Ok((PlanSpec { upgrade: Some(m.name@), ..st }, mutable))
            }
        } else {
            if st.run is Some {
                Err(ErrorSpec { message: duplicate_message(k), span: ErrorSpan::Attribute })
            } else if takes {
                Err(ErrorSpec { message: no_arg_signature_message(k), span: ErrorSpan::Signature })
            } else {
                Ok((PlanSpec { run: Some(m.name@), ..st }, mutable))
            }
        }
    } else {
        let name = match a.name {
            Some(n) => n@,
            None => m.name@,
        };
        let mu = mutable || a.mutable;
        if k == "tool"@ {
            let arm = ArmSpec {
                action: "tool_execute_"@ + name,
                name,
                method: m.name@,
                kind: ArmKind::Tool,
                takes_args: takes,
                publish_topic: Some(tool_result_topic(name)),
            };
            let tool = ToolSpec {
                name,
                method: m.name@,
                mutable: mu,
                description: opt_text(m.description),
                takes_args: takes,
            };
            Ok((PlanSpec { hooks: st.hooks.push(arm), tools: st.tools.push(tool), ..st }, mu))
        } else if k == "command"@ {
            let arm = ArmSpec {
                action: name,
                name,
                method: m.name@,
                kind: ArmKind::Command,
                takes_args: takes,
                publish_topic: None,
            };
            Ok((PlanSpec { commands: st.commands.push(arm), ..st }, mu))
        } else if k == "interceptor"@ {
            let arm = ArmSpec {
                action: name,
                name,
                method: m.name@,
                kind: ArmKind::Interceptor,
                takes_args: takes,
                publish_topic: None,
            };
            Ok((PlanSpec { hooks: st.hooks.push(arm), ..st }, mu))
        } else {
            Ok((st, mu))
        }
    }
}

/// The effect of the attributes `attrs` of method `m`, in order.
pub open spec fn attrs_fold(st: PlanSpec, m: MethodInfo, mutable: bool, attrs: Seq<AstridAttr>) -> Result<(PlanSpec, bool), ErrorSpec>
    decreases attrs.len(),
{
    if attrs.len() == 0 {
        Ok((st, mutable))
    } else {
        match attr_step(st, m, mutable, attrs[0]) {
            Err(e) => Err(e),
            Ok((st2, mu2)) => attrs_fold(st2, m, mu2, attrs.drop_first()),
        }
    }
}

/// The effect of the methods `ms`, in order, on the plan `st`.
pub open spec fn methods_fold(st: PlanSpec, ms: Seq<MethodInfo>) -> Result<PlanSpec, ErrorSpec>
    decreases ms.len(),
{
    if ms.len() == 0 {
        Ok(st)
    } else {
        match attrs_fold(st, ms[0], standalone_mutable(ms[0].attrs@), ms[0].attrs@) {
            Err(e) => Err(e),
            Ok((st2, _)) => methods_fold(st2, ms.drop_first()),
        }
    }
}

/// The topic a tool's result is published on.
pub open spec fn tool_result_topic(name: Seq<char>) -> Seq<char> {
    "tool.v1.execute."@ + name + ".result"@
}

/// The topic the `tool_describe` arm publishes the capsule's tool
/// descriptor on, answering the describe fan-out (`.self` only satisfies
/// the topic router; the responder is known from the message's source).
pub open spec fn describe_topic() -> Seq<char> {
    "tool.v1.response.describe.self"@
}

/// The exports of every generated guest implementation.
pub open spec fn guest_exports() -> Seq<Seq<char>> {
    seq!["astrid_hook_trigger"@, "run"@, "astrid_install"@, "astrid_upgrade"@]
}

/// The `tool_describe` arm.
pub open spec fn describe_arm() -> ArmSpec {
    ArmSpec {
        action: "tool_describe"@,
        name: "tool_describe"@,
        method: Seq::empty(),
        kind: ArmKind::ToolDescribe,
        takes_args: false,
        publish_topic: Some(describe_topic()),
    }
}

/// The dispatch order of a finished plan.
pub open spec fn dispatch_order(st: PlanSpec) -> Seq<ArmSpec> {
    if st.tools.len() > 0 {
        st.hooks.push(describe_arm()) + st.commands
    } else {
        st.hooks + st.commands
    }
}

/// Whether the capsule is stateful: explicitly, or because a method takes
/// `&mut self`.
pub open spec fn is_stateful(state_attr: bool, ms: Seq<MethodInfo>) -> bool {
    state_attr || exists|i: int| 0 <= i < ms.len() && #[trigger] ms[i].mut_receiver
}

/// Whether `p` is the plan `st` finished, for `methods` and the capsule
/// attribute `state_attr`.
pub open spec fn plan_is(p: CapsulePlan, st: PlanSpec, state_attr: bool, methods: Seq<MethodInfo>) -> bool {
    &&& p.stateful == is_stateful(state_attr, methods)
    &&& opt_text(p.install) == st.install
    &&& opt_text(p.upgrade) == st.upgrade
    &&& opt_text(p.run) == st.run
    &&& arm_specs(p.arms@) == dispatch_order(st)
    &&& tool_specs(p.tools@) == st.tools
    &&& p.exports@.map_values(|e: String| e@) == guest_exports()
    &&& p.continue_action@ == "continue"@
    &&& p.deny_action@ == "deny"@
}

// ---------------------------------------------------------------------------
// Building the plan.
// ---------------------------------------------------------------------------

struct Builder {
    install: Option<String>,
    upgrade: Option<String>,
    run: Option<String>,
    hooks: Vec<HookArm>,
    commands: Vec<HookArm>,
    tools: Vec<ToolSchema>,
}

impl Builder {
    closed spec fn spec(&self) -> PlanSpec {
        PlanSpec {
            install: opt_text(self.install),
            upgrade: opt_text(self.upgrade),
            run: opt_text(self.run),
            hooks: arm_specs(self.hooks@),
            commands: arm_specs(self.commands@),
            tools: tool_specs(self.tools@),
        }
    }
}

fn clone_opt(o: &Option<String>) -> (r: Option<String>)
    ensures
        opt_text(r) == opt_text(*o),
{
    match o {
        Some(s) => Some(s.clone()),
        None => None,
    }
}

fn error(message: &str, span: ErrorSpan) -> (e: PlanError)
    ensures
        e.message@ == message@,
        e.span == span,
{
    PlanError { message: String::from_str(message), span }
}

fn error_chars(message: &Vec<char>, span: ErrorSpan) -> (e: PlanError)
    ensures
        e.message@ == message@,
        e.span == span,
{
    PlanError { message: string_from_chars(message.as_slice()), span }
}

/// `prefix + kind + suffix` as an error.
fn kind_error(prefix: &str, kind: &str, suffix: &str, span: ErrorSpan) -> (e: PlanError)
    ensures
        e.message@ == prefix@ + kind@ + suffix@,
        e.span == span,
{
    let mut m: Vec<char> = Vec::new();
    push_str(&mut m, prefix);
    push_str(&mut m, kind);
    push_str(&mut m, suffix);
    error_chars(&m, span)
}

proof fn lemma_push_specs(arms: Seq<HookArm>, a: HookArm)
    ensures
        arm_specs(arms.push(a)) == arm_specs(arms).push(arm_spec(a)),
{
    assert(arm_specs(arms.push(a)) =~= arm_specs(arms).push(arm_spec(a)));
}

proof fn lemma_push_tools(tools: Seq<ToolSchema>, t: ToolSchema)
    ensures
        tool_specs(tools.push(t)) == tool_specs(tools).push(tool_spec(t)),
{
    assert(tool_specs(tools.push(t)) =~= tool_specs(tools).push(tool_spec(t)));
}

fn apply_attr(b: &mut Builder, m: &MethodInfo, mutable: bool, a: &AstridAttr) -> (r: Result<bool, PlanError>)
    ensures
        match attr_step(old(b).spec(), *m, mutable, *a) {
            Ok((st, mu)) => r == Ok::<bool, PlanError>(mu) && final(b).spec() == st,
            Err(e) => r matches Err(pe) && pe.message@ == e.message && pe.span == e.span,
        },
{
    let ghost st = b.spec();
    let k = a.kind.as_str();
    let takes = !matches!(m.arg, ArgKind::NoArg);
    proof {
        reveal_strlit("install");
        reveal_strlit("upgrade");
        reveal_strlit("run");
        reveal_strlit("tool");
        reveal_strlit("command");
        reveal_strlit("interceptor");
    }
    let is_install = str_eq(k, "install");
    let is_upgrade = str_eq(k, "upgrade");
    let is_run = str_eq(k, "run");
    if is_install || is_upgrade || is_run {
        if mutable {
            return Err(error("#[astrid::mutable] cannot be used on lifecycle hooks or #[astrid::run]", ErrorSpan::Attribute));
        }
        if is_install {
            if b.install.is_some() {
                return Err(kind_error("only one #[astrid::", k, "] method is allowed per capsule", ErrorSpan::Attribute));
            }
            if takes {
                return Err(kind_error("#[astrid::", k, "] must have signature: fn(&self) -> Result<(), SysError>", ErrorSpan::Signature));
            }
            b.install = Some(m.name.clone());
            assert(b.spec() =~= (PlanSpec { install: Some(m.name@), ..st }));
            return Ok(mutable);
        }
        if is_upgrade {
            if b.upgrade.is_some() {
                return Err(kind_error("only one #[astrid::", k, "] method is allowed per capsule", ErrorSpan::Attribute));
            }
            if !matches!(m.arg, ArgKind::RefStr) {
                return Err(error("#[astrid::upgrade] must have signature: fn(&self, prev_version: &str) -> Result<(), SysError>", ErrorSpan::Signature));
            }
            b.upgrade = Some(m.name.clone());
            assert(b.spec() =~= (PlanSpec { upgrade: Some(m.name@), ..st }));
            return Ok(mutable);
        }
        if b.run.is_some() {
            return Err(kind_error("only one #[astrid::", k, "] method is allowed per capsule", ErrorSpan::Attribute));
        }
        if takes {
            return Err(kind_error("#[astrid::", k, "] must have signature: fn(&self) -> Result<(), SysError>", ErrorSpan::Signature));
        }
        b.run = Some(m.name.clone());
        assert(b.spec() =~= (PlanSpec { run: Some(m.name@), ..st }));
        return Ok(mutable);
    }
    let name: String = match &a.name {
        Some(n) => n.clone(),
        None => m.name.clone(),
    };
    let mu = mutable || a.mutable;
    if str_eq(k, "tool") {
        let mut action: Vec<char> = Vec::new();
        push_str(&mut action, "tool_execute_");
        push_str(&mut action, name.as_str());
        let mut topic: Vec<char> = Vec::new();
        push_str(&mut topic, "tool.v1.execute.");
        push_str(&mut topic, name.as_str());
        push_str(&mut topic, ".result");
        let arm = HookArm {
            action: string_from_chars(action.as_slice()),
            name: name.clone(),
            method: m.name.clone(),
            kind: ArmKind::Tool,
            takes_args: takes,
            publish_topic: Some(string_from_chars(topic.as_slice())),
        };
        let tool = ToolSchema {
            name,
            method: m.name.clone(),
            mutable: mu,
            description: clone_opt(&m.description),
            takes_args: takes,
        };
        proof {
            lemma_push_specs(b.hooks@, arm);
            lemma_push_tools(b.tools@, tool);
        }
        b.hooks.push(arm);
        b.tools.push(tool);
        assert(b.spec() =~= (PlanSpec {
            hooks: st.hooks.push(arm_spec(arm)),
            tools: st.tools.push(tool_spec(tool)),
            ..st
        }));
        Ok(mu)
    } else if str_eq(k, "command") {
        let arm = HookArm {
            action: name.clone(),
            name,
            method: m.name.clone(),
            kind: ArmKind::Command,
            takes_args: takes,
            publish_topic: None,
        };
        proof {
            lemma_push_specs(b.commands@, arm);
        }
        b.commands.push(arm);
        assert(b.spec() =~= (PlanSpec { commands: st.commands.push(arm_spec(arm)), ..st }));
        Ok(mu)
    } else if str_eq(k, "interceptor") {
        let arm = HookArm {
            action: name.clone(),
            name,
            method: m.name.clone(),
            kind: ArmKind::Interceptor,
            takes_args: takes,
            publish_topic: None,
        };
        proof {
            lemma_push_specs(b.hooks@, arm);
        }
        b.hooks.push(arm);
        assert(b.spec() =~= (PlanSpec { hooks: st.hooks.push(arm_spec(arm)), ..st }));
        Ok(mu)
    } else {
        Ok(mu)
    }
}

fn has_standalone_mutable(attrs: &Vec<AstridAttr>) -> (b: bool)
    ensures
        b == standalone_mutable(attrs@),
{
    let mut i: usize = 0;
    while i < attrs.len()
        invariant
            i <= attrs.len(),
            forall|j: int| 0 <= j < i ==> (#[trigger] attrs@[j]).kind@ != "mutable"@,
        decreases attrs.len() - i,
    {
        if str_eq(attrs[i].kind.as_str(), "mutable") {
            return true;
        }
        i = i + 1;
    }
    false
}

fn apply_method(b: &mut Builder, m: &MethodInfo) -> (r: Result<(), PlanError>)
    ensures
        match attrs_fold(old(b).spec(), *m, standalone_mutable(m.attrs@), m.attrs@) {
            Ok((st, _)) => r is Ok && final(b).spec() == st,
            Err(e) => r matches Err(pe) && pe.message@ == e.message && pe.span == e.span,
        },
{
    let mut mu = has_standalone_mutable(&m.attrs);
    let ghost st0 = b.spec();
    let ghost mu0 = mu;
    let mut j: usize = 0;
    assert(m.attrs@.skip(0) =~= m.attrs@);
    while j < m.attrs.len()
        invariant
            j <= m.attrs@.len(),
            st0 == old(b).spec(),
            mu0 == standalone_mutable(m.attrs@),
            attrs_fold(b.spec(), *m, mu, m.attrs@.skip(j as int)) == attrs_fold(st0, *m, mu0, m.attrs@),
        decreases m.attrs.len() - j,
    {
        let ghost rest = m.attrs@.skip(j as int);
        proof {
            assert(rest[0] == m.attrs@[j as int]);
            assert(rest.drop_first() =~= m.attrs@.skip(j + 1));
        }
        match apply_attr(b, m, mu, &m.attrs[j]) {
            Err(e) => {
                return Err(e);
            },
            Ok(mu2) => {
                mu = mu2;
            },
        }
        j = j + 1;
    }
    assert(m.attrs@.skip(j as int) =~= Seq::<AstridAttr>::empty());
    Ok(())
}

fn any_mut_receiver(methods: &Vec<MethodInfo>) -> (b: bool)
    ensures
        b == exists|i: int| 0 <= i < methods@.len() && #[trigger] methods@[i].mut_receiver,
{
    let mut i: usize = 0;
    while i < methods.len()
        invariant
            i <= methods.len(),
            forall|j: int| 0 <= j < i ==> !(#[trigger] methods@[j]).mut_receiver,
        decreases methods.len() - i,
    {
        if methods[i].mut_receiver {
            return true;
        }
        i = i + 1;
    }
    false
}

/// The dispatch plan of an impl block whose methods are `methods`, with
/// `state_attr` telling whether the block is marked `#[capsule(state)]`; or
/// the first compile error in declaration order. See [`attr_step`] for the
/// effect of each attribute.
pub fn plan_capsule(state_attr: bool, methods: &Vec<MethodInfo>) -> (r: Result<CapsulePlan, PlanError>)
    ensures
        match methods_fold(empty_plan(), methods@) {
            Ok(st) => r matches Ok(p) && plan_is(p, st, state_attr, methods@),
            Err(e) => r matches Err(pe) && pe.message@ == e.message && pe.span == e.span,
        },
{
    let stateful = state_attr || any_mut_receiver(methods);
    let mut b = Builder {
        install: None,
        upgrade: None,
        run: None,
        hooks: Vec::new(),
        commands: Vec::new(),
        tools: Vec::new(),
    };
    assert(b.spec() =~= empty_plan());
    let mut i: usize = 0;
    assert(methods@.skip(0) =~= methods@);
    while i < methods.len()
        invariant
            i <= methods@.len(),
            methods_fold(b.spec(), methods@.skip(i as int)) == methods_fold(empty_plan(), methods@),
        decreases methods.len() - i,
    {
        let ghost rest = methods@.skip(i as int);
        proof {
            assert(rest[0] == methods@[i as int]);
            assert(rest.drop_first() =~= methods@.skip(i + 1));
        }
        match apply_method(&mut b, &methods[i]) {
            Err(e) => {
                return Err(e);
            },
            Ok(()) => {},
        }
        i = i + 1;
    }
    assert(methods@.skip(i as int) =~= Seq::<MethodInfo>::empty());
    let ghost st = b.spec();
    let Builder { install, upgrade, run, hooks, mut commands, tools } = b;
    let mut arms = hooks;
    if tools.len() > 0 {
        let describe = HookArm {
            action: String::from_str("tool_describe"),
            name: String::from_str("tool_describe"),
            method: String::new(),
            kind: ArmKind::ToolDescribe,
            takes_args: false,
            publish_topic: Some(String::from_str("tool.v1.response.describe.self")),
        };
        proof {
            lemma_push_specs(arms@, describe);
            assert(arm_spec(describe) == describe_arm()) by {
                reveal_strlit("tool.v1.response.describe.self");
                assert(describe.method@ =~= Seq::<char>::empty());
            }
        }
        arms.push(describe);
    }
    let ghost before = arms@;
    arms.append(&mut commands);
    proof {
        assert(arm_specs(arms@) =~= arm_specs(before) + st.commands);
        assert(tool_specs(tools@).len() == tools@.len());
    }
    let mut exports: Vec<String> = Vec::new();
    exports.push(String::from_str("astrid_hook_trigger"));
    exports.push(String::from_str("run"));
    exports.push(String::from_str("astrid_install"));
    exports.push(String::from_str("astrid_upgrade"));
    proof {
        assert(exports@.map_values(|e: String| e@) =~= guest_exports());
    }
    Ok(CapsulePlan {
        stateful,
        install,
        upgrade,
        run,
        arms,
        tools,
        exports,
        continue_action: String::from_str("continue"),
        deny_action: String::from_str("deny"),
    })
}

// ---------------------------------------------------------------------------
// Doc comments.
// ---------------------------------------------------------------------------

/// A doc-comment line without the one space that follows `///`.
pub open spec fn strip_one_space(l: Seq<char>) -> Seq<char> {
    if l.len() > 0 && l[0] == ' ' {
        l.drop_first()
    } else {
        l
    }
}

/// The doc-comment lines `ls`, each without its leading space, joined with
/// line feeds.
pub open spec fn joined_doc(ls: Seq<Seq<char>>) -> Seq<char>
    decreases ls.len(),
{
    if ls.len() == 0 {
        Seq::empty()
    } else if ls.len() == 1 {
        strip_one_space(ls[0])
    } else {
        joined_doc(ls.drop_last()) + "\n"@ + strip_one_space(ls.last())
    }
}

/// The description given by the doc-comment lines `lines` (the values of
/// the `#[doc = "..."]` attributes, in order): the lines without their
/// leading space, joined with line feeds and trimmed; `None` when there is
/// no doc comment.
pub fn doc_text(lines: &Vec<String>) -> (r: Option<String>)
    ensures
        lines@.len() == 0 ==> r is None,
        lines@.len() > 0 ==> (r matches Some(s) && s@ == trim(
            joined_doc(crate::elicit::string_texts(lines@)),
        )),
{
    if lines.len() == 0 {
        return None;
    }
    let ghost ls = crate::elicit::string_texts(lines@);
    let mut out: Vec<char> = Vec::new();
    let mut i: usize = 0;
    while i < lines.len()
        invariant
            i <= lines@.len(),
            ls == crate::elicit::string_texts(lines@),
            out@ == joined_doc(ls.take(i as int)),
        decreases lines.len() - i,
    {
        let line = chars_of(lines[i].as_str());
        let ghost prev = out@;
        if i > 0 {
            out.push('\n');
        }
        let start: usize = if line.len() > 0 && line[0] == ' ' { 1 } else { 0 };
        let mut k: usize = start;
        let ghost mid = out@;
        while k < line.len()
            invariant
                start <= k <= line@.len(),
                out@ == mid + line@.subrange(start as int, k as int),
            decreases line.len() - k,
        {
            out.push(line[k]);
            k = k + 1;
            assert(out@ =~= mid + line@.subrange(start as int, k as int));
        }
        proof {
            assert(line@.subrange(start as int, line@.len() as int) =~= strip_one_space(line@));
            assert(ls[i as int] == lines@[i as int]@);
            let t = ls.take(i + 1);
            assert(t.drop_last() =~= ls.take(i as int));
            assert(t.last() == ls[i as int]);
            if i == 0 {
                assert(out@ =~= strip_one_space(ls[0]));
            } else {
                reveal_strlit("\n");
                assert(mid == prev.push('\n'));
                assert(out@ =~= prev + "\n"@ + strip_one_space(ls[i as int]));
            }
        }
        i = i + 1;
    }
    assert(ls.take(lines@.len() as int) =~= ls);
    let t = trim_chars(&out);
    Some(string_from_chars(t.as_slice()))
}

// ---------------------------------------------------------------------------
// Laws of the plan.
// ---------------------------------------------------------------------------

/// Whether `kind` names a lifecycle attribute.
pub open spec fn is_lifecycle(kind: Seq<char>) -> bool {
    kind == "install"@ || kind == "upgrade"@ || kind == "run"@
}

/// Whether the arms `s` are well-shaped: every tool arm's action is
/// `tool_execute_` followed by the tool's name and it publishes on the
/// tool's result topic, and none is the `tool_describe` arm.
pub open spec fn arms_well_shaped(s: Seq<ArmSpec>) -> bool {
    forall|i: int| 0 <= i < s.len() ==> {
        &&& (#[trigger] s[i]).kind is Tool ==> s[i].action == "tool_execute_"@ + s[i].name
        &&& s[i].kind is Tool ==> s[i].publish_topic == Some(tool_result_topic(s[i].name))
        &&& !(s[i].kind is ToolDescribe)
    }
}

pub open spec fn plan_well_shaped(st: PlanSpec) -> bool {
    arms_well_shaped(st.hooks) && arms_well_shaped(st.commands)
}

proof fn lemma_step_well_shaped(st: PlanSpec, m: MethodInfo, mu: bool, a: AstridAttr)
    requires
        plan_well_shaped(st),
    ensures
        attr_step(st, m, mu, a) matches Ok((st2, _)) ==> plan_well_shaped(st2),
{
}

proof fn lemma_attrs_well_shaped(st: PlanSpec, m: MethodInfo, mu: bool, attrs: Seq<AstridAttr>)
    requires
        plan_well_shaped(st),
    ensures
        attrs_fold(st, m, mu, attrs) matches Ok((st2, _)) ==> plan_well_shaped(st2),
    decreases attrs.len(),
{
    if attrs.len() > 0 {
        lemma_step_well_shaped(st, m, mu, attrs[0]);
        match attr_step(st, m, mu, attrs[0]) {
            Ok((st2, mu2)) => lemma_attrs_well_shaped(st2, m, mu2, attrs.drop_first()),
            Err(_) => {},
        }
    }
}

proof fn lemma_methods_well_shaped(st: PlanSpec, ms: Seq<MethodInfo>)
    requires
        plan_well_shaped(st),
    ensures
        methods_fold(st, ms) matches Ok(st2) ==> plan_well_shaped(st2),
    decreases ms.len(),
{
    if ms.len() > 0 {
        let m = ms[0];
        lemma_attrs_well_shaped(st, m, standalone_mutable(m.attrs@), m.attrs@);
        match attrs_fold(st, m, standalone_mutable(m.attrs@), m.attrs@) {
            Ok((st2, _)) => lemma_methods_well_shaped(st2, ms.drop_first()),
            Err(_) => {},
        }
    }
}

/// In the dispatch of every well-formed impl block, each tool is served by
/// the action `tool_execute_<name>` and publishes its result on the topic
/// `tool.v1.execute.<name>.result`; the `tool_describe` action is there
/// exactly when the block has a tool (and then only once), and it publishes
/// the descriptor on `tool.v1.response.describe.self`.
pub proof fn law_tool_dispatch(methods: Seq<MethodInfo>)
    ensures
        methods_fold(empty_plan(), methods) matches Ok(st) ==> {
            let d = dispatch_order(st);
            &&& forall|i: int| 0 <= i < d.len() && (#[trigger] d[i]).kind is Tool ==> d[i].action
                == "tool_execute_"@ + d[i].name && d[i].publish_topic == Some(tool_result_topic(d[i].name))
            &&& forall|i: int| 0 <= i < d.len() && (#[trigger] d[i]).kind is ToolDescribe ==> d[i].publish_topic
                == Some(describe_topic())
            &&& (exists|i: int| 0 <= i < d.len() && (#[trigger] d[i]).kind is ToolDescribe) <==> st.tools.len() > 0
            &&& forall|i: int, j: int| 0 <= i < j < d.len() && (#[trigger] d[i]).kind is ToolDescribe ==> !((#[trigger] d[j]).kind is ToolDescribe)
        },
{
    assert(plan_well_shaped(empty_plan()));
    lemma_methods_well_shaped(empty_plan(), methods);
    match methods_fold(empty_plan(), methods) {
        Ok(st) => {
            let d = dispatch_order(st);
            let h = st.hooks.len();
            if st.tools.len() > 0 {
                assert(d[h as int] == describe_arm());
                assert forall|i: int| 0 <= i < d.len() && i != h implies !(#[trigger] d[i].kind is ToolDescribe) by {
                    if i < h {
                        assert(d[i] == st.hooks[i]);
                    } else {
                        assert(d[i] == st.commands[i - h - 1]);
                    }
                }
                assert forall|i: int| 0 <= i < d.len() && (#[trigger] d[i]).kind is Tool implies d[i].action
                    == "tool_execute_"@ + d[i].name && d[i].publish_topic == Some(tool_result_topic(d[i].name)) by {
                    if i < h {
                        assert(d[i] == st.hooks[i]);
                    } else if i > h {
                        assert(d[i] == st.commands[i - h - 1]);
                    }
                }
            } else {
                assert forall|i: int| 0 <= i < d.len() implies !(#[trigger] d[i].kind is ToolDescribe) && (d[i].kind is Tool ==> d[i].action
                    == "tool_execute_"@ + d[i].name && d[i].publish_topic == Some(tool_result_topic(d[i].name))) by {
                    if i < h {
                        assert(d[i] == st.hooks[i]);
                    } else {
                        assert(d[i] == st.commands[i - h]);
                    }
                }
            }
        },
        Err(_) => {},
    }
}

/// Whether arm `a` calls a method of `all` by name, passing the method's
/// deserialized argument exactly when that method takes one.
pub open spec fn arm_serves(a: ArmSpec, all: Seq<MethodInfo>) -> bool {
    exists|i: int| 0 <= i < all.len() && (#[trigger] all[i]).name@ == a.method && a.takes_args == !(all[i].arg is NoArg)
}

pub open spec fn arms_serve(s: Seq<ArmSpec>, all: Seq<MethodInfo>) -> bool {
    forall|k: int| 0 <= k < s.len() ==> arm_serves(#[trigger] s[k], all)
}

pub open spec fn plan_serves(st: PlanSpec, all: Seq<MethodInfo>) -> bool {
    arms_serve(st.hooks, all) && arms_serve(st.commands, all)
}

proof fn lemma_push_serves(s: Seq<ArmSpec>, a: ArmSpec, all: Seq<MethodInfo>)
    requires
        arms_serve(s, all),
        arm_serves(a, all),
    ensures
        arms_serve(s.push(a), all),
{
    assert forall|k: int| 0 <= k < s.push(a).len() implies arm_serves(#[trigger] s.push(a)[k], all) by {
        if k < s.len() {
            assert(s.push(a)[k] == s[k]);
        }
    }
}

proof fn lemma_step_serves(st: PlanSpec, m: MethodInfo, mu: bool, a: AstridAttr, all: Seq<MethodInfo>, w: int)
    requires
        0 <= w < all.len(),
        all[w] == m,
        plan_serves(st, all),
    ensures
        attr_step(st, m, mu, a) matches Ok((st2, _)) ==> plan_serves(st2, all),
{
    let k = a.kind@;
    if !(k == "install"@ || k == "upgrade"@ || k == "run"@) {
        let name = match a.name {
            Some(n) => n@,
            None => m.name@,
        };
        if k == "tool"@ {
            let arm = ArmSpec {
                action: "tool_execute_"@ + name,
                name,
                method: m.name@,
                kind: ArmKind::Tool,
                takes_args: !(m.arg is NoArg),
                publish_topic: Some(tool_result_topic(name)),
            };
            assert(arm_serves(arm, all)) by {
                assert(all[w].name@ == arm.method);
            }
            lemma_push_serves(st.hooks, arm, all);
        } else if k == "command"@ {
            let arm = ArmSpec {
                action: name,
                name,
                method: m.name@,
                kind: ArmKind::Command,
                takes_args: !(m.arg is NoArg),
                publish_topic: None,
            };
            assert(arm_serves(arm, all)) by {
                assert(all[w].name@ == arm.method);
            }
            lemma_push_serves(st.commands, arm, all);
        } else if k == "interceptor"@ {
            let arm = ArmSpec {
                action: name,
                name,
                method: m.name@,
                kind: ArmKind::Interceptor,
                takes_args: !(m.arg is NoArg),
                publish_topic: None,
            };
            assert(arm_serves(arm, all)) by {
                assert(all[w].name@ == arm.method);
            }
            lemma_push_serves(st.hooks, arm, all);
        }
    }
}

proof fn lemma_attrs_serve(st: PlanSpec, m: MethodInfo, mu: bool, attrs: Seq<AstridAttr>, all: Seq<MethodInfo>, w: int)
    requires
        0 <= w < all.len(),
        all[w] == m,
        plan_serves(st, all),
    ensures
        attrs_fold(st, m, mu, attrs) matches Ok((st2, _)) ==> plan_serves(st2, all),
    decreases attrs.len(),
{
    if attrs.len() > 0 {
        lemma_step_serves(st, m, mu, attrs[0], all, w);
        match attr_step(st, m, mu, attrs[0]) {
            Ok((st2, mu2)) => lemma_attrs_serve(st2, m, mu2, attrs.drop_first(), all, w),
            Err(_) => {},
        }
    }
}

proof fn lemma_methods_serve(st: PlanSpec, all: Seq<MethodInfo>, off: int)
    requires
        0 <= off <= all.len(),
        plan_serves(st, all),
    ensures
        methods_fold(st, all.subrange(off, all.len() as int)) matches Ok(st2) ==> plan_serves(st2, all),
    decreases all.len() - off,
{
    let ms = all.subrange(off, all.len() as int);
    if ms.len() > 0 {
        let m = ms[0];
        assert(m == all[off]);
        lemma_attrs_serve(st, m, standalone_mutable(m.attrs@), m.attrs@, all, off);
        assert(ms.drop_first() =~= all.subrange(off + 1, all.len() as int));
        match attrs_fold(st, m, standalone_mutable(m.attrs@), m.attrs@) {
            Ok((st2, _)) => lemma_methods_serve(st2, all, off + 1),
            Err(_) => {},
        }
    }
}

/// In the dispatch of every well-formed impl block, each arm other than
/// `tool_describe` calls one of the block's methods by name, and passes it
/// the request's deserialized argument exactly when that method takes a
/// typed argument: a tool `fn search(&self, args: SearchArgs)` is called
/// with its arguments, a `fn ping(&self)` without.
pub proof fn law_arm_arguments(methods: Seq<MethodInfo>)
    ensures
        methods_fold(empty_plan(), methods) matches Ok(st) ==> {
            let d = dispatch_order(st);
            forall|k: int| 0 <= k < d.len() && !((#[trigger] d[k]).kind is ToolDescribe) ==> exists|i: int|
                0 <= i < methods.len() && (#[trigger] methods[i]).name@ == d[k].method && d[k].takes_args
                    == !(methods[i].arg is NoArg)
        },
{
    assert(plan_serves(empty_plan(), methods));
    assert(methods.subrange(0, methods.len() as int) =~= methods);
    lemma_methods_serve(empty_plan(), methods, 0);
    match methods_fold(empty_plan(), methods) {
        Ok(st) => {
            let d = dispatch_order(st);
            let h = st.hooks.len();
            assert forall|k: int| 0 <= k < d.len() && !((#[trigger] d[k]).kind is ToolDescribe) implies exists|i: int|
                0 <= i < methods.len() && (#[trigger] methods[i]).name@ == d[k].method && d[k].takes_args
                    == !(methods[i].arg is NoArg) by {
                if k < h {
                    assert(d[k] == st.hooks[k]);
                    assert(arm_serves(st.hooks[k], methods));
                } else if st.tools.len() > 0 {
                    if k > h {
                        assert(d[k] == st.commands[k - h - 1]);
                        assert(arm_serves(st.commands[k - h - 1], methods));
                    } else {
                        assert(d[k] == describe_arm());
                    }
                } else {
                    assert(d[k] == st.commands[k - h]);
                    assert(arm_serves(st.commands[k - h], methods));
                }
            }
        },
        Err(_) => {},
    }
}

proof fn lemma_attrs_mutable_lifecycle(st: PlanSpec, m: MethodInfo, attrs: Seq<AstridAttr>, j: int)
    requires
        0 <= j < attrs.len(),
        is_lifecycle(attrs[j].kind@),
    ensures
        attrs_fold(st, m, true, attrs) is Err,
    decreases attrs.len(),
{
    if j > 0 {
        match attr_step(st, m, true, attrs[0]) {
            Ok((st2, mu2)) => {
                assert(mu2);
                assert(attrs.drop_first()[j - 1] == attrs[j]);
                lemma_attrs_mutable_lifecycle(st2, m, attrs.drop_first(), j - 1);
            },
            Err(_) => {},
        }
    }
}

proof fn lemma_methods_mutable_lifecycle(st: PlanSpec, ms: Seq<MethodInfo>, i: int, j: int)
    requires
        0 <= i < ms.len(),
        standalone_mutable(ms[i].attrs@),
        0 <= j < ms[i].attrs@.len(),
        is_lifecycle(ms[i].attrs@[j].kind@),
    ensures
        methods_fold(st, ms) is Err,
    decreases ms.len(),
{
    let m = ms[0];
    if i == 0 {
        lemma_attrs_mutable_lifecycle(st, m, m.attrs@, j);
    } else {
        match attrs_fold(st, m, standalone_mutable(m.attrs@), m.attrs@) {
            Ok((st2, _)) => {
                assert(ms.drop_first()[i - 1] == ms[i]);
                lemma_methods_mutable_lifecycle(st2, ms.drop_first(), i - 1, j);
            },
            Err(_) => {},
        }
    }
}

/// An impl block in which a method carries both the standalone
/// `#[astrid::mutable]` attribute and a lifecycle attribute (`install`,
/// `upgrade` or `run`), in either order, is always refused.
pub proof fn law_mutable_lifecycle_refused(methods: Seq<MethodInfo>, i: int, j: int)
    requires
        0 <= i < methods.len(),
        standalone_mutable(methods[i].attrs@),
        0 <= j < methods[i].attrs@.len(),
        is_lifecycle(methods[i].attrs@[j].kind@),
    ensures
        methods_fold(empty_plan(), methods) is Err,
{
    lemma_methods_mutable_lifecycle(empty_plan(), methods, i, j);
}

/// The lifecycle slot of the plan that attribute `kind` fills.
pub open spec fn lifecycle_slot(st: PlanSpec, kind: Seq<char>) -> Option<Seq<char>> {
    if kind == "install"@ {
        st.install
    } else if kind == "upgrade"@ {
        st.upgrade
    } else {
        st.run
    }
}

proof fn lemma_step_keeps_slot(st: PlanSpec, m: MethodInfo, mu: bool, a: AstridAttr, kind: Seq<char>)
    requires
        lifecycle_slot(st, kind) is Some,
    ensures
        attr_step(st, m, mu, a) matches Ok((st2, _)) ==> lifecycle_slot(st2, kind) is Some,
{
}

proof fn lemma_step_fills_slot(st: PlanSpec, m: MethodInfo, mu: bool, a: AstridAttr)
    requires
        is_lifecycle(a.kind@),
    ensures
        attr_step(st, m, mu, a) matches Ok((st2, _)) ==> lifecycle_slot(st2, a.kind@) is Some,
{
}

proof fn lemma_step_refuses_filled(st: PlanSpec, m: MethodInfo, mu: bool, a: AstridAttr)
    requires
        is_lifecycle(a.kind@),
        lifecycle_slot(st, a.kind@) is Some,
    ensures
        attr_step(st, m, mu, a) is Err,
{
}

proof fn lemma_attrs_keep_slot(st: PlanSpec, m: MethodInfo, mu: bool, attrs: Seq<AstridAttr>, kind: Seq<char>)
    requires
        lifecycle_slot(st, kind) is Some,
    ensures
        attrs_fold(st, m, mu, attrs) matches Ok((st2, _)) ==> lifecycle_slot(st2, kind) is Some,
    decreases attrs.len(),
{
    if attrs.len() > 0 {
        lemma_step_keeps_slot(st, m, mu, attrs[0], kind);
        match attr_step(st, m, mu, attrs[0]) {
            Ok((st2, mu2)) => lemma_attrs_keep_slot(st2, m, mu2, attrs.drop_first(), kind),
            Err(_) => {},
        }
    }
}

proof fn lemma_attrs_fill_slot(st: PlanSpec, m: MethodInfo, mu: bool, attrs: Seq<AstridAttr>, j: int)
    requires
        0 <= j < attrs.len(),
        is_lifecycle(attrs[j].kind@),
    ensures
        attrs_fold(st, m, mu, attrs) matches Ok((st2, _)) ==> lifecycle_slot(st2, attrs[j].kind@) is Some,
    decreases attrs.len(),
{
    let kind = attrs[j].kind@;
    match attr_step(st, m, mu, attrs[0]) {
        Ok((st2, mu2)) => {
            if j == 0 {
                lemma_step_fills_slot(st, m, mu, attrs[0]);
                lemma_attrs_keep_slot(st2, m, mu2, attrs.drop_first(), kind);
            } else {
                assert(attrs.drop_first()[j - 1] == attrs[j]);
                lemma_attrs_fill_slot(st2, m, mu2, attrs.drop_first(), j - 1);
            }
        },
        Err(_) => {},
    }
}

proof fn lemma_attrs_refuse_filled(st: PlanSpec, m: MethodInfo, mu: bool, attrs: Seq<AstridAttr>, j: int)
    requires
        0 <= j < attrs.len(),
        is_lifecycle(attrs[j].kind@),
        lifecycle_slot(st, attrs[j].kind@) is Some,
    ensures
        attrs_fold(st, m, mu, attrs) is Err,
    decreases attrs.len(),
{
    let kind = attrs[j].kind@;
    if j == 0 {
        lemma_step_refuses_filled(st, m, mu, attrs[0]);
    } else {
        lemma_step_keeps_slot(st, m, mu, attrs[0], kind);
        match attr_step(st, m, mu, attrs[0]) {
            Ok((st2, mu2)) => {
                assert(attrs.drop_first()[j - 1] == attrs[j]);
                lemma_attrs_refuse_filled(st2, m, mu2, attrs.drop_first(), j - 1);
            },
            Err(_) => {},
        }
    }
}

proof fn lemma_methods_refuse_filled(st: PlanSpec, ms: Seq<MethodInfo>, k: int, b: int)
    requires
        0 <= k < ms.len(),
        0 <= b < ms[k].attrs@.len(),
        is_lifecycle(ms[k].attrs@[b].kind@),
        lifecycle_slot(st, ms[k].attrs@[b].kind@) is Some,
    ensures
        methods_fold(st, ms) is Err,
    decreases ms.len(),
{
    let m = ms[0];
    let kind = ms[k].attrs@[b].kind@;
    if k == 0 {
        lemma_attrs_refuse_filled(st, m, standalone_mutable(m.attrs@), m.attrs@, b);
    } else {
        lemma_attrs_keep_slot(st, m, standalone_mutable(m.attrs@), m.attrs@, kind);
        match attrs_fold(st, m, standalone_mutable(m.attrs@), m.attrs@) {
            Ok((st2, _)) => {
                assert(ms.drop_first()[k - 1] == ms[k]);
                lemma_methods_refuse_filled(st2, ms.drop_first(), k - 1, b);
            },
            Err(_) => {},
        }
    }
}

proof fn lemma_methods_duplicate(st: PlanSpec, ms: Seq<MethodInfo>, i: int, a: int, k: int, b: int)
    requires
        0 <= i < k < ms.len(),
        0 <= a < ms[i].attrs@.len(),
        0 <= b < ms[k].attrs@.len(),
        is_lifecycle(ms[i].attrs@[a].kind@),
        ms[k].attrs@[b].kind@ == ms[i].attrs@[a].kind@,
    ensures
        methods_fold(st, ms) is Err,
    decreases ms.len(),
{
    let m = ms[0];
    let mu = standalone_mutable(m.attrs@);
    match attrs_fold(st, m, mu, m.attrs@) {
        Ok((st2, _)) => {
            assert(ms.drop_first()[k - 1] == ms[k]);
            if i == 0 {
                lemma_attrs_fill_slot(st, m, mu, m.attrs@, a);
                lemma_methods_refuse_filled(st2, ms.drop_first(), k - 1, b);
            } else {
                assert(ms.drop_first()[i - 1] == ms[i]);
                lemma_methods_duplicate(st2, ms.drop_first(), i - 1, a, k - 1, b);
            }
        },
        Err(_) => {},
    }
}

/// At most one method per capsule may carry each lifecycle attribute: an
/// impl block in which two methods are both marked `#[astrid::install]`
/// (or both `upgrade`, or both `run`) is always refused.
pub proof fn law_one_lifecycle_method(methods: Seq<MethodInfo>, i: int, a: int, k: int, b: int)
    requires
        0 <= i < k < methods.len(),
        0 <= a < methods[i].attrs@.len(),
        0 <= b < methods[k].attrs@.len(),
        is_lifecycle(methods[i].attrs@[a].kind@),
        methods[k].attrs@[b].kind@ == methods[i].attrs@[a].kind@,
    ensures
        methods_fold(empty_plan(), methods) is Err,
{
    lemma_methods_duplicate(empty_plan(), methods, i, a, k, b);
}

} // verus!

//! Declarations: attribute lists, functions, structs, global variables,
//! and the module root, with their rendering.

use crate::expr::ExprNode;
use crate::stmt::{render_block_into, spec_render_block, Statement};
use crate::text::{append_indented_line, indent_text, int_str, render_i32, render_u32};
use crate::types::DataType;
use vstd::prelude::*;
use vstd::string::StringExecFns;

verus! {

/// An attribute kind that renders as source text inside a `[[...]]` list.
pub trait Attribute {
    /// The source text this attribute renders as.
    spec fn spec_render(&self) -> Seq<char>;

    /// Renders this attribute.
    fn render(&self) -> (r: String)
        ensures
            r@ == self.spec_render(),
    ;
}

/// An ordered, possibly-empty sequence of attributes of a single kind.
#[derive(Debug, PartialEq, Eq)]
pub struct AttrList<T>(pub Vec<T>);

/// The comma-space separated rendering of the attributes from index `i`
/// on.
pub open spec fn spec_render_attrs<T: Attribute>(attrs: Seq<T>, i: int) -> Seq<char>
    recommends
        0 <= i <= attrs.len(),
    decreases attrs.len() - i,
{
    if i < 0 || i >= attrs.len() {
        Seq::<char>::empty()
    } else if i + 1 == attrs.len() {
        attrs[i].spec_render()
    } else {
        attrs[i].spec_render() + ", "@ + spec_render_attrs(attrs, i + 1)
    }
}

/// Appends the comma-space separated renderings of `attrs[i..]` to `out`.
fn render_attrs_into<T: Attribute>(attrs: &Vec<T>, i: usize, out: &mut String)
    requires
        i <= attrs.len(),
    ensures
        final(out)@ == old(out)@ + spec_render_attrs(attrs@, i as int),
    decreases attrs@.len() - i as int,
{
    if i < attrs.len() {
        let piece = attrs[i].render();
        out.append(piece.as_str());
        if i + 1 < attrs.len() {
            out.append(", ");
        }
        render_attrs_into(attrs, i + 1, out);
        proof {
            assert(out@ =~= old(out)@ + spec_render_attrs(attrs@, i as int));
        }
    } else {
        proof {
            assert(out@ =~= old(out)@ + spec_render_attrs(attrs@, i as int));
        }
    }
}

impl<T: Attribute> AttrList<T> {
    /// The source text this list renders as: nothing at all when empty,
    /// otherwise the attributes comma-space separated inside `[[...]]`.
    pub open spec fn spec_render(&self) -> Seq<char> {
        if self.0@.len() == 0 {
            Seq::<char>::empty()
        } else {
            "[["@ + spec_render_attrs(self.0@, 0) + "]]"@
        }
    }

    /// Renders this attribute list.
    pub fn render(&self) -> (r: String)
        ensures
            r@ == self.spec_render(),
    {
        if self.0.len() == 0 {
            String::new()
        } else {
            let mut out = "[[".to_owned();
            render_attrs_into(&self.0, 0, &mut out);
            out.append("]]");
            proof {
                assert(out@ =~= self.spec_render());
            }
            out
        }
    }
}

/// The pipeline stage a function is an entry point for.
#[derive(Debug, PartialEq, Eq)]
pub enum ShaderStage {
    Compute,
    Vertex,
    Fragment,
}

impl ShaderStage {
    /// The keyword this stage renders as.
    pub open spec fn spec_render(&self) -> Seq<char> {
        match self {
            ShaderStage::Compute => "compute"@,
            ShaderStage::Vertex => "vertex"@,
            ShaderStage::Fragment => "fragment"@,
        }
    }

    /// Renders this stage's keyword.
    pub fn render(&self) -> (r: String)
        ensures
            r@ == self.spec_render(),
    {
        match self {
            ShaderStage::Compute => "compute".to_owned(),
            ShaderStage::Vertex => "vertex".to_owned(),
            ShaderStage::Fragment => "fragment".to_owned(),
        }
    }
}

/// A function attribute: the shader stage, or a workgroup size.
#[derive(Debug, PartialEq, Eq)]
pub enum FnAttr {
    Stage(ShaderStage),
    WorkgroupSize(u32),
}

impl Attribute for FnAttr {
    open spec fn spec_render(&self) -> Seq<char> {
        match self {
            FnAttr::Stage(stage) => "stage("@ + stage.spec_render() + ")"@,
            FnAttr::WorkgroupSize(size) => "workgroup_size("@ + crate::text::dec_str(*size as int)
                + ")"@,
        }
    }

    fn render(&self) -> (r: String) {
        match self {
            FnAttr::Stage(stage) => {
                let mut out = "stage(".to_owned();
                let s = stage.render();
                out.append(s.as_str());
                out.append(")");
                proof {
                    assert(out@ =~= self.spec_render());
                }
                out
            },
            FnAttr::WorkgroupSize(size) => {
                let mut out = "workgroup_size(".to_owned();
                let s = render_u32(*size);
                out.append(s.as_str());
                out.append(")");
                proof {
                    assert(out@ =~= self.spec_render());
                }
                out
            },
        }
    }
}

/// The attribute kind of function inputs. No such attribute exists yet:
/// this placeholder offers no way to construct a value, so an input's
/// attribute list is always empty.
#[derive(Debug, PartialEq, Eq)]
pub struct FnInputAttr(());

/// The attribute kind of function outputs. No such attribute exists yet:
/// this placeholder offers no way to construct a value, so an output's
/// attribute list is always empty.
#[derive(Debug, PartialEq, Eq)]
pub struct FnOutputAttr(());

/// A function parameter: its attributes, name, and data type.
#[derive(Debug, PartialEq, Eq)]
pub struct FnInput {
    pub attrs: AttrList<FnInputAttr>,
    pub name: String,
    pub data_type: DataType,
}

impl FnInput {
    /// The source text this parameter renders as: `name: type`. Its
    /// attribute list is not rendered (the attribute kind is uninhabited,
    /// so the list is always empty).
    pub open spec fn spec_render(&self) -> Seq<char> {
        self.name@ + ": "@ + self.data_type.spec_render()
    }

    /// Renders this parameter.
    pub fn render(&self) -> (r: String)
        ensures
            r@ == self.spec_render(),
    {
        let mut out = self.name.clone();
        out.append(": ");
        let t = self.data_type.render();
        out.append(t.as_str());
        proof {
            assert(out@ =~= self.spec_render());
        }
        out
    }
}

/// A function's return descriptor: its attributes and data type.
#[derive(Debug, PartialEq, Eq)]
pub struct FnOutput {
    pub attrs: AttrList<FnOutputAttr>,
    pub data_type: DataType,
}

impl FnOutput {
    /// The source text this return descriptor renders as: its data type
    /// alone. Its attribute list is not rendered (the attribute kind is
    /// uninhabited, so the list is always empty).
    pub open spec fn spec_render(&self) -> Seq<char> {
        self.data_type.spec_render()
    }

    /// Renders this return descriptor.
    pub fn render(&self) -> (r: String)
        ensures
            r@ == self.spec_render(),
    {
        self.data_type.render()
    }
}

/// The comma-space separated rendering of the parameters from index `i`
/// on.
pub open spec fn spec_render_inputs(inputs: Seq<FnInput>, i: int) -> Seq<char>
    recommends
        0 <= i <= inputs.len(),
    decreases inputs.len() - i,
{
    if i < 0 || i >= inputs.len() {
        Seq::<char>::empty()
    } else if i + 1 == inputs.len() {
        inputs[i].spec_render()
    } else {
        inputs[i].spec_render() + ", "@ + spec_render_inputs(inputs, i + 1)
    }
}

/// Appends the comma-space separated renderings of `inputs[i..]` to `out`.
fn render_inputs_into(inputs: &Vec<FnInput>, i: usize, out: &mut String)
    requires
        i <= inputs.len(),
    ensures
        final(out)@ == old(out)@ + spec_render_inputs(inputs@, i as int),
    decreases inputs@.len() - i as int,
{
    if i < inputs.len() {
        let piece = inputs[i].render();
        out.append(piece.as_str());
        if i + 1 < inputs.len() {
            out.append(", ");
        }
        render_inputs_into(inputs, i + 1, out);
        proof {
            assert(out@ =~= old(out)@ + spec_render_inputs(inputs@, i as int));
        }
    } else {
        proof {
            assert(out@ =~= old(out)@ + spec_render_inputs(inputs@, i as int));
        }
    }
}

/// A function declaration: attributes, name, parameters, optional return
/// descriptor, and the statements of its body.
#[derive(Debug, PartialEq, Eq)]
pub struct FnDecl {
    pub attrs: AttrList<FnAttr>,
    pub name: String,
    pub inputs: Vec<FnInput>,
    pub output: Option<FnOutput>,
    pub body: Vec<Statement>,
}

impl FnDecl {
    /// The source text this declaration renders as: the attribute-list
    /// line, then `fn name(params) `, then `-> type ` when a return
    /// descriptor is present, then the body as a brace block with one
    /// statement per indented line.
    pub open spec fn spec_render(&self) -> Seq<char> {
        self.attrs.spec_render() + "\n"@ + "fn "@ + self.name@ + "("@ + spec_render_inputs(
            self.inputs@,
            0,
        ) + ") "@ + (match self.output {
            Some(output) => "-> "@ + output.spec_render() + " "@,
            None => Seq::<char>::empty(),
        }) + "{\n"@ + spec_render_block(self.body@, 0) + "}\n"@
    }

    /// Renders this function declaration.
    pub fn render(&self) -> (r: String)
        ensures
            r@ == self.spec_render(),
    {
        let mut out = self.attrs.render();
        out.append("\n");
        out.append("fn ");
        out.append(self.name.as_str());
        out.append("(");
        render_inputs_into(&self.inputs, 0, &mut out);
        out.append(") ");
        match &self.output {
            Some(output) => {
                out.append("-> ");
                let t = output.render();
                out.append(t.as_str());
                out.append(" ");
            },
            None => {},
        }
        out.append("{\n");
        render_block_into(&self.body, 0, &mut out);
        out.append("}\n");
        proof {
            assert(out@ =~= self.spec_render());
        }
        out
    }
}

/// A struct member: its name and data type.
#[derive(Debug, PartialEq, Eq)]
pub struct StructMember {
    pub name: String,
    pub data_type: DataType,
}

impl StructMember {
    /// The line this member occupies inside its declaration:
    /// `name: type;`.
    pub open spec fn spec_render(&self) -> Seq<char> {
        self.name@ + ": "@ + self.data_type.spec_render() + ";"@
    }

    /// Renders this member's line, without indentation.
    pub fn render(&self) -> (r: String)
        ensures
            r@ == self.spec_render(),
    {
        let mut out = self.name.clone();
        out.append(": ");
        let t = self.data_type.render();
        out.append(t.as_str());
        out.append(";");
        proof {
            assert(out@ =~= self.spec_render());
        }
        out
    }
}

/// The rendering of the members from index `i` on, one indented line each.
pub open spec fn spec_render_members(members: Seq<StructMember>, i: int) -> Seq<char>
    recommends
        0 <= i <= members.len(),
    decreases members.len() - i,
{
    if i < 0 || i >= members.len() {
        Seq::<char>::empty()
    } else {
        indent_text(members[i].spec_render()) + seq!['\n'] + spec_render_members(members, i + 1)
    }
}

/// Appends the indented member lines `members[i..]` to `out`.
fn render_members_into(members: &Vec<StructMember>, i: usize, out: &mut String)
    requires
        i <= members.len(),
    ensures
        final(out)@ == old(out)@ + spec_render_members(members@, i as int),
    decreases members@.len() - i as int,
{
    if i < members.len() {
        let line = members[i].render();
        append_indented_line(out, line.as_str());
        render_members_into(members, i + 1, out);
        proof {
            assert(out@ =~= old(out)@ + spec_render_members(members@, i as int));
        }
    } else {
        proof {
            assert(out@ =~= old(out)@ + spec_render_members(members@, i as int));
        }
    }
}

/// A struct declaration: its name and ordered member list. Member order is
/// semantically significant: it is the memory layout order.
#[derive(Debug, PartialEq, Eq)]
pub struct StructDecl {
    pub name: String,
    pub members: Vec<StructMember>,
}

impl StructDecl {
    /// The source text this declaration renders as: `struct name {`, one
    /// indented line per member, then `};`.
    pub open spec fn spec_render(&self) -> Seq<char> {
        "struct "@ + self.name@ + " {\n"@ + spec_render_members(self.members@, 0) + "};\n"@
    }

    /// Renders this struct declaration.
    pub fn render(&self) -> (r: String)
        ensures
            r@ == self.spec_render(),
    {
        let mut out = "struct ".to_owned();
        out.append(self.name.as_str());
        out.append(" {\n");
        render_members_into(&self.members, 0, &mut out);
        out.append("};\n");
        proof {
            assert(out@ =~= self.spec_render());
        }
        out
    }
}

/// A global-variable attribute: a binding slot or a bind group index.
#[derive(Debug, PartialEq, Eq)]
pub enum GlobalVarAttr {
    Binding(i32),
    Group(i32),
}

impl Attribute for GlobalVarAttr {
    open spec fn spec_render(&self) -> Seq<char> {
        match self {
            GlobalVarAttr::Binding(v) => "binding("@ + int_str(*v as int) + ")"@,
            GlobalVarAttr::Group(v) => "group("@ + int_str(*v as int) + ")"@,
        }
    }

    fn render(&self) -> (r: String) {
        match self {
            GlobalVarAttr::Binding(v) => {
                let mut out = "binding(".to_owned();
                let s = render_i32(*v);
                out.append(s.as_str());
                out.append(")");
                proof {
                    assert(out@ =~= self.spec_render());
                }
                out
            },
            GlobalVarAttr::Group(v) => {
                let mut out = "group(".to_owned();
                let s = render_i32(*v);
                out.append(s.as_str());
                out.append(")");
                proof {
                    assert(out@ =~= self.spec_render());
                }
                out
            },
        }
    }
}

/// Where a global variable's backing memory resides.
#[derive(Debug, PartialEq, Eq)]
pub enum StorageClass {
    Function,
    Private,
    WorkGroup,
    Uniform,
    Storage,
}

impl StorageClass {
    /// The keyword this storage class renders as.
    pub open spec fn spec_render(&self) -> Seq<char> {
        match self {
            StorageClass::Function => "function"@,
            StorageClass::Private => "private"@,
            StorageClass::WorkGroup => "workgroup"@,
            StorageClass::Uniform => "uniform"@,
            StorageClass::Storage => "storage"@,
        }
    }

    /// Renders this storage class's keyword.
    pub fn render(&self) -> (r: String)
        ensures
            r@ == self.spec_render(),
    {
        match self {
            StorageClass::Function => "function".to_owned(),
            StorageClass::Private => "private".to_owned(),
            StorageClass::WorkGroup => "workgroup".to_owned(),
            StorageClass::Uniform => "uniform".to_owned(),
            StorageClass::Storage => "storage".to_owned(),
        }
    }
}

/// How a global variable's memory may be accessed.
#[derive(Debug, PartialEq, Eq)]
pub enum AccessMode {
    Read,
    Write,
    ReadWrite,
}

impl AccessMode {
    /// The keyword this access mode renders as.
    pub open spec fn spec_render(&self) -> Seq<char> {
        match self {
            AccessMode::Read => "read"@,
            AccessMode::Write => "write"@,
            AccessMode::ReadWrite => "read_write"@,
        }
    }

    /// Renders this access mode's keyword.
    pub fn render(&self) -> (r: String)
        ensures
            r@ == self.spec_render(),
    {
        match self {
            AccessMode::Read => "read".to_owned(),
            AccessMode::Write => "write".to_owned(),
            AccessMode::ReadWrite => "read_write".to_owned(),
        }
    }
}

/// A storage class paired with an optional access mode. Whether an access
/// mode is meaningful for a given storage class is not enforced by this
/// type.
#[derive(Debug, PartialEq, Eq)]
pub struct VarQualifier {
    pub storage_class: StorageClass,
    pub access_mode: Option<AccessMode>,
}

/// A global-variable declaration: attributes, optional qualifier, name,
/// data type, and optional initializer.
#[derive(Debug, PartialEq, Eq)]
pub struct GlobalVarDecl {
    pub attrs: AttrList<GlobalVarAttr>,
    pub qualifier: Option<VarQualifier>,
    pub name: String,
    pub data_type: DataType,
    pub initializer: Option<ExprNode>,
}

impl GlobalVarDecl {
    /// The source text this declaration renders as: the attribute-list
    /// line (genuinely empty when there are no attributes), then `var`,
    /// then `<storage_class[, access_mode]>` when a qualifier is present,
    /// then ` name: type`, an optional ` = initializer`, and a terminating
    /// `;` with a newline.
    pub open spec fn spec_render(&self) -> Seq<char> {
        self.attrs.spec_render() + "\n"@ + "var"@ + (match self.qualifier {
            Some(qualifier) => "<"@ + qualifier.storage_class.spec_render() + (
            match qualifier.access_mode {
                Some(mode) => ", "@ + mode.spec_render(),
                None => Seq::<char>::empty(),
            }) + ">"@,
            None => Seq::<char>::empty(),
        }) + " "@ + self.name@ + ": "@ + self.data_type.spec_render() + (
        match self.initializer {
            Some(init) => " = "@ + init.spec_render(),
            None => Seq::<char>::empty(),
        }) + ";\n"@
    }

    /// Renders this global-variable declaration.
    pub fn render(&self) -> (r: String)
        ensures
            r@ == self.spec_render(),
    {
        let mut out = self.attrs.render();
        out.append("\n");
        out.append("var");
        match &self.qualifier {
            Some(qualifier) => {
                out.append("<");
                let sc = qualifier.storage_class.render();
                out.append(sc.as_str());
                match &qualifier.access_mode {
                    Some(mode) => {
                        out.append(", ");
                        let am = mode.render();
                        out.append(am.as_str());
                    },
                    None => {},
                }
                out.append(">");
            },
            None => {},
        }
        out.append(" ");
        out.append(self.name.as_str());
        out.append(": ");
        let t = self.data_type.render();
        out.append(t.as_str());
        match &self.initializer {
            Some(init) => {
                out.append(" = ");
                let e = init.render();
                out.append(e.as_str());
            },
            None => {},
        }
        out.append(";\n");
        proof {
            assert(out@ =~= self.spec_render());
        }
        out
    }
}

/// The rendering of the struct declarations from index `i` on, each
/// followed by the blank line a line-oriented writer leaves after it.
pub open spec fn spec_render_structs(structs: Seq<StructDecl>, i: int) -> Seq<char>
    recommends
        0 <= i <= structs.len(),
    decreases structs.len() - i,
{
    if i < 0 || i >= structs.len() {
        Seq::<char>::empty()
    } else {
        structs[i].spec_render() + "\n"@ + spec_render_structs(structs, i + 1)
    }
}

/// Appends the renderings of `structs[i..]`, each followed by a newline.
fn render_structs_into(structs: &Vec<StructDecl>, i: usize, out: &mut String)
    requires
        i <= structs.len(),
    ensures
        final(out)@ == old(out)@ + spec_render_structs(structs@, i as int),
    decreases structs@.len() - i as int,
{
    if i < structs.len() {
        let piece = structs[i].render();
        out.append(piece.as_str());
        out.append("\n");
        render_structs_into(structs, i + 1, out);
        proof {
            assert(out@ =~= old(out)@ + spec_render_structs(structs@, i as int));
        }
    } else {
        proof {
            assert(out@ =~= old(out)@ + spec_render_structs(structs@, i as int));
        }
    }
}

/// The rendering of the global-variable declarations from index `i` on,
/// each followed by the blank line a line-oriented writer leaves after it.
pub open spec fn spec_render_globals(vars: Seq<GlobalVarDecl>, i: int) -> Seq<char>
    recommends
        0 <= i <= vars.len(),
    decreases vars.len() - i,
{
    if i < 0 || i >= vars.len() {
        Seq::<char>::empty()
    } else {
        vars[i].spec_render() + "\n"@ + spec_render_globals(vars, i + 1)
    }
}

/// Appends the renderings of `vars[i..]`, each followed by a newline.
fn render_globals_into(vars: &Vec<GlobalVarDecl>, i: usize, out: &mut String)
    requires
        i <= vars.len(),
    ensures
        final(out)@ == old(out)@ + spec_render_globals(vars@, i as int),
    decreases vars@.len() - i as int,
{
    if i < vars.len() {
        let piece = vars[i].render();
        out.append(piece.as_str());
        out.append("\n");
        render_globals_into(vars, i + 1, out);
        proof {
            assert(out@ =~= old(out)@ + spec_render_globals(vars@, i as int));
        }
    } else {
        proof {
            assert(out@ =~= old(out)@ + spec_render_globals(vars@, i as int));
        }
    }
}

/// The module root: ordered struct declarations, ordered global-variable
/// declarations, a general function list, and the designated entry-point
/// function. A module is constructed once by an external builder and then
/// treated as immutable while it is printed.
#[derive(Debug, PartialEq, Eq)]
pub struct Module {
    pub structs: Vec<StructDecl>,
    pub vars: Vec<GlobalVarDecl>,
    pub functions: Vec<FnDecl>,
    pub entrypoint: FnDecl,
}

impl Module {
    /// The source text this module renders as: each struct declaration in
    /// order, each global-variable declaration in order, then the
    /// entry-point function only. The general `functions` list is part of
    /// the data model but is deliberately not rendered here: emitting
    /// non-entry functions is left to a separate pass.
    pub open spec fn spec_render(&self) -> Seq<char> {
        spec_render_structs(self.structs@, 0) + spec_render_globals(self.vars@, 0)
            + self.entrypoint.spec_render()
    }

    /// Renders this module.
    pub fn render(&self) -> (r: String)
        ensures
            r@ == self.spec_render(),
    {
        let mut out = String::new();
        render_structs_into(&self.structs, 0, &mut out);
        render_globals_into(&self.vars, 0, &mut out);
        let entry = self.entrypoint.render();
        out.append(entry.as_str());
        proof {
            assert(out@ =~= self.spec_render());
        }
        out
    }
}

} // verus!

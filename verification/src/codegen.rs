//! The native code generator: lowers the AST into one exported function
//! (named `main`, returning a 64-bit integer) inside an in-process JIT
//! module, through cranelift.
//!
//! Only integer literal statements are lowered today; every other construct
//! is rejected with an explicit unsupported-construct error before any
//! cranelift state is touched, so a partially built function is never
//! exposed. `supports` is the verified decision procedure for what the
//! generator accepts, and `compile` is proved to fail with exactly the
//! unsupported-construct message whenever `supports` says no.
//!
//! The cranelift calls stand behind trusted wrappers; each wrapper's doc
//! comment names the function relied on. The wrappers are used in one
//! linear protocol (declare, build one sealed block, finalize, define),
//! which is the discipline cranelift's own examples follow.
use crate::ast::{AstNode, AstV, ast_view, asts_view, lemma_asts_view};
use cranelift::prelude::settings;
use cranelift::prelude::types;
use cranelift::prelude::AbiParam;
use cranelift::prelude::Block;
use cranelift::prelude::Configurable;
use cranelift::prelude::InstBuilder;
use cranelift::prelude::FunctionBuilder;
use cranelift::prelude::FunctionBuilderContext;
use cranelift::prelude::Signature;
use cranelift_jit::{JITBuilder, JITModule};
use cranelift_module::{FuncId, Linkage, Module};
use vstd::prelude::*;
use vstd::string::StringExecFns;

verus! {

#[verifier::external_type_specification]
#[verifier::external_body]
pub struct ExJitModule(JITModule);

#[verifier::external_type_specification]
#[verifier::external_body]
pub struct ExContext(cranelift::codegen::Context);

#[verifier::external_type_specification]
#[verifier::external_body]
pub struct ExFunctionBuilderContext(FunctionBuilderContext);

#[verifier::external_type_specification]
#[verifier::external_body]
pub struct ExFunctionBuilder<'a>(FunctionBuilder<'a>);

#[verifier::external_type_specification]
#[verifier::external_body]
pub struct ExSignature(Signature);

#[verifier::external_type_specification]
#[verifier::external_body]
pub struct ExFuncId(FuncId);

#[verifier::external_type_specification]
#[verifier::external_body]
pub struct ExBlock(Block);

/// Relies on `cranelift_native::builder`, `settings::Flags::new`,
/// `isa::Builder::finish`, `JITBuilder::with_isa` and `JITModule::new`: a
/// JIT module for the host machine, configured as a plain non-PIC module,
/// or `None` where the host is unsupported or the configuration is refused.
#[verifier::external_body]
fn new_jit_module() -> (r: Option<JITModule>)
{
    let mut flag_builder = settings::builder();
    flag_builder.set("use_colocated_libcalls", "false").ok()?;
    flag_builder.set("is_pic", "false").ok()?;
    let isa_builder = cranelift_native::builder().ok()?;
    let isa = isa_builder.finish(settings::Flags::new(flag_builder)).ok()?;
    let builder = JITBuilder::with_isa(isa, cranelift_module::default_libcall_names());
    Some(JITModule::new(builder))
}

/// Relies on `Module::make_context`: a fresh compilation context for this
/// module.
#[verifier::external_body]
fn make_context(m: &JITModule) -> (r: cranelift::codegen::Context)
{
    m.make_context()
}

/// Relies on `FunctionBuilderContext::new`.
#[verifier::external_body]
fn make_builder_context() -> (r: FunctionBuilderContext)
{
    FunctionBuilderContext::new()
}

/// Relies on `Module::make_signature`: an empty signature in the module's
/// calling convention.
#[verifier::external_body]
fn make_signature(m: &JITModule) -> (r: Signature)
{
    m.make_signature()
}

/// Relies on `AbiParam::new` and `Vec::push`: appends one 64-bit integer
/// return value to the signature.
#[verifier::external_body]
fn push_i64_return(sig: &mut Signature)
{
    sig.returns.push(AbiParam::new(types::I64));
}

/// Relies on `Module::declare_function` with `Linkage::Export`: declares
/// the named exported function, or the module's error rendered as text.
#[verifier::external_body]
fn declare_export_function(m: &mut JITModule, name: &str, sig: &Signature) -> (r: Result<
    FuncId,
    String,
>)
{
    m.declare_function(name, Linkage::Export, sig).map_err(|e| e.to_string())
}

/// Relies on `Context::func::signature` being the signature the function is
/// built and later defined against.
#[verifier::external_body]
fn set_function_signature(ctx: &mut cranelift::codegen::Context, sig: &Signature)
{
    ctx.func.signature = sig.clone();
}

/// Relies on `FunctionBuilder::new`: starts building the context's function.
#[verifier::external_body]
fn begin_function<'a>(
    ctx: &'a mut cranelift::codegen::Context,
    fbc: &'a mut FunctionBuilderContext,
) -> (r: FunctionBuilder<'a>)
{
    FunctionBuilder::new(&mut ctx.func, fbc)
}

/// Relies on `FunctionBuilder::create_block`.
#[verifier::external_body]
fn create_block(b: &mut FunctionBuilder) -> (r: Block)
{
    b.create_block()
}

/// Relies on `FunctionBuilder::switch_to_block`; the block must not yet be
/// filled.
#[verifier::external_body]
fn switch_to_block(b: &mut FunctionBuilder, blk: Block)
{
    b.switch_to_block(blk);
}

/// Relies on `FunctionBuilder::seal_block`: the block's predecessors are
/// all known. The entry block has none, so it is sealed right away.
#[verifier::external_body]
fn seal_block(b: &mut FunctionBuilder, blk: Block)
{
    b.seal_block(blk);
}

/// Relies on `InstBuilder::iconst`: loads the 64-bit integer immediate.
#[verifier::external_body]
fn emit_iconst(b: &mut FunctionBuilder, v: i64)
{
    let _ = b.ins().iconst(types::I64, v);
}

/// Relies on `InstBuilder::iconst` and `InstBuilder::return_`: loads the
/// 64-bit integer immediate and returns it, filling the block.
#[verifier::external_body]
fn emit_return_i64(b: &mut FunctionBuilder, v: i64)
{
    let x = b.ins().iconst(types::I64, v);
    b.ins().return_(&[x]);
}

/// Relies on `FunctionBuilder::finalize` with the module's frontend
/// configuration; every block must be sealed and filled by now.
#[verifier::external_body]
fn finish_function(b: FunctionBuilder, m: &JITModule)
{
    b.finalize(m.target_config());
}

/// Relies on `Module::define_function`: hands the built function to the
/// module, or the module's error rendered as text.
#[verifier::external_body]
fn define_function(m: &mut JITModule, id: FuncId, ctx: &mut cranelift::codegen::Context) -> (r:
    Result<(), String>)
{
    m.define_function(id, ctx).map_err(|e| e.to_string())
}

/// Relies on `Module::clear_context`: resets the context for reuse.
#[verifier::external_body]
fn clear_context(m: &JITModule, ctx: &mut cranelift::codegen::Context)
{
    m.clear_context(ctx);
}

/// Relies on `JITModule::finalize_definitions`: performs linking, making
/// defined functions callable, or the module's error rendered as text.
#[verifier::external_body]
fn finalize_definitions(m: &mut JITModule) -> (r: Result<(), String>)
{
    m.finalize_definitions().map_err(|e| e.to_string())
}

/// A node's image is a literal exactly when the node is.
proof fn lemma_view_literal(n: AstNode)
    ensures
        (ast_view(n) is Literal) <==> (n is Literal),
{
    match n {
        AstNode::Literal(_) => {},
        AstNode::FloatLiteral(_) => {},
        AstNode::BoolLiteral(_) => {},
        AstNode::StringLiteral(_) => {},
        AstNode::Binary(_, _, _) => {},
        AstNode::Unary(_, _) => {},
        AstNode::VarDecl(_, _, _) => {},
        AstNode::VarRef(_) => {},
        AstNode::FuncDecl(_, _, _, _) => {},
        AstNode::Call(_, _) => {},
        AstNode::If(_, _, _) => {},
        AstNode::While(_, _) => {},
        AstNode::For(_, _, _, _, _) => {},
        AstNode::Return(_) => {},
        AstNode::Block(_) => {},
        AstNode::Write(_) => {},
        AstNode::ArrayLiteral(_) => {},
        AstNode::Index(_, _) => {},
    }
}

/// The node kinds the code generator can lower today: integer literals.
pub open spec fn codegen_supported(n: AstV) -> bool {
    n is Literal
}

/// Every statement of the program is one the generator can lower.
pub open spec fn all_supported(ns: Seq<AstV>) -> bool {
    forall|i: int| 0 <= i < ns.len() ==> codegen_supported(ns[i])
}

/// Decides whether the code generator accepts the program: exactly when
/// every statement is a supported construct.
pub fn supports(ast: &Vec<AstNode>) -> (r: bool)
    ensures
        r == all_supported(asts_view(ast@)),
{
    proof {
        lemma_asts_view(ast@);
    }
    let mut i: usize = 0;
    while i < ast.len()
        invariant
            0 <= i <= ast@.len(),
            asts_view(ast@).len() == ast@.len(),
            forall|t: int| 0 <= t < ast@.len() ==> asts_view(ast@)[t] == ast_view(ast@[t]),
            forall|t: int| 0 <= t < i ==> codegen_supported(asts_view(ast@)[t]),
        decreases ast@.len() - i,
    {
        match &ast[i] {
            AstNode::Literal(_) => {
                proof {
                    lemma_view_literal(ast@[i as int]);
                }
            },
            _ => {
                proof {
                    lemma_view_literal(ast@[i as int]);
                    assert(asts_view(ast@)[i as int] == ast_view(ast@[i as int]));
                    assert(!codegen_supported(asts_view(ast@)[i as int]));
                }
                return false;
            },
        }
        i += 1;
    }
    true
}

/// Lowers one supported node: its value as an immediate-load instruction.
fn codegen_node(builder: &mut FunctionBuilder, node: &AstNode)
    requires
        codegen_supported(ast_view(*node)),
{
    match node {
        AstNode::Literal(v) => emit_iconst(builder, *v),
        _ => vstd::pervasive::unreached(),
    }
}

/// The code generator: a function-building context, a compilation context,
/// and the JIT module the finished code lives in.
pub struct CodeGen {
    builder_context: FunctionBuilderContext,
    ctx: cranelift::codegen::Context,
    module: JITModule,
}

impl CodeGen {
    /// A code generator for the host machine, or an error where the host
    /// is unsupported.
    pub fn new() -> (r: Result<CodeGen, String>)
    {
        match new_jit_module() {
            Some(module) => {
                let ctx = make_context(&module);
                Ok(CodeGen { builder_context: make_builder_context(), ctx, module })
            },
            None => Err(String::from_str("host machine is not supported")),
        }
    }

    /// The module holding the finished code; the caller looks the compiled
    /// entry point up in it.
    pub fn module(&self) -> &JITModule {
        &self.module
    }

    /// Builds one exported function `main` returning a 64-bit integer: the
    /// lowered statements, then a zero return. A program with any
    /// unsupported construct is rejected up front with exactly the
    /// unsupported-construct error, before any code is built; on success
    /// every statement was supported.
    pub fn compile(&mut self, ast: &Vec<AstNode>) -> (r: Result<FuncId, String>)
        ensures
            !all_supported(asts_view(ast@)) ==> (r matches Err(m) && m@
                == "Unsupported node for codegen."@),
            r is Ok ==> all_supported(asts_view(ast@)),
    {
        if !supports(ast) {
            return Err(String::from_str("Unsupported node for codegen."));
        }
        let mut sig = make_signature(&self.module);
        push_i64_return(&mut sig);
        let func_id = match declare_export_function(&mut self.module, "main", &sig) {
            Ok(id) => id,
            Err(m) => {
                return Err(m);
            },
        };
        set_function_signature(&mut self.ctx, &sig);
        proof {
            lemma_asts_view(ast@);
        }
        let mut builder = begin_function(&mut self.ctx, &mut self.builder_context);
        let entry_block = create_block(&mut builder);
        switch_to_block(&mut builder, entry_block);
        seal_block(&mut builder, entry_block);
        let mut i: usize = 0;
        while i < ast.len()
            invariant
                0 <= i <= ast@.len(),
                asts_view(ast@).len() == ast@.len(),
                forall|t: int| 0 <= t < ast@.len() ==> asts_view(ast@)[t] == ast_view(
                    ast@[t],
                ),
                all_supported(asts_view(ast@)),
            decreases ast@.len() - i,
        {
            proof {
                assert(codegen_supported(asts_view(ast@)[i as int]));
            }
            codegen_node(&mut builder, &ast[i]);
            i += 1;
        }
        emit_return_i64(&mut builder, 0);
        finish_function(builder, &self.module);
        match define_function(&mut self.module, func_id, &mut self.ctx) {
            Ok(_) => {},
            Err(m) => {
                return Err(m);
            },
        }
        clear_context(&self.module, &mut self.ctx);
        match finalize_definitions(&mut self.module) {
            Ok(_) => {},
            Err(m) => {
                return Err(m);
            },
        }
        Ok(func_id)
    }
}

} // verus!

//! The parts of Cranelift that the compiler uses.
//!
//! Functions, values and blocks of Cranelift are known here by their numbers, and
//! integer types by their width in bits. What a Cranelift object holds is described by
//! a plain value: [`Body`] for a function, [`ModuleState`] for a module.

use cranelift_codegen::ir::condcodes::IntCC;
use cranelift_codegen::ir::types::Type;
use cranelift_codegen::ir::{
    AbiParam, Block, FuncRef, Function, InstBuilder, Signature, UserFuncName, Value,
};
use cranelift_codegen::settings::{self, Configurable, SetError};
use cranelift_codegen::{CodegenError, Context};
use cranelift_frontend::{FunctionBuilder, FunctionBuilderContext};
use cranelift_jit::{JITBuilder, JITModule};
use cranelift_module::{FuncId, Linkage, Module, ModuleError};
use vstd::prelude::*;

verus! {

/// An instruction.
#[verifier::ext_equal]
pub enum Inst {
    /// `result` is a constant, given by its low `bits` bits.
    Iconst { result: u32, bits: u16, value: u64 },
    /// `results` are what an imported function returns for `args`.
    Call { results: Seq<u32>, callee: u32, args: Seq<u32> },
    /// `result` is 1 if the two values are equal, else 0.
    Equal { result: u32, left: u32, right: u32 },
    /// Control goes to a block.
    Jump { target: u32 },
    /// Control goes to one of two blocks, depending on whether a value is zero.
    Branch { condition: u32, nonzero: u32, zero: u32 },
    /// The function returns `args`.
    Return { args: Seq<u32> },
}

impl Inst {
    /// Nothing can follow the instruction in its block.
    pub open spec fn is_terminator(self) -> bool {
        self is Jump || self is Branch || self is Return
    }

    /// Control may go from the instruction to a block.
    pub open spec fn leads_to(self, block: u32) -> bool {
        match self {
            Inst::Jump { target } => target == block,
            Inst::Branch { nonzero, zero, .. } => nonzero == block || zero == block,
            _ => false,
        }
    }
}

/// A basic block.
#[verifier::ext_equal]
pub struct BlockBody {
    pub params: Seq<u32>,
    pub insts: Seq<Inst>,
    /// All its predecessors are known.
    pub sealed: bool,
}

impl BlockBody {
    /// A block without parameters and instructions.
    pub open spec fn fresh() -> BlockBody {
        BlockBody { params: Seq::empty(), insts: Seq::empty(), sealed: false }
    }

    /// The block ends: nothing can follow its last instruction.
    pub open spec fn filled(self) -> bool {
        self.insts.len() > 0 && self.insts.last().is_terminator()
    }
}

/// The parameter and return types of a function.
#[verifier::ext_equal]
pub struct SignatureTypes {
    pub params: Seq<u16>,
    pub returns: Seq<u16>,
}

/// A function of the module that another one can call.
#[verifier::ext_equal]
pub struct Import {
    pub function: u32,
    pub signature: SignatureTypes,
}

/// A function under construction.
#[verifier::ext_equal]
pub struct Body {
    pub signature: SignatureTypes,
    /// The functions that it can call, by reference number.
    pub imports: Seq<Import>,
    /// The type of each value, by value number.
    pub values: Seq<u16>,
    pub blocks: Seq<BlockBody>,
    /// How many instructions were made.
    pub size: nat,
    /// The block that execution starts at: the one that was the first to get an instruction.
    pub start: Option<u32>,
    /// The block that instructions are added to.
    pub current: Option<u32>,
}

/// The most instructions that a function may have. Values remember in 24 bits the
/// instruction or block that defines them, and the optimizer may copy each instruction once.
pub const MAX_INSTRUCTIONS: u32 = 0x7F_FFFF;

/// The low bits of a number.
pub open spec fn low_bits(value: i64, bits: u16) -> u64 {
    if bits == 32 {
        (value as int % 0x1_0000_0000) as u64
    } else {
        (value as int % 0x1_0000_0000_0000_0000) as u64
    }
}

impl Body {
    /// A function without code.
    pub open spec fn empty(signature: SignatureTypes) -> Body {
        Body {
            signature,
            imports: Seq::empty(),
            values: Seq::empty(),
            blocks: Seq::empty(),
            size: 0,
            start: None,
            current: None,
        }
    }

    /// Instructions can be added.
    pub open spec fn is_open(self) -> bool {
        &&& self.current matches Some(block) && block < self.blocks.len()
            && !self.blocks[block as int].filled()
        &&& self.size < MAX_INSTRUCTIONS
        &&& self.values.len() < MAX_INSTRUCTIONS
    }

    /// The block that instructions are added to.
    pub open spec fn current_block(self) -> BlockBody {
        self.blocks[self.current->0 as int]
    }

    /// The function with an instruction added.
    pub open spec fn append(self, inst: Inst) -> Body {
        let block = self.current_block();
        Body {
            blocks: self.blocks.update(
                self.current->0 as int,
                BlockBody { insts: block.insts.push(inst), ..block },
            ),
            size: self.size + 1,
            start: if self.start is Some {
                self.start
            } else {
                self.current
            },
            ..self
        }
    }

    /// The function with a constant added.
    pub open spec fn iconst(self, bits: u16, value: i64) -> Body {
        Body { values: self.values.push(bits), ..self }.append(
            Inst::Iconst {
                result: self.values.len() as u32,
                bits,
                value: low_bits(value, bits),
            },
        )
    }

    /// The values that a call to be added results in.
    pub open spec fn call_results(self, callee: u32) -> Seq<u32> {
        Seq::new(
            self.imports[callee as int].signature.returns.len(),
            |i: int| (self.values.len() + i) as u32,
        )
    }

    /// The function with a call added.
    pub open spec fn call(self, callee: u32, args: Seq<u32>) -> Body {
        Body {
            values: self.values + self.imports[callee as int].signature.returns,
            ..self
        }.append(Inst::Call { results: self.call_results(callee), callee, args })
    }

    /// The function with a comparison of two values added.
    pub open spec fn equal(self, left: u32, right: u32) -> Body {
        Body { values: self.values.push(8), ..self }.append(
            Inst::Equal { result: self.values.len() as u32, left, right },
        )
    }

    /// Two values are there and have the same type.
    pub open spec fn same_type(self, a: u32, b: u32) -> bool {
        &&& a < self.values.len()
        &&& b < self.values.len()
        &&& self.values[a as int] == self.values[b as int]
    }

    /// Control can go to a block: it takes no parameters, and not all of its predecessors
    /// are known.
    pub open spec fn is_target(self, block: u32) -> bool {
        &&& block < self.blocks.len()
        &&& self.blocks[block as int].params.len() == 0
        &&& !self.blocks[block as int].sealed
    }

    /// Execution starts at a filled block.
    pub open spec fn starts_filled(self) -> bool {
        self.start matches Some(block) && block < self.blocks.len()
            && self.blocks[block as int].filled()
    }

    /// No instruction leads to a block.
    pub open spec fn is_unreached(self, block: u32) -> bool {
        forall|b: int, i: int|
            0 <= b < self.blocks.len() && 0 <= i < self.blocks[b].insts.len() ==> !(
            #[trigger] self.blocks[b].insts[i]).leads_to(block)
    }

    /// Control goes to filled blocks only, and never back to the one that it starts at.
    pub open spec fn targets_are_filled(self) -> bool {
        forall|b: int, i: int, target: u32|
            #![trigger self.blocks[b].insts[i].leads_to(target)]
            0 <= b < self.blocks.len() && 0 <= i < self.blocks[b].insts.len()
                && self.blocks[b].insts[i].leads_to(target) ==> {
                &&& target < self.blocks.len()
                &&& self.start != Some(target)
                &&& self.blocks[target as int].filled()
            }
    }

    /// The function with a return added.
    pub open spec fn return_(self, args: Seq<u32>) -> Body {
        self.append(Inst::Return { args })
    }

    /// The function with a function of the module imported.
    pub open spec fn import(self, function: u32, signature: SignatureTypes) -> Body {
        Body { imports: self.imports.push(Import { function, signature }), ..self }
    }
}

/// Where a function of a module is defined.
#[derive(Clone, Copy, Debug, PartialEq, Eq, Structural)]
pub enum FunctionLinkage {
    /// Outside of the module.
    Import,
    /// Inside the module, and not visible outside it.
    Local,
}

/// A function that a module declares.
#[verifier::ext_equal]
pub struct Declaration {
    pub name: Seq<char>,
    pub linkage: FunctionLinkage,
    pub signature: SignatureTypes,
}

/// What a module holds.
#[verifier::ext_equal]
pub struct ModuleState {
    /// The functions, by number.
    pub functions: Seq<Declaration>,
    /// The names that are taken.
    pub names: Set<Seq<char>>,
    /// The functions that were compiled, by number.
    pub definitions: Map<u32, Body>,
    /// The addresses of their code, by number.
    pub code: Map<u32, usize>,
    /// The compiled functions that calls are not linked in yet.
    pub pending: Set<u32>,
    /// The compiled functions that calls are linked in and whose code can be run.
    pub executable: Set<u32>,
    /// The addresses of what is defined outside of the module.
    pub symbols: Map<Seq<char>, usize>,
    /// The width of a pointer on the target.
    pub pointer_bits: u16,
    /// How much code is optimized.
    pub opt_level: Seq<char>,
}

impl ModuleState {
    /// All functions that a compiled function imports are defined outside of the module, and
    /// can be found.
    pub open spec fn resolvable(self, id: u32) -> bool {
        &&& self.definitions.contains_key(id)
        &&& forall|i: int|
            #![trigger self.definitions[id].imports[i]]
            0 <= i < self.definitions[id].imports.len() ==> {
                let function = self.definitions[id].imports[i].function;
                &&& function < self.functions.len()
                &&& self.functions[function as int].linkage == FunctionLinkage::Import
                &&& self.symbols.contains_key(self.functions[function as int].name)
            }
    }
}

/// What a module is built from.
#[verifier::ext_equal]
pub struct ModuleParts {
    pub symbols: Map<Seq<char>, usize>,
    /// Code is generated to run at any address.
    pub is_pic: bool,
    /// How much code is optimized.
    pub opt_level: Seq<char>,
}

/// `cranelift_codegen::settings::Builder`, known by [`setting_values`].
#[verifier::external_type_specification]
#[verifier::external_body]
pub struct ExSettings(settings::Builder);

/// `cranelift_codegen::settings::SetError`.
#[verifier::external_type_specification]
#[verifier::external_body]
pub struct ExSetError(SetError);

/// `cranelift_codegen::CodegenError`.
#[verifier::external_type_specification]
#[verifier::external_body]
pub struct ExCodegenError(CodegenError);

/// `cranelift_module::ModuleError`.
#[verifier::external_type_specification]
#[verifier::external_body]
pub struct ExModuleError(ModuleError);

/// `cranelift_jit::JITBuilder`, known by [`module_parts`].
#[verifier::external_type_specification]
#[verifier::external_body]
pub struct ExJITBuilder(JITBuilder);

/// `cranelift_jit::JITModule`, known by [`module_state`].
#[verifier::external_type_specification]
#[verifier::external_body]
pub struct ExJITModule(JITModule);

/// `cranelift_codegen::ir::Signature`, known by [`signature_types`].
#[verifier::external_type_specification]
#[verifier::external_body]
pub struct ExSignature(Signature);

/// `cranelift_codegen::ir::Function`, known by [`function_body`].
#[verifier::external_type_specification]
#[verifier::external_body]
pub struct ExFunction(Function);

/// `cranelift_frontend::FunctionBuilderContext`, known by [`remembered`].
#[verifier::external_type_specification]
#[verifier::external_body]
pub struct ExFunctionBuilderContext(FunctionBuilderContext);

/// `cranelift_frontend::FunctionBuilder`, known by [`builder_body`] and
/// [`built_function`].
#[verifier::external_type_specification]
#[verifier::external_body]
pub struct ExFunctionBuilder<'a>(FunctionBuilder<'a>);

/// `cranelift_codegen::Context`, known by [`context_body`].
#[verifier::external_type_specification]
#[verifier::external_body]
pub struct ExContext(Context);

/// The settings and their values.
pub uninterp spec fn setting_values(flags: settings::Builder) -> Map<Seq<char>, Seq<char>>;

/// What a module builder holds.
pub uninterp spec fn module_parts(builder: JITBuilder) -> ModuleParts;

/// What a module holds.
pub uninterp spec fn module_state(module: JITModule) -> ModuleState;

/// The types in a signature.
pub uninterp spec fn signature_types(signature: Signature) -> SignatureTypes;

/// What a function holds.
pub uninterp spec fn function_body(function: Function) -> Body;

/// What the function that a builder works on holds so far.
pub uninterp spec fn builder_body(builder: FunctionBuilder<'_>) -> Body;

/// The function that a builder works on, as it is when the builder is done.
pub uninterp spec fn built_function(builder: FunctionBuilder<'_>) -> Function;

/// What a builder context remembers of a function: the numbers of its blocks and variables.
pub uninterp spec fn remembered(context: FunctionBuilderContext) -> Set<u32>;

/// What the function in a compilation context holds.
pub uninterp spec fn context_body(context: Context) -> Body;

/// Calls `cranelift_codegen::settings::builder`, which gives every shared setting its
/// default value. The default level of optimization is `none`, and code is not position
/// independent by default.
#[verifier::external_body]
pub(crate) fn settings_builder() -> (flags: settings::Builder)
    ensures
        setting_values(flags).contains_key("opt_level"@),
        setting_values(flags).contains_pair("is_pic"@, "false"@),
{
    settings::builder()
}

/// Calls `Configurable::set` on shared settings to set the level of optimization. The
/// levels are `none`, `speed` and `speed_and_size`: one of them is set, and anything else
/// is refused.
#[verifier::external_body]
pub(crate) fn set_opt_level(flags: &mut settings::Builder, level: &str) -> (result: Result<
    (),
    SetError,
>)
    requires
        setting_values(*old(flags)).contains_key("opt_level"@),
    ensures
        result is Ok <==> (level@ == "none"@ || level@ == "speed"@ || level@
            == "speed_and_size"@),
        result is Ok ==> setting_values(*final(flags)) == setting_values(*old(flags)).insert(
            "opt_level"@,
            level@,
        ),
        result is Err ==> setting_values(*final(flags)) == setting_values(*old(flags)),
{
    flags.set("opt_level", level)
}

/// Why there is no module builder for the host.
#[derive(Debug)]
pub enum HostError {
    /// Cranelift does not know the host, for a reason in words.
    Unsupported(&'static str),
    /// The settings do not fit the host.
    Settings(CodegenError),
}

/// Calls `cranelift_native::builder` for the instruction set of the host,
/// `IsaBuilder::finish` with shared settings, and `JITBuilder::with_isa`. They stand
/// together because an instruction set is a trait object. The module builder starts
/// without symbols, and keeps what the settings say of position independence and of the
/// level of optimization. Whether the host is supported is left open.
#[verifier::external_body]
pub(crate) fn host_module_builder(flags: settings::Builder) -> (result: Result<
    JITBuilder,
    HostError,
>)
    requires
        setting_values(flags).contains_key("is_pic"@),
        setting_values(flags).contains_key("opt_level"@),
    ensures
        result matches Ok(builder) ==> module_parts(builder) == (ModuleParts {
            symbols: Map::empty(),
            is_pic: setting_values(flags)["is_pic"@] == "true"@,
            opt_level: setting_values(flags)["opt_level"@],
        }),
{
    let isa_builder = match cranelift_native::builder() {
        Ok(isa_builder) => isa_builder,
        Err(reason) => return Err(HostError::Unsupported(reason)),
    };
    match isa_builder.finish(settings::Flags::new(flags)) {
        Ok(isa) => Ok(JITBuilder::with_isa(isa, cranelift_module::default_libcall_names())),
        Err(error) => Err(HostError::Settings(error)),
    }
}

/// Calls `JITBuilder::symbol`, which defines a symbol or defines it anew.
#[verifier::external_body]
pub(crate) fn add_symbol(builder: &mut JITBuilder, name: &str, address: usize)
    ensures
        module_parts(*final(builder)) == (ModuleParts {
            symbols: module_parts(*old(builder)).symbols.insert(name@, address),
            ..module_parts(*old(builder))
        }),
{
    builder.symbol(name, std::ptr::with_exposed_provenance(address));
}

/// Calls `JITModule::new`, which does not take position independent code. The module
/// starts with the symbols and the settings of the builder, and without functions.
#[verifier::external_body]
pub(crate) fn new_module(builder: JITBuilder) -> (module: JITModule)
    requires
        !module_parts(builder).is_pic,
    ensures
        module_state(module) == (ModuleState {
            functions: Seq::empty(),
            names: Set::empty(),
            definitions: Map::empty(),
            code: Map::empty(),
            pending: Set::empty(),
            executable: Set::empty(),
            symbols: module_parts(builder).symbols,
            pointer_bits: module_state(module).pointer_bits,
            opt_level: module_parts(builder).opt_level,
        }),
{
    JITModule::new(builder)
}

/// Calls `TargetIsa::pointer_type` on the target of a module, and gives the width of that
/// type. It is an integer type of 16, 32 or 64 bits.
#[verifier::external_body]
pub(crate) fn pointer_bits(module: &JITModule) -> (bits: u16)
    ensures
        bits == module_state(*module).pointer_bits,
        bits == 16 || bits == 32 || bits == 64,
{
    module.isa().pointer_type().bits() as u16
}

/// Calls `Module::make_signature`, which gives a signature without types. Its calling
/// convention, the default one of the target, is left out of the description.
#[verifier::external_body]
pub(crate) fn make_signature(module: &JITModule) -> (signature: Signature)
    ensures
        signature_types(signature) == (SignatureTypes {
            params: Seq::empty(),
            returns: Seq::empty(),
        }),
{
    module.make_signature()
}

/// Adds a parameter made by `AbiParam::new` to a signature.
#[verifier::external_body]
pub(crate) fn add_param(signature: &mut Signature, bits: u16)
    requires
        bits == 16 || bits == 32 || bits == 64,
    ensures
        signature_types(*final(signature)) == (SignatureTypes {
            params: signature_types(*old(signature)).params.push(bits),
            ..signature_types(*old(signature))
        }),
{
    signature.params.push(AbiParam::new(Type::int(bits).unwrap()));
}

/// Adds a return value made by `AbiParam::new` to a signature.
#[verifier::external_body]
pub(crate) fn add_return(signature: &mut Signature, bits: u16)
    requires
        bits == 16 || bits == 32 || bits == 64,
    ensures
        signature_types(*final(signature)) == (SignatureTypes {
            returns: signature_types(*old(signature)).returns.push(bits),
            ..signature_types(*old(signature))
        }),
{
    signature.returns.push(AbiParam::new(Type::int(bits).unwrap()));
}

/// Calls `Module::declare_function`. For a name that is not taken this always succeeds,
/// and the function gets the next number.
#[verifier::external_body]
pub(crate) fn declare_function(
    module: &mut JITModule,
    name: &str,
    linkage: FunctionLinkage,
    signature: &Signature,
) -> (result: Result<u32, ModuleError>)
    requires
        !module_state(*old(module)).names.contains(name@),
        module_state(*old(module)).functions.len() < u32::MAX,
    ensures
        result matches Ok(id) && id == module_state(*old(module)).functions.len(),
        module_state(*final(module)) == (ModuleState {
            functions: module_state(*old(module)).functions.push(
                Declaration { name: name@, linkage, signature: signature_types(*signature) },
            ),
            names: module_state(*old(module)).names.insert(name@),
            ..module_state(*old(module))
        }),
{
    let linkage = match linkage {
        FunctionLinkage::Import => Linkage::Import,
        FunctionLinkage::Local => Linkage::Local,
    };
    module.declare_function(name, linkage, signature).map(|id| id.as_u32())
}

/// Calls `Function::with_name_signature`, which gives a function without code. Its name,
/// which only shows in listings, is left out of the description.
#[verifier::external_body]
pub(crate) fn new_function(name: &str, signature: &Signature) -> (function: Function)
    ensures
        function_body(function) == Body::empty(signature_types(*signature)),
{
    Function::with_name_signature(UserFuncName::testcase(name), signature.clone())
}

/// Calls `FunctionBuilderContext::new`, which gives a context without memory of an earlier
/// function.
#[verifier::external_body]
pub(crate) fn new_builder_context() -> (context: FunctionBuilderContext)
    ensures
        remembered(context) == Set::<u32>::empty(),
{
    FunctionBuilderContext::new()
}

/// Calls `FunctionBuilder::new` on a function without blocks. The builder goes on with what
/// the function holds, and is not at a block yet.
#[verifier::external_body]
pub(crate) fn new_builder<'a>(
    function: &'a mut Function,
    context: &'a mut FunctionBuilderContext,
) -> (builder: FunctionBuilder<'a>)
    requires
        remembered(*old(context)) == Set::<u32>::empty(),
        function_body(*old(function)).blocks.len() == 0,
    ensures
        builder_body(builder) == (Body { current: None, ..function_body(*old(function)) }),
        built_function(builder) == *final(function),
{
    FunctionBuilder::new(function, context)
}

/// Calls `FunctionBuilder::create_block`, which gives the new block the next number.
#[verifier::external_body]
pub(crate) fn create_block(builder: &mut FunctionBuilder<'_>) -> (block: u32)
    requires
        builder_body(*old(builder)).blocks.len() < u32::MAX,
    ensures
        block == builder_body(*old(builder)).blocks.len(),
        builder_body(*final(builder)) == (Body {
            blocks: builder_body(*old(builder)).blocks.push(
                BlockBody::fresh(),
            ),
            ..builder_body(*old(builder))
        }),
        built_function(*final(builder)) == built_function(*old(builder)),
{
    builder.create_block().as_u32()
}

/// Calls `FunctionBuilder::append_block_params_for_function_params`, which gives a block
/// that has no instructions, and that no instruction leads to, one more parameter for each
/// parameter of the function. The parameters get the next value numbers.
#[verifier::external_body]
pub(crate) fn append_function_params(builder: &mut FunctionBuilder<'_>, block: u32)
    requires
        block < builder_body(*old(builder)).blocks.len(),
        block < MAX_INSTRUCTIONS,
        builder_body(*old(builder)).blocks[block as int].params.len() == 0,
        builder_body(*old(builder)).blocks[block as int].insts.len() == 0,
        builder_body(*old(builder)).is_unreached(block),
        builder_body(*old(builder)).signature.params.len() <= u16::MAX,
        builder_body(*old(builder)).values.len() < MAX_INSTRUCTIONS,
    ensures
        ({
            let before = builder_body(*old(builder));
            builder_body(*final(builder)) == (Body {
                values: before.values + before.signature.params,
                blocks: before.blocks.update(
                    block as int,
                    BlockBody {
                        params: Seq::new(
                            before.signature.params.len(),
                            |i: int| (before.values.len() + i) as u32,
                        ),
                        ..before.blocks[block as int]
                    },
                ),
                ..before
            })
        }),
        built_function(*final(builder)) == built_function(*old(builder)),
{
    builder.append_block_params_for_function_params(Block::from_u32(block));
}

/// Calls `FunctionBuilder::switch_to_block` on a builder that is not at a block yet, or has
/// filled the one that it is at.
#[verifier::external_body]
pub(crate) fn switch_to_block(builder: &mut FunctionBuilder<'_>, block: u32)
    requires
        builder_body(*old(builder)).current matches Some(current) ==> current < builder_body(
            *old(builder),
        ).blocks.len() && builder_body(*old(builder)).blocks[current as int].filled(),
        block < builder_body(*old(builder)).blocks.len(),
        !builder_body(*old(builder)).blocks[block as int].filled(),
    ensures
        builder_body(*final(builder)) == (Body {
            current: Some(block),
            ..builder_body(*old(builder))
        }),
        built_function(*final(builder)) == built_function(*old(builder)),
{
    builder.switch_to_block(Block::from_u32(block));
}

/// Calls `FunctionBuilder::seal_all_blocks`, which seals every block that was created. No
/// variables are in use, so nothing else changes.
#[verifier::external_body]
pub(crate) fn seal_all_blocks(builder: &mut FunctionBuilder<'_>)
    ensures
        builder_body(*final(builder)) == (Body {
            blocks: Seq::new(
                builder_body(*old(builder)).blocks.len(),
                |i: int|
                    BlockBody { sealed: true, ..builder_body(*old(builder)).blocks[i] },
            ),
            ..builder_body(*old(builder))
        }),
        built_function(*final(builder)) == built_function(*old(builder)),
{
    builder.seal_all_blocks();
}

/// Calls `FunctionBuilder::block_params`, and gives one of them.
#[verifier::external_body]
pub(crate) fn block_param(builder: &FunctionBuilder<'_>, block: u32, index: usize) -> (value: u32)
    requires
        block < builder_body(*builder).blocks.len(),
        index < builder_body(*builder).blocks[block as int].params.len(),
    ensures
        value == builder_body(*builder).blocks[block as int].params[index as int],
{
    builder.block_params(Block::from_u32(block))[index].as_u32()
}

/// Calls `Module::declare_func_in_func`, which imports a function of the module into the
/// function that a builder works on, under the next reference number.
#[verifier::external_body]
pub(crate) fn declare_func_in_func(
    module: &mut JITModule,
    id: u32,
    builder: &mut FunctionBuilder<'_>,
) -> (reference: u32)
    requires
        id < module_state(*old(module)).functions.len(),
        builder_body(*old(builder)).imports.len() < u32::MAX,
    ensures
        reference == builder_body(*old(builder)).imports.len(),
        builder_body(*final(builder)) == builder_body(*old(builder)).import(
            id,
            module_state(*old(module)).functions[id as int].signature,
        ),
        built_function(*final(builder)) == built_function(*old(builder)),
        module_state(*final(module)) == module_state(*old(module)),
{
    module.declare_func_in_func(FuncId::from_u32(id), builder.func).as_u32()
}

/// Calls `InstBuilder::iconst`, which adds a constant. Of the value it keeps the bits that
/// the type has. The result gets the next value number.
#[verifier::external_body]
pub(crate) fn ins_iconst(builder: &mut FunctionBuilder<'_>, bits: u16, value: i64) -> (result: u32)
    requires
        bits == 32 || bits == 64,
        builder_body(*old(builder)).is_open(),
    ensures
        result == builder_body(*old(builder)).values.len(),
        builder_body(*final(builder)) == builder_body(*old(builder)).iconst(bits, value),
        built_function(*final(builder)) == built_function(*old(builder)),
{
    builder.ins().iconst(Type::int(bits).unwrap(), value).as_u32()
}

/// Calls `InstBuilder::call`, which adds a call, and then `FunctionBuilder::inst_results`.
/// The results get the next value numbers.
#[verifier::external_body]
pub(crate) fn ins_call(builder: &mut FunctionBuilder<'_>, callee: u32, args: &Vec<u32>) -> (results:
    Vec<u32>)
    requires
        builder_body(*old(builder)).is_open(),
        callee < builder_body(*old(builder)).imports.len(),
        builder_body(*old(builder)).imports[callee as int].signature.returns.len() <= u16::MAX,
        forall|i: int|
            0 <= i < args@.len() ==> #[trigger] args@[i] < builder_body(
                *old(builder),
            ).values.len(),
    ensures
        results@ == builder_body(*old(builder)).call_results(callee),
        builder_body(*final(builder)) == builder_body(*old(builder)).call(callee, args@),
        built_function(*final(builder)) == built_function(*old(builder)),
{
    let args: Vec<Value> = args.iter().map(|arg| Value::from_u32(*arg)).collect();
    let inst = builder.ins().call(FuncRef::from_u32(callee), &args);
    builder.inst_results(inst).iter().map(|result| result.as_u32()).collect()
}

/// Calls `InstBuilder::icmp`, which adds a comparison for equality of two values of the same
/// type. The result is 1 or 0, in 8 bits, and gets the next value number.
#[verifier::external_body]
pub(crate) fn ins_equal(builder: &mut FunctionBuilder<'_>, left: u32, right: u32) -> (result: u32)
    requires
        builder_body(*old(builder)).is_open(),
        builder_body(*old(builder)).same_type(left, right),
    ensures
        result == builder_body(*old(builder)).values.len(),
        builder_body(*final(builder)) == builder_body(*old(builder)).equal(left, right),
        built_function(*final(builder)) == built_function(*old(builder)),
{
    let (left, right) = (Value::from_u32(left), Value::from_u32(right));
    builder.ins().icmp(IntCC::Equal, left, right).as_u32()
}

/// Calls `InstBuilder::jump`, which adds a jump to a block and fills the current one. No
/// values are handed over.
#[verifier::external_body]
pub(crate) fn ins_jump(builder: &mut FunctionBuilder<'_>, target: u32)
    requires
        builder_body(*old(builder)).is_open(),
        builder_body(*old(builder)).is_target(target),
    ensures
        builder_body(*final(builder)) == builder_body(*old(builder)).append(Inst::Jump { target }),
        built_function(*final(builder)) == built_function(*old(builder)),
{
    builder.ins().jump(Block::from_u32(target), &[]);
}

/// Calls `InstBuilder::brif`, which adds a branch on whether a value is zero and fills the
/// current block. No values are handed over.
#[verifier::external_body]
pub(crate) fn ins_branch(
    builder: &mut FunctionBuilder<'_>,
    condition: u32,
    nonzero: u32,
    zero: u32,
)
    requires
        builder_body(*old(builder)).is_open(),
        condition < builder_body(*old(builder)).values.len(),
        builder_body(*old(builder)).is_target(nonzero),
        builder_body(*old(builder)).is_target(zero),
    ensures
        builder_body(*final(builder)) == builder_body(*old(builder)).append(
            Inst::Branch { condition, nonzero, zero },
        ),
        built_function(*final(builder)) == built_function(*old(builder)),
{
    let (nonzero, zero) = (Block::from_u32(nonzero), Block::from_u32(zero));
    builder.ins().brif(Value::from_u32(condition), nonzero, &[], zero, &[]);
}

/// Calls `InstBuilder::return_`, which adds a return and fills the block.
#[verifier::external_body]
pub(crate) fn ins_return(builder: &mut FunctionBuilder<'_>, arg: u32)
    requires
        builder_body(*old(builder)).is_open(),
        arg < builder_body(*old(builder)).values.len(),
    ensures
        builder_body(*final(builder)) == builder_body(*old(builder)).return_(seq![arg]),
        built_function(*final(builder)) == built_function(*old(builder)),
{
    builder.ins().return_(&[Value::from_u32(arg)]);
}

/// Calls `FunctionBuilder::finalize`, which asks that every block with instructions is
/// sealed and filled. The function is left as it was built.
#[verifier::external_body]
pub(crate) fn finalize(builder: FunctionBuilder<'_>) -> (done: ())
    requires
        forall|i: int|
            0 <= i < builder_body(builder).blocks.len() ==> {
                let block = #[trigger] builder_body(builder).blocks[i];
                block.insts.len() == 0 || block.sealed && block.filled()
            },
    ensures
        done == () ==> function_body(built_function(builder)) == (Body {
            current: None,
            ..builder_body(builder)
        }),
{
    builder.finalize()
}

/// Calls `Context::for_function`, which wraps a function for compilation.
#[verifier::external_body]
pub(crate) fn context_for_function(function: Function) -> (context: Context)
    ensures
        context_body(context) == function_body(function),
{
    Context::for_function(function)
}

/// Calls `Module::define_function` on a function that is local and was not defined yet, with
/// code that starts at a filled block, and where all blocks that control goes to are filled. If it
/// succeeds, the function has the code in the context and waits for being linked, and from
/// then on its code stays at one address; else the module is as before. Whether it succeeds
/// is left open, and so are which address that is and what the optimizer makes of the code in
/// the context.
#[verifier::external_body]
pub(crate) fn define_function(module: &mut JITModule, id: u32, context: &mut Context) -> (result:
    Result<(), ModuleError>)
    requires
        id < module_state(*old(module)).functions.len(),
        module_state(*old(module)).functions[id as int].linkage == FunctionLinkage::Local,
        !module_state(*old(module)).definitions.contains_key(id),
        context_body(*old(context)).size <= MAX_INSTRUCTIONS,
        context_body(*old(context)).starts_filled(),
        context_body(*old(context)).targets_are_filled(),
    ensures
        result is Ok ==> module_state(*final(module)) == (ModuleState {
            definitions: module_state(*old(module)).definitions.insert(
                id,
                context_body(*old(context)),
            ),
            code: module_state(*old(module)).code.insert(
                id,
                module_state(*final(module)).code[id],
            ),
            pending: module_state(*old(module)).pending.insert(id),
            ..module_state(*old(module))
        }),
        result is Err ==> module_state(*final(module)) == module_state(*old(module)),
{
    module.define_function(FuncId::from_u32(id), context)
}

/// Calls `Module::clear_context`, which leaves a context without code.
#[verifier::external_body]
pub(crate) fn clear_context(module: &JITModule, context: &mut Context)
    ensures
        context_body(*final(context)) == Body::empty(
            SignatureTypes { params: Seq::empty(), returns: Seq::empty() },
        ),
{
    module.clear_context(context);
}

/// Calls `JITModule::finalize_definitions`, which links every compiled function that waits
/// for it, and then makes all code executable. The functions that those call must be imported
/// ones, given as symbols. Finding a symbol elsewhere may add it to the table. Whether the
/// code can be made executable is left open; if not, what could be run before still can.
#[verifier::external_body]
pub(crate) fn finalize_definitions(module: &mut JITModule) -> (result: Result<(), ModuleError>)
    requires
        forall|id: u32|
            #[trigger] module_state(*old(module)).pending.contains(id) ==> module_state(
                *old(module),
            ).resolvable(id),
    ensures
        module_state(*final(module)) == (ModuleState {
            pending: Set::empty(),
            executable: module_state(*final(module)).executable,
            symbols: module_state(*final(module)).symbols,
            ..module_state(*old(module))
        }),
        result is Ok ==> module_state(*final(module)).executable == module_state(
            *old(module),
        ).definitions.dom(),
        module_state(*old(module)).executable <= module_state(*final(module)).executable,
        forall|name: Seq<char>|
            #[trigger] module_state(*old(module)).symbols.contains_key(name) ==> module_state(
                *final(module),
            ).symbols.contains_pair(name, module_state(*old(module)).symbols[name]),
{
    module.finalize_definitions()
}

/// Calls `JITModule::get_finalized_function` for the address of the code of a function
/// that was defined and linked. It is the address that the code got when it was defined.
#[verifier::external_body]
pub(crate) fn get_finalized_function(module: &JITModule, id: u32) -> (address: usize)
    requires
        module_state(*module).definitions.contains_key(id),
        !module_state(*module).pending.contains(id),
    ensures
        address == module_state(*module).code[id],
{
    module.get_finalized_function(FuncId::from_u32(id)).expose_provenance()
}

/// Writes out a `CodegenError`. Its wording is left open.
#[verifier::external_body]
pub(crate) fn codegen_error_text(error: &CodegenError) -> (text: String) {
    format!("{error}")
}

/// Writes out a `ModuleError`. Its wording is left open.
#[verifier::external_body]
pub(crate) fn module_error_text(error: &ModuleError) -> (text: String) {
    format!("{error}")
}

/// Constants are kept modulo two to the number of their bits.
pub proof fn constants_keep_their_low_bits(value: i64)
    ensures
        low_bits(value, 32) == value as int % 0x1_0000_0000,
        low_bits(value, 64) == value as int % 0x1_0000_0000_0000_0000,
{
}

} // verus!

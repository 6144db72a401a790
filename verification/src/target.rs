//! Targets and target machines.

use llvm_sys::target_machine::LLVMCodeGenOptLevel;
use llvm_sys::target_machine::LLVMCodeModel;
use llvm_sys::target_machine::LLVMRelocMode;
use vstd::prelude::*;
use vstd::string::StringSliceAdditionalSpecFns;

use crate::entries;
use crate::native::Handle;
use crate::native::NativeCall;
use crate::native::Owned;
use crate::native::Plan;
use crate::native::Request;
use crate::text::CText;
use crate::Buffers;
use crate::Entry;

verus! {

/// The optimization levels of the native library's code generator.
#[verifier::external_type_specification]
pub struct ExLLVMCodeGenOptLevel(LLVMCodeGenOptLevel);

/// The relocation modes of the native library's code generator.
#[verifier::external_type_specification]
pub struct ExLLVMRelocMode(LLVMRelocMode);

/// The code models of the native library's code generator.
#[verifier::external_type_specification]
pub struct ExLLVMCodeModel(LLVMCodeModel);

/// How hard the code generator optimizes.
#[derive(Clone, Copy, Debug, PartialEq, Eq)]
pub enum CodeGenOptLevel {
    Off,
    Less,
    Default,
    Aggressive,
}

impl CodeGenOptLevel {
    /// The level as the native library writes it.
    pub open spec fn native(self) -> LLVMCodeGenOptLevel {
        match self {
            CodeGenOptLevel::Off => LLVMCodeGenOptLevel::LLVMCodeGenLevelNone,
            CodeGenOptLevel::Less => LLVMCodeGenOptLevel::LLVMCodeGenLevelLess,
            CodeGenOptLevel::Default => LLVMCodeGenOptLevel::LLVMCodeGenLevelDefault,
            CodeGenOptLevel::Aggressive => LLVMCodeGenOptLevel::LLVMCodeGenLevelAggressive,
        }
    }

    /// The level as the native library writes it.
    pub fn into(self) -> (r: LLVMCodeGenOptLevel)
        ensures
            r == self.native(),
    {
        match self {
            CodeGenOptLevel::Off => LLVMCodeGenOptLevel::LLVMCodeGenLevelNone,
            CodeGenOptLevel::Less => LLVMCodeGenOptLevel::LLVMCodeGenLevelLess,
            CodeGenOptLevel::Default => LLVMCodeGenOptLevel::LLVMCodeGenLevelDefault,
            CodeGenOptLevel::Aggressive => LLVMCodeGenOptLevel::LLVMCodeGenLevelAggressive,
        }
    }
}

impl Default for CodeGenOptLevel {
    /// The level that the native library calls its default.
    fn default() -> (r: Self)
        ensures
            r == CodeGenOptLevel::Default,
    {
        CodeGenOptLevel::Default
    }
}

/// How generated code is relocated.
#[derive(Clone, Copy, Debug, PartialEq, Eq)]
pub enum RelocMode {
    Default,
    Static,
    PIC,
    DynamicNoPic,
}

impl RelocMode {
    /// The mode as the native library writes it.
    pub open spec fn native(self) -> LLVMRelocMode {
        match self {
            RelocMode::Default => LLVMRelocMode::LLVMRelocDefault,
            RelocMode::Static => LLVMRelocMode::LLVMRelocStatic,
            RelocMode::PIC => LLVMRelocMode::LLVMRelocPIC,
            RelocMode::DynamicNoPic => LLVMRelocMode::LLVMRelocDynamicNoPic,
        }
    }

    /// The mode as the native library writes it.
    pub fn into(self) -> (r: LLVMRelocMode)
        ensures
            r == self.native(),
    {
        match self {
            RelocMode::Default => LLVMRelocMode::LLVMRelocDefault,
            RelocMode::Static => LLVMRelocMode::LLVMRelocStatic,
            RelocMode::PIC => LLVMRelocMode::LLVMRelocPIC,
            RelocMode::DynamicNoPic => LLVMRelocMode::LLVMRelocDynamicNoPic,
        }
    }
}

impl Default for RelocMode {
    /// The mode that the native library calls its default.
    fn default() -> (r: Self)
        ensures
            r == RelocMode::Default,
    {
        RelocMode::Default
    }
}

/// The code model that the code generator assumes.
#[derive(Clone, Copy, Debug, PartialEq, Eq)]
pub enum CodeModel {
    Default,
    JIT,
    Small,
    Medium,
    Large,
    Kernel,
}

impl CodeModel {
    /// The model as the native library writes it.
    pub open spec fn native(self) -> LLVMCodeModel {
        match self {
            CodeModel::Default => LLVMCodeModel::LLVMCodeModelDefault,
            CodeModel::JIT => LLVMCodeModel::LLVMCodeModelJITDefault,
            CodeModel::Small => LLVMCodeModel::LLVMCodeModelSmall,
            CodeModel::Medium => LLVMCodeModel::LLVMCodeModelMedium,
            CodeModel::Large => LLVMCodeModel::LLVMCodeModelLarge,
            CodeModel::Kernel => LLVMCodeModel::LLVMCodeModelKernel,
        }
    }

    /// The model as the native library writes it.
    pub fn into(self) -> (r: LLVMCodeModel)
        ensures
            r == self.native(),
    {
        match self {
            CodeModel::Default => LLVMCodeModel::LLVMCodeModelDefault,
            CodeModel::JIT => LLVMCodeModel::LLVMCodeModelJITDefault,
            CodeModel::Small => LLVMCodeModel::LLVMCodeModelSmall,
            CodeModel::Medium => LLVMCodeModel::LLVMCodeModelMedium,
            CodeModel::Large => LLVMCodeModel::LLVMCodeModelLarge,
            CodeModel::Kernel => LLVMCodeModel::LLVMCodeModelKernel,
        }
    }
}

impl Default for CodeModel {
    /// The model that the native library calls its default.
    fn default() -> (r: Self)
        ensures
            r == CodeModel::Default,
    {
        CodeModel::Default
    }
}

/// Different levels, modes and models are different to the native library
/// too.
pub proof fn lemma_native_codes_distinct(
    l1: CodeGenOptLevel,
    l2: CodeGenOptLevel,
    r1: RelocMode,
    r2: RelocMode,
    m1: CodeModel,
    m2: CodeModel,
)
    ensures
        l1.native() == l2.native() ==> l1 == l2,
        r1.native() == r2.native() ==> r1 == r2,
        m1.native() == m2.native() ==> m1 == m2,
{
}

/// A target of the native library. Its handle is not owned: the library has
/// no call to dispose of one. The only allocation kept is the name by which
/// the target was looked up.
#[derive(Debug, PartialEq, Eq)]
pub struct Target {
    data: Handle,
    buffers: Vec<Buffers>,
}

impl View for Target {
    type V = Owned;

    closed spec fn view(&self) -> Owned {
        Owned { handle: self.data, entries: entries(self.buffers@) }
    }
}

impl Target {
    /// Plans the lookup of the target called `name`. The native library
    /// answers with a null handle for a name that it does not know, and the
    /// target is made all the same: see [`Handle::is_null`].
    pub fn from_name(name: &str) -> (plan: Plan<Target>)
        requires
            !name.spec_bytes().contains(0u8),
        ensures
            plan@.call == (NativeCall::GetTargetFromName { name: 0 }),
            plan@.entries == seq![Entry::Name(name.spec_bytes())],
    {
        let name = CText::of_str(name);
        let mut held: Vec<Buffers> = Vec::new();
        held.push(Buffers::A(name));
        Plan::new(NativeCall::GetTargetFromName { name: 0 }, held)
    }

    /// Plans the target that stands in for one not chosen: the first that
    /// the native library knows. It keeps no allocation.
    pub fn default() -> (plan: Plan<Target>)
        ensures
            plan@.call == NativeCall::GetFirstTarget,
            plan@.entries == Seq::<Entry>::empty(),
    {
        let held: Vec<Buffers> = Vec::new();
        Plan::new(NativeCall::GetFirstTarget, held)
    }

    /// Asks for the description of the target. Answer: text.
    pub fn get_description(&self) -> (call: NativeCall)
        ensures
            call == (NativeCall::GetTargetDescription { target: self@.handle }),
    {
        NativeCall::GetTargetDescription { target: self.data }
    }

    /// Asks for the name of the target. Answer: text.
    pub fn get_name(&self) -> (call: NativeCall)
        ensures
            call == (NativeCall::GetTargetName { target: self@.handle }),
    {
        NativeCall::GetTargetName { target: self.data }
    }

    /// Asks whether the target has an assembler. Answer:
    /// [`is_set`](crate::native::is_set).
    pub fn has_asm_backend(&self) -> (call: NativeCall)
        ensures
            call == (NativeCall::TargetHasAsmBackend { target: self@.handle }),
    {
        NativeCall::TargetHasAsmBackend { target: self.data }
    }

    /// Asks whether the target can make target machines. Answer:
    /// [`is_set`](crate::native::is_set).
    pub fn has_target_machine(&self) -> (call: NativeCall)
        ensures
            call == (NativeCall::TargetHasTargetMachine { target: self@.handle }),
    {
        NativeCall::TargetHasTargetMachine { target: self.data }
    }

    /// The handle.
    pub fn raw(&self) -> (r: Handle)
        ensures
            r == self@.handle,
    {
        self.data
    }

    /// Takes the target apart: its handle, and the allocations kept for it.
    pub fn split(self) -> (r: (Handle, Vec<Buffers>))
        ensures
            r.0 == self@.handle,
            entries(r.1@) == self@.entries,
    {
        (self.data, self.buffers)
    }
}

impl Plan<Target> {
    /// The target, once the planned call has answered with `handle`.
    pub fn finish(self, handle: Handle) -> (r: Target)
        ensures
            r@ == (Owned { handle, entries: self@.entries }),
    {
        Target { data: handle, buffers: self.into_buffers() }
    }
}

/// Asks for the triple of the machine that this code runs on, or believes it
/// runs on. Answer: [`take_message`](crate::native::take_message).
pub fn get_local_triple() -> (call: NativeCall)
    ensures
        call == NativeCall::GetDefaultTargetTriple,
{
    NativeCall::GetDefaultTargetTriple
}

/// The CPU of a target machine for which none was chosen: `generic`.
pub open spec fn generic_cpu() -> Seq<u8> {
    "generic".spec_bytes()
}

/// The features of a target machine for which none were chosen: none.
pub open spec fn no_features() -> Seq<u8> {
    Seq::empty()
}

/// What a target machine is made from.
pub struct Settings {
    pub cpu: Seq<u8>,
    pub features: Seq<u8>,
    pub triple: Seq<u8>,
    pub target: Owned,
    pub level: CodeGenOptLevel,
    pub reloc: RelocMode,
    pub model: CodeModel,
}

impl Settings {
    /// The settings where nothing was chosen, for the target and the triple
    /// that stand in: a generic CPU without features, and the native
    /// library's default level, mode and model.
    pub open spec fn defaults(target: Owned, triple: Seq<u8>) -> Settings {
        Settings {
            cpu: generic_cpu(),
            features: no_features(),
            triple,
            target,
            level: CodeGenOptLevel::Default,
            reloc: RelocMode::Default,
            model: CodeModel::Default,
        }
    }

    /// The plan that a builder with these settings builds: the target's
    /// allocations are kept first, then CPU, features and triple.
    pub open spec fn built(self) -> Request {
        let kept = self.target.entries.len();
        Request {
            call: NativeCall::CreateTargetMachine {
                target: self.target.handle,
                triple: (kept + 2) as usize,
                cpu: kept as usize,
                features: (kept + 1) as usize,
                level: self.level,
                reloc: self.reloc,
                model: self.model,
            },
            entries: self.target.entries + seq![
                Entry::Name(self.cpu),
                Entry::Name(self.features),
                Entry::Name(self.triple),
            ],
        }
    }

    /// The plan for a machine made without a builder: CPU, features and
    /// triple are kept first, then the target's allocations.
    pub open spec fn plain(self) -> Request {
        Request {
            call: NativeCall::CreateTargetMachine {
                target: self.target.handle,
                triple: 2,
                cpu: 0,
                features: 1,
                level: self.level,
                reloc: self.reloc,
                model: self.model,
            },
            entries: seq![
                Entry::Name(self.cpu),
                Entry::Name(self.features),
                Entry::Name(self.triple),
            ] + self.target.entries,
        }
    }
}

/// What the native library is handed when a target machine is made: the
/// texts are those that the call's pointers point to.
pub struct MachineArgs {
    pub target: Handle,
    pub triple: Seq<u8>,
    pub cpu: Seq<u8>,
    pub features: Seq<u8>,
    pub level: CodeGenOptLevel,
    pub reloc: RelocMode,
    pub model: CodeModel,
}

impl Settings {
    /// The settings as the native library is to see them.
    pub open spec fn args(self) -> MachineArgs {
        MachineArgs {
            target: self.target.handle,
            triple: self.triple,
            cpu: self.cpu,
            features: self.features,
            level: self.level,
            reloc: self.reloc,
            model: self.model,
        }
    }
}

impl Request {
    /// What the planned call hands to the native library, if the call makes
    /// a target machine and is anchored in the plan's allocations.
    pub open spec fn machine_args(self) -> Option<MachineArgs> {
        match self.call {
            NativeCall::CreateTargetMachine {
                target,
                triple,
                cpu,
                features,
                level,
                reloc,
                model,
            } => if self.call.anchored(self.entries) {
                Some(
                    MachineArgs {
                        target,
                        triple: self.entries[triple as int]->Name_0,
                        cpu: self.entries[cpu as int]->Name_0,
                        features: self.entries[features as int]->Name_0,
                        level,
                        reloc,
                        model,
                    },
                )
            } else {
                None
            },
            _ => None,
        }
    }
}

/// What was set is what is built: the native library is handed each setting
/// as it stands in the builder, whatever was kept for the target.
pub proof fn lemma_build_hands_over_settings(settings: Settings)
    requires
        settings.target.entries.len() + 3 <= usize::MAX,
    ensures
        settings.built().machine_args() == Some(settings.args()),
{
}

/// A machine made without a builder is handed the same as one built with
/// nothing chosen.
pub proof fn lemma_default_is_unset_build(target: Owned, triple: Seq<u8>)
    requires
        target.entries.len() + 3 <= usize::MAX,
    ensures
        Settings::defaults(target, triple).plain().machine_args() == Settings::defaults(
            target,
            triple,
        ).built().machine_args(),
        Settings::defaults(target, triple).plain().machine_args() == Some(
            Settings::defaults(target, triple).args(),
        ),
{
}

/// Setting the CPU and the features changes those two and nothing else: all
/// that was not set is handed over as in a machine made with nothing
/// chosen.
pub proof fn lemma_unset_fields_keep_defaults(
    target: Owned,
    triple: Seq<u8>,
    cpu: Seq<u8>,
    features: Seq<u8>,
)
    requires
        target.entries.len() + 3 <= usize::MAX,
    ensures
        ({
            let unset = Settings::defaults(target, triple);
            let set = Settings { features, ..(Settings { cpu, ..unset }) };
            set.built().machine_args() == Some(
                MachineArgs { cpu, features, ..unset.plain().machine_args()->Some_0 },
            )
        }),
{
}

/// A target machine of the native library, with the allocations kept for
/// it: CPU, features and triple, and those of the target it was made from.
#[derive(Debug, PartialEq, Eq)]
pub struct TargetMachine {
    data: Handle,
    buffers: Vec<Buffers>,
}

impl View for TargetMachine {
    type V = Owned;

    closed spec fn view(&self) -> Owned {
        Owned { handle: self.data, entries: entries(self.buffers@) }
    }
}

fn generic() -> (r: CText)
    ensures
        r@ == generic_cpu(),
{
    proof {
        reveal_strlit("generic");
        vstd::string::is_ascii_spec_bytes("generic");
    }
    CText::of_str("generic")
}

impl TargetMachine {
    /// Plans a machine where nothing is chosen. `target` and `triple` stand
    /// in for the two that the native library chooses: the target of
    /// [`Target::default`] and the triple of [`get_local_triple`].
    pub fn default(target: Target, triple: CText) -> (plan: Plan<TargetMachine>)
        ensures
            plan@ == Settings::defaults(target@, triple@).plain(),
            plan@.machine_args() == Some(Settings::defaults(target@, triple@).args()),
    {
        let cpu = generic();
        let features = CText::terminated(Vec::new());
        let level = CodeGenOptLevel::default();
        let reloc = RelocMode::default();
        let model = CodeModel::default();
        let (tar, mut buffs) = target.split();
        let mut buffers: Vec<Buffers> = Vec::with_capacity(10);
        buffers.push(Buffers::A(cpu));
        buffers.push(Buffers::A(features));
        buffers.push(Buffers::A(triple));
        buffers.append(&mut buffs);
        assert(entries(buffers@) == Settings::defaults(target@, triple@).plain().entries);
        Plan::new(
            NativeCall::CreateTargetMachine {
                target: tar,
                triple: 2,
                cpu: 0,
                features: 1,
                level,
                reloc,
                model,
            },
            buffers,
        )
    }

    /// A machine from its parts: a handle, and the allocations to keep for
    /// it.
    pub fn from_raw(data: Handle, buff: Vec<Buffers>) -> (r: TargetMachine)
        ensures
            r@ == (Owned { handle: data, entries: entries(buff@) }),
    {
        TargetMachine { data, buffers: buff }
    }

    /// The handle.
    pub fn raw(&self) -> (r: Handle)
        ensures
            r == self@.handle,
    {
        self.data
    }

    /// Asks for the CPU of the machine. Answer:
    /// [`take_message`](crate::native::take_message).
    pub fn get_cpu(&self) -> (call: NativeCall)
        ensures
            call == (NativeCall::GetTargetMachineCPU { machine: self@.handle }),
    {
        NativeCall::GetTargetMachineCPU { machine: self.data }
    }

    /// Asks for the features of the machine. Answer:
    /// [`take_message`](crate::native::take_message).
    pub fn get_features(&self) -> (call: NativeCall)
        ensures
            call == (NativeCall::GetTargetMachineFeatureString { machine: self@.handle }),
    {
        NativeCall::GetTargetMachineFeatureString { machine: self.data }
    }

    /// Asks for the triple of the machine. Answer:
    /// [`take_message`](crate::native::take_message).
    pub fn get_triple(&self) -> (call: NativeCall)
        ensures
            call == (NativeCall::GetTargetMachineTriple { machine: self@.handle }),
    {
        NativeCall::GetTargetMachineTriple { machine: self.data }
    }

    /// Turns verbose assembly on or off. Nothing that is kept changes.
    pub fn set_asm_verbose(&mut self, flag: bool) -> (call: NativeCall)
        ensures
            call == (NativeCall::SetTargetMachineAsmVerbosity {
                machine: old(self)@.handle,
                verbose: flag,
            }),
            *final(self) == *old(self),
    {
        NativeCall::SetTargetMachineAsmVerbosity { machine: self.data, verbose: flag }
    }

    /// Gives the machine up: the call that disposes of its handle, and the
    /// allocations, which may go once the call is made.
    pub fn dispose(self) -> (r: (NativeCall, Vec<Buffers>))
        ensures
            r.0 == (NativeCall::DisposeTargetMachine { machine: self@.handle }),
            r.0.disposes() == Some(self@.handle),
            entries(r.1@) == self@.entries,
    {
        (NativeCall::DisposeTargetMachine { machine: self.data }, self.buffers)
    }
}

impl Plan<TargetMachine> {
    /// The machine, once the planned call has answered with `handle`.
    pub fn finish(self, handle: Handle) -> (r: TargetMachine)
        ensures
            r@ == (Owned { handle, entries: self@.entries }),
    {
        TargetMachine::from_raw(handle, self.into_buffers())
    }
}

/// Collects what a target machine is made from, one setting at a time, and
/// plans the machine in one step at the end.
#[derive(Debug, PartialEq, Eq)]
pub struct BuildTargetMachine {
    cpu: CText,
    features: CText,
    target: Target,
    triple: CText,
    gen_opt: CodeGenOptLevel,
    reloc_mode: RelocMode,
    code_model: CodeModel,
}

impl View for BuildTargetMachine {
    type V = Settings;

    closed spec fn view(&self) -> Settings {
        Settings {
            cpu: self.cpu@,
            features: self.features@,
            triple: self.triple@,
            target: self.target@,
            level: self.gen_opt,
            reloc: self.reloc_mode,
            model: self.code_model,
        }
    }
}

impl BuildTargetMachine {
    /// A builder in which nothing is chosen yet. `target` and `triple` stand
    /// in for the two that the native library chooses: the target of
    /// [`Target::default`] and the triple of [`get_local_triple`]. To build
    /// at once gives the machine of [`TargetMachine::default`].
    pub fn new(target: Target, triple: CText) -> (r: Self)
        ensures
            r@ == Settings::defaults(target@, triple@),
    {
        BuildTargetMachine {
            cpu: generic(),
            features: CText::terminated(Vec::new()),
            target,
            triple,
            gen_opt: CodeGenOptLevel::default(),
            reloc_mode: RelocMode::default(),
            code_model: CodeModel::default(),
        }
    }

    /// Sets the features of the CPU, in the native library's notation.
    pub fn set_features(&mut self, features: &str) -> (r: &mut Self)
        requires
            !features.spec_bytes().contains(0u8),
        ensures
            r@ == (Settings { features: features.spec_bytes(), ..old(self)@ }),
            *final(self) == *final(r),
    {
        self.features = CText::of_str(features);
        self
    }

    /// Sets the CPU that code is generated for.
    pub fn set_cpu(&mut self, cpu: &str) -> (r: &mut Self)
        requires
            !cpu.spec_bytes().contains(0u8),
        ensures
            r@ == (Settings { cpu: cpu.spec_bytes(), ..old(self)@ }),
            *final(self) == *final(r),
    {
        self.cpu = CText::of_str(cpu);
        self
    }

    /// Sets the triple of the machine.
    pub fn set_target_triple(&mut self, triple: &str) -> (r: &mut Self)
        requires
            !triple.spec_bytes().contains(0u8),
        ensures
            r@ == (Settings { triple: triple.spec_bytes(), ..old(self)@ }),
            *final(self) == *final(r),
    {
        self.triple = CText::of_str(triple);
        self
    }

    /// Sets how hard the code generator optimizes.
    pub fn set_opt_level(&mut self, opt: CodeGenOptLevel) -> (r: &mut Self)
        ensures
            r@ == (Settings { level: opt, ..old(self)@ }),
            *final(self) == *final(r),
    {
        self.gen_opt = opt;
        self
    }

    /// Sets how generated code is relocated.
    pub fn set_reloc_mode(&mut self, reloc: RelocMode) -> (r: &mut Self)
        ensures
            r@ == (Settings { reloc, ..old(self)@ }),
            *final(self) == *final(r),
    {
        self.reloc_mode = reloc;
        self
    }

    /// Sets the code model.
    pub fn set_code_model(&mut self, model: CodeModel) -> (r: &mut Self)
        ensures
            r@ == (Settings { model, ..old(self)@ }),
            *final(self) == *final(r),
    {
        self.code_model = model;
        self
    }

    /// Sets the target. The target that was set before goes, with what was
    /// kept for it.
    pub fn set_target(&mut self, target: Target) -> (r: &mut Self)
        ensures
            r@ == (Settings { target: target@, ..old(self)@ }),
            *final(self) == *final(r),
    {
        self.target = target;
        self
    }

    /// Plans the machine with the settings as they stand. The machine keeps
    /// what was kept for the target, then CPU, features and triple.
    pub fn build(self) -> (plan: Plan<TargetMachine>)
        ensures
            plan@ == self@.built(),
            plan@.machine_args() == Some(self@.args()),
    {
        let BuildTargetMachine { cpu, features, target, triple, gen_opt, reloc_mode, code_model } =
            self;
        let mut buffers: Vec<Buffers> = Vec::with_capacity(10);
        let (tar, mut buffs) = target.split();
        buffers.append(&mut buffs);
        let cpu_at = buffers.len();
        buffers.push(Buffers::A(cpu));
        let features_at = buffers.len();
        buffers.push(Buffers::A(features));
        let triple_at = buffers.len();
        buffers.push(Buffers::A(triple));
        assert(entries(buffers@) == self@.built().entries);
        Plan::new(
            NativeCall::CreateTargetMachine {
                target: tar,
                triple: triple_at,
                cpu: cpu_at,
                features: features_at,
                level: gen_opt,
                reloc: reloc_mode,
                model: code_model,
            },
            buffers,
        )
    }
}

} // verus!

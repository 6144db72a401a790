use llvm_bind::native::Handle;
use llvm_bind::native::NativeCall;
use llvm_bind::target::get_local_triple;
use llvm_bind::target::BuildTargetMachine;
use llvm_bind::target::CodeGenOptLevel;
use llvm_bind::target::CodeModel;
use llvm_bind::target::RelocMode;
use llvm_bind::target::Target;
use llvm_bind::target::TargetMachine;
use llvm_bind::text::CText;
use llvm_bind::Buffers;
use llvm_sys::target_machine::LLVMCodeGenOptLevel;
use llvm_sys::target_machine::LLVMCodeModel;
use llvm_sys::target_machine::LLVMRelocMode;

fn name(bytes: &[u8]) -> Buffers {
    Buffers::A(CText::new(bytes.to_vec()).unwrap())
}

fn text(bytes: &[u8]) -> CText {
    CText::new(bytes.to_vec()).unwrap()
}

fn first_target() -> Target {
    Target::default().finish(Handle { addr: 0x500 })
}

fn text_at(kept: &[Buffers], at: usize) -> &[u8] {
    match &kept[at] {
        Buffers::A(text) => text.as_bytes(),
        Buffers::B(_) => panic!("the call points at bytes"),
    }
}

#[test]
fn opt_levels_are_the_native_ones() {
    assert!(matches!(CodeGenOptLevel::Off.into(), LLVMCodeGenOptLevel::LLVMCodeGenLevelNone));
    assert!(matches!(CodeGenOptLevel::Less.into(), LLVMCodeGenOptLevel::LLVMCodeGenLevelLess));
    assert!(matches!(
        CodeGenOptLevel::Default.into(),
        LLVMCodeGenOptLevel::LLVMCodeGenLevelDefault
    ));
    assert!(matches!(
        CodeGenOptLevel::Aggressive.into(),
        LLVMCodeGenOptLevel::LLVMCodeGenLevelAggressive
    ));
}

#[test]
fn reloc_modes_are_the_native_ones() {
    assert!(matches!(RelocMode::Default.into(), LLVMRelocMode::LLVMRelocDefault));
    assert!(matches!(RelocMode::Static.into(), LLVMRelocMode::LLVMRelocStatic));
    assert!(matches!(RelocMode::PIC.into(), LLVMRelocMode::LLVMRelocPIC));
    assert!(matches!(RelocMode::DynamicNoPic.into(), LLVMRelocMode::LLVMRelocDynamicNoPic));
}

#[test]
fn code_models_are_the_native_ones() {
    assert!(matches!(CodeModel::Default.into(), LLVMCodeModel::LLVMCodeModelDefault));
    assert!(matches!(CodeModel::JIT.into(), LLVMCodeModel::LLVMCodeModelJITDefault));
    assert!(matches!(CodeModel::Small.into(), LLVMCodeModel::LLVMCodeModelSmall));
    assert!(matches!(CodeModel::Medium.into(), LLVMCodeModel::LLVMCodeModelMedium));
    assert!(matches!(CodeModel::Large.into(), LLVMCodeModel::LLVMCodeModelLarge));
    assert!(matches!(CodeModel::Kernel.into(), LLVMCodeModel::LLVMCodeModelKernel));
}

#[test]
fn defaults_are_the_variants_called_default() {
    assert_eq!(CodeGenOptLevel::default(), CodeGenOptLevel::Default);
    assert_eq!(RelocMode::default(), RelocMode::Default);
    assert_eq!(CodeModel::default(), CodeModel::Default);
}

#[test]
fn target_from_name_keeps_the_name() {
    let plan = Target::from_name("x86-64");
    assert_eq!(plan.call(), NativeCall::GetTargetFromName { name: 0 });
    assert_eq!(plan.buffers(), &[name(b"x86-64")]);
    let (handle, kept) = plan.finish(Handle { addr: 0x501 }).split();
    assert_eq!(handle, Handle { addr: 0x501 });
    assert_eq!(kept, vec![name(b"x86-64")]);
}

#[test]
fn unknown_target_is_made_with_a_null_handle() {
    let target = Target::from_name("no-such-target").finish(Handle { addr: 0 });
    assert!(target.raw().is_null());
    let (_, kept) = target.split();
    assert_eq!(kept, vec![name(b"no-such-target")]);
}

#[test]
fn default_target_is_the_first_and_keeps_nothing() {
    let plan = Target::default();
    assert_eq!(plan.call(), NativeCall::GetFirstTarget);
    assert!(plan.buffers().is_empty());
    let (handle, kept) = plan.finish(Handle { addr: 0x502 }).split();
    assert_eq!(handle, Handle { addr: 0x502 });
    assert!(kept.is_empty());
}

#[test]
fn target_queries_ask_about_this_target() {
    let target = Target::from_name("arm").finish(Handle { addr: 0x503 });
    let handle = Handle { addr: 0x503 };
    assert_eq!(target.get_description(), NativeCall::GetTargetDescription { target: handle });
    assert_eq!(target.get_name(), NativeCall::GetTargetName { target: handle });
    assert_eq!(target.has_asm_backend(), NativeCall::TargetHasAsmBackend { target: handle });
    assert_eq!(target.has_target_machine(), NativeCall::TargetHasTargetMachine { target: handle });
    assert_eq!(target.raw(), handle);
}

#[test]
fn local_triple_is_asked_of_the_native_library() {
    assert_eq!(get_local_triple(), NativeCall::GetDefaultTargetTriple);
}

#[test]
fn default_machine_is_generic_without_features() {
    let plan = TargetMachine::default(first_target(), text(b"x86_64-unknown-linux-gnu"));
    assert_eq!(
        plan.call(),
        NativeCall::CreateTargetMachine {
            target: Handle { addr: 0x500 },
            triple: 2,
            cpu: 0,
            features: 1,
            level: CodeGenOptLevel::Default,
            reloc: RelocMode::Default,
            model: CodeModel::Default,
        }
    );
    assert_eq!(
        plan.buffers(),
        &[name(b"generic"), name(b""), name(b"x86_64-unknown-linux-gnu")]
    );
}

#[test]
fn default_machine_keeps_the_targets_allocations_last() {
    let target = Target::from_name("mips").finish(Handle { addr: 0x504 });
    let plan = TargetMachine::default(target, text(b"mips-unknown-linux-gnu"));
    assert_eq!(
        plan.buffers(),
        &[name(b"generic"), name(b""), name(b"mips-unknown-linux-gnu"), name(b"mips")]
    );
    let machine = plan.finish(Handle { addr: 0x600 });
    assert_eq!(machine.raw(), Handle { addr: 0x600 });
}

#[test]
fn builder_hands_over_cpu_and_features_as_set() {
    let mut builder = BuildTargetMachine::new(first_target(), text(b"x86_64-unknown-linux-gnu"));
    builder.set_cpu("x86-64").set_features("+avx2");
    let plan = builder.build();
    match plan.call() {
        NativeCall::CreateTargetMachine { target, triple, cpu, features, level, reloc, model } => {
            assert_eq!(target, Handle { addr: 0x500 });
            assert_eq!(text_at(plan.buffers(), cpu), b"x86-64");
            assert_eq!(text_at(plan.buffers(), features), b"+avx2");
            assert_eq!(text_at(plan.buffers(), triple), b"x86_64-unknown-linux-gnu");
            assert_eq!(level, CodeGenOptLevel::Default);
            assert_eq!(reloc, RelocMode::Default);
            assert_eq!(model, CodeModel::Default);
        }
        other => panic!("not a target machine: {:?}", other),
    }
}

#[test]
fn builder_with_nothing_set_matches_the_default_machine() {
    let built = BuildTargetMachine::new(first_target(), text(b"x86_64-unknown-linux-gnu")).build();
    let plain = TargetMachine::default(first_target(), text(b"x86_64-unknown-linux-gnu"));
    assert_eq!(built.call(), plain.call());
    assert_eq!(built.buffers(), plain.buffers());
    assert_eq!(
        built.buffers(),
        &[name(b"generic"), name(b""), name(b"x86_64-unknown-linux-gnu")]
    );
}

#[test]
fn builder_keeps_the_targets_allocations_first() {
    let target = Target::from_name("arm").finish(Handle { addr: 0x505 });
    let mut builder = BuildTargetMachine::new(first_target(), text(b"host"));
    builder
        .set_target(target)
        .set_target_triple("armv7-unknown-linux-gnueabihf")
        .set_cpu("cortex-a9")
        .set_features("+neon,+vfp3")
        .set_opt_level(CodeGenOptLevel::Aggressive)
        .set_reloc_mode(RelocMode::PIC)
        .set_code_model(CodeModel::Small);
    let plan = builder.build();
    assert_eq!(
        plan.call(),
        NativeCall::CreateTargetMachine {
            target: Handle { addr: 0x505 },
            triple: 3,
            cpu: 1,
            features: 2,
            level: CodeGenOptLevel::Aggressive,
            reloc: RelocMode::PIC,
            model: CodeModel::Small,
        }
    );
    assert_eq!(
        plan.buffers(),
        &[
            name(b"arm"),
            name(b"cortex-a9"),
            name(b"+neon,+vfp3"),
            name(b"armv7-unknown-linux-gnueabihf"),
        ]
    );
}

#[test]
fn last_setting_wins() {
    let mut builder = BuildTargetMachine::new(first_target(), text(b"host"));
    builder.set_cpu("pentium4").set_cpu("skylake");
    builder.set_opt_level(CodeGenOptLevel::Off).set_opt_level(CodeGenOptLevel::Less);
    builder.set_reloc_mode(RelocMode::Static).set_reloc_mode(RelocMode::DynamicNoPic);
    builder.set_code_model(CodeModel::Kernel).set_code_model(CodeModel::Large);
    let plan = builder.build();
    assert_eq!(plan.buffers(), &[name(b"skylake"), name(b""), name(b"host")]);
    assert_eq!(
        plan.call(),
        NativeCall::CreateTargetMachine {
            target: Handle { addr: 0x500 },
            triple: 2,
            cpu: 0,
            features: 1,
            level: CodeGenOptLevel::Less,
            reloc: RelocMode::DynamicNoPic,
            model: CodeModel::Large,
        }
    );
}

#[test]
fn each_setter_changes_its_own_field_only() {
    let unset = BuildTargetMachine::new(first_target(), text(b"host"));
    let mut set = BuildTargetMachine::new(first_target(), text(b"host"));
    set.set_code_model(CodeModel::JIT);
    assert_ne!(set, unset);
    set.set_code_model(CodeModel::Default);
    assert_eq!(set, unset);
    set.set_features("+sse");
    assert_ne!(set, unset);
    set.set_features("");
    assert_eq!(set, unset);
    set.set_cpu("generic");
    assert_eq!(set, unset);
    set.set_target_triple("host");
    assert_eq!(set, unset);
    set.set_code_model(CodeModel::Medium);
    assert_ne!(set, unset);
}

#[test]
fn machine_from_raw_keeps_what_it_is_given() {
    let machine = TargetMachine::from_raw(Handle { addr: 0x601 }, vec![name(b"a"), name(b"b")]);
    assert_eq!(machine.raw(), Handle { addr: 0x601 });
    let (_, kept) = machine.dispose();
    assert_eq!(kept, vec![name(b"a"), name(b"b")]);
}

#[test]
fn machine_queries_ask_about_this_machine() {
    let machine = TargetMachine::default(first_target(), text(b"host")).finish(Handle { addr: 0x602 });
    let handle = Handle { addr: 0x602 };
    assert_eq!(machine.get_cpu(), NativeCall::GetTargetMachineCPU { machine: handle });
    assert_eq!(
        machine.get_features(),
        NativeCall::GetTargetMachineFeatureString { machine: handle }
    );
    assert_eq!(machine.get_triple(), NativeCall::GetTargetMachineTriple { machine: handle });
}

#[test]
fn asm_verbosity_is_passed_through() {
    let mut machine =
        TargetMachine::default(first_target(), text(b"host")).finish(Handle { addr: 0x603 });
    let handle = Handle { addr: 0x603 };
    assert_eq!(
        machine.set_asm_verbose(true),
        NativeCall::SetTargetMachineAsmVerbosity { machine: handle, verbose: true }
    );
    assert_eq!(
        machine.set_asm_verbose(false),
        NativeCall::SetTargetMachineAsmVerbosity { machine: handle, verbose: false }
    );
    assert_eq!(machine.raw(), handle);
}

#[test]
fn machine_dispose_releases_the_handle_and_hands_out_the_allocations() {
    let machine =
        TargetMachine::default(first_target(), text(b"host")).finish(Handle { addr: 0x604 });
    let (call, kept) = machine.dispose();
    assert_eq!(call, NativeCall::DisposeTargetMachine { machine: Handle { addr: 0x604 } });
    assert_eq!(kept, vec![name(b"generic"), name(b""), name(b"host")]);
}

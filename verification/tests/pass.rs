use llvm_bind::native::Handle;
use llvm_bind::native::NativeCall;
use llvm_bind::pass::ApplyOpt;
use llvm_bind::pass::Pass;
use llvm_bind::pass::PassManager;
use llvm_bind::pass::ScalarReplAggregates;
use llvm_bind::pass::Vectorize;

const MANAGER: Handle = Handle { addr: 0x900 };

fn manager() -> PassManager {
    PassManager::new().finish(MANAGER)
}

fn added(pass: Pass) -> NativeCall {
    NativeCall::AddPass { manager: MANAGER, pass }
}

#[test]
fn new_pass_manager_keeps_nothing() {
    let plan = PassManager::new();
    assert_eq!(plan.call(), NativeCall::CreatePassManager);
    assert!(plan.buffers().is_empty());
    assert_eq!(plan.finish(Handle { addr: 0x901 }).inner(), Handle { addr: 0x901 });
}

#[test]
fn scalar_passes_add_their_own_stage() {
    let mut manager = manager();
    assert_eq!(manager.aggressive_dce(), added(Pass::AggressiveDCE));
    assert_eq!(manager.alignment_from_assumptions(), added(Pass::AlignmentFromAssumptions));
    assert_eq!(manager.cfg_simplification(), added(Pass::CFGSimplification));
    assert_eq!(manager.constant_propigation(), added(Pass::ConstantPropagation));
    assert_eq!(manager.correlated_value_propagation(), added(Pass::CorrelatedValuePropagation));
    assert_eq!(manager.dead_store_elimination(), added(Pass::DeadStoreElimination));
    assert_eq!(manager.demote_memory_to_register(), added(Pass::DemoteMemoryToRegister));
    assert_eq!(manager.early_cse(), added(Pass::EarlyCSE));
    assert_eq!(manager.gvn(), added(Pass::GVN));
    assert_eq!(manager.ind_var_simplify(), added(Pass::IndVarSimplify));
    assert_eq!(manager.instruction_combining(), added(Pass::InstructionCombining));
    assert_eq!(manager.jump_threading(), added(Pass::JumpThreading));
    assert_eq!(manager.licm(), added(Pass::LICM));
    assert_eq!(manager.loop_deletion(), added(Pass::LoopDeletion));
    assert_eq!(manager.loop_reroll(), added(Pass::LoopReroll));
    assert_eq!(manager.loop_rotate(), added(Pass::LoopRotate));
    assert_eq!(manager.loop_unswitch(), added(Pass::LoopUnswitch));
    assert_eq!(manager.lower_expect_intrinsic(), added(Pass::LowerExpectIntrinsic));
    assert_eq!(manager.lower_switch(), added(Pass::LowerSwitch));
    assert_eq!(manager.memcpy_opt(), added(Pass::MemCpyOpt));
    assert_eq!(manager.merge_load_store_motion(), added(Pass::MergedLoadStoreMotion));
    assert_eq!(manager.partially_inline_lib_calls(), added(Pass::PartiallyInlineLibCalls));
    assert_eq!(manager.promote_memory_to_register(), added(Pass::PromoteMemoryToRegister));
    assert_eq!(manager.reassociate(), added(Pass::Reassociate));
    assert_eq!(manager.sccp(), added(Pass::SCCP));
    assert_eq!(manager.scalarizer(), added(Pass::Scalarizer));
    assert_eq!(manager.scoped_no_alias_aa(), added(Pass::ScopedNoAliasAA));
    assert_eq!(manager.simplify_lib_calls(), added(Pass::SimplifyLibCalls));
    assert_eq!(manager.tail_call_elimination(), added(Pass::TailCallElimination));
    assert_eq!(manager.verifer(), added(Pass::Verifier));
}

#[test]
fn interprocedural_passes_add_their_own_stage() {
    let mut manager = manager();
    assert_eq!(manager.always_inliner(), added(Pass::AlwaysInliner));
    assert_eq!(manager.argument_promotion(), added(Pass::ArgumentPromotion));
    assert_eq!(manager.constant_merge(), added(Pass::ConstantMerge));
    assert_eq!(manager.dead_arg_elimination(), added(Pass::DeadArgElimination));
    assert_eq!(manager.function_attrs(), added(Pass::FunctionAttrs));
    assert_eq!(manager.global_dce(), added(Pass::GlobalDCE));
    assert_eq!(manager.global_optimizer(), added(Pass::GlobalOptimizer));
    assert_eq!(manager.ip_constant_propagation(), added(Pass::IPConstantPropagation));
    assert_eq!(manager.ipsccp(), added(Pass::IPSCCP));
    assert_eq!(manager.prune(), added(Pass::PruneEH));
    assert_eq!(manager.strip_dead_prototypes(), added(Pass::StripDeadPrototypes));
    assert_eq!(manager.strip_symbols(), added(Pass::StripSymbols));
}

#[test]
fn internalize_passes_its_flag_through() {
    let mut manager = manager();
    assert_eq!(manager.internalize_pass(true), added(Pass::Internalize { all_but_main: true }));
    assert_eq!(manager.internalize_pass(false), added(Pass::Internalize { all_but_main: false }));
}

#[test]
fn passes_are_added_in_the_order_of_the_calls() {
    let mut manager = manager();
    let calls = vec![
        manager.promote_memory_to_register(),
        manager.gvn(),
        manager.cfg_simplification(),
    ];
    assert_eq!(
        calls,
        vec![
            added(Pass::PromoteMemoryToRegister),
            added(Pass::GVN),
            added(Pass::CFGSimplification),
        ]
    );
    let mut manager = self::manager();
    let calls = vec![
        manager.cfg_simplification(),
        manager.gvn(),
        manager.promote_memory_to_register(),
    ];
    assert_eq!(
        calls,
        vec![
            added(Pass::CFGSimplification),
            added(Pass::GVN),
            added(Pass::PromoteMemoryToRegister),
        ]
    );
}

#[test]
fn the_same_pass_may_be_added_twice() {
    let mut manager = manager();
    assert_eq!(manager.instruction_combining(), added(Pass::InstructionCombining));
    assert_eq!(manager.instruction_combining(), added(Pass::InstructionCombining));
}

#[test]
fn scalar_replacement_off_adds_nothing() {
    let mut manager = manager();
    assert_eq!(manager.apply_opt(ScalarReplAggregates::Off), None);
}

#[test]
fn scalar_replacement_choices_add_distinct_stages() {
    let mut manager = manager();
    assert_eq!(
        manager.apply_opt(ScalarReplAggregates::Default),
        Some(added(Pass::ScalarReplAggregates))
    );
    assert_eq!(
        manager.apply_opt(ScalarReplAggregates::SSA),
        Some(added(Pass::ScalarReplAggregatesSSA))
    );
    assert_eq!(
        manager.apply_opt(ScalarReplAggregates::Threshold(128)),
        Some(added(Pass::ScalarReplAggregatesWithThreshold { threshold: 128 }))
    );
    assert_eq!(
        manager.apply_opt(ScalarReplAggregates::Threshold(-1)),
        Some(added(Pass::ScalarReplAggregatesWithThreshold { threshold: -1 }))
    );
}

#[test]
fn vectorize_off_adds_nothing() {
    let mut manager = manager();
    assert_eq!(manager.apply_opt(Vectorize::Off), None);
}

#[test]
fn vectorize_choices_add_distinct_stages() {
    let mut manager = manager();
    assert_eq!(manager.apply_opt(Vectorize::BB), Some(added(Pass::BBVectorize)));
    assert_eq!(manager.apply_opt(Vectorize::Loop), Some(added(Pass::LoopVectorize)));
    assert_eq!(manager.apply_opt(Vectorize::SLP), Some(added(Pass::SLPVectorize)));
}

#[test]
fn add_pass_is_what_apply_opt_does() {
    let mut manager = manager();
    assert_eq!(Vectorize::Loop.add_pass(&mut manager), Some(added(Pass::LoopVectorize)));
    assert_eq!(ScalarReplAggregates::Off.add_pass(&mut manager), None);
    assert_eq!(
        ScalarReplAggregates::SSA.add_pass(&mut manager),
        Some(added(Pass::ScalarReplAggregatesSSA))
    );
}

#[test]
fn choices_mix_with_the_catalog_in_call_order() {
    let mut manager = manager();
    let mut calls = Vec::new();
    calls.push(manager.early_cse());
    calls.extend(manager.apply_opt(Vectorize::Off));
    calls.extend(manager.apply_opt(Vectorize::SLP));
    calls.push(manager.internalize_pass(true));
    calls.extend(manager.apply_opt(ScalarReplAggregates::Threshold(7)));
    assert_eq!(
        calls,
        vec![
            added(Pass::EarlyCSE),
            added(Pass::SLPVectorize),
            added(Pass::Internalize { all_but_main: true }),
            added(Pass::ScalarReplAggregatesWithThreshold { threshold: 7 }),
        ]
    );
}

#[test]
fn pass_manager_is_disposed_of_by_its_handle() {
    let mut manager = PassManager::new().finish(Handle { addr: 0x902 });
    manager.gvn();
    assert_eq!(manager.inner(), Handle { addr: 0x902 });
    assert_eq!(
        manager.dispose(),
        NativeCall::DisposePassManager { manager: Handle { addr: 0x902 } }
    );
}

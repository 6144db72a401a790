//! Optimization pipelines.

use vstd::prelude::*;

use crate::native::Handle;
use crate::native::NativeCall;
use crate::native::Plan;
use crate::Buffers;
use crate::Entry;

verus! {

/// One stage of an optimization pipeline. Each stands for the function of
/// the LLVM C API that adds it to a pass manager.
#[derive(Clone, Copy, Debug, PartialEq, Eq)]
pub enum Pass {
    /// `LLVMAddAggressiveDCEPass`
    AggressiveDCE,
    /// `LLVMAddAlignmentFromAssumptionsPass`
    AlignmentFromAssumptions,
    /// `LLVMAddCFGSimplificationPass`
    CFGSimplification,
    /// `LLVMAddConstantPropagationPass`
    ConstantPropagation,
    /// `LLVMAddCorrelatedValuePropagationPass`
    CorrelatedValuePropagation,
    /// `LLVMAddDeadStoreEliminationPass`
    DeadStoreElimination,
    /// `LLVMAddDemoteMemoryToRegisterPass`
    DemoteMemoryToRegister,
    /// `LLVMAddEarlyCSEPass`
    EarlyCSE,
    /// `LLVMAddGVNPass`
    GVN,
    /// `LLVMAddIndVarSimplifyPass`
    IndVarSimplify,
    /// `LLVMAddInstructionCombiningPass`
    InstructionCombining,
    /// `LLVMAddJumpThreadingPass`
    JumpThreading,
    /// `LLVMAddLICMPass`
    LICM,
    /// `LLVMAddLoopDeletionPass`
    LoopDeletion,
    /// `LLVMAddLoopRerollPass`
    LoopReroll,
    /// `LLVMAddLoopRotatePass`
    LoopRotate,
    /// `LLVMAddLoopUnswitchPass`
    LoopUnswitch,
    /// `LLVMAddLowerExpectIntrinsicPass`
    LowerExpectIntrinsic,
    /// `LLVMAddLowerSwitchPass`
    LowerSwitch,
    /// `LLVMAddMemCpyOptPass`
    MemCpyOpt,
    /// `LLVMAddMergedLoadStoreMotionPass`
    MergedLoadStoreMotion,
    /// `LLVMAddPartiallyInlineLibCallsPass`
    PartiallyInlineLibCalls,
    /// `LLVMAddPromoteMemoryToRegisterPass`
    PromoteMemoryToRegister,
    /// `LLVMAddReassociatePass`
    Reassociate,
    /// `LLVMAddSCCPPass`
    SCCP,
    /// `LLVMAddScalarizerPass`
    Scalarizer,
    /// `LLVMAddScopedNoAliasAAPass`
    ScopedNoAliasAA,
    /// `LLVMAddSimplifyLibCallsPass`
    SimplifyLibCalls,
    /// `LLVMAddTailCallEliminationPass`
    TailCallElimination,
    /// `LLVMAddVerifierPass`
    Verifier,
    /// `LLVMAddAlwaysInlinerPass`
    AlwaysInliner,
    /// `LLVMAddArgumentPromotionPass`
    ArgumentPromotion,
    /// `LLVMAddConstantMergePass`
    ConstantMerge,
    /// `LLVMAddDeadArgEliminationPass`
    DeadArgElimination,
    /// `LLVMAddFunctionAttrsPass`
    FunctionAttrs,
    /// `LLVMAddGlobalDCEPass`
    GlobalDCE,
    /// `LLVMAddGlobalOptimizerPass`
    GlobalOptimizer,
    /// `LLVMAddIPConstantPropagationPass`
    IPConstantPropagation,
    /// `LLVMAddIPSCCPPass`
    IPSCCP,
    /// `LLVMAddPruneEHPass`
    PruneEH,
    /// `LLVMAddStripDeadPrototypesPass`
    StripDeadPrototypes,
    /// `LLVMAddStripSymbolsPass`
    StripSymbols,
    /// `LLVMAddInternalizePass`, with its flag.
    Internalize { all_but_main: bool },
    /// `LLVMAddScalarReplAggregatesPass`
    ScalarReplAggregates,
    /// `LLVMAddScalarReplAggregatesPassSSA`
    ScalarReplAggregatesSSA,
    /// `LLVMAddScalarReplAggregatesPassWithThreshold`, with its threshold.
    ScalarReplAggregatesWithThreshold { threshold: i32 },
    /// `LLVMAddBBVectorizePass`
    BBVectorize,
    /// `LLVMAddLoopVectorizePass`
    LoopVectorize,
    /// `LLVMAddSLPVectorizePass`
    SLPVectorize,
}

/// A pipeline as it was put together: the manager's handle, and the stages
/// added to it so far, first to last.
pub struct Pipeline {
    pub handle: Handle,
    pub stages: Seq<Pass>,
}

impl Pipeline {
    /// The call that adds `pass` to this pipeline.
    pub open spec fn adds(self, pass: Pass) -> NativeCall {
        NativeCall::AddPass { manager: self.handle, pass }
    }

    /// The pipeline with `pass` added behind its stages.
    pub open spec fn with(self, pass: Pass) -> Pipeline {
        Pipeline { handle: self.handle, stages: self.stages.push(pass) }
    }

    /// The pipeline with each of `passes` added in turn.
    pub open spec fn with_all(self, passes: Seq<Pass>) -> Pipeline
        decreases passes.len(),
    {
        if passes.len() == 0 {
            self
        } else {
            self.with(passes[0]).with_all(passes.skip(1))
        }
    }

    /// The calls made as each of `passes` is added in turn.
    pub open spec fn calls(self, passes: Seq<Pass>) -> Seq<NativeCall>
        decreases passes.len(),
    {
        if passes.len() == 0 {
            Seq::empty()
        } else {
            seq![self.adds(passes[0])] + self.with(passes[0]).calls(passes.skip(1))
        }
    }

    /// The call that a choice makes: the one that adds its stage, or none.
    pub open spec fn adds_choice(self, stage: Option<Pass>) -> Option<NativeCall> {
        match stage {
            Some(pass) => Some(self.adds(pass)),
            None => None,
        }
    }

    /// The pipeline after a choice: with its stage added, or unchanged.
    pub open spec fn with_choice(self, stage: Option<Pass>) -> Pipeline {
        match stage {
            Some(pass) => self.with(pass),
            None => self,
        }
    }
}

/// Passes run in the order in which they were added: adding passes one
/// after another puts them behind the stages already there in that same
/// order, and makes one call for each, in that order too, on the same
/// manager.
pub proof fn lemma_passes_keep_their_order(pipeline: Pipeline, passes: Seq<Pass>)
    ensures
        pipeline.with_all(passes).handle == pipeline.handle,
        pipeline.with_all(passes).stages == pipeline.stages + passes,
        pipeline.calls(passes).len() == passes.len(),
        forall|i: int|
            0 <= i < passes.len() ==> #[trigger] pipeline.calls(passes)[i] == (
            NativeCall::AddPass { manager: pipeline.handle, pass: passes[i] }),
    decreases passes.len(),
{
    if passes.len() > 0 {
        let next = pipeline.with(passes[0]);
        let rest = passes.skip(1);
        lemma_passes_keep_their_order(next, rest);
    }
}

/// Two different passes are never added by the same call.
pub proof fn lemma_each_pass_has_its_own_call(pipeline: Pipeline, a: Pass, b: Pass)
    ensures
        pipeline.adds(a) == pipeline.adds(b) ==> a == b,
{
}

/// A pass manager of the native library: a pipeline to which stages are
/// added one by one. It keeps no allocation.
pub struct PassManager {
    data: Handle,
    stages: Ghost<Seq<Pass>>,
}

impl View for PassManager {
    type V = Pipeline;

    closed spec fn view(&self) -> Pipeline {
        Pipeline { handle: self.data, stages: self.stages@ }
    }
}

impl PassManager {
    /// Plans an empty pipeline.
    pub fn new() -> (plan: Plan<PassManager>)
        ensures
            plan@.call == NativeCall::CreatePassManager,
            plan@.entries == Seq::<Entry>::empty(),
    {
        let held: Vec<Buffers> = Vec::new();
        Plan::new(NativeCall::CreatePassManager, held)
    }

    fn add(&mut self, pass: Pass) -> (call: NativeCall)
        ensures
            final(self)@ == old(self)@.with(pass),
            call == old(self)@.adds(pass),
    {
        self.stages = Ghost(self.stages@.push(pass));
        NativeCall::AddPass { manager: self.data, pass }
    }

    /// Applies a choice among passes: adds the stage it stands for, if it
    /// stands for one.
    pub fn apply_opt<T: ApplyOpt>(&mut self, opt: T) -> (call: Option<NativeCall>)
        ensures
            final(self)@ == old(self)@.with_choice(opt.stage()),
            call == old(self)@.adds_choice(opt.stage()),
    {
        opt.add_pass(self)
    }

    /// Adds `LLVMAddAggressiveDCEPass` to the pipeline.
    pub fn aggressive_dce(&mut self) -> (call: NativeCall)
        ensures
            final(self)@ == old(self)@.with(Pass::AggressiveDCE),
            call == old(self)@.adds(Pass::AggressiveDCE),
    {
        self.add(Pass::AggressiveDCE)
    }

    /// Adds `LLVMAddAlignmentFromAssumptionsPass` to the pipeline.
    pub fn alignment_from_assumptions(&mut self) -> (call: NativeCall)
        ensures
            final(self)@ == old(self)@.with(Pass::AlignmentFromAssumptions),
            call == old(self)@.adds(Pass::AlignmentFromAssumptions),
    {
        self.add(Pass::AlignmentFromAssumptions)
    }

    /// Adds `LLVMAddCFGSimplificationPass` to the pipeline.
    pub fn cfg_simplification(&mut self) -> (call: NativeCall)
        ensures
            final(self)@ == old(self)@.with(Pass::CFGSimplification),
            call == old(self)@.adds(Pass::CFGSimplification),
    {
        self.add(Pass::CFGSimplification)
    }

    /// Adds `LLVMAddConstantPropagationPass` to the pipeline.
    pub fn constant_propigation(&mut self) -> (call: NativeCall)
        ensures
            final(self)@ == old(self)@.with(Pass::ConstantPropagation),
            call == old(self)@.adds(Pass::ConstantPropagation),
    {
        self.add(Pass::ConstantPropagation)
    }

    /// Adds `LLVMAddCorrelatedValuePropagationPass` to the pipeline.
    pub fn correlated_value_propagation(&mut self) -> (call: NativeCall)
        ensures
            final(self)@ == old(self)@.with(Pass::CorrelatedValuePropagation),
            call == old(self)@.adds(Pass::CorrelatedValuePropagation),
    {
        self.add(Pass::CorrelatedValuePropagation)
    }

    /// Adds `LLVMAddDeadStoreEliminationPass` to the pipeline.
    pub fn dead_store_elimination(&mut self) -> (call: NativeCall)
        ensures
            final(self)@ == old(self)@.with(Pass::DeadStoreElimination),
            call == old(self)@.adds(Pass::DeadStoreElimination),
    {
        self.add(Pass::DeadStoreElimination)
    }

    /// Adds `LLVMAddDemoteMemoryToRegisterPass` to the pipeline.
    pub fn demote_memory_to_register(&mut self) -> (call: NativeCall)
        ensures
            final(self)@ == old(self)@.with(Pass::DemoteMemoryToRegister),
            call == old(self)@.adds(Pass::DemoteMemoryToRegister),
    {
        self.add(Pass::DemoteMemoryToRegister)
    }

    /// Adds `LLVMAddEarlyCSEPass` to the pipeline.
    pub fn early_cse(&mut self) -> (call: NativeCall)
        ensures
            final(self)@ == old(self)@.with(Pass::EarlyCSE),
            call == old(self)@.adds(Pass::EarlyCSE),
    {
        self.add(Pass::EarlyCSE)
    }

    /// Adds `LLVMAddGVNPass` to the pipeline.
    pub fn gvn(&mut self) -> (call: NativeCall)
        ensures
            final(self)@ == old(self)@.with(Pass::GVN),
            call == old(self)@.adds(Pass::GVN),
    {
        self.add(Pass::GVN)
    }

    /// Adds `LLVMAddIndVarSimplifyPass` to the pipeline.
    pub fn ind_var_simplify(&mut self) -> (call: NativeCall)
        ensures
            final(self)@ == old(self)@.with(Pass::IndVarSimplify),
            call == old(self)@.adds(Pass::IndVarSimplify),
    {
        self.add(Pass::IndVarSimplify)
    }

    /// Adds `LLVMAddInstructionCombiningPass` to the pipeline.
    pub fn instruction_combining(&mut self) -> (call: NativeCall)
        ensures
            final(self)@ == old(self)@.with(Pass::InstructionCombining),
            call == old(self)@.adds(Pass::InstructionCombining),
    {
        self.add(Pass::InstructionCombining)
    }

    /// Adds `LLVMAddJumpThreadingPass` to the pipeline.
    pub fn jump_threading(&mut self) -> (call: NativeCall)
        ensures
            final(self)@ == old(self)@.with(Pass::JumpThreading),
            call == old(self)@.adds(Pass::JumpThreading),
    {
        self.add(Pass::JumpThreading)
    }

    /// Adds `LLVMAddLICMPass` to the pipeline.
    pub fn licm(&mut self) -> (call: NativeCall)
        ensures
            final(self)@ == old(self)@.with(Pass::LICM),
            call == old(self)@.adds(Pass::LICM),
    {
        self.add(Pass::LICM)
    }

    /// Adds `LLVMAddLoopDeletionPass` to the pipeline.
    pub fn loop_deletion(&mut self) -> (call: NativeCall)
        ensures
            final(self)@ == old(self)@.with(Pass::LoopDeletion),
            call == old(self)@.adds(Pass::LoopDeletion),
    {
        self.add(Pass::LoopDeletion)
    }

    /// Adds `LLVMAddLoopRerollPass` to the pipeline.
    pub fn loop_reroll(&mut self) -> (call: NativeCall)
        ensures
            final(self)@ == old(self)@.with(Pass::LoopReroll),
            call == old(self)@.adds(Pass::LoopReroll),
    {
        self.add(Pass::LoopReroll)
    }

    /// Adds `LLVMAddLoopRotatePass` to the pipeline.
    pub fn loop_rotate(&mut self) -> (call: NativeCall)
        ensures
            final(self)@ == old(self)@.with(Pass::LoopRotate),
            call == old(self)@.adds(Pass::LoopRotate),
    {
        self.add(Pass::LoopRotate)
    }

    /// Adds `LLVMAddLoopUnswitchPass` to the pipeline.
    pub fn loop_unswitch(&mut self) -> (call: NativeCall)
        ensures
            final(self)@ == old(self)@.with(Pass::LoopUnswitch),
            call == old(self)@.adds(Pass::LoopUnswitch),
    {
        self.add(Pass::LoopUnswitch)
    }

    /// Adds `LLVMAddLowerExpectIntrinsicPass` to the pipeline.
    pub fn lower_expect_intrinsic(&mut self) -> (call: NativeCall)
        ensures
            final(self)@ == old(self)@.with(Pass::LowerExpectIntrinsic),
            call == old(self)@.adds(Pass::LowerExpectIntrinsic),
    {
        self.add(Pass::LowerExpectIntrinsic)
    }

    /// Adds `LLVMAddLowerSwitchPass` to the pipeline.
    pub fn lower_switch(&mut self) -> (call: NativeCall)
        ensures
            final(self)@ == old(self)@.with(Pass::LowerSwitch),
            call == old(self)@.adds(Pass::LowerSwitch),
    {
        self.add(Pass::LowerSwitch)
    }

    /// Adds `LLVMAddMemCpyOptPass` to the pipeline.
    pub fn memcpy_opt(&mut self) -> (call: NativeCall)
        ensures
            final(self)@ == old(self)@.with(Pass::MemCpyOpt),
            call == old(self)@.adds(Pass::MemCpyOpt),
    {
        self.add(Pass::MemCpyOpt)
    }

    /// Adds `LLVMAddMergedLoadStoreMotionPass` to the pipeline.
    pub fn merge_load_store_motion(&mut self) -> (call: NativeCall)
        ensures
            final(self)@ == old(self)@.with(Pass::MergedLoadStoreMotion),
            call == old(self)@.adds(Pass::MergedLoadStoreMotion),
    {
        self.add(Pass::MergedLoadStoreMotion)
    }

    /// Adds `LLVMAddPartiallyInlineLibCallsPass` to the pipeline.
    pub fn partially_inline_lib_calls(&mut self) -> (call: NativeCall)
        ensures
            final(self)@ == old(self)@.with(Pass::PartiallyInlineLibCalls),
            call == old(self)@.adds(Pass::PartiallyInlineLibCalls),
    {
        self.add(Pass::PartiallyInlineLibCalls)
    }

    /// Adds `LLVMAddPromoteMemoryToRegisterPass` to the pipeline.
    pub fn promote_memory_to_register(&mut self) -> (call: NativeCall)
        ensures
            final(self)@ == old(self)@.with(Pass::PromoteMemoryToRegister),
            call == old(self)@.adds(Pass::PromoteMemoryToRegister),
    {
        self.add(Pass::PromoteMemoryToRegister)
    }

    /// Adds `LLVMAddReassociatePass` to the pipeline.
    pub fn reassociate(&mut self) -> (call: NativeCall)
        ensures
            final(self)@ == old(self)@.with(Pass::Reassociate),
            call == old(self)@.adds(Pass::Reassociate),
    {
        self.add(Pass::Reassociate)
    }

    /// Adds `LLVMAddSCCPPass` to the pipeline.
    pub fn sccp(&mut self) -> (call: NativeCall)
        ensures
            final(self)@ == old(self)@.with(Pass::SCCP),
            call == old(self)@.adds(Pass::SCCP),
    {
        self.add(Pass::SCCP)
    }

    /// Adds `LLVMAddScalarizerPass` to the pipeline.
    pub fn scalarizer(&mut self) -> (call: NativeCall)
        ensures
            final(self)@ == old(self)@.with(Pass::Scalarizer),
            call == old(self)@.adds(Pass::Scalarizer),
    {
        self.add(Pass::Scalarizer)
    }

    /// Adds `LLVMAddScopedNoAliasAAPass` to the pipeline.
    pub fn scoped_no_alias_aa(&mut self) -> (call: NativeCall)
        ensures
            final(self)@ == old(self)@.with(Pass::ScopedNoAliasAA),
            call == old(self)@.adds(Pass::ScopedNoAliasAA),
    {
        self.add(Pass::ScopedNoAliasAA)
    }

    /// Adds `LLVMAddSimplifyLibCallsPass` to the pipeline.
    pub fn simplify_lib_calls(&mut self) -> (call: NativeCall)
        ensures
            final(self)@ == old(self)@.with(Pass::SimplifyLibCalls),
            call == old(self)@.adds(Pass::SimplifyLibCalls),
    {
        self.add(Pass::SimplifyLibCalls)
    }

    /// Adds `LLVMAddTailCallEliminationPass` to the pipeline.
    pub fn tail_call_elimination(&mut self) -> (call: NativeCall)
        ensures
            final(self)@ == old(self)@.with(Pass::TailCallElimination),
            call == old(self)@.adds(Pass::TailCallElimination),
    {
        self.add(Pass::TailCallElimination)
    }

    /// Adds `LLVMAddVerifierPass` to the pipeline.
    pub fn verifer(&mut self) -> (call: NativeCall)
        ensures
            final(self)@ == old(self)@.with(Pass::Verifier),
            call == old(self)@.adds(Pass::Verifier),
    {
        self.add(Pass::Verifier)
    }

    /// Adds `LLVMAddAlwaysInlinerPass` to the pipeline.
    pub fn always_inliner(&mut self) -> (call: NativeCall)
        ensures
            final(self)@ == old(self)@.with(Pass::AlwaysInliner),
            call == old(self)@.adds(Pass::AlwaysInliner),
    {
        self.add(Pass::AlwaysInliner)
    }

    /// Adds `LLVMAddArgumentPromotionPass` to the pipeline.
    pub fn argument_promotion(&mut self) -> (call: NativeCall)
        ensures
            final(self)@ == old(self)@.with(Pass::ArgumentPromotion),
            call == old(self)@.adds(Pass::ArgumentPromotion),
    {
        self.add(Pass::ArgumentPromotion)
    }

    /// Adds `LLVMAddConstantMergePass` to the pipeline.
    pub fn constant_merge(&mut self) -> (call: NativeCall)
        ensures
            final(self)@ == old(self)@.with(Pass::ConstantMerge),
            call == old(self)@.adds(Pass::ConstantMerge),
    {
        self.add(Pass::ConstantMerge)
    }

    /// Adds `LLVMAddDeadArgEliminationPass` to the pipeline.
    pub fn dead_arg_elimination(&mut self) -> (call: NativeCall)
        ensures
            final(self)@ == old(self)@.with(Pass::DeadArgElimination),
            call == old(self)@.adds(Pass::DeadArgElimination),
    {
        self.add(Pass::DeadArgElimination)
    }

    /// Adds `LLVMAddFunctionAttrsPass` to the pipeline.
    pub fn function_attrs(&mut self) -> (call: NativeCall)
        ensures
            final(self)@ == old(self)@.with(Pass::FunctionAttrs),
            call == old(self)@.adds(Pass::FunctionAttrs),
    {
        self.add(Pass::FunctionAttrs)
    }

    /// Adds `LLVMAddGlobalDCEPass` to the pipeline.
    pub fn global_dce(&mut self) -> (call: NativeCall)
        ensures
            final(self)@ == old(self)@.with(Pass::GlobalDCE),
            call == old(self)@.adds(Pass::GlobalDCE),
    {
        self.add(Pass::GlobalDCE)
    }

    /// Adds `LLVMAddGlobalOptimizerPass` to the pipeline.
    pub fn global_optimizer(&mut self) -> (call: NativeCall)
        ensures
            final(self)@ == old(self)@.with(Pass::GlobalOptimizer),
            call == old(self)@.adds(Pass::GlobalOptimizer),
    {
        self.add(Pass::GlobalOptimizer)
    }

    /// Adds `LLVMAddIPConstantPropagationPass` to the pipeline.
    pub fn ip_constant_propagation(&mut self) -> (call: NativeCall)
        ensures
            final(self)@ == old(self)@.with(Pass::IPConstantPropagation),
            call == old(self)@.adds(Pass::IPConstantPropagation),
    {
        self.add(Pass::IPConstantPropagation)
    }

    /// Adds `LLVMAddIPSCCPPass` to the pipeline.
    pub fn ipsccp(&mut self) -> (call: NativeCall)
        ensures
            final(self)@ == old(self)@.with(Pass::IPSCCP),
            call == old(self)@.adds(Pass::IPSCCP),
    {
        self.add(Pass::IPSCCP)
    }

    /// Adds `LLVMAddPruneEHPass` to the pipeline.
    pub fn prune(&mut self) -> (call: NativeCall)
        ensures
            final(self)@ == old(self)@.with(Pass::PruneEH),
            call == old(self)@.adds(Pass::PruneEH),
    {
        self.add(Pass::PruneEH)
    }

    /// Adds `LLVMAddStripDeadPrototypesPass` to the pipeline.
    pub fn strip_dead_prototypes(&mut self) -> (call: NativeCall)
        ensures
            final(self)@ == old(self)@.with(Pass::StripDeadPrototypes),
            call == old(self)@.adds(Pass::StripDeadPrototypes),
    {
        self.add(Pass::StripDeadPrototypes)
    }

    /// Adds `LLVMAddStripSymbolsPass` to the pipeline.
    pub fn strip_symbols(&mut self) -> (call: NativeCall)
        ensures
            final(self)@ == old(self)@.with(Pass::StripSymbols),
            call == old(self)@.adds(Pass::StripSymbols),
    {
        self.add(Pass::StripSymbols)
    }

    /// Adds `LLVMAddInternalizePass` to the pipeline, with its flag as
    /// given.
    pub fn internalize_pass(&mut self, all_but_main: bool) -> (call: NativeCall)
        ensures
            final(self)@ == old(self)@.with(Pass::Internalize { all_but_main }),
            call == old(self)@.adds(Pass::Internalize { all_but_main }),
    {
        self.add(Pass::Internalize { all_but_main })
    }

    /// The handle.
    pub fn inner(&self) -> (r: Handle)
        ensures
            r == self@.handle,
    {
        self.data
    }

    /// Gives the pipeline up: the call that disposes of its handle.
    pub fn dispose(self) -> (call: NativeCall)
        ensures
            call == (NativeCall::DisposePassManager { manager: self@.handle }),
            call.disposes() == Some(self@.handle),
    {
        NativeCall::DisposePassManager { manager: self.data }
    }
}

impl Plan<PassManager> {
    /// The pass manager, once the planned call has answered with `handle`.
    /// Its pipeline is empty.
    pub fn finish(self, handle: Handle) -> (r: PassManager)
        ensures
            r@ == (Pipeline { handle, stages: Seq::empty() }),
    {
        PassManager { data: handle, stages: Ghost(Seq::empty()) }
    }
}

/// A choice among passes that can be applied to a pipeline. It adds one
/// stage or none.
pub trait ApplyOpt {
    /// The stage that the choice stands for, if it stands for one.
    spec fn stage(&self) -> Option<Pass>;

    /// Adds the stage to `mngr`, if the choice stands for one.
    fn add_pass(&self, mngr: &mut PassManager) -> (call: Option<NativeCall>)
        ensures
            final(mngr)@ == old(mngr)@.with_choice(self.stage()),
            call == old(mngr)@.adds_choice(self.stage()),
    ;
}

/// Which scalar replacement of aggregates is performed. To apply more than
/// one, apply each.
#[derive(Clone, Copy, Debug, PartialEq, Eq)]
pub enum ScalarReplAggregates {
    /// No pass.
    Off,
    /// `LLVMAddScalarReplAggregatesPass`
    Default,
    /// `LLVMAddScalarReplAggregatesPassSSA`
    SSA,
    /// `LLVMAddScalarReplAggregatesPassWithThreshold`
    Threshold(i32),
}

impl ApplyOpt for ScalarReplAggregates {
    open spec fn stage(&self) -> Option<Pass> {
        match *self {
            ScalarReplAggregates::Off => None,
            ScalarReplAggregates::Default => Some(Pass::ScalarReplAggregates),
            ScalarReplAggregates::SSA => Some(Pass::ScalarReplAggregatesSSA),
            ScalarReplAggregates::Threshold(val) => Some(
                Pass::ScalarReplAggregatesWithThreshold { threshold: val },
            ),
        }
    }

    fn add_pass(&self, mngr: &mut PassManager) -> (call: Option<NativeCall>) {
        match *self {
            ScalarReplAggregates::Off => None,
            ScalarReplAggregates::Default => Some(mngr.add(Pass::ScalarReplAggregates)),
            ScalarReplAggregates::SSA => Some(mngr.add(Pass::ScalarReplAggregatesSSA)),
            ScalarReplAggregates::Threshold(val) => Some(
                mngr.add(Pass::ScalarReplAggregatesWithThreshold { threshold: val }),
            ),
        }
    }
}

/// Which vectorization is performed. To apply more than one, apply each.
#[derive(Clone, Copy, Debug, PartialEq, Eq)]
pub enum Vectorize {
    /// No pass.
    Off,
    /// `LLVMAddBBVectorizePass`
    BB,
    /// `LLVMAddLoopVectorizePass`
    Loop,
    /// `LLVMAddSLPVectorizePass`
    SLP,
}

impl ApplyOpt for Vectorize {
    open spec fn stage(&self) -> Option<Pass> {
        match *self {
            Vectorize::Off => None,
            Vectorize::BB => Some(Pass::BBVectorize),
            Vectorize::Loop => Some(Pass::LoopVectorize),
            Vectorize::SLP => Some(Pass::SLPVectorize),
        }
    }

    fn add_pass(&self, mngr: &mut PassManager) -> (call: Option<NativeCall>) {
        match *self {
            Vectorize::Off => None,
            Vectorize::BB => Some(mngr.add(Pass::BBVectorize)),
            Vectorize::Loop => Some(mngr.add(Pass::LoopVectorize)),
            Vectorize::SLP => Some(mngr.add(Pass::SLPVectorize)),
        }
    }
}

} // verus!

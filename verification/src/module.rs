//! Modules: units of compilation.

use llvm_sys::analysis::LLVMVerifierFailureAction;
use vstd::prelude::*;
use vstd::string::StringSliceAdditionalSpecFns;

use crate::buffer::Buffer;
use crate::entries;
use crate::native::Handle;
use crate::native::NativeCall;
use crate::native::Owned;
use crate::native::Plan;
use crate::text::CText;
use crate::Buffers;
use crate::Entry;

verus! {

/// What the native library's verifier does on finding a fault.
#[verifier::external_type_specification]
pub struct ExLLVMVerifierFailureAction(LLVMVerifierFailureAction);

/// What the verifier does where a module is not consistent.
#[derive(Clone, Copy, Debug, PartialEq, Eq)]
pub enum FailureAction {
    /// Print the fault and abort the process.
    AbortProcess,
    /// Print the fault and return a status.
    PrintMessage,
    /// Return a status and print nothing.
    ReturnStatus,
}

impl FailureAction {
    /// The action as the native library writes it.
    pub open spec fn native(self) -> LLVMVerifierFailureAction {
        match self {
            FailureAction::AbortProcess => LLVMVerifierFailureAction::LLVMAbortProcessAction,
            FailureAction::PrintMessage => LLVMVerifierFailureAction::LLVMPrintMessageAction,
            FailureAction::ReturnStatus => LLVMVerifierFailureAction::LLVMReturnStatusAction,
        }
    }

    /// The action as the native library writes it.
    pub fn into(self) -> (r: LLVMVerifierFailureAction)
        ensures
            r == self.native(),
    {
        match self {
            FailureAction::AbortProcess => LLVMVerifierFailureAction::LLVMAbortProcessAction,
            FailureAction::PrintMessage => LLVMVerifierFailureAction::LLVMPrintMessageAction,
            FailureAction::ReturnStatus => LLVMVerifierFailureAction::LLVMReturnStatusAction,
        }
    }
}

/// A module of the native library, with the allocations kept for it: its
/// name, those of a buffer it was read from, and every triple it was given.
#[derive(Debug, PartialEq, Eq)]
pub struct Module {
    data: Handle,
    buffers: Vec<Buffers>,
}

impl View for Module {
    type V = Owned;

    closed spec fn view(&self) -> Owned {
        Owned { handle: self.data, entries: entries(self.buffers@) }
    }
}

impl Module {
    /// Plans an empty module under `name`.
    pub fn new(name: Vec<u8>) -> (plan: Plan<Module>)
        requires
            !name@.contains(0u8),
        ensures
            plan@.call == (NativeCall::ModuleCreateWithName { name: 0 }),
            plan@.entries == seq![Entry::Name(name@)],
    {
        let name = CText::terminated(name);
        let mut held: Vec<Buffers> = Vec::new();
        held.push(Buffers::A(name));
        Plan::new(NativeCall::ModuleCreateWithName { name: 0 }, held)
    }

    /// Asks whether the module is consistent. A fault is to come back as a
    /// status: the verifier neither prints nor aborts. Answer:
    /// [`verify_reply`](Module::verify_reply).
    pub fn verify(&self) -> (call: NativeCall)
        ensures
            call == (NativeCall::VerifyModule {
                module: self@.handle,
                action: FailureAction::ReturnStatus,
            }),
    {
        NativeCall::VerifyModule { module: self.data, action: FailureAction::ReturnStatus }
    }

    /// What a verification found, from the `status` and the `message` that
    /// the native call left: nothing amiss at status zero, else the
    /// diagnostic. The module stays as it is either way.
    pub fn verify_reply(&self, status: i32, message: CText) -> (r: Result<(), CText>)
        ensures
            status == 0 <==> r is Ok,
            r matches Err(diagnostic) ==> diagnostic == message,
    {
        if status != 0 {
            Err(message)
        } else {
            Ok(())
        }
    }

    /// Asks to write the module as bitcode into a new buffer. Answer:
    /// [`to_ir_reply`](Module::to_ir_reply).
    pub fn to_ir(&self) -> (call: NativeCall)
        ensures
            call == (NativeCall::WriteBitcodeToMemoryBuffer { module: self@.handle }),
    {
        NativeCall::WriteBitcodeToMemoryBuffer { module: self.data }
    }

    /// The buffer that the module was written to, once the native call has
    /// answered with its handle. The buffer takes over every allocation of
    /// the module, and the module's handle is to be disposed of by the call
    /// returned.
    pub fn to_ir_reply(self, buffer: Handle) -> (r: (Buffer, NativeCall))
        ensures
            r.0@ == self@.written(buffer),
            r.1 == (NativeCall::DisposeModule { module: self@.handle }),
    {
        let Module { data, buffers } = self;
        (Buffer::from_raw(buffer, buffers), NativeCall::DisposeModule { module: data })
    }

    /// Sets the triple of the machine that the module is compiled for. The
    /// triple is kept with those set before.
    pub fn set_target(&mut self, triple: &str) -> (call: NativeCall)
        requires
            !triple.spec_bytes().contains(0u8),
        ensures
            final(self)@ == old(self)@.with_text(triple.spec_bytes()),
            call == (NativeCall::SetTarget {
                module: old(self)@.handle,
                triple: old(self)@.entries.len() as usize,
            }),
            call matches NativeCall::SetTarget { triple: at, .. } && at < final(self)@.entries.len()
                && final(self)@.entries[at as int] == Entry::Name(triple.spec_bytes()),
    {
        self.set_default_triple(CText::of_str(triple))
    }

    /// Sets the triple to `triple`, which is meant to be the triple of the
    /// machine that this code runs on, as
    /// [`get_local_triple`](crate::target::get_local_triple) asks for it.
    pub fn set_default_triple(&mut self, triple: CText) -> (call: NativeCall)
        ensures
            final(self)@ == old(self)@.with_text(triple@),
            call == (NativeCall::SetTarget {
                module: old(self)@.handle,
                triple: old(self)@.entries.len() as usize,
            }),
            call matches NativeCall::SetTarget { triple: at, .. } && at < final(self)@.entries.len()
                && final(self)@.entries[at as int] == Entry::Name(triple@),
    {
        let at = self.buffers.len();
        self.buffers.push(Buffers::A(triple));
        assert(entries(self.buffers@) == entries(old(self).buffers@).push(Entry::Name(triple@)));
        NativeCall::SetTarget { module: self.data, triple: at }
    }

    /// Asks for the name, which the native library holds. Answer:
    /// [`required_name`](crate::native::required_name).
    pub fn get_name(&self) -> (call: NativeCall)
        ensures
            call == (NativeCall::GetModuleName { module: self@.handle }),
    {
        NativeCall::GetModuleName { module: self.data }
    }

    /// The handle.
    pub fn raw_module(&self) -> (r: Handle)
        ensures
            r == self@.handle,
    {
        self.data
    }

    /// The allocations kept for the handle.
    pub fn buffers(&self) -> (r: &[Buffers])
        ensures
            entries(r@) == self@.entries,
    {
        self.buffers.as_slice()
    }

    /// Gives the module up: the call that disposes of its handle, and the
    /// allocations, which may go once the call is made.
    pub fn dispose(self) -> (r: (NativeCall, Vec<Buffers>))
        ensures
            r.0 == (NativeCall::DisposeModule { module: self@.handle }),
            r.0.disposes() == Some(self@.handle),
            entries(r.1@) == self@.entries,
    {
        (NativeCall::DisposeModule { module: self.data }, self.buffers)
    }

    /// A module from its parts: a handle, and the allocations to keep for
    /// it.
    pub fn from_raw(x: Handle, buffers: Vec<Buffers>) -> (r: Module)
        ensures
            r@ == (Owned { handle: x, entries: entries(buffers@) }),
    {
        Module { data: x, buffers }
    }

    /// Takes over the allocations in `b`, behind those already kept, and
    /// leaves `b` empty.
    pub fn append_buffers(&mut self, b: &mut Vec<Buffers>)
        ensures
            final(self)@ == (Owned {
                handle: old(self)@.handle,
                entries: old(self)@.entries + entries(old(b)@),
            }),
            final(b)@.len() == 0,
    {
        self.buffers.append(b);
        assert(entries(self.buffers@) == entries(old(self).buffers@) + entries(old(b)@));
    }
}

impl Plan<Module> {
    /// The module, once the planned call has answered with `handle`.
    pub fn finish(self, handle: Handle) -> (r: Module)
        ensures
            r@ == (Owned { handle, entries: self@.entries }),
    {
        Module::from_raw(handle, self.into_buffers())
    }
}

} // verus!

//! The native call surface, as values: what this crate asks of the LLVM C
//! API, and the shape in which it takes the answers.

use vstd::prelude::*;

use crate::entries;
use crate::module::FailureAction;
use crate::pass::Pass;
use crate::target::CodeGenOptLevel;
use crate::target::CodeModel;
use crate::target::RelocMode;
use crate::text::CText;
use crate::Buffers;
use crate::Entry;

verus! {

/// An opaque reference to something that the native library owns, by its
/// address.
#[derive(Clone, Copy, Debug, PartialEq, Eq, Structural)]
pub struct Handle {
    pub addr: usize,
}

impl Handle {
    /// Whether this is the null handle, which refers to nothing.
    pub fn is_null(&self) -> (r: bool)
        ensures
            r == (self.addr == 0),
    {
        self.addr == 0
    }
}

/// One call of the LLVM C API. A pointer argument is given as the index of
/// the allocation it points into, among those of the value that issues the
/// call.
#[derive(Clone, Copy, Debug, PartialEq, Eq)]
pub enum NativeCall {
    /// `LLVMCreateMemoryBufferWithMemoryRange`: a buffer over the `len` bytes
    /// of allocation `data`, named by allocation `name`. Answer: its handle.
    CreateMemoryBufferWithMemoryRange {
        data: usize,
        len: usize,
        name: usize,
        requires_null_terminator: bool,
    },
    /// `LLVMCreateMemoryBufferWithMemoryRangeCopy`: a buffer over a copy of
    /// `len` bytes that the caller lends for the call, named by allocation
    /// `name`. Answer: its handle.
    CreateMemoryBufferWithMemoryRangeCopy { len: usize, name: usize },
    /// `LLVMDisposeMemoryBuffer`.
    DisposeMemoryBuffer { buffer: Handle },
    /// The name that the native library holds for a buffer. Answer: the
    /// name, or nothing where the library has none.
    GetBufferName { buffer: Handle },
    /// `LLVMParseBitcode`. Answer: a status, the module's handle, and a
    /// diagnostic.
    ParseBitcode { buffer: Handle },
    /// `LLVMModuleCreateWithName`, named by allocation `name`. Answer: the
    /// module's handle.
    ModuleCreateWithName { name: usize },
    /// `LLVMDisposeModule`.
    DisposeModule { module: Handle },
    /// `LLVMVerifyModule`, told what to do where the module is not
    /// consistent. Answer: the status and a diagnostic.
    VerifyModule { module: Handle, action: FailureAction },
    /// `LLVMWriteBitcodeToMemoryBuffer`. Answer: the new buffer's handle.
    WriteBitcodeToMemoryBuffer { module: Handle },
    /// `LLVMSetTarget`, with the triple in allocation `triple`.
    SetTarget { module: Handle, triple: usize },
    /// The name that the native library holds for a module. Answer: the
    /// name, or nothing where the library has none.
    GetModuleName { module: Handle },
    /// `LLVMGetTargetFromName`, with the name in allocation `name`. Answer:
    /// the target's handle, null for a name that the library does not know.
    GetTargetFromName { name: usize },
    /// `LLVMGetFirstTarget`. Answer: the target's handle.
    GetFirstTarget,
    /// `LLVMGetTargetDescription`. Answer: text.
    GetTargetDescription { target: Handle },
    /// `LLVMGetTargetName`. Answer: text.
    GetTargetName { target: Handle },
    /// `LLVMTargetHasAsmBackend`. Answer: a flag.
    TargetHasAsmBackend { target: Handle },
    /// `LLVMTargetHasTargetMachine`. Answer: a flag.
    TargetHasTargetMachine { target: Handle },
    /// `LLVMGetDefaultTargetTriple`. Answer: a message.
    GetDefaultTargetTriple,
    /// `LLVMDisposeMessage`.
    DisposeMessage { message: Handle },
    /// `LLVMCreateTargetMachine`, with triple, CPU and features in the
    /// allocations of those indices. Answer: the machine's handle.
    CreateTargetMachine {
        target: Handle,
        triple: usize,
        cpu: usize,
        features: usize,
        level: CodeGenOptLevel,
        reloc: RelocMode,
        model: CodeModel,
    },
    /// `LLVMDisposeTargetMachine`.
    DisposeTargetMachine { machine: Handle },
    /// `LLVMGetTargetMachineCPU`. Answer: a message.
    GetTargetMachineCPU { machine: Handle },
    /// `LLVMGetTargetMachineFeatureString`. Answer: a message.
    GetTargetMachineFeatureString { machine: Handle },
    /// `LLVMGetTargetMachineTriple`. Answer: a message.
    GetTargetMachineTriple { machine: Handle },
    /// `LLVMSetTargetMachineAsmVerbosity`.
    SetTargetMachineAsmVerbosity { machine: Handle, verbose: bool },
    /// `LLVMCreatePassManager`. Answer: the manager's handle.
    CreatePassManager,
    /// `LLVMDisposePassManager`.
    DisposePassManager { manager: Handle },
    /// The function that adds `pass` to a pass manager.
    AddPass { manager: Handle, pass: Pass },
}

/// Allocation `at` of `held` is text.
pub open spec fn is_text(held: Seq<Entry>, at: usize) -> bool {
    at < held.len() && held[at as int] is Name
}

/// Allocation `at` of `held` is `len` bytes.
pub open spec fn is_bytes(held: Seq<Entry>, at: usize, len: usize) -> bool {
    &&& at < held.len()
    &&& held[at as int] matches Entry::Bytes(bytes)
    &&& bytes.len() == len
}

impl NativeCall {
    /// Every pointer that the call hands over points into one of `held`, of
    /// the kind and size that the call reads.
    pub open spec fn anchored(self, held: Seq<Entry>) -> bool {
        match self {
            NativeCall::CreateMemoryBufferWithMemoryRange { data, len, name, .. } => {
                is_text(held, name) && is_bytes(held, data, len)
            },
            NativeCall::CreateMemoryBufferWithMemoryRangeCopy { name, .. } => is_text(held, name),
            NativeCall::ModuleCreateWithName { name } => is_text(held, name),
            NativeCall::SetTarget { triple, .. } => is_text(held, triple),
            NativeCall::GetTargetFromName { name } => is_text(held, name),
            NativeCall::CreateTargetMachine { triple, cpu, features, .. } => {
                is_text(held, triple) && is_text(held, cpu) && is_text(held, features)
            },
            _ => true,
        }
    }
}

impl NativeCall {
    /// The handle that the call disposes of, if it disposes of one.
    pub open spec fn disposes(self) -> Option<Handle> {
        match self {
            NativeCall::DisposeMemoryBuffer { buffer } => Some(buffer),
            NativeCall::DisposeModule { module } => Some(module),
            NativeCall::DisposeTargetMachine { machine } => Some(machine),
            NativeCall::DisposePassManager { manager } => Some(manager),
            _ => None,
        }
    }
}

/// How often `handle` occurs among `owners`.
pub open spec fn times_owned(owners: Seq<Handle>, handle: Handle) -> nat
    decreases owners.len(),
{
    if owners.len() == 0 {
        0
    } else {
        times_owned(owners.drop_last(), handle) + if owners.last() == handle {
            1nat
        } else {
            0nat
        }
    }
}

/// How many of `calls` dispose of `handle`.
pub open spec fn times_disposed(calls: Seq<NativeCall>, handle: Handle) -> nat
    decreases calls.len(),
{
    if calls.len() == 0 {
        0
    } else {
        times_disposed(calls.drop_last(), handle) + if calls.last().disposes() == Some(handle) {
            1nat
        } else {
            0nat
        }
    }
}

/// Each owner is disposed of once, whatever the order. Where owners are
/// given up one after another, each by a call that disposes of its own
/// handle, a handle is disposed of as often as it was owned: never more,
/// never less.
pub proof fn lemma_each_owner_is_disposed_of_once(
    owners: Seq<Handle>,
    calls: Seq<NativeCall>,
    handle: Handle,
)
    requires
        calls.len() == owners.len(),
        forall|i: int| 0 <= i < owners.len() ==> (#[trigger] calls[i]).disposes() == Some(owners[i]),
    ensures
        times_disposed(calls, handle) == times_owned(owners, handle),
    decreases owners.len(),
{
    if owners.len() > 0 {
        lemma_each_owner_is_disposed_of_once(owners.drop_last(), calls.drop_last(), handle);
    }
}

/// A handle together with the allocations that are kept for it.
pub struct Owned {
    pub handle: Handle,
    pub entries: Seq<Entry>,
}

impl Owned {
    /// The module read from a buffer with these allocations and the name
    /// `name`: it keeps the name, then all that the buffer kept.
    pub open spec fn parsed(self, name: Seq<u8>, module: Handle) -> Owned {
        Owned { handle: module, entries: seq![Entry::Name(name)] + self.entries }
    }

    /// The same handle with one more allocation kept behind the others:
    /// `text`.
    pub open spec fn with_text(self, text: Seq<u8>) -> Owned {
        Owned { handle: self.handle, entries: self.entries.push(Entry::Name(text)) }
    }

    /// The buffer that a module with these allocations is written to: it
    /// keeps all that the module kept.
    pub open spec fn written(self, buffer: Handle) -> Owned {
        Owned { handle: buffer, entries: self.entries }
    }
}

/// No allocation is lost between a buffer and a module: a module read from
/// a buffer and written back to one keeps all that the first buffer kept, in
/// its order, behind the one name that reading adds. A second turn adds one
/// name more and loses nothing either.
pub proof fn lemma_round_trip_keeps_allocations(
    buffer: Owned,
    first_name: Seq<u8>,
    first_module: Handle,
    first_written: Handle,
    second_name: Seq<u8>,
    second_module: Handle,
    second_written: Handle,
)
    ensures
        ({
            let once = buffer.parsed(first_name, first_module).written(first_written);
            let twice = once.parsed(second_name, second_module).written(second_written);
            &&& once.handle == first_written
            &&& once.entries == seq![Entry::Name(first_name)] + buffer.entries
            &&& twice.handle == second_written
            &&& twice.entries == seq![Entry::Name(second_name), Entry::Name(first_name)]
                + buffer.entries
        }),
{
}

/// A call that makes something, together with the allocations that the call
/// points into.
pub struct Request {
    pub call: NativeCall,
    pub entries: Seq<Entry>,
}

/// A `K` that waits for its handle: the call that will make it, and the
/// allocations that the call points into and that the `K` will keep.
pub struct Plan<K> {
    call: NativeCall,
    buffers: Vec<Buffers>,
    kind: core::marker::PhantomData<K>,
}

impl<K> View for Plan<K> {
    type V = Request;

    closed spec fn view(&self) -> Request {
        Request { call: self.call, entries: entries(self.buffers@) }
    }
}

impl<K> Plan<K> {
    #[verifier::type_invariant]
    spec fn well_formed(self) -> bool {
        self.call.anchored(entries(self.buffers@))
    }

    pub(crate) fn new(call: NativeCall, buffers: Vec<Buffers>) -> (r: Self)
        requires
            call.anchored(entries(buffers@)),
        ensures
            r@.call == call,
            r@.entries == entries(buffers@),
    {
        Plan { call, buffers, kind: core::marker::PhantomData }
    }

    /// The call to make. Its pointers point into this plan's allocations.
    pub fn call(&self) -> (r: NativeCall)
        ensures
            r == self@.call,
            r.anchored(self@.entries),
    {
        proof {
            use_type_invariant(self);
        }
        self.call
    }

    /// The allocations that the call points into.
    pub fn buffers(&self) -> (r: &[Buffers])
        ensures
            entries(r@) == self@.entries,
    {
        self.buffers.as_slice()
    }

    pub(crate) fn into_buffers(self) -> (r: Vec<Buffers>)
        ensures
            entries(r@) == self@.entries,
    {
        self.buffers
    }
}

/// The name that the native library gave for a buffer or a module. The
/// library owes one for each: there is no answer to give where it had none.
pub fn required_name(reply: Option<CText>) -> (name: CText)
    requires
        reply is Some,
    ensures
        Some(name) == reply,
{
    match reply {
        Some(name) => name,
        None => vstd::pervasive::unreached(),
    }
}

/// Whether a flag of the native library is set: it is at 1 and at no other
/// value.
pub fn is_set(flag: i32) -> (r: bool)
    ensures
        r == (flag == 1),
{
    flag == 1
}

/// Takes a message of the native library: `text` is the copy made of it, and
/// the call returned is the one that releases the library's own allocation,
/// at `message`. Every message is released so, as soon as it is copied.
pub fn take_message(message: Handle, text: CText) -> (r: (CText, NativeCall))
    ensures
        r.0 == text,
        r.1 == (NativeCall::DisposeMessage { message }),
{
    (text, NativeCall::DisposeMessage { message })
}

} // verus!

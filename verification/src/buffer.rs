//! Named memory buffers.

use vstd::prelude::*;
use vstd::slice::slice_to_vec;
use vstd::string::StringSliceAdditionalSpecFns;
use vstd::utf8::encode_utf8;

use crate::entries;
use crate::module::Module;
use crate::native::Handle;
use crate::native::NativeCall;
use crate::native::Owned;
use crate::native::Plan;
use crate::native::Request;
use crate::text::CText;
use crate::Buffers;
use crate::Entry;

verus! {

/// `n` bytes, each of them zero.
pub open spec fn zeros(n: nat) -> Seq<u8> {
    Seq::new(n, |i: int| 0u8)
}

/// The plan for a buffer over `bytes` where they are, under `name`: the name
/// is kept first and the bytes second, and the call points into both.
pub open spec fn adoption(name: Seq<u8>, bytes: Seq<u8>) -> Request {
    Request {
        call: NativeCall::CreateMemoryBufferWithMemoryRange {
            data: 1,
            len: bytes.len() as usize,
            name: 0,
            requires_null_terminator: false,
        },
        entries: seq![Entry::Name(name), Entry::Bytes(bytes)],
    }
}

/// Why a file did not become a buffer.
#[derive(Debug, PartialEq, Eq)]
pub enum FileError<E> {
    /// The path ends in no file name.
    NoFileName,
    /// The file name cannot name a buffer: it is not UTF-8, or it holds a
    /// NUL.
    NameNotText,
    /// The file could not be opened or read.
    Io(E),
}

/// A file whose name was accepted as a buffer's name, and whose bytes are
/// still to be read.
#[derive(Debug, PartialEq, Eq)]
pub struct FileRead {
    name: CText,
}

impl View for FileRead {
    type V = Seq<u8>;

    /// The name that the buffer will have.
    closed spec fn view(&self) -> Seq<u8> {
        self.name@
    }
}

impl FileRead {
    /// The name that the buffer will have.
    pub fn name(&self) -> (r: &CText)
        ensures
            r@ == self@,
    {
        &self.name
    }

    /// Ends the reading of the file with what came of it: a plan for a
    /// buffer over the bytes where they are, under the file's name, or the
    /// failure to read them.
    pub fn finish<E>(self, contents: Result<Vec<u8>, E>) -> (r: Result<Plan<Buffer>, FileError<E>>)
        ensures
            match contents {
                Ok(bytes) => r matches Ok(plan) && plan@ == adoption(self@, bytes@),
                Err(e) => r matches Err(FileError::Io(cause)) && cause == e,
            },
    {
        match contents {
            Ok(bytes) => Ok(Buffer::adopt(bytes, self.name)),
            Err(e) => Err(FileError::Io(e)),
        }
    }
}

// The last component of a path, as `std::path::Path::file_name` takes it
// from the path, or nothing where the path ends in no file name.
pub uninterp spec fn file_name_of(path: Seq<char>) -> Option<Seq<char>>;

/// The last component of `path`, by `std::path::Path::file_name`. The claim
/// is only that the answer is the one that `file_name_of` stands for: what
/// that function makes of a path is not said here. The rest of the body
/// turns the component, which is UTF-8 as the path is, into a `String`.
#[verifier::external_body]
fn last_component(path: &str) -> (r: Option<String>)
    ensures
        r matches Some(name) ==> file_name_of(path@) == Some(name@),
        r is None ==> file_name_of(path@) is None,
{
    std::path::Path::new(path).file_name().map(|name| name.to_string_lossy().into_owned())
}

/// A memory buffer of the native library, with the allocations that the
/// library reads through it: its name, and its bytes unless the library made
/// a copy of its own.
#[derive(Debug, PartialEq, Eq)]
pub struct Buffer {
    data: Handle,
    buffers: Vec<Buffers>,
}

impl View for Buffer {
    type V = Owned;

    closed spec fn view(&self) -> Owned {
        Owned { handle: self.data, entries: entries(self.buffers@) }
    }
}

impl Buffer {
    /// Plans a buffer of `size` bytes, all of them zero, under `name`. The
    /// buffer cannot grow later.
    pub fn with_capacity(size: usize, name: Vec<u8>) -> (plan: Plan<Buffer>)
        requires
            !name@.contains(0u8),
        ensures
            plan@ == adoption(name@, zeros(size as nat)),
    {
        let mut v: Vec<u8> = Vec::with_capacity(size);
        let mut filled: usize = 0;
        while filled < size
            invariant
                filled <= size,
                v@ == zeros(filled as nat),
            decreases size - filled,
        {
            v.push(0u8);
            filled = filled + 1;
        }
        Buffer::from_owned(v, name)
    }

    /// Plans a buffer over a copy of `buf` that the native library makes
    /// for itself, under `name`. Only the name is kept.
    pub fn copy_from(buf: &[u8], name: Vec<u8>) -> (plan: Plan<Buffer>)
        requires
            !name@.contains(0u8),
        ensures
            plan@.call == (NativeCall::CreateMemoryBufferWithMemoryRangeCopy {
                len: buf@.len() as usize,
                name: 0,
            }),
            plan@.entries == seq![Entry::Name(name@)],
    {
        let name = CText::terminated(name);
        let mut held: Vec<Buffers> = Vec::new();
        held.push(Buffers::A(name));
        Plan::new(
            NativeCall::CreateMemoryBufferWithMemoryRangeCopy { len: buf.len(), name: 0 },
            held,
        )
    }

    /// Plans a buffer over `buf` itself, under `name`: nothing is copied,
    /// and the native library reads the bytes where they are.
    pub fn from_owned(buf: Vec<u8>, name: Vec<u8>) -> (plan: Plan<Buffer>)
        requires
            !name@.contains(0u8),
        ensures
            plan@ == adoption(name@, buf@),
    {
        Buffer::adopt(buf, CText::terminated(name))
    }

    /// Starts a buffer from the file at `path`. The buffer is named after
    /// the file: by the last component of the path, as the standard library
    /// finds it. A path that ends in no file name, or in one that holds a
    /// NUL, is refused before the file is read; every other path is
    /// accepted, and the file is then to be read.
    pub fn from_file<E>(path: &str) -> (r: Result<FileRead, FileError<E>>)
        ensures
            match file_name_of(path@) {
                None => r matches Err(FileError::NoFileName),
                Some(name) => if encode_utf8(name).contains(0u8) {
                    r matches Err(FileError::NameNotText)
                } else {
                    r matches Ok(read) && read@ == encode_utf8(name)
                },
            },
    {
        match last_component(path) {
            None => Buffer::named_after(None),
            Some(name) => Buffer::named_after(Some(Some(name.as_str()))),
        }
    }

    /// Starts a buffer from a file whose path ends in `file_name`: nothing
    /// where the path ends in no file name, and nothing inside where the
    /// name is not UTF-8. A name that is missing, is not UTF-8 or holds a
    /// NUL is refused; any other becomes the buffer's name.
    pub fn named_after<E>(file_name: Option<Option<&str>>) -> (r: Result<FileRead, FileError<E>>)
        ensures
            match file_name {
                None => r matches Err(FileError::NoFileName),
                Some(None) => r matches Err(FileError::NameNotText),
                Some(Some(name)) => if name.spec_bytes().contains(0u8) {
                    r matches Err(FileError::NameNotText)
                } else {
                    r matches Ok(read) && read@ == name.spec_bytes()
                },
            },
    {
        match file_name {
            None => Err(FileError::NoFileName),
            Some(None) => Err(FileError::NameNotText),
            Some(Some(name)) => match CText::new(slice_to_vec(name.as_bytes())) {
                Ok(name) => Ok(FileRead { name }),
                Err(_) => Err(FileError::NameNotText),
            },
        }
    }

    fn adopt(buf: Vec<u8>, name: CText) -> (plan: Plan<Buffer>)
        ensures
            plan@ == adoption(name@, buf@),
    {
        let len = buf.len();
        let mut held: Vec<Buffers> = Vec::new();
        held.push(Buffers::A(name));
        held.push(Buffers::B(buf));
        assert(entries(held@) == seq![Entry::Name(name@), Entry::Bytes(buf@)]);
        Plan::new(
            NativeCall::CreateMemoryBufferWithMemoryRange {
                data: 1,
                len,
                name: 0,
                requires_null_terminator: false,
            },
            held,
        )
    }

    /// A buffer from its parts: a handle, and the allocations to keep for
    /// it. Nothing ties the two together but the caller's word.
    pub fn from_raw(x: Handle, buf: Vec<Buffers>) -> (r: Buffer)
        ensures
            r@ == (Owned { handle: x, entries: entries(buf@) }),
    {
        Buffer { data: x, buffers: buf }
    }

    /// The handle.
    pub fn raw(&self) -> (r: Handle)
        ensures
            r == self@.handle,
    {
        self.data
    }

    /// The allocations kept for the handle.
    pub fn buffers(&self) -> (r: &[Buffers])
        ensures
            entries(r@) == self@.entries,
    {
        self.buffers.as_slice()
    }

    /// Asks for the name, which the native library holds. Answer:
    /// [`required_name`](crate::native::required_name).
    pub fn get_name(&self) -> (call: NativeCall)
        ensures
            call == (NativeCall::GetBufferName { buffer: self@.handle }),
    {
        NativeCall::GetBufferName { buffer: self.data }
    }

    /// Asks to read the bytes as bitcode. Answer:
    /// [`parse_ir_reply`](Buffer::parse_ir_reply).
    pub fn parse_ir(&self) -> (call: NativeCall)
        ensures
            call == (NativeCall::ParseBitcode { buffer: self@.handle }),
    {
        NativeCall::ParseBitcode { buffer: self.data }
    }

    /// Ends an attempt to read the bytes as bitcode. `name` is the buffer's
    /// name; `status`, `module` and `message` are what the native call left.
    ///
    /// A status of zero is success. The module then takes over every
    /// allocation of the buffer, behind one for its own name, and the
    /// buffer's handle is to be disposed of. Any other status is failure:
    /// the buffer comes back as it was, with the diagnostic, and whatever
    /// the call left as a module is to be disposed of. Either way the call
    /// returned here is the one disposal that this attempt asks for.
    pub fn parse_ir_reply(
        self,
        name: CText,
        status: i32,
        module: Handle,
        message: CText,
    ) -> (r: (Result<Module, (Buffer, CText)>, NativeCall))
        ensures
            status == 0 ==> {
                &&& r.0 matches Ok(parsed)
                &&& parsed@ == self@.parsed(name@, module)
                &&& r.1 == (NativeCall::DisposeMemoryBuffer { buffer: self@.handle })
            },
            status != 0 ==> {
                &&& r.0 matches Err((buffer, diagnostic))
                &&& buffer == self
                &&& diagnostic == message
                &&& r.1 == (NativeCall::DisposeModule { module })
            },
    {
        if status != 0 {
            (Err((self, message)), NativeCall::DisposeModule { module })
        } else {
            let Buffer { data, buffers } = self;
            let mut held = buffers;
            let mut attempt: Vec<Buffers> = Vec::new();
            attempt.push(Buffers::A(name));
            assert(entries(attempt@) == seq![Entry::Name(name@)]);
            let mut parsed = Module::from_raw(module, attempt);
            parsed.append_buffers(&mut held);
            (Ok(parsed), NativeCall::DisposeMemoryBuffer { buffer: data })
        }
    }

    /// Gives the buffer up: the call that disposes of its handle, and the
    /// allocations, which may go once the call is made.
    pub fn dispose(self) -> (r: (NativeCall, Vec<Buffers>))
        ensures
            r.0 == (NativeCall::DisposeMemoryBuffer { buffer: self@.handle }),
            r.0.disposes() == Some(self@.handle),
            entries(r.1@) == self@.entries,
    {
        (NativeCall::DisposeMemoryBuffer { buffer: self.data }, self.buffers)
    }
}

impl Plan<Buffer> {
    /// The buffer, once the planned call has answered with `handle`.
    pub fn finish(self, handle: Handle) -> (r: Buffer)
        ensures
            r@ == (Owned { handle, entries: self@.entries }),
    {
        Buffer::from_raw(handle, self.into_buffers())
    }
}

} // verus!

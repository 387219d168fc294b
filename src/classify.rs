//! Classification of a container's entry point as native, WASM or unsupported.
use vstd::prelude::*;

verus! {

/// Why an entry point cannot be run by this executor.
#[derive(Debug, PartialEq, Eq)]
pub enum UnsupportedReason {
    /// The entry point names no `arg0`.
    NoEntrypoint,
    /// No candidate for `arg0` in the search order is executable.
    EntrypointNotFound,
    /// The selected executable could not be opened or read.
    ReadFailed(String),
    /// The selected executable holds fewer bytes than the header check reads.
    HeaderTooShort,
    /// The execution engine refused the module, with its own reason.
    EngineRefused(String),
}

/// The decision on how an entry point is executed.
#[derive(Debug, PartialEq, Eq)]
pub enum Classification {
    Native,
    Wasm,
    Unsupported(UnsupportedReason),
}

/// What was found on the filesystem for an entry point.
#[derive(Debug, PartialEq, Eq)]
pub enum EntryFile {
    /// The entry point is a collection of WASM layers: there is no file to inspect.
    Layers,
    /// The entry point names no `arg0`.
    NoArg0,
    /// `arg0` was given, but no candidate in the search order is executable.
    NotFound,
    /// The selected executable could not be opened or read.
    Unreadable(String),
    /// The leading bytes of the selected executable, as many as were read.
    Head(Vec<u8>),
}

impl UnsupportedReason {
    /// A copy of this reason.
    pub fn duplicate(&self) -> (r: UnsupportedReason)
        ensures
            r == *self,
    {
        match self {
            UnsupportedReason::NoEntrypoint => UnsupportedReason::NoEntrypoint,
            UnsupportedReason::EntrypointNotFound => UnsupportedReason::EntrypointNotFound,
            UnsupportedReason::ReadFailed(e) => UnsupportedReason::ReadFailed(e.clone()),
            UnsupportedReason::HeaderTooShort => UnsupportedReason::HeaderTooShort,
            UnsupportedReason::EngineRefused(e) => UnsupportedReason::EngineRefused(e.clone()),
        }
    }
}

impl Classification {
    /// A copy of this classification.
    pub fn duplicate(&self) -> (r: Classification)
        ensures
            r == *self,
    {
        match self {
            Classification::Native => Classification::Native,
            Classification::Wasm => Classification::Wasm,
            Classification::Unsupported(reason) => Classification::Unsupported(reason.duplicate()),
        }
    }
}

/// The outcome of the native check, before the engine is asked.
#[derive(Debug, PartialEq, Eq)]
pub enum NativeVerdict {
    Native,
    AskEngine,
    Unsupported(UnsupportedReason),
}

/// Number of leading bytes that the native check reads.
pub const HEADER_LEN: usize = 4;

/// The four bytes that open an ELF file.
pub open spec fn is_elf_magic(h: Seq<u8>) -> bool {
    &&& h.len() >= 4
    &&& h[0] == 0x7f
    &&& h[1] == 0x45
    &&& h[2] == 0x4c
    &&& h[3] == 0x46
}

/// A file of at least four bytes that opens with `#!`.
pub open spec fn is_shebang(h: Seq<u8>) -> bool {
    &&& h.len() >= 4
    &&& h[0] == 0x23
    &&& h[1] == 0x21
}

/// A file header that marks a native executable or script.
pub open spec fn native_header(h: Seq<u8>) -> bool {
    is_elf_magic(h) || is_shebang(h)
}

/// A file mode with any of the owner, group or other execute bits set.
pub open spec fn mode_is_executable(mode: u32) -> bool {
    mode & 0o111u32 != 0
}

/// A candidate whose mode could be read and is executable.
pub open spec fn candidate_is_executable(c: Option<u32>) -> bool {
    match c {
        Some(mode) => mode_is_executable(mode),
        None => false,
    }
}

/// The native check on what was found on the filesystem.
pub open spec fn verdict_of(f: EntryFile) -> NativeVerdict {
    match f {
        EntryFile::Layers => NativeVerdict::AskEngine,
        EntryFile::NoArg0 => NativeVerdict::Unsupported(UnsupportedReason::NoEntrypoint),
        EntryFile::NotFound => NativeVerdict::Unsupported(UnsupportedReason::EntrypointNotFound),
        EntryFile::Unreadable(e) => NativeVerdict::Unsupported(UnsupportedReason::ReadFailed(e)),
        EntryFile::Head(h) => if h@.len() < 4 {
            NativeVerdict::Unsupported(UnsupportedReason::HeaderTooShort)
        } else if native_header(h@) {
            NativeVerdict::Native
        } else {
            NativeVerdict::AskEngine
        },
    }
}

/// The classification of an entry point, given what the engine answers when asked.
pub open spec fn classification_of(f: EntryFile, engine: Result<(), String>) -> Classification {
    match verdict_of(f) {
        NativeVerdict::Native => Classification::Native,
        NativeVerdict::Unsupported(r) => Classification::Unsupported(r),
        NativeVerdict::AskEngine => match engine {
            Ok(_) => Classification::Wasm,
            Err(reason) => Classification::Unsupported(UnsupportedReason::EngineRefused(reason)),
        },
    }
}

/// What a write-once cache answers when offered `fresh`: the decision it holds, if any.
pub open spec fn settle(held: Option<Classification>, fresh: Classification) -> Classification {
    match held {
        Some(c) => c,
        None => fresh,
    }
}

/// Tells whether a file mode carries any execute bit.
pub fn is_executable_mode(mode: u32) -> (r: bool)
    ensures
        r == mode_is_executable(mode),
{
    mode & 0o111u32 != 0
}

/// Picks the first candidate, in search order, whose mode is known and executable.
///
/// `modes[i]` is the mode of the i-th candidate path, or `None` where it could
/// not be read.
pub fn select_executable(modes: &Vec<Option<u32>>) -> (r: Option<usize>)
    ensures
        match r {
            Some(i) => {
                &&& i < modes@.len()
                &&& candidate_is_executable(modes@[i as int])
                &&& forall|j: int| 0 <= j < i ==> !candidate_is_executable(#[trigger] modes@[j])
            },
            None => forall|j: int|
                0 <= j < modes@.len() ==> !candidate_is_executable(#[trigger] modes@[j]),
        },
{
    let mut i: usize = 0;
    while i < modes.len()
        invariant
            i <= modes@.len(),
            forall|j: int| 0 <= j < i ==> !candidate_is_executable(#[trigger] modes@[j]),
        decreases modes@.len() - i,
    {
        if let Some(mode) = modes[i] {
            if is_executable_mode(mode) {
                return Some(i);
            }
        }
        i = i + 1;
    }
    None
}

/// Tells whether a file's leading bytes mark a native executable: the ELF magic
/// number, or `#!`. Fewer than four bytes never do.
pub fn has_native_header(head: &[u8]) -> (r: bool)
    ensures
        r == native_header(head@),
{
    if head.len() < HEADER_LEN {
        return false;
    }
    (head[0] == 0x7f && head[1] == 0x45 && head[2] == 0x4c && head[3] == 0x46) || (head[0]
        == 0x23 && head[1] == 0x21)
}

/// The native check: native, unsupported, or a question for the engine.
pub fn native_verdict(f: &EntryFile) -> (r: NativeVerdict)
    ensures
        r == verdict_of(*f),
{
    match f {
        EntryFile::Layers => NativeVerdict::AskEngine,
        EntryFile::NoArg0 => NativeVerdict::Unsupported(UnsupportedReason::NoEntrypoint),
        EntryFile::NotFound => NativeVerdict::Unsupported(UnsupportedReason::EntrypointNotFound),
        EntryFile::Unreadable(e) => NativeVerdict::Unsupported(
            UnsupportedReason::ReadFailed(e.clone()),
        ),
        EntryFile::Head(h) => {
            if h.len() < HEADER_LEN {
                NativeVerdict::Unsupported(UnsupportedReason::HeaderTooShort)
            } else if has_native_header(h.as_slice()) {
                NativeVerdict::Native
            } else {
                NativeVerdict::AskEngine
            }
        },
    }
}

/// Classifies an entry point from what was found on the filesystem and, where
/// the native check leaves the question open, from the engine's answer.
pub fn classify(f: &EntryFile, engine: &Result<(), String>) -> (r: Classification)
    ensures
        r == classification_of(*f, *engine),
        verdict_of(*f) != NativeVerdict::AskEngine ==> forall|other: Result<(), String>|
            r == #[trigger] classification_of(*f, other),
{
    match native_verdict(f) {
        NativeVerdict::Native => Classification::Native,
        NativeVerdict::Unsupported(reason) => Classification::Unsupported(reason),
        NativeVerdict::AskEngine => match engine {
            Ok(_) => Classification::Wasm,
            Err(reason) => Classification::Unsupported(
                UnsupportedReason::EngineRefused(reason.clone()),
            ),
        },
    }
}

/// A write-once cache of an executor's classification.
#[derive(Debug, PartialEq, Eq)]
pub struct ClassificationCache {
    held: Option<Classification>,
}

impl ClassificationCache {
    /// The decision held, if one was made.
    pub closed spec fn decision(self) -> Option<Classification> {
        self.held
    }

    /// An empty cache.
    pub fn new() -> (r: ClassificationCache)
        ensures
            r.decision() == None::<Classification>,
    {
        ClassificationCache { held: None }
    }

    /// Tells whether the entry point still has to be probed.
    pub fn needs_probe(&self) -> (r: bool)
        ensures
            r == self.decision() is None,
    {
        self.held.is_none()
    }

    /// The decision held, if one was made.
    pub fn get(&self) -> (r: Option<Classification>)
        ensures
            r == self.decision(),
    {
        match &self.held {
            Some(c) => Some(c.duplicate()),
            None => None,
        }
    }

    /// Records `fresh` unless a decision is already held, and returns the decision held.
    pub fn decide(&mut self, fresh: Classification) -> (r: Classification)
        ensures
            r == settle(old(self).decision(), fresh),
            final(self).decision() == Some(r),
    {
        match &self.held {
            Some(c) => c.duplicate(),
            None => {
                self.held = Some(fresh.duplicate());
                fresh
            },
        }
    }
}

/// Once a decision is made, every later one returns it, and no further probe is asked for.
pub proof fn lemma_decision_is_stable(
    held: Option<Classification>,
    first: Classification,
    second: Classification,
)
    ensures
        settle(Some(settle(held, first)), second) == settle(held, first),
        !(Some(settle(held, first)) is None),
{
}

/// A file that opens with the ELF magic number is native, whatever follows it.
pub proof fn lemma_elf_is_native(head: Seq<u8>, engine: Result<(), String>)
    requires
        head.len() >= 4,
        head[0] == 0x7f && head[1] == 0x45 && head[2] == 0x4c && head[3] == 0x46,
    ensures
        forall|v: Vec<u8>| v@ == head ==> classification_of(EntryFile::Head(v), engine)
            == Classification::Native,
{
}

/// A file of at least four bytes that opens with `#!` is native.
pub proof fn lemma_shebang_is_native(head: Seq<u8>, engine: Result<(), String>)
    requires
        head.len() >= 4,
        head[0] == 0x23 && head[1] == 0x21,
    ensures
        forall|v: Vec<u8>| v@ == head ==> classification_of(EntryFile::Head(v), engine)
            == Classification::Native,
{
}

} // verus!

//! The table of requests: for each operation of the supervisor and its
//! tools, the request code, the declared arguments and the kind of result.

use crate::codes;
use crate::frame::{Frame, MAX_ARGS};
use crate::leak::LeakCheck;
use crate::word::{
    bool_to_word, spec_bool_word, spec_optional, spec_thread_id, word_to_optional,
    word_to_thread_id, DEFAULT_WORD,
};
use libc::c_uint;
use vstd::prelude::*;

verus! {

/// One operation with its arguments. Addresses are plain words; a text
/// argument is the address of its zero-terminated bytes.
#[derive(Clone, Copy, Debug, PartialEq, Eq, Structural)]
pub enum Request {
    // The supervisor core.
    RunningOnValgrind,
    CountErrors,
    DiscardTranslations { addr: usize, len: usize },
    MonitorCommand { text: usize },
    // The memory-error detector.
    MalloclikeBlock { addr: usize, size: usize, redzone: usize, is_zeroed: bool },
    ResizeinplaceBlock { addr: usize, old_size: usize, new_size: usize, redzone: usize },
    FreelikeBlock { addr: usize, redzone: usize },
    MakeMemNoaccess { addr: usize, len: usize },
    MakeMemUndefined { addr: usize, len: usize },
    MakeMemDefined { addr: usize, len: usize },
    MakeMemDefinedIfAddressable { addr: usize, len: usize },
    CheckMemIsAddressable { addr: usize, len: usize },
    CheckMemIsDefined { addr: usize, len: usize },
    DoLeakCheck { kind: LeakCheck },
    CountLeaks { leaked: usize, dubious: usize, reachable: usize, suppressed: usize },
    CountLeakBlocks { leaked: usize, dubious: usize, reachable: usize, suppressed: usize },
    // The profiler.
    DumpStats,
    DumpStatsAt { text: usize },
    ZeroStats,
    ToggleCollect,
    StartInstrumentation,
    StopInstrumentation,
    // The first thread-error detector.
    HgCleanMemory { addr: usize, len: usize },
    // The second thread-error detector.
    DrdCleanMemory { addr: usize, len: usize },
    GetValgrindThreadId,
    GetDrdThreadId,
    AnnotateBenignRace { addr: usize, len: usize },
    StopIgnoring { addr: usize, len: usize },
    Trace { addr: usize, len: usize },
    StopTracing { addr: usize, len: usize },
    IgnoreReadsBegin,
    IgnoreReadsEnd,
    IgnoreWritesBegin,
    IgnoreWritesEnd,
    AnnotateThreadName { text: usize },
}

/// How the result word of a request is read.
#[derive(Clone, Copy, Debug, PartialEq, Eq, Structural)]
pub enum ResultKind {
    /// The request is a command; its result word means nothing.
    Unit,
    /// The word is a number: a count or an indicator.
    Count,
    /// The word's low 32 bits are a thread identifier.
    ThreadId,
    /// Zero for absence, otherwise an address.
    OptionalAddress,
}

/// A result word read by its kind.
#[derive(Clone, Copy, Debug, PartialEq, Eq, Structural)]
pub enum Reply {
    Unit,
    Count(usize),
    ThreadId(c_uint),
    OptionalAddress(Option<usize>),
}

/// The reply that the result word `word` stands for when read as `kind`.
pub open spec fn spec_decode(kind: ResultKind, word: usize) -> Reply {
    match kind {
        ResultKind::Unit => Reply::Unit,
        ResultKind::Count => Reply::Count(word),
        ResultKind::ThreadId => Reply::ThreadId(spec_thread_id(word)),
        ResultKind::OptionalAddress => Reply::OptionalAddress(spec_optional(word)),
    }
}

/// The zero or absent value of each kind of result.
pub open spec fn spec_default_reply(kind: ResultKind) -> Reply {
    match kind {
        ResultKind::Unit => Reply::Unit,
        ResultKind::Count => Reply::Count(0),
        ResultKind::ThreadId => Reply::ThreadId(0),
        ResultKind::OptionalAddress => Reply::OptionalAddress(None),
    }
}

/// Reads the result word `word` as `kind`.
pub fn decode(kind: ResultKind, word: usize) -> (reply: Reply)
    ensures
        reply == spec_decode(kind, word),
{
    match kind {
        ResultKind::Unit => Reply::Unit,
        ResultKind::Count => Reply::Count(word),
        ResultKind::ThreadId => Reply::ThreadId(word_to_thread_id(word)),
        ResultKind::OptionalAddress => Reply::OptionalAddress(word_to_optional(word)),
    }
}

impl Request {
    /// The request code of the operation.
    pub open spec fn spec_code(self) -> usize {
        match self {
            Request::RunningOnValgrind => codes::RUNNING_ON_VALGRIND,
            Request::CountErrors => codes::COUNT_ERRORS,
            Request::DiscardTranslations { .. } => codes::DISCARD_TRANSLATIONS,
            Request::MonitorCommand { .. } => codes::GDB_MONITOR_COMMAND,
            Request::MalloclikeBlock { .. } => codes::MALLOCLIKE_BLOCK,
            Request::ResizeinplaceBlock { .. } => codes::RESIZEINPLACE_BLOCK,
            Request::FreelikeBlock { .. } => codes::FREELIKE_BLOCK,
            Request::MakeMemNoaccess { .. } => codes::MAKE_MEM_NOACCESS,
            Request::MakeMemUndefined { .. } => codes::MAKE_MEM_UNDEFINED,
            Request::MakeMemDefined { .. } => codes::MAKE_MEM_DEFINED,
            Request::MakeMemDefinedIfAddressable { .. } => codes::MAKE_MEM_DEFINED_IF_ADDRESSABLE,
            Request::CheckMemIsAddressable { .. } => codes::CHECK_MEM_IS_ADDRESSABLE,
            Request::CheckMemIsDefined { .. } => codes::CHECK_MEM_IS_DEFINED,
            Request::DoLeakCheck { .. } => codes::DO_LEAK_CHECK,
            Request::CountLeaks { .. } => codes::COUNT_LEAKS,
            Request::CountLeakBlocks { .. } => codes::COUNT_LEAK_BLOCKS,
            Request::DumpStats => codes::DUMP_STATS,
            Request::DumpStatsAt { .. } => codes::DUMP_STATS_AT,
            Request::ZeroStats => codes::ZERO_STATS,
            Request::ToggleCollect => codes::TOGGLE_COLLECT,
            Request::StartInstrumentation => codes::START_INSTRUMENTATION,
            Request::StopInstrumentation => codes::STOP_INSTRUMENTATION,
            Request::HgCleanMemory { .. } => codes::HG_CLEAN_MEMORY,
            Request::DrdCleanMemory { .. } => codes::DRD_CLEAN_MEMORY,
            Request::GetValgrindThreadId => codes::DRD_GET_VALGRIND_THREAD_ID,
            Request::GetDrdThreadId => codes::DRD_GET_DRD_THREAD_ID,
            Request::AnnotateBenignRace { .. } => codes::DRD_START_SUPPRESSION,
            Request::StopIgnoring { .. } => codes::DRD_FINISH_SUPPRESSION,
            Request::Trace { .. } => codes::DRD_START_TRACE_ADDR,
            Request::StopTracing { .. } => codes::DRD_STOP_TRACE_ADDR,
            Request::IgnoreReadsBegin | Request::IgnoreReadsEnd => codes::DRD_RECORD_LOADS,
            Request::IgnoreWritesBegin | Request::IgnoreWritesEnd => codes::DRD_RECORD_STORES,
            Request::AnnotateThreadName { .. } => codes::DRD_SET_THREAD_NAME,
        }
    }

    /// The declared arguments of the operation as words, in their order:
    /// addresses and lengths as they are, a boolean as zero or one, a kind
    /// of leak check as its two constants.
    pub open spec fn spec_args(self) -> Seq<usize> {
        match self {
            Request::RunningOnValgrind
            | Request::CountErrors
            | Request::DumpStats
            | Request::ZeroStats
            | Request::ToggleCollect
            | Request::StartInstrumentation
            | Request::StopInstrumentation
            | Request::GetValgrindThreadId
            | Request::GetDrdThreadId => seq![],
            Request::MonitorCommand { text }
            | Request::DumpStatsAt { text }
            | Request::AnnotateThreadName { text } => seq![text],
            Request::IgnoreReadsBegin | Request::IgnoreWritesBegin => seq![0usize],
            Request::IgnoreReadsEnd | Request::IgnoreWritesEnd => seq![1usize],
            Request::DiscardTranslations { addr, len }
            | Request::MakeMemNoaccess { addr, len }
            | Request::MakeMemUndefined { addr, len }
            | Request::MakeMemDefined { addr, len }
            | Request::MakeMemDefinedIfAddressable { addr, len }
            | Request::CheckMemIsAddressable { addr, len }
            | Request::CheckMemIsDefined { addr, len }
            | Request::HgCleanMemory { addr, len }
            | Request::DrdCleanMemory { addr, len }
            | Request::AnnotateBenignRace { addr, len }
            | Request::StopIgnoring { addr, len }
            | Request::Trace { addr, len }
            | Request::StopTracing { addr, len } => seq![addr, len],
            Request::FreelikeBlock { addr, redzone } => seq![addr, redzone],
            Request::DoLeakCheck { kind } => seq![kind.spec_depth_word(), kind.spec_scope_word()],
            Request::MalloclikeBlock { addr, size, redzone, is_zeroed } => seq![
                addr,
                size,
                redzone,
                spec_bool_word(is_zeroed),
            ],
            Request::ResizeinplaceBlock { addr, old_size, new_size, redzone } => seq![
                addr,
                old_size,
                new_size,
                redzone,
            ],
            Request::CountLeaks { leaked, dubious, reachable, suppressed }
            | Request::CountLeakBlocks { leaked, dubious, reachable, suppressed } => seq![
                leaked,
                dubious,
                reachable,
                suppressed,
            ],
        }
    }

    /// The frame of the operation: its code, its declared arguments, zeros.
    pub open spec fn spec_frame(self) -> Frame {
        Frame::of(self.spec_code(), self.spec_args())
    }

    /// How the operation's result word is read.
    pub open spec fn spec_result_kind(self) -> ResultKind {
        match self {
            Request::RunningOnValgrind | Request::CountErrors => ResultKind::Count,
            Request::GetValgrindThreadId | Request::GetDrdThreadId => ResultKind::ThreadId,
            Request::CheckMemIsAddressable { .. }
            | Request::CheckMemIsDefined { .. } => ResultKind::OptionalAddress,
            _ => ResultKind::Unit,
        }
    }

    /// Whether the operation only asks: it takes no argument, so it hands
    /// the supervisor no address, and its whole answer is the result word.
    pub open spec fn spec_is_query(self) -> bool {
        match self {
            Request::RunningOnValgrind
            | Request::CountErrors
            | Request::GetValgrindThreadId
            | Request::GetDrdThreadId => true,
            _ => false,
        }
    }

    /// The output locations of the operation: the addresses among its
    /// arguments through which the supervisor writes a word each. Only the
    /// leak-count queries have any.
    pub open spec fn spec_outputs(self) -> Seq<usize> {
        match self {
            Request::CountLeaks { leaked, dubious, reachable, suppressed }
            | Request::CountLeakBlocks { leaked, dubious, reachable, suppressed } => seq![
                leaked,
                dubious,
                reachable,
                suppressed,
            ],
            _ => seq![],
        }
    }

    /// Whether the operation only asks and takes no argument.
    pub fn is_query(&self) -> (q: bool)
        ensures
            q == self.spec_is_query(),
    {
        match self {
            Request::RunningOnValgrind
            | Request::CountErrors
            | Request::GetValgrindThreadId
            | Request::GetDrdThreadId => true,
            _ => false,
        }
    }

    /// The number of output locations among the arguments: four for the
    /// leak-count queries, none for every other operation.
    pub fn output_count(&self) -> (n: usize)
        ensures
            n == self.spec_outputs().len(),
            n == 0 || n == 4,
    {
        match self {
            Request::CountLeaks { .. } | Request::CountLeakBlocks { .. } => 4,
            _ => 0,
        }
    }

    /// The request code of the operation.
    pub fn code(&self) -> (c: usize)
        ensures
            c == self.spec_code(),
    {
        self.frame().code
    }

    /// The number of declared arguments.
    pub fn arity(&self) -> (k: usize)
        ensures
            k == self.spec_args().len(),
            k <= MAX_ARGS,
    {
        match self {
            Request::RunningOnValgrind
            | Request::CountErrors
            | Request::DumpStats
            | Request::ZeroStats
            | Request::ToggleCollect
            | Request::StartInstrumentation
            | Request::StopInstrumentation
            | Request::GetValgrindThreadId
            | Request::GetDrdThreadId => 0,
            Request::MonitorCommand { .. }
            | Request::DumpStatsAt { .. }
            | Request::AnnotateThreadName { .. }
            | Request::IgnoreReadsBegin
            | Request::IgnoreReadsEnd
            | Request::IgnoreWritesBegin
            | Request::IgnoreWritesEnd => 1,
            Request::MalloclikeBlock { .. }
            | Request::ResizeinplaceBlock { .. }
            | Request::CountLeaks { .. }
            | Request::CountLeakBlocks { .. } => 4,
            _ => 2,
        }
    }

    /// Builds the frame that the supervisor is handed for this operation.
    pub fn frame(&self) -> (f: Frame)
        ensures
            f == self.spec_frame(),
            f@.len() == 6,
            f@[0] == self.spec_code(),
            forall|i: int| 0 <= i < self.spec_args().len() ==> #[trigger] f@[i + 1] == self.spec_args()[i],
            f.zero_after(self.spec_args().len() as int),
    {
        proof {
            crate::frame::lemma_frame_layout(self.spec_code(), self.spec_args());
        }
        match *self {
            Request::RunningOnValgrind => Frame::nullary(codes::RUNNING_ON_VALGRIND),
            Request::CountErrors => Frame::nullary(codes::COUNT_ERRORS),
            Request::DiscardTranslations { addr, len } => Frame::binary(
                codes::DISCARD_TRANSLATIONS,
                addr,
                len,
            ),
            Request::MonitorCommand { text } => Frame::unary(codes::GDB_MONITOR_COMMAND, text),
            Request::MalloclikeBlock { addr, size, redzone, is_zeroed } => Frame::quaternary(
                codes::MALLOCLIKE_BLOCK,
                addr,
                size,
                redzone,
                bool_to_word(is_zeroed),
            ),
            Request::ResizeinplaceBlock { addr, old_size, new_size, redzone } => Frame::quaternary(
                codes::RESIZEINPLACE_BLOCK,
                addr,
                old_size,
                new_size,
                redzone,
            ),
            Request::FreelikeBlock { addr, redzone } => Frame::binary(
                codes::FREELIKE_BLOCK,
                addr,
                redzone,
            ),
            Request::MakeMemNoaccess { addr, len } => Frame::binary(
                codes::MAKE_MEM_NOACCESS,
                addr,
                len,
            ),
            Request::MakeMemUndefined { addr, len } => Frame::binary(
                codes::MAKE_MEM_UNDEFINED,
                addr,
                len,
            ),
            Request::MakeMemDefined { addr, len } => Frame::binary(
                codes::MAKE_MEM_DEFINED,
                addr,
                len,
            ),
            Request::MakeMemDefinedIfAddressable { addr, len } => Frame::binary(
                codes::MAKE_MEM_DEFINED_IF_ADDRESSABLE,
                addr,
                len,
            ),
            Request::CheckMemIsAddressable { addr, len } => Frame::binary(
                codes::CHECK_MEM_IS_ADDRESSABLE,
                addr,
                len,
            ),
            Request::CheckMemIsDefined { addr, len } => Frame::binary(
                codes::CHECK_MEM_IS_DEFINED,
                addr,
                len,
            ),
            Request::DoLeakCheck { kind } => {
                let (depth, scope) = kind.to_words();
                Frame::binary(codes::DO_LEAK_CHECK, depth, scope)
            },
            Request::CountLeaks { leaked, dubious, reachable, suppressed } => Frame::quaternary(
                codes::COUNT_LEAKS,
                leaked,
                dubious,
                reachable,
                suppressed,
            ),
            Request::CountLeakBlocks {
                leaked,
                dubious,
                reachable,
                suppressed,
            } => Frame::quaternary(codes::COUNT_LEAK_BLOCKS, leaked, dubious, reachable, suppressed),
            Request::DumpStats => Frame::nullary(codes::DUMP_STATS),
            Request::DumpStatsAt { text } => Frame::unary(codes::DUMP_STATS_AT, text),
            Request::ZeroStats => Frame::nullary(codes::ZERO_STATS),
            Request::ToggleCollect => Frame::nullary(codes::TOGGLE_COLLECT),
            Request::StartInstrumentation => Frame::nullary(codes::START_INSTRUMENTATION),
            Request::StopInstrumentation => Frame::nullary(codes::STOP_INSTRUMENTATION),
            Request::HgCleanMemory { addr, len } => Frame::binary(
                codes::HG_CLEAN_MEMORY,
                addr,
                len,
            ),
            Request::DrdCleanMemory { addr, len } => Frame::binary(
                codes::DRD_CLEAN_MEMORY,
                addr,
                len,
            ),
            Request::GetValgrindThreadId => Frame::nullary(codes::DRD_GET_VALGRIND_THREAD_ID),
            Request::GetDrdThreadId => Frame::nullary(codes::DRD_GET_DRD_THREAD_ID),
            Request::AnnotateBenignRace { addr, len } => Frame::binary(
                codes::DRD_START_SUPPRESSION,
                addr,
                len,
            ),
            Request::StopIgnoring { addr, len } => Frame::binary(
                codes::DRD_FINISH_SUPPRESSION,
                addr,
                len,
            ),
            Request::Trace { addr, len } => Frame::binary(codes::DRD_START_TRACE_ADDR, addr, len),
            Request::StopTracing { addr, len } => Frame::binary(
                codes::DRD_STOP_TRACE_ADDR,
                addr,
                len,
            ),
            Request::IgnoreReadsBegin => Frame::unary(codes::DRD_RECORD_LOADS, 0),
            Request::IgnoreReadsEnd => Frame::unary(codes::DRD_RECORD_LOADS, 1),
            Request::IgnoreWritesBegin => Frame::unary(codes::DRD_RECORD_STORES, 0),
            Request::IgnoreWritesEnd => Frame::unary(codes::DRD_RECORD_STORES, 1),
            Request::AnnotateThreadName { text } => Frame::unary(codes::DRD_SET_THREAD_NAME, text),
        }
    }

    /// How the operation's result word is read.
    pub fn result_kind(&self) -> (kind: ResultKind)
        ensures
            kind == self.spec_result_kind(),
    {
        match self {
            Request::RunningOnValgrind | Request::CountErrors => ResultKind::Count,
            Request::GetValgrindThreadId | Request::GetDrdThreadId => ResultKind::ThreadId,
            Request::CheckMemIsAddressable { .. }
            | Request::CheckMemIsDefined { .. } => ResultKind::OptionalAddress,
            _ => ResultKind::Unit,
        }
    }

    /// The word that the result is seeded with before the request is issued.
    pub fn default_word(&self) -> (word: usize)
        ensures
            word == DEFAULT_WORD,
    {
        DEFAULT_WORD
    }

    /// What the operation returns when no supervisor is attached: the default
    /// word comes back, and it reads as the zero or absent value of the
    /// operation's kind of result.
    pub fn unsupervised_reply(&self) -> (reply: Reply)
        ensures
            reply == spec_decode(self.spec_result_kind(), DEFAULT_WORD),
            reply == spec_default_reply(self.spec_result_kind()),
    {
        self.reply(self.default_word())
    }

    /// Reads the word that came back from issuing this operation.
    pub fn reply(&self, word: usize) -> (reply: Reply)
        ensures
            reply == spec_decode(self.spec_result_kind(), word),
    {
        decode(self.result_kind(), word)
    }
}

/// Without a supervisor every operation returns the zero or absent value of
/// its kind of result: the default word is what comes back, and it is read so.
pub proof fn lemma_unsupervised_default(req: Request)
    ensures
        spec_decode(req.spec_result_kind(), DEFAULT_WORD) == spec_default_reply(
            req.spec_result_kind(),
        ),
{
}

/// The frame of every operation holds its code, then its declared arguments,
/// of which there are at most five, and zero in every slot that is left.
pub proof fn lemma_request_padding(req: Request)
    ensures
        req.spec_args().len() <= MAX_ARGS,
        req.spec_frame()@.len() == 6,
        req.spec_frame()@[0] == req.spec_code(),
        forall|i: int|
            0 <= i < req.spec_args().len() ==> #[trigger] req.spec_frame()@[i + 1]
                == req.spec_args()[i],
        req.spec_frame().zero_after(req.spec_args().len() as int),
{
    crate::frame::lemma_frame_layout(req.spec_code(), req.spec_args());
}

/// A query takes no argument, so it hands the supervisor nothing to write
/// through, and what it returns is read from the result word alone: asked
/// twice and answered with the same word, it returns the same value.
pub proof fn lemma_query_repeatable(req: Request, first: usize, second: usize)
    requires
        req.spec_is_query(),
        first == second,
    ensures
        req.spec_args().len() == 0,
        req.spec_outputs().len() == 0,
        req.spec_result_kind() != ResultKind::Unit,
        spec_decode(req.spec_result_kind(), first) == spec_decode(req.spec_result_kind(), second),
{
}

/// A result word read as an optional address is absent exactly when the word
/// is zero, and otherwise carries the word.
pub proof fn lemma_optional_reply(word: usize)
    ensures
        word == 0 ==> spec_decode(ResultKind::OptionalAddress, word) == Reply::OptionalAddress(
            None,
        ),
        word != 0 ==> spec_decode(ResultKind::OptionalAddress, word) == Reply::OptionalAddress(
            Some(word),
        ),
{
}

} // verus!

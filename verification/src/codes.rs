//! Request codes. Their values belong to the supervisor's binary interface
//! and never change.

use vstd::prelude::*;

verus! {

/// The first request code of the tool whose two-letter tag is `a`, `b`: the
/// tag's bytes in the two upper bytes of a 32-bit word.
pub open spec fn spec_tool_base(a: u8, b: u8) -> usize {
    (a as int * 0x100_0000 + b as int * 0x1_0000) as usize
}

/// Computes the first request code of the tool tagged `a`, `b`.
pub fn tool_base(a: u8, b: u8) -> (base: usize)
    ensures
        base == spec_tool_base(a, b),
        base as int == a as int * 0x100_0000 + b as int * 0x1_0000,
        base % 0x1_0000 == 0,
{
    let hi: u32 = a as u32;
    let lo: u32 = b as u32;
    let word: u32 = hi * 0x100_0000 + lo * 0x1_0000;
    word as usize
}

// The supervisor core.
pub const RUNNING_ON_VALGRIND: usize = 0x1001;
pub const DISCARD_TRANSLATIONS: usize = 0x1002;
pub const COUNT_ERRORS: usize = 0x1201;
pub const GDB_MONITOR_COMMAND: usize = 0x1202;
pub const MALLOCLIKE_BLOCK: usize = 0x1301;
pub const FREELIKE_BLOCK: usize = 0x1302;
pub const RESIZEINPLACE_BLOCK: usize = 0x130b;

// The memory-error detector, tagged `MC`.
pub const MEMCHECK_BASE: usize = 0x4d43_0000;
pub const MAKE_MEM_NOACCESS: usize = 0x4d43_0000;
pub const MAKE_MEM_UNDEFINED: usize = 0x4d43_0001;
pub const MAKE_MEM_DEFINED: usize = 0x4d43_0002;
pub const CHECK_MEM_IS_ADDRESSABLE: usize = 0x4d43_0004;
pub const CHECK_MEM_IS_DEFINED: usize = 0x4d43_0005;
pub const DO_LEAK_CHECK: usize = 0x4d43_0006;
pub const COUNT_LEAKS: usize = 0x4d43_0007;
pub const MAKE_MEM_DEFINED_IF_ADDRESSABLE: usize = 0x4d43_000b;
pub const COUNT_LEAK_BLOCKS: usize = 0x4d43_000c;

// The profiler, tagged `CT`.
pub const CALLGRIND_BASE: usize = 0x4354_0000;
pub const DUMP_STATS: usize = 0x4354_0000;
pub const ZERO_STATS: usize = 0x4354_0001;
pub const TOGGLE_COLLECT: usize = 0x4354_0002;
pub const DUMP_STATS_AT: usize = 0x4354_0003;
pub const START_INSTRUMENTATION: usize = 0x4354_0004;
pub const STOP_INSTRUMENTATION: usize = 0x4354_0005;

// The first thread-error detector, tagged `HG`.
pub const HELGRIND_BASE: usize = 0x4847_0000;
pub const HG_CLEAN_MEMORY: usize = 0x4847_0000;

// The second thread-error detector, tagged `DR`. Its request to forget a
// range shares the first detector's code.
pub const DRD_BASE: usize = 0x4452_0000;
pub const DRD_CLEAN_MEMORY: usize = 0x4847_0000;
pub const DRD_GET_VALGRIND_THREAD_ID: usize = 0x4452_0000;
pub const DRD_GET_DRD_THREAD_ID: usize = 0x4452_0001;
pub const DRD_START_SUPPRESSION: usize = 0x4452_0002;
pub const DRD_FINISH_SUPPRESSION: usize = 0x4452_0003;
pub const DRD_START_TRACE_ADDR: usize = 0x4452_0004;
pub const DRD_STOP_TRACE_ADDR: usize = 0x4452_0005;
pub const DRD_RECORD_LOADS: usize = 0x4452_0006;
pub const DRD_RECORD_STORES: usize = 0x4452_0007;
pub const DRD_SET_THREAD_NAME: usize = 0x4452_0008;

/// The tool bases are the tags of their tools: `MC`, `CT`, `HG` and `DR`.
pub proof fn lemma_tool_bases()
    ensures
        MEMCHECK_BASE == spec_tool_base(0x4d, 0x43),
        CALLGRIND_BASE == spec_tool_base(0x43, 0x54),
        HELGRIND_BASE == spec_tool_base(0x48, 0x47),
        DRD_BASE == spec_tool_base(0x44, 0x52),
{
}

} // verus!

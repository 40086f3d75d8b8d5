use vgrs::codes;
use vgrs::frame::{Frame, FRAME_WORDS, MAX_ARGS};
use vgrs::leak::LeakCheck;
use vgrs::request::Request;

#[test]
fn frame_has_six_words_code_first() {
    let f = Frame::new(9, 1, 2, 3, 4, 5);
    assert_eq!(f.words(), [9, 1, 2, 3, 4, 5]);
    assert_eq!(f.words().len(), FRAME_WORDS);
    assert_eq!(MAX_ARGS + 1, FRAME_WORDS);
}

#[test]
fn each_arity_pads_with_zeros() {
    assert_eq!(Frame::nullary(7).words(), [7, 0, 0, 0, 0, 0]);
    assert_eq!(Frame::unary(7, 11).words(), [7, 11, 0, 0, 0, 0]);
    assert_eq!(Frame::binary(7, 11, 12).words(), [7, 11, 12, 0, 0, 0]);
    assert_eq!(Frame::ternary(7, 11, 12, 13).words(), [7, 11, 12, 13, 0, 0]);
    assert_eq!(Frame::quaternary(7, 11, 12, 13, 14).words(), [7, 11, 12, 13, 14, 0]);
    assert_eq!(Frame::new(7, 11, 12, 13, 14, 15).words(), [7, 11, 12, 13, 14, 15]);
}

#[test]
fn padded_takes_up_to_five_arguments() {
    let args = [21usize, 22, 23, 24, 25, 26];
    for k in 0..=5usize {
        let f = Frame::padded(3, &args[..k]).unwrap();
        let w = f.words();
        assert_eq!(w[0], 3);
        for i in 0..5usize {
            let want = if i < k { args[i] } else { 0 };
            assert_eq!(w[i + 1], want);
        }
        assert_eq!(f.used_slots(), k);
    }
    assert_eq!(Frame::padded(3, &args), None);
}

#[test]
fn padded_agrees_with_the_arity_constructors() {
    assert_eq!(Frame::padded(5, &[]), Some(Frame::nullary(5)));
    assert_eq!(Frame::padded(5, &[1]), Some(Frame::unary(5, 1)));
    assert_eq!(Frame::padded(5, &[1, 2]), Some(Frame::binary(5, 1, 2)));
    assert_eq!(Frame::padded(5, &[1, 2, 3]), Some(Frame::ternary(5, 1, 2, 3)));
    assert_eq!(Frame::padded(5, &[1, 2, 3, 4]), Some(Frame::quaternary(5, 1, 2, 3, 4)));
    assert_eq!(Frame::padded(5, &[1, 2, 3, 4, 5]), Some(Frame::new(5, 1, 2, 3, 4, 5)));
}

#[test]
fn used_slots_finds_the_last_nonzero_slot() {
    assert_eq!(Frame::nullary(1).used_slots(), 0);
    assert_eq!(Frame::new(1, 0, 0, 4, 0, 0).used_slots(), 3);
    assert_eq!(Frame::new(1, 0, 0, 0, 0, 9).used_slots(), 5);
    assert_eq!(Frame::binary(1, 8, 0).used_slots(), 1);
}

#[test]
fn request_codes_have_their_fixed_values() {
    assert_eq!(codes::RUNNING_ON_VALGRIND, 0x1001);
    assert_eq!(codes::DISCARD_TRANSLATIONS, 0x1002);
    assert_eq!(codes::COUNT_ERRORS, 0x1201);
    assert_eq!(codes::GDB_MONITOR_COMMAND, 0x1202);
    assert_eq!(codes::MALLOCLIKE_BLOCK, 0x1301);
    assert_eq!(codes::FREELIKE_BLOCK, 0x1302);
    assert_eq!(codes::RESIZEINPLACE_BLOCK, 0x130b);
    assert_eq!(codes::MAKE_MEM_NOACCESS, 0x4d43_0000);
    assert_eq!(codes::CHECK_MEM_IS_ADDRESSABLE, 0x4d43_0004);
    assert_eq!(codes::DO_LEAK_CHECK, 0x4d43_0006);
    assert_eq!(codes::COUNT_LEAKS, 0x4d43_0007);
    assert_eq!(codes::MAKE_MEM_DEFINED_IF_ADDRESSABLE, 0x4d43_000b);
    assert_eq!(codes::COUNT_LEAK_BLOCKS, 0x4d43_000c);
    assert_eq!(codes::DUMP_STATS_AT, 0x4354_0003);
    assert_eq!(codes::STOP_INSTRUMENTATION, 0x4354_0005);
    assert_eq!(codes::HG_CLEAN_MEMORY, 0x4847_0000);
    assert_eq!(codes::DRD_CLEAN_MEMORY, codes::HG_CLEAN_MEMORY);
    assert_eq!(codes::DRD_SET_THREAD_NAME, 0x4452_0008);
}

#[test]
fn tool_bases_are_the_tool_tags() {
    assert_eq!(codes::tool_base(b'M', b'C'), codes::MEMCHECK_BASE);
    assert_eq!(codes::tool_base(b'C', b'T'), codes::CALLGRIND_BASE);
    assert_eq!(codes::tool_base(b'H', b'G'), codes::HELGRIND_BASE);
    assert_eq!(codes::tool_base(b'D', b'R'), codes::DRD_BASE);
    assert_eq!(codes::tool_base(0, 0), 0);
    assert_eq!(codes::tool_base(0xff, 0xff), 0xffff_0000);
    assert_eq!(codes::tool_base(1, 2), 0x0102_0000);
}

#[test]
fn query_frames_carry_no_argument() {
    assert_eq!(Request::RunningOnValgrind.frame().words(), [0x1001, 0, 0, 0, 0, 0]);
    assert_eq!(Request::CountErrors.frame().words(), [0x1201, 0, 0, 0, 0, 0]);
    assert_eq!(Request::GetValgrindThreadId.frame().words(), [0x4452_0000, 0, 0, 0, 0, 0]);
    assert_eq!(Request::GetDrdThreadId.frame().words(), [0x4452_0001, 0, 0, 0, 0, 0]);
    assert_eq!(Request::CountErrors.arity(), 0);
}

#[test]
fn range_requests_carry_address_and_length() {
    let cases = [
        (Request::DiscardTranslations { addr: 64, len: 8 }, 0x1002usize),
        (Request::MakeMemNoaccess { addr: 64, len: 8 }, 0x4d43_0000),
        (Request::MakeMemUndefined { addr: 64, len: 8 }, 0x4d43_0001),
        (Request::MakeMemDefined { addr: 64, len: 8 }, 0x4d43_0002),
        (Request::MakeMemDefinedIfAddressable { addr: 64, len: 8 }, 0x4d43_000b),
        (Request::CheckMemIsAddressable { addr: 64, len: 8 }, 0x4d43_0004),
        (Request::CheckMemIsDefined { addr: 64, len: 8 }, 0x4d43_0005),
        (Request::HgCleanMemory { addr: 64, len: 8 }, 0x4847_0000),
        (Request::DrdCleanMemory { addr: 64, len: 8 }, 0x4847_0000),
        (Request::AnnotateBenignRace { addr: 64, len: 8 }, 0x4452_0002),
        (Request::StopIgnoring { addr: 64, len: 8 }, 0x4452_0003),
        (Request::Trace { addr: 64, len: 8 }, 0x4452_0004),
        (Request::StopTracing { addr: 64, len: 8 }, 0x4452_0005),
    ];
    for (req, code) in cases {
        assert_eq!(req.frame().words(), [code, 64, 8, 0, 0, 0]);
        assert_eq!(req.code(), code);
        assert_eq!(req.arity(), 2);
    }
}

#[test]
fn block_requests_carry_their_arguments_in_order() {
    let m = Request::MalloclikeBlock { addr: 100, size: 42, redzone: 16, is_zeroed: true };
    assert_eq!(m.frame().words(), [0x1301, 100, 42, 16, 1, 0]);
    let m = Request::MalloclikeBlock { addr: 100, size: 42, redzone: 16, is_zeroed: false };
    assert_eq!(m.frame().words(), [0x1301, 100, 42, 16, 0, 0]);
    let r = Request::ResizeinplaceBlock { addr: 100, old_size: 42, new_size: 50, redzone: 16 };
    assert_eq!(r.frame().words(), [0x130b, 100, 42, 50, 16, 0]);
    assert_eq!(r.arity(), 4);
    let f = Request::FreelikeBlock { addr: 100, redzone: 16 };
    assert_eq!(f.frame().words(), [0x1302, 100, 16, 0, 0, 0]);
}

#[test]
fn leak_checks_differ_in_two_constants() {
    let code = 0x4d43_0006usize;
    assert_eq!(Request::DoLeakCheck { kind: LeakCheck::Full }.frame().words(), [code, 0, 0, 0, 0, 0]);
    assert_eq!(Request::DoLeakCheck { kind: LeakCheck::Added }.frame().words(), [code, 0, 1, 0, 0, 0]);
    assert_eq!(
        Request::DoLeakCheck { kind: LeakCheck::Changed }.frame().words(),
        [code, 0, 2, 0, 0, 0]
    );
    assert_eq!(Request::DoLeakCheck { kind: LeakCheck::Quick }.frame().words(), [code, 1, 0, 0, 0, 0]);
}

#[test]
fn leak_counts_pass_four_output_locations() {
    let c = Request::CountLeaks { leaked: 8, dubious: 16, reachable: 24, suppressed: 32 };
    assert_eq!(c.frame().words(), [0x4d43_0007, 8, 16, 24, 32, 0]);
    let b = Request::CountLeakBlocks { leaked: 8, dubious: 16, reachable: 24, suppressed: 32 };
    assert_eq!(b.frame().words(), [0x4d43_000c, 8, 16, 24, 32, 0]);
}

#[test]
fn profiler_and_text_requests() {
    assert_eq!(Request::DumpStats.frame().words(), [0x4354_0000, 0, 0, 0, 0, 0]);
    assert_eq!(Request::ZeroStats.frame().words(), [0x4354_0001, 0, 0, 0, 0, 0]);
    assert_eq!(Request::ToggleCollect.frame().words(), [0x4354_0002, 0, 0, 0, 0, 0]);
    assert_eq!(Request::DumpStatsAt { text: 4096 }.frame().words(), [0x4354_0003, 4096, 0, 0, 0, 0]);
    assert_eq!(Request::StartInstrumentation.frame().words(), [0x4354_0004, 0, 0, 0, 0, 0]);
    assert_eq!(Request::StopInstrumentation.frame().words(), [0x4354_0005, 0, 0, 0, 0, 0]);
    assert_eq!(Request::MonitorCommand { text: 4096 }.frame().words(), [0x1202, 4096, 0, 0, 0, 0]);
    assert_eq!(
        Request::AnnotateThreadName { text: 4096 }.frame().words(),
        [0x4452_0008, 4096, 0, 0, 0, 0]
    );
    assert_eq!(Request::MonitorCommand { text: 4096 }.arity(), 1);
}

#[test]
fn recording_toggles_carry_one_constant() {
    assert_eq!(Request::IgnoreReadsBegin.frame().words(), [0x4452_0006, 0, 0, 0, 0, 0]);
    assert_eq!(Request::IgnoreReadsEnd.frame().words(), [0x4452_0006, 1, 0, 0, 0, 0]);
    assert_eq!(Request::IgnoreWritesBegin.frame().words(), [0x4452_0007, 0, 0, 0, 0, 0]);
    assert_eq!(Request::IgnoreWritesEnd.frame().words(), [0x4452_0007, 1, 0, 0, 0, 0]);
    assert_eq!(Request::IgnoreReadsBegin.arity(), 1);
}

#[test]
fn unused_slots_are_zero_for_every_operation() {
    let all = [
        Request::RunningOnValgrind,
        Request::CountErrors,
        Request::DiscardTranslations { addr: 7, len: 7 },
        Request::MonitorCommand { text: 7 },
        Request::MalloclikeBlock { addr: 7, size: 7, redzone: 7, is_zeroed: true },
        Request::ResizeinplaceBlock { addr: 7, old_size: 7, new_size: 7, redzone: 7 },
        Request::FreelikeBlock { addr: 7, redzone: 7 },
        Request::MakeMemNoaccess { addr: 7, len: 7 },
        Request::CheckMemIsDefined { addr: 7, len: 7 },
        Request::DoLeakCheck { kind: LeakCheck::Quick },
        Request::CountLeaks { leaked: 7, dubious: 7, reachable: 7, suppressed: 7 },
        Request::DumpStats,
        Request::DumpStatsAt { text: 7 },
        Request::HgCleanMemory { addr: 7, len: 7 },
        Request::GetDrdThreadId,
        Request::Trace { addr: 7, len: 7 },
        Request::IgnoreWritesEnd,
        Request::AnnotateThreadName { text: 7 },
    ];
    for req in all {
        let w = req.frame().words();
        let k = req.arity();
        assert!(k <= 5);
        assert_eq!(w[0], req.code());
        for i in (k + 1)..6 {
            assert_eq!(w[i], 0);
        }
        assert_eq!(req.default_word(), 0);
    }
}

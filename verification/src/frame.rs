//! The six-word request frame that is handed to the supervisor by address.

use vstd::prelude::*;

verus! {

/// Number of argument slots in a frame.
pub const MAX_ARGS: usize = 5;

/// Number of words in a frame: the request code and the argument slots.
pub const FRAME_WORDS: usize = 6;

/// One request as the supervisor reads it: the request code, then five
/// argument words. Slots that a request does not use hold zero.
#[derive(Clone, Copy, Debug, PartialEq, Eq, Structural)]
pub struct Frame {
    pub code: usize,
    pub arg1: usize,
    pub arg2: usize,
    pub arg3: usize,
    pub arg4: usize,
    pub arg5: usize,
}

impl View for Frame {
    type V = Seq<usize>;

    /// The frame as the sequence of its six words, in the order in which they
    /// lie in memory.
    open spec fn view(&self) -> Seq<usize> {
        seq![self.code, self.arg1, self.arg2, self.arg3, self.arg4, self.arg5]
    }
}

/// The word in argument slot `i` (counted from zero) of a frame whose declared
/// arguments are `args`: the argument where one is declared, zero after them.
pub open spec fn slot(args: Seq<usize>, i: int) -> usize {
    if 0 <= i < args.len() {
        args[i]
    } else {
        0
    }
}

impl Frame {
    /// The frame of the request `code` with the declared arguments `args`,
    /// padded with zeros to five argument slots.
    pub open spec fn of(code: usize, args: Seq<usize>) -> Frame
        recommends
            args.len() <= MAX_ARGS,
    {
        Frame {
            code,
            arg1: slot(args, 0),
            arg2: slot(args, 1),
            arg3: slot(args, 2),
            arg4: slot(args, 3),
            arg5: slot(args, 4),
        }
    }

    /// Every argument slot after the first `used` ones holds zero.
    pub open spec fn zero_after(self, used: int) -> bool {
        forall|i: int| used < i <= MAX_ARGS ==> #[trigger] self@[i] == 0
    }

    /// A frame from its six words, none of them implied.
    pub fn new(code: usize, arg1: usize, arg2: usize, arg3: usize, arg4: usize, arg5: usize) -> (f:
        Frame)
        ensures
            f@ == seq![code, arg1, arg2, arg3, arg4, arg5],
            f == Frame::of(code, seq![arg1, arg2, arg3, arg4, arg5]),
    {
        Frame { code, arg1, arg2, arg3, arg4, arg5 }
    }

    /// The frame of a request without arguments.
    pub fn nullary(code: usize) -> (f: Frame)
        ensures
            f == Frame::of(code, seq![]),
            f@ == seq![code, 0usize, 0usize, 0usize, 0usize, 0usize],
    {
        Frame { code, arg1: 0, arg2: 0, arg3: 0, arg4: 0, arg5: 0 }
    }

    /// The frame of a request with one argument.
    pub fn unary(code: usize, arg1: usize) -> (f: Frame)
        ensures
            f == Frame::of(code, seq![arg1]),
            f@ == seq![code, arg1, 0usize, 0usize, 0usize, 0usize],
    {
        Frame { code, arg1, arg2: 0, arg3: 0, arg4: 0, arg5: 0 }
    }

    /// The frame of a request with two arguments.
    pub fn binary(code: usize, arg1: usize, arg2: usize) -> (f: Frame)
        ensures
            f == Frame::of(code, seq![arg1, arg2]),
            f@ == seq![code, arg1, arg2, 0usize, 0usize, 0usize],
    {
        Frame { code, arg1, arg2, arg3: 0, arg4: 0, arg5: 0 }
    }

    /// The frame of a request with three arguments.
    pub fn ternary(code: usize, arg1: usize, arg2: usize, arg3: usize) -> (f: Frame)
        ensures
            f == Frame::of(code, seq![arg1, arg2, arg3]),
            f@ == seq![code, arg1, arg2, arg3, 0usize, 0usize],
    {
        Frame { code, arg1, arg2, arg3, arg4: 0, arg5: 0 }
    }

    /// The frame of a request with four arguments.
    pub fn quaternary(code: usize, arg1: usize, arg2: usize, arg3: usize, arg4: usize) -> (f:
        Frame)
        ensures
            f == Frame::of(code, seq![arg1, arg2, arg3, arg4]),
            f@ == seq![code, arg1, arg2, arg3, arg4, 0usize],
    {
        Frame { code, arg1, arg2, arg3, arg4, arg5: 0 }
    }

    /// The frame of `code` with the arguments in `args`, zero-padded; `None`
    /// when `args` holds more words than a frame has argument slots.
    pub fn padded(code: usize, args: &[usize]) -> (r: Option<Frame>)
        ensures
            args@.len() <= MAX_ARGS ==> r == Some(Frame::of(code, args@)),
            args@.len() > MAX_ARGS ==> r is None,
    {
        let n: usize = args.len();
        if n > MAX_ARGS {
            return None;
        }
        let arg1: usize = if n > 0 { args[0] } else { 0 };
        let arg2: usize = if n > 1 { args[1] } else { 0 };
        let arg3: usize = if n > 2 { args[2] } else { 0 };
        let arg4: usize = if n > 3 { args[3] } else { 0 };
        let arg5: usize = if n > 4 { args[4] } else { 0 };
        Some(Frame { code, arg1, arg2, arg3, arg4, arg5 })
    }

    /// Lays the words out in the order in which the supervisor reads them.
    pub fn words(&self) -> (w: [usize; 6])
        ensures
            w@ == self@,
    {
        let w: [usize; 6] = [self.code, self.arg1, self.arg2, self.arg3, self.arg4, self.arg5];
        proof {
            assert(w@ =~= self@);
        }
        w
    }

    /// The number of leading argument slots after which every slot is zero:
    /// the least arity that this frame can have been declared with.
    pub fn used_slots(&self) -> (k: usize)
        ensures
            k <= MAX_ARGS,
            self.zero_after(k as int),
            k > 0 ==> self@[k as int] != 0,
    {
        if self.arg5 != 0 {
            5
        } else if self.arg4 != 0 {
            4
        } else if self.arg3 != 0 {
            3
        } else if self.arg2 != 0 {
            2
        } else if self.arg1 != 0 {
            1
        } else {
            0
        }
    }
}

/// A frame built for `k` declared arguments has six words: the request code,
/// the `k` arguments in their order, and zero in every slot after them.
pub proof fn lemma_frame_layout(code: usize, args: Seq<usize>)
    requires
        args.len() <= MAX_ARGS,
    ensures
        Frame::of(code, args)@.len() == FRAME_WORDS,
        Frame::of(code, args)@[0] == code,
        forall|i: int| 0 <= i < args.len() ==> #[trigger] Frame::of(code, args)@[i + 1] == args[i],
        Frame::of(code, args).zero_after(args.len() as int),
{
    let f = Frame::of(code, args);
    assert forall|i: int| 0 <= i < args.len() implies #[trigger] f@[i + 1] == args[i] by {
        assert(f@[i + 1] == slot(args, i));
    }
    assert forall|i: int| args.len() < i <= MAX_ARGS implies #[trigger] f@[i] == 0 by {
        assert(f@[i] == slot(args, i - 1));
    }
}

} // verus!

//! Resizing a block: the conversation between an allocator and its heap.
//!
//! A resize first asks the heap to resize the block where it lies. The heap
//! answers with the same block on success and with null (0) on failure. On
//! failure a fresh block is asked for; when there is one, the old contents are
//! moved into it and the old block is released; when there is none, the old
//! block stays as it is and the resize answers null.
//!
//! Addresses are plain `usize` values here, 0 standing for null. The heap's work
//! is done by the caller, which performs each [`HeapCall`] and hands back the
//! heap's answer.
use vstd::prelude::*;
use crate::heap::HeapCall;

verus! {

/// One step of a resize: either a call for the caller to make, or the end,
/// with the block that the resize hands back (0: the resize failed).
#[derive(Clone, Copy, Debug, PartialEq, Eq, Structural)]
pub enum ResizeStep {
    Call(HeapCall),
    Finish(usize),
}

/// A resize request: the block and its size, the alignment it was made with,
/// and the size wanted.
#[derive(Clone, Copy, Debug, PartialEq, Eq, Structural)]
pub struct ResizeRequest {
    pub block: usize,
    pub old_size: usize,
    pub align: usize,
    pub new_size: usize,
}

/// Where a resize stands: which answer it waits for, or that it is over.
#[derive(Clone, Copy, Debug, PartialEq, Eq, Structural)]
pub enum ResizePhase {
    /// Waiting for the answer to the in-place resize.
    AwaitingInPlace,
    /// Waiting for the answer to the allocation of a fresh block.
    AwaitingFresh,
    /// Waiting for the move into `fresh` to be done.
    AwaitingMove { fresh: usize },
    /// The resize has finished.
    Over,
}

/// The number of bytes that survive a resize: the lesser of the two sizes.
pub open spec fn kept_len(request: ResizeRequest) -> usize {
    if request.old_size <= request.new_size {
        request.old_size
    } else {
        request.new_size
    }
}

/// The answers the heap may give in `phase`: the in-place resize gives back the
/// block or null; the other calls may give anything.
pub open spec fn admissible(request: ResizeRequest, phase: ResizePhase, answer: usize) -> bool {
    phase is AwaitingInPlace ==> (answer == request.block || answer == 0)
}

/// The next phase and step of a resize in `phase`, once the heap has answered `answer`.
pub open spec fn next(request: ResizeRequest, phase: ResizePhase, answer: usize) -> (
    ResizePhase,
    ResizeStep,
) {
    match phase {
        ResizePhase::AwaitingInPlace => if answer == request.block {
            (ResizePhase::Over, ResizeStep::Finish(request.block))
        } else {
            (
                ResizePhase::AwaitingFresh,
                ResizeStep::Call(
                    HeapCall::Allocate { align: request.align, size: request.new_size },
                ),
            )
        },
        ResizePhase::AwaitingFresh => if answer == 0 {
            (ResizePhase::Over, ResizeStep::Finish(0))
        } else {
            (
                ResizePhase::AwaitingMove { fresh: answer },
                ResizeStep::Call(
                    HeapCall::MoveAndRelease {
                        from: request.block,
                        to: answer,
                        len: kept_len(request),
                    },
                ),
            )
        },
        ResizePhase::AwaitingMove { fresh } => (ResizePhase::Over, ResizeStep::Finish(fresh)),
        ResizePhase::Over => (ResizePhase::Over, ResizeStep::Finish(0)),
    }
}

/// The call a resize opens with.
pub open spec fn opening(request: ResizeRequest) -> HeapCall {
    HeapCall::ResizeInPlace { block: request.block, new_size: request.new_size }
}

/// The whole conversation of a resize, step by step, when the heap answers the
/// in-place resize with `in_place` and the allocation (if it comes to that) with
/// `fresh`.
pub open spec fn conversation(request: ResizeRequest, in_place: usize, fresh: usize) -> Seq<
    ResizeStep,
> {
    let first = next(request, ResizePhase::AwaitingInPlace, in_place);
    let second = next(request, first.0, fresh);
    let third = next(request, second.0, 0);
    if first.0 is Over {
        seq![ResizeStep::Call(opening(request)), first.1]
    } else if second.0 is Over {
        seq![ResizeStep::Call(opening(request)), first.1, second.1]
    } else {
        seq![ResizeStep::Call(opening(request)), first.1, second.1, third.1]
    }
}

/// The block a conversation ends with.
pub open spec fn result_of(steps: Seq<ResizeStep>) -> usize {
    match steps.last() {
        ResizeStep::Finish(block) => block,
        ResizeStep::Call(_) => 0,
    }
}

/// The step releases `block`.
pub open spec fn releases_block(step: ResizeStep, block: usize) -> bool {
    match step {
        ResizeStep::Call(HeapCall::MoveAndRelease { from, .. }) => from == block,
        _ => false,
    }
}

/// The conversation releases `block`.
pub open spec fn releases(steps: Seq<ResizeStep>, block: usize) -> bool {
    exists|i: int| 0 <= i < steps.len() && #[trigger] releases_block(steps[i], block)
}

/// A resize in progress.
pub struct Resize {
    request: ResizeRequest,
    phase: ResizePhase,
}

impl Resize {
    /// The request being served.
    pub closed spec fn request(&self) -> ResizeRequest {
        self.request
    }

    /// Where the resize stands.
    pub closed spec fn phase(&self) -> ResizePhase {
        self.phase
    }

    /// Opens a resize of `request`: the first call is always the in-place resize.
    pub fn start(request: ResizeRequest) -> (r: (Resize, HeapCall))
        ensures
            r.0.request() == request,
            r.0.phase() == ResizePhase::AwaitingInPlace,
            r.1 == opening(request),
    {
        (
            Resize { request, phase: ResizePhase::AwaitingInPlace },
            HeapCall::ResizeInPlace { block: request.block, new_size: request.new_size },
        )
    }

    /// The resize is over.
    pub fn is_over(&self) -> (r: bool)
        ensures
            r == (self.phase() is Over),
    {
        match self.phase {
            ResizePhase::Over => true,
            _ => false,
        }
    }

    /// Hands the resize the heap's answer to its last call and gets the next step.
    /// The answer to a move is not read.
    pub fn answer(&mut self, answer: usize) -> (step: ResizeStep)
        requires
            !(old(self).phase() is Over),
            admissible(old(self).request(), old(self).phase(), answer),
        ensures
            final(self).request() == old(self).request(),
            (final(self).phase(), step) == next(old(self).request(), old(self).phase(), answer),
            step matches ResizeStep::Call(HeapCall::MoveAndRelease { from, to, len }) ==> {
                &&& from == old(self).request().block
                &&& to == answer
                &&& old(self).request().old_size <= old(self).request().new_size ==> len
                    == old(self).request().old_size
                &&& old(self).request().new_size < old(self).request().old_size ==> len
                    == old(self).request().new_size
            },
    {
        let request = self.request;
        match self.phase {
            ResizePhase::AwaitingInPlace => {
                if answer == request.block {
                    self.phase = ResizePhase::Over;
                    ResizeStep::Finish(request.block)
                } else {
                    self.phase = ResizePhase::AwaitingFresh;
                    ResizeStep::Call(
                        HeapCall::Allocate { align: request.align, size: request.new_size },
                    )
                }
            },
            ResizePhase::AwaitingFresh => {
                if answer == 0 {
                    self.phase = ResizePhase::Over;
                    ResizeStep::Finish(0)
                } else {
                    let len = if request.old_size <= request.new_size {
                        request.old_size
                    } else {
                        request.new_size
                    };
                    self.phase = ResizePhase::AwaitingMove { fresh: answer };
                    ResizeStep::Call(HeapCall::MoveAndRelease { from: request.block, to: answer, len })
                }
            },
            ResizePhase::AwaitingMove { fresh } => {
                self.phase = ResizePhase::Over;
                ResizeStep::Finish(fresh)
            },
            ResizePhase::Over => ResizeStep::Finish(0),
        }
    }
}

/// Driving a resize with the heap's answers produces exactly its conversation:
/// the opening call, then the step that each answer brings, until it finishes.
pub proof fn lemma_steps_follow_conversation(request: ResizeRequest, in_place: usize, fresh: usize)
    requires
        in_place == request.block || in_place == 0,
    ensures
        ({
            let steps = conversation(request, in_place, fresh);
            let first = next(request, ResizePhase::AwaitingInPlace, in_place);
            let second = next(request, first.0, fresh);
            &&& steps[0] == ResizeStep::Call(opening(request))
            &&& steps[1] == first.1
            &&& (!(first.0 is Over) ==> steps[2] == second.1 && admissible(request, first.0, fresh))
            &&& (!(first.0 is Over) && !(second.0 is Over) ==> steps[3] == next(
                request,
                second.0,
                0,
            ).1)
            &&& steps.last() is Finish
            &&& 2 <= steps.len() <= 4
        }),
{
}

/// When the heap resizes the block in place, the resize hands back the same block
/// and neither moves nor releases anything.
pub proof fn lemma_in_place_keeps_block(request: ResizeRequest, fresh: usize)
    ensures
        conversation(request, request.block, fresh) == seq![
            ResizeStep::Call(opening(request)),
            ResizeStep::Finish(request.block),
        ],
        result_of(conversation(request, request.block, fresh)) == request.block,
        !releases(conversation(request, request.block, fresh), request.block),
{
    let steps = conversation(request, request.block, fresh);
    assert(steps.len() == 2);
    assert forall|i: int| 0 <= i < steps.len() implies !#[trigger] releases_block(steps[i], request.block) by {
    }
}

/// When the block cannot be resized in place and no fresh block can be had, the
/// resize answers null and leaves the old block untouched: nothing is released.
pub proof fn lemma_no_memory_keeps_old_block(request: ResizeRequest)
    requires
        request.block != 0,
    ensures
        result_of(conversation(request, 0, 0)) == 0,
        !releases(conversation(request, 0, 0), request.block),
        conversation(request, 0, 0) == seq![
            ResizeStep::Call(opening(request)),
            ResizeStep::Call(HeapCall::Allocate { align: request.align, size: request.new_size }),
            ResizeStep::Finish(0),
        ],
{
    let steps = conversation(request, 0, 0);
    assert(steps.len() == 3);
    assert forall|i: int| 0 <= i < steps.len() implies !#[trigger] releases_block(steps[i], request.block) by {
    }
}

/// When the block moves, the fresh block is asked for with the request's alignment
/// and new size, the lesser of the two sizes is copied from the old block into the
/// fresh one, the old block is released, and the fresh block is handed back.
pub proof fn lemma_move_copies_then_releases(request: ResizeRequest, fresh: usize)
    requires
        request.block != 0,
        fresh != 0,
    ensures
        conversation(request, 0, fresh) == seq![
            ResizeStep::Call(opening(request)),
            ResizeStep::Call(HeapCall::Allocate { align: request.align, size: request.new_size }),
            ResizeStep::Call(
                HeapCall::MoveAndRelease { from: request.block, to: fresh, len: kept_len(request) },
            ),
            ResizeStep::Finish(fresh),
        ],
        result_of(conversation(request, 0, fresh)) == fresh,
        releases(conversation(request, 0, fresh), request.block),
        kept_len(request) <= request.old_size,
        kept_len(request) <= request.new_size,
{
    let steps = conversation(request, 0, fresh);
    assert(releases_block(steps[2], request.block));
}

/// When a block moves, every byte that survives the resize is copied: the move
/// copies the whole old block when the block grows (or keeps its size), and the
/// whole new size when it shrinks, from the old block into the fresh one, and
/// nothing is released before that copy.
pub proof fn lemma_move_copies_all_kept_bytes(request: ResizeRequest, fresh: usize)
    requires
        request.block != 0,
        fresh != 0,
    ensures
        conversation(request, 0, fresh).len() == 4,
        conversation(request, 0, fresh)[2] matches ResizeStep::Call(
            HeapCall::MoveAndRelease { from, to, len },
        ) ==> from == request.block && to == fresh && (request.old_size <= request.new_size ==> len
            == request.old_size) && (request.new_size < request.old_size ==> len
            == request.new_size),
        conversation(request, 0, fresh)[2] matches ResizeStep::Call(
            HeapCall::MoveAndRelease { .. },
        ),
        !releases_block(conversation(request, 0, fresh)[0], request.block),
        !releases_block(conversation(request, 0, fresh)[1], request.block),
{
}

/// Whatever the heap answers, a resize releases the old block exactly when it hands
/// back a block that is neither null nor the old block: it never loses the old
/// contents without handing over new ones.
pub proof fn lemma_release_iff_moved(request: ResizeRequest, in_place: usize, fresh: usize)
    requires
        request.block != 0,
        in_place == request.block || in_place == 0,
        fresh != request.block,
    ensures
        releases(conversation(request, in_place, fresh), request.block) <==> (result_of(
            conversation(request, in_place, fresh),
        ) != 0 && result_of(conversation(request, in_place, fresh)) != request.block),
        result_of(conversation(request, in_place, fresh)) == request.block || result_of(
            conversation(request, in_place, fresh),
        ) == 0 || result_of(conversation(request, in_place, fresh)) == fresh,
{
    if in_place == request.block {
        lemma_in_place_keeps_block(request, fresh);
    } else if fresh == 0 {
        lemma_no_memory_keeps_old_block(request);
    } else {
        lemma_move_copies_then_releases(request, fresh);
    }
}

} // verus!

use vstd::prelude::*;

use crate::backend::code_buffer::CodeBuffer;
use crate::backend::codegen::X86_64CodeGen;
use crate::backend::liveness::liveness_analysis;
use crate::backend::regalloc::{advanced, regalloc_and_codegen, RegAllocError};
use crate::context::Context;

verus! {

/// The translation pipeline: liveness analysis, then register allocation
/// and code generation. Returns the offset where the block's code starts
/// and the jump and reset offsets of its `goto_tb`s.
pub fn translate(ctx: &mut Context, backend: &X86_64CodeGen, buf: &mut CodeBuffer) -> (r: Result<
    (usize, Vec<(usize, usize)>),
    RegAllocError,
>)
    requires
        old(ctx).wf(),
        old(buf).wf(),
    ensures
        final(ctx).wf(),
        final(ctx).ops_view().len() == old(ctx).ops_view().len(),
        advanced(final(buf), old(buf)),
        r matches Ok(p) ==> p.0 == old(buf).offset,
        !crate::backend::regalloc::fixed_regs_ok(old(ctx)) ==> r == Err::<(usize, Vec<(usize, usize)>), RegAllocError>(
            RegAllocError::BadTemp,
        ),
        crate::backend::regalloc::uses_from(old(ctx).labels_view(), old(buf).offset as int)
            ==> crate::backend::regalloc::untouched_below(final(buf), old(buf), old(buf).offset as int),
        crate::backend::regalloc::fixed_regs_ok(old(ctx)) && crate::backend::regalloc::only_markers(old(ctx).ops_view()) ==> (r
            matches Ok(p) && p.1@.len() == 0) && *final(buf) == *old(buf),
{
    liveness_analysis(ctx);
    let tb_start = buf.offset();
    match regalloc_and_codegen(ctx, backend, buf) {
        Ok(g) => Ok((tb_start, g)),
        Err(e) => Err(e),
    }
}

} // verus!

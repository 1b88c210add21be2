pub mod code_buffer;
pub mod regs;
pub mod enc;
pub mod emitter;
pub mod codegen;
pub mod constraint;
pub mod constraints;
pub mod liveness;
pub mod fold;
pub mod optimize;
pub mod regalloc;
pub mod translate;

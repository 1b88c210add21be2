pub mod bytes;
pub mod text;
pub mod types;
pub mod opcode;
pub mod temp;
pub mod label;
pub mod op;
pub mod context;
pub mod ir_builder;
pub mod tb;
pub mod serialize;
pub mod dump;
pub mod decodetree;
pub mod backend;
pub mod exec;
pub mod linux_user;
pub mod frontend;
pub mod disas;

pub mod tb_store;
pub mod env;
pub mod exec_loop;

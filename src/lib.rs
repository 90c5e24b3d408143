pub mod address;
pub mod swap_router;
pub mod vault_program;

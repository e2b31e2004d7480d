pub mod state_store;

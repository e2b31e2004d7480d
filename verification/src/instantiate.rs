pub mod instantiate_contract;

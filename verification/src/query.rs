pub mod contract_state;

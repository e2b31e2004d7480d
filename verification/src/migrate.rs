pub mod migrate;

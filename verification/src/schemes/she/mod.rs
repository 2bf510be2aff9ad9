pub mod hope;

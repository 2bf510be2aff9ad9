pub mod she;

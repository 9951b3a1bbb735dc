pub mod simplified;

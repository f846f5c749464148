pub mod mock;

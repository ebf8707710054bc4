pub mod opus;

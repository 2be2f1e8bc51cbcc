pub mod fighter;
pub mod state;

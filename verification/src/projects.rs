pub mod state;
pub mod register_project_account;
pub mod update_project_account;
pub mod close_project_account;

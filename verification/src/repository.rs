pub mod clients;
pub mod todos;
pub mod work_lists;

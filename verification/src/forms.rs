pub mod todo;
pub mod work_list;

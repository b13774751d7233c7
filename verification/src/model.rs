pub mod todo;
pub mod todo_list;
pub mod work_list;

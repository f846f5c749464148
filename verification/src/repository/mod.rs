pub mod db_error;
pub mod mongodb_repo;

use vstd::prelude::*;

verus! {

/// The operation record returned when an instance is created; listing returns a sequence of them.
#[derive(Debug, Default, Clone)]
pub struct NewInstanceResponse {
    pub id: String,
    pub name: String,
    pub zone: String,
    pub operation_type: String,
    pub target_link: String,
    pub user: String,
    pub status: String,
    pub insert_time: String,
    pub self_link: String,
}

/// The operation record returned when an instance is started.
#[derive(Debug, Default, Clone)]
pub struct LaunchInstanceResponse {
    pub id: String,
    pub name: String,
    pub zone: String,
    pub operation_type: String,
    pub target_link: String,
    pub status: String,
    pub process: usize,
    pub start_time: String,
    pub end_time: String,
}

/// The operation record returned when an instance is stopped.
#[derive(Debug, Default, Clone)]
pub struct ShutdownInstanceResponse {
    pub id: String,
    pub name: String,
    pub zone: String,
    pub operation_type: String,
    pub target_link: String,
    pub status: String,
    pub process: usize,
    pub start_time: String,
    pub end_time: String,
}

/// The operation record returned when an instance is deleted.
#[derive(Debug, Default, Clone)]
pub struct DeleteInstanceResponse {
    pub id: String,
    pub name: String,
    pub zone: String,
    pub operation_type: String,
    pub target_link: String,
    pub status: String,
    pub process: usize,
    pub start_time: String,
    pub end_time: String,
}

} // verus!

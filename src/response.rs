use vstd::prelude::*;

verus! {

/// The status code of a successful response.
pub const CODE_SUCCESS: i32 = 200;

/// The status code of a failed response.
pub const CODE_ERROR: i32 = 400;

/// The message of a successful response.
pub const SUCCESS_MESSAGE: &'static str = "success";

/// A status code, a message and an optional payload, as the GUI layer
/// receives them.
#[derive(Debug)]
pub struct CommonResponse<T> {
    pub code: i32,
    pub msg: String,
    pub data: Option<T>,
}

impl<T> CommonResponse<T> {
    /// A successful response carrying `data`.
    pub fn success(data: T) -> (r: CommonResponse<T>)
        ensures
            r.code == CODE_SUCCESS,
            r.msg@ == SUCCESS_MESSAGE@,
            r.data == Some(data),
    {
        CommonResponse { code: CODE_SUCCESS, msg: String::from_str(SUCCESS_MESSAGE), data: Some(data) }
    }

    /// A failed response with message `msg` and no payload.
    pub fn error(msg: String) -> (r: CommonResponse<T>)
        ensures
            r.code == CODE_ERROR,
            r.msg == msg,
            r.data is None,
    {
        CommonResponse { code: CODE_ERROR, msg, data: None }
    }
}

/// One stored connection profile as the GUI lists it.
#[derive(Debug, Clone)]
pub struct ClusterResponse {
    pub id: String,
    pub servers: String,
    pub cluster_name: String,
    pub timeout: i32,
    pub ssl: bool,
    pub sasl: Option<String>,
    pub connected: bool,
}

/// One page of stored connection profiles.
#[derive(Debug, Default)]
pub struct ClusterListResponse {
    pub current: i32,
    pub limit: i32,
    pub total: u64,
    pub list: Vec<ClusterResponse>,
}

} // verus!

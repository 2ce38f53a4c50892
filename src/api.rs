use vstd::prelude::*;

verus! {

/// The envelope of every answer of the HTTP interface: the data on success,
/// an explanation on failure.
#[derive(Debug, Clone)]
pub struct ApiResponse<T> {
    pub success: bool,
    pub data: Option<T>,
    pub error: Option<String>,
}

impl<T> ApiResponse<T> {
    /// A successful answer carrying `data`.
    pub fn success(data: T) -> (r: ApiResponse<T>)
        ensures
            r.success,
            r.data == Some(data),
            r.error is None,
    {
        ApiResponse { success: true, data: Some(data), error: None }
    }

    /// A failed answer explained by `message`.
    pub fn error(message: String) -> (r: ApiResponse<T>)
        ensures
            !r.success,
            r.data is None,
            r.error == Some(message),
    {
        ApiResponse { success: false, data: None, error: Some(message) }
    }
}

/// A request to start an agent for a streamer.
#[derive(Debug, Clone)]
pub struct CreateAgentRequest {
    pub streamer: String,
    pub priority: Option<u8>,
}

impl CreateAgentRequest {
    /// The priority asked for; the highest (0) when none is given.
    pub fn priority_or_default(&self) -> (r: u8)
        ensures
            r == match self.priority {
                Some(p) => p,
                None => 0,
            },
    {
        match self.priority {
            Some(p) => p,
            None => 0,
        }
    }
}

} // verus!

//! The one protected resource the gateway fronts: a fixed list of yoga
//! poses, served only to a session that holds an access token.

use vstd::prelude::*;
use crate::session::TypedSession;

verus! {

/// One pose, as the API reports it.
pub struct PoseInfo {
    pub id: i32,
    pub name: String,
}

/// The response body of the pose listing.
pub struct PoseListResponse {
    pub poses: Vec<PoseInfo>,
}

/// Errors an API caller can see.
#[derive(Clone, Copy, Debug, PartialEq, Eq, Structural)]
pub enum ApiError {
    /// Expired or missing auth token.
    NotAuthenticated,
    /// Unknown network error.
    Unknown,
    /// Channel error.
    ChannelError,
    /// Http client error.
    ClientError,
}

/// Serves the pose list when the session is logged in (holds an access
/// token), and refuses with `NotAuthenticated` otherwise.
pub fn look_at_poses(session: &TypedSession) -> (r: Result<PoseListResponse, ApiError>)
    ensures
        match r {
            Ok(list) => {
                &&& session.access_token is Some
                &&& list.poses@.len() == 3
                &&& list.poses@[0].id == 0 && list.poses@[0].name@ == "updog"@
                &&& list.poses@[1].id == 1 && list.poses@[1].name@ == "downdog"@
                &&& list.poses@[2].id == 2 && list.poses@[2].name@ == "yoganidrasana"@
            },
            Err(e) => session.access_token is None && e == ApiError::NotAuthenticated,
        },
{
    match session.get_access_token() {
        Some(_) => {
            let mut poses: Vec<PoseInfo> = Vec::new();
            poses.push(PoseInfo { id: 0, name: String::from_str("updog") });
            poses.push(PoseInfo { id: 1, name: String::from_str("downdog") });
            poses.push(PoseInfo { id: 2, name: String::from_str("yoganidrasana") });
            Ok(PoseListResponse { poses })
        },
        None => Err(ApiError::NotAuthenticated),
    }
}

} // verus!

use vstd::prelude::*;

use crate::error::{CoreError, error_message};

verus! {

/// A status word and an optional message.
#[derive(Debug)]
pub struct StatusResponse {
    pub status: String,
    pub message: Option<String>,
}

impl StatusResponse {
    /// `success` with `message`.
    pub fn success(message: String) -> (r: StatusResponse)
        ensures
            r.status@ == "success"@,
            r.message == Some(message),
    {
        StatusResponse { status: String::from_str("success"), message: Some(message) }
    }

    /// `error` with the message of `e`.
    pub fn failure(e: CoreError) -> (r: StatusResponse)
        ensures
            r.status@ == "error"@,
            r.message is Some,
            r.message->0@ == error_message(e),
    {
        StatusResponse { status: String::from_str("error"), message: Some(e.message()) }
    }
}

/// Reply to the start of a phone login.
#[derive(Debug)]
pub struct LoginResponse {
    pub message: String,
    pub verification_id: String,
}

/// A session token and the user it belongs to.
#[derive(Debug)]
pub struct AuthResponse {
    pub token: String,
    pub user: UserSummary,
}

/// A short description of a user.
#[derive(Debug)]
pub struct UserSummary {
    pub id: String,
    pub is_profile_complete: bool,
    pub is_new_user: bool,
}

/// A stored profile image.
#[derive(Debug)]
pub struct ImageUploadResponse {
    pub id: String,
    pub url: String,
    pub order: i32,
}

/// The answer to an interaction: `RECORDED`, `SENT` or `MATCH`.
#[derive(Debug)]
pub struct MatchResponse {
    pub status: String,
    pub match_id: Option<String>,
    pub match_data: Option<MatchData>,
}

/// The other user of a match.
#[derive(Debug)]
pub struct MatchData {
    pub user: UserSummary,
}

/// A conversation with a match.
#[derive(Debug)]
pub struct MatchSummary {
    pub id: String,
    pub with_user: UserSummary,
    pub last_message: Option<MessagePreview>,
}

/// The last message of a conversation.
#[derive(Debug)]
pub struct MessagePreview {
    pub text: String,
    /// ISO 8601.
    pub created_at: String,
    pub is_read: bool,
}

/// The messages of a conversation.
#[derive(Debug)]
pub struct MessageHistoryResponse {
    pub messages: Vec<Message>,
}

/// One message of a conversation.
#[derive(Debug)]
pub struct Message {
    pub id: String,
    pub sender_id: String,
    pub text: String,
    pub created_at: String,
}

/// Whether an operation succeeded.
#[derive(Debug)]
pub struct SuccessResponse {
    pub success: bool,
}

/// A stored file's key and address.
#[derive(Debug)]
pub struct UploadResponse {
    pub key: String,
    pub url: String,
}

/// A signed address to upload a file to, and the key it will have.
#[derive(Debug)]
pub struct SignedUrlResponse {
    pub upload_url: String,
    pub key: String,
}

/// A signed address to download a file from.
#[derive(Debug)]
pub struct DownloadResponse {
    pub download_url: String,
}

/// A file's content and type.
#[derive(Debug)]
pub struct ViewResponse {
    pub content_type: String,
    pub content_length: i64,
    pub body: Vec<u8>,
}

/// The claims of a session token.
#[derive(Debug)]
pub struct Claims {
    pub sub: String,
    pub company: String,
    /// Expiry, in seconds since the epoch.
    pub exp: usize,
}

/// The action a ledger query asks for.
#[derive(Debug)]
pub struct QueryParams {
    pub action: String,
}

} // verus!

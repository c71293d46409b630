use vstd::prelude::*;
use vstd::string::StringExecFns;

use crate::responses::ApiError;

verus! {

/// The chat-bot notification channel.  The HTTP call itself lives outside
/// the library; this type builds the request text and interprets the
/// response.
pub struct Telegram;

impl Telegram {
    /// Text of the chat message sent for a submission:
    /// `"Subject: {subject}\n\n{message}"`.
    pub fn notification_text(subject: &str, message: &str) -> (t: String)
        ensures
            t@ == "Subject: "@ + subject@ + "\n\n"@ + message@,
    {
        "Subject: ".to_owned().concat(subject).concat("\n\n").concat(message)
    }

    /// Turns the transport's view of the bot-API response into the channel
    /// outcome: a fixed confirmation when the response status was a
    /// success, otherwise an InternalServerError carrying the status and
    /// the response body.
    pub fn interpret_response(success: bool, status_text: &str, response_body: String) -> (r:
        Result<String, ApiError>)
        ensures
            success ==> (r matches Ok(t) && t@ == "Telegram notification sent successfully"@),
            !success ==> (r matches Err(e) && e matches (ApiError::InternalServerError {
                message,
                error,
            }) && message@ == "Error sending Telegram notification, request status "@
                + status_text@ && error@ == response_body@),
    {
        if success {
            Ok("Telegram notification sent successfully".to_owned())
        } else {
            let message = "Error sending Telegram notification, request status ".to_owned().concat(
                status_text,
            );
            Err(ApiError::internal_server_error(message, response_body))
        }
    }
}

} // verus!

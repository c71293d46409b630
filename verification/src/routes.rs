use vstd::prelude::*;
use vstd::string::StringExecFns;

use crate::responses::{ApiError, EmailSentResponse};
use crate::utils::{valid_email_body, validate_body, validation_error_message, EmailBody};

verus! {

/// What one notification channel produced for a request: whether its call
/// succeeded, and the text it reported.
pub struct ChannelOutcome {
    pub succeeded: bool,
    pub text: String,
}

/// Email body composed from the form fields:
/// `"Contact: {contact}\n\nMessage: {body}"`.
pub fn compose_message_body(contact: &str, body: &str) -> (m: String)
    ensures
        m@ == "Contact: "@ + contact@ + "\n\nMessage: "@ + body@,
{
    "Contact: ".to_owned().concat(contact).concat("\n\nMessage: ").concat(body)
}

/// First phase of handling a submission: validate the payload and compose
/// the message body both channels deliver.  An invalid payload is rejected
/// here, before any channel call is attempted, with the first failing
/// check's message as both the message and the error detail.
pub fn prepare_dispatch(req: &EmailBody) -> (r: Result<String, ApiError>)
    ensures
        r is Ok <==> valid_email_body(req),
        r matches Ok(m) ==> m@ == "Contact: "@ + req.contact@ + "\n\nMessage: "@ + req.body@,
        r matches Err(e) ==> (e matches (ApiError::BadRequest { message, error })
            && message@ == validation_error_message(req)
            && error@ == validation_error_message(req)),
{
    match validate_body(req) {
        Err(msg) => Err(ApiError::bad_request(msg.to_owned(), msg.to_owned())),
        Ok(()) => Ok(compose_message_body(req.contact.as_str(), req.body.as_str())),
    }
}

/// Second phase: the aggregation policy over the two channel outcomes.
/// One failed channel does not fail the request: its field is replaced by
/// its fixed placeholder text and the response is still a success.  Only
/// when both channels failed is an error returned, whose detail
/// concatenates both placeholder descriptions.
pub fn aggregate_outcomes(email: ChannelOutcome, telegram: ChannelOutcome) -> (r: Result<
    EmailSentResponse,
    ApiError,
>)
    ensures
        r is Ok <==> (email.succeeded || telegram.succeeded),
        r matches Ok(resp) ==> resp.email_message@ == (if email.succeeded {
            email.text@
        } else {
            "Error while sending email"@
        }),
        r matches Ok(resp) ==> resp.telegram_message@ == (if telegram.succeeded {
            telegram.text@
        } else {
            "Error while sending Telegram notification"@
        }),
        r matches Err(e) ==> (e matches (ApiError::InternalServerError { message, error })
            && message@ == "Both email and Telegram notification failed"@
            && error@ == "Error while sending email"@ + "; "@
                + "Error while sending Telegram notification"@),
{
    if !email.succeeded && !telegram.succeeded {
        let joined = "Error while sending email".to_owned().concat("; ").concat(
            "Error while sending Telegram notification",
        );
        return Err(ApiError::internal_server_error(
            "Both email and Telegram notification failed".to_owned(),
            joined,
        ));
    }

    let email_message = if email.succeeded {
        email.text
    } else {
        "Error while sending email".to_owned()
    };

    let telegram_message = if telegram.succeeded {
        telegram.text
    } else {
        "Error while sending Telegram notification".to_owned()
    };

    Ok(EmailSentResponse { email_message, telegram_message })
}

} // verus!

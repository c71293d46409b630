use vstd::prelude::*;

verus! {

/// Inbound contact-form payload.
pub struct EmailBody {
    pub contact: String,
    pub subject: String,
    pub body: String,
}

/// Number of extended grapheme clusters in a sequence of characters, as
/// UAX #29 segmentation produces them.  Length limits count these, not
/// code units, so multi-codepoint characters count once.
pub uninterp spec fn grapheme_count(s: Seq<char>) -> nat;

/// Relies on unicode_segmentation's `UnicodeSegmentation::graphemes` with
/// extended grapheme clusters: the segmentation depends on the string's
/// characters alone.
#[verifier::external_body]
fn count_graphemes(s: &str) -> (n: usize)
    ensures
        n as nat == grapheme_count(s@),
{
    unicode_segmentation::UnicodeSegmentation::graphemes(s, true).count()
}

/// A payload is valid when every field is non-empty and within its
/// grapheme-cluster length limit.
pub open spec fn valid_email_body(b: &EmailBody) -> bool {
    &&& b.contact@.len() > 0
    &&& b.subject@.len() > 0
    &&& b.body@.len() > 0
    &&& grapheme_count(b.contact@) <= 50
    &&& grapheme_count(b.subject@) <= 50
    &&& grapheme_count(b.body@) <= 2000
}

/// The message reported for an invalid payload.  The checks run in a fixed
/// order and the first failing one decides, so a payload breaking several
/// constraints reports the earliest check.
pub open spec fn validation_error_message(b: &EmailBody) -> Seq<char> {
    if b.contact@.len() == 0 {
        "Contact cannot be empty"@
    } else if b.subject@.len() == 0 {
        "Subject cannot be empty"@
    } else if b.body@.len() == 0 {
        "Body cannot be empty"@
    } else if grapheme_count(b.contact@) > 50 {
        "Contact cannot be longer than 50 characters"@
    } else if grapheme_count(b.subject@) > 50 {
        "Subject cannot be longer than 50 characters"@
    } else {
        "Body cannot be longer than 2000 characters"@
    }
}

/// Checks the structural constraints on a submission: no empty field,
/// contact and subject at most 50 grapheme clusters, body at most 2000.
/// Succeeds exactly on valid payloads; on failure the error is the message
/// of the first check that failed.
pub fn validate_body(body: &EmailBody) -> (r: Result<(), &'static str>)
    ensures
        r is Ok <==> valid_email_body(body),
        r is Err ==> r->Err_0@ == validation_error_message(body),
{
    if body.contact.as_str().is_empty() {
        return Err("Contact cannot be empty");
    }

    if body.subject.as_str().is_empty() {
        return Err("Subject cannot be empty");
    }

    if body.body.as_str().is_empty() {
        return Err("Body cannot be empty");
    }

    if count_graphemes(body.contact.as_str()) > 50 {
        return Err("Contact cannot be longer than 50 characters");
    }

    if count_graphemes(body.subject.as_str()) > 50 {
        return Err("Subject cannot be longer than 50 characters");
    }

    if count_graphemes(body.body.as_str()) > 2000 {
        return Err("Body cannot be longer than 2000 characters");
    }

    Ok(())
}

/// Read-only service configuration, constructed once at process start and
/// passed into the coordinator.
pub struct Config {
    telegram_bot_token: String,
    telegram_chat_id: String,
    sendgrid_api_key: String,
    send_from_email: String,
    send_to_email: String,
}

impl Config {
    pub closed spec fn telegram_bot_token_view(&self) -> Seq<char> {
        self.telegram_bot_token@
    }

    pub closed spec fn telegram_chat_id_view(&self) -> Seq<char> {
        self.telegram_chat_id@
    }

    pub closed spec fn sendgrid_api_key_view(&self) -> Seq<char> {
        self.sendgrid_api_key@
    }

    pub closed spec fn send_from_email_view(&self) -> Seq<char> {
        self.send_from_email@
    }

    pub closed spec fn send_to_email_view(&self) -> Seq<char> {
        self.send_to_email@
    }

    /// Builds a configuration from its five settings.
    pub fn new(
        telegram_bot_token: String,
        telegram_chat_id: String,
        sendgrid_api_key: String,
        send_from_email: String,
        send_to_email: String,
    ) -> (c: Config)
        ensures
            c.telegram_bot_token_view() == telegram_bot_token@,
            c.telegram_chat_id_view() == telegram_chat_id@,
            c.sendgrid_api_key_view() == sendgrid_api_key@,
            c.send_from_email_view() == send_from_email@,
            c.send_to_email_view() == send_to_email@,
    {
        Config {
            telegram_bot_token,
            telegram_chat_id,
            sendgrid_api_key,
            send_from_email,
            send_to_email,
        }
    }

    pub fn get_telegram_bot_token(&self) -> (s: &str)
        ensures
            s@ == self.telegram_bot_token_view(),
    {
        self.telegram_bot_token.as_str()
    }

    pub fn get_telegram_chat_id(&self) -> (s: &str)
        ensures
            s@ == self.telegram_chat_id_view(),
    {
        self.telegram_chat_id.as_str()
    }

    pub fn get_sendgrid_api_key(&self) -> (s: &str)
        ensures
            s@ == self.sendgrid_api_key_view(),
    {
        self.sendgrid_api_key.as_str()
    }

    pub fn get_send_from_email(&self) -> (s: &str)
        ensures
            s@ == self.send_from_email_view(),
    {
        self.send_from_email.as_str()
    }

    pub fn get_send_to_email(&self) -> (s: &str)
        ensures
            s@ == self.send_to_email_view(),
    {
        self.send_to_email.as_str()
    }
}

} // verus!

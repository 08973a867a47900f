//! Composing the site's e-mails: escaping, the contact templates, and the
//! request and replies of the e-mail delivery service.

use vstd::prelude::*;
use vstd::string::StringExecFns;

use crate::error::{AppError, AppResult};
use crate::text::{concat_str, push_char};

verus! {

broadcast use vstd::string::group_string_axioms;

/// What HTML escaping makes of one character.
pub open spec fn html_escape_char(c: char) -> Seq<char> {
    if c == '&' {
        seq!['&', 'a', 'm', 'p', ';']
    } else if c == '<' {
        seq!['&', 'l', 't', ';']
    } else if c == '>' {
        seq!['&', 'g', 't', ';']
    } else if c == '"' {
        seq!['&', 'q', 'u', 'o', 't', ';']
    } else if c == '\'' {
        seq!['&', '#', '3', '9', ';']
    } else {
        seq![c]
    }
}

/// `s` with each of `& < > " '` replaced by its HTML entity.
pub open spec fn html_escaped(s: Seq<char>) -> Seq<char>
    decreases s.len(),
{
    if s.len() == 0 {
        Seq::empty()
    } else {
        html_escaped(s.drop_last()) + html_escape_char(s.last())
    }
}

/// Whether a character is one that HTML escaping replaces.
pub open spec fn is_html_special(c: char) -> bool {
    c == '&' || c == '<' || c == '>' || c == '"' || c == '\''
}

/// Simple HTML escaping for user input: `&`, `<`, `>`, `"` and `'` become
/// `&amp;`, `&lt;`, `&gt;`, `&quot;` and `&#39;`.
pub fn html_escape(s: &str) -> (res: String)
    ensures
        res@ == html_escaped(s@),
{
    let mut res = String::new();
    for c in it: s.chars()
        invariant
            it.seq() == s@,
            res@ == html_escaped(s@.take(it.index())),
    {
        assert(s@.take(it.index() + 1).drop_last() == s@.take(it.index()));
        if c == '&' {
            res.append("&amp;");
            proof { reveal_strlit("&amp;"); }
            assert("&amp;"@ == html_escape_char(c));
        } else if c == '<' {
            res.append("&lt;");
            proof { reveal_strlit("&lt;"); }
            assert("&lt;"@ == html_escape_char(c));
        } else if c == '>' {
            res.append("&gt;");
            proof { reveal_strlit("&gt;"); }
            assert("&gt;"@ == html_escape_char(c));
        } else if c == '"' {
            res.append("&quot;");
            proof { reveal_strlit("&quot;"); }
            assert("&quot;"@ == html_escape_char(c));
        } else if c == '\'' {
            res.append("&#39;");
            proof { reveal_strlit("&#39;"); }
            assert("&#39;"@ == html_escape_char(c));
        } else {
            push_char(&mut res, c);
        }
    }
    assert(s@.take(s@.len() as int) == s@);
    res
}

/// Law: escaped text holds none of `< > " '`, and text without any of the five
/// special characters is left as it is.
pub proof fn lemma_html_escape_is_safe(s: Seq<char>)
    ensures
        forall|i: int|
            0 <= i < html_escaped(s).len() ==> {
                let c = #[trigger] html_escaped(s)[i];
                c != '<' && c != '>' && c != '"' && c != '\''
            },
        (forall|i: int| 0 <= i < s.len() ==> !is_html_special(#[trigger] s[i])) ==> html_escaped(s)
            == s,
    decreases s.len(),
{
    if s.len() > 0 {
        lemma_html_escape_is_safe(s.drop_last());
        let a = html_escaped(s.drop_last());
        let b = html_escape_char(s.last());
        assert(html_escaped(s) == a + b);
        assert forall|i: int| 0 <= i < html_escaped(s).len() implies {
            let c = #[trigger] html_escaped(s)[i];
            c != '<' && c != '>' && c != '"' && c != '\''
        } by {
            if i < a.len() {
                assert(html_escaped(s)[i] == a[i]);
            } else {
                assert(html_escaped(s)[i] == b[i - a.len()]);
            }
        }
        if forall|i: int| 0 <= i < s.len() ==> !is_html_special(#[trigger] s[i]) {
            assert(forall|i: int|
                0 <= i < s.drop_last().len() ==> !is_html_special(#[trigger] s.drop_last()[i])) by {
                assert forall|i: int| 0 <= i < s.drop_last().len() implies !is_html_special(
                    #[trigger] s.drop_last()[i],
                ) by {
                    assert(s.drop_last()[i] == s[i]);
                }
            }
            assert(!is_html_special(s[s.len() - 1]));
            assert(s.drop_last().push(s.last()) == s);
        }
    }
}

/// One left-to-right pass that turns each of `&amp;`, `&lt;`, `&gt;`, `&quot;`
/// and `&#39;` back into the character it stands for.
pub open spec fn html_unescaped(t: Seq<char>) -> Seq<char>
    decreases t.len(),
{
    if t.len() == 0 {
        Seq::empty()
    } else if t.len() >= 5 && t.take(5) == html_escape_char('&') {
        seq!['&'] + html_unescaped(t.skip(5))
    } else if t.len() >= 4 && t.take(4) == html_escape_char('<') {
        seq!['<'] + html_unescaped(t.skip(4))
    } else if t.len() >= 4 && t.take(4) == html_escape_char('>') {
        seq!['>'] + html_unescaped(t.skip(4))
    } else if t.len() >= 6 && t.take(6) == html_escape_char('"') {
        seq!['"'] + html_unescaped(t.skip(6))
    } else if t.len() >= 5 && t.take(5) == html_escape_char('\'') {
        seq!['\''] + html_unescaped(t.skip(5))
    } else {
        seq![t[0]] + html_unescaped(t.skip(1))
    }
}

proof fn lemma_html_escaped_concat(a: Seq<char>, b: Seq<char>)
    ensures
        html_escaped(a + b) == html_escaped(a) + html_escaped(b),
    decreases b.len(),
{
    if b.len() == 0 {
        assert(a + b == a);
        assert(html_escaped(a) + html_escaped(b) == html_escaped(a));
    } else {
        lemma_html_escaped_concat(a, b.drop_last());
        assert((a + b).drop_last() == a + b.drop_last());
        assert((a + b).last() == b.last());
    }
}

proof fn lemma_html_escaped_front(s: Seq<char>)
    requires
        s.len() > 0,
    ensures
        html_escaped(s) == html_escape_char(s[0]) + html_escaped(s.drop_first()),
{
    let head = seq![s[0]];
    assert(head + s.drop_first() == s);
    lemma_html_escaped_concat(head, s.drop_first());
    assert(head.drop_last() == Seq::<char>::empty());
    assert(head.last() == s[0]);
    assert(html_escaped(Seq::<char>::empty()) == Seq::<char>::empty());
    assert(html_escaped(head) == Seq::<char>::empty() + html_escape_char(s[0]));
    assert(Seq::<char>::empty() + html_escape_char(s[0]) == html_escape_char(s[0]));
}

/// Law: unescaping escaped text gives back the text, so different texts never
/// escape to the same result.
pub proof fn lemma_html_escape_round_trip(s: Seq<char>)
    ensures
        html_unescaped(html_escaped(s)) == s,
    decreases s.len(),
{
    if s.len() == 0 {
        assert(html_escaped(s) == Seq::<char>::empty());
    } else {
        lemma_html_escaped_front(s);
        lemma_html_escape_round_trip(s.drop_first());
        let c = s[0];
        let e = html_escape_char(c);
        let r = html_escaped(s.drop_first());
        let t = e + r;
        assert(t.skip(e.len() as int) == r);
        assert(t.take(e.len() as int) == e);
        assert(t[0] == e[0]);
        if e.len() > 1 {
            assert(t[1] == e[1]);
        }
        if !is_html_special(c) {
            assert(t.skip(1) == r);
        }
        assert(html_unescaped(t) == seq![c] + html_unescaped(r));
        assert(seq![c] + s.drop_first() == s);
    }
}

/// Law: text is escaped to the same result only as itself.
pub proof fn lemma_html_escape_injective(a: Seq<char>, b: Seq<char>)
    requires
        html_escaped(a) == html_escaped(b),
    ensures
        a == b,
{
    lemma_html_escape_round_trip(a);
    lemma_html_escape_round_trip(b);
}

/// A fixed part of an e-mail template.
pub const NOTIFICATION_HEAD: &'static str = "\n            <!DOCTYPE html>\n            <html>\n            <head>\n                <style>\n                    body { font-family: -apple-system, BlinkMacSystemFont, 'Segoe UI', Roboto, sans-serif; line-height: 1.6; color: #333; }\n                    .container { max-width: 600px; margin: 0 auto; padding: 20px; }\n                    .header { background: #0A0A0A; color: white; padding: 20px; border-radius: 8px 8px 0 0; }\n                    .content { background: #f9fafb; padding: 20px; border: 1px solid #e5e7eb; border-top: none; border-radius: 0 0 8px 8px; }\n                    .field { margin-bottom: 16px; }\n                    .label { font-size: 12px; color: #6b7280; text-transform: uppercase; letter-spacing: 0.05em; margin-bottom: 4px; }\n                    .value { font-size: 16px; }\n                    .message-box { background: white; padding: 16px; border-radius: 8px; border: 1px solid #e5e7eb; white-space: pre-wrap; }\n                    .footer { margin-top: 20px; font-size: 12px; color: #6b7280; text-align: center; }\n                </style>\n            </head>\n            <body>\n                <div class=\"container\">\n                    <div class=\"header\">\n                        <h2 style=\"margin: 0;\">New Contact Form Submission</h2>\n                        <p style=\"margin: 8px 0 0 0; opacity: 0.8;\">kadynpearce.dev</p>\n                    </div>\n                    <div class=\"content\">\n                        <div class=\"field\">\n                            <div class=\"label\">From</div>\n                            <div class=\"value\">";

/// A fixed part of an e-mail template.
pub const NOTIFICATION_AFTER_NAME: &'static str = " &lt;";

/// A fixed part of an e-mail template.
pub const NOTIFICATION_AFTER_EMAIL: &'static str = "&gt;</div>\n                        </div>\n                        <div class=\"field\">\n                            <div class=\"label\">Subject</div>\n                            <div class=\"value\">";

/// A fixed part of an e-mail template.
pub const NOTIFICATION_AFTER_SUBJECT: &'static str = "</div>\n                        </div>\n                        <div class=\"field\">\n                            <div class=\"label\">Message</div>\n                            <div class=\"message-box\">";

/// A fixed part of an e-mail template.
pub const NOTIFICATION_AFTER_MESSAGE: &'static str = "</div>\n                        </div>\n                    </div>\n                    <div class=\"footer\">\n                        Reply directly to this email to respond to ";

/// A fixed part of an e-mail template.
pub const NOTIFICATION_TAIL: &'static str = "\n                    </div>\n                </div>\n            </body>\n            </html>\n            ";

/// A fixed part of an e-mail template.
pub const AUTO_REPLY_HEAD: &'static str = "\n            <!DOCTYPE html>\n            <html>\n            <head>\n                <style>\n                    body { font-family: -apple-system, BlinkMacSystemFont, 'Segoe UI', Roboto, sans-serif; line-height: 1.6; color: #333; }\n                    .container { max-width: 600px; margin: 0 auto; padding: 20px; }\n                    .header { background: #0A0A0A; color: white; padding: 20px; border-radius: 8px 8px 0 0; }\n                    .content { background: #f9fafb; padding: 20px; border: 1px solid #e5e7eb; border-top: none; border-radius: 0 0 8px 8px; }\n                    .footer { margin-top: 20px; font-size: 12px; color: #6b7280; text-align: center; }\n                    a { color: #2563eb; }\n                </style>\n            </head>\n            <body>\n                <div class=\"container\">\n                    <div class=\"header\">\n                        <h2 style=\"margin: 0;\">Thanks for reaching out!</h2>\n                    </div>\n                    <div class=\"content\">\n                        <p>Hi ";

/// A fixed part of an e-mail template.
pub const AUTO_REPLY_TAIL: &'static str = ",</p>\n                        <p>Thanks for getting in touch! I've received your message and will get back to you as soon as possible, usually within 24-48 hours.</p>\n                        <p>In the meantime, feel free to check out my latest work on <a href=\"https://kadynpearce.dev/projects\">my portfolio</a> or connect with me on <a href=\"https://github.com/kadynjaipearce\">GitHub</a>.</p>\n                        <p>Best,<br>Kadyn</p>\n                    </div>\n                    <div class=\"footer\">\n                        This is an automated response from kadynpearce.dev\n                    </div>\n                </div>\n            </body>\n            </html>\n            ";

/// A message to send: recipient, subject, HTML body and optional reply-to address.
#[derive(Debug, Clone, PartialEq, Eq)]
pub struct EmailDraft {
    pub to: String,
    pub subject: String,
    pub html_body: String,
    pub reply_to: Option<String>,
}

/// The JSON body of a request to the delivery service's `emails` endpoint.
#[derive(Debug, Clone, PartialEq, Eq)]
pub struct ResendEmailRequest {
    pub from: String,
    pub to: Vec<String>,
    pub subject: String,
    pub html: String,
    pub reply_to: Option<String>,
}

/// Composes the site's e-mails and reads the delivery service's replies.
pub struct EmailService;

/// The body of the notification that the contact form sends to the site's owner.
pub open spec fn notification_body(
    sender_name: Seq<char>,
    sender_email: Seq<char>,
    subject: Seq<char>,
    message: Seq<char>,
) -> Seq<char> {
    NOTIFICATION_HEAD@ + html_escaped(sender_name) + NOTIFICATION_AFTER_NAME@ + html_escaped(
        sender_email,
    ) + NOTIFICATION_AFTER_EMAIL@ + html_escaped(subject) + NOTIFICATION_AFTER_SUBJECT@
        + html_escaped(message) + NOTIFICATION_AFTER_MESSAGE@ + html_escaped(sender_name)
        + NOTIFICATION_TAIL@
}

/// The body of the automatic reply to the person who used the contact form.
pub open spec fn auto_reply_body(recipient_name: Seq<char>) -> Seq<char> {
    AUTO_REPLY_HEAD@ + html_escaped(recipient_name) + AUTO_REPLY_TAIL@
}


/// The delivery service's address for sending e-mail.
pub const RESEND_EMAILS_URL: &'static str = "https://api.resend.com/emails";

/// The subject of the automatic reply.
pub const AUTO_REPLY_SUBJECT: &'static str = "Thanks for reaching out!";

/// Whether a character is one that HTML reads as markup or as a quote.
pub open spec fn is_markup_char(c: char) -> bool {
    c == '<' || c == '>' || c == '"' || c == '\''
}

/// How many markup characters (`< > " '`) a text holds.
pub open spec fn markup_count(t: Seq<char>) -> nat {
    t.filter(|c: char| is_markup_char(c)).len()
}

proof fn lemma_markup_free(t: Seq<char>)
    requires
        forall|i: int| 0 <= i < t.len() ==> !is_markup_char(#[trigger] t[i]),
    ensures
        markup_count(t) == 0,
    decreases t.len(),
{
    reveal_with_fuel(Seq::<_>::filter, 1);
    if t.len() > 0 {
        assert forall|i: int| 0 <= i < t.drop_last().len() implies !is_markup_char(#[trigger] t.drop_last()[i]) by {
            assert(t.drop_last()[i] == t[i]);
        }
        lemma_markup_free(t.drop_last());
        assert(!is_markup_char(t[t.len() - 1]));
    }
}

proof fn lemma_escaped_markup_free(t: Seq<char>)
    ensures
        markup_count(html_escaped(t)) == 0,
{
    lemma_html_escape_is_safe(t);
    lemma_markup_free(html_escaped(t));
}

/// Law: what visitors type adds no markup to the contact e-mails: the
/// notification and the automatic reply hold exactly as many `< > " '` as
/// their templates do with every field empty, whatever the fields hold.
pub proof fn lemma_contact_mails_add_no_markup(
    sender_name: Seq<char>,
    sender_email: Seq<char>,
    subject: Seq<char>,
    message: Seq<char>,
)
    ensures
        markup_count(notification_body(sender_name, sender_email, subject, message))
            == markup_count(
            notification_body(Seq::empty(), Seq::empty(), Seq::empty(), Seq::empty()),
        ),
        markup_count(auto_reply_body(sender_name)) == markup_count(auto_reply_body(Seq::empty())),
{
    broadcast use vstd::seq::Seq::filter_distributes_over_add;

    let e = Seq::<char>::empty();
    assert(html_escaped(e) == e);
    lemma_escaped_markup_free(sender_name);
    lemma_escaped_markup_free(sender_email);
    lemma_escaped_markup_free(subject);
    lemma_escaped_markup_free(message);
    lemma_escaped_markup_free(e);
}


impl EmailService {
    /// The notification that the contact form sends to `contact_email`: subject
    /// `[Contact] ` and the subject as given, the escaped fields in the template,
    /// and the sender's address to reply to.
    pub fn send_contact_notification(
        contact_email: &str,
        sender_name: &str,
        sender_email: &str,
        subject: &str,
        message: &str,
    ) -> (res: EmailDraft)
        ensures
            res.to@ == contact_email@,
            res.subject@ == "[Contact] "@ + subject@,
            res.html_body@ == notification_body(sender_name@, sender_email@, subject@, message@),
            res.reply_to matches Some(r) && r@ == sender_email@,
    {
        let name = html_escape(sender_name);
        let mut body = NOTIFICATION_HEAD.to_string();
        body.append(name.as_str());
        body.append(NOTIFICATION_AFTER_NAME);
        body.append(html_escape(sender_email).as_str());
        body.append(NOTIFICATION_AFTER_EMAIL);
        body.append(html_escape(subject).as_str());
        body.append(NOTIFICATION_AFTER_SUBJECT);
        body.append(html_escape(message).as_str());
        body.append(NOTIFICATION_AFTER_MESSAGE);
        body.append(name.as_str());
        body.append(NOTIFICATION_TAIL);
        EmailDraft {
            to: contact_email.to_string(),
            subject: concat_str("[Contact] ", subject),
            html_body: body,
            reply_to: Some(sender_email.to_string()),
        }
    }

    /// The automatic reply to the person who used the contact form, greeting them
    /// by their escaped name, with no reply-to address.
    pub fn send_contact_auto_reply(recipient_name: &str, recipient_email: &str) -> (res: EmailDraft)
        ensures
            res.to@ == recipient_email@,
            res.subject@ == AUTO_REPLY_SUBJECT@,
            res.html_body@ == auto_reply_body(recipient_name@),
            res.reply_to is None,
    {
        let mut body = AUTO_REPLY_HEAD.to_string();
        body.append(html_escape(recipient_name).as_str());
        body.append(AUTO_REPLY_TAIL);
        EmailDraft {
            to: recipient_email.to_string(),
            subject: AUTO_REPLY_SUBJECT.to_string(),
            html_body: body,
            reply_to: None,
        }
    }

    /// The request that sends `draft` from `from`, refused when no API key is configured.
    pub fn send_email(api_key: &str, from: &str, draft: EmailDraft) -> (res: AppResult<
        ResendEmailRequest,
    >)
        ensures
            api_key@.len() == 0 <==> res is Err,
            res matches Err(e) ==> e matches AppError::InternalError(m) && m@
                == "Email service not configured"@,
            res matches Ok(r) ==> {
                &&& r.from@ == from@
                &&& r.to@.len() == 1
                &&& r.to@[0] == draft.to
                &&& r.subject == draft.subject
                &&& r.html == draft.html_body
                &&& r.reply_to == draft.reply_to
            },
    {
        if api_key.is_empty() {
            return Err(AppError::InternalError("Email service not configured".to_string()));
        }
        let mut to: Vec<String> = Vec::new();
        to.push(draft.to);
        Ok(
            ResendEmailRequest {
                from: from.to_string(),
                to,
                subject: draft.subject,
                html: draft.html_body,
                reply_to: draft.reply_to,
            },
        )
    }

    /// The value of the `Authorization` header for `api_key`.
    pub fn authorization(api_key: &str) -> (res: String)
        ensures
            res@ == "Bearer "@ + api_key@,
    {
        concat_str("Bearer ", api_key)
    }

    /// The error when the request could not be sent at all.
    pub fn transport_error(detail: &str) -> (res: AppError)
        ensures
            res matches AppError::InternalError(m) && m@ == "Failed to send email: "@ + detail@,
    {
        AppError::InternalError(concat_str("Failed to send email: ", detail))
    }

    /// The outcome of a reply with a success status: the id of the sent e-mail,
    /// or the error when the reply's body could not be read (`Err` with why).
    pub fn accepted(parsed_id: Result<String, String>) -> (res: AppResult<String>)
        ensures
            parsed_id matches Ok(id) ==> res == Ok::<String, AppError>(id),
            parsed_id matches Err(why) ==> (res matches Err(AppError::InternalError(m)) && m@
                == "Failed to parse response: "@ + why@),
    {
        match parsed_id {
            Ok(id) => Ok(id),
            Err(why) => Err(AppError::InternalError(concat_str("Failed to parse response: ", why.as_str()))),
        }
    }

    /// The error for a reply with a failure status, given the message the reply
    /// carried (`None` when it carried none that could be read).
    pub fn rejected(message: Option<String>) -> (res: AppError)
        ensures
            message matches Some(m) ==> (res matches AppError::InternalError(t) && t@
                == "Email send failed: "@ + m@),
            message is None ==> (res matches AppError::InternalError(t) && t@
                == "Email send failed: Unknown error"@),
    {
        match message {
            Some(m) => AppError::InternalError(concat_str("Email send failed: ", m.as_str())),
            None => {
                let r = AppError::InternalError(concat_str("Email send failed: ", "Unknown error"));
                proof {
                    reveal_strlit("Email send failed: ");
                    reveal_strlit("Unknown error");
                    reveal_strlit("Email send failed: Unknown error");
                }
                r
            },
        }
    }
}

} // verus!

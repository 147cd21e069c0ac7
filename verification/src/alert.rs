//! The alert: the request that delivers it, and what the answer of the
//! service amounts to.

use vstd::prelude::*;
use vstd::string::*;

use crate::config::{AlertConfig, AlertConfigView};
use crate::json::{
    insert_member, new_object, object_text, read_string_member, string_member, write_object,
    Members,
};

verus! {

/// One alert, ready to be sent: the address to post it to, the headers of
/// the request, each as a name and a value, and the JSON document that is its
/// body.
#[derive(Clone, Debug)]
pub struct AlertRequest {
    pub endpoint: String,
    pub headers: Vec<(String, String)>,
    pub payload: String,
}

/// An alert request as plain text.
pub struct AlertRequestView {
    pub endpoint: Seq<char>,
    pub headers: Seq<(Seq<char>, Seq<char>)>,
    pub payload: Seq<char>,
}

impl View for AlertRequest {
    type V = AlertRequestView;

    open spec fn view(&self) -> AlertRequestView {
        AlertRequestView {
            endpoint: self.endpoint@,
            headers: self.headers.deep_view(),
            payload: self.payload@,
        }
    }
}

/// What became of an alert.
#[derive(Clone, Debug)]
pub enum Delivery {
    /// The service took it and answered with this key.
    Delivered { key: String },
    /// It did not get through, or the answer was not a confirmation.
    Failed { reason: String },
}

/// A delivery as plain text.
pub enum DeliveryView {
    Delivered { key: Seq<char> },
    Failed { reason: Seq<char> },
}

impl View for Delivery {
    type V = DeliveryView;

    open spec fn view(&self) -> DeliveryView {
        match self {
            Delivery::Delivered { key } => DeliveryView::Delivered { key: key@ },
            Delivery::Failed { reason } => DeliveryView::Failed { reason: reason@ },
        }
    }
}

/// The subject line of the alert on a program.
pub open spec fn subject_for(program_name: Seq<char>) -> Seq<char> {
    "Scheduled execution failed: "@ + program_name
}

/// The six members of the JSON object that an alert carries. `category` and
/// `origin` are null where the configuration has none.
pub open spec fn payload_members(
    config: AlertConfigView,
    subject: Seq<char>,
    content_type: Seq<char>,
    body: Seq<char>,
) -> Members {
    Members::empty().insert("channel"@, Some(config.channel)).insert(
        "category"@,
        config.category,
    ).insert("origin"@, config.origin).insert("subject"@, Some(subject)).insert(
        "contentType"@,
        Some(content_type),
    ).insert("body"@, Some(body))
}

/// The value of the `Authorization` header for a token.
pub open spec fn bearer(token: Seq<char>) -> Seq<char> {
    "Bearer "@ + token
}

/// The headers of the request that delivers an alert: the token as bearer
/// credential, and the type of the document.
pub open spec fn request_headers(token: Seq<char>) -> Seq<(Seq<char>, Seq<char>)> {
    seq![("Authorization"@, bearer(token)), ("Content-Type"@, "application/json"@)]
}

/// The request that delivers an alert under the given configuration.
pub open spec fn request_for(
    config: AlertConfigView,
    subject: Seq<char>,
    content_type: Seq<char>,
    body: Seq<char>,
) -> AlertRequestView {
    AlertRequestView {
        endpoint: config.endpoint,
        headers: request_headers(config.token),
        payload: object_text(payload_members(config, subject, content_type, body)),
    }
}

/// What an answer of the service amounts to: `Ok` holds the bytes of its
/// body, `Err` the reason why there was none.
pub open spec fn delivery_of(answer: Result<Vec<u8>, String>) -> DeliveryView {
    match answer {
        Ok(document) => confirmation(string_member(document@, "key"@)),
        Err(reason) => DeliveryView::Failed { reason: reason@ },
    }
}

/// What the `key` of an answer amounts to.
pub open spec fn confirmation(key: Option<Seq<char>>) -> DeliveryView {
    match key {
        Some(key) => DeliveryView::Delivered { key },
        None => DeliveryView::Failed { reason: "the response holds no JSON string named key"@ },
    }
}

/// The line that tells the operator what became of the alert.
pub open spec fn delivery_line(delivery: DeliveryView) -> Seq<char> {
    match delivery {
        DeliveryView::Delivered { key } => "Alert sent. Key: "@ + key,
        DeliveryView::Failed { reason } => "Failed to send alert: "@ + reason,
    }
}

/// An optional text, borrowed.
fn as_text(value: &Option<String>) -> (text: Option<&str>)
    ensures
        text is Some <==> value is Some,
        text is Some ==> text->0@ == value->0@,
{
    match value {
        Some(text) => Some(text.as_str()),
        None => None,
    }
}

/// The subject line of the alert on a program.
pub fn alert_subject(program_name: &str) -> (subject: String)
    ensures
        subject@ == subject_for(program_name@),
{
    let mut subject = String::from_str("Scheduled execution failed: ");
    subject.append(program_name);
    subject
}

/// The JSON document of an alert: an object with the members `channel`,
/// `category`, `origin`, `subject`, `contentType` and `body`.
pub fn alert_payload(config: &AlertConfig, subject: &str, content_type: &str, body: &str) -> (payload:
    String)
    ensures
        payload@ == object_text(payload_members(config@, subject@, content_type@, body@)),
{
    let mut object = new_object();
    insert_member(&mut object, "channel", Some(config.channel.as_str()));
    insert_member(&mut object, "category", as_text(&config.category));
    insert_member(&mut object, "origin", as_text(&config.origin));
    insert_member(&mut object, "subject", Some(subject));
    insert_member(&mut object, "contentType", Some(content_type));
    insert_member(&mut object, "body", Some(body));
    write_object(object)
}

/// The request that delivers an alert: the document goes to the configured
/// endpoint, with the configured token as bearer credential.
pub fn alert_request(config: &AlertConfig, subject: &str, content_type: &str, body: &str) -> (request:
    AlertRequest)
    ensures
        request@ == request_for(config@, subject@, content_type@, body@),
{
    let mut authorization = String::from_str("Bearer ");
    authorization.append(config.token.as_str());
    let mut headers: Vec<(String, String)> = Vec::new();
    headers.push((String::from_str("Authorization"), authorization));
    headers.push((String::from_str("Content-Type"), String::from_str("application/json")));
    assert(headers.deep_view() == request_headers(config.token@));
    AlertRequest {
        endpoint: config.endpoint.clone(),
        headers,
        payload: alert_payload(config, subject, content_type, body),
    }
}

/// What the `key` of an answer amounts to: with a key the alert is
/// delivered, without one it is not.
pub fn confirm(key: Option<String>) -> (delivery: Delivery)
    ensures
        delivery@ == confirmation(key.deep_view()),
{
    match key {
        Some(key) => Delivery::Delivered { key },
        None => Delivery::Failed {
            reason: String::from_str("the response holds no JSON string named key"),
        },
    }
}

/// What an answer of the service amounts to. The alert is delivered where
/// the body of the answer is a JSON document with a string named `key`.
pub fn read_answer(answer: Result<Vec<u8>, String>) -> (delivery: Delivery)
    ensures
        delivery@ == delivery_of(answer),
{
    match answer {
        Ok(document) => confirm(read_string_member(document.as_slice(), "key")),
        Err(reason) => Delivery::Failed { reason },
    }
}

/// The line that tells the operator what became of the alert.
pub fn delivery_message(delivery: &Delivery) -> (line: String)
    ensures
        line@ == delivery_line(delivery@),
{
    match delivery {
        Delivery::Delivered { key } => {
            let mut line = String::from_str("Alert sent. Key: ");
            line.append(key.as_str());
            line
        },
        Delivery::Failed { reason } => {
            let mut line = String::from_str("Failed to send alert: ");
            line.append(reason.as_str());
            line
        },
    }
}

/// The names of the members of an alert.
pub open spec fn payload_names() -> Set<Seq<char>> {
    set!["channel"@, "category"@, "origin"@, "subject"@, "contentType"@, "body"@]
}

/// An alert has exactly six members: `channel`, `category`, `origin`,
/// `subject`, `contentType` and `body`. Four of them are texts: the channel of
/// the configuration, and the subject, the content type and the body as
/// given. `category` and `origin` are the texts of the configuration too, and
/// null exactly where it has none.
pub proof fn law_alert_has_six_members(
    config: AlertConfigView,
    subject: Seq<char>,
    content_type: Seq<char>,
    body: Seq<char>,
)
    ensures
        ({
            let members = payload_members(config, subject, content_type, body);
            &&& members.dom() == payload_names()
            &&& members.dom().finite()
            &&& members.dom().len() == 6
            &&& members["channel"@] == Some(config.channel)
            &&& members["category"@] == config.category
            &&& members["origin"@] == config.origin
            &&& members["subject"@] == Some(subject)
            &&& members["contentType"@] == Some(content_type)
            &&& members["body"@] == Some(body)
        }),
{
    reveal_strlit("channel");
    reveal_strlit("category");
    reveal_strlit("origin");
    reveal_strlit("subject");
    reveal_strlit("contentType");
    reveal_strlit("body");
    let members = payload_members(config, subject, content_type, body);
    assert("channel"@.len() == 7 && "category"@.len() == 8 && "origin"@.len() == 6);
    assert("subject"@.len() == 7 && "contentType"@.len() == 11 && "body"@.len() == 4);
    assert("channel"@[0] != "subject"@[0]);
    assert(members.dom() =~= payload_names());
    let one = Set::<Seq<char>>::empty().insert("channel"@);
    let two = one.insert("category"@);
    let three = two.insert("origin"@);
    let four = three.insert("subject"@);
    let five = four.insert("contentType"@);
    assert(one.len() == 1);
    assert(two.len() == 2);
    assert(three.len() == 3);
    assert(four.len() == 4);
    assert(five.len() == 5);
    assert(five.insert("body"@).len() == 6);
}

} // verus!

//! What can go wrong for one source in one tick.

use crate::number::{decimal, decimal_string, lemma_decimal};
use crate::text::concat2;
use vstd::prelude::*;

verus! {

/// Why a feed could not be fetched.
#[derive(Clone, Copy, Debug, PartialEq, Eq, Structural)]
pub enum FetchError {
    /// No answer within the time allowed.
    Timeout,
    /// No connection could be made.
    Connect,
    /// The server answered with a status outside 200 to 299.
    Status(u16),
    /// Any other failure of the request.
    Other,
}

/// A part of a feed that an adapter needs.
#[derive(Clone, Copy, Debug, PartialEq, Eq, Structural)]
pub enum Field {
    FeedTitle,
    FeedLogo,
    FeedLink,
    Title,
    Link,
    LinkTitle,
    Summary,
    Updated,
    Categories,
}

/// Why nothing could be made of a parsed feed.
#[derive(Clone, Copy, Debug, PartialEq, Eq, Structural)]
pub enum ExtractionError {
    /// The feed holds no entry.
    NoEntries,
    /// The feed or its newest entry lacks a part that is needed.
    Missing(Field),
    /// The newest entry does not show an identifier of the expected shape.
    NoIdentifier,
}

/// Why an output did not reach the channel.
#[derive(Clone, Copy, Debug, PartialEq, Eq, Structural)]
pub enum DeliveryError {
    /// A new message was refused.
    Send,
    /// The edit of a message was refused.
    Edit,
    /// The reply to a message was refused.
    Reply,
    /// An event arrived that answers no action that was asked for.
    Unexpected,
}

/// The failure of one source in one tick.
#[derive(Clone, Copy, Debug, PartialEq, Eq, Structural)]
pub enum FeedError {
    Fetch(FetchError),
    /// The document is no well-formed feed.
    Parse,
    Extraction(ExtractionError),
    Delivery(DeliveryError),
}

/// The name of a field, as it is shown to an operator.
pub open spec fn field_name(field: Field) -> Seq<char> {
    match field {
        Field::FeedTitle => "a feed title"@,
        Field::FeedLogo => "a feed logo"@,
        Field::FeedLink => "a feed link"@,
        Field::Title => "a title"@,
        Field::Link => "a link"@,
        Field::LinkTitle => "a link title"@,
        Field::Summary => "a summary"@,
        Field::Updated => "a time of update"@,
        Field::Categories => "its four categories"@,
    }
}

/// The text of an error, as it is shown to an operator.
pub open spec fn message(error: FeedError) -> Seq<char> {
    match error {
        FeedError::Fetch(FetchError::Timeout) => "the request timed out"@,
        FeedError::Fetch(FetchError::Connect) => "the connection failed"@,
        FeedError::Fetch(FetchError::Status(code)) => "the server answered with status "@ + decimal(
            code as nat,
        ),
        FeedError::Fetch(FetchError::Other) => "the request failed"@,
        FeedError::Parse => "the document is not a well-formed feed"@,
        FeedError::Extraction(ExtractionError::NoEntries) => "the feed has no entries"@,
        FeedError::Extraction(ExtractionError::Missing(field)) => "the newest entry lacks "@
            + field_name(field),
        FeedError::Extraction(ExtractionError::NoIdentifier) =>
            "the newest entry shows no identifier of the expected form"@,
        FeedError::Delivery(DeliveryError::Send) => "the message could not be sent"@,
        FeedError::Delivery(DeliveryError::Edit) => "the message could not be edited"@,
        FeedError::Delivery(DeliveryError::Reply) => "the reply could not be sent"@,
        FeedError::Delivery(DeliveryError::Unexpected) => "the delivery was driven out of order"@,
    }
}

fn describe_field(field: Field) -> (name: &'static str)
    ensures
        name@ == field_name(field),
{
    match field {
        Field::FeedTitle => "a feed title",
        Field::FeedLogo => "a feed logo",
        Field::FeedLink => "a feed link",
        Field::Title => "a title",
        Field::Link => "a link",
        Field::LinkTitle => "a link title",
        Field::Summary => "a summary",
        Field::Updated => "a time of update",
        Field::Categories => "its four categories",
    }
}

impl FeedError {
    /// The text of the error, as it is shown to an operator.
    pub fn describe(&self) -> (text: String)
        ensures
            text@ == message(*self),
    {
        match self {
            FeedError::Fetch(FetchError::Timeout) => "the request timed out".to_owned(),
            FeedError::Fetch(FetchError::Connect) => "the connection failed".to_owned(),
            FeedError::Fetch(FetchError::Status(code)) => {
                let number = decimal_string(*code as u64);
                concat2("the server answered with status ", number.as_str())
            },
            FeedError::Fetch(FetchError::Other) => "the request failed".to_owned(),
            FeedError::Parse => "the document is not a well-formed feed".to_owned(),
            FeedError::Extraction(ExtractionError::NoEntries) => "the feed has no entries".to_owned(),
            FeedError::Extraction(ExtractionError::Missing(field)) => concat2(
                "the newest entry lacks ",
                describe_field(*field),
            ),
            FeedError::Extraction(ExtractionError::NoIdentifier) =>
                "the newest entry shows no identifier of the expected form".to_owned(),
            FeedError::Delivery(DeliveryError::Send) => "the message could not be sent".to_owned(),
            FeedError::Delivery(DeliveryError::Edit) => "the message could not be edited".to_owned(),
            FeedError::Delivery(DeliveryError::Reply) => "the reply could not be sent".to_owned(),
            FeedError::Delivery(DeliveryError::Unexpected) =>
                "the delivery was driven out of order".to_owned(),
        }
    }
}

/// Whether a text is a single line.
pub open spec fn single_line(s: Seq<char>) -> bool {
    forall|i: int| 0 <= i < s.len() ==> #[trigger] s[i] != '\n'
}

/// The text of every error is a single line.
pub proof fn lemma_message_single_line(error: FeedError)
    ensures
        single_line(message(error)),
{
    reveal_strlit("the request timed out");
    reveal_strlit("the connection failed");
    reveal_strlit("the server answered with status ");
    reveal_strlit("the request failed");
    reveal_strlit("the document is not a well-formed feed");
    reveal_strlit("the feed has no entries");
    reveal_strlit("the newest entry lacks ");
    reveal_strlit("the newest entry shows no identifier of the expected form");
    reveal_strlit("the message could not be sent");
    reveal_strlit("the message could not be edited");
    reveal_strlit("the reply could not be sent");
    reveal_strlit("the delivery was driven out of order");
    reveal_strlit("a feed title");
    reveal_strlit("a feed logo");
    reveal_strlit("a feed link");
    reveal_strlit("a title");
    reveal_strlit("a link");
    reveal_strlit("a link title");
    reveal_strlit("a summary");
    reveal_strlit("a time of update");
    reveal_strlit("its four categories");
    match error {
        FeedError::Fetch(FetchError::Status(code)) => {
            lemma_decimal(code as nat);
        },
        _ => {},
    }
}

} // verus!

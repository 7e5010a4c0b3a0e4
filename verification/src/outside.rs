//! The outside types that values of this library carry, and the calls into
//! their crates and into the parts of std that have no specification yet.
//! Nothing here is proved: each contract restates what the outside code
//! documents.
use futures::channel::mpsc::{
    SendError, TryRecvError, UnboundedReceiver, UnboundedSender,
};
use futures::channel::oneshot::Canceled;
use serde_json::Error as JsonError;
use serde_json::Number;
use serde_json::Value;
use vstd::prelude::*;

verus! {

/// `serde_json::Value`: a JSON document, carried through unread.
#[verifier::external_type_specification]
#[verifier::external_body]
pub struct ExJsonValue(Value);

/// `serde_json::Error`: why a JSON document did not decode.
#[verifier::external_type_specification]
#[verifier::external_body]
pub struct ExJsonError(JsonError);

/// `futures::channel::oneshot::Canceled`: the sending half of a one-shot
/// channel went away before a value was sent.
#[verifier::external_type_specification]
#[verifier::external_body]
pub struct ExCanceled(Canceled);

/// The `Display` text of `futures::channel::oneshot::Canceled`, which its
/// source writes as the fixed words `oneshot canceled`.
#[verifier::external_body]
pub(crate) fn canceled_text(canceled: &Canceled) -> (text: String)
    ensures
        text@ == "oneshot canceled"@,
{
    format!("{}", canceled)
}

/// The words in which a `serde_json::Error` describes itself.
pub uninterp spec fn spec_json_error_text(error: JsonError) -> Seq<char>;

/// The `Display` text of a `serde_json::Error`: the words of the error
/// itself, whatever they are.
#[verifier::external_body]
pub(crate) fn json_error_text(error: &JsonError) -> (text: String)
    ensures
        text@ == spec_json_error_text(*error),
{
    format!("{}", error)
}

/// The debug rendering of a `serde_json::Value`.
pub uninterp spec fn spec_json_debug_text(value: Value) -> Seq<char>;

/// The `Debug` text of a `serde_json::Value`: the rendering of the value
/// itself, whatever it is.
#[verifier::external_body]
pub(crate) fn json_debug_text(value: &Value) -> (text: String)
    ensures
        text@ == spec_json_debug_text(*value),
{
    format!("{:?}", value)
}

/// `futures::channel::mpsc::UnboundedSender`: the sending half of an
/// unbounded queue.
#[verifier::external_type_specification]
#[verifier::external_body]
#[verifier::reject_recursive_types(T)]
pub struct ExUnboundedSender<T>(UnboundedSender<T>);

/// `futures::channel::mpsc::UnboundedReceiver`: the receiving half of an
/// unbounded queue.
#[verifier::external_type_specification]
#[verifier::external_body]
#[verifier::reject_recursive_types(T)]
pub struct ExUnboundedReceiver<T>(UnboundedReceiver<T>);

/// `futures::channel::mpsc::SendError`: why a message was not enqueued.
#[verifier::external_type_specification]
#[verifier::external_body]
pub struct ExSendError(SendError);

/// `futures::channel::oneshot::Sender`: the sending half of a one-shot
/// channel.
#[verifier::external_type_specification]
#[verifier::external_body]
#[verifier::reject_recursive_types(T)]
pub struct ExOneshotSender<T>(futures::channel::oneshot::Sender<T>);

/// `futures::channel::oneshot::Receiver`: the receiving half of a one-shot
/// channel.
#[verifier::external_type_specification]
#[verifier::external_body]
#[verifier::reject_recursive_types(T)]
pub struct ExOneshotReceiver<T>(futures::channel::oneshot::Receiver<T>);

/// What one look into a queue found.
pub enum Polled<T> {
    /// The oldest message that was waiting.
    Message(T),
    /// Nothing is waiting, and a sender is still there.
    Empty,
    /// Nothing is waiting, and nothing can come any more.
    Closed,
}

/// `futures::channel::mpsc::unbounded`: a new queue. Nothing is claimed of
/// the two halves.
#[verifier::external_body]
pub(crate) fn unbounded_channel<T>() -> (halves: (UnboundedSender<T>, UnboundedReceiver<T>))
{
    futures::channel::mpsc::unbounded()
}

/// `futures::channel::oneshot::channel`: a new one-shot channel. Nothing is
/// claimed of the two halves.
#[verifier::external_body]
pub(crate) fn oneshot_channel<T>() -> (halves: (
    futures::channel::oneshot::Sender<T>,
    futures::channel::oneshot::Receiver<T>,
))
{
    futures::channel::oneshot::channel()
}

/// `UnboundedSender::is_closed`: whether the queue takes no more messages.
/// The answer depends on what the other half did, so nothing is claimed.
#[verifier::external_body]
pub(crate) fn sender_is_closed<T>(sender: &UnboundedSender<T>) -> (closed: bool)
{
    sender.is_closed()
}

/// `UnboundedSender::unbounded_send`, its error reduced by
/// `TrySendError::into_send_error` to the error without the message. The
/// message is enqueued, or the send fails; which of the two depends on the
/// other half. An unbounded queue is never full, so its source fails a send
/// for one reason only, that the receiving half is gone, and such an error
/// describes itself in the fixed words `send failed because receiver is
/// gone`.
#[verifier::external_body]
pub(crate) fn unbounded_send<T>(sender: &UnboundedSender<T>, message: T) -> (sent: Result<
    (),
    SendError,
>)
    ensures
        sent matches Err(error) ==> spec_send_error_text(error)
            == "send failed because receiver is gone"@,
{
    match sender.unbounded_send(message) {
        Ok(()) => Ok(()),
        Err(error) => Err(error.into_send_error()),
    }
}

/// `UnboundedReceiver::try_recv`: takes the oldest waiting message, or
/// says whether the queue is merely empty or empty and closed. The three
/// outcomes are told apart and nothing else is claimed.
#[verifier::external_body]
pub(crate) fn poll_queue<T>(receiver: &mut UnboundedReceiver<T>) -> (polled: Polled<T>)
{
    match receiver.try_recv() {
        Ok(message) => Polled::Message(message),
        Err(TryRecvError::Empty) => Polled::Empty,
        Err(TryRecvError::Closed) => Polled::Closed,
    }
}

/// `oneshot::Sender::send`: delivers the value, or hands the same value
/// back when the receiving half is gone.
#[verifier::external_body]
pub(crate) fn oneshot_send<T>(sender: futures::channel::oneshot::Sender<T>, value: T) -> (sent:
    Result<(), T>)
    ensures
        sent matches Err(returned) ==> returned == value,
{
    sender.send(value)
}

/// `oneshot::Receiver::try_recv`: the value if one was sent, nothing if
/// none was sent yet, or the error when the sending half went away without
/// sending. Which of them depends on the other half.
#[verifier::external_body]
pub(crate) fn oneshot_try_recv<T>(receiver: &mut futures::channel::oneshot::Receiver<T>) -> (got:
    Result<Option<T>, Canceled>)
{
    receiver.try_recv()
}

/// The words in which a `futures::channel::mpsc::SendError` describes
/// itself.
pub uninterp spec fn spec_send_error_text(error: SendError) -> Seq<char>;

/// The `Display` text of a `futures::channel::mpsc::SendError`: the words
/// of the error itself, whatever they are.
#[verifier::external_body]
pub(crate) fn send_error_text(error: &SendError) -> (text: String)
    ensures
        text@ == spec_send_error_text(*error),
{
    format!("{}", error)
}

/// `Clone` for `UnboundedSender`: another sending half of the same queue.
/// Nothing is claimed of it.
pub assume_specification<T>[ <UnboundedSender<T> as Clone>::clone ](
    sender: &UnboundedSender<T>,
) -> (copy: UnboundedSender<T>)
;

/// `serde_json::Number`: a JSON number, carried through unread.
#[verifier::external_type_specification]
#[verifier::external_body]
pub struct ExJsonNumber(Number);

/// The number that a JSON value is, where it is one.
pub uninterp spec fn spec_json_number(value: Value) -> Option<Number>;

/// `serde_json::Value::as_number`: the number where the value is one, and
/// nothing where it is anything else.
#[verifier::external_body]
pub(crate) fn json_as_number(value: &Value) -> (number: Option<&Number>)
    ensures
        number matches Some(found) ==> spec_json_number(*value) == Some(*found),
        number.is_none() ==> spec_json_number(*value).is_none(),
{
    value.as_number()
}

/// The bytes in which a JSON number is written.
pub uninterp spec fn spec_json_number_text(number: Number) -> Seq<u8>;

/// The `Display` text of a `serde_json::Number`, which is how the number
/// is written in JSON, as bytes.
#[verifier::external_body]
pub(crate) fn json_number_text(number: &Number) -> (text: Vec<u8>)
    ensures
        text@ == spec_json_number_text(*number),
{
    format!("{}", number).into_bytes()
}

/// The field of the given name in a JSON value, where the value is an
/// object that has it.
pub uninterp spec fn spec_json_field(value: Value, key: Seq<char>) -> Option<Value>;

/// `serde_json::Value::get` with a string: the field of that name where the
/// value is an object that has it, and nothing otherwise.
#[verifier::external_body]
pub(crate) fn json_get<'a>(value: &'a Value, key: &str) -> (field: Option<&'a Value>)
    ensures
        field matches Some(found) ==> spec_json_field(*value, key@) == Some(*found),
        field.is_none() ==> spec_json_field(*value, key@).is_none(),
{
    value.get(key)
}

/// The unsigned integer that a JSON value is, where it is one that fits 64
/// bits.
pub uninterp spec fn spec_json_u64(value: Value) -> Option<u64>;

/// `serde_json::Value::as_u64`: the value as an unsigned integer where it
/// is one, and nothing otherwise.
#[verifier::external_body]
pub(crate) fn json_as_u64(value: &Value) -> (number: Option<u64>)
    ensures
        number == spec_json_u64(*value),
{
    value.as_u64()
}

/// The text that a JSON value is, where it is a string.
pub uninterp spec fn spec_json_str(value: Value) -> Option<Seq<char>>;

/// `serde_json::Value::as_str`: the text where the value is a string, and
/// nothing where it is anything else.
#[verifier::external_body]
pub(crate) fn json_as_str(value: &Value) -> (text: Option<&str>)
    ensures
        text matches Some(found) ==> spec_json_str(*value) == Some(found@),
        text.is_none() ==> spec_json_str(*value).is_none(),
{
    value.as_str()
}

/// The elements of a JSON value, where it is an array.
pub uninterp spec fn spec_json_array(value: Value) -> Option<Seq<Value>>;

/// `serde_json::Value::as_array`: the elements where the value is an
/// array, and nothing where it is anything else.
#[verifier::external_body]
pub(crate) fn json_as_array(value: &Value) -> (items: Option<&Vec<Value>>)
    ensures
        items matches Some(found) ==> spec_json_array(*value) == Some(found@),
        items.is_none() ==> spec_json_array(*value).is_none(),
{
    value.as_array()
}

/// The truth value that a JSON value is, where it is one.
pub uninterp spec fn spec_json_bool(value: Value) -> Option<bool>;

/// `serde_json::Value::as_bool`: the truth value where the value is one,
/// and nothing where it is anything else.
#[verifier::external_body]
pub(crate) fn json_as_bool(value: &Value) -> (truth: Option<bool>)
    ensures
        truth == spec_json_bool(*value),
{
    value.as_bool()
}

/// Whether a JSON value is `null`.
pub uninterp spec fn spec_json_is_null(value: Value) -> bool;

/// `serde_json::Value::is_null`: whether the value is `null`.
#[verifier::external_body]
pub(crate) fn json_is_null(value: &Value) -> (null: bool)
    ensures
        null == spec_json_is_null(*value),
{
    value.is_null()
}

/// `==` on `str`, which vstd does not specify: two texts are equal exactly
/// when they hold the same characters.
#[verifier::external_body]
pub(crate) fn text_eq(a: &str, b: &str) -> (same: bool)
    ensures
        same == (a@ == b@),
{
    a == b
}

/// Whether a JSON value is an object.
pub uninterp spec fn spec_json_is_object(value: Value) -> bool;

/// `serde_json::Value::is_object`: whether the value is an object.
#[verifier::external_body]
pub(crate) fn json_is_object(value: &Value) -> (object: bool)
    ensures
        object == spec_json_is_object(*value),
{
    value.is_object()
}

} // verus!

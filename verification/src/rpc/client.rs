//! What a client makes of the messages that a node sends it.

use serde_json::Value;
use vstd::prelude::*;
use vstd::string::{StrSliceExecFns, StringExecFns};

use crate::rpc::json::{
    json_at2, json_content, json_element, json_i64, json_is_object, json_member, json_member2,
    json_parsed, json_str, json_written, parse_json, same_text, text_of, write_json, Json,
};
use crate::rpc::text::{append_decimal, decimal};

verus! {

/// How far an extrinsic has come.
#[derive(Clone, Copy, Debug, PartialEq, Eq, Structural)]
pub enum XtStatus {
    Finalized,
    InBlock,
    Broadcast,
    Ready,
    Future,
    Error,
    Unknown,
    SubmitOnly,
}

/// What can be wrong with a message of the node.
#[derive(Debug)]
pub enum RpcClientError {
    /// It is not JSON.
    Serde,
    /// The node reports an error.
    Extrinsic(String),
}

/// What a [`RpcClientError`] is.
pub enum ErrorView {
    Serde,
    Extrinsic(Seq<char>),
}

impl View for RpcClientError {
    type V = ErrorView;

    open spec fn view(&self) -> ErrorView {
        match self {
            RpcClientError::Serde => ErrorView::Serde,
            RpcClientError::Extrinsic(text) => ErrorView::Extrinsic(text@),
        }
    }
}

/// Whether a member is missing or a text.
pub open spec fn text_or_missing(content: Json, key: Seq<char>) -> bool {
    content.member(key) matches Some(member) ==> member is Text
}

/// Whether the error that a message reports can be read: an object, whose
/// message and data are texts and whose code is an integer as far as they are
/// there.
pub open spec fn readable_error(content: Json) -> bool {
    content.member("error"@) matches Some(error) && {
        &&& error is Object
        &&& text_or_missing(error, "message"@)
        &&& text_or_missing(error, "data"@)
        &&& error.member("code"@) matches Some(code) ==> code.integer() is Some
    }
}

/// The text of a member, empty where it is missing.
pub open spec fn text_or_empty(content: Json, key: Seq<char>) -> Seq<char> {
    match text_of(content.member(key)) {
        Some(text) => text,
        None => Seq::empty(),
    }
}

/// The code of an error, -1 where it is missing.
pub open spec fn error_code(error: Json) -> int {
    match error.member("code"@) {
        Some(code) => match code.integer() {
            Some(code) => code as int,
            None => -1,
        },
        None => -1,
    }
}

/// How an error is put into words.
pub open spec fn error_text(code: int, message: Seq<char>, details: Seq<char>) -> Seq<char> {
    "extrinsic error code "@ + decimal(code) + ": "@ + message + ": "@ + details
}

/// The error that a message reports, in words.
pub open spec fn reported_error(content: Json) -> Seq<char> {
    let error = content.member("error"@)->0;
    error_text(
        error_code(error),
        text_or_empty(error, "message"@),
        text_or_empty(error, "data"@),
    )
}

/// Puts an error into words.
pub fn extrinsic_error(code: i64, message: &str, details: &str) -> (error: RpcClientError)
    ensures
        error@ == ErrorView::Extrinsic(error_text(code as int, message@, details@)),
        error@ == ErrorView::Extrinsic(
            "extrinsic error code "@ + decimal(code as int) + ": "@ + message@ + ": "@ + details@,
        ),
{
    let mut text = String::new();
    text.append("extrinsic error code ");
    append_decimal(&mut text, code);
    text.append(": ");
    text.append(message);
    text.append(": ");
    text.append(details);
    proof {
        assert(text@ =~= error_text(code as int, message@, details@));
    }
    RpcClientError::Extrinsic(text)
}

fn is_readable_text(value: &Value, key: &str) -> (readable: bool)
    ensures
        readable == text_or_missing(json_content(*value), key@),
{
    match json_member(value, key) {
        Some(member) => json_str(member).is_some(),
        None => true,
    }
}

/// Whether the error that a message reports can be read.
pub fn has_readable_error(value: &Value) -> (readable: bool)
    ensures
        readable == readable_error(json_content(*value)),
{
    match json_member(value, "error") {
        None => false,
        Some(error) => {
            let code_readable: bool = match json_member(error, "code") {
                Some(code) => json_i64(code).is_some(),
                None => true,
            };
            json_is_object(error) && is_readable_text(error, "message") && is_readable_text(
                error,
                "data",
            ) && code_readable
        },
    }
}

fn text_or_empty_of<'a>(value: &'a Value, key: &str) -> (text: &'a str)
    ensures
        text@ == text_or_empty(json_content(*value), key@),
{
    proof {
        reveal_strlit("");
        assert(""@ =~= Seq::<char>::empty());
    }
    match json_member(value, key) {
        Some(member) => match json_str(member) {
            Some(text) => text,
            None => "",
        },
        None => "",
    }
}

/// Reads the error that a message reports.
pub fn into_extrinsic_err(value: &Value) -> (error: RpcClientError)
    requires
        readable_error(json_content(*value)),
    ensures
        error@ == ErrorView::Extrinsic(reported_error(json_content(*value))),
{
    let reported = json_member(value, "error").unwrap();
    let message = text_or_empty_of(reported, "message");
    let code: i64 = match json_member(reported, "code") {
        Some(code) => json_i64(code).unwrap(),
        None => -1,
    };
    let details = text_or_empty_of(reported, "data");
    extrinsic_error(code, message, details)
}

/// What a message says of an extrinsic.
pub enum ParsedStatus {
    Failed(ErrorView),
    Status(XtStatus, Option<Seq<char>>),
}

/// The status of an extrinsic in the result of a notification.
pub open spec fn status_in(result: Option<Json>) -> (XtStatus, Option<Seq<char>>) {
    match result {
        Some(Json::Object(members)) => {
            if lookup_is_some(members, "finalized"@) {
                (XtStatus::Finalized, written_member(members, "finalized"@))
            } else if lookup_is_some(members, "inBlock"@) {
                (XtStatus::InBlock, written_member(members, "inBlock"@))
            } else if lookup_is_some(members, "broadcast"@) {
                (XtStatus::Broadcast, written_member(members, "broadcast"@))
            } else {
                (XtStatus::Unknown, None)
            }
        },
        Some(Json::Text(text)) => {
            if text == "ready"@ {
                (XtStatus::Ready, None)
            } else if text == "future"@ {
                (XtStatus::Future, None)
            } else {
                (XtStatus::Unknown, None)
            }
        },
        _ => (XtStatus::Unknown, None),
    }
}

/// Whether there is a member with the key.
pub open spec fn lookup_is_some(members: Seq<(Seq<char>, Json)>, key: Seq<char>) -> bool {
    Json::Object(members).member(key) is Some
}

/// The member with the key, as it is written.
pub open spec fn written_member(members: Seq<(Seq<char>, Json)>, key: Seq<char>) -> Option<
    Seq<char>,
> {
    Some(json_written(Json::Object(members).member(key)->0))
}

/// Whether a message reports an error.
pub open spec fn reports_error(content: Json) -> bool {
    content.member("error"@) matches Some(error) && error is Object
}

/// What a message says of an extrinsic, where it is JSON.
pub open spec fn status_of(content: Json) -> ParsedStatus {
    if reports_error(content) {
        ParsedStatus::Failed(ErrorView::Extrinsic(reported_error(content)))
    } else {
        let (status, value) = status_in(json_at2(content, "params"@, "result"@));
        ParsedStatus::Status(status, value)
    }
}

/// What a text is, given what `serde_json` reads in it.
pub open spec fn parsed_status(document: Option<Json>) -> ParsedStatus {
    match document {
        None => ParsedStatus::Failed(ErrorView::Serde),
        Some(content) => status_of(content),
    }
}

/// What a message said of an extrinsic.
pub type RpcStatus = Result<(XtStatus, Option<String>), RpcClientError>;

/// The text in an option.
pub open spec fn text_view(text: Option<String>) -> Option<Seq<char>> {
    match text {
        Some(text) => Some(text@),
        None => None,
    }
}

/// What a [`RpcStatus`] is.
pub open spec fn rpc_status_view(status: RpcStatus) -> ParsedStatus {
    match status {
        Ok((status, value)) => ParsedStatus::Status(status, text_view(value)),
        Err(error) => ParsedStatus::Failed(error@),
    }
}

/// Reads what a message says of an extrinsic.
pub fn read_status(value: &Value) -> (status: RpcStatus)
    requires
        reports_error(json_content(*value)) ==> readable_error(json_content(*value)),
    ensures
        rpc_status_view(status) == status_of(json_content(*value)),
{
    if let Some(error) = json_member(value, "error") {
        if json_is_object(error) {
            return Err(into_extrinsic_err(value));
        }
    }
    match json_member2(value, "params", "result") {
        None => Ok((XtStatus::Unknown, None)),
        Some(result) => {
            if json_is_object(result) {
                if let Some(hash) = json_member(result, "finalized") {
                    Ok((XtStatus::Finalized, Some(write_json(hash))))
                } else if let Some(hash) = json_member(result, "inBlock") {
                    Ok((XtStatus::InBlock, Some(write_json(hash))))
                } else if let Some(array) = json_member(result, "broadcast") {
                    Ok((XtStatus::Broadcast, Some(write_json(array))))
                } else {
                    Ok((XtStatus::Unknown, None))
                }
            } else {
                match json_str(result) {
                    Some(text) => {
                        if same_text(text, "ready") {
                            Ok((XtStatus::Ready, None))
                        } else if same_text(text, "future") {
                            Ok((XtStatus::Future, None))
                        } else {
                            Ok((XtStatus::Unknown, None))
                        }
                    },
                    None => Ok((XtStatus::Unknown, None)),
                }
            }
        },
    }
}

/// Whether a message is such that its error, if it reports one, can be read.
pub open spec fn comprehensible(document: Option<Json>) -> bool {
    document matches Some(content) ==> reports_error(content) ==> readable_error(content)
}

/// Parses a message on the status of an extrinsic. `None` where the message
/// reports an error that cannot be read.
pub fn parse_status(msg: &str) -> (status: Option<RpcStatus>)
    ensures
        status is Some <==> comprehensible(json_parsed(msg@)),
        status matches Some(status) ==> rpc_status_view(status) == parsed_status(
            json_parsed(msg@),
        ),
{
    match parse_json(msg) {
        None => Some(Err(RpcClientError::Serde)),
        Some(value) => {
            let reports: bool = match json_member(&value, "error") {
                Some(error) => json_is_object(error),
                None => false,
            };
            if reports && !has_readable_error(&value) {
                None
            } else {
                Some(read_status(&value))
            }
        },
    }
}

/// What handling a message comes to: what is handed to whoever waits for it,
/// and the error that it ends with.
#[derive(Debug)]
pub struct Handled {
    pub sent: Option<String>,
    pub error: Option<RpcClientError>,
}

/// What a [`Handled`] is.
#[verifier::ext_equal]
pub struct HandledView {
    pub sent: Option<Seq<char>>,
    pub error: Option<ErrorView>,
}

impl View for Handled {
    type V = HandledView;

    open spec fn view(&self) -> HandledView {
        HandledView {
            sent: text_view(self.sent),
            error: match self.error {
                Some(error) => Some(error@),
                None => None,
            },
        }
    }
}

impl HandledView {
    /// Nothing comes of the message.
    pub open spec fn nothing() -> Self {
        HandledView { sent: None, error: None }
    }

    /// The wait is over, with a value or without.
    pub open spec fn ended(value: Option<Seq<char>>) -> Self {
        HandledView {
            sent: Some(
                match value {
                    Some(text) => text,
                    None => Seq::empty(),
                },
            ),
            error: None,
        }
    }

    /// The wait is over without a value, and with an error.
    pub open spec fn failed(error: ErrorView) -> Self {
        HandledView { sent: Some(Seq::empty()), error: Some(error) }
    }
}

/// Until when a client waits for an extrinsic.
#[derive(Clone, Copy, Debug, PartialEq, Eq, Structural)]
pub enum Goal {
    Finalized,
    InBlock,
    Broadcast,
    Ready,
}

/// What comes of a message on the status of an extrinsic: being finalized and
/// being put off always end the wait, as does what is waited for, and errors.
/// The value is handed on where the extrinsic is in a block.
pub open spec fn reaction(goal: Goal, status: ParsedStatus) -> HandledView {
    match status {
        ParsedStatus::Failed(error) => HandledView::failed(error),
        ParsedStatus::Status(XtStatus::Finalized, value) => HandledView::ended(value),
        ParsedStatus::Status(XtStatus::Future, _) => HandledView::ended(None),
        ParsedStatus::Status(XtStatus::InBlock, value) => if goal == Goal::InBlock {
            HandledView::ended(value)
        } else {
            HandledView::nothing()
        },
        ParsedStatus::Status(XtStatus::Broadcast, _) => if goal == Goal::Broadcast {
            HandledView::ended(None)
        } else {
            HandledView::nothing()
        },
        ParsedStatus::Status(XtStatus::Ready, _) => if goal == Goal::Ready {
            HandledView::ended(None)
        } else {
            HandledView::nothing()
        },
        ParsedStatus::Status(_, _) => HandledView::nothing(),
    }
}

fn end_process(value: Option<String>) -> (handled: Handled)
    ensures
        handled@ == HandledView::ended(text_view(value)),
{
    let sent = match value {
        Some(text) => text,
        None => String::new(),
    };
    proof {
        assert(value is None ==> sent@ =~= Seq::<char>::empty());
    }
    Handled { sent: Some(sent), error: None }
}

fn end_with_error(error: RpcClientError) -> (handled: Handled)
    ensures
        handled@ == HandledView::failed(error@),
{
    let sent = String::new();
    proof {
        assert(sent@ =~= Seq::<char>::empty());
    }
    Handled { sent: Some(sent), error: Some(error) }
}

/// What comes of a message on the status of an extrinsic.
pub fn react(goal: Goal, status: RpcStatus) -> (handled: Handled)
    ensures
        handled@ == reaction(goal, rpc_status_view(status)),
{
    match status {
        Err(error) => end_with_error(error),
        Ok((XtStatus::Finalized, value)) => end_process(value),
        Ok((XtStatus::Future, _)) => end_process(None),
        Ok((XtStatus::InBlock, value)) => if goal == Goal::InBlock {
            end_process(value)
        } else {
            Handled { sent: None, error: None }
        },
        Ok((XtStatus::Broadcast, _)) => if goal == Goal::Broadcast {
            end_process(None)
        } else {
            Handled { sent: None, error: None }
        },
        Ok((XtStatus::Ready, _)) => if goal == Goal::Ready {
            end_process(None)
        } else {
            Handled { sent: None, error: None }
        },
        Ok(_) => Handled { sent: None, error: None },
    }
}

fn react_to_text(goal: Goal, msg: &str) -> (handled: Option<Handled>)
    ensures
        handled is Some <==> comprehensible(json_parsed(msg@)),
        handled matches Some(h) ==> h@ == reaction(goal, parsed_status(json_parsed(msg@))),
{
    match parse_status(msg) {
        Some(status) => Some(react(goal, status)),
        None => None,
    }
}

/// Handles a message while waiting for an extrinsic to be finalized. `None`
/// where the message reports an error that cannot be read.
pub fn on_extrinsic_msg_until_finalized(msg: &str) -> (handled: Option<Handled>)
    ensures
        handled is Some <==> comprehensible(json_parsed(msg@)),
        handled matches Some(h) ==> h@ == reaction(
            Goal::Finalized,
            parsed_status(json_parsed(msg@)),
        ),
{
    react_to_text(Goal::Finalized, msg)
}

/// Handles a message while waiting for an extrinsic to be in a block. `None`
/// where the message reports an error that cannot be read.
pub fn on_extrinsic_msg_until_in_block(msg: &str) -> (handled: Option<Handled>)
    ensures
        handled is Some <==> comprehensible(json_parsed(msg@)),
        handled matches Some(h) ==> h@ == reaction(
            Goal::InBlock,
            parsed_status(json_parsed(msg@)),
        ),
{
    react_to_text(Goal::InBlock, msg)
}

/// Handles a message while waiting for an extrinsic to be broadcast. `None`
/// where the message reports an error that cannot be read.
pub fn on_extrinsic_msg_until_broadcast(msg: &str) -> (handled: Option<Handled>)
    ensures
        handled is Some <==> comprehensible(json_parsed(msg@)),
        handled matches Some(h) ==> h@ == reaction(
            Goal::Broadcast,
            parsed_status(json_parsed(msg@)),
        ),
{
    react_to_text(Goal::Broadcast, msg)
}

/// Handles a message while waiting for an extrinsic to be ready. `None` where
/// the message reports an error that cannot be read.
pub fn on_extrinsic_msg_until_ready(msg: &str) -> (handled: Option<Handled>)
    ensures
        handled is Some <==> comprehensible(json_parsed(msg@)),
        handled matches Some(h) ==> h@ == reaction(Goal::Ready, parsed_status(json_parsed(msg@))),
{
    react_to_text(Goal::Ready, msg)
}

/// What comes of the answer to a mere submission: its result where that is a
/// text, else the error that it reports.
pub open spec fn submission_reaction(document: Option<Json>) -> HandledView {
    match document {
        None => HandledView::failed(ErrorView::Serde),
        Some(content) => match text_of(content.member("result"@)) {
            Some(text) => HandledView::ended(Some(text)),
            None => HandledView::failed(ErrorView::Extrinsic(reported_error(content))),
        },
    }
}

/// Whether the answer to a submission has a result or an error that can be read.
pub open spec fn answers_submission(document: Option<Json>) -> bool {
    document matches Some(content) ==> text_of(content.member("result"@)) is None
        ==> readable_error(content)
}

/// Handles the answer to a mere submission. `None` where it has neither a
/// result nor an error that can be read.
pub fn on_extrinsic_msg_submit_only(msg: &str) -> (handled: Option<Handled>)
    ensures
        handled is Some <==> answers_submission(json_parsed(msg@)),
        handled matches Some(h) ==> h@ == submission_reaction(json_parsed(msg@)),
{
    match parse_json(msg) {
        None => Some(end_with_error(RpcClientError::Serde)),
        Some(value) => {
            let text: Option<&str> = match json_member(&value, "result") {
                Some(result) => json_str(result),
                None => None,
            };
            match text {
                Some(text) => Some(end_process(Some(text.to_owned()))),
                None => if has_readable_error(&value) {
                    Some(end_with_error(into_extrinsic_err(&value)))
                } else {
                    None
                },
            }
        },
    }
}

/// A member as it is written; `null` where it is missing.
pub open spec fn written_or_null(member: Option<Json>) -> Seq<char> {
    match member {
        Some(content) => json_written(content),
        None => "null"@,
    }
}

fn write_or_null(member: Option<&Value>) -> (text: String)
    ensures
        text@ == written_or_null(
            match member {
                Some(value) => Some(json_content(*value)),
                None => None,
            },
        ),
{
    match member {
        Some(value) => write_json(value),
        None => "null".to_owned(),
    }
}

/// What comes of the answer to a request: its result.
pub open spec fn request_reaction(document: Option<Json>) -> HandledView {
    match document {
        None => HandledView { sent: None, error: Some(ErrorView::Serde) },
        Some(content) => HandledView {
            sent: Some(written_or_null(content.member("result"@))),
            error: None,
        },
    }
}

/// Handles the answer to a request.
pub fn on_get_request_msg(msg: &str) -> (handled: Handled)
    ensures
        handled@ == request_reaction(json_parsed(msg@)),
{
    match parse_json(msg) {
        None => Handled { sent: None, error: Some(RpcClientError::Serde) },
        Some(value) => Handled {
            sent: Some(write_or_null(json_member(&value, "result"))),
            error: None,
        },
    }
}

/// The first change in a notification of a changed storage: the text at the
/// second place of the first change.
pub open spec fn first_change(content: Json) -> Option<Seq<char>> {
    match json_at2(content, "params"@, "result"@) {
        None => None,
        Some(result) => match result.member("changes"@) {
            None => None,
            Some(changes) => match changes.element(0) {
                None => None,
                Some(change) => text_of(change.element(1)),
            },
        },
    }
}

/// What comes of a notification: of a changed storage its first change, of a
/// finalized head the head, of everything else nothing.
pub open spec fn notification(content: Json) -> Option<Seq<char>> {
    if text_of(content.member("id"@)) is Some {
        None
    } else if text_of(content.member("method"@)) == Some("state_storage"@) {
        first_change(content)
    } else if text_of(content.member("method"@)) == Some("chain_finalizedHead"@) {
        Some(written_or_null(json_at2(content, "params"@, "result"@)))
    } else {
        None
    }
}

/// What comes of a message of a subscription.
pub open spec fn subscription_reaction(document: Option<Json>) -> HandledView {
    match document {
        None => HandledView { sent: None, error: Some(ErrorView::Serde) },
        Some(content) => HandledView { sent: notification(content), error: None },
    }
}

fn first_change_of(value: &Value) -> (change: Option<String>)
    ensures
        text_view(change) == first_change(json_content(*value)),
{
    match json_member2(value, "params", "result") {
        None => None,
        Some(result) => match json_member(result, "changes") {
            None => None,
            Some(changes) => match json_element(changes, 0) {
                None => None,
                Some(change) => match json_element(change, 1) {
                    None => None,
                    Some(text) => match json_str(text) {
                        Some(text) => Some(text.to_owned()),
                        None => None,
                    },
                },
            },
        },
    }
}

/// Handles a message of a subscription.
pub fn on_subscription_msg(msg: &str) -> (handled: Handled)
    ensures
        handled@ == subscription_reaction(json_parsed(msg@)),
{
    match parse_json(msg) {
        None => Handled { sent: None, error: Some(RpcClientError::Serde) },
        Some(value) => Handled { sent: read_notification(&value), error: None },
    }
}

/// Reads a notification.
pub fn read_notification(value: &Value) -> (sent: Option<String>)
    ensures
        text_view(sent) == notification(json_content(*value)),
{
    if let Some(id) = json_member(value, "id") {
        if json_str(id).is_some() {
            return None;
        }
    }
    let method: Option<&str> = match json_member(value, "method") {
        Some(method) => json_str(method),
        None => None,
    };
    match method {
        None => None,
        Some(method) => {
            if same_text(method, "state_storage") {
                first_change_of(value)
            } else if same_text(method, "chain_finalizedHead") {
                Some(write_or_null(json_member2(value, "params", "result")))
            } else {
                None
            }
        },
    }
}

/// What a client listens for.
#[derive(Clone, Copy, Debug, PartialEq, Eq, Structural)]
pub enum Listener {
    /// The answer to a request.
    GetRequest,
    /// The answer to a mere submission.
    SubmitOnly,
    /// The progress of an extrinsic.
    Extrinsic(Goal),
    /// The notifications of a subscription.
    Subscription,
}

/// How an extrinsic is submitted.
#[derive(Debug, PartialEq, Eq)]
pub struct Submission {
    /// The extrinsic, in hexadecimal.
    pub extrinsic: String,
    /// Whether its progress is to be watched.
    pub watch: bool,
    pub listener: Listener,
    /// Whether what is received is the hash of a block.
    pub yields_hash: bool,
}

/// What a submission is.
#[verifier::ext_equal]
pub struct SubmissionView {
    pub extrinsic: Seq<char>,
    pub watch: bool,
    pub listener: Listener,
    pub yields_hash: bool,
}

impl View for Submission {
    type V = SubmissionView;

    open spec fn view(&self) -> SubmissionView {
        SubmissionView {
            extrinsic: self.extrinsic@,
            watch: self.watch,
            listener: self.listener,
            yields_hash: self.yields_hash,
        }
    }
}

/// How an extrinsic is submitted that is waited for until the status. Only some
/// statuses can be waited for.
pub open spec fn submission_for(extrinsic: Seq<char>, exit_on: XtStatus) -> Option<SubmissionView> {
    let goal = match exit_on {
        XtStatus::Finalized => Some(Listener::Extrinsic(Goal::Finalized)),
        XtStatus::InBlock => Some(Listener::Extrinsic(Goal::InBlock)),
        XtStatus::Broadcast => Some(Listener::Extrinsic(Goal::Broadcast)),
        XtStatus::Ready => Some(Listener::Extrinsic(Goal::Ready)),
        XtStatus::SubmitOnly => Some(Listener::SubmitOnly),
        _ => None,
    };
    match goal {
        Some(listener) => Some(
            SubmissionView {
                extrinsic,
                watch: exit_on != XtStatus::SubmitOnly,
                listener,
                yields_hash: exit_on == XtStatus::Finalized || exit_on == XtStatus::InBlock,
            },
        ),
        None => None,
    }
}

/// A status that cannot be waited for.
#[derive(Clone, Copy, Debug, PartialEq, Eq, Structural)]
pub struct UnsupportedXtStatus(pub XtStatus);

/// A text that was to be the hash of a block and is none.
#[derive(Clone, Copy, Debug, PartialEq, Eq, Structural)]
pub struct UndecodableHash;

/// What `sp_core::H256::from_str` reads in a text; nothing where it is no hash.
pub uninterp spec fn hash_of_text(text: Seq<char>) -> Option<Seq<u8>>;

/// The bytes of a hash.
pub open spec fn hash_bytes_view(hash: Option<[u8; 32]>) -> Option<Seq<u8>> {
    match hash {
        Some(hash) => Some(hash@),
        None => None,
    }
}

/// Calls `sp_core::H256::from_str`: which hash is read, if any, is a function of
/// the text.
#[verifier::external_body]
fn decode_hash(text: &str) -> (hash: Option<[u8; 32]>)
    ensures
        hash_bytes_view(hash) == hash_of_text(text@),
{
    text.parse::<sp_core::H256>().ok().map(|hash| hash.0)
}

/// A text without the quotes at its start.
pub open spec fn without_leading_quotes(text: Seq<char>) -> Seq<char>
    decreases text.len(),
{
    if text.len() > 0 && text.first() == '"' {
        without_leading_quotes(text.drop_first())
    } else {
        text
    }
}

/// A text without the quotes at its end.
pub open spec fn without_trailing_quotes(text: Seq<char>) -> Seq<char>
    decreases text.len(),
{
    if text.len() > 0 && text.last() == '"' {
        without_trailing_quotes(text.drop_last())
    } else {
        text
    }
}

/// A text without the quotes around it.
pub open spec fn unquoted(text: Seq<char>) -> Seq<char> {
    without_trailing_quotes(without_leading_quotes(text))
}

/// A text without the quotes around it.
pub fn unquote<'a>(text: &'a str) -> (inner: &'a str)
    ensures
        inner@ == unquoted(text@),
{
    let count: usize = text.unicode_len();
    let mut start: usize = 0;
    proof {
        assert(text@.skip(0) =~= text@);
    }
    while start < count && text.get_char(start) == '"'
        invariant
            start <= count,
            count == text@.len(),
            without_leading_quotes(text@.skip(start as int)) == without_leading_quotes(text@),
        decreases count - start,
    {
        proof {
            assert(text@.skip(start as int).drop_first() =~= text@.skip(start + 1));
        }
        start = start + 1;
    }
    let ghost led = text@.skip(start as int);
    let mut end: usize = count;
    proof {
        assert(text@.subrange(start as int, end as int) =~= led);
    }
    while start < end && text.get_char(end - 1) == '"'
        invariant
            start <= end <= count,
            count == text@.len(),
            without_trailing_quotes(text@.subrange(start as int, end as int))
                == without_trailing_quotes(led),
        decreases end - start,
    {
        proof {
            assert(text@.subrange(start as int, end as int).drop_last() =~= text@.subrange(
                start as int,
                end - 1,
            ));
        }
        end = end - 1;
    }
    text.substring_char(start, end)
}

/// The client of a node: one request at a time, and a listener for what comes
/// of it.
#[derive(Debug)]
pub struct WsRpcClient {
    next_handler: Option<Listener>,
}

impl View for WsRpcClient {
    type V = Option<Listener>;

    closed spec fn view(&self) -> Option<Listener> {
        self.next_handler
    }
}

/// What comes of a message for a listener, if the message can be understood.
pub open spec fn listener_reaction(listener: Listener, document: Option<Json>) -> Option<
    HandledView,
> {
    match listener {
        Listener::GetRequest => Some(request_reaction(document)),
        Listener::Subscription => Some(subscription_reaction(document)),
        Listener::SubmitOnly => if answers_submission(document) {
            Some(submission_reaction(document))
        } else {
            None
        },
        Listener::Extrinsic(goal) => if comprehensible(document) {
            Some(reaction(goal, parsed_status(document)))
        } else {
            None
        },
    }
}

impl WsRpcClient {
    /// A client that listens for nothing.
    pub fn new() -> (client: Self)
        ensures
            client@ is None,
    {
        WsRpcClient { next_handler: None }
    }

    /// Begins to listen for what comes of a request, before the request is sent.
    pub fn listen(&mut self, listener: Listener)
        ensures
            final(self)@ == Some(listener),
    {
        self.next_handler = Some(listener);
    }

    /// Begins to listen for the answer to a request.
    pub fn get(&mut self)
        ensures
            final(self)@ == Some(Listener::GetRequest),
    {
        self.listen(Listener::GetRequest)
    }

    /// Begins to listen for the answer to a mere submission.
    pub fn send_extrinsic_submit_only(&mut self)
        ensures
            final(self)@ == Some(Listener::SubmitOnly),
    {
        self.listen(Listener::SubmitOnly)
    }

    /// Begins to listen until an extrinsic is ready.
    pub fn send_extrinsic_until_ready(&mut self)
        ensures
            final(self)@ == Some(Listener::Extrinsic(Goal::Ready)),
    {
        self.listen(Listener::Extrinsic(Goal::Ready))
    }

    /// Begins to listen until an extrinsic is broadcast.
    pub fn send_extrinsic_and_wait_until_broadcast(&mut self)
        ensures
            final(self)@ == Some(Listener::Extrinsic(Goal::Broadcast)),
    {
        self.listen(Listener::Extrinsic(Goal::Broadcast))
    }

    /// Begins to listen until an extrinsic is in a block.
    pub fn send_extrinsic_and_wait_until_in_block(&mut self)
        ensures
            final(self)@ == Some(Listener::Extrinsic(Goal::InBlock)),
    {
        self.listen(Listener::Extrinsic(Goal::InBlock))
    }

    /// Begins to listen until an extrinsic is finalized.
    pub fn send_extrinsic_and_wait_until_finalized(&mut self)
        ensures
            final(self)@ == Some(Listener::Extrinsic(Goal::Finalized)),
    {
        self.listen(Listener::Extrinsic(Goal::Finalized))
    }

    /// Begins to listen for the notifications of a subscription.
    pub fn start_subscriber(&mut self)
        ensures
            final(self)@ == Some(Listener::Subscription),
    {
        self.listen(Listener::Subscription)
    }

    /// Begins to submit an extrinsic that is waited for until `exit_on`. A status
    /// that cannot be waited for ends the submission at once.
    pub fn send_extrinsic(&mut self, xthex_prefixed: String, exit_on: XtStatus) -> (submission:
        Result<Submission, UnsupportedXtStatus>)
        ensures
            match submission_for(xthex_prefixed@, exit_on) {
                Some(s) => submission matches Ok(submission) && submission@ == s && final(self)@
                    == Some(s.listener),
                None => submission == Err::<Submission, _>(UnsupportedXtStatus(exit_on))
                    && final(self)@ is None,
            },
    {
        let watch: bool = match exit_on {
            XtStatus::SubmitOnly => false,
            _ => true,
        };
        let yields_hash: bool = match exit_on {
            XtStatus::Finalized => {
                self.send_extrinsic_and_wait_until_finalized();
                true
            },
            XtStatus::InBlock => {
                self.send_extrinsic_and_wait_until_in_block();
                true
            },
            XtStatus::Broadcast => {
                self.send_extrinsic_and_wait_until_broadcast();
                false
            },
            XtStatus::Ready => {
                self.send_extrinsic_until_ready();
                false
            },
            XtStatus::SubmitOnly => {
                self.send_extrinsic_submit_only();
                false
            },
            _ => {
                self.reset();
                return Err(UnsupportedXtStatus(exit_on));
            },
        };
        let listener: Listener = self.next_handler.unwrap();
        Ok(Submission { extrinsic: xthex_prefixed, watch, listener, yields_hash })
    }

    /// Ends a submission with what was received for it. Where that is the hash of
    /// a block, it is decoded. Listens for nothing from then on.
    pub fn finish_extrinsic(&mut self, submission: &Submission, received: &str) -> (result: Result<
        Option<[u8; 32]>,
        UndecodableHash,
    >)
        ensures
            final(self)@ is None,
            if submission.yields_hash {
                match hash_of_text(unquoted(received@)) {
                    Some(bytes) => result matches Ok(Some(hash)) && hash@ == bytes,
                    None => result == Err::<Option<[u8; 32]>, _>(UndecodableHash),
                }
            } else {
                result == Ok::<Option<[u8; 32]>, UndecodableHash>(None)
            },
    {
        self.reset();
        if submission.yields_hash {
            match decode_hash(unquote(received)) {
                Some(hash) => Ok(Some(hash)),
                None => Err(UndecodableHash),
            }
        } else {
            Ok(None)
        }
    }

    /// Listens for nothing.
    pub fn reset(&mut self)
        ensures
            final(self)@ is None,
    {
        self.next_handler = None;
    }

    /// Handles a message as the listener of the client does; without one nothing
    /// comes of it. `None` where the listener cannot understand the message.
    pub fn on_message(&self, msg: &str) -> (handled: Option<Handled>)
        ensures
            match self@ {
                None => handled matches Some(h) && h@ == HandledView::nothing(),
                Some(listener) => match listener_reaction(listener, json_parsed(msg@)) {
                    Some(view) => handled matches Some(h) && h@ == view,
                    None => handled is None,
                },
            },
    {
        match self.next_handler {
            None => Some(Handled { sent: None, error: None }),
            Some(Listener::GetRequest) => Some(on_get_request_msg(msg)),
            Some(Listener::Subscription) => Some(on_subscription_msg(msg)),
            Some(Listener::SubmitOnly) => on_extrinsic_msg_submit_only(msg),
            Some(Listener::Extrinsic(Goal::Finalized)) => on_extrinsic_msg_until_finalized(msg),
            Some(Listener::Extrinsic(Goal::InBlock)) => on_extrinsic_msg_until_in_block(msg),
            Some(Listener::Extrinsic(Goal::Broadcast)) => on_extrinsic_msg_until_broadcast(msg),
            Some(Listener::Extrinsic(Goal::Ready)) => on_extrinsic_msg_until_ready(msg),
        }
    }
}

/// Whatever an extrinsic is waited for, the wait ends once it is finalized, and
/// an error ends it with an empty answer.
pub proof fn waits_end_when_finalized_or_failed(goal: Goal, value: Seq<char>, error: ErrorView)
    ensures
        reaction(goal, ParsedStatus::Status(XtStatus::Finalized, Some(value))).sent == Some(value),
        reaction(goal, ParsedStatus::Failed(error)).sent == Some(Seq::<char>::empty()),
        reaction(goal, ParsedStatus::Failed(error)).error == Some(error),
{
}

/// A wait that ends without an error and with a value ended because the
/// extrinsic is in a block, finalized or not.
pub proof fn values_come_from_blocks(goal: Goal, status: ParsedStatus, value: Seq<char>)
    requires
        reaction(goal, status) == HandledView::ended(Some(value)),
        value.len() > 0,
    ensures
        status == ParsedStatus::Status(XtStatus::Finalized, Some(value)) || (goal == Goal::InBlock
            && status == ParsedStatus::Status(XtStatus::InBlock, Some(value))),
{
}

/// An error is reported with its code, its message and its details as the node
/// gives them; a missing code is minus one, a missing text is empty.
pub proof fn errors_are_reported_as_they_are(content: Json, error: Json)
    requires
        content.member("error"@) == Some(error),
    ensures
        ({
            let code = match error.member("code"@) {
                Some(Json::Number(_, Some(code))) => code as int,
                _ => -1,
            };
            let message = match error.member("message"@) {
                Some(Json::Text(message)) => message,
                _ => Seq::empty(),
            };
            let details = match error.member("data"@) {
                Some(Json::Text(details)) => details,
                _ => Seq::empty(),
            };
            reported_error(content) == "extrinsic error code "@ + decimal(code) + ": "@ + message
                + ": "@ + details
        }),
        reports_error(content) <==> error is Object,
        readable_error(content) ==> reports_error(content),
{
}

/// An error can be read exactly where it is an object whose message and details,
/// as far as they are there, are texts and whose code, if it is there, is an
/// integer.
pub proof fn errors_are_readable_by_their_members(content: Json, error: Json)
    requires
        content.member("error"@) == Some(error),
    ensures
        readable_error(content) <==> {
            &&& error is Object
            &&& error.member("message"@) is None || error.member("message"@)->0 is Text
            &&& error.member("data"@) is None || error.member("data"@)->0 is Text
            &&& error.member("code"@) is None || error.member("code"@)->0.integer() is Some
        },
{
}

/// What is not JSON, and what reports an error, fails; anything else has the status
/// that its parameters give as their result.
pub proof fn failures_come_from_errors_only(content: Json)
    ensures
        parsed_status(None) == ParsedStatus::Failed(ErrorView::Serde),
        reports_error(content) ==> parsed_status(Some(content)) == ParsedStatus::Failed(
            ErrorView::Extrinsic(reported_error(content)),
        ),
        !reports_error(content) ==> (parsed_status(Some(content)) matches ParsedStatus::Status(
            status,
            value,
        ) && (status, value) == status_in(
            match content.member("params"@) {
                Some(params) => params.member("result"@),
                None => None,
            },
        )),
        content.member("error"@) is None ==> !reports_error(content),
        comprehensible(None),
        comprehensible(Some(content)) <==> (reports_error(content) ==> readable_error(content)),
{
}

/// The status of an extrinsic is read by what the result says: being finalized
/// counts before being in a block, and that before being broadcast; these come with
/// what is written there. A text says that it is ready or put off.
pub proof fn statuses_are_read_by_what_they_say(members: Seq<(Seq<char>, Json)>, text: Seq<char>)
    ensures
        ({
            let result = Json::Object(members);
            let status = status_in(Some(result));
            &&& result.member("finalized"@) matches Some(hash) ==> status == (
                XtStatus::Finalized,
                Some(json_written(hash)),
            )
            &&& result.member("finalized"@) is None ==> {
                &&& result.member("inBlock"@) matches Some(hash) ==> status == (
                    XtStatus::InBlock,
                    Some(json_written(hash)),
                )
                &&& result.member("inBlock"@) is None ==> {
                    &&& result.member("broadcast"@) matches Some(peers) ==> status == (
                        XtStatus::Broadcast,
                        Some(json_written(peers)),
                    )
                    &&& result.member("broadcast"@) is None ==> status == (
                        XtStatus::Unknown,
                        None::<Seq<char>>,
                    )
                }
            }
        }),
        status_in(Some(Json::Text("ready"@))) == (XtStatus::Ready, None::<Seq<char>>),
        status_in(Some(Json::Text("future"@))) == (XtStatus::Future, None::<Seq<char>>),
        text != "ready"@ && text != "future"@ ==> status_in(Some(Json::Text(text))) == (
            XtStatus::Unknown,
            None::<Seq<char>>,
        ),
        status_in(None) == (XtStatus::Unknown, None::<Seq<char>>),
{
    reveal_strlit("ready");
    reveal_strlit("future");
    assert("ready"@.len() != "future"@.len());
}

/// A wait ends exactly with an error, with the extrinsic being finalized or put
/// off, or with what is waited for. Only where the extrinsic is in a block, the
/// value that came with that is handed on; otherwise the answer is empty. Only an
/// error is an error.
pub proof fn waits_end_with_what_they_wait_for(
    goal: Goal,
    status: XtStatus,
    value: Option<Seq<char>>,
    error: ErrorView,
)
    ensures
        ({
            let handled = reaction(goal, ParsedStatus::Status(status, value));
            let reached = status == XtStatus::Finalized || status == XtStatus::Future || (goal
                == Goal::InBlock && status == XtStatus::InBlock) || (goal == Goal::Broadcast
                && status == XtStatus::Broadcast) || (goal == Goal::Ready && status
                == XtStatus::Ready);
            let in_block = status == XtStatus::Finalized || status == XtStatus::InBlock;
            &&& handled.error is None
            &&& handled.sent is Some <==> reached
            &&& reached && in_block && value is Some ==> handled.sent == value
            &&& reached && (!in_block || value is None) ==> handled.sent == Some(
                Seq::<char>::empty(),
            )
        }),
        reaction(goal, ParsedStatus::Failed(error)).error == Some(error),
        reaction(goal, ParsedStatus::Failed(error)).sent == Some(Seq::<char>::empty()),
{
}

/// The answer to a mere submission is its result, where that is a text, otherwise
/// the error that it reports; what is neither is not understood.
pub proof fn submissions_are_answered_by_their_result(content: Json, text: Seq<char>)
    ensures
        content.member("result"@) == Some(Json::Text(text)) ==> answers_submission(Some(content))
            && submission_reaction(Some(content)) == (HandledView {
            sent: Some(text),
            error: None,
        }),
        text_of(content.member("result"@)) is None ==> (answers_submission(Some(content))
            <==> readable_error(content)) && submission_reaction(Some(content)) == (HandledView {
            sent: Some(Seq::<char>::empty()),
            error: Some(ErrorView::Extrinsic(reported_error(content))),
        }),
        answers_submission(None),
        submission_reaction(None) == (HandledView {
            sent: Some(Seq::<char>::empty()),
            error: Some(ErrorView::Serde),
        }),
{
}

/// The answer to a request is its result as it is written, and `null` where there
/// is none; what is not JSON is an error and answers nothing.
pub proof fn requests_are_answered_by_their_result(content: Json, result: Json)
    ensures
        content.member("result"@) == Some(result) ==> request_reaction(Some(content)) == (
        HandledView { sent: Some(json_written(result)), error: None }),
        content.member("result"@) is None ==> request_reaction(Some(content)) == (HandledView {
            sent: Some("null"@),
            error: None,
        }),
        request_reaction(None) == (HandledView { sent: None, error: Some(ErrorView::Serde) }),
{
}

/// A subscription hands on the first change of a changed storage and every
/// finalized head, as they stand in the notification; answers, and notifications
/// of anything else, it passes over.
pub proof fn subscriptions_hand_on_changes_and_heads(content: Json, result: Json, change: Json)
    ensures
        content.member("id"@) matches Some(id) && id is Text ==> notification(content) is None,
        text_of(content.member("id"@)) is None && content.member("method"@) == Some(
            Json::Text("chain_finalizedHead"@),
        ) ==> notification(content) == Some(
            match json_at2(content, "params"@, "result"@) {
                Some(head) => json_written(head),
                None => "null"@,
            },
        ),
        text_of(content.member("id"@)) is None && content.member("method"@) == Some(
            Json::Text("state_storage"@),
        ) && json_at2(content, "params"@, "result"@) == Some(result) && result.member("changes"@)
            == Some(Json::Array(seq![Json::Array(seq![result, change])])) ==> notification(content)
            == change.text(),
        text_of(content.member("id"@)) is None && content.member("method"@) == Some(
            Json::Text("state_storage"@),
        ) ==> notification(content) == first_change(content),
        text_of(content.member("method"@)) != Some("state_storage"@) && text_of(
            content.member("method"@),
        ) != Some("chain_finalizedHead"@) ==> notification(content) is None,
        subscription_reaction(Some(content)) == (HandledView {
            sent: notification(content),
            error: None,
        }),
        subscription_reaction(None) == (HandledView {
            sent: None,
            error: Some(ErrorView::Serde),
        }),
{
    reveal_strlit("state_storage");
    reveal_strlit("chain_finalizedHead");
    assert("state_storage"@.len() != "chain_finalizedHead"@.len());
}

/// The first change is the text at the second place of the first of all changes,
/// whatever else there is.
pub proof fn the_first_change_is_the_first(
    content: Json,
    result: Json,
    changes: Seq<Json>,
    change: Seq<Json>,
)
    requires
        json_at2(content, "params"@, "result"@) == Some(result),
        result.member("changes"@) == Some(Json::Array(changes)),
        changes.len() > 0 ==> changes[0] == Json::Array(change),
    ensures
        changes.len() > 0 && change.len() > 1 ==> first_change(content) == change[1].text(),
        changes.len() == 0 || change.len() <= 1 ==> first_change(content) is None,
{
}

/// An extrinsic is submitted as it is, watched unless only its submission is waited
/// for, and listened for until exactly what is waited for. It yields a hash exactly
/// where that is a block. What cannot be waited for is not submitted.
pub proof fn submissions_match_what_is_waited_for(extrinsic: Seq<char>, exit_on: XtStatus)
    ensures
        match submission_for(extrinsic, exit_on) {
            None => exit_on == XtStatus::Future || exit_on == XtStatus::Error || exit_on
                == XtStatus::Unknown,
            Some(submission) => {
                &&& submission.extrinsic == extrinsic
                &&& submission.watch <==> exit_on != XtStatus::SubmitOnly
                &&& submission.yields_hash <==> exit_on == XtStatus::Finalized || exit_on
                    == XtStatus::InBlock
                &&& submission.listener == Listener::SubmitOnly <==> exit_on
                    == XtStatus::SubmitOnly
                &&& submission.listener == Listener::Extrinsic(Goal::Finalized) <==> exit_on
                    == XtStatus::Finalized
                &&& submission.listener == Listener::Extrinsic(Goal::InBlock) <==> exit_on
                    == XtStatus::InBlock
                &&& submission.listener == Listener::Extrinsic(Goal::Broadcast) <==> exit_on
                    == XtStatus::Broadcast
                &&& submission.listener == Listener::Extrinsic(Goal::Ready) <==> exit_on
                    == XtStatus::Ready
                &&& exit_on != XtStatus::Future && exit_on != XtStatus::Error && exit_on
                    != XtStatus::Unknown
            },
        },
{
}

/// Each listener makes of a message what it listens for, and does not understand
/// only what has no result and an error that cannot be read.
pub proof fn listeners_hear_what_they_listen_for(document: Option<Json>, goal: Goal)
    ensures
        listener_reaction(Listener::GetRequest, document) == Some(request_reaction(document)),
        listener_reaction(Listener::Subscription, document) == Some(
            subscription_reaction(document),
        ),
        answers_submission(document) ==> listener_reaction(Listener::SubmitOnly, document) == Some(
            submission_reaction(document),
        ),
        !answers_submission(document) ==> listener_reaction(Listener::SubmitOnly, document)
            is None,
        comprehensible(document) ==> listener_reaction(Listener::Extrinsic(goal), document)
            == Some(reaction(goal, parsed_status(document))),
        !comprehensible(document) ==> listener_reaction(Listener::Extrinsic(goal), document)
            is None,
{
}

/// Taking the quotes off the start of a text cuts nothing but quotes, and all that
/// are there.
proof fn lemma_leading_quotes(text: Seq<char>)
    ensures
        ({
            let led = without_leading_quotes(text);
            let cut = text.len() - led.len();
            &&& 0 <= cut
            &&& led == text.skip(cut)
            &&& forall|i: int| 0 <= i < cut ==> (#[trigger] text[i]) == '"'
            &&& led.len() > 0 ==> led[0] != '"'
        }),
    decreases text.len(),
{
    if text.len() > 0 && text.first() == '"' {
        let shorter = text.drop_first();
        lemma_leading_quotes(shorter);
        let led = without_leading_quotes(text);
        let cut = text.len() - led.len();
        assert(shorter.skip(cut - 1) =~= text.skip(cut));
        assert forall|i: int| 0 <= i < cut implies (#[trigger] text[i]) == '"' by {
            if i > 0 {
                assert(shorter[i - 1] == text[i]);
            }
        }
    } else {
        assert(text.skip(0) =~= text);
    }
}

proof fn lemma_trailing_quotes(text: Seq<char>)
    ensures
        ({
            let left = without_trailing_quotes(text);
            &&& left.len() <= text.len()
            &&& left == text.take(left.len() as int)
            &&& forall|i: int| left.len() <= i < text.len() ==> (#[trigger] text[i]) == '"'
            &&& left.len() > 0 ==> left.last() != '"'
        }),
    decreases text.len(),
{
    if text.len() > 0 && text.last() == '"' {
        let shorter = text.drop_last();
        lemma_trailing_quotes(shorter);
        let left = without_trailing_quotes(text);
        assert(shorter.take(left.len() as int) =~= text.take(left.len() as int));
        assert forall|i: int| left.len() <= i < text.len() implies (#[trigger] text[i]) == '"' by {
            if i < shorter.len() {
                assert(shorter[i] == text[i]);
            }
        }
    } else {
        assert(text.take(text.len() as int) =~= text);
    }
}

/// What is left of a text without its quotes is a part of it that neither starts
/// nor ends with a quote, and nothing but quotes stands before and behind it.
pub proof fn only_quotes_are_taken_off(text: Seq<char>) -> (start: int)
    ensures
        0 <= start,
        start + unquoted(text).len() <= text.len(),
        unquoted(text) == text.subrange(start, start + unquoted(text).len()),
        forall|i: int| 0 <= i < start ==> (#[trigger] text[i]) == '"',
        forall|i: int|
            start + unquoted(text).len() <= i < text.len() ==> (#[trigger] text[i]) == '"',
        unquoted(text).len() > 0 ==> unquoted(text).first() != '"' && unquoted(text).last() != '"',
{
    let led = without_leading_quotes(text);
    let start = text.len() - led.len();
    let inner = unquoted(text);
    lemma_leading_quotes(text);
    lemma_trailing_quotes(led);
    assert(inner =~= text.subrange(start, start + inner.len()));
    assert forall|i: int| start + inner.len() <= i < text.len() implies (#[trigger] text[i])
        == '"' by {
        assert(led[i - start] == text[i]);
    }
    if inner.len() > 0 {
        assert(inner.first() == led[0]);
    }
    start
}

/// A text in quotes is that text, as long as it has none at its own ends.
pub proof fn quoted_texts_are_unquoted(inner: Seq<char>)
    requires
        inner.len() > 0,
        inner.first() != '"',
        inner.last() != '"',
    ensures
        unquoted(seq!['"'] + inner + seq!['"']) == inner,
        unquoted(inner) == inner,
{
    let quoted = seq!['"'] + inner + seq!['"'];
    assert(quoted.drop_first() =~= inner + seq!['"']);
    let led = inner + seq!['"'];
    assert(led.first() == inner.first());
    assert(without_leading_quotes(led) == led);
    assert(without_leading_quotes(quoted) == led);
    assert(led.drop_last() =~= inner);
    assert(led.last() == '"');
    assert(without_trailing_quotes(inner) == inner);
}

/// What an error, a submission, a handled message and a status are, is all that
/// they hold.
pub proof fn messages_are_all_that_they_hold(
    error: RpcClientError,
    submission: Submission,
    handled: Handled,
    status: XtStatus,
    value: Option<String>,
    text: String,
    hash: [u8; 32],
)
    ensures
        match error {
            RpcClientError::Serde => error@ is Serde,
            RpcClientError::Extrinsic(words) => error@ == ErrorView::Extrinsic(words@),
        },
        submission@.extrinsic == submission.extrinsic@,
        submission@.watch == submission.watch,
        submission@.listener == submission.listener,
        submission@.yields_hash == submission.yields_hash,
        handled@.sent is Some <==> handled.sent is Some,
        handled.sent matches Some(sent) ==> handled@.sent == Some(sent@),
        handled@.error is Some <==> handled.error is Some,
        handled.error matches Some(failure) ==> handled@.error == Some(failure@),
        text_view(Some(text)) == Some(text@),
        text_view(None) is None,
        rpc_status_view(Ok((status, value))) == ParsedStatus::Status(status, text_view(value)),
        rpc_status_view(Err(error)) == ParsedStatus::Failed(error@),
        hash_bytes_view(Some(hash)) == Some(hash@),
        hash_bytes_view(None) is None,
{
}

/// Of a message nothing comes, or the wait ends with a text, or with an error and
/// an empty text.
pub proof fn what_comes_of_messages(text: Seq<char>, error: ErrorView)
    ensures
        HandledView::nothing().sent is None && HandledView::nothing().error is None,
        HandledView::ended(Some(text)).sent == Some(text),
        HandledView::ended(None).sent == Some(Seq::<char>::empty()),
        HandledView::ended(Some(text)).error is None && HandledView::ended(None).error is None,
        HandledView::failed(error).sent == Some(Seq::<char>::empty()),
        HandledView::failed(error).error == Some(error),
{
}

} // verus!

//! The spreadsheet sink: what is posted to it, and how its answer is read.
//!
//! The client builds the request for one cell; the caller posts it as JSON
//! and hands back what the sink answered.

use vstd::prelude::*;
use crate::balance::Balance;
use crate::settings::slice_text_of;
use crate::settings::text_of;

verus! {

/// The body of one POST to the sink.
///
/// `sheet_name` and `string_value` are left out of the body when absent.
/// `account_value` is always sent; it is zero when the payload carries a
/// string.
#[derive(Clone, Debug, PartialEq, Eq)]
pub struct GoogleSheetsPayload {
    pub api_key: String,
    pub spreadsheet_id: String,
    pub sheet_name: Option<String>,
    pub cell_address: String,
    pub account_value: Balance,
    pub string_value: Option<String>,
}

/// The mathematical content of [`GoogleSheetsPayload`].
pub struct PayloadView {
    pub api_key: Seq<char>,
    pub spreadsheet_id: Seq<char>,
    pub sheet_name: Option<Seq<char>>,
    pub cell_address: Seq<char>,
    pub account_value: Balance,
    pub string_value: Option<Seq<char>>,
}

impl View for GoogleSheetsPayload {
    type V = PayloadView;

    open spec fn view(&self) -> PayloadView {
        PayloadView {
            api_key: self.api_key@,
            spreadsheet_id: self.spreadsheet_id@,
            sheet_name: text_of(self.sheet_name),
            cell_address: self.cell_address@,
            account_value: self.account_value,
            string_value: text_of(self.string_value),
        }
    }
}

/// A member of the JSON object that a payload is sent as.
#[derive(Clone, Copy, Debug, PartialEq, Eq, Structural)]
pub enum Member {
    ApiKey,
    SpreadsheetId,
    SheetName,
    CellAddress,
    AccountValue,
    StringValue,
}

/// The name of a member on the wire.
pub open spec fn member_name(member: Member) -> Seq<char> {
    match member {
        Member::ApiKey => "apiKey"@,
        Member::SpreadsheetId => "spreadsheetId"@,
        Member::SheetName => "sheetName"@,
        Member::CellAddress => "cellAddress"@,
        Member::AccountValue => "accountValue"@,
        Member::StringValue => "stringValue"@,
    }
}

impl Member {
    /// The name of this member on the wire.
    pub fn name(&self) -> (name: &'static str)
        ensures
            name@ == member_name(*self),
    {
        match self {
            Member::ApiKey => "apiKey",
            Member::SpreadsheetId => "spreadsheetId",
            Member::SheetName => "sheetName",
            Member::CellAddress => "cellAddress",
            Member::AccountValue => "accountValue",
            Member::StringValue => "stringValue",
        }
    }
}

impl PayloadView {
    /// The members that the payload is sent with, in order: the sheet name
    /// and the string value only when they are present, the others always.
    pub open spec fn members(self) -> Seq<Member> {
        seq![Member::ApiKey, Member::SpreadsheetId] + if self.sheet_name is Some {
            seq![Member::SheetName]
        } else {
            Seq::<Member>::empty()
        } + seq![Member::CellAddress, Member::AccountValue] + if self.string_value is Some {
            seq![Member::StringValue]
        } else {
            Seq::<Member>::empty()
        }
    }
}

impl GoogleSheetsPayload {
    /// The members that this payload is sent with, in order.
    pub fn members(&self) -> (members: Vec<Member>)
        ensures
            members@ == self@.members(),
    {
        let mut members: Vec<Member> = Vec::new();
        members.push(Member::ApiKey);
        members.push(Member::SpreadsheetId);
        if self.sheet_name.is_some() {
            members.push(Member::SheetName);
        }
        members.push(Member::CellAddress);
        members.push(Member::AccountValue);
        if self.string_value.is_some() {
            members.push(Member::StringValue);
        }
        assert(members@ =~= self@.members());
        members
    }
}

/// One POST: the address of the sink's web application and the body.
#[derive(Clone, Debug, PartialEq, Eq)]
pub struct SheetsRequest {
    pub url: String,
    pub payload: GoogleSheetsPayload,
}

/// The mathematical content of [`SheetsRequest`].
pub struct RequestView {
    pub url: Seq<char>,
    pub payload: PayloadView,
}

impl View for SheetsRequest {
    type V = RequestView;

    open spec fn view(&self) -> RequestView {
        RequestView { url: self.url@, payload: self.payload@ }
    }
}

/// A client for one spreadsheet behind the sink's web application.
#[derive(Clone, Debug, PartialEq, Eq)]
pub struct GoogleSheetsClient {
    pub webapp_url: String,
    pub api_key: String,
    pub spreadsheet_id: String,
}

/// The mathematical content of [`GoogleSheetsClient`].
pub struct ClientView {
    pub webapp_url: Seq<char>,
    pub api_key: Seq<char>,
    pub spreadsheet_id: Seq<char>,
}

impl View for GoogleSheetsClient {
    type V = ClientView;

    open spec fn view(&self) -> ClientView {
        ClientView {
            webapp_url: self.webapp_url@,
            api_key: self.api_key@,
            spreadsheet_id: self.spreadsheet_id@,
        }
    }
}

/// The cell address that is sent when none is given: the empty string.
pub open spec fn address_or_empty(cell_address: Option<Seq<char>>) -> Seq<char> {
    match cell_address {
        Some(address) => address,
        None => Seq::empty(),
    }
}

impl ClientView {
    /// The request that publishes a balance: the number is the balance and
    /// there is no string.
    pub open spec fn balance_request(
        self,
        account_value: Balance,
        sheet_name: Option<Seq<char>>,
        cell_address: Option<Seq<char>>,
    ) -> RequestView {
        RequestView {
            url: self.webapp_url,
            payload: PayloadView {
                api_key: self.api_key,
                spreadsheet_id: self.spreadsheet_id,
                sheet_name,
                cell_address: address_or_empty(cell_address),
                account_value,
                string_value: None,
            },
        }
    }

    /// The request that publishes a timestamp: the number is zero and the
    /// string is the timestamp.
    pub open spec fn timestamp_request(
        self,
        timestamp: Option<Seq<char>>,
        sheet_name: Option<Seq<char>>,
        cell_address: Option<Seq<char>>,
    ) -> RequestView {
        RequestView {
            url: self.webapp_url,
            payload: PayloadView {
                api_key: self.api_key,
                spreadsheet_id: self.spreadsheet_id,
                sheet_name,
                cell_address: address_or_empty(cell_address),
                account_value: Balance { bits: Balance::zero_bits() },
                string_value: timestamp,
            },
        }
    }
}

/// An owned copy of an optional string slice.
fn owned(text: Option<&str>) -> (copy: Option<String>)
    ensures
        text_of(copy) == slice_text_of(text),
{
    match text {
        Some(text) => Some(text.to_owned()),
        None => None,
    }
}

impl GoogleSheetsClient {
    /// A client for the spreadsheet `spreadsheet_id`, reached through the web
    /// application at `webapp_url` with `api_key`.
    pub fn new(webapp_url: String, api_key: String, spreadsheet_id: String) -> (client: Self)
        ensures
            client@ == (ClientView {
                webapp_url: webapp_url@,
                api_key: api_key@,
                spreadsheet_id: spreadsheet_id@,
            }),
    {
        Self { webapp_url, api_key, spreadsheet_id }
    }

    /// The body shared by both kinds of request.
    fn request(
        &self,
        account_value: Balance,
        string_value: Option<&str>,
        sheet_name: Option<&str>,
        cell_address: Option<&str>,
    ) -> (request: SheetsRequest)
        ensures
            request@ == (RequestView {
                url: self@.webapp_url,
                payload: PayloadView {
                    api_key: self@.api_key,
                    spreadsheet_id: self@.spreadsheet_id,
                    sheet_name: slice_text_of(sheet_name),
                    cell_address: address_or_empty(slice_text_of(cell_address)),
                    account_value,
                    string_value: slice_text_of(string_value),
                },
            }),
    {
        let address = match cell_address {
            Some(address) => address.to_owned(),
            None => String::new(),
        };
        SheetsRequest {
            url: self.webapp_url.clone(),
            payload: GoogleSheetsPayload {
                api_key: self.api_key.clone(),
                spreadsheet_id: self.spreadsheet_id.clone(),
                sheet_name: owned(sheet_name),
                cell_address: address,
                account_value,
                string_value: owned(string_value),
            },
        }
    }

    /// The request that publishes `account_value` in the cell `cell_address`
    /// of the sheet `sheet_name`.
    pub fn send_balance(
        &self,
        account_value: Balance,
        sheet_name: Option<&str>,
        cell_address: Option<&str>,
    ) -> (request: SheetsRequest)
        ensures
            request@ == self@.balance_request(
                account_value,
                slice_text_of(sheet_name),
                slice_text_of(cell_address),
            ),
    {
        self.request(account_value, None, sheet_name, cell_address)
    }

    /// The request that publishes `timestamp` in the cell `cell_address` of
    /// the sheet `sheet_name`.
    pub fn send_timestamp(
        &self,
        timestamp: Option<&str>,
        sheet_name: Option<&str>,
        cell_address: Option<&str>,
    ) -> (request: SheetsRequest)
        ensures
            request@ == self@.timestamp_request(
                slice_text_of(timestamp),
                slice_text_of(sheet_name),
                slice_text_of(cell_address),
            ),
    {
        self.request(Balance::zero(), timestamp, sheet_name, cell_address)
    }
}

/// What came back from one POST.
#[derive(Clone, Copy, Debug, PartialEq, Eq, Structural)]
pub enum Reply {
    /// The sink answered with this HTTP status.
    Status(u16),
    /// No answer arrived: the request could not be sent, or timed out.
    Unreachable,
}

/// What became of one target.
#[derive(Clone, Copy, Debug, PartialEq, Eq, Structural)]
pub enum DeliveryOutcome {
    /// The value was posted and the sink accepted it.
    Delivered,
    /// The document holds no balance for the account; nothing was posted.
    Absent,
    /// The value to publish could not be had: the balance could not be
    /// extracted, or no time could be read; nothing was posted.
    ExtractionFailed,
    /// The sink answered with a status outside the 2xx range.
    Rejected { status: u16 },
    /// The sink could not be reached.
    Unreachable,
}

/// Whether an HTTP status reports success: the 2xx range.
pub open spec fn is_success(status: u16) -> bool {
    200 <= status < 300
}

/// The outcome of a delivery that was answered with `reply`.
pub open spec fn outcome_of(reply: Reply) -> DeliveryOutcome {
    match reply {
        Reply::Status(status) => if is_success(status) {
            DeliveryOutcome::Delivered
        } else {
            DeliveryOutcome::Rejected { status }
        },
        Reply::Unreachable => DeliveryOutcome::Unreachable,
    }
}

/// Why a delivery failed.
#[derive(Clone, Debug, PartialEq, Eq)]
pub enum DeliveryError {
    /// The sink answered with a status outside the 2xx range; `body` is the
    /// text of its answer.
    Rejected { status: u16, body: String },
    /// No answer arrived, for this reason.
    Unreachable { reason: String },
}

/// The mathematical content of [`DeliveryError`].
pub enum DeliveryErrorView {
    Rejected { status: u16, body: Seq<char> },
    Unreachable { reason: Seq<char> },
}

impl View for DeliveryError {
    type V = DeliveryErrorView;

    open spec fn view(&self) -> DeliveryErrorView {
        match *self {
            DeliveryError::Rejected { status, body } => DeliveryErrorView::Rejected {
                status,
                body: body@,
            },
            DeliveryError::Unreachable { reason } => DeliveryErrorView::Unreachable {
                reason: reason@,
            },
        }
    }
}

/// What came back from one POST, with its text.
#[derive(Clone, Debug, PartialEq, Eq)]
pub enum SinkResponse {
    /// The sink answered with this HTTP status and this body.
    Answered { status: u16, body: String },
    /// No answer arrived, for this reason.
    Failed { reason: String },
}

/// The mathematical content of [`SinkResponse`].
pub enum SinkResponseView {
    Answered { status: u16, body: Seq<char> },
    Failed { reason: Seq<char> },
}

impl View for SinkResponse {
    type V = SinkResponseView;

    open spec fn view(&self) -> SinkResponseView {
        match *self {
            SinkResponse::Answered { status, body } => SinkResponseView::Answered {
                status,
                body: body@,
            },
            SinkResponse::Failed { reason } => SinkResponseView::Failed { reason: reason@ },
        }
    }
}

impl SinkResponseView {
    /// The response without its text.
    pub open spec fn reply(self) -> Reply {
        match self {
            SinkResponseView::Answered { status, .. } => Reply::Status(status),
            SinkResponseView::Failed { .. } => Reply::Unreachable,
        }
    }

    /// The result of the delivery: success for a 2xx status; else a failure
    /// that carries the status and the body, or the reason why no answer
    /// arrived.
    pub open spec fn result(self) -> Result<(), DeliveryErrorView> {
        match self {
            SinkResponseView::Answered { status, body } => if is_success(status) {
                Ok(())
            } else {
                Err(DeliveryErrorView::Rejected { status, body })
            },
            SinkResponseView::Failed { reason } => Err(DeliveryErrorView::Unreachable { reason }),
        }
    }
}

/// The view of the result of a delivery.
pub open spec fn result_view(result: Result<(), DeliveryError>) -> Result<(), DeliveryErrorView> {
    match result {
        Ok(()) => Ok(()),
        Err(e) => Err(e@),
    }
}

impl SinkResponse {
    /// The response without its text, as the dispatcher takes it.
    pub fn reply(&self) -> (reply: Reply)
        ensures
            reply == self@.reply(),
    {
        match self {
            SinkResponse::Answered { status, .. } => Reply::Status(*status),
            SinkResponse::Failed { .. } => Reply::Unreachable,
        }
    }

    /// The result of the delivery that this response answers.
    pub fn into_result(self) -> (result: Result<(), DeliveryError>)
        ensures
            result_view(result) == self@.result(),
            result is Ok <==> outcome_of(self@.reply()) == DeliveryOutcome::Delivered,
    {
        match self {
            SinkResponse::Answered { status, body } => if 200 <= status && status < 300 {
                Ok(())
            } else {
                Err(DeliveryError::Rejected { status, body })
            },
            SinkResponse::Failed { reason } => Err(DeliveryError::Unreachable { reason }),
        }
    }
}

impl Reply {
    /// Whether the sink accepted the request.
    pub fn is_success(&self) -> (ok: bool)
        ensures
            ok == (outcome_of(*self) == DeliveryOutcome::Delivered),
            ok == (*self matches Reply::Status(status) && is_success(status)),
    {
        match *self {
            Reply::Status(status) => 200 <= status && status < 300,
            Reply::Unreachable => false,
        }
    }

    /// The outcome of the delivery that this reply answers.
    pub fn outcome(&self) -> (outcome: DeliveryOutcome)
        ensures
            outcome == outcome_of(*self),
    {
        match *self {
            Reply::Status(status) => if 200 <= status && status < 300 {
                DeliveryOutcome::Delivered
            } else {
                DeliveryOutcome::Rejected { status }
            },
            Reply::Unreachable => DeliveryOutcome::Unreachable,
        }
    }
}

} // verus!

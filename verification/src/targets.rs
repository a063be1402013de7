//! The configured destinations: which value goes to which cell.

use vstd::prelude::*;
use crate::balance::Balance;
use crate::clock::{timestamp_text, LocalTime, Moment};
use crate::google_sheets::{ClientView, GoogleSheetsClient, RequestView, SheetsRequest};
use crate::settings::{slice_text_of, text_of};

verus! {

/// How the sink's web application is reached.
#[derive(Clone, Debug, PartialEq, Eq)]
pub struct SinkSettings {
    pub webapp_url: String,
    pub api_key: String,
}

/// The mathematical content of [`SinkSettings`].
pub struct SinkView {
    pub webapp_url: Seq<char>,
    pub api_key: Seq<char>,
}

impl View for SinkSettings {
    type V = SinkView;

    open spec fn view(&self) -> SinkView {
        SinkView { webapp_url: self.webapp_url@, api_key: self.api_key@ }
    }
}

impl SinkView {
    /// The client for one spreadsheet behind this sink.
    pub open spec fn client(self, spreadsheet_id: Seq<char>) -> ClientView {
        ClientView { webapp_url: self.webapp_url, api_key: self.api_key, spreadsheet_id }
    }
}

/// One account whose balance is published in one cell.
#[derive(Clone, Debug, PartialEq, Eq)]
pub struct SyncTarget {
    pub account_full_name: String,
    pub spreadsheet_id: String,
    pub sheet_name: Option<String>,
    pub cell_address: String,
}

/// The mathematical content of [`SyncTarget`].
pub struct SyncTargetView {
    pub account_full_name: Seq<char>,
    pub spreadsheet_id: Seq<char>,
    pub sheet_name: Option<Seq<char>>,
    pub cell_address: Seq<char>,
}

impl View for SyncTarget {
    type V = SyncTargetView;

    open spec fn view(&self) -> SyncTargetView {
        SyncTargetView {
            account_full_name: self.account_full_name@,
            spreadsheet_id: self.spreadsheet_id@,
            sheet_name: text_of(self.sheet_name),
            cell_address: self.cell_address@,
        }
    }
}

impl SyncTargetView {
    /// The request that publishes `balance` for this target: it goes to the
    /// target's own spreadsheet, sheet and cell.
    pub open spec fn request(self, sink: SinkView, balance: Balance) -> RequestView {
        sink.client(self.spreadsheet_id).balance_request(
            balance,
            self.sheet_name,
            Some(self.cell_address),
        )
    }
}

/// One cell in which the time of the run is published.
#[derive(Clone, Debug, PartialEq, Eq)]
pub struct TimestampTarget {
    pub spreadsheet_id: String,
    pub sheet_name: Option<String>,
    pub cell_address: String,
}

/// The mathematical content of [`TimestampTarget`].
pub struct TimestampTargetView {
    pub spreadsheet_id: Seq<char>,
    pub sheet_name: Option<Seq<char>>,
    pub cell_address: Seq<char>,
}

impl View for TimestampTarget {
    type V = TimestampTargetView;

    open spec fn view(&self) -> TimestampTargetView {
        TimestampTargetView {
            spreadsheet_id: self.spreadsheet_id@,
            sheet_name: text_of(self.sheet_name),
            cell_address: self.cell_address@,
        }
    }
}

impl TimestampTargetView {
    /// The request that publishes the timestamp of `moment` for this target.
    pub open spec fn request(self, sink: SinkView, moment: Moment) -> RequestView {
        sink.client(self.spreadsheet_id).timestamp_request(
            Some(timestamp_text(moment)),
            self.sheet_name,
            Some(self.cell_address),
        )
    }
}

/// The slice of an optional string.
fn as_slice(text: &Option<String>) -> (slice: Option<&str>)
    ensures
        slice_text_of(slice) == text_of(*text),
{
    match text {
        Some(text) => Some(text.as_str()),
        None => None,
    }
}

impl SinkSettings {
    /// Settings for the web application at `webapp_url`, used with `api_key`.
    pub fn new(webapp_url: String, api_key: String) -> (sink: SinkSettings)
        ensures
            sink@ == (SinkView { webapp_url: webapp_url@, api_key: api_key@ }),
    {
        SinkSettings { webapp_url, api_key }
    }

    /// The client for one spreadsheet behind this sink.
    pub fn client(&self, spreadsheet_id: &String) -> (client: GoogleSheetsClient)
        ensures
            client@ == self@.client(spreadsheet_id@),
    {
        GoogleSheetsClient::new(
            self.webapp_url.clone(),
            self.api_key.clone(),
            spreadsheet_id.clone(),
        )
    }
}

impl SyncTarget {
    /// The request that publishes `balance` for this target.
    pub fn request(&self, sink: &SinkSettings, balance: Balance) -> (request: SheetsRequest)
        ensures
            request@ == self@.request(sink@, balance),
    {
        let client = sink.client(&self.spreadsheet_id);
        client.send_balance(
            balance,
            as_slice(&self.sheet_name),
            Some(self.cell_address.as_str()),
        )
    }
}

impl TimestampTarget {
    /// The request that publishes the timestamp of `time` for this target.
    pub fn request(&self, sink: &SinkSettings, time: &LocalTime) -> (request: SheetsRequest)
        ensures
            request@ == self@.request(sink@, time@),
    {
        let client = sink.client(&self.spreadsheet_id);
        let stamp = time.timestamp();
        client.send_timestamp(
            Some(stamp.as_str()),
            as_slice(&self.sheet_name),
            Some(self.cell_address.as_str()),
        )
    }
}

} // verus!

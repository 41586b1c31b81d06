//! The Cloudflare API as the updater uses it: which requests to send for
//! one zone and one record, and what their replies mean.

use crate::config::{Config, ConfigView};
use crate::http::{
    is_success, status_is_success, HttpReply, HttpReplyView, HttpRequest, HttpRequestView, Method,
    RecordUpdate, RecordUpdateView,
};
use crate::json::{
    json_model, json_parsed, member, member_of, parse_document, text_at, text_member, JsonModel,
};
use crate::text::{decimal_digits, decimal_text};
use vstd::prelude::*;
use vstd::string::*;

verus! {

/// One DNS record as a listing of the zone shows it.
#[derive(Debug, Clone, PartialEq, Eq)]
pub struct RecordInfo {
    pub id: String,
    pub name: String,
    pub record_type: String,
    pub content: String,
}

pub struct RecordInfoView {
    pub id: Seq<char>,
    pub name: Seq<char>,
    pub record_type: Seq<char>,
    pub content: Seq<char>,
}

impl View for RecordInfo {
    type V = RecordInfoView;

    open spec fn view(&self) -> RecordInfoView {
        RecordInfoView {
            id: self.id@,
            name: self.name@,
            record_type: self.record_type@,
            content: self.content@,
        }
    }
}

/// The records of a listing, each by its view.
pub open spec fn records_view(records: Seq<RecordInfo>) -> Seq<RecordInfoView> {
    records.map_values(|record: RecordInfo| record@)
}

impl RecordInfo {
    /// The line that shows this record to an operator.
    pub open spec fn description(self) -> Seq<char> {
        "ID: "@ + self.id@ + " | Name: "@ + self.name@ + " | Type: "@ + self.record_type@
            + " | Content: "@ + self.content@
    }

    /// The line that shows this record to an operator.
    pub fn describe(&self) -> (r: String)
        ensures
            r@ == self.description(),
    {
        let mut line = String::from_str("ID: ");
        line.append(self.id.as_str());
        line.append(" | Name: ");
        line.append(self.name.as_str());
        line.append(" | Type: ");
        line.append(self.record_type.as_str());
        line.append(" | Content: ");
        line.append(self.content.as_str());
        line
    }
}

/// Why a call to the provider gave no result.
#[derive(Debug, Clone, PartialEq, Eq)]
pub enum ProviderError {
    /// The request got no response.
    Transport { reason: String },
    /// A request that reads was answered with a status other than success.
    Status { status: u16 },
    /// The body of a successful response is no JSON document.
    MalformedBody,
    /// The record in a successful response has no content that is text.
    MissingContent,
    /// The request that writes was answered with a status other than
    /// success.
    WriteRejected { status: u16 },
}

pub enum ProviderErrorView {
    Transport { reason: Seq<char> },
    Status { status: u16 },
    MalformedBody,
    MissingContent,
    WriteRejected { status: u16 },
}

impl View for ProviderError {
    type V = ProviderErrorView;

    open spec fn view(&self) -> ProviderErrorView {
        match self {
            ProviderError::Transport { reason } => ProviderErrorView::Transport { reason: reason@ },
            ProviderError::Status { status } => ProviderErrorView::Status { status: *status },
            ProviderError::MalformedBody => ProviderErrorView::MalformedBody,
            ProviderError::MissingContent => ProviderErrorView::MissingContent,
            ProviderError::WriteRejected { status } => ProviderErrorView::WriteRejected {
                status: *status,
            },
        }
    }
}

impl ProviderError {
    /// The sentence that reports this error.
    pub open spec fn message_text(self) -> Seq<char> {
        match self {
            ProviderError::Transport { reason } => "Request failed: "@ + reason@,
            ProviderError::Status { status } => "Provider answered with status "@
                + decimal_digits(status as nat),
            ProviderError::MalformedBody => "Response is no JSON document"@,
            ProviderError::MissingContent => "No IP found in record"@,
            ProviderError::WriteRejected { status } => "Failed to update IP: status "@
                + decimal_digits(status as nat),
        }
    }

    /// The sentence that reports this error.
    pub fn message(&self) -> (r: String)
        ensures
            r@ == self.message_text(),
    {
        match self {
            ProviderError::Transport { reason } => {
                let mut text = String::from_str("Request failed: ");
                text.append(reason.as_str());
                text
            },
            ProviderError::Status { status } => {
                let mut text = String::from_str("Provider answered with status ");
                text.append(decimal_text(*status as u64).as_str());
                text
            },
            ProviderError::MalformedBody => String::from_str("Response is no JSON document"),
            ProviderError::MissingContent => String::from_str("No IP found in record"),
            ProviderError::WriteRejected { status } => {
                let mut text = String::from_str("Failed to update IP: status ");
                text.append(decimal_text(*status as u64).as_str());
                text
            },
        }
    }
}

/// Where a credential is verified.
pub open spec fn token_url() -> Seq<char> {
    "https://api.cloudflare.com/client/v4/user/tokens/verify"@
}

/// Where the configured zone is looked up.
pub open spec fn zone_url(config: ConfigView) -> Seq<char> {
    "https://api.cloudflare.com/client/v4/zones/"@ + config.zone_id
}

/// Where the records of the configured zone are listed.
pub open spec fn records_url(config: ConfigView) -> Seq<char> {
    zone_url(config) + "/dns_records"@
}

/// Where the configured record is read and written.
pub open spec fn record_url(config: ConfigView) -> Seq<char> {
    records_url(config) + "/"@ + config.record_id
}

/// A request that reads from `url` under the configured credential.
pub open spec fn read_request(config: ConfigView, url: Seq<char>) -> HttpRequestView {
    HttpRequestView { method: Method::Get, url, bearer: Some(config.api_token), body: None }
}

/// The document that overwrites a record with the address `ip`: type `A`,
/// no name override, the TTL 1 that lets the provider choose, not proxied.
pub open spec fn record_update(ip: Seq<char>) -> RecordUpdateView {
    RecordUpdateView {
        record_type: "A"@,
        name: Seq::empty(),
        content: ip,
        ttl: 1,
        proxied: false,
    }
}

/// The request that overwrites the configured record with the address `ip`.
pub open spec fn write_request(config: ConfigView, ip: Seq<char>) -> HttpRequestView {
    HttpRequestView {
        method: Method::Put,
        url: record_url(config),
        bearer: Some(config.api_token),
        body: Some(record_update(ip)),
    }
}

/// What the reply to a verifying request says: `true` for a response with
/// a status of success, `false` for a response with any other status.
pub open spec fn verified(reply: HttpReplyView) -> Result<bool, ProviderErrorView> {
    match reply {
        HttpReplyView::Failed { reason } => Err(ProviderErrorView::Transport { reason }),
        HttpReplyView::Response { status, body } => Ok(is_success(status)),
    }
}

/// The content of the record in a document that describes one: the member
/// `content` of the member `result`, where that is text.
pub open spec fn record_content(doc: JsonModel) -> Option<Seq<char>> {
    match member(doc, "result"@) {
        Some(result) => text_member(result, "content"@),
        None => None,
    }
}

/// The content of the record that the reply to a reading request holds.
pub open spec fn content_read(reply: HttpReplyView) -> Result<Seq<char>, ProviderErrorView> {
    match reply {
        HttpReplyView::Failed { reason } => Err(ProviderErrorView::Transport { reason }),
        HttpReplyView::Response { status, body } => if !is_success(status) {
            Err(ProviderErrorView::Status { status })
        } else {
            match json_parsed(body) {
                None => Err(ProviderErrorView::MalformedBody),
                Some(doc) => match record_content(doc) {
                    Some(content) => Ok(content),
                    None => Err(ProviderErrorView::MissingContent),
                },
            }
        },
    }
}

/// The text of the member `key`, or the empty text where there is none.
pub open spec fn text_or_empty(item: JsonModel, key: Seq<char>) -> Seq<char> {
    match text_member(item, key) {
        Some(text) => text,
        None => Seq::empty(),
    }
}

/// The record that one item of a listing describes.
pub open spec fn record_of(item: JsonModel) -> RecordInfoView {
    RecordInfoView {
        id: text_or_empty(item, "id"@),
        name: text_or_empty(item, "name"@),
        record_type: text_or_empty(item, "type"@),
        content: text_or_empty(item, "content"@),
    }
}

/// The records in a document that lists a zone: one for each item of the
/// array `result`, in order; none where `result` is no array.
pub open spec fn records_in(doc: JsonModel) -> Seq<RecordInfoView> {
    match member(doc, "result"@) {
        Some(JsonModel::Array(items)) => items.map_values(|item: JsonModel| record_of(item)),
        _ => Seq::empty(),
    }
}

/// The records that the reply to a listing request holds.
pub open spec fn records_listed(reply: HttpReplyView) -> Result<
    Seq<RecordInfoView>,
    ProviderErrorView,
> {
    match reply {
        HttpReplyView::Failed { reason } => Err(ProviderErrorView::Transport { reason }),
        HttpReplyView::Response { status, body } => if !is_success(status) {
            Err(ProviderErrorView::Status { status })
        } else {
            match json_parsed(body) {
                None => Err(ProviderErrorView::MalformedBody),
                Some(doc) => Ok(records_in(doc)),
            }
        },
    }
}

/// What the reply to a writing request says.
pub open spec fn written(reply: HttpReplyView) -> Result<(), ProviderErrorView> {
    match reply {
        HttpReplyView::Failed { reason } => Err(ProviderErrorView::Transport { reason }),
        HttpReplyView::Response { status, body } => if is_success(status) {
            Ok(())
        } else {
            Err(ProviderErrorView::WriteRejected { status })
        },
    }
}

/// Reads the member `key` of `item` as text, the empty text where there is
/// none.
pub fn text_or_default(item: &serde_json::Value, key: &str) -> (r: String)
    ensures
        r@ == text_or_empty(json_model(*item), key@),
{
    match text_at(item, key) {
        Some(text) => text,
        None => String::new(),
    }
}

/// Reads the content of the record that `doc` describes.
pub fn content_of_document(doc: &serde_json::Value) -> (r: Option<String>)
    ensures
        match r {
            Some(content) => record_content(json_model(*doc)) == Some(content@),
            None => record_content(json_model(*doc)) is None,
        },
{
    match member_of(doc, "result") {
        Some(result) => text_at(result, "content"),
        None => None,
    }
}

/// Reads the record that one item of a listing describes.
pub fn record_of_item(item: &serde_json::Value) -> (r: RecordInfo)
    ensures
        r@ == record_of(json_model(*item)),
{
    RecordInfo {
        id: text_or_default(item, "id"),
        name: text_or_default(item, "name"),
        record_type: text_or_default(item, "type"),
        content: text_or_default(item, "content"),
    }
}

/// Reads the records that `doc` lists.
pub fn records_of_document(doc: &serde_json::Value) -> (r: Vec<RecordInfo>)
    ensures
        records_view(r@) == records_in(json_model(*doc)),
{
    let mut records: Vec<RecordInfo> = Vec::new();
    let items = match member_of(doc, "result") {
        Some(result) => match result.as_array() {
            Some(items) => items,
            None => {
                assert(records_view(records@) =~= records_in(json_model(*doc)));
                return records;
            },
        },
        None => {
            assert(records_view(records@) =~= records_in(json_model(*doc)));
            return records;
        },
    };
    let mut i: usize = 0;
    while i < items.len()
        invariant
            i <= items.len(),
            records.len() == i,
            forall|j: int| 0 <= j < i ==> (#[trigger] records[j])@ == record_of(json_model(items[j])),
        decreases items.len() - i,
    {
        records.push(record_of_item(&items[i]));
        i += 1;
    }
    assert(records_view(records@) =~= records_in(json_model(*doc)));
    records
}

/// The provider's API for the zone and the record of one configuration.
#[derive(Debug, Clone, PartialEq, Eq)]
pub struct Cloudflare {
    /// The credential, the zone, the record and the interval.
    pub config: Config,
}

impl View for Cloudflare {
    type V = ConfigView;

    open spec fn view(&self) -> ConfigView {
        self.config@
    }
}

impl Cloudflare {
    /// The API for `config`.
    pub fn new(config: Config) -> (r: Cloudflare)
        ensures
            r.config == config,
    {
        Cloudflare { config }
    }

    fn bearer(&self) -> (r: Option<String>)
        ensures
            r matches Some(token) && token@ == self@.api_token,
    {
        Some(self.config.cloudflare_api_token.clone())
    }

    fn zone_address(&self) -> (r: String)
        ensures
            r@ == zone_url(self@),
    {
        let mut url = String::from_str("https://api.cloudflare.com/client/v4/zones/");
        url.append(self.config.cloudflare_zone_id.as_str());
        url
    }

    fn records_address(&self) -> (r: String)
        ensures
            r@ == records_url(self@),
    {
        let mut url = self.zone_address();
        url.append("/dns_records");
        url
    }

    fn record_address(&self) -> (r: String)
        ensures
            r@ == record_url(self@),
    {
        let mut url = self.records_address();
        url.append("/");
        url.append(self.config.cloudflare_record_id.as_str());
        url
    }

    /// The request that verifies the credential.
    pub fn token_request(&self) -> (r: HttpRequest)
        ensures
            r@ == read_request(self@, token_url()),
    {
        HttpRequest {
            method: Method::Get,
            url: String::from_str("https://api.cloudflare.com/client/v4/user/tokens/verify"),
            bearer: self.bearer(),
            body: None,
        }
    }

    /// The request that looks the zone up.
    pub fn zone_request(&self) -> (r: HttpRequest)
        ensures
            r@ == read_request(self@, zone_url(self@)),
    {
        HttpRequest { method: Method::Get, url: self.zone_address(), bearer: self.bearer(), body: None }
    }

    /// The request that reads the record.
    pub fn record_request(&self) -> (r: HttpRequest)
        ensures
            r@ == read_request(self@, record_url(self@)),
    {
        HttpRequest {
            method: Method::Get,
            url: self.record_address(),
            bearer: self.bearer(),
            body: None,
        }
    }

    /// The request that lists the records of the zone.
    pub fn listing_request(&self) -> (r: HttpRequest)
        ensures
            r@ == read_request(self@, records_url(self@)),
    {
        HttpRequest {
            method: Method::Get,
            url: self.records_address(),
            bearer: self.bearer(),
            body: None,
        }
    }

    /// The request that overwrites the record with the address `new_ip`.
    pub fn update_request(&self, new_ip: &str) -> (r: HttpRequest)
        ensures
            r@ == write_request(self@, new_ip@),
    {
        HttpRequest {
            method: Method::Put,
            url: self.record_address(),
            bearer: self.bearer(),
            body: Some(
                RecordUpdate {
                    record_type: String::from_str("A"),
                    name: String::new(),
                    content: String::from_str(new_ip),
                    ttl: 1,
                    proxied: false,
                },
            ),
        }
    }

    /// Whether the credential is valid, by the reply to `token_request`.
    pub fn api_token_right(&self, reply: &HttpReply) -> (r: Result<bool, ProviderError>)
        ensures
            result_view(r) == verified(reply@),
    {
        verdict(reply)
    }

    /// Whether the zone can be reached, by the reply to `zone_request`.
    pub fn zone_id_right(&self, reply: &HttpReply) -> (r: Result<bool, ProviderError>)
        ensures
            result_view(r) == verified(reply@),
    {
        verdict(reply)
    }

    /// Whether the record exists, by the reply to `record_request`.
    pub fn record_id_right(&self, reply: &HttpReply) -> (r: Result<bool, ProviderError>)
        ensures
            result_view(r) == verified(reply@),
    {
        verdict(reply)
    }

    /// The address that the record holds, by the reply to `record_request`.
    pub fn current_ip(&self, reply: &HttpReply) -> (r: Result<String, ProviderError>)
        ensures
            match r {
                Ok(content) => content_read(reply@) == Ok::<Seq<char>, ProviderErrorView>(content@),
                Err(error) => content_read(reply@) == Err::<Seq<char>, ProviderErrorView>(error@),
            },
    {
        let body = match successful_body(reply) {
            Ok(body) => body,
            Err(error) => {
                return Err(error);
            },
        };
        match parse_document(body) {
            Ok(doc) => match content_of_document(&doc) {
                Some(content) => Ok(content),
                None => Err(ProviderError::MissingContent),
            },
            Err(_) => Err(ProviderError::MalformedBody),
        }
    }

    /// Whether the record was overwritten, by the reply to `update_request`.
    pub fn update_ip(&self, reply: &HttpReply) -> (r: Result<(), ProviderError>)
        ensures
            match r {
                Ok(done) => written(reply@) == Ok::<(), ProviderErrorView>(()),
                Err(error) => written(reply@) == Err::<(), ProviderErrorView>(error@),
            },
    {
        match reply {
            HttpReply::Failed { reason } => Err(ProviderError::Transport { reason: reason.clone() }),
            HttpReply::Response { status, body } => if status_is_success(*status) {
                Ok(())
            } else {
                Err(ProviderError::WriteRejected { status: *status })
            },
        }
    }

    /// The records of the zone, by the reply to `listing_request`.
    pub fn list_records(&self, reply: &HttpReply) -> (r: Result<Vec<RecordInfo>, ProviderError>)
        ensures
            match r {
                Ok(records) => records_listed(reply@) == Ok::<
                    Seq<RecordInfoView>,
                    ProviderErrorView,
                >(records_view(records@)),
                Err(error) => records_listed(reply@) == Err::<
                    Seq<RecordInfoView>,
                    ProviderErrorView,
                >(error@),
            },
    {
        let body = match successful_body(reply) {
            Ok(body) => body,
            Err(error) => {
                return Err(error);
            },
        };
        match parse_document(body) {
            Ok(doc) => Ok(records_of_document(&doc)),
            Err(_) => Err(ProviderError::MalformedBody),
        }
    }
}

/// A verdict with its error seen by its view.
pub open spec fn result_view(r: Result<bool, ProviderError>) -> Result<bool, ProviderErrorView> {
    match r {
        Ok(answer) => Ok(answer),
        Err(error) => Err(error@),
    }
}

fn verdict(reply: &HttpReply) -> (r: Result<bool, ProviderError>)
    ensures
        result_view(r) == verified(reply@),
{
    match reply {
        HttpReply::Failed { reason } => Err(ProviderError::Transport { reason: reason.clone() }),
        HttpReply::Response { status, body } => Ok(status_is_success(*status)),
    }
}

/// The body of a response with a status of success.
fn successful_body(reply: &HttpReply) -> (r: Result<&str, ProviderError>)
    ensures
        match r {
            Ok(text) => reply@ matches HttpReplyView::Response { status, body } && is_success(
                status,
            ) && body == text@,
            Err(error) => match reply@ {
                HttpReplyView::Failed { reason } => error@ == (ProviderErrorView::Transport {
                    reason,
                }),
                HttpReplyView::Response { status, body } => !is_success(status) && error@ == (
                ProviderErrorView::Status { status }),
            },
        },
{
    match reply {
        HttpReply::Failed { reason } => Err(ProviderError::Transport { reason: reason.clone() }),
        HttpReply::Response { status, body } => if status_is_success(*status) {
            Ok(body.as_str())
        } else {
            Err(ProviderError::Status { status: *status })
        },
    }
}

} // verus!

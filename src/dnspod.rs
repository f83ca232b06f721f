//! What the DNSPod API client decides: its credentials and user agent, and
//! how the status that each answer carries is read.
use vstd::prelude::*;

use crate::decimal::{decimal_repr, parse_i64, signed_decimal, u64_to_decimal};
use crate::reconcile::{records_view, BackendError, TxtRecord, TxtRecordView};

verus! {

/// The status code of a successful request.
pub const SUCCESS_CODE: i64 = 1;

/// The status code with which a record list answers when there are no records.
pub const NO_RECORDS_CODE: i64 = 10;

/// Product and version that the user agent names.
pub const USER_AGENT_PRODUCT: &'static str = "acmed-dns-helper-dnspod/0.2.0";

/// The login token of the API: the account id, a comma, the secret token.
pub open spec fn login_token_of(id: u64, token: Seq<char>) -> Seq<char> {
    decimal_repr(id as nat) + seq![','] + token
}

/// The user agent that names `contact_email`, as the API asks of clients.
pub open spec fn user_agent_of(contact_email: Seq<char>) -> Seq<char> {
    USER_AGENT_PRODUCT@ + seq![' ', '('] + contact_email + seq![')']
}

/// The status code written in `text`, if it is a decimal `i64`.
pub open spec fn status_code(text: Seq<char>) -> Option<i64> {
    match signed_decimal(text) {
        Some(n) => if i64::MIN <= n <= i64::MAX {
            Some(n as i64)
        } else {
            None
        },
        None => None,
    }
}

/// Account id and secret token of a DNSPod account.
pub struct DnspodCredentials {
    id: u64,
    token: String,
}

impl View for DnspodCredentials {
    type V = (u64, Seq<char>);

    closed spec fn view(&self) -> (u64, Seq<char>) {
        (self.id, self.token@)
    }
}

impl DnspodCredentials {
    pub fn new(id: u64, token: String) -> (r: DnspodCredentials)
        ensures
            r@ == (id, token@),
    {
        DnspodCredentials { id, token }
    }

    /// Credentials from the account id as text and the token; `None` when the
    /// id is not a decimal `u64`.
    pub fn try_from_values(id: &str, token: &str) -> (r: Option<DnspodCredentials>)
        ensures
            r is Some <==> (crate::decimal::unsigned_decimal(id@) matches Some(n) && n
                <= u64::MAX),
            r matches Some(c) ==> crate::decimal::unsigned_decimal(id@) == Some(c@.0 as nat)
                && c@.1 == token@,
    {
        match crate::decimal::parse_u64(id) {
            Some(n) => Some(DnspodCredentials { id: n, token: String::from_str(token) }),
            None => None,
        }
    }

    /// The login token that each request carries.
    pub fn to_login_token(&self) -> (r: String)
        ensures
            r@ == login_token_of(self@.0, self@.1),
    {
        let mut r = u64_to_decimal(self.id);
        r.append(",");
        r.append(self.token.as_str());
        proof {
            reveal_strlit(",");
        }
        r
    }
}

/// The contact address that the user agent of the client names.
pub struct DnspodUserAgent {
    contact_email: String,
}

impl View for DnspodUserAgent {
    type V = Seq<char>;

    closed spec fn view(&self) -> Seq<char> {
        self.contact_email@
    }
}

impl DnspodUserAgent {
    pub fn new(contact_email: String) -> (r: DnspodUserAgent)
        ensures
            r@ == contact_email@,
    {
        DnspodUserAgent { contact_email }
    }

    /// The user agent string: `acmed-dns-helper-dnspod/0.2.0 (<contact email>)`.
    pub fn to_ua_string(&self) -> (r: String)
        ensures
            r@ == user_agent_of(self@),
    {
        let mut r = String::from_str(USER_AGENT_PRODUCT);
        r.append(" (");
        r.append(self.contact_email.as_str());
        r.append(")");
        proof {
            reveal_strlit(" (");
            reveal_strlit(")");
        }
        r
    }
}

/// An error that the API reported in a status.
#[derive(Debug, PartialEq, Eq)]
pub enum DnspodError {
    /// The status code (other than success) and its message.
    Api { code: i64, message: String },
    /// The status code was not a number.
    MalformedCode(String),
}

/// The status that each answer of the API carries.
pub struct DnspodRespStatus {
    pub code: String,
    pub message: String,
    pub created_at: String,
}

/// What `status` means: success, an error of the API, or an unreadable code.
pub open spec fn status_outcome(status: &DnspodRespStatus, r: Result<(), DnspodError>) -> bool {
    match status_code(status.code@) {
        Some(c) => if c == SUCCESS_CODE {
            r is Ok
        } else {
            r matches Err(DnspodError::Api { code, message }) && code == c && message@
                == status.message@
        },
        None => r matches Err(DnspodError::MalformedCode(text)) && text@ == status.code@,
    }
}

/// The error of the library that `e` stands for.
pub open spec fn backend_error_of(e: DnspodError) -> (Option<i64>, Seq<char>) {
    match e {
        DnspodError::Api { code, message } => (Some(code), message@),
        DnspodError::MalformedCode(text) => (None, MALFORMED_CODE_MESSAGE@ + text@),
    }
}

/// Message of a status whose code is not a number; the code follows it.
pub const MALFORMED_CODE_MESSAGE: &'static str = "malformed status code: ";

/// Message of a successful record list that holds no list.
pub const MISSING_RECORDS_MESSAGE: &'static str = "record list missing from a successful answer";

impl DnspodError {
    pub fn to_backend_error(self) -> (r: BackendError)
        ensures
            (r.code, r.message@) == backend_error_of(self),
    {
        match self {
            DnspodError::Api { code, message } => BackendError { code: Some(code), message },
            DnspodError::MalformedCode(text) => {
                let mut message = String::from_str(MALFORMED_CODE_MESSAGE);
                message.append(text.as_str());
                BackendError { code: None, message }
            },
        }
    }
}

impl DnspodRespStatus {
    /// `Ok` when the status reports success, else the error it reports.
    pub fn try_parse_err(&self) -> (r: Result<(), DnspodError>)
        ensures
            status_outcome(self, r),
    {
        match parse_i64(self.code.as_str()) {
            Some(code) => {
                if code == SUCCESS_CODE {
                    Ok(())
                } else {
                    Err(DnspodError::Api { code, message: self.message.clone() })
                }
            },
            None => Err(DnspodError::MalformedCode(self.code.clone())),
        }
    }

    /// `Ok` when the status reports success, else the provider's error.
    pub fn into_result(&self) -> (r: Result<(), BackendError>)
        ensures
            status_code(self.code@) == Some(SUCCESS_CODE) <==> r is Ok,
            r matches Err(e) ==> exists|de: DnspodError|
                status_outcome(self, Err(de)) && (e.code, e.message@) == backend_error_of(de),
    {
        match self.try_parse_err() {
            Ok(()) => Ok(()),
            Err(e) => {
                let ghost de = e;
                let b = e.to_backend_error();
                assert(status_outcome(self, Err(de)));
                Err(b)
            },
        }
    }
}

/// A record as the record list of the API describes it.
pub struct DnspodRespRecord {
    pub id: String,
    pub ttl: String,
    pub value: String,
    pub enabled: String,
    pub status: String,
    pub updated_on: String,
    pub name: String,
    pub line: String,
    pub line_id: String,
    pub typ: String,
    pub weight: Option<String>,
    pub monitor_status: String,
    pub remark: String,
    pub use_aqb: String,
    pub mx: String,
}

pub open spec fn dnspod_record_view(r: DnspodRespRecord) -> TxtRecordView {
    TxtRecordView { record_id: r.id@, name: r.name@, record_type: r.typ@, value: r.value@ }
}

impl DnspodRespRecord {
    pub fn to_txt_record(&self) -> (r: TxtRecord)
        ensures
            r@ == dnspod_record_view(*self),
    {
        TxtRecord {
            record_id: self.id.clone(),
            name: self.name.clone(),
            record_type: self.typ.clone(),
            value: self.value.clone(),
        }
    }
}

/// The answer to a request for the records at a name.
pub struct DnspodRespRecordList {
    pub status: DnspodRespStatus,
    pub records: Option<Vec<DnspodRespRecord>>,
}

impl DnspodRespRecordList {
    /// The records that the answer lists. The code that reports an empty list
    /// gives no records rather than an error; a successful answer without a
    /// list, or any other code, gives an error.
    pub fn into_txt_records(self) -> (r: Result<Vec<TxtRecord>, BackendError>)
        ensures
            status_code(self.status.code@) == Some(SUCCESS_CODE) ==> match self.records {
                Some(v) => r matches Ok(out) && records_view(out@) == v@.map_values(
                    |x: DnspodRespRecord| dnspod_record_view(x),
                ),
                None => r matches Err(e) && e.code is None && e.message@
                    == MISSING_RECORDS_MESSAGE@,
            },
            status_code(self.status.code@) == Some(NO_RECORDS_CODE) ==> (r matches Ok(out)
                && out@.len() == 0),
            status_code(self.status.code@) != Some(SUCCESS_CODE) && status_code(self.status.code@)
                != Some(NO_RECORDS_CODE) ==> (r matches Err(e) && exists|de: DnspodError|
                status_outcome(&self.status, Err(de)) && (e.code, e.message@)
                    == backend_error_of(de)),
    {
        match self.status.try_parse_err() {
            Ok(()) => match self.records {
                Some(v) => {
                    let mut out: Vec<TxtRecord> = Vec::new();
                    let mut i: usize = 0;
                    while i < v.len()
                        invariant
                            i <= v@.len(),
                            records_view(out@) == v@.take(i as int).map_values(
                                |x: DnspodRespRecord| dnspod_record_view(x),
                            ),
                        decreases v@.len() - i,
                    {
                        let ghost before = out@;
                        out.push(v[i].to_txt_record());
                        assert(records_view(out@) =~= records_view(before).push(
                            dnspod_record_view(v@[i as int]),
                        ));
                        assert(v@.take(i + 1).map_values(
                            |x: DnspodRespRecord| dnspod_record_view(x),
                        ) =~= v@.take(i as int).map_values(
                            |x: DnspodRespRecord| dnspod_record_view(x),
                        ).push(dnspod_record_view(v@[i as int])));
                        i = i + 1;
                    }
                    assert(v@.take(v@.len() as int) =~= v@);
                    Ok(out)
                },
                None => Err(
                    BackendError { code: None, message: String::from_str(MISSING_RECORDS_MESSAGE) },
                ),
            },
            Err(e) => {
                let ghost de = e;
                if let DnspodError::Api { code, .. } = &e {
                    if *code == NO_RECORDS_CODE {
                        return Ok(Vec::new());
                    }
                }
                let b = e.to_backend_error();
                assert(status_outcome(&self.status, Err(de)));
                Err(b)
            },
        }
    }
}

} // verus!

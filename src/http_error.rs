use vstd::prelude::*;

use crate::text::{decimal, decimal_text, join, join3};

verus! {

/// An HTTP request that did not succeed.
pub struct HttpError {
    pub url: Option<String>,
    pub status: Option<u16>,
    /// What the server said, or why there was no answer.
    pub source: String,
}

/// Whether an HTTP status reports success: it lies in the 2xx range.
pub open spec fn success_status(status: u16) -> bool {
    200 <= status < 300
}

/// Whether an HTTP status reports success.
pub fn is_success_status(status: u16) -> (r: bool)
    ensures
        r == success_status(status),
{
    200 <= status && status < 300
}

impl HttpError {
    /// The text of the error, with placeholders for what is unknown.
    pub open spec fn text(&self) -> Seq<char> {
        let url = match self.url {
            Some(u) => u@,
            None => "Unknown URL"@,
        };
        let status = match self.status {
            Some(s) => decimal(s as nat),
            None => "Unknown"@,
        };
        "Http Request Error: url = "@ + url + ", status = "@ + status + ", source = "@ + self.source@
    }

    /// Describes the error.
    pub fn to_text(&self) -> (r: String)
        ensures
            r@ == self.text(),
    {
        let url = match &self.url {
            Some(u) => u.clone(),
            None => String::from_str("Unknown URL"),
        };
        let status = match self.status {
            Some(s) => decimal_text(s as u64),
            None => String::from_str("Unknown"),
        };
        let head = join3("Http Request Error: url = ", url.as_str(), ", status = ");
        let tail = join3(status.as_str(), ", source = ", self.source.as_str());
        join(head.as_str(), tail.as_str())
    }
}

} // verus!

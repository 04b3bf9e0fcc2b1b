use vstd::prelude::*;

pub mod assembler;
pub mod decoder;

use crate::assembler::{create_gif, gif_of, zeros, FRAME_DELAY, MAX_SIDE};
use crate::decoder::{decode_image, decoded_of, empty_image_text, failure_text};

verus! {

/// Largest response body, in bytes, that the fetch step may hand on.
pub const BODY_CAP: usize = 20_000_000;

/// What went wrong while serving one request.
#[derive(Debug)]
pub enum ServiceError {
    MissingParameter,
    UpstreamFetch(String),
    UnsupportedFormat(String),
    Decode(String),
    Encode(String),
}

/// The query of the single route: the target `url`.
pub struct QueryParameters {
    url: String,
}

/// What a request without a target URL is told.
pub open spec fn missing_parameter_text() -> Seq<char> {
    "missing query parameter: url"@
}

/// The suffix that callers may append to force a preview.
pub open spec fn gif_suffix() -> Seq<char> {
    seq!['.', 'g', 'i', 'f']
}

/// The URL actually fetched for a requested one.
pub open spec fn effective_url_of(u: Seq<char>) -> Seq<char> {
    if u.len() >= 4 && u.subrange(u.len() - 4, u.len() as int) == gif_suffix() {
        u.subrange(0, u.len() - 4)
    } else {
        u
    }
}

impl QueryParameters {
    pub closed spec fn url_view(&self) -> Seq<char> {
        self.url@
    }

    /// Builds the query from the raw parameter; absent or empty is refused.
    pub fn from_query(url: Option<String>) -> (r: Result<QueryParameters, ServiceError>)
        ensures
            match url {
                Some(u) => if u@.len() > 0 {
                    r matches Ok(q) && q.url_view() == u@
                } else {
                    r matches Err(ServiceError::MissingParameter)
                },
                None => r matches Err(ServiceError::MissingParameter),
            },
    {
        match url {
            Some(u) => {
                if u.unicode_len() > 0 {
                    Ok(QueryParameters { url: u })
                } else {
                    Err(ServiceError::MissingParameter)
                }
            },
            None => Err(ServiceError::MissingParameter),
        }
    }

    /// The URL to fetch: a trailing `.gif` is dropped, anything else kept.
    pub fn effective_url(&self) -> (r: String)
        ensures
            r@ == effective_url_of(self.url_view()),
    {
        effective_url(self.url.as_str())
    }
}

/// Drops a trailing `.gif` from `u`; other input comes back unchanged.
pub fn effective_url(u: &str) -> (r: String)
    ensures
        r@ == effective_url_of(u@),
{
    let n = u.unicode_len();
    if n >= 4 {
        let tail = u.substring_char(n - 4, n);
        let same = tail.get_char(0) == '.' && tail.get_char(1) == 'g' && tail.get_char(2) == 'i'
            && tail.get_char(3) == 'f';
        proof {
            if same {
                assert(tail@ =~= gif_suffix());
            } else {
                assert(tail@ != gif_suffix());
            }
        }
        if same {
            return u.substring_char(0, n - 4).to_string();
        }
    }
    u.to_string()
}

/// Accepts a fetched body only when it fits under the cap.
pub fn accept_body(body: Vec<u8>) -> (r: Result<Vec<u8>, ServiceError>)
    ensures
        body@.len() <= BODY_CAP ==> (r matches Ok(b) && b@ == body@),
        body@.len() > BODY_CAP ==> (r matches Err(ServiceError::UpstreamFetch(_))),
{
    if body.len() <= BODY_CAP {
        Ok(body)
    } else {
        Err(ServiceError::UpstreamFetch(String::from_str("response body exceeds the size cap")))
    }
}

/// Decimal digit `d`.
pub open spec fn digit(d: nat) -> char {
    seq!['0', '1', '2', '3', '4', '5', '6', '7', '8', '9'][d as int]
}

/// Decimal notation of `n`, without leading zeros.
pub open spec fn decimal(n: nat) -> Seq<char>
    decreases n,
{
    if n < 10 {
        seq![digit(n)]
    } else {
        decimal(n / 10) + seq![digit(n % 10)]
    }
}

/// Relies on std's `ToString` for `u16`, which writes the number in decimal.
#[verifier::external_body]
fn decimal_text(n: u16) -> (r: String)
    ensures
        r@ == decimal(n as nat),
{
    n.to_string()
}

/// The description of an upstream reply with a non-success status.
pub open spec fn status_text(code: u16) -> Seq<char> {
    "the origin answered with status "@ + decimal(code as nat)
}

/// Accepts an upstream reply status: only 2xx lets the body through.
pub fn check_status(code: u16) -> (r: Result<(), ServiceError>)
    ensures
        (200 <= code && code < 300) <==> r is Ok,
        r matches Err(e) ==> (e matches ServiceError::UpstreamFetch(m) && m@ == status_text(code)),
{
    if 200 <= code && code < 300 {
        Ok(())
    } else {
        let prefix = String::from_str("the origin answered with status ");
        proof {
            reveal_strlit("the origin answered with status ");
        }
        let digits = decimal_text(code);
        Err(ServiceError::UpstreamFetch(prefix.concat(digits.as_str())))
    }
}

/// What converting a fetched body gives: the cap is checked first, then the
/// decode, then the canvas size; each failing step ends the chain with its
/// own error kind.
pub open spec fn convert_step(body: Seq<u8>, r: Result<Vec<u8>, ServiceError>) -> bool {
    if body.len() > BODY_CAP {
        r matches Err(ServiceError::UpstreamFetch(_))
    } else {
        match decoded_of(body) {
            Err((unsupported, text)) => if unsupported {
                (r matches Err(ServiceError::UnsupportedFormat(m)) && m@ == failure_text(text))
            } else {
                (r matches Err(ServiceError::Decode(m)) && m@ == failure_text(text))
            },
            Ok((w, h, p)) => if w == 0 || h == 0 {
                (r matches Err(ServiceError::Decode(m)) && m@ == empty_image_text())
            } else if w > MAX_SIDE || h > MAX_SIDE {
                r matches Err(ServiceError::Encode(_))
            } else {
                (r matches Ok(g) && g@ == gif_of(w as u16, h as u16, zeros(p.len()), p, FRAME_DELAY))
            },
        }
    }
}

/// The whole conversion of a fetched body: size cap, decode, two-frame GIF.
pub fn convert(body: Vec<u8>) -> (r: Result<Vec<u8>, ServiceError>)
    ensures
        convert_step(body@, r),
{
    let bytes = match accept_body(body) {
        Ok(b) => b,
        Err(e) => return Err(e),
    };
    let img = match decode_image(bytes) {
        Ok(img) => img,
        Err(e) => return Err(e),
    };
    create_gif(img)
}

impl ServiceError {
    /// The plain-text description sent back to the caller.
    pub fn message(&self) -> (r: String)
        ensures
            self is MissingParameter ==> r@ == missing_parameter_text(),
            self matches ServiceError::UpstreamFetch(m) ==> r@ == m@,
            self matches ServiceError::UnsupportedFormat(m) ==> r@ == m@,
            self matches ServiceError::Decode(m) ==> r@ == m@,
            self matches ServiceError::Encode(m) ==> r@ == m@,
    {
        match self {
            ServiceError::MissingParameter => {
                let r = String::from_str("missing query parameter: url");
                proof {
                    reveal_strlit("missing query parameter: url");
                }
                r
            },
            ServiceError::UpstreamFetch(m) => m.clone(),
            ServiceError::UnsupportedFormat(m) => m.clone(),
            ServiceError::Decode(m) => m.clone(),
            ServiceError::Encode(m) => m.clone(),
        }
    }

    /// The HTTP status that reports this error: internal encode failures are 500,
    /// everything else is the client's and gets 400.
    pub fn status(&self) -> (r: u16)
        ensures
            r == (if self is Encode { 500u16 } else { 400u16 }),
    {
        match self {
            ServiceError::Encode(_) => 500,
            _ => 400,
        }
    }
}

} // verus!

//! What every cloud provider makes of an HTTP exchange.

use vstd::prelude::*;

use super::types::TranscriptionError;
use crate::text::{decimal_text, trim};

verus! {

/// The answer to a request. The body of an error answer is never read, so it is
/// not part of it.
#[derive(Debug)]
pub enum Reply<T> {
    /// The request could not be sent, or no answer came.
    Failed { timed_out: bool },
    /// An answer outside the 2xx range.
    Refused(u16),
    /// A 2xx answer whose body did not arrive.
    Interrupted { timed_out: bool },
    /// A 2xx answer, and what its body stands for, if it can be decoded.
    Answered(Option<T>),
}

/// The status stands for success.
pub open spec fn is_success(status: u16) -> bool {
    200 <= status < 300
}

/// Whether the body of an answer may be read: only where the status stands for
/// success.
pub fn reads_body(status: u16) -> (r: bool)
    ensures
        r == is_success(status),
        r <==> 200 <= status <= 299,
{
    200 <= status && status < 300
}

/// The key to send: trimmed, a blank one counting as missing.
pub fn usable_key(api_key: &str) -> (r: Result<String, TranscriptionError>)
    ensures
        r is Ok == !crate::text::is_blank(api_key@),
        r matches Ok(key) ==> key@ == crate::text::trimmed(api_key@),
        r matches Err(error) ==> error == TranscriptionError::MissingCredential,
{
    proof {
        crate::text::trimmed_is_empty_exactly_for_blank(api_key@);
    }
    let key: &str = trim(api_key);
    if key.unicode_len() == 0 {
        Err(TranscriptionError::MissingCredential)
    } else {
        Ok(key.to_owned())
    }
}

/// The error of a request that could not be sent, or of an answer that did not
/// arrive whole.
pub open spec fn send_error(timed_out: bool) -> super::types::ErrorView {
    if timed_out {
        super::types::ErrorView::Timeout
    } else {
        super::types::ErrorView::Network
    }
}

/// The error of a request that could not be sent, or of an answer that did not
/// arrive whole.
pub fn classify_send_error(timed_out: bool) -> (r: TranscriptionError)
    ensures
        r@ == send_error(timed_out),
        r == TranscriptionError::Timeout <==> timed_out,
        r == TranscriptionError::Network <==> !timed_out,
{
    if timed_out {
        TranscriptionError::Timeout
    } else {
        TranscriptionError::Network
    }
}

/// The text of a request that the provider rejected.
pub open spec fn rejection_text(status: u16) -> Seq<char> {
    "provider rejected request ("@ + crate::text::decimal(status as nat) + ")"@
}

/// The error of a request that the provider rejected.
pub fn rejected(status: u16) -> (r: TranscriptionError)
    ensures
        r@ == super::types::ErrorView::InvalidConfiguration(rejection_text(status)),
        r matches TranscriptionError::InvalidConfiguration(text) && text@
            == "provider rejected request ("@ + crate::text::decimal(status as nat) + ")"@,
{
    let mut text: String = "provider rejected request (".to_owned();
    text.append(decimal_text(status as u64).as_str());
    text.append(")");
    TranscriptionError::InvalidConfiguration(text)
}

/// A status stands for success exactly where it is one of the two hundreds.
pub proof fn success_is_the_two_hundreds(status: u16)
    ensures
        is_success(status) <==> status / 100 == 2,
{
}

/// A failure to send is a timeout or a network failure, never both.
pub proof fn a_failed_send_timed_out_or_not(timed_out: bool)
    ensures
        send_error(timed_out) is Timeout <==> timed_out,
        send_error(timed_out) is Network <==> !timed_out,
{
}

/// The text of a rejection names the status, so that no two statuses have the
/// same text.
pub proof fn a_rejection_names_its_status(a: u16, b: u16)
    ensures
        crate::text::contains_text(rejection_text(a), crate::text::decimal(a as nat)),
        rejection_text(a) == rejection_text(b) ==> a == b,
{
    let opening = "provider rejected request ("@;
    let x = crate::text::decimal(a as nat);
    let y = crate::text::decimal(b as nat);
    crate::text::a_text_holds_what_stands_between(opening, x, ")"@);
    crate::text::a_decimal_reads_back(a as nat);
    crate::text::a_decimal_reads_back(b as nat);
    if rejection_text(a) == rejection_text(b) {
        let n = opening.len() as int;
        assert(rejection_text(a).len() == n + x.len() + ")"@.len());
        assert(rejection_text(b).len() == n + y.len() + ")"@.len());
        assert(rejection_text(a).subrange(n, n + x.len()) == x);
        assert(rejection_text(b).subrange(n, n + y.len()) == y);
    }
}

} // verus!

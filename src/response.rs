//! Reading the provider's answer: audio on success, a classified error
//! otherwise.

use vstd::prelude::*;
use crate::error::{classified, ElevenLabsTTSError};

verus! {

/// The text that `String::from_utf8_lossy` reads from `b`.
pub uninterp spec fn utf8_lossy(b: Seq<u8>) -> Seq<char>;

/// Relies on String::from_utf8_lossy: the bytes read as UTF-8, each invalid
/// sequence replaced by U+FFFD; no bytes read as empty text.
#[verifier::external_body]
fn lossy_text(b: &[u8]) -> (r: String)
    ensures
        r@ == utf8_lossy(b@),
        b@.len() == 0 ==> r@.len() == 0,
{
    String::from_utf8_lossy(b).into_owned()
}

/// A successful HTTP status.
pub open spec fn is_success(status: u16) -> bool {
    200 <= status && status <= 299
}

/// The outcome of a request whose response had `status` and `body`: on
/// success the body, untouched; otherwise the error that the status
/// classifies, with the body read as text for its message and the delay the
/// provider asked for, if any.
pub fn classify_response(status: u16, body: Vec<u8>, retry_after: Option<u64>) -> (r: Result<
    Vec<u8>,
    ElevenLabsTTSError,
>)
    ensures
        is_success(status) ==> r == Ok::<Vec<u8>, ElevenLabsTTSError>(body),
        !is_success(status) ==> (r matches Err(e) && classified(
            e,
            status,
            utf8_lossy(body@),
            retry_after,
        )),
{
    if 200 <= status && status <= 299 {
        Ok(body)
    } else {
        let message = lossy_text(body.as_slice());
        Err(ElevenLabsTTSError::from_status(status, message, retry_after))
    }
}

pub open spec fn is_digit(b: u8) -> bool {
    48 <= b && b <= 57
}

/// The number that the decimal digits `s` write.
pub open spec fn digits_value(s: Seq<u8>) -> nat
    decreases s.len(),
{
    if s.len() == 0 {
        0
    } else {
        digits_value(s.drop_last()) * 10 + (s.last() - 48) as nat
    }
}

pub open spec fn all_digits(s: Seq<u8>) -> bool {
    forall|i: int| 0 <= i < s.len() ==> #[trigger] is_digit(s[i])
}

/// The delay in seconds that a `Retry-After` value gives: a non-empty run of
/// decimal digits whose number fits in 64 bits. Any other value, such as an
/// HTTP date, gives none.
pub open spec fn retry_after_seconds(s: Seq<u8>) -> Option<u64> {
    if s.len() > 0 && all_digits(s) && digits_value(s) <= u64::MAX {
        Some(digits_value(s) as u64)
    } else {
        None
    }
}

proof fn lemma_prefix_value_le(s: Seq<u8>, k: int)
    requires
        0 <= k <= s.len(),
        all_digits(s),
    ensures
        digits_value(s.take(k)) <= digits_value(s),
    decreases s.len(),
{
    if k < s.len() {
        let t = s.drop_last();
        assert(t.take(k) =~= s.take(k));
        assert(all_digits(t)) by {
            assert forall|i: int| 0 <= i < t.len() implies #[trigger] is_digit(t[i]) by {
                assert(is_digit(s[i]));
            }
        }
        lemma_prefix_value_le(t, k);
        assert(digits_value(t) <= digits_value(s)) by (nonlinear_arith)
            requires
                digits_value(s) == digits_value(t) * 10 + (s.last() - 48) as nat,
        ;
    } else {
        assert(s.take(k) =~= s);
    }
}

/// Reads a `Retry-After` header value given in seconds.
pub fn parse_retry_after(value: &[u8]) -> (r: Option<u64>)
    ensures
        r == retry_after_seconds(value@),
{
    let n = value.len();
    if n == 0 {
        return None;
    }
    let mut acc: u64 = 0;
    let mut i: usize = 0;
    while i < n
        invariant
            n == value@.len(),
            i <= n,
            all_digits(value@.take(i as int)),
            acc as nat == digits_value(value@.take(i as int)),
        decreases n - i,
    {
        let b = value[i];
        if b < 48 || b > 57 {
            assert(!is_digit(value@[i as int]));
            return None;
        }
        let d = (b - 48) as u64;
        let ghost next = value@.take(i as int + 1);
        assert(next.drop_last() =~= value@.take(i as int));
        assert(all_digits(next)) by {
            assert forall|j: int| 0 <= j < next.len() implies #[trigger] is_digit(next[j]) by {
                if j < i {
                    assert(is_digit(value@.take(i as int)[j]));
                }
            }
        }
        if acc > (u64::MAX - d) / 10 {
            proof {
                assert(digits_value(next) > u64::MAX) by (nonlinear_arith)
                    requires
                        digits_value(next) == acc * 10 + d,
                        acc > (u64::MAX - d) / 10,
                        d <= 9,
                ;
                if all_digits(value@) {
                    lemma_prefix_value_le(value@, i as int + 1);
                }
            }
            return None;
        }
        assert(acc * 10 + d <= u64::MAX) by (nonlinear_arith)
            requires
                acc <= (u64::MAX - d) / 10,
                d <= 9,
        ;
        acc = acc * 10 + d;
        i = i + 1;
    }
    assert(value@.take(n as int) =~= value@);
    Some(acc)
}

} // verus!

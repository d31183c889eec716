//! Error classification, and redaction of API keys from transport errors.
//!
//! Every failure surfaces as one [`AbstractApiError`] value. Before a transport error is
//! stored, any substring of its rendered text that looks like an `api_key`
//! query parameter (`api_key=` followed by 32 or more alphanumeric
//! characters) is replaced by `api_key=***`, so a live key never reaches a
//! log or an error display.

use vstd::prelude::*;
use crate::transport::{render_transport_error, transport_error_text};
use crate::ApiType;

verus! {

/// Custom errors.
#[derive(Debug)]
pub enum AbstractApiError {
    /// An API key is already set for the identifier.
    ApiKeySetError,
    /// No API key is present for the identifier.
    ApiKeyNotPresent(ApiType),
    /// Handling a request failed; the payload is the redacted description of
    /// the transport failure.
    RequestError(String),
    /// An IO operation failed while a response was being read or decoded.
    IoError(String),
}

/// Whether the character is an ASCII letter or digit — the characters an API
/// key consists of.
pub open spec fn is_alnum(c: char) -> bool {
    (48 <= c as u32 && c as u32 <= 57) || (65 <= c as u32 && c as u32 <= 90) || (97 <= c as u32
        && c as u32 <= 122)
}

/// The characters of the marker `api_key=` that precedes a key in a query
/// string.
pub open spec fn key_marker() -> Seq<char> {
    seq!['a', 'p', 'i', '_', 'k', 'e', 'y', '=']
}

/// The characters of the replacement `api_key=***` that a redacted key leaves
/// behind.
pub open spec fn key_replacement() -> Seq<char> {
    seq!['a', 'p', 'i', '_', 'k', 'e', 'y', '=', '*', '*', '*']
}

/// Whether an API key occurrence starts at position `i`: the marker
/// `api_key=` followed by at least 32 letters or digits.
pub open spec fn key_at(s: Seq<char>, i: int) -> bool {
    &&& 0 <= i
    &&& i + 40 <= s.len()
    &&& forall|j: int| i <= j < i + 8 ==> #[trigger] s[j] == key_marker()[j - i]
    &&& forall|j: int| i + 8 <= j < i + 40 ==> is_alnum(#[trigger] s[j])
}

/// The text with every API key occurrence replaced by `api_key=***`.
///
/// Scanning is from the left; on a match the marker and the whole maximal run
/// of letters and digits after it are consumed (see [`swallow_key`]), so no
/// tail of the key survives.
pub open spec fn redact(s: Seq<char>) -> Seq<char>
    decreases s.len(), 0int,
{
    if s.len() == 0 {
        s
    } else if key_at(s, 0) {
        key_replacement() + swallow_key(s.skip(8))
    } else {
        seq![s[0]] + redact(s.skip(1))
    }
}

/// Consumes the leading run of letters and digits (the remainder of a matched
/// key), then resumes [`redact`].
pub open spec fn swallow_key(s: Seq<char>) -> Seq<char>
    decreases s.len(), 1int,
{
    if s.len() > 0 && is_alnum(s[0]) {
        swallow_key(s.skip(1))
    } else {
        redact(s)
    }
}

/// Whether the text continues an API key occurrence whose first `p`
/// characters stand right before it: the rest of the `api_key=` marker,
/// then letters and digits up to position 40 of the occurrence.
pub open spec fn key_continues(u: Seq<char>, p: int) -> bool {
    &&& u.len() + p >= 40
    &&& forall|j: int| 0 <= j && j + p < 8 ==> #[trigger] u[j] == key_marker()[j + p]
    &&& forall|j: int| 0 <= j && 8 <= j + p && j + p < 40 ==> is_alnum(#[trigger] u[j])
}

/// If the redacted text continues a key occurrence begun `p` characters
/// earlier, then so did the original text: redaction never fabricates the
/// tail of a key occurrence.
proof fn lemma_key_continues_lift(t: Seq<char>, p: int)
    requires
        0 <= p <= 40,
        key_continues(redact(t), p),
    ensures
        key_continues(t, p),
    decreases t.len(),
{
    let u = redact(t);
    if p == 40 {
        // Nothing is left of the occurrence; the conclusion holds of any text.
    } else if t.len() == 0 {
        assert(u.len() + p >= 40);
        assert(false);
    } else if key_at(t, 0) {
        let sw = swallow_key(t.skip(8));
        assert(u == key_replacement() + sw);
        assert(u[0] == 'a');
        assert(u[3] == '_');
        assert(u[8] == '*');
        if p == 0 {
            assert(is_alnum(u[8]));
            assert(false);
        } else if p < 8 {
            assert(u[0] == key_marker()[p]);
            assert(false);
        } else if p <= 36 {
            assert(is_alnum(u[3]));
            assert(false);
        } else {
            // p is 37, 38 or 39: at most the characters `api` are still owed,
            // and the original text starts with the marker `api_key=`.
            assert(t[0] == key_marker()[0]);
            assert(t[1] == key_marker()[1]);
            assert(t[2] == key_marker()[2]);
            assert forall|j: int| 0 <= j && 8 <= j + p && j + p < 40 implies is_alnum(
                #[trigger] t[j],
            ) by {
                assert(j < 3);
                assert(t[j] == key_marker()[j]);
            }
            assert(key_continues(t, p));
        }
    } else {
        let r1 = redact(t.skip(1));
        assert(u == seq![t[0]] + r1);
        assert forall|j: int| 0 <= j && j + (p + 1) < 8 implies #[trigger] r1[j]
            == key_marker()[j + (p + 1)] by {
            assert(r1[j] == u[j + 1]);
        }
        assert forall|j: int| 0 <= j && 8 <= j + (p + 1) && j + (p + 1) < 40 implies is_alnum(
            #[trigger] r1[j],
        ) by {
            assert(r1[j] == u[j + 1]);
        }
        assert(key_continues(r1, p + 1));
        lemma_key_continues_lift(t.skip(1), p + 1);
        assert forall|j: int| 0 <= j && j + p < 8 implies #[trigger] t[j] == key_marker()[j
            + p] by {
            if j == 0 {
                assert(t[0] == u[0]);
            } else {
                assert(t[j] == t.skip(1)[j - 1]);
            }
        }
        assert forall|j: int| 0 <= j && 8 <= j + p && j + p < 40 implies is_alnum(
            #[trigger] t[j],
        ) by {
            if j == 0 {
                assert(t[0] == u[0]);
            } else {
                assert(t[j] == t.skip(1)[j - 1]);
            }
        }
        assert(t.len() + p >= 40);
        assert(key_continues(t, p));
    }
}

/// After redaction, no API key occurrence is left anywhere in the text: there
/// is no position where `api_key=` is followed by 32 letters or digits.
pub proof fn lemma_redact_clean(s: Seq<char>)
    ensures
        forall|i: int| !key_at(#[trigger] redact(s), i),
    decreases s.len(), 0int,
{
    let u = redact(s);
    if s.len() == 0 {
        assert(forall|i: int| !key_at(u, i));
    } else if key_at(s, 0) {
        let sw = swallow_key(s.skip(8));
        assert(u == key_replacement() + sw);
        lemma_swallow_key_clean(s.skip(8));
        assert forall|i: int| !key_at(u, i) by {
            if key_at(u, i) {
                if i == 0 {
                    assert(u[8] == '*');
                    assert(is_alnum(u[8]));
                    assert(false);
                } else if i <= 10 {
                    assert(u[i] == key_replacement()[i]);
                    assert(u[i] == key_marker()[0]);
                    assert(false);
                } else {
                    assert forall|j: int| i - 11 <= j < i - 11 + 8 implies #[trigger] sw[j]
                        == key_marker()[j - (i - 11)] by {
                        assert(sw[j] == u[j + 11]);
                    }
                    assert forall|j: int| i - 11 + 8 <= j < i - 11 + 40 implies is_alnum(
                        #[trigger] sw[j],
                    ) by {
                        assert(sw[j] == u[j + 11]);
                    }
                    assert(key_at(sw, i - 11));
                    assert(false);
                }
            }
        }
    } else {
        let r1 = redact(s.skip(1));
        assert(u == seq![s[0]] + r1);
        lemma_redact_clean(s.skip(1));
        assert forall|i: int| !key_at(u, i) by {
            if key_at(u, i) {
                if i == 0 {
                    // The original text would have had a key occurrence at its
                    // start, against the case assumption.
                    assert forall|j: int| 0 <= j && j + 1 < 8 implies #[trigger] r1[j]
                        == key_marker()[j + 1] by {
                        assert(r1[j] == u[j + 1]);
                        assert(u[j + 1] == key_marker()[(j + 1) - 0]);
                    }
                    assert forall|j: int| 0 <= j && 8 <= j + 1 && j + 1 < 40 implies is_alnum(
                        #[trigger] r1[j],
                    ) by {
                        assert(r1[j] == u[j + 1]);
                    }
                    assert(key_continues(r1, 1));
                    lemma_key_continues_lift(s.skip(1), 1);
                    assert forall|j: int| 0 <= j < 0 + 8 implies #[trigger] s[j]
                        == key_marker()[j - 0] by {
                        if j == 0 {
                            assert(s[0] == u[0]);
                            assert(u[0] == key_marker()[0]);
                        } else {
                            assert(s[j] == s.skip(1)[j - 1]);
                        }
                    }
                    assert forall|j: int| 0 + 8 <= j < 0 + 40 implies is_alnum(
                        #[trigger] s[j],
                    ) by {
                        assert(s[j] == s.skip(1)[j - 1]);
                    }
                    assert(key_at(s, 0));
                    assert(false);
                } else {
                    assert forall|j: int| i - 1 <= j < i - 1 + 8 implies #[trigger] r1[j]
                        == key_marker()[j - (i - 1)] by {
                        assert(r1[j] == u[j + 1]);
                    }
                    assert forall|j: int| i - 1 + 8 <= j < i - 1 + 40 implies is_alnum(
                        #[trigger] r1[j],
                    ) by {
                        assert(r1[j] == u[j + 1]);
                    }
                    assert(key_at(r1, i - 1));
                    assert(false);
                }
            }
        }
    }
}

/// After the remainder of a matched key is consumed, no API key occurrence is
/// left in the output either.
proof fn lemma_swallow_key_clean(s: Seq<char>)
    ensures
        forall|i: int| !key_at(#[trigger] swallow_key(s), i),
    decreases s.len(), 1int,
{
    if s.len() > 0 && is_alnum(s[0]) {
        lemma_swallow_key_clean(s.skip(1));
        assert(swallow_key(s) == swallow_key(s.skip(1)));
        assert forall|i: int| !key_at(#[trigger] swallow_key(s), i) by {
            assert(!key_at(swallow_key(s.skip(1)), i));
        }
    } else {
        lemma_redact_clean(s);
        assert(swallow_key(s) == redact(s));
        assert forall|i: int| !key_at(#[trigger] swallow_key(s), i) by {
            assert(!key_at(redact(s), i));
        }
    }
}

/// Whether the text carries the replacement `api_key=***` somewhere.
pub open spec fn contains_replacement(u: Seq<char>) -> bool {
    exists|k: int|
        0 <= k && k + 11 <= u.len() && #[trigger] u.subrange(k, k + 11) == key_replacement()
}

/// The replacement stands at a known position, so it stands somewhere.
proof fn lemma_replacement_at(u: Seq<char>, k: int)
    requires
        0 <= k,
        k + 11 <= u.len(),
        u.subrange(k, k + 11) == key_replacement(),
    ensures
        contains_replacement(u),
{
}

/// Where the original text had an API key occurrence, the redacted text
/// carries the replacement `api_key=***`.
pub proof fn lemma_redact_marks(s: Seq<char>, i: int)
    requires
        key_at(s, i),
    ensures
        contains_replacement(redact(s)),
    decreases s.len(),
{
    let u = redact(s);
    if key_at(s, 0) {
        assert(u == key_replacement() + swallow_key(s.skip(8)));
        assert(u.subrange(0, 11) =~= key_replacement());
        lemma_replacement_at(u, 0);
    } else {
        assert(i >= 1);
        let t1 = s.skip(1);
        assert forall|j: int| i - 1 <= j < i - 1 + 8 implies #[trigger] t1[j] == key_marker()[j
            - (i - 1)] by {
            assert(t1[j] == s[j + 1]);
        }
        assert forall|j: int| i - 1 + 8 <= j < i - 1 + 40 implies is_alnum(#[trigger] t1[j]) by {
            assert(t1[j] == s[j + 1]);
        }
        assert(key_at(t1, i - 1));
        lemma_redact_marks(t1, i - 1);
        let r1 = redact(t1);
        let k0 = choose|k: int|
            0 <= k && k + 11 <= r1.len() && #[trigger] r1.subrange(k, k + 11)
                == key_replacement();
        assert(u == seq![s[0]] + r1);
        assert(u.subrange(k0 + 1, k0 + 1 + 11) =~= r1.subrange(k0, k0 + 11));
        lemma_replacement_at(u, k0 + 1);
    }
}

/// Law: the display rendering of a request error introduces no API key
/// occurrence. If the stored text has none — as
/// [`AbstractApiError::from_transport`] guarantees via [`lemma_redact_clean`]
/// — then the rendered message, which wraps the text in `Request error:
/// \`...\``, has none either.
pub proof fn lemma_message_keeps_clean(m: String)
    requires
        forall|i: int| !key_at(m@, i),
    ensures
        forall|i: int| !key_at(AbstractApiError::RequestError(m).message_spec(), i),
{
    reveal_strlit("Request error: `");
    reveal_strlit("`");
    let pre = "Request error: `"@;
    let post = "`"@;
    let full = AbstractApiError::RequestError(m).message_spec();
    assert(pre.len() == 16);
    assert(post.len() == 1);
    assert(full == pre + m@ + post);
    assert forall|i: int| !key_at(full, i) by {
        if key_at(full, i) {
            if i < 16 {
                // The occurrence would start inside the wrapper prefix, whose
                // first marker character would have to be `a`; the prefix has
                // no such character.
                assert(full[i] == pre[i]);
                assert(full[i] == key_marker()[i - i]);
                assert(false);
            } else if i + 40 <= 16 + m@.len() {
                // The occurrence would lie inside the stored text.
                assert forall|j: int| i - 16 <= j < i - 16 + 8 implies #[trigger] m@[j]
                    == key_marker()[j - (i - 16)] by {
                    assert(m@[j] == full[j + 16]);
                }
                assert forall|j: int| i - 16 + 8 <= j < i - 16 + 40 implies is_alnum(
                    #[trigger] m@[j],
                ) by {
                    assert(m@[j] == full[j + 16]);
                }
                assert(key_at(m@, i - 16));
                assert(false);
            } else {
                // The occurrence would reach the closing backtick, which is
                // not a letter or digit.
                let b = 16 + m@.len() as int;
                assert(full[b] == post[0]);
                assert(i + 8 <= b < i + 40);
                assert(is_alnum(full[b]));
                assert(false);
            }
        }
    }
}

/// Law: the display rendering of a request error keeps the replacement. If
/// the stored text carries `api_key=***` — as
/// [`AbstractApiError::from_transport`] guarantees via [`lemma_redact_marks`]
/// where the original text had a key — then so does the rendered message.
pub proof fn lemma_message_keeps_replacement(m: String)
    requires
        contains_replacement(m@),
    ensures
        contains_replacement(AbstractApiError::RequestError(m).message_spec()),
{
    reveal_strlit("Request error: `");
    reveal_strlit("`");
    let pre = "Request error: `"@;
    let post = "`"@;
    let full = AbstractApiError::RequestError(m).message_spec();
    assert(pre.len() == 16);
    assert(full == pre + m@ + post);
    let k0 = choose|k: int|
        0 <= k && k + 11 <= m@.len() && #[trigger] m@.subrange(k, k + 11) == key_replacement();
    assert(full.subrange(k0 + 16, k0 + 16 + 11) =~= m@.subrange(k0, k0 + 11));
    lemma_replacement_at(full, k0 + 16);
}

/// Whether the character is an ASCII letter or digit.
fn is_alnum_char(c: char) -> (r: bool)
    ensures
        r == is_alnum(c),
{
    let u = c as u32;
    (48 <= u && u <= 57) || (65 <= u && u <= 90) || (97 <= u && u <= 122)
}

/// The characters of the `api_key=` marker, by position.
fn key_marker_char(j: usize) -> (c: char)
    requires
        j < 8,
    ensures
        c == key_marker()[j as int],
{
    match j {
        0 => 'a',
        1 => 'p',
        2 => 'i',
        3 => '_',
        4 => 'k',
        5 => 'e',
        6 => 'y',
        _ => '=',
    }
}

/// Looks for an API key occurrence at position `i`. On a match, returns the
/// position right after the key's maximal run of letters and digits, together
/// with the fact that redaction continues there.
fn scan_key(s: &str, i: usize, n: usize) -> (r: Option<usize>)
    requires
        n == s@.len(),
        i < n,
    ensures
        match r {
            Some(k) => key_at(s@, i as int) && i + 8 <= k <= n && swallow_key(
                s@.skip(i as int + 8),
            ) == redact(s@.skip(k as int)),
            None => !key_at(s@, i as int),
        },
{
    if n - i < 40 {
        return None;
    }
    let mut j: usize = 0;
    while j < 8
        invariant
            n == s@.len(),
            i + 40 <= n,
            j <= 8,
            forall|m: int| i <= m < i + j ==> #[trigger] s@[m] == key_marker()[m - i],
        decreases 8 - j,
    {
        if s.get_char(i + j) != key_marker_char(j) {
            return None;
        }
        j = j + 1;
    }
    let mut k: usize = i + 8;
    while k < n && is_alnum_char(s.get_char(k))
        invariant
            n == s@.len(),
            i + 40 <= n,
            i + 8 <= k <= n,
            forall|m: int| i <= m < i + 8 ==> #[trigger] s@[m] == key_marker()[m - i],
            forall|m: int| i + 8 <= m < k ==> is_alnum(#[trigger] s@[m]),
            swallow_key(s@.skip(i as int + 8)) == swallow_key(s@.skip(k as int)),
        decreases n - k,
    {
        proof {
            assert(s@.skip(k as int)[0] == s@[k as int]);
            assert(s@.skip(k as int).skip(1) =~= s@.skip(k as int + 1));
        }
        k = k + 1;
    }
    proof {
        if k == n {
            assert(s@.skip(k as int) =~= Seq::<char>::empty());
        }
        assert(swallow_key(s@.skip(k as int)) == redact(s@.skip(k as int)));
    }
    if k - (i + 8) >= 32 {
        Some(k)
    } else {
        proof {
            assert(!is_alnum(s@[k as int]) && k - i < 40);
        }
        None
    }
}

impl AbstractApiError {
    /// The characters of the error's display rendering.
    pub open spec fn message_spec(&self) -> Seq<char> {
        match self {
            AbstractApiError::ApiKeySetError => "This API key is already set"@,
            AbstractApiError::ApiKeyNotPresent(t) => "API key is not present: `"@ + t.subdomain_spec()
                + "`"@,
            AbstractApiError::RequestError(m) => "Request error: `"@ + m@ + "`"@,
            AbstractApiError::IoError(m) => "IO error: `"@ + m@ + "`"@,
        }
    }

    /// Renders the error for display.
    pub fn message(&self) -> (r: String)
        ensures
            r@ == self.message_spec(),
    {
        let r = match self {
            AbstractApiError::ApiKeySetError => String::from_str("This API key is already set"),
            AbstractApiError::ApiKeyNotPresent(t) => String::from_str("API key is not present: `").concat(
                t.subdomain(),
            ).concat("`"),
            AbstractApiError::RequestError(m) => String::from_str("Request error: `").concat(
                m.as_str(),
            ).concat("`"),
            AbstractApiError::IoError(m) => String::from_str("IO error: `").concat(m.as_str()).concat("`"),
        };
        proof {
            assert(r@ =~= self.message_spec());
        }
        r
    }

    /// Classifies a rendered transport failure: the text is sanitized and
    /// stored as a request error.
    pub fn from_transport_message(message: &str) -> (r: AbstractApiError)
        ensures
            r matches AbstractApiError::RequestError(m) && m@ == redact(message@),
    {
        AbstractApiError::RequestError(sanitize_message(message))
    }

    /// Classifies a failed HTTP call: its diagnostic rendering is sanitized
    /// and stored as a request error, so the stored text holds no API key.
    pub fn from_transport(error: ureq::Error) -> (r: AbstractApiError)
        ensures
            r matches AbstractApiError::RequestError(m) && m@ == redact(transport_error_text(error)),
    {
        let text = render_transport_error(&error);
        AbstractApiError::from_transport_message(text.as_str())
    }
}

/// Replaces every API key occurrence in the text by `api_key=***`.
///
/// This is the single sanitization step every error path goes through before
/// a request description is stored or rendered.
pub fn sanitize_message(s: &str) -> (r: String)
    ensures
        r@ == redact(s@),
{
    let n = s.unicode_len();
    let mut out = String::new();
    let mut i: usize = 0;
    proof {
        assert(s@.skip(0) =~= s@);
        assert(Seq::<char>::empty() + redact(s@) =~= redact(s@));
    }
    while i < n
        invariant
            n == s@.len(),
            i <= n,
            out@ + redact(s@.skip(i as int)) == redact(s@),
        decreases n - i,
    {
        let ghost out_before = out@;
        match scan_key(s, i, n) {
            Some(k) => {
                out.append("api_key=***");
                proof {
                    reveal_strlit("api_key=***");
                    assert("api_key=***"@ =~= key_replacement());
                    assert(s@.skip(i as int).skip(8) =~= s@.skip(i as int + 8));
                    assert forall|j: int| 0 <= j < 8 implies #[trigger] s@.skip(i as int)[j]
                        == key_marker()[j] by {
                        assert(s@.skip(i as int)[j] == s@[i + j]);
                    }
                    assert forall|j: int| 8 <= j < 40 implies is_alnum(
                        #[trigger] s@.skip(i as int)[j],
                    ) by {
                        assert(s@.skip(i as int)[j] == s@[i + j]);
                    }
                    assert(key_at(s@.skip(i as int), 0));
                    assert(redact(s@.skip(i as int)) == key_replacement() + swallow_key(
                        s@.skip(i as int + 8),
                    ));
                    assert(out_before + key_replacement() + redact(s@.skip(k as int)) =~=
                        out_before + (key_replacement() + redact(s@.skip(k as int))));
                }
                i = k;
            },
            None => {
                out.append(s.substring_char(i, i + 1));
                proof {
                    assert(!key_at(s@.skip(i as int), 0)) by {
                        if key_at(s@.skip(i as int), 0) {
                            assert forall|j: int| i <= j < i + 8 implies #[trigger] s@[j]
                                == key_marker()[j - i] by {
                                assert(s@[j] == s@.skip(i as int)[j - i]);
                            }
                            assert forall|j: int| i + 8 <= j < i + 40 implies is_alnum(
                                #[trigger] s@[j],
                            ) by {
                                assert(s@[j] == s@.skip(i as int)[j - i]);
                            }
                            assert(key_at(s@, i as int));
                        }
                    }
                    assert(s@.skip(i as int)[0] == s@[i as int]);
                    assert(s@.skip(i as int).skip(1) =~= s@.skip(i as int + 1));
                    assert(s@.subrange(i as int, i as int + 1) =~= seq![s@[i as int]]);
                    assert(redact(s@.skip(i as int)) == seq![s@[i as int]] + redact(
                        s@.skip(i as int + 1),
                    ));
                    assert(out_before + seq![s@[i as int]] + redact(s@.skip(i as int + 1)) =~=
                        out_before + (seq![s@[i as int]] + redact(s@.skip(i as int + 1))));
                }
                i = i + 1;
            },
        }
    }
    proof {
        assert(s@.skip(n as int) =~= Seq::<char>::empty());
        assert(out@ + redact(s@.skip(n as int)) =~= out@);
    }
    out
}

} // verus!

//! Maps user-supplied subdomain text to a DNS-safe ASCII label.
use vstd::prelude::*;
use vstd::string::*;
use vstd::utf8::is_ascii_chars;

verus! {

/// Longest non-plain label (in characters) handed to the punycode transform.
/// Up to this length the transform's internal counters cannot overflow; longer
/// labels are reported as unencodable.
pub const MAX_PUNYCODE_INPUT: usize = 1000;

/// Why a label could not be turned into a DNS-safe label.
#[derive(Debug, Clone, Copy, PartialEq, Eq, Structural)]
pub enum LabelError {
    /// The punycode transform cannot represent the label.
    Unencodable,
}

/// ASCII letters, digits and `-`: the characters a label keeps as they are.
pub open spec fn is_label_char(c: char) -> bool {
    ('a' <= c && c <= 'z') || ('A' <= c && c <= 'Z') || ('0' <= c && c <= '9') || c == '-'
}

/// A label made only of ASCII letters, digits and `-`.
pub open spec fn is_plain_label(s: Seq<char>) -> bool {
    forall|i: int| 0 <= i < s.len() ==> is_label_char(#[trigger] s[i])
}

/// The prefix that marks a punycode-encoded label.
pub open spec fn ace_prefix() -> Seq<char> {
    seq!['x', 'n', '-', '-']
}

/// What `punycode::encode` returns for a label: its RFC 3492 encoding, or
/// `None` where the transform fails.
pub uninterp spec fn punycode_encoding(s: Seq<char>) -> Option<Seq<char>>;

/// The normalized form of a label, or `None` where it cannot be encoded.
pub open spec fn normalized(label: Seq<char>) -> Option<Seq<char>> {
    if is_plain_label(label) {
        Some(label)
    } else if label.len() > MAX_PUNYCODE_INPUT {
        None
    } else {
        match punycode_encoding(label) {
            Some(e) => Some(ace_prefix() + e),
            None => None,
        }
    }
}

/// Relies on `punycode::encode`: the RFC 3492 encoding of the whole input
/// (deterministic; ASCII only, as its documentation states), or an error where
/// its arithmetic would overflow. Inputs longer than `MAX_PUNYCODE_INPUT` are
/// kept out, since its unchecked counters could overflow on them.
#[verifier::external_body]
fn encode_punycode(s: &str) -> (r: Option<String>)
    requires
        s@.len() <= MAX_PUNYCODE_INPUT,
    ensures
        r is Some <==> punycode_encoding(s@) is Some,
        r matches Some(e) ==> e@ == punycode_encoding(s@)->0 && is_ascii_chars(e@),
{
    punycode::encode(s).ok()
}

/// Whether `c` may stay as it is in a label.
fn label_char(c: char) -> (r: bool)
    ensures
        r == is_label_char(c),
{
    ('a' <= c && c <= 'z') || ('A' <= c && c <= 'Z') || ('0' <= c && c <= '9') || c == '-'
}

/// Whether the label is made only of ASCII letters, digits and `-`.
pub fn is_plain(label: &str) -> (r: bool)
    ensures
        r == is_plain_label(label@),
{
    let n = label.unicode_len();
    let mut i: usize = 0;
    while i < n
        invariant
            n == label@.len(),
            i <= n,
            forall|j: int| 0 <= j < i ==> is_label_char(#[trigger] label@[j]),
        decreases n - i,
    {
        if !label_char(label.get_char(i)) {
            return false;
        }
        i = i + 1;
    }
    true
}

/// Marks an already punycode-encoded label with the `xn--` prefix.
pub fn ace_label(encoded: &str) -> (r: String)
    ensures
        r@ == ace_prefix() + encoded@,
{
    let prefix = "xn--";
    proof {
        reveal_strlit("xn--");
    }
    String::from_str(prefix).concat(encoded)
}

/// Turns a user-supplied label into a DNS-safe ASCII label: a label of ASCII
/// letters, digits and `-` is returned unchanged; any other label is punycode
/// encoded as a whole and prefixed with `xn--`.
pub fn normalize(label: &str) -> (r: Result<String, LabelError>)
    ensures
        r is Ok <==> normalized(label@) is Some,
        r matches Ok(s) ==> normalized(label@) == Some(s@) && is_ascii_chars(s@),
{
    if is_plain(label) {
        assert(is_ascii_chars(label@)) by {
            assert forall|i: int| 0 <= i < label@.len() implies '\0' <= #[trigger] label@[i] <= '\u{7f}' by {
                assert(is_label_char(label@[i]));
            }
        }
        return Ok(String::from_str(label));
    }
    if label.unicode_len() > MAX_PUNYCODE_INPUT {
        return Err(LabelError::Unencodable);
    }
    match encode_punycode(label) {
        Some(encoded) => {
            let r = ace_label(encoded.as_str());
            assert(is_ascii_chars(r@)) by {
                assert forall|i: int| 0 <= i < r@.len() implies '\0' <= #[trigger] r@[i] <= '\u{7f}' by {
                    if i >= 4 {
                        assert(r@[i] == encoded@[i - 4]);
                    }
                }
            }
            Ok(r)
        },
        None => Err(LabelError::Unencodable),
    }
}

/// Normalization depends on the label's characters alone: equal labels give
/// equal results (or both fail).
pub proof fn lemma_normalize_deterministic(a: Seq<char>, b: Seq<char>)
    requires
        a == b,
    ensures
        normalized(a) == normalized(b),
{
}

/// A label of ASCII letters, digits and `-` is its own normalized form.
pub proof fn lemma_plain_label_unchanged(label: Seq<char>)
    requires
        is_plain_label(label),
    ensures
        normalized(label) == Some(label),
{
}

/// Any other label that can be normalized comes out as `xn--` followed by the
/// punycode encoding of the whole label.
pub proof fn lemma_encoded_label_prefixed(label: Seq<char>)
    requires
        !is_plain_label(label),
        normalized(label) is Some,
    ensures
        normalized(label)->0.len() >= 4,
        normalized(label)->0.subrange(0, 4) == ace_prefix(),
        normalized(label)->0.subrange(4, normalized(label)->0.len() as int)
            == punycode_encoding(label)->0,
{
    let n = normalized(label)->0;
    assert(n.subrange(0, 4) =~= ace_prefix());
    assert(n.subrange(4, n.len() as int) =~= punycode_encoding(label)->0);
}

} // verus!

//! Base64 media codecs: building `data:` URLs from raw file bytes, and taking
//! a pasted `data:` URL apart into its extension and decoded bytes.
//!
//! Reading and writing the files themselves is the runtime's work; this module
//! sees only bytes. The separators examined here (`,`, `;`, `/`) are ASCII, so
//! splitting the URL at byte level agrees with splitting it at character
//! level.

use vstd::prelude::*;

verus! {

/// What `base64::Engine::encode` with the `STANDARD` engine returns for the
/// given octets: padded standard-alphabet base64, a function of the bytes
/// alone.
pub uninterp spec fn b64_standard_of(bytes: Seq<u8>) -> Seq<char>;

/// Relies on base64's `Engine::encode` with the `STANDARD` engine: the result
/// is the padded encoding of the input, four characters for every started
/// triple of bytes. The length bound keeps the engine's buffer-size
/// calculation from overflowing.
#[verifier::external_body]
fn b64_encode(bytes: &Vec<u8>) -> (r: String)
    requires
        bytes@.len() <= usize::MAX / 4,
    ensures
        r@ == b64_standard_of(bytes@),
        r@.len() == 4 * ((bytes@.len() + 2) / 3),
{
    base64::Engine::encode(&base64::engine::general_purpose::STANDARD, bytes)
}

/// What `base64::Engine::decode` with the `STANDARD` engine returns for the
/// given input bytes: the decoded octets, or nothing when the input is not
/// valid padded base64. A function of the input alone.
pub uninterp spec fn b64_standard_decode_of(input: Seq<u8>) -> Option<Seq<u8>>;

/// Relies on base64's `Engine::decode` with the `STANDARD` engine: invalid
/// input is reported as an error, whose text is the engine's own rendering.
#[verifier::external_body]
fn b64_decode(input: &Vec<u8>) -> (r: Result<Vec<u8>, String>)
    ensures
        match b64_standard_decode_of(input@) {
            Some(d) => r matches Ok(v) && v@ == d,
            None => r is Err,
        },
{
    match base64::Engine::decode(&base64::engine::general_purpose::STANDARD, input) {
        Ok(v) => Ok(v),
        Err(e) => Err(e.to_string()),
    }
}

/// A PDF's bytes as a `data:` URL.
pub fn pdf_data_url(bytes: &Vec<u8>) -> (r: String)
    requires
        bytes@.len() <= usize::MAX / 4,
    ensures
        r@ == "data:application/pdf;base64,"@ + b64_standard_of(bytes@),
{
    String::from_str("data:application/pdf;base64,").concat(b64_encode(bytes).as_str())
}

/// An image's bytes as a `data:` URL.
pub fn image_data_url(bytes: &Vec<u8>) -> (r: String)
    requires
        bytes@.len() <= usize::MAX / 4,
    ensures
        r@ == "data:image/png;base64,"@ + b64_standard_of(bytes@),
{
    String::from_str("data:image/png;base64,").concat(b64_encode(bytes).as_str())
}

/// How often `b` occurs in `s`.
pub open spec fn count_byte(s: Seq<u8>, b: u8) -> nat
    decreases s.len(),
{
    if s.len() == 0 {
        0
    } else {
        count_byte(s.drop_first(), b) + (if s[0] == b {
            1nat
        } else {
            0nat
        })
    }
}

/// The prefix of `s` before the first occurrence of `b`; all of `s` when `b`
/// does not occur.
pub open spec fn before_first(s: Seq<u8>, b: u8) -> Seq<u8>
    decreases s.len(),
{
    if s.len() == 0 {
        s
    } else if s[0] == b {
        Seq::empty()
    } else {
        seq![s[0]] + before_first(s.drop_first(), b)
    }
}

/// The suffix of `s` after the last occurrence of `b`; all of `s` when `b`
/// does not occur.
pub open spec fn after_last(s: Seq<u8>, b: u8) -> Seq<u8>
    decreases s.len(),
{
    if s.len() == 0 {
        s
    } else if s.last() == b {
        Seq::empty()
    } else {
        after_last(s.drop_last(), b).push(s.last())
    }
}

/// The extension encoded in the media-type part of a `data:` URL: what stands
/// after the last `/` of the part before the first `;` (so `data:image/png`
/// yields `png`).
pub open spec fn extension_of(head: Seq<u8>) -> Seq<u8> {
    after_last(before_first(head, 59u8), 47u8)  // 59 is `;`, 47 is `/`
}

proof fn lemma_absent(s: Seq<u8>, b: u8)
    requires
        forall|j: int| 0 <= j < s.len() ==> s[j] != b,
    ensures
        count_byte(s, b) == 0,
        before_first(s, b) == s,
    decreases s.len(),
{
    if s.len() > 0 {
        lemma_absent(s.drop_first(), b);
        assert(seq![s[0]] + s.drop_first() =~= s);
    }
}

proof fn lemma_first_occurrence(s: Seq<u8>, b: u8, c: int)
    requires
        0 <= c < s.len(),
        s[c] == b,
        forall|j: int| 0 <= j < c ==> s[j] != b,
    ensures
        before_first(s, b) == s.subrange(0, c),
    decreases c,
{
    if c == 0 {
        assert(before_first(s, b) =~= s.subrange(0, 0));
    } else {
        lemma_first_occurrence(s.drop_first(), b, c - 1);
        assert(seq![s[0]] + s.drop_first().subrange(0, c - 1) =~= s.subrange(0, c));
    }
}

proof fn lemma_present(s: Seq<u8>, b: u8, c: int)
    requires
        0 <= c < s.len(),
        s[c] == b,
    ensures
        count_byte(s, b) >= 1,
    decreases s.len(),
{
    if c > 0 {
        lemma_present(s.drop_first(), b, c - 1);
    }
}

proof fn lemma_single_occurrence(s: Seq<u8>, b: u8, c: int)
    requires
        0 <= c < s.len(),
        s[c] == b,
        forall|j: int| 0 <= j < s.len() && j != c ==> s[j] != b,
    ensures
        count_byte(s, b) == 1,
    decreases s.len(),
{
    if c == 0 {
        assert(forall|j: int|
            0 <= j < s.drop_first().len() ==> s.drop_first()[j] == s[j + 1] && s[j + 1] != b);
        lemma_absent(s.drop_first(), b);
    } else {
        lemma_single_occurrence(s.drop_first(), b, c - 1);
    }
}

proof fn lemma_two_occurrences(s: Seq<u8>, b: u8, c1: int, c2: int)
    requires
        0 <= c1 < c2 < s.len(),
        s[c1] == b,
        s[c2] == b,
    ensures
        count_byte(s, b) >= 2,
    decreases s.len(),
{
    if c1 == 0 {
        lemma_present(s.drop_first(), b, c2 - 1);
    } else {
        lemma_two_occurrences(s.drop_first(), b, c1 - 1, c2 - 1);
    }
}

proof fn lemma_after_last_absent(s: Seq<u8>, b: u8)
    requires
        forall|j: int| 0 <= j < s.len() ==> s[j] != b,
    ensures
        after_last(s, b) == s,
    decreases s.len(),
{
    if s.len() > 0 {
        lemma_after_last_absent(s.drop_last(), b);
        assert(s.drop_last().push(s.last()) =~= s);
    }
}

proof fn lemma_after_last_occurrence(s: Seq<u8>, b: u8, l: int)
    requires
        0 <= l < s.len(),
        s[l] == b,
        forall|j: int| l < j < s.len() ==> s[j] != b,
    ensures
        after_last(s, b) == s.subrange(l + 1, s.len() as int),
    decreases s.len(),
{
    if l == s.len() - 1 {
        assert(after_last(s, b) =~= s.subrange(l + 1, s.len() as int));
    } else {
        lemma_after_last_occurrence(s.drop_last(), b, l);
        assert(s.drop_last().subrange(l + 1, s.len() - 1).push(s.last()) =~= s.subrange(
            l + 1,
            s.len() as int,
        ));
    }
}

/// A copy of `v[from..to]`.
fn copy_range(v: &Vec<u8>, from: usize, to: usize) -> (r: Vec<u8>)
    requires
        from <= to <= v@.len(),
    ensures
        r@ == v@.subrange(from as int, to as int),
{
    let mut r: Vec<u8> = Vec::new();
    let mut i: usize = from;
    while i < to
        invariant
            from <= i <= to <= v@.len(),
            r@ == v@.subrange(from as int, i as int),
        decreases to - i,
    {
        r.push(v[i]);
        proof {
            assert(v@.subrange(from as int, i as int).push(v@[i as int]) =~= v@.subrange(
                from as int,
                i + 1,
            ));
        }
        i += 1;
    }
    r
}

/// The extension encoded in the media-type part of a `data:` URL, as
/// [`extension_of`] describes it.
fn extension_bytes(head: &Vec<u8>) -> (r: Vec<u8>)
    ensures
        r@ == extension_of(head@),
{
    let n = head.len();
    // The part before the first `;`.
    let mut k: usize = 0;
    while k < n && head[k] != 59u8
        invariant
            0 <= k <= n,
            n == head@.len(),
            forall|j: int| 0 <= j < k ==> head@[j] != 59u8,
        decreases n - k,
    {
        k += 1;
    }
    proof {
        if k < n {
            lemma_first_occurrence(head@, 59u8, k as int);
        } else {
            lemma_absent(head@, 59u8);
            assert(head@ =~= head@.subrange(0, n as int));
        }
        assert(before_first(head@, 59u8) == head@.subrange(0, k as int));
    }
    // The last `/` before position k, if any.
    let mut slash: Option<usize> = None;
    let mut j: usize = 0;
    while j < k
        invariant
            0 <= j <= k <= n,
            n == head@.len(),
            match slash {
                None => forall|t: int| 0 <= t < j ==> head@[t] != 47u8,
                Some(l) => l < j && head@[l as int] == 47u8 && (forall|t: int|
                    l < t < j ==> head@[t] != 47u8),
            },
        decreases k - j,
    {
        if head[j] == 47u8 {
            slash = Some(j);
        }
        j += 1;
    }
    let ghost mime = head@.subrange(0, k as int);
    match slash {
        None => {
            proof {
                lemma_after_last_absent(mime, 47u8);
            }
            copy_range(head, 0, k)
        },
        Some(l) => {
            proof {
                lemma_after_last_occurrence(mime, 47u8, l as int);
                assert(mime.subrange(l + 1, mime.len() as int) =~= head@.subrange(
                    l + 1,
                    k as int,
                ));
            }
            copy_range(head, l + 1, k)
        },
    }
}

/// Take a pasted `data:` URL apart: the URL must hold exactly one comma; what
/// stands before it names the media type, whose extension is extracted, and
/// what stands after it is decoded as base64. On success the extension and
/// the decoded bytes are returned; a URL without exactly one comma is
/// rejected as malformed, and a payload that is not valid base64 is rejected
/// with the decoder's error.
pub fn parse_data_url(input: &Vec<u8>) -> (r: Result<(Vec<u8>, Vec<u8>), String>)
    ensures
        ({
            let s = input@;
            if count_byte(s, 44u8) != 1 {  // 44 is `,`
                r matches Err(m) && m@ == "Invalid base64 string format"@
            } else {
                let head = before_first(s, 44u8);
                let payload = s.subrange(head.len() as int + 1, s.len() as int);
                match b64_standard_decode_of(payload) {
                    Some(d) => r matches Ok(p) && p.0@ == extension_of(head) && p.1@ == d,
                    None => r is Err,
                }
            }
        }),
{
    let n = input.len();
    let mut i: usize = 0;
    let mut comma: Option<usize> = None;
    while i < n
        invariant
            0 <= i <= n,
            n == input@.len(),
            match comma {
                None => forall|j: int| 0 <= j < i ==> input@[j] != 44u8,
                Some(c) => c < i && input@[c as int] == 44u8 && (forall|j: int|
                    0 <= j < i && j != c ==> input@[j] != 44u8),
            },
        decreases n - i,
    {
        if input[i] == 44u8 {
            match comma {
                None => {
                    comma = Some(i);
                },
                Some(c) => {
                    proof {
                        lemma_two_occurrences(input@, 44u8, c as int, i as int);
                    }
                    return Err(String::from_str("Invalid base64 string format"));
                },
            }
        }
        i += 1;
    }
    let c = match comma {
        None => {
            proof {
                lemma_absent(input@, 44u8);
            }
            return Err(String::from_str("Invalid base64 string format"));
        },
        Some(c) => c,
    };
    proof {
        lemma_single_occurrence(input@, 44u8, c as int);
        lemma_first_occurrence(input@, 44u8, c as int);
    }
    let head = copy_range(input, 0, c);
    let payload = copy_range(input, c + 1, n);
    let ext = extension_bytes(&head);
    match b64_decode(&payload) {
        Ok(data) => Ok((ext, data)),
        Err(e) => Err(e),
    }
}

} // verus!

//! What the `url`, `mime` and `hyper` crates compute for a request: the
//! escaping of a path value, the URL with its query, the text of a media type
//! and the class of a status code. The contracts of the four functions that
//! make these calls are not proved: they say what the sources of the crates
//! show, and the library is proved from them. The `url` crate counts the bytes
//! of a URL in 32 bits and gives up beyond; `fits` keeps address and query far
//! below that.

use vstd::prelude::*;
use vstd::utf8::encode_utf8;
use crate::params::pairs_text;

verus! {

/// The error of `url::Url::parse`.
#[verifier::external_type_specification]
#[verifier::external_body]
pub struct ExParseError(url::ParseError);

/// Whether the `url` crate's default encode set holds the byte: controls and
/// everything beyond `~`, the space, and `"` `#` `<` `>` `` ` `` `?` `{` `}`.
pub open spec fn needs_escape(b: u8) -> bool {
    b < 0x20 || b > 0x7e || b == 0x20 || b == 0x22 || b == 0x23 || b == 0x3c || b == 0x3e
        || b == 0x60 || b == 0x3f || b == 0x7b || b == 0x7d
}

/// The upper-case hexadecimal digit of a value below sixteen.
pub open spec fn hex_digit(n: int) -> char {
    if n < 10 {
        (0x30 + n) as char
    } else {
        (0x37 + n) as char
    }
}

/// One byte as it stands in an escaped text: itself, or `%` and two digits.
pub open spec fn escaped_byte(b: u8) -> Seq<char> {
    if needs_escape(b) {
        seq!['%', hex_digit(b as int / 16), hex_digit(b as int % 16)]
    } else {
        seq![b as char]
    }
}

/// The bytes one after the other, each escaped where the encode set holds it.
pub open spec fn percent_encoded(bytes: Seq<u8>) -> Seq<char>
    decreases bytes.len(),
{
    if bytes.len() == 0 {
        Seq::empty()
    } else {
        escaped_byte(bytes[0]) + percent_encoded(bytes.drop_first())
    }
}

/// Whether a character may stand unescaped: it is printable ASCII and none
/// of the characters that the encode set holds.
pub open spec fn stands_plain(c: char) -> bool {
    0x20 < c as int <= 0x7e && c != '"' && c != '#' && c != '<' && c != '>' && c != '`' && c != '?'
        && c != '{' && c != '}'
}

/// An escaped text holds plain characters only. In particular it holds no
/// brace, so that an escaped value never brings a marker into a path.
pub proof fn lemma_escaped_text_is_plain(bytes: Seq<u8>)
    ensures
        forall|i: int|
            0 <= i < percent_encoded(bytes).len() ==> stands_plain(
                #[trigger] percent_encoded(bytes)[i],
            ),
    decreases bytes.len(),
{
    if bytes.len() > 0 {
        let first = escaped_byte(bytes[0]);
        let rest = percent_encoded(bytes.drop_first());
        lemma_escaped_text_is_plain(bytes.drop_first());
        assert forall|i: int| 0 <= i < percent_encoded(bytes).len() implies stands_plain(
            #[trigger] percent_encoded(bytes)[i],
        ) by {
            if i < first.len() {
                assert(percent_encoded(bytes)[i] == first[i]);
            } else {
                assert(percent_encoded(bytes)[i] == rest[i - first.len()]);
            }
        }
    }
}

/// A type and a subtype of lower-case letters with one slash between them.
pub open spec fn plain_media_type(s: Seq<char>) -> bool {
    exists|k: int|
        0 < k < s.len() - 1 && #[trigger] s[k] == '/' && forall|i: int|
            0 <= i < s.len() && i != k ==> 'a' <= #[trigger] s[i] <= 'z'
}

/// How many bytes an address and its query may have together. The `url`
/// crate makes of one byte of an address fewer than a thousand bytes of a
/// URL, and of one byte of a query three at most, so that no URL made within
/// this limit comes near the 4 GiB that the crate can count.
pub const URL_LIMIT: usize = 1048576;

/// What a parameter adds to a query: the bytes of its name and of its value,
/// and two separators.
pub open spec fn pair_weight(pair: (Seq<char>, Seq<char>)) -> nat {
    encode_utf8(pair.0).len() + encode_utf8(pair.1).len() + 2
}

/// What the parameters add to a query.
pub open spec fn query_weight(pairs: Seq<(Seq<char>, Seq<char>)>) -> nat
    decreases pairs.len(),
{
    if pairs.len() == 0 {
        0
    } else {
        query_weight(pairs.drop_last()) + pair_weight(pairs.last())
    }
}

/// Whether an address and a query are short enough to be made a URL: the
/// bytes of the address and the weight of the query stay within the limit.
pub open spec fn fits_a_url(input: Seq<char>, pairs: Seq<(Seq<char>, Seq<char>)>) -> bool {
    encode_utf8(input).len() + query_weight(pairs) <= URL_LIMIT
}

/// The first parameters of a query weigh no more than all of them.
pub proof fn lemma_weight_grows(pairs: Seq<(Seq<char>, Seq<char>)>, i: int)
    requires
        0 <= i <= pairs.len(),
    ensures
        query_weight(pairs.take(i)) <= query_weight(pairs),
    decreases pairs.len(),
{
    if i < pairs.len() {
        lemma_weight_grows(pairs.drop_last(), i);
        assert(pairs.drop_last().take(i) =~= pairs.take(i));
    } else {
        assert(pairs.take(i) =~= pairs);
    }
}

/// The serialization of the URL that `url::Url::parse_with_params` makes of a
/// text and a list of query parameters; `None` where it does not parse.
pub uninterp spec fn url_with_params(
    input: Seq<char>,
    pairs: Seq<(Seq<char>, Seq<char>)>,
) -> Option<Seq<char>>;

/// `url::percent_encoding::percent_encode` with `DEFAULT_ENCODE_SET` on the
/// UTF-8 bytes of `text`, collected into a string: every byte of the set
/// becomes `%` and its two upper-case hexadecimal digits, every other byte
/// stays as the ASCII character it is.
#[verifier::external_body]
pub(crate) fn escape_path_value(text: &str) -> (r: String)
    ensures
        r@ == percent_encoded(encode_utf8(text@)),
{
    url::percent_encoding::percent_encode(
        text.as_bytes(),
        url::percent_encoding::DEFAULT_ENCODE_SET,
    ).to_string()
}

/// `url::Url::parse_with_params`, followed by `Url::into_string`: parses
/// `input` as an absolute URL, appends `pairs` to its query and hands out the
/// serialization. The result depends on the two arguments alone. The call is
/// made only within the limit of length: beyond 4 GiB of serialization the
/// crate stops with a panic where it adds the query.
#[verifier::external_body]
pub(crate) fn parse_with_params(input: &str, pairs: &Vec<(String, String)>) -> (r: Result<
    String,
    url::ParseError,
>)
    requires
        fits_a_url(input@, pairs_text(pairs@)),
    ensures
        match r {
            Ok(s) => url_with_params(input@, pairs_text(pairs@)) == Some(s@),
            Err(_) => url_with_params(input@, pairs_text(pairs@)) is None,
        },
{
    url::Url::parse_with_params(input, pairs.iter()).map(|u| u.into_string())
}

/// Whether an address and a query are short enough to be made a URL.
pub fn fits(address: &str, query: &Vec<(String, String)>) -> (r: bool)
    ensures
        r == fits_a_url(address@, pairs_text(query@)),
{
    let ghost pairs = pairs_text(query@);
    let mut total: usize = address.as_bytes().len();
    if total > URL_LIMIT {
        return false;
    }
    let mut i: usize = 0;
    while i < query.len()
        invariant
            i <= query.len(),
            pairs == pairs_text(query@),
            total <= URL_LIMIT,
            total == encode_utf8(address@).len() + query_weight(pairs.take(i as int)),
        decreases query.len() - i,
    {
        let name = query[i].0.as_str().as_bytes().len();
        let value = query[i].1.as_str().as_bytes().len();
        proof {
            assert(pairs.take(i + 1).drop_last() =~= pairs.take(i as int));
            assert(pairs.take(i + 1).last() == pairs[i as int]);
            lemma_weight_grows(pairs, i + 1);
        }
        if name > URL_LIMIT || value > URL_LIMIT || total + name + value + 2 > URL_LIMIT {
            return false;
        }
        total = total + name + value + 2;
        i += 1;
    }
    assert(pairs.take(i as int) =~= pairs);
    true
}

/// `str::parse::<mime::Mime>` followed by the `Display` of the media type. For
/// a type and subtype of lower-case letters the parse succeeds and the text
/// that comes back is the text that went in.
#[verifier::external_body]
pub(crate) fn media_type_text(s: &str) -> (r: String)
    requires
        plain_media_type(s@),
    ensures
        r@ == s@,
{
    match s.parse::<mime::Mime>() {
        Ok(m) => m.to_string(),
        Err(_) => String::new(),
    }
}

/// `hyper::StatusCode::from_u16` followed by `StatusCode::is_success`: a code
/// that `from_u16` accepts is a success where it lies in 200 to 299.
#[verifier::external_body]
pub(crate) fn status_is_success(code: u16) -> (r: bool)
    requires
        100 <= code < 1000,
    ensures
        r == (200 <= code < 300),
{
    match hyper::StatusCode::from_u16(code) {
        Ok(status) => status.is_success(),
        Err(_) => false,
    }
}

} // verus!

//! `data:` URIs: the header and the data, and the bytes the data stands for,
//! base64 or percent-encoded.
use vstd::prelude::*;
use vstd::string::StringExecFns;
use vstd::string::StringSliceAdditionalSpecFns;
use vstd::utf8::{decode_utf8, encode_utf8_valid_utf8, is_char_boundary, pop_first_scalar, valid_utf8};

verus! {

#[verifier::external_type_specification]
#[verifier::external_body]
pub struct ExDecodeError(base64::DecodeError);

#[verifier::external_type_specification]
#[verifier::external_body]
pub struct ExUtf8Error(core::str::Utf8Error);

#[verifier::external_type_specification]
#[verifier::external_body]
pub struct ExParseIntError(core::num::ParseIntError);

/// Errors of reading a data URI.
#[derive(Debug)]
pub enum Error {
    /// Unable to get header
    GetHeader,
    /// Uri parameters unsupported
    UriParameter,
    /// Base64 decode error
    Base64Decode(base64::DecodeError),
    /// Url decode error: length too short in % encoding
    PercentEncoding,
    /// Utf8 error
    UTF8(core::str::Utf8Error),
    /// Integer parsing error
    IntParse(core::num::ParseIntError),
}

/// The text of an error up to where the text of an outside error it
/// carries begins; the whole text where it carries none.
pub open spec fn error_head(e: Error) -> Seq<char> {
    match e {
        Error::GetHeader => "Unable to get header"@,
        Error::UriParameter => "Uri parameters unsupported"@,
        Error::Base64Decode(_) => "Base64 decode error: "@,
        Error::PercentEncoding => "Url decode error: length too short in % encoding"@,
        Error::UTF8(_) => "Utf8 error: "@,
        Error::IntParse(_) => "Integer parsing error: "@,
    }
}

/// The error carries no outside error, so `error_head` is its whole text.
pub open spec fn error_whole(e: Error) -> bool {
    e is GetHeader || e is UriParameter || e is PercentEncoding
}

/// Calls `to_string` (its `Display`) on a `base64::DecodeError`; the text is
/// the crate's own and is not stated.
#[verifier::external_body]
fn decode_error_text(e: &base64::DecodeError) -> String {
    e.to_string()
}

/// Calls `to_string` (its `Display`) on a `core::str::Utf8Error`; the text
/// is std's own and is not stated.
#[verifier::external_body]
fn utf8_error_text(e: &core::str::Utf8Error) -> String {
    e.to_string()
}

/// Calls `to_string` (its `Display`) on a `core::num::ParseIntError`; the
/// text is std's own and is not stated.
#[verifier::external_body]
fn parse_int_error_text(e: &core::num::ParseIntError) -> String {
    e.to_string()
}

impl Error {
    /// The text of the error: `error_head`, then the text of the outside
    /// error it carries, if any.
    pub fn message(&self) -> (r: String)
        ensures
            r@.len() >= error_head(*self).len(),
            r@.subrange(0, error_head(*self).len() as int) == error_head(*self),
            error_whole(*self) ==> r@ == error_head(*self),
    {
        let mut s = String::new();
        match self {
            Error::GetHeader => s.append("Unable to get header"),
            Error::UriParameter => s.append("Uri parameters unsupported"),
            Error::Base64Decode(e) => {
                s.append("Base64 decode error: ");
                let t = decode_error_text(e);
                s.append(t.as_str());
            },
            Error::PercentEncoding => s.append("Url decode error: length too short in % encoding"),
            Error::UTF8(e) => {
                s.append("Utf8 error: ");
                let t = utf8_error_text(e);
                s.append(t.as_str());
            },
            Error::IntParse(e) => {
                s.append("Integer parsing error: ");
                let t = parse_int_error_text(e);
                s.append(t.as_str());
            },
        }
        proof {
            assert(s@.subrange(0, error_head(*self).len() as int) =~= error_head(*self));
        }
        s
    }
}

/// A data URI: the parameters of its header, and its data.
#[derive(Debug)]
pub struct DataURI {
    header: Vec<Vec<u8>>,
    data: Vec<u8>,
    is_base_64: bool,
}

/// A data URI as a value.
pub struct DataURIView {
    pub header: Seq<Seq<u8>>,
    pub data: Seq<u8>,
    pub is_base_64: bool,
}

impl View for DataURI {
    type V = DataURIView;

    closed spec fn view(&self) -> DataURIView {
        DataURIView {
            header: self.header@.map_values(|p: Vec<u8>| p@),
            data: self.data@,
            is_base_64: self.is_base_64,
        }
    }
}

/// The bytes of `data:`.
pub open spec fn data_prefix() -> Seq<u8> {
    seq![100u8, 97u8, 116u8, 97u8, 58u8]
}

/// The first position of `b` in `s` at or after `i`.
pub open spec fn first_from(s: Seq<u8>, b: u8, i: int) -> Option<int>
    decreases s.len() - i,
{
    if i < 0 || i >= s.len() {
        None
    } else if s[i] == b {
        Some(i)
    } else {
        first_from(s, b, i + 1)
    }
}

/// The first position of `b` in `s`.
pub open spec fn first_index(s: Seq<u8>, b: u8) -> Option<int> {
    first_from(s, b, 0)
}

/// The pieces of `s[start..]` cut at every `sep`, scanning from `i` on
/// (with no `sep` between `start` and `i`).
pub open spec fn split_from(s: Seq<u8>, sep: u8, start: int, i: int) -> Seq<Seq<u8>>
    decreases s.len() - i,
{
    if i < 0 || i >= s.len() {
        seq![s.subrange(start, s.len() as int)]
    } else if s[i] == sep {
        seq![s.subrange(start, i)] + split_from(s, sep, i + 1, i + 1)
    } else {
        split_from(s, sep, start, i + 1)
    }
}

/// `s` cut at every `sep`: the pieces between separators, in order, as
/// many as there are separators and one more.
pub open spec fn split_bytes(s: Seq<u8>, sep: u8) -> Seq<Seq<u8>> {
    split_from(s, sep, 0, 0)
}

/// The header of a URI: the bytes before the first comma.
pub open spec fn header_bytes(uri: Seq<u8>) -> Seq<u8> {
    match first_index(uri, 44u8) {
        Some(i) => uri.subrange(0, i),
        None => uri,
    }
}

/// A URI whose header can be read: its header is at least as long as
/// `data:` and a character ends there.
pub open spec fn header_readable(uri: &str) -> bool {
    let h = header_bytes(uri.spec_bytes());
    h.len() >= 5 && is_char_boundary(uri.spec_bytes(), 5)
}

/// In valid UTF-8 whose first `n` bytes are ASCII, a character ends after
/// those `n` bytes.
proof fn lemma_ascii_boundary(bytes: Seq<u8>, n: int)
    requires
        valid_utf8(bytes),
        0 <= n <= bytes.len(),
        forall|i: int| 0 <= i < n ==> #[trigger] bytes[i] < 128,
    ensures
        is_char_boundary(bytes, n),
    decreases n,
{
    if n > 0 {
        let rest = pop_first_scalar(bytes);
        assert(rest =~= bytes.subrange(1, bytes.len() as int));
        assert forall|i: int| 0 <= i < n - 1 implies #[trigger] rest[i] < 128 by {
            assert(rest[i] == bytes[i + 1]);
        }
        lemma_ascii_boundary(rest, n - 1);
    }
}

/// A string that starts with `data:` has a readable header.
pub proof fn lemma_data_prefix_header(uri: &str)
    requires
        uri.spec_bytes().len() >= 5,
        uri.spec_bytes().subrange(0, 5) == data_prefix(),
    ensures
        header_readable(uri),
{
    let b = uri.spec_bytes();
    broadcast use encode_utf8_valid_utf8;
    assert forall|i: int| 0 <= i < 5 implies #[trigger] b[i] < 128 by {
        assert(b[i] == b.subrange(0, 5)[i]);
    }
    lemma_ascii_boundary(b, 5);
    assert forall|i: int| 0 <= i < 5 implies #[trigger] b[i] != 44u8 by {
        assert(b[i] == b.subrange(0, 5)[i]);
    }
    lemma_first_from_in_range(b, 44u8, 0);
}

/// The bytes of `base64`.
pub open spec fn base64_word() -> Seq<u8> {
    seq![98u8, 97u8, 115u8, 101u8, 54u8, 52u8]
}

/// The data URI that `uri` holds: the header after `data:`, cut at each
/// `;`, and the data after the first comma; refused where there is no
/// comma or a parameter has a value (an `=`).
pub open spec fn spec_parse(uri: Seq<u8>) -> Result<DataURIView, ()> {
    match first_index(uri, 44u8) {
        None => Err(()),
        Some(c) => {
            let params = uri.subrange(5, c);
            if params.contains(61u8) {
                Err(())
            } else {
                let header = split_bytes(params, 59u8);
                Ok(
                    DataURIView {
                        header,
                        data: uri.subrange(c + 1, uri.len() as int),
                        is_base_64: header.contains(base64_word()),
                    },
                )
            }
        },
    }
}

/// The position of the first `b` in `s`, if any.
fn find_byte(s: &[u8], b: u8) -> (r: Option<usize>)
    ensures
        r matches Some(i) ==> first_index(s@, b) == Some(i as int) && i < s@.len() && s@[i as int] == b,
        r is None ==> first_index(s@, b) is None,
{
    let n = s.len();
    let mut i: usize = 0;
    while i < n
        invariant
            n == s@.len(),
            i <= n,
            first_from(s@, b, i as int) == first_index(s@, b),
        decreases n - i,
    {
        if s[i] == b {
            return Some(i);
        }
        i = i + 1;
    }
    None
}

/// A copy of `s[start..end]`.
fn copy_bytes(s: &[u8], start: usize, end: usize) -> (r: Vec<u8>)
    requires
        start <= end <= s@.len(),
    ensures
        r@ == s@.subrange(start as int, end as int),
{
    let mut r: Vec<u8> = Vec::new();
    let mut i = start;
    while i < end
        invariant
            start <= i <= end <= s@.len(),
            r@ == s@.subrange(start as int, i as int),
        decreases end - i,
    {
        r.push(s[i]);
        proof {
            assert(r@ =~= s@.subrange(start as int, i + 1));
        }
        i = i + 1;
    }
    r
}

/// The pieces of `s` cut at every `sep`.
fn split_at_byte(s: &[u8], sep: u8) -> (r: Vec<Vec<u8>>)
    ensures
        r@.map_values(|p: Vec<u8>| p@) == split_bytes(s@, sep),
{
    let n = s.len();
    let mut pieces: Vec<Vec<u8>> = Vec::new();
    let mut start: usize = 0;
    let mut i: usize = 0;
    proof {
        assert(Seq::<Seq<u8>>::empty() + split_bytes(s@, sep) =~= split_bytes(s@, sep));
    }
    while i < n
        invariant
            n == s@.len(),
            start <= i <= n,
            pieces@.map_values(|p: Vec<u8>| p@) + split_from(s@, sep, start as int, i as int)
                == split_bytes(s@, sep),
        decreases n - i,
    {
        if s[i] == sep {
            let piece = copy_bytes(s, start, i);
            let ghost before = pieces@.map_values(|p: Vec<u8>| p@);
            pieces.push(piece);
            proof {
                assert(pieces@.map_values(|p: Vec<u8>| p@) =~= before.push(piece@));
                assert(before + (seq![piece@] + split_from(s@, sep, i + 1, i + 1))
                    =~= before.push(piece@) + split_from(s@, sep, i + 1, i + 1));
            }
            start = i + 1;
        }
        i = i + 1;
    }
    let last = copy_bytes(s, start, n);
    let ghost before = pieces@.map_values(|p: Vec<u8>| p@);
    pieces.push(last);
    proof {
        assert(pieces@.map_values(|p: Vec<u8>| p@) =~= before + seq![last@]);
    }
    pieces
}

proof fn lemma_first_from_finds(s: Seq<u8>, b: u8, i: int, k: int)
    requires
        0 <= i <= k < s.len(),
        s[k] == b,
    ensures
        first_from(s, b, i) is Some,
    decreases k - i,
{
    if s[i] != b {
        lemma_first_from_finds(s, b, i + 1, k);
    }
}

/// The bytes `a` and `b` are equal.
fn bytes_equal(a: &Vec<u8>, b: &[u8]) -> (r: bool)
    ensures
        r == (a@ == b@),
{
    if a.len() != b.len() {
        return false;
    }
    let n = a.len();
    let mut i: usize = 0;
    while i < n
        invariant
            n == a@.len(),
            n == b@.len(),
            i <= n,
            a@.subrange(0, i as int) == b@.subrange(0, i as int),
        decreases n - i,
    {
        if a[i] != b[i] {
            proof {
                assert(a@[i as int] != b@[i as int]);
            }
            return false;
        }
        proof {
            assert(a@.subrange(0, i + 1) =~= b@.subrange(0, i + 1));
        }
        i = i + 1;
    }
    proof {
        assert(a@ =~= a@.subrange(0, n as int));
        assert(b@ =~= b@.subrange(0, n as int));
    }
    true
}

impl DataURI {
    /// The string starts with `data:`.
    pub fn is_data_uri(data: &str) -> (r: bool)
        ensures
            r == (data.spec_bytes().len() >= 5 && data.spec_bytes().subrange(0, 5) == data_prefix()),
    {
        let bytes = data.as_bytes();
        if bytes.len() < 5 {
            return false;
        }
        let r = bytes[0] == 100u8 && bytes[1] == 97u8 && bytes[2] == 116u8 && bytes[3] == 97u8
            && bytes[4] == 58u8;
        proof {
            if r {
                assert(bytes@.subrange(0, 5) =~= data_prefix());
            } else {
                if bytes@.subrange(0, 5) == data_prefix() {
                    assert(bytes@.subrange(0, 5)[0] == 100u8);
                    assert(bytes@.subrange(0, 5)[1] == 97u8);
                    assert(bytes@.subrange(0, 5)[2] == 116u8);
                    assert(bytes@.subrange(0, 5)[3] == 97u8);
                    assert(bytes@.subrange(0, 5)[4] == 58u8);
                }
            }
        }
        r
    }

    /// Read a data URI: the header after `data:`, cut at each `;`, and the
    /// data after the first comma.  See `spec_parse`.  A URI without a comma
    /// is refused with `GetHeader`.
    pub fn new(uri: &str) -> (r: Result<DataURI, Error>)
        requires
            first_index(uri.spec_bytes(), 44u8) is Some ==> header_readable(uri),
        ensures
            match spec_parse(uri.spec_bytes()) {
                Ok(v) => r matches Ok(d) && d@ == v,
                Err(_) => r matches Err(e) && (first_index(uri.spec_bytes(), 44u8) is None
                    ==> e is GetHeader) && (first_index(uri.spec_bytes(), 44u8) is Some
                    ==> e is UriParameter),
            },
    {
        let bytes = uri.as_bytes();
        let comma = match find_byte(bytes, 44u8) {
            Some(c) => c,
            None => return Err(Error::GetHeader),
        };
        let params = copy_bytes(bytes, 5, comma);
        if let Some(k) = find_byte(params.as_slice(), 61u8) {
            proof {
                assert(params@[k as int] == 61u8);
            }
            return Err(Error::UriParameter);
        }
        proof {
            if params@.contains(61u8) {
                let k = choose|k: int| 0 <= k < params@.len() && params@[k] == 61u8;
                lemma_first_from_finds(params@, 61u8, 0, k);
            }
        }
        let header = split_at_byte(params.as_slice(), 59u8);
        let len = bytes.len();
        let data = copy_bytes(bytes, comma + 1, len);
        let ghost hv = header@.map_values(|p: Vec<u8>| p@);
        let word: [u8; 6] = [98u8, 97u8, 115u8, 101u8, 54u8, 52u8];
        let ghost w = word@;
        assert(w =~= base64_word());
        let mut is_base_64 = false;
        let n = header.len();
        let mut i: usize = 0;
        while i < n
            invariant
                n == header@.len(),
                i <= n,
                hv == header@.map_values(|p: Vec<u8>| p@),
                w == base64_word(),
                word@ == w,
                is_base_64 == hv.take(i as int).contains(w),
            decreases n - i,
        {
            let ghost before = is_base_64;
            if bytes_equal(&header[i], word.as_slice()) {
                is_base_64 = true;
            }
            proof {
                let t0 = hv.take(i as int);
                let t1 = hv.take(i + 1);
                assert(t1 =~= t0.push(hv[i as int]));
                if t1.contains(w) {
                    let k = choose|k: int| 0 <= k < t1.len() && #[trigger] t1[k] == w;
                    if k < i {
                        assert(t0[k] == w);
                    }
                }
                if before {
                    let k = choose|k: int| 0 <= k < t0.len() && #[trigger] t0[k] == w;
                    assert(t1[k] == w);
                }
                if is_base_64 && !before {
                    assert(t1[i as int] == w);
                }
            }
            i = i + 1;
        }
        proof {
            assert(hv.take(n as int) =~= hv);
        }
        Ok(DataURI { header, data, is_base_64 })
    }
}

/// What `base64::decode` gives for `input`: the decoded bytes, or `None`
/// where it refuses the input.
pub uninterp spec fn base64_decoded(input: Seq<u8>) -> Option<Seq<u8>>;

/// Calls `base64::decode` (standard alphabet, with padding) on the bytes;
/// the contract only names its result by `base64_decoded`.
#[verifier::external_body]
fn base64_decode(input: &[u8]) -> (r: Result<Vec<u8>, base64::DecodeError>)
    requires
        input@.len() <= isize::MAX,
    ensures
        match r {
            Ok(v) => base64_decoded(input@) == Some(v@),
            Err(_) => base64_decoded(input@) is None,
        },
{
    base64::decode(input)
}

/// Calls `core::str::from_utf8`: the bytes as a string where they are valid
/// UTF-8, and an error otherwise.
#[verifier::external_body]
fn str_from_utf8(bytes: &[u8]) -> (r: Result<&str, core::str::Utf8Error>)
    ensures
        r is Ok <==> valid_utf8(bytes@),
        r matches Ok(s) ==> s@ == decode_utf8(bytes@),
{
    core::str::from_utf8(bytes)
}

/// A hexadecimal digit.
pub open spec fn hex_digit(c: char) -> bool {
    ('0' <= c && c <= '9') || ('a' <= c && c <= 'f') || ('A' <= c && c <= 'F')
}

/// The value of a hexadecimal digit.
pub open spec fn hex_value(c: char) -> int {
    if '0' <= c && c <= '9' {
        c as int - '0' as int
    } else if 'a' <= c && c <= 'f' {
        c as int - 'a' as int + 10
    } else {
        c as int - 'A' as int + 10
    }
}

/// A text of at most two characters that `u8::from_str_radix(_, 16)`
/// accepts: one digit, two digits, or `+` and a digit.
pub open spec fn short_hex_ok(s: Seq<char>) -> bool {
    if s.len() == 1 {
        hex_digit(s[0])
    } else if s.len() == 2 {
        (s[0] == '+' || hex_digit(s[0])) && hex_digit(s[1])
    } else {
        false
    }
}

/// The value of such a text.
pub open spec fn short_hex_value(s: Seq<char>) -> int {
    if s.len() == 1 {
        hex_value(s[0])
    } else if s[0] == '+' {
        hex_value(s[1])
    } else {
        16 * hex_value(s[0]) + hex_value(s[1])
    }
}

/// Calls `u8::from_str_radix(s, 16)` on a text of at most two characters:
/// an optional `+` and hexadecimal digits are accepted, anything else is an
/// error.
#[verifier::external_body]
fn parse_hex_u8(s: &str) -> (r: Result<u8, core::num::ParseIntError>)
    requires
        s@.len() <= 2,
    ensures
        r is Ok <==> short_hex_ok(s@),
        r matches Ok(v) ==> v == short_hex_value(s@),
{
    u8::from_str_radix(s, 16)
}

/// How reading percent-encoded data ends.
pub enum UrlOutcome {
    /// The bytes, with each `%` and the two bytes after it left out
    Done(Seq<u8>),
    /// A `%` without two bytes after it
    Percent,
    /// A `%` followed by two bytes that are not UTF-8
    Utf8,
    /// A `%` followed by two bytes that are not a hexadecimal number
    Int,
}

/// Reading percent-encoded data from position `i` on, with `acc` read so
/// far: a plain byte is kept; a `%` must be followed by two bytes that
/// spell a hexadecimal number, and those three bytes are skipped.
pub open spec fn spec_url_from(data: Seq<u8>, i: int, acc: Seq<u8>) -> UrlOutcome
    decreases data.len() - i,
{
    if i < 0 || i >= data.len() {
        UrlOutcome::Done(acc)
    } else if data[i] == 37u8 {
        if i + 2 < data.len() {
            let pair = seq![data[i + 1], data[i + 2]];
            if !valid_utf8(pair) {
                UrlOutcome::Utf8
            } else if !short_hex_ok(decode_utf8(pair)) {
                UrlOutcome::Int
            } else {
                spec_url_from(data, i + 3, acc)
            }
        } else {
            UrlOutcome::Percent
        }
    } else {
        spec_url_from(data, i + 1, acc.push(data[i]))
    }
}

/// Reading percent-encoded data.
pub open spec fn spec_url_data(data: Seq<u8>) -> UrlOutcome {
    spec_url_from(data, 0, Seq::empty())
}

proof fn lemma_decode_len_le(b: Seq<u8>)
    requires
        valid_utf8(b),
    ensures
        decode_utf8(b).len() <= b.len(),
    decreases b.len(),
{
    if b.len() > 0 {
        let l = vstd::utf8::length_of_first_scalar(b);
        assert(1 <= l <= b.len());
        let rest = vstd::utf8::pop_first_scalar(b);
        assert(rest.len() == b.len() - l);
        lemma_decode_len_le(rest);
    }
}

/// `r` is what reading the data of `v` gives: where the header says
/// `base64` the decoded bytes or a decoding error, otherwise the
/// percent-encoded reading or the error it ends in.
pub open spec fn data_outcome(v: DataURIView, r: Result<Vec<u8>, Error>) -> bool {
    if v.is_base_64 {
        match base64_decoded(v.data) {
            Some(d) => r matches Ok(x) && x@ == d,
            None => r matches Err(e) && e is Base64Decode,
        }
    } else {
        match spec_url_data(v.data) {
            UrlOutcome::Done(d) => r matches Ok(x) && x@ == d,
            UrlOutcome::Percent => r matches Err(e) && e is PercentEncoding,
            UrlOutcome::Utf8 => r matches Err(e) && e is UTF8,
            UrlOutcome::Int => r matches Err(e) && e is IntParse,
        }
    }
}

impl DataURI {
    fn get_url_data(data: &Vec<u8>) -> (r: Result<Vec<u8>, Error>)
        ensures
            match spec_url_data(data@) {
                UrlOutcome::Done(v) => r matches Ok(x) && x@ == v,
                UrlOutcome::Percent => r matches Err(e) && e is PercentEncoding,
                UrlOutcome::Utf8 => r matches Err(e) && e is UTF8,
                UrlOutcome::Int => r matches Err(e) && e is IntParse,
            },
    {
        let mut result: Vec<u8> = Vec::new();
        let n = data.len();
        let mut i: usize = 0;
        while i < n
            invariant
                n == data@.len(),
                i <= n,
                spec_url_from(data@, i as int, result@) == spec_url_data(data@),
            decreases n - i,
        {
            let c = data[i];
            if c == 37u8 {
                if n - i > 2 {
                    let mut pair: Vec<u8> = Vec::new();
                    pair.push(data[i + 1]);
                    pair.push(data[i + 2]);
                    proof {
                        assert(pair@ =~= seq![data@[i + 1], data@[i + 2]]);
                    }
                    match str_from_utf8(pair.as_slice()) {
                        Ok(s) => {
                            proof {
                                lemma_decode_len_le(pair@);
                            }
                            match parse_hex_u8(s) {
                                Ok(_) => {},
                                Err(e) => return Err(Error::IntParse(e)),
                            }
                        },
                        Err(e) => return Err(Error::UTF8(e)),
                    }
                    i = i + 3;
                } else {
                    return Err(Error::PercentEncoding);
                }
            } else {
                result.push(c);
                i = i + 1;
            }
        }
        Ok(result)
    }

    /// The bytes the data stands for: base64-decoded where the header says
    /// `base64`, and percent-decoded otherwise.
    pub fn get_data(&self) -> (r: Result<Vec<u8>, Error>)
        requires
            self@.data.len() <= isize::MAX,
        ensures
            data_outcome(self@, r),
    {
        if self.is_base_64 {
            match base64_decode(self.data.as_slice()) {
                Ok(v) => Ok(v),
                Err(e) => Err(Error::Base64Decode(e)),
            }
        } else {
            Self::get_url_data(&self.data)
        }
    }
}

/// A position found by `first_from` lies in `s`, at or after `i`.
pub proof fn lemma_first_from_in_range(s: Seq<u8>, b: u8, i: int)
    ensures
        first_from(s, b, i) matches Some(c) ==> i <= c < s.len() && s[c] == b,
    decreases s.len() - i,
{
    if 0 <= i < s.len() && s[i] != b {
        lemma_first_from_in_range(s, b, i + 1);
    }
}

} // verus!

//! The token request over a raw TLS connection: the request text, and reading the token JSON
//! out of the HTTP response, de-chunking it where the server sent it in chunks.
use vstd::prelude::*;
use vstd::string::{StrSliceExecFns, StringExecFns, StringSliceAdditionalSpecFns};
use vstd::utf8::{
    decode_utf8, encode_utf8, encode_utf8_decode_utf8, encode_utf8_valid_utf8, is_ascii_chars,
    is_ascii_chars_encode_utf8, is_char_boundary, length_of_first_scalar, pop_first_scalar,
    valid_first_scalar, valid_utf8, valid_utf8_concat,
};

use crate::auth::error::NetConnError;
use crate::text::{
    contains_bytes, decimal, find_bytes, find_first, find_from, has_infix, hex_digit, hex_nat,
    hex_usize, is_white_space, lemma_ascii_is_boundary, lemma_boundary_after_ascii,
    lemma_encode_utf8_concat, lemma_find_first, lossy_string, occurs_at, parse_hex_usize,
    strip_plus, trim_end_ws, trim_start_ws, trim_str, trim_ws, usize_to_string, utf8_lossy,
    utf8_of,
};

verus! {

broadcast use vstd::utf8::encode_utf8_valid_utf8, vstd::utf8::encode_utf8_decode_utf8;

/// The token that the OAuth endpoint hands back.
#[derive(Debug, PartialEq, Eq)]
pub struct TokenResponse {
    pub access_token: String,
    pub expires_in: u64,
    pub token_type: String,
}

/// A carriage return and a line feed.
pub open spec fn crlf() -> Seq<u8> {
    seq![13u8, 10u8]
}

/// The blank line that ends the header of an HTTP message.
pub open spec fn blank_line() -> Seq<u8> {
    seq![13u8, 10u8, 13u8, 10u8]
}

/// What reading a chunked body comes to.
pub enum ChunkOutcome {
    /// The concatenated chunk data.
    Decoded(Seq<u8>),
    /// A size line is missing or unreadable, or a chunk is cut short; the bytes are the rest of
    /// the body at that point.
    Invalid(Seq<u8>),
    /// A chunk ends inside a character, or its trailing line break is missing at the end of the
    /// body: slicing the text there would panic.
    Panics,
}

/// Puts `prefix` in front of decoded data and leaves other outcomes alone.
pub open spec fn after_prefix(prefix: Seq<u8>, o: ChunkOutcome) -> ChunkOutcome {
    match o {
        ChunkOutcome::Decoded(d) => ChunkOutcome::Decoded(prefix + d),
        other => other,
    }
}

/// Reads a body in HTTP/1.1 chunked transfer coding: a size line of hexadecimal digits
/// (surrounded by white space, optionally after `+`), then that many bytes of data and two
/// bytes that close the chunk, until a chunk of size 0. Whatever follows that chunk is ignored.
pub open spec fn dechunk(b: Seq<u8>) -> ChunkOutcome
    decreases b.len(),
{
    match find_first(b, crlf()) {
        None => ChunkOutcome::Invalid(b),
        Some(pos) => {
            proof {
                lemma_find_first(b, crlf());
            }
            let line = decode_utf8(b.take(pos));
            match hex_usize(trim_ws(line)) {
                None => ChunkOutcome::Invalid(b),
                Some(size) => {
                    let rest = b.skip(pos + 2);
                    if size == 0 {
                        ChunkOutcome::Decoded(Seq::empty())
                    } else if rest.len() < size {
                        ChunkOutcome::Invalid(rest)
                    } else if !is_char_boundary(rest, size as int) || rest.len() < size + 2
                        || !is_char_boundary(rest, size + 2) {
                        ChunkOutcome::Panics
                    } else {
                        after_prefix(rest.take(size as int), dechunk(rest.skip(size + 2)))
                    }
                },
            }
        },
    }
}

/// `r` reports the outcome `o`: the decoded text, or an invalid-chunk error that carries the
/// rest of the body, or nothing where slicing would panic.
pub open spec fn reports(r: Option<Result<String, NetConnError>>, o: ChunkOutcome) -> bool {
    match o {
        ChunkOutcome::Decoded(d) => r matches Some(Ok(s)) && utf8_of(s@) == d,
        ChunkOutcome::Invalid(rest) => r matches Some(Err(NetConnError::InvalidChunk(m))) && utf8_of(
            m@,
        ) == rest,
        ChunkOutcome::Panics => r is None,
    }
}

/// Reads a chunked body as `decode_chunked_body` does, and gives `None` on the bodies where
/// that slicing would panic.
pub fn try_decode_chunked_body(body: &str) -> (r: Option<Result<String, NetConnError>>)
    ensures
        reports(r, dechunk(body.spec_bytes())),
{
    let ghost whole = body.spec_bytes();
    let mut cur: &str = body;
    let mut result = String::new();
    let crlf_bytes: Vec<u8> = vec![13u8, 10u8];
    assert(result@ =~= Seq::<char>::empty());
    assert(utf8_of(result@) =~= Seq::<u8>::empty());
    assert(Seq::<u8>::empty() + whole =~= whole);
    loop
        invariant
            whole == body.spec_bytes(),
            crlf_bytes@ == crlf(),
            dechunk(whole) == after_prefix(utf8_of(result@), dechunk(cur.spec_bytes())),
        decreases cur.spec_bytes().len(),
    {
        let ghost b = cur.spec_bytes();
        let bytes = cur.as_bytes();
        proof {
            lemma_find_first(b, crlf());
        }
        let blen = bytes.len();
        let pos = match find_bytes(bytes, crlf_bytes.as_slice()) {
            None => {
                assert(dechunk(b) == ChunkOutcome::Invalid(b));
                return Some(Err(NetConnError::InvalidChunk(String::from_str(cur))));
            },
            Some(p) => p,
        };
        proof {
            assert(b.subrange(pos as int, pos + 2) == crlf());
            assert(b[pos as int] == b.subrange(pos as int, pos + 2)[0]);
            assert(b[pos + 1] == b.subrange(pos as int, pos + 2)[1]);
            lemma_ascii_is_boundary(b, pos as int);
            lemma_boundary_after_ascii(b, pos + 1);
            assert(pos + 2 <= blen);
        }
        let (line, _) = cur.split_at(pos);
        proof {
            assert(line.spec_bytes() =~= b.take(pos as int));
        }
        let size = match parse_hex_usize(trim_str(line)) {
            None => {
                assert(dechunk(b) == ChunkOutcome::Invalid(b));
                return Some(Err(NetConnError::InvalidChunk(String::from_str(cur))));
            },
            Some(s) => s,
        };
        let (_, rest) = cur.split_at(pos + 2);
        let ghost rb = rest.spec_bytes();
        assert(rb =~= b.skip(pos + 2));
        if size == 0 {
            proof {
                assert(utf8_of(result@) + Seq::<u8>::empty() =~= utf8_of(result@));
            }
            return Some(Ok(result));
        }
        if rest.len() < size {
            return Some(Err(NetConnError::InvalidChunk(String::from_str(rest))));
        }
        if !rest.is_char_boundary(size) || rest.len() - size < 2 || !rest.is_char_boundary(size + 2) {
            return None;
        }
        let (chunk, _) = rest.split_at(size);
        let (_, next) = rest.split_at(size + 2);
        proof {
            assert(chunk.spec_bytes() =~= rb.take(size as int));
            assert(next.spec_bytes() =~= rb.skip(size + 2));
            lemma_encode_utf8_concat(result@, chunk@);
            let p = utf8_of(result@);
            let c = rb.take(size as int);
            match dechunk(next.spec_bytes()) {
                ChunkOutcome::Decoded(d) => {
                    assert(p + (c + d) =~= (p + c) + d);
                },
                _ => {},
            }
        }
        result.append(chunk);
        cur = next;
    }
}

/// Reads a chunked body: the concatenated chunk data, or an invalid-chunk error that carries
/// the rest of the body where a size line is missing or unreadable or a chunk is cut short.
pub fn decode_chunked_body(body: &str) -> (r: Result<String, NetConnError>)
    requires
        !(dechunk(body.spec_bytes()) is Panics),
    ensures
        reports(Some(r), dechunk(body.spec_bytes())),
{
    match try_decode_chunked_body(body) {
        Some(r) => r,
        None => {
            assert(false);
            Err(NetConnError::InvalidChunk(String::new()))
        },
    }
}

/// The form body that trades a signed assertion for an access token.
pub open spec fn req_body(jwt: Seq<char>) -> Seq<char> {
    "grant_type=urn:ietf:params:oauth:grant-type:jwt-bearer&assertion="@ + jwt
}

/// The HTTP request that posts `body` to the OAuth token endpoint.
pub open spec fn token_request(body: Seq<char>) -> Seq<char> {
    "POST /token HTTP/1.1\r\nHost: oauth2.googleapis.com\r\nContent-Type: application/x-www-form-urlencoded\r\nContent-Length: "@
        + decimal(utf8_of(body).len()) + "\r\nConnection: close\r\n\r\n"@ + body
}

/// The form body that trades a signed assertion for an access token.
pub fn create_req_body(jwt: &str) -> (r: String)
    ensures
        r@ == req_body(jwt@),
{
    let mut body = String::from_str("grant_type=urn:ietf:params:oauth:grant-type:jwt-bearer&assertion=");
    body.append(jwt);
    body
}

/// The HTTP request that posts `body` to the OAuth token endpoint, with its length in bytes.
pub fn token_request_text(body: &str) -> (r: String)
    ensures
        r@ == token_request(body@),
{
    let mut req = String::from_str(
        "POST /token HTTP/1.1\r\nHost: oauth2.googleapis.com\r\nContent-Type: application/x-www-form-urlencoded\r\nContent-Length: ",
    );
    let len = usize_to_string(body.as_bytes().len());
    req.append(len.as_str());
    req.append("\r\nConnection: close\r\n\r\n");
    req.append(body);
    req
}

/// What the token endpoint's response comes to: the text after the header, de-chunked where
/// the text says `transfer-encoding: chunked` (in either spelling), or an error when the text
/// has no blank line.
pub open spec fn response_body(text: Seq<char>) -> ChunkOutcome {
    let tb = utf8_of(text);
    match find_first(tb, blank_line()) {
        None => ChunkOutcome::Invalid(Seq::empty()),
        Some(p) => {
            let body = tb.skip(p + 4);
            if has_infix(tb, "transfer-encoding: chunked".spec_bytes()) || has_infix(
                tb,
                "Transfer-Encoding: chunked".spec_bytes(),
            ) {
                dechunk(body)
            } else {
                ChunkOutcome::Decoded(body)
            }
        },
    }
}

/// Reads the token JSON out of the raw bytes of the endpoint's response, as `TokenFetcher::fetch`
/// does: the bytes are read as UTF-8 (lossily), then split at the first blank line; the body is
/// de-chunked where the text anywhere says `transfer-encoding: chunked`. A response without a
/// blank line is an `UnexpectedResponse("Empty body")`. `None` on the responses where
/// de-chunking would panic.
pub fn response_json_body(response: &[u8]) -> (r: Option<Result<String, NetConnError>>)
    ensures
        find_first(utf8_of(utf8_lossy(response@)), blank_line()) is None ==> (r matches Some(
            Err(NetConnError::UnexpectedResponse(m)),
        ) && m@ == "Empty body"@),
        find_first(utf8_of(utf8_lossy(response@)), blank_line()) is Some ==> reports(
            r,
            response_body(utf8_lossy(response@)),
        ),
{
    let text = lossy_string(response);
    let ts = text.as_str();
    let tb = ts.as_bytes();
    let ghost b = ts.spec_bytes();
    let blank: Vec<u8> = vec![13u8, 10u8, 13u8, 10u8];
    proof {
        lemma_find_first(b, blank_line());
    }
    let p = match find_bytes(tb, blank.as_slice()) {
        None => {
            return Some(Err(NetConnError::UnexpectedResponse(String::from_str("Empty body"))));
        },
        Some(p) => p,
    };
    proof {
        assert(b.subrange(p as int, p + 4) == blank_line());
        assert(b[p + 3] == b.subrange(p as int, p + 4)[3]);
        lemma_boundary_after_ascii(b, p + 3);
    }
    let tlen = tb.len();
    assert(p + 4 <= tlen);
    let (_, body) = ts.split_at(p + 4);
    assert(body.spec_bytes() =~= b.skip(p + 4));
    let chunked = contains_bytes(tb, "transfer-encoding: chunked".as_bytes()) || contains_bytes(
        tb,
        "Transfer-Encoding: chunked".as_bytes(),
    );
    if chunked {
        try_decode_chunked_body(body)
    } else {
        Some(Ok(String::from_str(body)))
    }
}

// ---------------------------------------------------------------------------
// Reading back what chunked transfer coding writes
// ---------------------------------------------------------------------------

/// A lower-case hexadecimal digit for `0 <= d < 16`.
pub open spec fn hex_char(d: nat) -> char {
    if d < 10 {
        (48 + d) as char
    } else {
        (87 + d) as char
    }
}

/// `n` in lower-case hexadecimal, without leading zeros.
pub open spec fn hex_of(n: nat) -> Seq<char>
    decreases n,
{
    if n < 16 {
        seq![hex_char(n)]
    } else {
        hex_of(n / 16).push(hex_char(n % 16))
    }
}

/// One chunk as chunked transfer coding writes it: its size in hex, a line break, the data, a
/// line break.
pub open spec fn chunk_frame(data: Seq<u8>) -> Seq<u8> {
    utf8_of(hex_of(data.len())) + crlf() + data + crlf()
}

/// A body in chunked transfer coding: each chunk framed, then the line of the last chunk, of
/// size 0, and whatever follows it (`trailer`: trailer fields, the closing blank line).
pub open spec fn chunked_encoding(chunks: Seq<Seq<u8>>, trailer: Seq<u8>) -> Seq<u8>
    decreases chunks.len(),
{
    if chunks.len() == 0 {
        seq![48u8, 13u8, 10u8] + trailer
    } else {
        chunk_frame(chunks[0]) + chunked_encoding(chunks.drop_first(), trailer)
    }
}

/// The chunks one after the other.
pub open spec fn concat_chunks(chunks: Seq<Seq<u8>>) -> Seq<u8>
    decreases chunks.len(),
{
    if chunks.len() == 0 {
        Seq::empty()
    } else {
        chunks[0] + concat_chunks(chunks.drop_first())
    }
}

/// The chunks a body can be cut into: none empty (an empty chunk ends the body), each whole
/// UTF-8 text, and none longer than `usize::MAX` bytes.
pub open spec fn sendable_chunks(chunks: Seq<Seq<u8>>) -> bool {
    forall|i: int|
        0 <= i < chunks.len() ==> #[trigger] chunks[i].len() > 0 && valid_utf8(chunks[i])
            && chunks[i].len() <= usize::MAX
}

proof fn lemma_hex_of_chars(n: nat)
    ensures
        hex_of(n).len() > 0,
        forall|i: int|
            0 <= i < hex_of(n).len() ==> {
                let u = #[trigger] hex_of(n)[i] as u32;
                (48 <= u <= 57) || (97 <= u <= 102)
            },
    decreases n,
{
    if n >= 16 {
        lemma_hex_of_chars(n / 16);
        let h = hex_of(n);
        assert(h == hex_of(n / 16).push(hex_char(n % 16)));
        assert forall|i: int| 0 <= i < h.len() implies {
            let u = #[trigger] h[i] as u32;
            (48 <= u <= 57) || (97 <= u <= 102)
        } by {
            if i < h.len() - 1 {
                assert(h[i] == hex_of(n / 16)[i]);
            }
        }
    }
}

proof fn lemma_small_char(c: char)
    requires
        (c as u32) < 128,
    ensures
        '\0' <= c <= '\u{7f}',
{
}

proof fn lemma_hex_of_value(n: nat)
    ensures
        hex_nat(hex_of(n)) == Some(n),
    decreases n,
{
    let h = hex_of(n);
    if n < 16 {
        assert(h.drop_last() =~= Seq::<char>::empty());
        assert(hex_nat(h.drop_last()) == Some(0nat));
        assert(hex_digit(h.last()) == Some(n));
        assert(hex_nat(h) == Some(0nat * 16 + n));
    } else {
        lemma_hex_of_value(n / 16);
        assert(h.drop_last() =~= hex_of(n / 16));
        assert(hex_digit(h.last()) == Some(n % 16));
        assert((n / 16) * 16 + n % 16 == n) by (nonlinear_arith);
        assert(hex_nat(h) == Some((n / 16) * 16 + n % 16));
    }
}

/// The bytes of a hexadecimal number are digits and lower-case letters: no line break.
proof fn lemma_hex_bytes(n: nat)
    ensures
        utf8_of(hex_of(n)).len() == hex_of(n).len(),
        forall|i: int|
            0 <= i < utf8_of(hex_of(n)).len() ==> #[trigger] utf8_of(hex_of(n))[i] != 13u8
                && utf8_of(hex_of(n))[i] < 0x80,
        valid_utf8(utf8_of(hex_of(n))),
{
    lemma_hex_of_chars(n);
    let h = hex_of(n);
    assert(is_ascii_chars(h)) by {
        assert forall|i: int| 0 <= i < h.len() implies '\0' <= #[trigger] h[i] <= '\u{7f}' by {
            let u = h[i] as u32;
            assert((48 <= u <= 57) || (97 <= u <= 102));
            lemma_small_char(h[i]);
        }
    }
    is_ascii_chars_encode_utf8(h);
    assert forall|i: int| 0 <= i < utf8_of(h).len() implies #[trigger] utf8_of(h)[i] != 13u8
        && utf8_of(h)[i] < 0x80 by {
        let u = h[i] as u32;
        assert((48 <= u <= 57) || (97 <= u <= 102));
        assert(h[i] as u8 == utf8_of(h)[i]);
    }
}

/// `find_from` finds an occurrence with none before it.
proof fn lemma_find_from_exact(hay: Seq<u8>, needle: Seq<u8>, start: int, p: int)
    requires
        0 <= start <= p,
        occurs_at(hay, needle, p),
        forall|j: int| start <= j < p ==> !occurs_at(hay, needle, j),
    ensures
        find_from(hay, needle, start) == Some(p),
    decreases p - start,
{
    if start < p {
        lemma_find_from_exact(hay, needle, start + 1, p);
    }
}

/// Where two valid UTF-8 texts meet, a character starts.
proof fn lemma_concat_boundary(a: Seq<u8>, b: Seq<u8>)
    requires
        valid_utf8(a),
        valid_utf8(b),
    ensures
        valid_utf8(a + b),
        is_char_boundary(a + b, a.len() as int),
    decreases a.len(),
{
    valid_utf8_concat(a, b);
    if a.len() == 0 {
    } else {
        reveal_with_fuel(is_char_boundary, 2);
        let l = length_of_first_scalar(a);
        assert(valid_first_scalar(a)) by {
            reveal_with_fuel(valid_utf8, 1);
        }
        let ab = a + b;
        assert(ab[0] == a[0]);
        assert(length_of_first_scalar(ab) == l);
        assert(pop_first_scalar(ab) =~= pop_first_scalar(a) + b);
        assert(valid_utf8(pop_first_scalar(a))) by {
            reveal_with_fuel(valid_utf8, 1);
        }
        lemma_concat_boundary(pop_first_scalar(a), b);
    }
}

proof fn lemma_crlf_valid()
    ensures
        valid_utf8(crlf()),
{
    let c = seq!['\r', '\n'];
    assert(is_ascii_chars(c));
    is_ascii_chars_encode_utf8(c);
    assert(encode_utf8(c) =~= crlf());
    encode_utf8_valid_utf8(c);
}

proof fn lemma_chunked_encoding_valid(chunks: Seq<Seq<u8>>, trailer: Seq<u8>)
    requires
        sendable_chunks(chunks),
        valid_utf8(trailer),
    ensures
        valid_utf8(chunked_encoding(chunks, trailer)),
    decreases chunks.len(),
{
    if chunks.len() == 0 {
        let c = seq!['0', '\r', '\n'];
        assert(is_ascii_chars(c));
        is_ascii_chars_encode_utf8(c);
        assert(encode_utf8(c) =~= seq![48u8, 13u8, 10u8]);
        encode_utf8_valid_utf8(c);
        valid_utf8_concat(seq![48u8, 13u8, 10u8], trailer);
    } else {
        let c0 = chunks[0];
        assert(c0.len() > 0 && valid_utf8(c0));
        assert(sendable_chunks(chunks.drop_first())) by {
            assert forall|i: int| 0 <= i < chunks.drop_first().len() implies #[trigger] chunks.drop_first()[i].len() > 0
                && valid_utf8(chunks.drop_first()[i]) && chunks.drop_first()[i].len() <= usize::MAX by {
                assert(chunks.drop_first()[i] == chunks[i + 1]);
            }
        }
        lemma_chunked_encoding_valid(chunks.drop_first(), trailer);
        lemma_hex_bytes(c0.len());
        lemma_crlf_valid();
        let h = utf8_of(hex_of(c0.len()));
        valid_utf8_concat(h, crlf());
        valid_utf8_concat(h + crlf(), c0);
        valid_utf8_concat(h + crlf() + c0, crlf());
        valid_utf8_concat(chunk_frame(c0), chunked_encoding(chunks.drop_first(), trailer));
    }
}

/// Reading a chunked body gives back the chunks it was written from, whatever text follows the
/// line of the last chunk.
pub proof fn lemma_dechunk_reads_back(chunks: Seq<Seq<u8>>, trailer: Seq<u8>)
    requires
        sendable_chunks(chunks),
        valid_utf8(trailer),
    ensures
        dechunk(chunked_encoding(chunks, trailer)) == ChunkOutcome::Decoded(concat_chunks(chunks)),
    decreases chunks.len(),
{
    let b = chunked_encoding(chunks, trailer);
    if chunks.len() == 0 {
        assert(occurs_at(b, crlf(), 1)) by {
            assert(b.subrange(1, 3) =~= crlf());
        }
        assert(!occurs_at(b, crlf(), 0));
        lemma_find_from_exact(b, crlf(), 0, 1);
        let zero = seq!['0'];
        assert(is_ascii_chars(zero));
        is_ascii_chars_encode_utf8(zero);
        assert(encode_utf8(zero) =~= b.take(1));
        encode_utf8_decode_utf8(zero);
        assert(decode_utf8(b.take(1)) == zero);
        assert(trim_start_ws(zero) == zero);
        assert(trim_end_ws(zero) == zero);
        assert(strip_plus(zero) == zero);
        assert(zero.drop_last() =~= Seq::<char>::empty());
        assert(hex_nat(zero.drop_last()) == Some(0nat));
        assert(hex_digit(zero.last()) == Some(0nat));
        assert(hex_nat(zero) == Some(0nat));
        assert(concat_chunks(chunks) =~= Seq::<u8>::empty());
    } else {
        let c0 = chunks[0];
        let tail = chunks.drop_first();
        let n = c0.len();
        let h = utf8_of(hex_of(n));
        let hl = h.len() as int;
        let rest_enc = chunked_encoding(tail, trailer);
        assert(sendable_chunks(tail)) by {
            assert forall|i: int| 0 <= i < tail.len() implies #[trigger] tail[i].len() > 0
                && valid_utf8(tail[i]) && tail[i].len() <= usize::MAX by {
                assert(tail[i] == chunks[i + 1]);
            }
        }
        lemma_hex_bytes(n);
        lemma_hex_of_chars(n);
        assert(b =~= h + (crlf() + (c0 + (crlf() + rest_enc))));
        // the size line ends at the first line break
        assert(occurs_at(b, crlf(), hl)) by {
            assert(b.subrange(hl, hl + 2) =~= crlf());
        }
        assert forall|j: int| 0 <= j < hl implies !occurs_at(b, crlf(), j) by {
            assert(b[j] == h[j]);
            if occurs_at(b, crlf(), j) {
                assert(b.subrange(j, j + 2)[0] == b[j]);
            }
        }
        lemma_find_from_exact(b, crlf(), 0, hl);
        // the size line reads as the size of the chunk
        assert(b.take(hl) =~= h);
        encode_utf8_decode_utf8(hex_of(n));
        let line = hex_of(n);
        assert(decode_utf8(b.take(hl)) == line);
        let u0 = line[0] as u32;
        let ul = line.last() as u32;
        assert(!is_white_space(line[0]));
        assert(!is_white_space(line.last()));
        assert(trim_start_ws(line) == line);
        assert(trim_end_ws(line) == line);
        assert(trim_ws(line) == line);
        assert(strip_plus(line) == line);
        lemma_hex_of_value(n);
        assert(hex_usize(line) == Some(n as usize));
        // the data and its line break
        let rest = b.skip(hl + 2);
        assert(rest =~= c0 + (crlf() + rest_enc));
        lemma_chunked_encoding_valid(tail, trailer);
        lemma_crlf_valid();
        valid_utf8_concat(crlf(), rest_enc);
        lemma_concat_boundary(c0, crlf() + rest_enc);
        valid_utf8_concat(c0, crlf());
        assert(rest =~= (c0 + crlf()) + rest_enc);
        lemma_concat_boundary(c0 + crlf(), rest_enc);
        assert(rest.take(n as int) =~= c0);
        assert(rest.skip(n + 2int) =~= rest_enc);
        lemma_dechunk_reads_back(tail, trailer);
        assert(concat_chunks(chunks) == c0 + concat_chunks(tail));
    }
}

} // verus!

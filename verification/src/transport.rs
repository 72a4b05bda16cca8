//! The one HTTP request of an invocation, laid out for whoever sends it, and
//! the buffer that collects the response body.

use vstd::prelude::*;
use vstd::utf8::encode_utf8;
use crate::numeral::{decimal, decimal_text, decimal_value, lemma_decimal_text_reads_back};

verus! {

/// One header line of a request.
#[derive(Debug, PartialEq, Eq)]
pub struct Header {
    pub name: String,
    pub value: String,
}

impl View for Header {
    type V = (Seq<char>, Seq<char>);

    open spec fn view(&self) -> (Seq<char>, Seq<char>) {
        (self.name@, self.value@)
    }
}

/// The views of a sequence of headers, in order.
pub open spec fn header_views(headers: Seq<Header>) -> Seq<(Seq<char>, Seq<char>)> {
    headers.map_values(|h: Header| h@)
}

/// The method of a request. The library lays out no request but a `POST`.
#[derive(Debug, Clone, Copy, PartialEq, Eq, Structural)]
pub enum Method {
    Post,
}

/// An HTTP request that is ready to be sent: how, where to, with which
/// headers, with which body, and how long to wait for the connection. The
/// time limit bounds the connecting alone, not the whole exchange.
#[derive(Debug, PartialEq, Eq)]
pub struct HttpRequest {
    pub method: Method,
    pub url: String,
    pub headers: Vec<Header>,
    pub body: Vec<u8>,
    pub connect_timeout_secs: u64,
}

/// A request as mathematics sees it.
pub struct HttpRequestView {
    pub method: Method,
    pub url: Seq<char>,
    pub headers: Seq<(Seq<char>, Seq<char>)>,
    pub body: Seq<u8>,
    pub connect_timeout_secs: nat,
}

impl View for HttpRequest {
    type V = HttpRequestView;

    open spec fn view(&self) -> HttpRequestView {
        HttpRequestView {
            method: self.method,
            url: self.url@,
            headers: header_views(self.headers@),
            body: self.body@,
            connect_timeout_secs: self.connect_timeout_secs as nat,
        }
    }
}

/// The request that posts the JSON text `text` to `url` in the name of
/// `api_key`. The body is the UTF-8 encoding of the text, and the
/// `Content-Length` header is the number of its bytes, in decimal.
pub open spec fn json_post(url: Seq<char>, api_key: Seq<char>, text: Seq<char>, timeout: nat)
    -> HttpRequestView {
    HttpRequestView {
        method: Method::Post,
        url,
        headers: seq![
            ("Content-Type"@, "application/json"@),
            ("Accept"@, "*/*"@),
            ("Authorization"@, "Bearer "@ + api_key),
            ("Content-Length"@, decimal_text(encode_utf8(text).len())),
        ],
        body: encode_utf8(text),
        connect_timeout_secs: timeout,
    }
}

/// The `Content-Length` of a laid-out request is its last header, and reads
/// as the number of bytes of its body.
pub proof fn lemma_content_length_counts_the_body(
    url: Seq<char>,
    api_key: Seq<char>,
    text: Seq<char>,
    timeout: nat,
)
    ensures
        json_post(url, api_key, text, timeout).headers.len() == 4,
        json_post(url, api_key, text, timeout).headers[3].0 == "Content-Length"@,
        decimal_value(json_post(url, api_key, text, timeout).headers[3].1) == json_post(
            url,
            api_key,
            text,
            timeout,
        ).body.len(),
{
    lemma_decimal_text_reads_back(encode_utf8(text).len());
}

impl Header {
    /// The header `name: value`.
    pub fn new(name: &str, value: String) -> (header: Header)
        ensures
            header@ == (name@, value@),
    {
        Header { name: name.to_owned(), value }
    }
}

impl HttpRequest {
    /// Lays out the request of [`json_post`].
    pub fn post_json(url: &str, api_key: &str, text: &str, connect_timeout_secs: u64) -> (request:
        HttpRequest)
        ensures
            request@ == json_post(url@, api_key@, text@, connect_timeout_secs as nat),
    {
        let body = text.as_bytes_vec();
        let mut headers: Vec<Header> = Vec::new();
        headers.push(Header::new("Content-Type", "application/json".to_owned()));
        headers.push(Header::new("Accept", "*/*".to_owned()));
        headers.push(Header::new("Authorization", "Bearer ".to_owned().concat(api_key)));
        headers.push(Header::new("Content-Length", decimal(body.len())));
        let request = HttpRequest {
            method: Method::Post,
            url: url.to_owned(),
            headers,
            body,
            connect_timeout_secs,
        };
        assert(request@.headers =~= json_post(
            url@,
            api_key@,
            text@,
            connect_timeout_secs as nat,
        ).headers);
        request
    }
}

/// The bytes of a response body that have come in so far.
#[derive(Debug, PartialEq, Eq)]
pub struct ResponseBuffer {
    bytes: Vec<u8>,
}

impl View for ResponseBuffer {
    type V = Seq<u8>;

    closed spec fn view(&self) -> Seq<u8> {
        self.bytes@
    }
}

/// Whether reading goes on after `chunk`: it does after a chunk that holds
/// bytes, and stops at an empty chunk and at the end of the stream.
pub open spec fn reading_goes_on(chunk: Option<Seq<u8>>) -> bool {
    match chunk {
        Some(bytes) => bytes.len() > 0,
        None => false,
    }
}

/// The bytes that `chunk` adds to a body.
pub open spec fn bytes_of_chunk(chunk: Option<Seq<u8>>) -> Seq<u8> {
    match chunk {
        Some(bytes) => bytes,
        None => Seq::empty(),
    }
}

/// What one read gave, as mathematics sees it.
pub open spec fn chunk_view(chunk: Option<Vec<u8>>) -> Option<Seq<u8>> {
    match chunk {
        Some(bytes) => Some(bytes@),
        None => None,
    }
}

/// The same for a borrowed chunk.
pub open spec fn slice_view(chunk: Option<&[u8]>) -> Option<Seq<u8>> {
    match chunk {
        Some(bytes) => Some(bytes@),
        None => None,
    }
}

impl ResponseBuffer {
    /// A buffer that holds nothing yet.
    pub fn new() -> (buffer: ResponseBuffer)
        ensures
            buffer@ == Seq::<u8>::empty(),
    {
        ResponseBuffer { bytes: Vec::new() }
    }

    /// Takes in what one read of the response stream gave: `Some` for a
    /// chunk, `None` where the stream has ended or the read failed. The bytes
    /// of the chunk go to the end of the buffer; the result says whether to
    /// read again.
    pub fn absorb(&mut self, chunk: Option<&[u8]>) -> (more: bool)
        ensures
            final(self)@ == old(self)@ + bytes_of_chunk(slice_view(chunk)),
            more == reading_goes_on(slice_view(chunk)),
    {
        match chunk {
            Some(bytes) => {
                self.bytes.extend_from_slice(bytes);
                bytes.len() > 0
            },
            None => {
                assert(self@ + Seq::<u8>::empty() =~= self@);
                false
            },
        }
    }

    /// The body that was collected.
    pub fn into_bytes(self) -> (body: Vec<u8>)
        ensures
            body@ == self@,
    {
        self.bytes
    }
}

/// The body that a run of reads leaves behind: the chunks up to the first
/// read that ends the reading, one after the other. What later reads would
/// have given is never asked for.
pub open spec fn collected(reads: Seq<Option<Seq<u8>>>) -> Seq<u8>
    decreases reads.len(),
{
    if reads.len() == 0 {
        Seq::empty()
    } else if reading_goes_on(reads[0]) {
        bytes_of_chunk(reads[0]) + collected(reads.drop_first())
    } else {
        Seq::empty()
    }
}

/// The reads as mathematics sees them.
pub open spec fn read_views(reads: Seq<Option<Vec<u8>>>) -> Seq<Option<Seq<u8>>> {
    reads.map_values(|chunk: Option<Vec<u8>>| chunk_view(chunk))
}

/// Collects a response body from the reads of its stream, in the order in
/// which they were made: each is absorbed in turn until one ends the reading.
pub fn collect(reads: &Vec<Option<Vec<u8>>>) -> (body: Vec<u8>)
    ensures
        body@ == collected(read_views(reads@)),
{
    let ghost all = read_views(reads@);
    let mut buffer = ResponseBuffer::new();
    let mut i: usize = 0;
    assert(all.skip(0) =~= all);
    assert(buffer@ + collected(all) =~= collected(all));
    while i < reads.len()
        invariant
            i <= reads.len(),
            all == read_views(reads@),
            buffer@ + collected(all.skip(i as int)) == collected(all),
        decreases reads.len() - i,
    {
        let ghost rest = all.skip(i as int);
        let ghost before = buffer@;
        let more = match &reads[i] {
            Some(bytes) => buffer.absorb(Some(bytes.as_slice())),
            None => buffer.absorb(None),
        };
        proof {
            assert(rest[0] == chunk_view(reads@[i as int]));
            assert(rest.drop_first() =~= all.skip(i + 1));
            if more {
                assert(buffer@ + collected(all.skip(i + 1)) =~= before + collected(rest));
            } else {
                assert(buffer@ =~= before + collected(rest));
            }
        }
        if !more {
            return buffer.into_bytes();
        }
        i += 1;
    }
    assert(collected(all.skip(i as int)) =~= Seq::<u8>::empty());
    assert(buffer@ + Seq::<u8>::empty() =~= buffer@);
    buffer.into_bytes()
}

} // verus!

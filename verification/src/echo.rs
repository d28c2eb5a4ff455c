//! What the echo endpoint answers: the request as it was received.
//!
//! The streamed answer is cut into chunks, one for the status line and one
//! for each header; the plain answer is a single text. Both are put together
//! here from the parts of the request, which the caller hands over as text
//! and bytes.

use vstd::prelude::*;
use vstd::string::{StringExecFns, StringSliceAdditionalSpecFns};

verus! {

/// The text that `String::from_utf8_lossy` decodes `bytes` to: the text
/// itself where the bytes are UTF-8, and else the text in which each
/// ill-formed stretch of bytes has given way to U+FFFD.
pub uninterp spec fn lossy_text(bytes: Seq<u8>) -> Seq<char>;

/// Decodes bytes to text through `String::from_utf8_lossy`, which never
/// fails: what is no UTF-8 is replaced.
#[verifier::external_body]
fn decode_lossy(bytes: &[u8]) -> (text: String)
    ensures
        text@ == lossy_text(bytes@),
{
    String::from_utf8_lossy(bytes).into_owned()
}

/// A header of a request, its value decoded to text.
#[derive(Debug)]
pub struct HeaderLine {
    /// The name of the header; empty where the request gave none.
    pub name: String,
    /// The value of the header.
    pub value: String,
}

/// A header of a request, its value as the bytes that were received.
#[derive(Debug)]
pub struct RawHeader {
    /// The name of the header; empty where the request gave none.
    pub name: String,
    /// The value of the header.
    pub value: Vec<u8>,
}

/// The bytes of a space.
pub open spec fn space() -> Seq<u8> {
    seq![32u8]
}

/// The bytes that end a line of the streamed answer.
pub open spec fn line_end() -> Seq<u8> {
    seq![13u8, 10u8]
}

/// The bytes of the status line of the streamed answer.
pub open spec fn status_line_bytes(method: Seq<u8>, target: Seq<u8>, version: Seq<u8>) -> Seq<u8> {
    method + space() + target + space() + version + line_end()
}

/// The bytes of the chunk of one header in the streamed answer.
pub open spec fn header_chunk_bytes(name: Seq<u8>, value: Seq<u8>) -> Seq<u8> {
    name + space() + value + line_end()
}

/// The line of one header in the plain answer.
pub open spec fn header_line_text(name: Seq<char>, value: Seq<char>) -> Seq<char> {
    name + ": "@ + value + "\n"@
}

/// The lines of the first `count` headers in the plain answer, one after
/// another; each header is its name and its value.
pub open spec fn header_lines_text(headers: Seq<(Seq<char>, Seq<char>)>, count: int) -> Seq<char>
    decreases count,
{
    if count <= 0 {
        Seq::empty()
    } else {
        header_lines_text(headers, count - 1) + header_line_text(
            headers[count - 1].0,
            headers[count - 1].1,
        )
    }
}

/// The plain answer: the first line, the line of each header, a blank line,
/// and the body.
pub open spec fn echo_text_of(
    first_line: Seq<char>,
    headers: Seq<(Seq<char>, Seq<char>)>,
    body: Seq<char>,
) -> Seq<char> {
    first_line + "\n"@ + header_lines_text(headers, headers.len() as int) + "\n"@ + body
}

/// The names and values of headers whose values are text.
pub open spec fn header_texts(headers: Seq<HeaderLine>) -> Seq<(Seq<char>, Seq<char>)> {
    Seq::new(headers.len(), |i: int| (headers[i].name@, headers[i].value@))
}

/// The names and decoded values of headers as they were received.
pub open spec fn decoded_texts(headers: Seq<RawHeader>) -> Seq<(Seq<char>, Seq<char>)> {
    Seq::new(headers.len(), |i: int| (headers[i].name@, lossy_text(headers[i].value@)))
}

/// Appends the bytes of `bytes` to `chunk`.
fn append_bytes(chunk: &mut Vec<u8>, bytes: &[u8])
    ensures
        final(chunk)@ == old(chunk)@ + bytes@,
{
    let mut i: usize = 0;
    while i < bytes.len()
        invariant
            i <= bytes@.len(),
            chunk@ == old(chunk)@ + bytes@.take(i as int),
        decreases bytes@.len() - i,
    {
        chunk.push(bytes[i]);
        i = i + 1;
        assert(chunk@ =~= old(chunk)@ + bytes@.take(i as int));
    }
    assert(bytes@.take(bytes@.len() as int) =~= bytes@);
}

/// Appends the bytes that end a line to `chunk`.
fn append_line_end(chunk: &mut Vec<u8>)
    ensures
        final(chunk)@ == old(chunk)@ + line_end(),
{
    chunk.push(13u8);
    chunk.push(10u8);
    assert(chunk@ =~= old(chunk)@ + line_end());
}

/// Appends the bytes of a space to `chunk`.
fn append_space(chunk: &mut Vec<u8>)
    ensures
        final(chunk)@ == old(chunk)@ + space(),
{
    chunk.push(32u8);
    assert(chunk@ =~= old(chunk)@ + space());
}

/// The first chunk of the streamed answer: the method, the target and the
/// version of the request on one line.
pub fn status_line(method: &str, target: &str, version: &str) -> (chunk: Vec<u8>)
    ensures
        chunk@ == status_line_bytes(
            method.spec_bytes(),
            target.spec_bytes(),
            version.spec_bytes(),
        ),
{
    let mut chunk: Vec<u8> = Vec::new();
    append_bytes(&mut chunk, method.as_bytes());
    append_space(&mut chunk);
    append_bytes(&mut chunk, target.as_bytes());
    append_space(&mut chunk);
    append_bytes(&mut chunk, version.as_bytes());
    append_line_end(&mut chunk);
    assert(chunk@ =~= status_line_bytes(
        method.spec_bytes(),
        target.spec_bytes(),
        version.spec_bytes(),
    ));
    chunk
}

/// The chunk of one header in the streamed answer: its name and its value
/// on one line, each written as the caller has rendered it.
pub fn header_chunk(name: &str, value: &str) -> (chunk: Vec<u8>)
    ensures
        chunk@ == header_chunk_bytes(name.spec_bytes(), value.spec_bytes()),
{
    let mut chunk: Vec<u8> = Vec::new();
    append_bytes(&mut chunk, name.as_bytes());
    append_space(&mut chunk);
    append_bytes(&mut chunk, value.as_bytes());
    append_line_end(&mut chunk);
    assert(chunk@ =~= header_chunk_bytes(name.spec_bytes(), value.spec_bytes()));
    chunk
}

/// The plain answer to a request whose header values and body are text.
pub fn echo_text(first_line: &str, headers: &Vec<HeaderLine>, body: &str) -> (text: String)
    ensures
        text@ == echo_text_of(first_line@, header_texts(headers@), body@),
{
    let mut text = String::new();
    text.append(first_line);
    text.append("\n");
    let ghost head = text@;
    let ghost texts = header_texts(headers@);
    let mut i: usize = 0;
    while i < headers.len()
        invariant
            i <= headers.len(),
            texts == header_texts(headers@),
            head == first_line@ + "\n"@,
            text@ == head + header_lines_text(texts, i as int),
        decreases headers.len() - i,
    {
        let ghost before = text@;
        text.append(headers[i].name.as_str());
        text.append(": ");
        text.append(headers[i].value.as_str());
        text.append("\n");
        i = i + 1;
        assert(text@ =~= head + header_lines_text(texts, i as int)) by {
            assert(text@ =~= before + header_line_text(texts[i - 1].0, texts[i - 1].1));
        }
    }
    text.append("\n");
    text.append(body);
    assert(text@ =~= echo_text_of(first_line@, texts, body@));
    text
}

/// The plain answer to a request as it was received: the values of the
/// headers and the body are decoded to text, whatever bytes they hold.
pub fn echo_reply(first_line: &str, headers: &Vec<RawHeader>, body: &[u8]) -> (text: String)
    ensures
        text@ == echo_text_of(first_line@, decoded_texts(headers@), lossy_text(body@)),
{
    let mut decoded: Vec<HeaderLine> = Vec::new();
    let mut i: usize = 0;
    while i < headers.len()
        invariant
            i <= headers.len(),
            decoded@.len() == i,
            forall|k: int|
                0 <= k < i ==> (#[trigger] decoded@[k]).name@ == headers@[k].name@
                    && decoded@[k].value@ == lossy_text(headers@[k].value@),
        decreases headers.len() - i,
    {
        let name = headers[i].name.clone();
        let value = decode_lossy(headers[i].value.as_slice());
        decoded.push(HeaderLine { name, value });
        i = i + 1;
    }
    let body_text = decode_lossy(body);
    assert(header_texts(decoded@) =~= decoded_texts(headers@));
    echo_text(first_line, &decoded, body_text.as_str())
}

} // verus!

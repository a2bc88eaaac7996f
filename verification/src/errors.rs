use vstd::prelude::*;

verus! {

/// The closed set of failure kinds for the IDL pipeline.
///
/// Every failure is terminal for the invocation that raised it; callers
/// pattern-match on the kind rather than on message text. The decoder itself
/// only raises `TooShort`, `WrongDiscriminator`, `Truncated` and
/// `MalformedDocument`; the remaining kinds belong to the boundary steps
/// (address parsing, network fetch, local write) that surround it.
#[derive(Debug)]
pub enum IdlError {
    /// The program identifier string is not a valid encoding of exactly
    /// 32 bytes.
    AddressFormat,
    /// The remote fetch failed; carries the transport's own message.
    Transport(String),
    /// The requested account does not exist on the selected cluster.
    NotFound,
    /// The fetched account is not an executable program.
    NotExecutable,
    /// The buffer is shorter than the minimum required by the framing check
    /// being performed.
    TooShort,
    /// The buffer's first 8 bytes do not mark an IDL record.
    WrongDiscriminator,
    /// The declared payload length exceeds the bytes available.
    Truncated,
    /// The payload bytes are not a syntactically valid JSON document;
    /// carries the parser's message.
    MalformedDocument(String),
    /// Local storage failed while writing the document out.
    Io(String),
}

} // verus!

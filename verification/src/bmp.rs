//! A decoder over an owned byte buffer: parse the header, then extract the
//! reoriented pixel bytes.

use vstd::prelude::*;

use crate::BmpError;
use crate::header::BmpHeader;
use crate::header::parse_header;
use crate::header::spec_parse_header;
use crate::pixels::extract_pixels;
use crate::pixels::spec_pixel_data;

verus! {

/// What `get_pixel_data` yields for a decoder whose stored header is
/// `parsed` and whose byte source is `s`: extraction over the parsed header,
/// or `InvalidFormat` when no header has been parsed yet.
pub open spec fn spec_bmp_pixels(parsed: Option<BmpHeader>, s: Seq<u8>) -> Result<
    Seq<u8>,
    BmpError,
> {
    match parsed {
        Option::None => Err(BmpError::InvalidFormat),
        Option::Some(h) => spec_pixel_data(h, s),
    }
}

/// A BMP decoder over an owned byte buffer.
///
/// `open` parses and stores the header; `get_pixel_data` then reads the
/// pixel region. The buffer never changes after construction, so repeated
/// decodes of the same source yield the same values.
pub struct Bmp {
    data: Vec<u8>,
    header: Option<BmpHeader>,
}

impl Bmp {
    /// The byte source the decoder reads from.
    pub closed spec fn bytes(&self) -> Seq<u8> {
        self.data@
    }

    /// The header stored by a successful `open`, if any.
    pub closed spec fn parsed(&self) -> Option<BmpHeader> {
        self.header
    }

    /// Wraps a byte buffer; no header is parsed yet.
    pub fn new(data: Vec<u8>) -> (r: Bmp)
        ensures
            r.bytes() == data@,
            r.parsed() is None,
    {
        Bmp { data, header: None }
    }

    /// Parses the 54-byte header at the start of the buffer and stores it.
    /// On failure the error is returned and the stored header is unchanged.
    pub fn open(&mut self) -> (r: Result<(), BmpError>)
        ensures
            final(self).bytes() == old(self).bytes(),
            match spec_parse_header(old(self).bytes()) {
                Ok(h) => r is Ok && final(self).parsed() == Some(h),
                Err(e) => r == Err::<(), BmpError>(e) && final(self).parsed() == old(
                    self,
                ).parsed(),
            },
    {
        match parse_header(&self.data) {
            Ok(h) => {
                self.header = Some(h);
                Ok(())
            },
            Err(e) => Err(e),
        }
    }

    /// The stored header, if `open` has succeeded.
    pub fn header(&self) -> (r: Option<BmpHeader>)
        ensures
            r == self.parsed(),
    {
        self.header
    }

    /// Extracts the pixel bytes located by the stored header, reordered into
    /// top-down rows; `InvalidFormat` when no header has been parsed.
    pub fn get_pixel_data(&self) -> (r: Result<Vec<u8>, BmpError>)
        ensures
            spec_bmp_pixels(self.parsed(), self.bytes()) is Ok <==> r is Ok,
            r matches Ok(p) ==> p@ == spec_bmp_pixels(self.parsed(), self.bytes())->Ok_0,
            r matches Err(e) ==> e == spec_bmp_pixels(self.parsed(), self.bytes())->Err_0,
    {
        match &self.header {
            Option::Some(h) => extract_pixels(h, &self.data),
            Option::None => Err(BmpError::InvalidFormat),
        }
    }
}

/// Decoding holds no hidden state: the parse result and the pixel result are
/// functions of the source bytes (and, for pixels, the header) alone, so
/// decoding the same buffer twice yields the same header and the same pixel
/// values both times.
pub proof fn lemma_decode_deterministic(a: Seq<u8>, b: Seq<u8>, h: BmpHeader)
    requires
        a == b,
    ensures
        spec_parse_header(a) == spec_parse_header(b),
        spec_pixel_data(h, a) == spec_pixel_data(h, b),
{
}

} // verus!

//! Frame buffers: raw pixels handed over for presentation, checked before
//! use. A pixel takes four bytes, one for each 8-bit channel.

use vstd::prelude::*;
use vstd::string::*;
use crate::text::{append_decimal, decimal_text};

verus! {

/// The number of channels of a pixel, each one byte wide.
pub const CHANNELS: usize = 4;

/// The number of bytes of a frame of the given size.
pub open spec fn frame_bytes(width: int, height: int) -> int {
    width * height * 4
}

/// Why a buffer is no frame of the size claimed for it.
#[derive(Clone, Copy, Debug, PartialEq, Eq, Structural)]
pub enum FrameBufferError {
    /// The buffer does not have four bytes for each pixel.
    InvalidSize { buffer_size: usize, expected_size: usize, width: usize, height: usize },
}

/// The text of the error of a buffer of the wrong size.
pub open spec fn invalid_size_text(
    buffer_size: nat,
    expected_size: nat,
    width: nat,
    height: nat,
) -> Seq<char> {
    "Invalid buffer size "@ + decimal_text(buffer_size) + ", expected "@ + decimal_text(
        expected_size,
    ) + " for width "@ + decimal_text(width) + " multiplied with height "@ + decimal_text(height)
        + " multiplied by 4 channels"@
}

impl FrameBufferError {
    /// The text of the error.
    pub open spec fn text(self) -> Seq<char> {
        match self {
            FrameBufferError::InvalidSize { buffer_size, expected_size, width, height } =>
                invalid_size_text(
                buffer_size as nat,
                expected_size as nat,
                width as nat,
                height as nat,
            ),
        }
    }

    /// The text of the error: the size found, the size expected, and the
    /// width and height that it was expected for.
    pub fn message(&self) -> (r: String)
        ensures
            r@ == self.text(),
    {
        match self {
            FrameBufferError::InvalidSize { buffer_size, expected_size, width, height } => {
                let mut out = String::from_str("Invalid buffer size ");
                append_decimal(&mut out, *buffer_size as u64);
                out.append(", expected ");
                append_decimal(&mut out, *expected_size as u64);
                out.append(" for width ");
                append_decimal(&mut out, *width as u64);
                out.append(" multiplied with height ");
                append_decimal(&mut out, *height as u64);
                out.append(" multiplied by 4 channels");
                assert(out@ =~= self.text());
                out
            },
        }
    }
}

/// The number of bytes of a frame of the given size, where that number can be
/// held.
pub fn byte_count(width: usize, height: usize) -> (r: Option<usize>)
    ensures
        match r {
            Some(n) => n == frame_bytes(width as int, height as int),
            None => frame_bytes(width as int, height as int) > usize::MAX,
        },
{
    match width.checked_mul(height) {
        Some(pixels) => {
            assert(pixels * 4 == frame_bytes(width as int, height as int)) by (nonlinear_arith)
                requires
                    pixels == width * height,
            ;
            pixels.checked_mul(CHANNELS)
        },
        None => {
            assert(frame_bytes(width as int, height as int) > usize::MAX) by (nonlinear_arith)
                requires
                    width * height > usize::MAX,
            ;
            None
        },
    }
}

/// A borrowed buffer of pixels that is known to have four bytes for each
/// pixel of its width and height.
pub struct FrameBufferRef<'a> {
    buffer: &'a [u8],
    width: usize,
    height: usize,
}

impl<'a> FrameBufferRef<'a> {
    #[verifier::type_invariant]
    pub closed spec fn has_valid_size(self) -> bool {
        self.buffer@.len() == frame_bytes(self.width as int, self.height as int)
    }

    /// The bytes of the frame.
    pub closed spec fn bytes(self) -> Seq<u8> {
        self.buffer@
    }

    /// The width of the frame in pixels.
    pub closed spec fn spec_width(self) -> usize {
        self.width
    }

    /// The height of the frame in pixels.
    pub closed spec fn spec_height(self) -> usize {
        self.height
    }

    /// Checks that a buffer has four bytes for each pixel of the given width
    /// and height, and takes it as a frame; a buffer of another size is
    /// refused, with the size found and the size expected.
    pub fn new(buffer: &'a [u8], width: usize, height: usize) -> (r: Result<
        FrameBufferRef<'a>,
        FrameBufferError,
    >)
        requires
            frame_bytes(width as int, height as int) <= usize::MAX,
        ensures
            match r {
                Ok(frame) => {
                    &&& buffer@.len() == frame_bytes(width as int, height as int)
                    &&& frame.bytes() == buffer@
                    &&& frame.spec_width() == width
                    &&& frame.spec_height() == height
                },
                Err(e) => {
                    &&& buffer@.len() != frame_bytes(width as int, height as int)
                    &&& e == (FrameBufferError::InvalidSize {
                        buffer_size: buffer@.len() as usize,
                        expected_size: frame_bytes(width as int, height as int) as usize,
                        width,
                        height,
                    })
                },
            },
    {
        match FrameBufferRef::validate_size(buffer.len(), width, height) {
            Ok(()) => Ok(FrameBufferRef { buffer, width, height }),
            Err(e) => Err(e),
        }
    }

    /// Checks that a buffer of `buffer_size` bytes has four bytes for each pixel
    /// of the given width and height.
    pub fn validate_size(buffer_size: usize, width: usize, height: usize) -> (r: Result<
        (),
        FrameBufferError,
    >)
        requires
            frame_bytes(width as int, height as int) <= usize::MAX,
        ensures
            r is Ok <==> buffer_size == frame_bytes(width as int, height as int),
            r matches Err(e) ==> e == (FrameBufferError::InvalidSize {
                buffer_size,
                expected_size: frame_bytes(width as int, height as int) as usize,
                width,
                height,
            }),
    {
        assert(width * height <= usize::MAX) by (nonlinear_arith)
            requires
                width * height * 4 <= usize::MAX,
                width >= 0,
                height >= 0,
        ;
        let expected: usize = width * height * CHANNELS;
        if buffer_size != expected {
            Err(
                FrameBufferError::InvalidSize { buffer_size, expected_size: expected, width, height },
            )
        } else {
            Ok(())
        }
    }

    /// The bytes of the frame.
    pub fn buffer(&self) -> (r: &[u8])
        ensures
            r@ == self.bytes(),
            r@.len() == frame_bytes(self.spec_width() as int, self.spec_height() as int),
    {
        proof {
            use_type_invariant(self);
        }
        self.buffer
    }

    /// The width of the frame in pixels.
    pub fn width(&self) -> (r: usize)
        ensures
            r == self.spec_width(),
    {
        self.width
    }

    /// The height of the frame in pixels.
    pub fn height(&self) -> (r: usize)
        ensures
            r == self.spec_height(),
    {
        self.height
    }

    /// The frame as it is written for debugging: its width, its height and
    /// the number of its bytes, not the bytes themselves.
    pub fn debug_string(&self) -> (r: String)
        ensures
            r@ == "FrameBuffer { width: "@ + decimal_text(self.spec_width() as nat) + ", height: "@
                + decimal_text(self.spec_height() as nat) + ", len: "@ + decimal_text(
                self.bytes().len(),
            ) + " }"@,
    {
        let mut out = String::from_str("FrameBuffer { width: ");
        append_decimal(&mut out, self.width as u64);
        out.append(", height: ");
        append_decimal(&mut out, self.height as u64);
        out.append(", len: ");
        append_decimal(&mut out, self.buffer.len() as u64);
        out.append(" }");
        assert(out@ =~= "FrameBuffer { width: "@ + decimal_text(self.spec_width() as nat)
            + ", height: "@ + decimal_text(self.spec_height() as nat) + ", len: "@ + decimal_text(
            self.bytes().len(),
        ) + " }"@);
        out
    }
}

} // verus!

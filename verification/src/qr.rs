//! QR codes, drawn by the `qr_code` crate and written out as monochrome BMP images.

use qr_code::bmp_monochrome::{Bmp, BmpError};
use qr_code::types::QrError;
use qr_code::QrCode;
use vstd::prelude::*;

use crate::error::WebServerError;
use crate::utils::le_bytes;

verus! {

#[verifier::external_type_specification]
#[verifier::external_body]
pub struct ExQrCode(QrCode);

#[verifier::external_type_specification]
#[verifier::external_body]
pub struct ExBmp(Bmp);

#[verifier::external_type_specification]
#[verifier::external_body]
pub struct ExQrError(QrError);

#[verifier::external_type_specification]
#[verifier::external_body]
pub struct ExBmpError(BmpError);

/// The modules of a QR code, row by row (`true` is dark).
pub uninterp spec fn qr_rows(code: QrCode) -> Seq<Seq<bool>>;

/// The pixels of a monochrome bitmap, row by row (`true` is dark).
pub uninterp spec fn bmp_rows(image: Bmp) -> Seq<Seq<bool>>;

/// The module rows that `QrCode::new` draws for some data, or `None` where it
/// refuses the data (too long for any QR version).
pub uninterp spec fn qr_encoding(data: Seq<u8>) -> Option<Seq<Seq<bool>>>;

/// The size of a monochrome BMP header: signature, file header, the 40-byte
/// information header and a palette of two colours.
pub open spec fn bmp_header_size() -> nat {
    62
}

/// The weight of pixel `i` of a row in its byte: `weight` where the pixel is
/// dark, else 0.
pub open spec fn pixel_bit(row: Seq<bool>, i: int, weight: int) -> int {
    if 0 <= i < row.len() && row[i] {
        weight
    } else {
        0
    }
}

/// Byte `k` of a row of pixels: eight pixels, the leftmost in the highest bit.
pub open spec fn bmp_row_byte(row: Seq<bool>, k: int) -> u8 {
    (pixel_bit(row, 8 * k, 128) + pixel_bit(row, 8 * k + 1, 64) + pixel_bit(row, 8 * k + 2, 32)
        + pixel_bit(row, 8 * k + 3, 16) + pixel_bit(row, 8 * k + 4, 8) + pixel_bit(row, 8 * k + 5, 4)
        + pixel_bit(row, 8 * k + 6, 2) + pixel_bit(row, 8 * k + 7, 1)) as u8
}

/// The bytes of a row of `width` pixels.
pub open spec fn bmp_bytes_per_row(width: nat) -> nat {
    (width + 7) / 8
}

/// The zero bytes that bring a row to a multiple of four bytes.
pub open spec fn bmp_row_padding(width: nat) -> nat {
    ((4 - bmp_bytes_per_row(width) % 4) % 4) as nat
}

/// A row as stored: its pixel bytes, then the padding.
pub open spec fn bmp_row(row: Seq<bool>, width: nat) -> Seq<u8> {
    Seq::new(bmp_bytes_per_row(width), |k: int| bmp_row_byte(row, k)) + Seq::new(
        bmp_row_padding(width),
        |k: int| 0u8,
    )
}

/// The pixel data: the rows from the bottom one up.
pub open spec fn bmp_pixel_data(rows: Seq<Seq<bool>>, width: nat) -> Seq<u8>
    decreases rows.len(),
{
    if rows.len() == 0 {
        Seq::empty()
    } else {
        bmp_row(rows.last(), width) + bmp_pixel_data(rows.drop_last(), width)
    }
}

/// The bytes of the monochrome BMP file that `Bmp::write` writes for some
/// pixel rows of equal length: the signature `BM`, the file size, two zero
/// fields, the pixel data offset, the information header (size 40, width,
/// height, one plane, one bit per pixel, no compression, data size, 512 by 512
/// resolution, two colours of which two are important), the palette (white,
/// then black), then the pixel data; numbers little-endian.
pub open spec fn bmp_file(rows: Seq<Seq<bool>>) -> Seq<u8> {
    let height = rows.len();
    let width = if rows.len() > 0 {
        rows[0].len()
    } else {
        0
    };
    let data_size = (bmp_bytes_per_row(width) + bmp_row_padding(width)) * height;
    seq![66u8, 77u8] + le_bytes(bmp_header_size() + data_size, 4) + le_bytes(0, 2) + le_bytes(0, 2)
        + le_bytes(bmp_header_size(), 4) + le_bytes(40, 4) + le_bytes(width, 4) + le_bytes(height, 4)
        + le_bytes(1, 2) + le_bytes(1, 2) + le_bytes(0, 4) + le_bytes(data_size, 4) + le_bytes(
        512,
        4,
    ) + le_bytes(512, 4) + le_bytes(2, 4) + le_bytes(2, 4) + le_bytes(0x00ff_ffff, 4) + le_bytes(
        0,
        4,
    ) + bmp_pixel_data(rows, width)
}

/// `QrCode::new`: encodes the data at error-correction level M in the
/// smallest QR version that holds it; the outcome depends on the data alone.
#[verifier::external_body]
fn qr_new(data: &[u8]) -> (r: Result<QrCode, QrError>)
    ensures
        match r {
            Ok(code) => qr_encoding(data@) == Some(qr_rows(code)),
            Err(_) => qr_encoding(data@) is None,
        },
{
    QrCode::new(data)
}

/// `QrCode::to_bmp`: a bitmap whose pixel rows are the code's module rows.
#[verifier::external_body]
fn qr_to_bmp(code: &QrCode) -> (r: Bmp)
    ensures
        bmp_rows(r) == qr_rows(*code),
{
    code.to_bmp()
}

/// `Bmp::write` into a byte vector: the file's bytes are appended. Writing
/// into a `Vec<u8>` cannot fail, and no write asks for more than 64 bits at
/// once (at most 24 padding bits), so the call succeeds.
#[verifier::external_body]
fn bmp_write(image: &Bmp, out: &mut Vec<u8>) -> (r: Result<(), BmpError>)
    ensures
        r is Ok,
        final(out)@ == old(out)@ + bmp_file(bmp_rows(*image)),
{
    image.write(out)
}

/// The `Debug` text of a `QrError` (`format!("{:?}", ..)`).
#[verifier::external_body]
pub(crate) fn qr_error_text(e: &QrError) -> String {
    format!("{:?}", e)
}

/// The `Debug` text of a `BmpError` (`format!("{:?}", ..)`).
#[verifier::external_body]
pub(crate) fn bmp_error_text(e: &BmpError) -> String {
    format!("{:?}", e)
}

/// Whether some bytes begin with the BMP signature `BM`.
pub open spec fn is_bmp_signed(bytes: Seq<u8>) -> bool {
    bytes.len() >= 2 && bytes[0] == 66 && bytes[1] == 77
}

/// The BMP image of the QR code for `link` (its UTF-8 bytes): a QR failure
/// exactly when the data cannot be encoded, otherwise the bitmap file.
pub fn gen(link: &str) -> (r: Result<Vec<u8>, WebServerError>)
    ensures
        qr_encoding(vstd::utf8::encode_utf8(link@)) is Some ==> r is Ok,
        match r {
            Ok(bytes) => qr_encoding(vstd::utf8::encode_utf8(link@)) matches Some(rows) && bytes@
                == bmp_file(rows) && is_bmp_signed(bytes@),
            Err(WebServerError::Qr(_)) => qr_encoding(vstd::utf8::encode_utf8(link@)) is None,
            Err(_) => false,
        },
{
    let code = match qr_new(link.as_bytes()) {
        Ok(code) => code,
        Err(e) => return Err(WebServerError::from(e)),
    };
    let image = qr_to_bmp(&code);
    let mut bytes: Vec<u8> = Vec::new();
    match bmp_write(&image, &mut bytes) {
        Ok(()) => {
            assert(bytes@ =~= bmp_file(qr_rows(code)));
            assert(bytes@[0] == 66 && bytes@[1] == 77);
            Ok(bytes)
        },
        Err(e) => Err(WebServerError::from(e)),
    }
}

} // verus!

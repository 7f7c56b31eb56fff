//! Clock access and human-readable time formatting.
use vstd::prelude::*;
use vstd::string::StringSliceAdditionalSpecFns;
use std::time::{Duration, SystemTime};
use crate::text::{decimal, into_string, push_decimal};
use qrcode::{Color, QrCode};

verus! {

#[verifier::external_type_specification]
#[verifier::external_body]
pub struct ExSystemTime(SystemTime);

/// Reads the system clock (`SystemTime::now`). Nothing is promised of the
/// reading: it depends on the machine's clock.
#[verifier::external_body]
fn clock_now() -> SystemTime {
    SystemTime::now()
}

/// The time elapsed from the Unix epoch to `t` (`SystemTime::duration_since`),
/// `None` when `t` lies before the epoch. Nothing more is stated: the reading
/// comes from the clock.
#[verifier::external_body]
fn since_epoch(t: &SystemTime) -> Option<Duration> {
    t.duration_since(std::time::UNIX_EPOCH).ok()
}

/// `Duration::as_secs`: the whole seconds of a span read off the clock.
#[verifier::external_body]
fn duration_secs(d: &Duration) -> u64 {
    d.as_secs()
}

/// `Duration::subsec_nanos`: the nanoseconds past the whole seconds of a span,
/// which std documents as always less than one billion.
#[verifier::external_body]
fn duration_subsec_nanos(d: &Duration) -> (n: u32)
    ensures
        n < 1_000_000_000,
{
    d.subsec_nanos()
}

/// A clock reading as the time since the Unix epoch, whole seconds and the
/// nanoseconds past them; `None` when the clock reads before the epoch.
pub open spec fn valid_reading(r: Option<(u64, u32)>) -> bool {
    r matches Some((_, nanos)) ==> nanos < 1_000_000_000
}

/// The whole milliseconds of a reading, 0 before the epoch.
pub open spec fn reading_millis(r: Option<(u64, u32)>) -> u128 {
    match r {
        Some((secs, nanos)) => (secs * 1000 + nanos / 1_000_000) as u128,
        None => 0,
    }
}

/// The whole seconds of a reading, 0 before the epoch.
pub open spec fn reading_secs(r: Option<(u64, u32)>) -> u64 {
    match r {
        Some((secs, _)) => secs,
        None => 0,
    }
}

/// Reads the clock as seconds and nanoseconds since the Unix epoch.
fn clock_reading() -> (r: Option<(u64, u32)>)
    ensures
        valid_reading(r),
{
    let t = clock_now();
    match since_epoch(&t) {
        Some(d) => Some((duration_secs(&d), duration_subsec_nanos(&d))),
        None => None,
    }
}

/// The whole milliseconds of a clock reading, 0 before the epoch.
pub fn millis_of_reading(r: Option<(u64, u32)>) -> (ms: u128)
    ensures
        ms == reading_millis(r),
{
    match r {
        Some((secs, nanos)) => secs as u128 * 1000 + (nanos / 1_000_000) as u128,
        None => 0,
    }
}

/// The whole seconds of a clock reading, 0 before the epoch.
pub fn secs_of_reading(r: Option<(u64, u32)>) -> (secs: u64)
    ensures
        secs == reading_secs(r),
{
    match r {
        Some((secs, _)) => secs,
        None => 0,
    }
}

/// On one reading, the seconds are the milliseconds divided by 1000.
pub proof fn lemma_secs_are_millis_over_1000(r: Option<(u64, u32)>)
    requires
        valid_reading(r),
    ensures
        reading_secs(r) == reading_millis(r) / 1000,
{
    if let Some((secs, nanos)) = r {
        assert((secs * 1000 + nanos / 1_000_000) / 1000 == secs) by (nonlinear_arith)
            requires
                nanos < 1_000_000_000,
        ;
    }
}

/// The current Unix time in milliseconds: the milliseconds of a clock reading
/// (0 when the clock reads before the epoch).
pub fn get_time() -> (ms: u128)
    ensures
        exists|r: Option<(u64, u32)>| valid_reading(r) && ms == #[trigger] reading_millis(r),
{
    let r = clock_reading();
    millis_of_reading(r)
}

/// The current Unix time in whole seconds: the seconds of a clock reading (0
/// when the clock reads before the epoch).
pub fn now() -> (secs: u64)
    ensures
        exists|r: Option<(u64, u32)>| valid_reading(r) && secs == #[trigger] reading_secs(r),
{
    let r = clock_reading();
    secs_of_reading(r)
}

/// `{h}h{m}m{s}s`, `{m}m{s}s` or `{s}s`, whichever is the largest unit present.
pub open spec fn time_text(time: nat) -> Seq<char> {
    if time / 3600 >= 1 {
        decimal(time / 3600) + seq!['h'] + decimal((time % 3600) / 60) + seq!['m']
            + decimal((time % 3600) % 60) + seq!['s']
    } else if time / 60 >= 1 {
        decimal(time / 60) + seq!['m'] + decimal(time % 60) + seq!['s']
    } else {
        decimal(time) + seq!['s']
    }
}

/// Formats a number of seconds as hours, minutes and seconds.
pub fn time_to_string(time: u32) -> (s: String)
    ensures
        s@ == time_text(time as nat),
{
    into_string(time_chars(time))
}

/// The characters of [`time_to_string`].
pub fn time_chars(time: u32) -> (v: Vec<char>)
    ensures
        v@ == time_text(time as nat),
{
    let hour: u32 = 3600;
    let min: u32 = 60;
    let mut out: Vec<char> = Vec::new();
    if time / hour >= 1 {
        push_decimal(&mut out, (time / hour) as u64);
        out.push('h');
        push_decimal(&mut out, ((time % hour) / min) as u64);
        out.push('m');
        push_decimal(&mut out, ((time % hour) % min) as u64);
        out.push('s');
    } else if time / min >= 1 {
        push_decimal(&mut out, (time / min) as u64);
        out.push('m');
        push_decimal(&mut out, (time % min) as u64);
        out.push('s');
    } else {
        push_decimal(&mut out, time as u64);
        out.push('s');
    }
    assert(out@ =~= time_text(time as nat));
    out
}


/// What `QrCode::new` makes of the data, read as the code's width and its
/// modules row by row, `true` for dark: `None` where it refuses the data (too
/// long for any QR code version).
pub uninterp spec fn qr_matrix(data: Seq<u8>) -> Option<(nat, Seq<bool>)>;

/// `QrCode::new` at its default (medium) error-correction level, read through
/// `QrCode::width` and `QrCode::to_colors`; named by [`qr_matrix`]. The source
/// picks a version from 1 to 40, whose width is `4 * version + 17`, and lays
/// the modules out on a `width * width` canvas.
#[verifier::external_body]
fn qr_modules(data: &[u8]) -> (r: Option<(usize, Vec<bool>)>)
    ensures
        match r {
            None => qr_matrix(data@) is None,
            Some((w, dark)) => {
                &&& qr_matrix(data@) == Some((w as nat, dark@))
                &&& 21 <= w <= 177
                &&& dark@.len() == w * w
            },
        },
{
    match QrCode::new(data) {
        Ok(code) => Some((code.width(), code.to_colors().into_iter().map(|c| c == Color::Dark).collect())),
        Err(_) => None,
    }
}

/// The PNG encoding of a square grey-scale image (`image::ImageBuffer` with
/// `Luma<u8>` pixels, written with `ImageFormat::Png`); `None` when the encoder fails.
pub uninterp spec fn png_gray(side: u32, pixels: Seq<u8>) -> Option<Seq<u8>>;

/// Encodes a `side` × `side` grey-scale image, pixels row by row, as PNG.
#[verifier::external_body]
fn encode_png_gray(side: u32, pixels: Vec<u8>) -> (r: Option<Vec<u8>>)
    requires
        pixels@.len() == side * side,
    ensures
        match r {
            Some(b) => png_gray(side, pixels@) == Some(b@),
            None => png_gray(side, pixels@) is None,
        },
{
    let image = image::ImageBuffer::<image::Luma<u8>, Vec<u8>>::from_raw(side, side, pixels)?;
    let mut buffer = std::io::Cursor::new(Vec::new());
    image.write_to(&mut buffer, image::ImageFormat::Png).ok()?;
    Some(buffer.into_inner())
}

/// The side, in pixels, of a rendered QR code: a 4-module quiet zone on each
/// side and 8 pixels per module.
pub open spec fn qr_side(width: nat) -> nat {
    (width + 8) * 8
}

/// The grey value of pixel (`x`, `y`): black on a dark module, white elsewhere.
pub open spec fn qr_pixel(width: nat, dark: Seq<bool>, x: nat, y: nat) -> u8 {
    let mx = x / 8;
    let my = y / 8;
    if 4 <= mx < width + 4 && 4 <= my < width + 4 && dark[(my - 4) * width + (mx - 4)] {
        0
    } else {
        255
    }
}

/// The pixels of a rendered QR code, row by row.
pub open spec fn qr_pixels(width: nat, dark: Seq<bool>) -> Seq<u8> {
    Seq::new(qr_side(width) * qr_side(width), |i: int| qr_pixel(width, dark, (i % qr_side(width) as int) as nat, (i / qr_side(width) as int) as nat))
}

/// Renders QR modules as black squares on white, with a quiet zone.
pub fn render_qr(width: usize, dark: &Vec<bool>) -> (pixels: Vec<u8>)
    requires
        1 <= width <= 177,
        dark@.len() == width * width,
    ensures
        pixels@ == qr_pixels(width as nat, dark@),
{
    let side: usize = (width + 8) * 8;
    let mut pixels: Vec<u8> = Vec::new();
    let mut y: usize = 0;
    while y < side
        invariant
            side == qr_side(width as nat),
            1 <= width <= 177,
            dark@.len() == width * width,
            y <= side,
            pixels@.len() == y * side,
            forall|i: int| 0 <= i < pixels@.len() ==> #[trigger] pixels@[i] == qr_pixels(width as nat, dark@)[i],
        decreases side - y,
    {
        let mut x: usize = 0;
        while x < side
            invariant
                side == qr_side(width as nat),
                1 <= width <= 177,
                dark@.len() == width * width,
                y < side,
                x <= side,
                pixels@.len() == y * side + x,
                forall|i: int| 0 <= i < pixels@.len() ==> #[trigger] pixels@[i] == qr_pixels(width as nat, dark@)[i],
            decreases side - x,
        {
            let mx = x / 8;
            let my = y / 8;
            let mut value: u8 = 255;
            if 4 <= mx && mx < width + 4 && 4 <= my && my < width + 4 {
                let row = my - 4;
                let col = mx - 4;
                assert(row * width + col < width * width) by (nonlinear_arith)
                    requires
                        row < width,
                        col < width,
                ;
                assert(width * width <= 177 * 177) by (nonlinear_arith)
                    requires
                        width <= 177,
                ;
                let idx = row * width + col;
                if dark[idx] {
                    value = 0;
                }
            }
            proof {
                let i = (y * side + x) as int;
                assert(i < side * side) by (nonlinear_arith)
                    requires
                        y < side,
                        x < side,
                        i == y * side + x,
                ;
                assert(i % side as int == x && i / side as int == y) by (nonlinear_arith)
                    requires
                        x < side,
                        i == y * side + x,
                ;
                assert(value == qr_pixel(width as nat, dark@, x as nat, y as nat));
            }
            pixels.push(value);
            x = x + 1;
        }
        assert(y * side + side == (y + 1) * side) by (nonlinear_arith);
        y = y + 1;
    }
    assert(pixels@ =~= qr_pixels(width as nat, dark@)) by {
        assert(y * side == side * side);
    }
    pixels
}

/// Why a QR code image could not be made.
#[derive(Debug, Clone, Copy, PartialEq, Eq, Structural)]
pub enum QrPngError {
    /// The data does not fit in a QR code.
    Encode,
    /// The PNG encoder failed.
    Png,
}

/// The PNG image of the QR code of `data` that [`qr_png`] makes, `None` where
/// the data does not fit in a QR code or the encoder fails.
pub open spec fn qr_png_image(data: Seq<u8>) -> Option<Seq<u8>> {
    match qr_matrix(data) {
        None => None,
        Some((w, dark)) => png_gray(qr_side(w) as u32, qr_pixels(w, dark)),
    }
}

/// Renders `data` as a scannable QR code PNG (black on white, with a quiet
/// zone of 4 modules, 8 pixels per module).
pub fn qr_png(data: &str) -> (r: Result<Vec<u8>, QrPngError>)
    ensures
        match qr_matrix(data.spec_bytes()) {
            None => r == Err::<Vec<u8>, QrPngError>(QrPngError::Encode),
            Some((w, dark)) => match png_gray(qr_side(w) as u32, qr_pixels(w, dark)) {
                Some(png) => r matches Ok(bytes) && bytes@ == png,
                None => r == Err::<Vec<u8>, QrPngError>(QrPngError::Png),
            },
        },
{
    let (width, dark) = match qr_modules(data.as_bytes()) {
        Some(m) => m,
        None => return Err(QrPngError::Encode),
    };
    let pixels = render_qr(width, &dark);
    let side: u32 = ((width + 8) * 8) as u32;
    assert(pixels@.len() == side * side) by (nonlinear_arith)
        requires
            pixels@.len() == qr_side(width as nat) * qr_side(width as nat),
            side == qr_side(width as nat),
    ;
    match encode_png_gray(side, pixels) {
        Some(png) => Ok(png),
        None => Err(QrPngError::Png),
    }
}

} // verus!

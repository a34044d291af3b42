//! Encoding of the link text into a square module matrix.
//!
//! The symbol encoding itself is the work of the `qrcodegen` crate; this
//! module declares the contracts relied on, and converts the encoder's
//! opaque code object into the library's own [`SymbolMatrix`], which the
//! renderer consumes.

use vstd::prelude::*;
use qrcodegen::QrCode;
use qrcodegen::QrCodeEcc;
use crate::raster::SymbolMatrix;

verus! {

#[verifier::external_type_specification]
#[verifier::external_body]
pub struct ExQrCode(QrCode);

/// The module grid a code object holds: row `y` of the grid is the row of
/// modules at vertical coordinate `y`, `true` for dark.
pub uninterp spec fn qr_grid(code: &QrCode) -> Seq<Seq<bool>>;

/// The module grid that encoding a given text at medium error correction
/// yields: the encoder is deterministic, so the grid depends on the text
/// alone.
pub uninterp spec fn qr_modules_of(text: Seq<char>) -> Seq<Seq<bool>>;

/// Whether a given text encodes at medium error correction: the encoder is
/// deterministic, so success too depends on the text alone, and fails only
/// for a text that fits no symbol version.
pub uninterp spec fn qr_encodes(text: Seq<char>) -> bool;

/// A well-formed module grid: square, with side length in [21, 177].
pub open spec fn grid_wf(g: Seq<Seq<bool>>) -> bool {
    &&& 21 <= g.len() <= 177
    &&& forall|i: int| 0 <= i < g.len() ==> (#[trigger] g[i]).len() == g.len()
}

/// Relies on qrcodegen::QrCode::encode_text at medium error correction: a
/// deterministic function of the text; on success the code holds a square
/// module grid whose side is `version * 4 + 17` for a version in [1, 40],
/// so in [21, 177]. Encoding fails only when the text fits no version.
#[verifier::external_body]
fn qr_encode(text: &str) -> (r: Option<QrCode>)
    ensures
        r is Some <==> qr_encodes(text@),
        r matches Some(code) ==> qr_grid(&code) == qr_modules_of(text@)
            && grid_wf(qr_grid(&code)),
{
    QrCode::encode_text(text, QrCodeEcc::Medium).ok()
}

/// Relies on qrcodegen::QrCode::size: the side length of the module grid.
#[verifier::external_body]
fn qr_size(code: &QrCode) -> (r: i32)
    ensures
        r as int == qr_grid(code).len(),
{
    code.size()
}

/// Relies on qrcodegen::QrCode::get_module: the module at (x, y), with
/// `true` for dark; the top left corner is (0, 0).
#[verifier::external_body]
fn qr_module(code: &QrCode, x: i32, y: i32) -> (r: bool)
    requires
        0 <= x < qr_grid(code).len(),
        0 <= y < qr_grid(code).len(),
    ensures
        r == qr_grid(code)[y as int][x as int],
{
    code.get_module(x, y)
}

/// Copies the encoder's module grid into the library's own matrix type.
fn to_matrix(code: &QrCode) -> (m: SymbolMatrix)
    requires
        grid_wf(qr_grid(code)),
    ensures
        m@ == qr_grid(code),
        m.wf(),
{
    let n_raw = qr_size(code);
    let n = n_raw as usize;
    let mut rows: Vec<Vec<bool>> = Vec::new();
    let mut y: usize = 0;
    while y < n
        invariant
            grid_wf(qr_grid(code)),
            n == qr_grid(code).len(),
            n == n_raw,
            y <= n,
            rows@.len() == y,
            forall|i: int| 0 <= i < y ==> (#[trigger] rows@[i])@ == qr_grid(code)[i],
        decreases n - y,
    {
        let mut row: Vec<bool> = Vec::new();
        let mut x: usize = 0;
        while x < n
            invariant
                grid_wf(qr_grid(code)),
                n == qr_grid(code).len(),
                n == n_raw,
                y < n,
                x <= n,
                row@.len() == x,
                forall|j: int| 0 <= j < x ==> row@[j] == qr_grid(code)[y as int][j],
            decreases n - x,
        {
            row.push(qr_module(code, x as i32, y as i32));
            x += 1;
        }
        proof {
            assert(row@ =~= qr_grid(code)[y as int]);
        }
        rows.push(row);
        y += 1;
    }
    let m = SymbolMatrix { modules: rows };
    proof {
        assert(m@ =~~= qr_grid(code));
    }
    m
}

/// Encodes the link text into a module matrix at medium error correction.
/// Encoding succeeds exactly when the text encodes at all — `None` means
/// the text fits no symbol version — and on success the matrix is exactly
/// the encoder's grid for this text: square, with side length in [21, 177].
pub fn encode_to_matrix(text: &str) -> (r: Option<SymbolMatrix>)
    ensures
        r is Some <==> qr_encodes(text@),
        r matches Some(m) ==> {
            &&& m@ == qr_modules_of(text@)
            &&& m.wf()
            &&& 21 <= m@.len() <= 177
        },
{
    match qr_encode(text) {
        Some(code) => Some(to_matrix(&code)),
        None => None,
    }
}

} // verus!

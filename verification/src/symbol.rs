//! The QR symbol of a text: a square grid of dark and light modules.

use qrcode::types::{Color, QrError};
use qrcode::QrCode;
use vstd::prelude::*;

verus! {

/// The widest symbol there is: version 40, with 177 modules on each side.
pub const MAX_SYMBOL_WIDTH: usize = 177;

/// A QR symbol, row by row from the top left; `true` is a dark module.
#[derive(Debug)]
pub struct QrMatrix {
    /// The number of modules on each side.
    pub width: usize,
    pub modules: Vec<bool>,
}

/// The mathematical value of a [`QrMatrix`].
pub ghost struct Symbol {
    pub width: nat,
    pub modules: Seq<bool>,
}

impl Symbol {
    /// A symbol is a square: it has `width` rows of `width` modules, at least
    /// one and at most [`MAX_SYMBOL_WIDTH`].
    pub open spec fn well_formed(self) -> bool {
        &&& 1 <= self.width <= MAX_SYMBOL_WIDTH
        &&& self.modules.len() == self.width * self.width
    }

    /// Whether the module in column `x` of row `y` is dark.
    pub open spec fn dark_at(self, x: int, y: int) -> bool
        recommends
            0 <= x < self.width,
            0 <= y < self.width,
    {
        self.modules[y * self.width + x]
    }
}

impl View for QrMatrix {
    type V = Symbol;

    open spec fn view(&self) -> Symbol {
        Symbol { width: self.width as nat, modules: self.modules@ }
    }
}

impl QrMatrix {
    /// See [`Symbol::well_formed`].
    pub open spec fn wf(&self) -> bool {
        self@.well_formed()
    }
}

/// `qrcode::types::QrError`: carried through, never looked into.
#[verifier::external_type_specification]
#[verifier::external_body]
pub struct ExQrError(QrError);

/// The symbol that `qrcode::QrCode::new` builds for a text, or `None` where
/// it reports that it cannot build one.
pub uninterp spec fn qr_symbol(content: Seq<char>) -> Option<Symbol>;

/// Calls `qrcode::QrCode::new` on the bytes of `content` and copies the
/// symbol's width and module colours out of the result.
///
/// Nothing is proved of this function. Its contract claims that the outcome
/// depends on `content` alone, and that a symbol which comes back is a
/// square of at most 177 modules a side: `QrCode::new` picks among the
/// versions 1 to 40, whose widths run from 21 to 177, and stores one colour
/// per module.
#[verifier::external_body]
fn build_symbol(content: &str) -> (r: Result<QrMatrix, QrError>)
    ensures
        match r {
            Ok(matrix) => qr_symbol(content@) == Some(matrix@) && matrix.wf(),
            Err(_) => qr_symbol(content@) is None,
        },
{
    match QrCode::new(content) {
        Ok(code) => Ok(QrMatrix {
            width: code.width(),
            modules: code.to_colors().into_iter().map(|c| match c {
                Color::Dark => true,
                Color::Light => false,
            }).collect(),
        }),
        Err(e) => Err(e),
    }
}

/// Builds the QR symbol of `content`, at the medium error-correction level
/// and in the smallest version that holds it.
///
/// Returns `None` where no symbol can hold `content`.
pub fn encode_qr(content: &str) -> (r: Option<QrMatrix>)
    ensures
        match r {
            Some(matrix) => qr_symbol(content@) == Some(matrix@) && matrix.wf(),
            None => qr_symbol(content@) is None,
        },
{
    match build_symbol(content) {
        Ok(matrix) => Some(matrix),
        Err(_) => None,
    }
}

} // verus!

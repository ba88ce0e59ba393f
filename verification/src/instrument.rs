//! Instrument metadata: a tradable symbol plus its trading parameters.

use vstd::prelude::*;

verus! {

/// A tradable symbol together with the exchange-specific trading metadata
/// callers need to place well-formed orders.
///
/// Prices and sizes are described by decimal precisions and an integer
/// number of minimal size units, so the metadata itself carries no
/// floating-point state.
pub struct Instrument {
    /// Identifier of the instrument, e.g. a symbol such as a currency pair.
    pub symbol: String,
    /// Number of decimal places accepted in a price.
    pub price_precision: u32,
    /// Number of decimal places accepted in an order size.
    pub size_precision: u32,
    /// Smallest accepted order size, in minimal size units.
    pub min_size: u64,
    /// Whether the instrument is currently open for trading. Exchanges mark
    /// instruments inactive rather than removing them.
    pub active: bool,
}

/// The mathematical value of an [`Instrument`].
pub struct InstrumentModel {
    /// Identifier of the instrument.
    pub symbol: Seq<char>,
    /// Number of decimal places accepted in a price.
    pub price_precision: u32,
    /// Number of decimal places accepted in an order size.
    pub size_precision: u32,
    /// Smallest accepted order size, in minimal size units.
    pub min_size: u64,
    /// Whether the instrument is currently open for trading.
    pub active: bool,
}

impl View for Instrument {
    type V = InstrumentModel;

    open spec fn view(&self) -> InstrumentModel {
        InstrumentModel {
            symbol: self.symbol@,
            price_precision: self.price_precision,
            size_precision: self.size_precision,
            min_size: self.min_size,
            active: self.active,
        }
    }
}

impl Clone for Instrument {
    /// A clone carries exactly the same metadata as the original.
    fn clone(&self) -> (r: Self)
        ensures
            r@ == self@,
    {
        Instrument {
            symbol: self.symbol.clone(),
            price_precision: self.price_precision,
            size_precision: self.size_precision,
            min_size: self.min_size,
            active: self.active,
        }
    }
}

} // verus!

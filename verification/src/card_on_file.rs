use vstd::prelude::*;

verus! {

/// A stored card, as the processor describes it: enough detail to show
/// the shopper which card is on file and to charge it again.
#[derive(Clone, Debug, PartialEq)]
pub struct CardOnFile {
    pub holder_name: String,
    pub issuer_country: String,
    /// The last four digits of the card number.
    pub card_summary: String,
    /// The expiry date on the card (M/yyyy).
    pub expiry_date: String,
    /// The card scheme, e.g. visa or mc.
    pub kind: String,
    pub recurring_detail_reference: String,
}

} // verus!

//! The alert that goes to the webhook when a new, higher bid appears.

use vstd::prelude::*;
use vstd::string::StringExecFns;
use crate::decimal::{decimal, push_decimal};

verus! {

/// The text of the alert for `bid`: the bid in decimal notation between a
/// fixed opening and a fixed ending, which holds the currency sign and the
/// mention of everyone.
pub open spec fn alert_text(bid: u16) -> Seq<char> {
    "New ask! "@ + decimal(bid as nat) + "£ @everyone"@
}

/// Writes the alert for `bid`.
pub fn alert_message(bid: u16) -> (text: String)
    ensures
        text@ == alert_text(bid),
{
    let mut text = String::from_str("New ask! ");
    push_decimal(&mut text, bid);
    text.append("£ @everyone");
    text
}

} // verus!

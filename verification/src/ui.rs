//! The decision rule behind the user-choice prompt.
//!
//! The prompt itself — printing the options and reading a line — belongs to
//! the presentation layer; what is decided here is which option a reply
//! selects. Replies are one-based; anything unparseable or out of range
//! falls back to the first option.

use vstd::prelude::*;

verus! {

/// The option selected by a reply: `Some(n)` is the one-based pick `n` if it
/// is in range, and anything else selects the first option.
pub open spec fn spec_selected_option(reply: Option<usize>, n_options: usize) -> usize {
    match reply {
        Some(n) => if 1 <= n <= n_options {
            (n - 1) as usize
        } else {
            0
        },
        None => 0,
    }
}

/// Resolves a prompt reply to the index of the chosen option. `reply` is the
/// number the user gave, if their line parsed as one; a missing or
/// out-of-range reply selects the first option.
pub fn selected_option(reply: Option<usize>, n_options: usize) -> (r: usize)
    ensures
        r == spec_selected_option(reply, n_options),
        n_options > 0 ==> r < n_options,
{
    match reply {
        Some(n) => if 1 <= n && n <= n_options {
            n - 1
        } else {
            0
        },
        None => 0,
    }
}

} // verus!

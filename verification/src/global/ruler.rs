//! The ruler over the hex dump.

use crate::app::App;
use crate::util::{hex_padded, to_hex_padded};
use vstd::prelude::*;
use vstd::string::StringExecFns;

verus! {

/// The numbers of the first `columns` columns, two digits each, with a
/// space between one and the next.
pub open spec fn column_numbers(columns: nat) -> Seq<char>
    decreases columns,
{
    if columns == 0 {
        Seq::empty()
    } else if columns == 1 {
        hex_padded(0, 2)
    } else {
        column_numbers((columns - 1) as nat) + " "@ + hex_padded((columns - 1) as nat, 2)
    }
}

/// The ruler over a hex dump of `columns` columns: the space of the offsets,
/// then the numbers of the columns.
pub open spec fn ruler_text(columns: nat) -> Seq<char> {
    "          "@ + column_numbers(columns)
}

/// The ruler over the hex dump.
pub fn ruler_draw(app: &App) -> (ruler: String)
    ensures
        ruler@ == ruler_text(app.config.hex_mode_bytes_per_line as nat),
{
    let columns = app.config.hex_mode_bytes_per_line;
    let mut numbers = String::new();
    let mut i: usize = 0;
    proof {
        assert(numbers@ =~= column_numbers(0));
    }
    while i < columns
        invariant
            i <= columns,
            numbers@ == column_numbers(i as nat),
        decreases columns - i,
    {
        if i > 0 {
            numbers.append(" ");
        }
        numbers.append(to_hex_padded(i, 2).as_str());
        i += 1;
        proof {
            assert(numbers@ =~= column_numbers(i as nat));
        }
    }
    let mut ruler = String::from_str("          ");
    ruler.append(numbers.as_str());
    ruler
}

} // verus!

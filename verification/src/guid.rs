//! The identifier codec: the engine's native unique identifier rendered as
//! the stable, human-legible string that addresses use.

use vstd::prelude::*;
use crate::text::{append_hex_fixed, hex_digits};

verus! {

/// The engine's native unique identifier, as plain values.
#[derive(Clone, Copy, Debug)]
pub struct Guid {
    pub data1: u32,
    pub data2: u16,
    pub data3: u16,
    pub data4: [u8; 8],
}

/// The canonical string form: five lower-case hexadecimal groups of
/// 8, 4, 4, 4 and 12 digits, separated by '-'.
pub open spec fn spec_guid_str(g: Guid) -> Seq<char> {
    hex_digits(g.data1 as int, 8) + seq!['-'] + hex_digits(g.data2 as int, 4) + seq!['-']
        + hex_digits(g.data3 as int, 4) + seq!['-'] + hex_digits(g.data4@[0] as int, 2)
        + hex_digits(g.data4@[1] as int, 2) + seq!['-'] + hex_digits(g.data4@[2] as int, 2)
        + hex_digits(g.data4@[3] as int, 2) + hex_digits(g.data4@[4] as int, 2) + hex_digits(
        g.data4@[5] as int,
        2,
    ) + hex_digits(g.data4@[6] as int, 2) + hex_digits(g.data4@[7] as int, 2)
}

/// Renders the identifier in its canonical string form.
pub fn guid_to_string(g: &Guid) -> (r: String)
    ensures
        r@ == spec_guid_str(*g),
{
    proof {
        reveal_strlit("-");
    }
    let mut s = String::new();
    append_hex_fixed(&mut s, g.data1 as u64, 8);
    s.append("-");
    append_hex_fixed(&mut s, g.data2 as u64, 4);
    s.append("-");
    append_hex_fixed(&mut s, g.data3 as u64, 4);
    s.append("-");
    append_hex_fixed(&mut s, g.data4[0] as u64, 2);
    append_hex_fixed(&mut s, g.data4[1] as u64, 2);
    s.append("-");
    append_hex_fixed(&mut s, g.data4[2] as u64, 2);
    append_hex_fixed(&mut s, g.data4[3] as u64, 2);
    append_hex_fixed(&mut s, g.data4[4] as u64, 2);
    append_hex_fixed(&mut s, g.data4[5] as u64, 2);
    append_hex_fixed(&mut s, g.data4[6] as u64, 2);
    append_hex_fixed(&mut s, g.data4[7] as u64, 2);
    proof {
        assert(s@ =~= spec_guid_str(*g));
    }
    s
}

} // verus!

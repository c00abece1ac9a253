//! Rendering of expense identifiers. An identifier is a 128-bit value;
//! its canonical text form is the usual hyphenated, lowercase hexadecimal
//! rendering of UUIDs: groups of 8, 4, 4, 4 and 12 digits, most
//! significant digit first.

use vstd::prelude::*;

verus! {

/// The sixteen lowercase hexadecimal digit characters.
pub open spec fn hex_digit(d: int) -> char {
    seq![
        '0',
        '1',
        '2',
        '3',
        '4',
        '5',
        '6',
        '7',
        '8',
        '9',
        'a',
        'b',
        'c',
        'd',
        'e',
        'f',
    ][d]
}

/// Hex digit `k` of `id`, counting from the most significant of the 32.
pub open spec fn nibble_of(id: u128, k: int) -> int {
    ((id >> (((31 - k) * 4) as u128)) & 0xf) as int
}

/// The digits `from .. from + len` of `id`, rendered in hexadecimal.
pub open spec fn hex_group(id: u128, from: int, len: int) -> Seq<char> {
    Seq::new(len as nat, |j: int| hex_digit(nibble_of(id, from + j)))
}

/// The canonical text form of an identifier:
/// `xxxxxxxx-xxxx-xxxx-xxxx-xxxxxxxxxxxx`, lowercase, most significant
/// digit first.
pub open spec fn uuid_display(id: u128) -> Seq<char> {
    hex_group(id, 0, 8) + "-"@ + hex_group(id, 8, 4) + "-"@ + hex_group(id, 12, 4) + "-"@
        + hex_group(id, 16, 4) + "-"@ + hex_group(id, 20, 12)
}

/// One hexadecimal digit as a string slice.
fn hex_to_str(d: u128) -> (r: &'static str)
    requires
        d < 16,
    ensures
        r@ == seq![hex_digit(d as int)],
{
    let r = match d {
        0 => "0",
        1 => "1",
        2 => "2",
        3 => "3",
        4 => "4",
        5 => "5",
        6 => "6",
        7 => "7",
        8 => "8",
        9 => "9",
        10 => "a",
        11 => "b",
        12 => "c",
        13 => "d",
        14 => "e",
        _ => "f",
    };
    proof {
        reveal_strlit("0");
        reveal_strlit("1");
        reveal_strlit("2");
        reveal_strlit("3");
        reveal_strlit("4");
        reveal_strlit("5");
        reveal_strlit("6");
        reveal_strlit("7");
        reveal_strlit("8");
        reveal_strlit("9");
        reveal_strlit("a");
        reveal_strlit("b");
        reveal_strlit("c");
        reveal_strlit("d");
        reveal_strlit("e");
        reveal_strlit("f");
        assert(r@ =~= seq![hex_digit(d as int)]);
    }
    r
}

/// Appends the hex digits `from .. from + len` of `id` to `s`.
fn append_hex_group(s: &mut String, id: u128, from: usize, len: usize)
    requires
        from + len <= 32,
    ensures
        final(s)@ == old(s)@ + hex_group(id, from as int, len as int),
{
    proof {
        assert(s@ =~= old(s)@ + hex_group(id, from as int, 0));
    }
    let mut j: usize = 0;
    while j < len
        invariant
            j <= len,
            from + len <= 32,
            s@ == old(s)@ + hex_group(id, from as int, j as int),
        decreases len - j,
    {
        let sh: u128 = ((31 - (from + j)) * 4) as u128;
        let nib: u128 = (id >> sh) & 0xf;
        assert((id >> sh) & 0xf < 16) by (bit_vector);
        s.append(hex_to_str(nib));
        proof {
            assert(s@ =~= old(s)@ + hex_group(id, from as int, (j + 1) as int));
        }
        j = j + 1;
    }
}

/// Renders `id` in its canonical text form, exactly as `uuid_display`
/// says.
pub fn uuid_string(id: u128) -> (r: String)
    ensures
        r@ == uuid_display(id),
{
    let mut s = String::new();
    append_hex_group(&mut s, id, 0, 8);
    s.append("-");
    append_hex_group(&mut s, id, 8, 4);
    s.append("-");
    append_hex_group(&mut s, id, 12, 4);
    s.append("-");
    append_hex_group(&mut s, id, 16, 4);
    s.append("-");
    append_hex_group(&mut s, id, 20, 12);
    proof {
        assert(s@ =~= uuid_display(id));
    }
    s
}

} // verus!

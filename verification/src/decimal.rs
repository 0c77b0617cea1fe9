//! Numbers written out in decimal, for frame numbers and the names of new colors.
use vstd::prelude::*;

verus! {

/// The decimal digit for `d`.
pub open spec fn digit_text(d: nat) -> Seq<char> {
    if d == 0 { "0"@ } else if d == 1 { "1"@ } else if d == 2 { "2"@ } else if d == 3 { "3"@ }
    else if d == 4 { "4"@ } else if d == 5 { "5"@ } else if d == 6 { "6"@ } else if d == 7 { "7"@ }
    else if d == 8 { "8"@ } else { "9"@ }
}

/// `n` in decimal, without leading zeros, as `Display` writes it.
pub open spec fn decimal(n: nat) -> Seq<char>
    decreases n,
{
    if n < 10 {
        digit_text(n)
    } else {
        decimal(n / 10) + digit_text(n % 10)
    }
}

fn digit(d: u64) -> (s: &'static str)
    requires
        d < 10,
    ensures
        s@ == digit_text(d as nat),
{
    if d == 0 { "0" } else if d == 1 { "1" } else if d == 2 { "2" } else if d == 3 { "3" }
    else if d == 4 { "4" } else if d == 5 { "5" } else if d == 6 { "6" } else if d == 7 { "7" }
    else if d == 8 { "8" } else { "9" }
}

/// Appends `n` in decimal to `out`.
pub fn push_decimal(out: &mut String, n: u64)
    ensures
        final(out)@ == old(out)@ + decimal(n as nat),
    decreases n,
{
    if n >= 10 {
        push_decimal(out, n / 10);
    }
    out.append(digit(n % 10));
    if n >= 10 {
        assert(decimal(n as nat) == decimal((n / 10) as nat) + digit_text((n % 10) as nat));
        assert(out@ =~= old(out)@ + decimal(n as nat));
    } else {
        assert(out@ =~= old(out)@ + decimal(n as nat));
    }
}

/// The label of the frame bar above column `column`: its frame number, counting from one.
pub fn frame_number_label(column: i32) -> (r: String)
    requires
        column >= 0,
    ensures
        r@ == decimal((column + 1) as nat),
{
    let mut r = String::new();
    push_decimal(&mut r, column as u64 + 1);
    assert(r@ =~= decimal((column + 1) as nat));
    r
}

/// The name given to a color created in a list of `n_colors` colors.
pub fn new_color_name(n_colors: usize) -> (r: String)
    requires
        n_colors < usize::MAX,
    ensures
        r@ == "Color "@ + decimal((n_colors + 1) as nat),
{
    let mut r = "Color ".to_owned();
    push_decimal(&mut r, n_colors as u64 + 1);
    r
}

} // verus!

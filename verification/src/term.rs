//! Terminal control sequences as verified string building.
//!
//! Every escape sequence the editor emits is specified here as a
//! `Seq<char>` and produced by an executable builder that appends to a
//! caller-supplied `String` sink.  The caller decides when the sink is
//! written to a real terminal.

use vstd::prelude::*;

verus! {

/// The decimal digit `d` (0 through 9) as a character.
pub open spec fn digit_char(d: nat) -> char {
    if d == 0 {
        '0'
    } else if d == 1 {
        '1'
    } else if d == 2 {
        '2'
    } else if d == 3 {
        '3'
    } else if d == 4 {
        '4'
    } else if d == 5 {
        '5'
    } else if d == 6 {
        '6'
    } else if d == 7 {
        '7'
    } else if d == 8 {
        '8'
    } else {
        '9'
    }
}

/// `n` written in decimal, most significant digit first, no sign and no
/// leading zeros (a lone `0` for zero).
pub open spec fn dec_digits(n: nat) -> Seq<char>
    decreases n,
{
    if n < 10 {
        seq![digit_char(n)]
    } else {
        dec_digits(n / 10).push(digit_char(n % 10))
    }
}

/// `CSI {row};{col}H`: place the caret on an absolute cell.
pub open spec fn csi_jump(row: nat, col: nat) -> Seq<char> {
    seq!['\u{1b}', '['] + dec_digits(row) + seq![';'] + dec_digits(col) + seq!['H']
}

/// `CSI ?25h` to show the caret, `CSI ?25l` to hide it.
pub open spec fn csi_visibility(visible: bool) -> Seq<char> {
    seq!['\u{1b}', '[', '?', '2', '5', if visible { 'h' } else { 'l' }]
}

/// `CSI {n} q`: select the caret glyph with DECSCUSR parameter `n`.
pub open spec fn csi_style_code(n: nat) -> Seq<char> {
    seq!['\u{1b}', '['] + dec_digits(n) + seq![' ', 'q']
}

/// `CSI 2J`: erase the whole visible frame.
pub open spec fn csi_erase() -> Seq<char> {
    seq!['\u{1b}', '[', '2', 'J']
}

/// Relies on `String::push`: appends the given character to the end of
/// the string.
#[verifier::external_body]
pub(crate) fn push_char(s: &mut String, c: char)
    ensures
        final(s)@ == old(s)@.push(c),
{
    s.push(c);
}

/// Appends `n` in decimal to `out`.
pub(crate) fn push_dec(out: &mut String, n: usize)
    ensures
        final(out)@ == old(out)@ + dec_digits(n as nat),
    decreases n,
{
    if n >= 10 {
        push_dec(out, n / 10);
    }
    let d: u8 = (n % 10) as u8;
    let c: char = match d {
        0 => '0',
        1 => '1',
        2 => '2',
        3 => '3',
        4 => '4',
        5 => '5',
        6 => '6',
        7 => '7',
        8 => '8',
        _ => '9',
    };
    assert(c == digit_char((n % 10) as nat));
    push_char(out, c);
    assert(out@ =~= old(out)@ + dec_digits(n as nat));
}

/// Appends `CSI {row};{col}H` to `out`.
pub(crate) fn push_jump(out: &mut String, row: usize, col: usize)
    ensures
        final(out)@ == old(out)@ + csi_jump(row as nat, col as nat),
{
    push_char(out, '\u{1b}');
    push_char(out, '[');
    push_dec(out, row);
    push_char(out, ';');
    push_dec(out, col);
    push_char(out, 'H');
    assert(out@ =~= old(out)@ + csi_jump(row as nat, col as nat));
}

/// Appends the show or hide sequence to `out`.
pub(crate) fn push_visibility(out: &mut String, visible: bool)
    ensures
        final(out)@ == old(out)@ + csi_visibility(visible),
{
    push_char(out, '\u{1b}');
    push_char(out, '[');
    push_char(out, '?');
    push_char(out, '2');
    push_char(out, '5');
    push_char(out, if visible { 'h' } else { 'l' });
    assert(out@ =~= old(out)@ + csi_visibility(visible));
}

/// Appends `CSI {n} q` to `out`.
pub(crate) fn push_style_code(out: &mut String, n: u8)
    ensures
        final(out)@ == old(out)@ + csi_style_code(n as nat),
{
    push_char(out, '\u{1b}');
    push_char(out, '[');
    push_dec(out, n as usize);
    push_char(out, ' ');
    push_char(out, 'q');
    assert(out@ =~= old(out)@ + csi_style_code(n as nat));
}

/// Appends `CSI 2J` to `out`.
pub(crate) fn push_erase(out: &mut String)
    ensures
        final(out)@ == old(out)@ + csi_erase(),
{
    push_char(out, '\u{1b}');
    push_char(out, '[');
    push_char(out, '2');
    push_char(out, 'J');
    assert(out@ =~= old(out)@ + csi_erase());
}

} // verus!

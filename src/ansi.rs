use vstd::prelude::*;

verus! {

/// The escape character that opens every control sequence.
pub const ESC: char = '\x1b';

/// The decimal digits of `n`, most significant first, without leading zeros.
pub open spec fn decimal(n: nat) -> Seq<char>
    decreases n,
{
    if n < 10 {
        seq![digit_char(n)]
    } else {
        decimal(n / 10).push(digit_char(n % 10))
    }
}

/// The character of a decimal digit.
pub open spec fn digit_char(d: nat) -> char {
    ((d + 48) as u32) as char
}

/// The sequence that clears the whole screen: `ESC [ 2 J`.
pub open spec fn clear_all_chars() -> Seq<char> {
    seq![ESC, '[', '2', 'J']
}

/// The sequence that puts the cursor at a zero-based column and row:
/// `ESC [ <row + 1> ; <column + 1> H`.
pub open spec fn move_to_chars(column: nat, row: nat) -> Seq<char> {
    seq![ESC, '['] + decimal(row + 1) + seq![';'] + decimal(column + 1) + seq!['H']
}

/// The sequence that puts the cursor at the top left corner.
pub open spec fn home_chars() -> Seq<char> {
    move_to_chars(0, 0)
}

/// The home sequence is `ESC [ 1 ; 1 H`.
pub proof fn lemma_home_chars()
    ensures
        home_chars() == seq![ESC, '[', '1', ';', '1', 'H'],
{
    assert(decimal(1) == seq!['1']);
    assert(home_chars() =~= seq![ESC, '[', '1', ';', '1', 'H']);
}

/// Relies on crossterm's `Clear(ClearType::All)` command, whose ANSI form is
/// the fixed string `ESC [ 2 J`.
#[verifier::external_body]
pub(crate) fn clear_all_sequence() -> (r: String)
    ensures
        r@ == clear_all_chars(),
{
    let mut s = String::new();
    let _ = crossterm::Command::write_ansi(
        &crossterm::terminal::Clear(crossterm::terminal::ClearType::All),
        &mut s,
    );
    s
}

/// Relies on crossterm's `MoveTo(column, row)` command, whose ANSI form is
/// `ESC [ <row + 1> ; <column + 1> H` in decimal. crossterm adds one to each
/// coordinate in `u16`, so neither may be `u16::MAX`.
#[verifier::external_body]
pub(crate) fn move_to_sequence(column: u16, row: u16) -> (r: String)
    requires
        column < u16::MAX,
        row < u16::MAX,
    ensures
        r@ == move_to_chars(column as nat, row as nat),
{
    let mut s = String::new();
    let _ = crossterm::Command::write_ansi(&crossterm::cursor::MoveTo(column, row), &mut s);
    s
}

} // verus!

//! Rendering of log-message text: decimal numbers, player labels, and the
//! fixed message shapes used by the game log.

use vstd::prelude::*;
use vstd::string::StringExecFns;
use crate::components::PlayerOrder;

verus! {

/// The decimal digit character for `d`.
pub open spec fn digit_char(d: int) -> char {
    if d == 0 {
        '0'
    } else if d == 1 {
        '1'
    } else if d == 2 {
        '2'
    } else if d == 3 {
        '3'
    } else if d == 4 {
        '4'
    } else if d == 5 {
        '5'
    } else if d == 6 {
        '6'
    } else if d == 7 {
        '7'
    } else if d == 8 {
        '8'
    } else {
        '9'
    }
}

/// The decimal rendering of `n`, most significant digit first.
pub open spec fn dec_seq(n: nat) -> Seq<char>
    decreases n,
{
    if n < 10 {
        seq![digit_char(n as int)]
    } else {
        dec_seq(n / 10).push(digit_char((n % 10) as int))
    }
}

fn digit_str(d: u32) -> (s: &'static str)
    requires
        d < 10,
    ensures
        s@ == seq![digit_char(d as int)],
{
    proof {
        reveal_strlit("0");
        reveal_strlit("1");
        reveal_strlit("2");
        reveal_strlit("3");
        reveal_strlit("4");
        reveal_strlit("5");
        reveal_strlit("6");
        reveal_strlit("7");
        reveal_strlit("8");
        reveal_strlit("9");
    }
    let s = match d {
        0 => "0",
        1 => "1",
        2 => "2",
        3 => "3",
        4 => "4",
        5 => "5",
        6 => "6",
        7 => "7",
        8 => "8",
        _ => "9",
    };
    proof {
        assert(s@ =~= seq![digit_char(d as int)]);
    }
    s
}

/// Decimal rendering of an unsigned number.
pub fn u32_string(n: u32) -> (s: String)
    ensures
        s@ == dec_seq(n as nat),
    decreases n,
{
    if n < 10 {
        String::from_str(digit_str(n))
    } else {
        let front = u32_string(n / 10);
        let s = front.concat(digit_str(n % 10));
        proof {
            assert(s@ =~= dec_seq((n / 10) as nat).push(digit_char((n % 10) as int)));
        }
        s
    }
}

/// The display label of an ownership tag.
pub open spec fn order_label(o: PlayerOrder) -> Seq<char> {
    match o {
        PlayerOrder::NoPlayer => "No Player"@,
        PlayerOrder::PlayerOne => "Player1"@,
        PlayerOrder::PlayerTwo => "Player2"@,
    }
}

pub fn order_name(o: PlayerOrder) -> (s: String)
    ensures
        s@ == order_label(o),
{
    match o {
        PlayerOrder::NoPlayer => String::from_str("No Player"),
        PlayerOrder::PlayerOne => String::from_str("Player1"),
        PlayerOrder::PlayerTwo => String::from_str("Player2"),
    }
}

/// The text `(x, y)` for a coordinate pair.
pub open spec fn coord_text(x: nat, y: nat) -> Seq<char> {
    "("@ + dec_seq(x) + ", "@ + dec_seq(y) + ")"@
}

pub fn coord_string(x: i32, y: i32) -> (s: String)
    requires
        x >= 0,
        y >= 0,
    ensures
        s@ == coord_text(x as nat, y as nat),
{
    let s = String::from_str("(")
        .concat(u32_string(x as u32).as_str())
        .concat(", ")
        .concat(u32_string(y as u32).as_str())
        .concat(")");
    s
}

/// The log line for a successful move.
pub open spec fn moved_text(x: nat, y: nat) -> Seq<char> {
    "Moved entity to "@ + coord_text(x, y)
}

pub fn moved_string(x: i32, y: i32) -> (s: String)
    requires
        x >= 0,
        y >= 0,
    ensures
        s@ == moved_text(x as nat, y as nat),
{
    String::from_str("Moved entity to ").concat(coord_string(x, y).as_str())
}

/// The log line for a successful claim.
pub open spec fn claimed_text(o: PlayerOrder, x: nat, y: nat) -> Seq<char> {
    order_label(o) + " has claimed a tile at "@ + coord_text(x, y)
}

pub fn claimed_string(o: PlayerOrder, x: i32, y: i32) -> (s: String)
    requires
        x >= 0,
        y >= 0,
    ensures
        s@ == claimed_text(o, x as nat, y as nat),
{
    order_name(o).concat(" has claimed a tile at ").concat(coord_string(x, y).as_str())
}

/// The log line for a successfully built fort.
pub open spec fn built_fort_text(o: PlayerOrder, x: nat, y: nat) -> Seq<char> {
    order_label(o) + " has built a fort at "@ + coord_text(x, y)
}

pub fn built_fort_string(o: PlayerOrder, x: i32, y: i32) -> (s: String)
    requires
        x >= 0,
        y >= 0,
    ensures
        s@ == built_fort_text(o, x as nat, y as nat),
{
    order_name(o).concat(" has built a fort at ").concat(coord_string(x, y).as_str())
}

/// The log line for a successfully built unit.
pub open spec fn built_unit_text(o: PlayerOrder, x: nat, y: nat) -> Seq<char> {
    order_label(o) + " has built a unit at "@ + coord_text(x, y)
}

pub fn built_unit_string(o: PlayerOrder, x: i32, y: i32) -> (s: String)
    requires
        x >= 0,
        y >= 0,
    ensures
        s@ == built_unit_text(o, x as nat, y as nat),
{
    order_name(o).concat(" has built a unit at ").concat(coord_string(x, y).as_str())
}

/// The name `Fort<n>` or `Unit<n>` given to a newly built entity.
pub open spec fn numbered_name(prefix: Seq<char>, n: nat) -> Seq<char> {
    prefix + dec_seq(n)
}

pub fn fort_name_string(n: u32) -> (s: String)
    ensures
        s@ == numbered_name("Fort"@, n as nat),
{
    String::from_str("Fort").concat(u32_string(n).as_str())
}

pub fn unit_name_string(n: u32) -> (s: String)
    ensures
        s@ == numbered_name("Unit"@, n as nat),
{
    String::from_str("Unit").concat(u32_string(n).as_str())
}

} // verus!

//! The menu's decision logic: what a line of user input means, as a
//! function of the (already trimmed and lowercased) line and the
//! number of guilds on offer. Reading the line and acting on the
//! choice stay outside the library.

use vstd::prelude::*;
use crate::text::{chars_eq, str_to_chars};

verus! {

/// What the user asked for.
#[derive(Debug, Clone, Copy, PartialEq, Eq, Structural)]
pub enum MenuChoice {
    /// Dump emotes and stickers from every guild.
    DumpAll,
    /// Print the guild list again.
    ShowList,
    /// Leave the menu.
    Quit,
    /// Dump one guild, given by its 1-based position in the list.
    DumpGuild(usize),
    /// Anything else: no action.
    Invalid,
}

/// Whether `c` is a decimal digit.
pub open spec fn is_digit(c: char) -> bool {
    c == '0' || c == '1' || c == '2' || c == '3' || c == '4' || c == '5' || c == '6' || c == '7'
        || c == '8' || c == '9'
}

/// The value of a decimal digit.
pub open spec fn digit_val(c: char) -> nat {
    if c == '0' {
        0
    } else if c == '1' {
        1
    } else if c == '2' {
        2
    } else if c == '3' {
        3
    } else if c == '4' {
        4
    } else if c == '5' {
        5
    } else if c == '6' {
        6
    } else if c == '7' {
        7
    } else if c == '8' {
        8
    } else {
        9
    }
}

/// Whether every character of `s` is a decimal digit.
pub open spec fn all_digits(s: Seq<char>) -> bool {
    forall|i: int| 0 <= i < s.len() ==> is_digit(#[trigger] s[i])
}

/// The number the digit string `s` denotes, most significant digit
/// first.
pub open spec fn digits_value(s: Seq<char>) -> nat
    decreases s.len(),
{
    if s.len() == 0 {
        0
    } else {
        digits_value(s.drop_last()) * 10 + digit_val(s.last())
    }
}

/// The digits of a number literal: an optional leading `+` is allowed,
/// as the standard library's integer parser allows it.
pub open spec fn index_digits(s: Seq<char>) -> Seq<char> {
    if s.len() > 0 && s[0] == '+' {
        s.subrange(1, s.len() as int)
    } else {
        s
    }
}

/// Whether `s` is a well-formed unsigned number literal.
pub open spec fn parses_as_number(s: Seq<char>) -> bool {
    index_digits(s).len() > 0 && all_digits(index_digits(s))
}

/// The value of a well-formed number literal.
pub open spec fn number_value(s: Seq<char>) -> nat {
    digits_value(index_digits(s))
}

/// The meaning of an input line: `a` dumps every guild, `r` reprints
/// the list, `q` quits, and a number `k` with `1 <= k <= n_guilds`
/// picks the guild at position `k`. Everything else, including numbers
/// out of range and numbers too large for the machine, does nothing.
pub open spec fn menu_choice_of(input: Seq<char>, n_guilds: usize) -> MenuChoice {
    if input == "a"@ {
        MenuChoice::DumpAll
    } else if input == "r"@ {
        MenuChoice::ShowList
    } else if input == "q"@ {
        MenuChoice::Quit
    } else if parses_as_number(input) && 1 <= number_value(input) && number_value(input)
        <= n_guilds {
        MenuChoice::DumpGuild(number_value(input) as usize)
    } else {
        MenuChoice::Invalid
    }
}

fn digit_of(c: char) -> (r: Option<u8>)
    ensures
        r matches Some(d) ==> is_digit(c) && d == digit_val(c),
        r is None ==> !is_digit(c),
{
    if c == '0' {
        Some(0)
    } else if c == '1' {
        Some(1)
    } else if c == '2' {
        Some(2)
    } else if c == '3' {
        Some(3)
    } else if c == '4' {
        Some(4)
    } else if c == '5' {
        Some(5)
    } else if c == '6' {
        Some(6)
    } else if c == '7' {
        Some(7)
    } else if c == '8' {
        Some(8)
    } else if c == '9' {
        Some(9)
    } else {
        None
    }
}

/// A digit string's value never shrinks as more digits are read.
proof fn lemma_digits_value_mono(s: Seq<char>, i: int)
    requires
        0 <= i <= s.len(),
    ensures
        digits_value(s.take(i)) <= digits_value(s),
    decreases s.len() - i,
{
    if i == s.len() {
        assert(s.take(i) =~= s);
    } else {
        assert(s.take(i + 1).drop_last() =~= s.take(i));
        assert(digits_value(s.take(i + 1)) == digits_value(s.take(i)) * 10 + digit_val(
            s.take(i + 1).last(),
        ));
        lemma_digits_value_mono(s, i + 1);
    }
}

/// Decides what the (trimmed, lowercased) input line asks for, for a
/// list of `n_guilds` guilds.
pub fn parse_menu_choice(input: &str, n_guilds: usize) -> (c: MenuChoice)
    ensures
        c == menu_choice_of(input@, n_guilds),
{
    let chars = str_to_chars(input);
    let a = str_to_chars("a");
    if chars_eq(&chars, &a) {
        return MenuChoice::DumpAll;
    }
    let r = str_to_chars("r");
    if chars_eq(&chars, &r) {
        return MenuChoice::ShowList;
    }
    let q = str_to_chars("q");
    if chars_eq(&chars, &q) {
        return MenuChoice::Quit;
    }
    let len = chars.len();
    let start: usize = if len > 0 && chars[0] == '+' {
        1
    } else {
        0
    };
    let ghost ds = index_digits(input@);
    proof {
        assert(ds =~= input@.subrange(start as int, len as int));
    }
    if start >= len {
        return MenuChoice::Invalid;
    }
    let mut acc: u128 = 0;
    for i in start..len
        invariant
            len == chars@.len(),
            chars@ == input@,
            start <= i <= len,
            ds == index_digits(input@),
            ds =~= input@.subrange(start as int, len as int),
            all_digits(ds.take(i - start)),
            acc == digits_value(ds.take(i - start)),
            acc <= n_guilds as u128,
            !(input@ == "a"@) && !(input@ == "r"@) && !(input@ == "q"@),
    {
        let c = chars[i];
        proof {
            assert(ds.take(i + 1 - start).drop_last() =~= ds.take(i - start));
            assert(ds.take(i + 1 - start).last() == ds[i - start]);
            assert(ds[i - start] == input@[i as int]);
        }
        match digit_of(c) {
            Some(d) => {
                acc = acc * 10 + (d as u128);
                if acc > n_guilds as u128 {
                    proof {
                        lemma_digits_value_mono(ds, i + 1 - start);
                    }
                    return MenuChoice::Invalid;
                }
            },
            None => {
                return MenuChoice::Invalid;
            },
        }
    }
    proof {
        assert(ds.take(len - start) =~= ds);
    }
    if acc == 0 {
        return MenuChoice::Invalid;
    }
    proof {
        assert(acc <= n_guilds as u128);
    }
    MenuChoice::DumpGuild(acc as usize)
}

} // verus!

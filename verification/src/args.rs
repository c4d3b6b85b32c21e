//! Reading a list of command-line arguments against a table of options.

use vstd::prelude::*;
use vstd::string::StringExecFns;
use crate::text::{
    chars_of, find, first_occurrence, same_text, slice_of, string_of, text_views,
};

verus! {

/// An option that a command takes.
#[derive(Debug, Clone, Copy, PartialEq, Eq)]
pub struct CliOption {
    /// The long form with its dashes, or the empty text.
    pub long: &'static str,
    /// The short form with its dash, or the empty text.
    pub short: &'static str,
    /// Does a value follow the option?
    pub takes_value: bool,
    /// How the option is named in messages.
    pub display: &'static str,
}

/// An argument as it was read.
#[derive(Debug, PartialEq)]
pub enum Arg {
    /// An option without a value, by its place in the table.
    Flag(usize),
    /// An option with its value.
    Value(usize, String),
    /// An argument that is no option.
    Positional(String),
}

/// An argument as it was read, by its characters.
pub enum Item {
    Flag(int),
    Value(int, Seq<char>),
    Positional(Seq<char>),
}

/// Why a list of arguments could not be read.
pub enum ScanError {
    /// An option that the table does not hold.
    Unexpected(Seq<char>),
    /// An option whose value is missing, by its place in the table.
    MissingValue(int),
    /// Help was asked for.
    Help,
}

/// Why the reading of a list of arguments stopped.
#[derive(Debug, Clone, Copy, PartialEq, Eq, Structural)]
pub enum ScanStop {
    /// At the argument at this place, which the table does not hold.
    Unexpected(usize),
    /// At the option at this place in the table, whose value is missing.
    MissingValue(usize),
    /// At a request for help.
    Help,
}

/// Does the argument ask for help?
pub open spec fn is_help(token: Seq<char>) -> bool {
    token == "--help"@ || token == "-h"@
}

/// Does the argument ask for help?
pub fn asks_help(token: &str) -> (b: bool)
    ensures
        b == is_help(token@),
{
    same_text(token, "--help") || same_text(token, "-h")
}

/// Does the argument look like an option? One that begins with a dash and
/// is longer than the dash.
pub open spec fn is_option_like(token: Seq<char>) -> bool {
    token.len() >= 2 && token[0] == '-'
}

/// Does the option go by this name?
pub open spec fn names(option: CliOption, token: Seq<char>) -> bool {
    token.len() > 0 && (token == option.long@ || token == option.short@)
}

/// The place of the first option of the table that goes by this name.
pub open spec fn lookup(table: Seq<CliOption>, token: Seq<char>) -> Option<int>
    decreases table.len(),
{
    if table.len() == 0 {
        None
    } else if names(table[0], token) {
        Some(0)
    } else {
        match lookup(table.skip(1), token) {
            Some(at) => Some(at + 1),
            None => None,
        }
    }
}

/// `items` after `item`, where there are items.
pub open spec fn after<E>(item: Item, items: Result<Seq<Item>, E>) -> Result<Seq<Item>, E> {
    match items {
        Ok(items) => Ok(seq![item] + items),
        Err(e) => Err(e),
    }
}

/// `items` after `prefix`, where there are items.
pub open spec fn after_all<E>(prefix: Seq<Item>, items: Result<Seq<Item>, E>) -> Result<
    Seq<Item>,
    E,
> {
    match items {
        Ok(items) => Ok(prefix + items),
        Err(e) => Err(e),
    }
}

/// The option that an argument names together with its value, and that
/// value: `--name=value` names the option `--name`, and `-n=value` and
/// `-nvalue` name the option `-n`.
pub open spec fn inline_option(table: Seq<CliOption>, token: Seq<char>) -> Option<(int, Seq<char>)> {
    if token.len() >= 2 && token[1] == '-' {
        match first_occurrence(token, seq!['=']) {
            None => None,
            Some(at) => match lookup(table, token.take(at)) {
                Some(option) => Some((option, token.skip(at + 1))),
                None => None,
            },
        }
    } else if token.len() > 2 {
        match lookup(table, token.take(2)) {
            Some(option) => Some(
                (
                    option,
                    if token[2] == '=' {
                        token.skip(3)
                    } else {
                        token.skip(2)
                    },
                ),
            ),
            None => None,
        }
    } else {
        None
    }
}

/// The arguments as read against a table, from left to right. An
/// argument that asks for help stops the reading, unless it stands as the
/// value of an option. Any other
/// argument that looks like an option must be in the table. Under its
/// whole text it takes the next argument as its value where the table
/// says so, whatever that argument looks like; or it names an option that
/// takes a value together with that value, as [`inline_option`] states.
/// Every other argument is positional.
pub open spec fn scan(table: Seq<CliOption>, tokens: Seq<Seq<char>>) -> Result<
    Seq<Item>,
    ScanError,
>
    decreases tokens.len(),
{
    if tokens.len() == 0 {
        Ok(Seq::empty())
    } else if !is_option_like(tokens[0]) {
        after(Item::Positional(tokens[0]), scan(table, tokens.skip(1)))
    } else if is_help(tokens[0]) {
        Err(ScanError::Help)
    } else {
        match lookup(table, tokens[0]) {
            None => match inline_option(table, tokens[0]) {
                Some((at, value)) => if table[at].takes_value {
                    after(Item::Value(at, value), scan(table, tokens.skip(1)))
                } else {
                    Err(ScanError::Unexpected(tokens[0]))
                },
                None => Err(ScanError::Unexpected(tokens[0])),
            },
            Some(at) => if !table[at].takes_value {
                after(Item::Flag(at), scan(table, tokens.skip(1)))
            } else if tokens.len() < 2 {
                Err(ScanError::MissingValue(at))
            } else {
                after(Item::Value(at, tokens[1]), scan(table, tokens.skip(2)))
            },
        }
    }
}

/// The characters of an argument.
pub open spec fn item_of(arg: Arg) -> Item {
    match arg {
        Arg::Flag(at) => Item::Flag(at as int),
        Arg::Value(at, value) => Item::Value(at as int, value@),
        Arg::Positional(value) => Item::Positional(value@),
    }
}

/// The characters of the arguments.
pub open spec fn items_of(args: Seq<Arg>) -> Seq<Item> {
    Seq::new(args.len(), |i: int| item_of(args[i]))
}

/// The characters of the raw arguments.
pub open spec fn tokens_of(args: Seq<&str>) -> Seq<Seq<char>> {
    Seq::new(args.len(), |i: int| args[i]@)
}

/// The values given to the option at `at`, in order.
pub open spec fn values(items: Seq<Item>, at: int) -> Seq<Seq<char>>
    decreases items.len(),
{
    if items.len() == 0 {
        Seq::empty()
    } else {
        let rest = values(items.drop_last(), at);
        match items.last() {
            Item::Value(k, value) => if k == at {
                rest.push(value)
            } else {
                rest
            },
            _ => rest,
        }
    }
}

/// How often the flag at `at` was given.
pub open spec fn flag_count(items: Seq<Item>, at: int) -> nat
    decreases items.len(),
{
    if items.len() == 0 {
        0
    } else {
        flag_count(items.drop_last(), at) + (if items.last() == Item::Flag(at) {
            1nat
        } else {
            0nat
        })
    }
}

/// The positional arguments, in order.
pub open spec fn positionals(items: Seq<Item>) -> Seq<Seq<char>>
    decreases items.len(),
{
    if items.len() == 0 {
        Seq::empty()
    } else {
        let rest = positionals(items.drop_last());
        match items.last() {
            Item::Positional(value) => rest.push(value),
            _ => rest,
        }
    }
}

/// Finds the option of the table that goes by the name `token`.
pub fn find_option(table: &Vec<CliOption>, token: &str) -> (r: Option<usize>)
    ensures
        match r {
            Some(at) => at < table@.len() && lookup(table@, token@) == Some(at as int),
            None => lookup(table@, token@) is None,
        },
{
    if token.unicode_len() == 0 {
        proof {
            lemma_lookup_empty(table@, token@);
        }
        return None;
    }
    let mut i: usize = 0;
    assert(table@.skip(0) =~= table@);
    while i < table.len()
        invariant
            i <= table@.len(),
            token@.len() > 0,
            lookup(table@, token@) == (match lookup(table@.skip(i as int), token@) {
                Some(at) => Some(at + i),
                None => None,
            }),
        decreases table@.len() - i,
    {
        assert(table@.skip(i as int).skip(1) =~= table@.skip(i + 1));
        if same_text(token, table[i].long) || same_text(token, table[i].short) {
            return Some(i);
        }
        i += 1;
    }
    None
}

proof fn lemma_lookup_empty(table: Seq<CliOption>, token: Seq<char>)
    requires
        token.len() == 0,
    ensures
        lookup(table, token) is None,
    decreases table.len(),
{
    if table.len() > 0 {
        lemma_lookup_empty(table.skip(1), token);
    }
}

/// Finds the option that an argument names together with its value.
pub fn find_inline(table: &Vec<CliOption>, token: &str) -> (r: Option<(usize, String)>)
    ensures
        match inline_option(table@, token@) {
            Some((at, value)) => r matches Some((found, text)) && found == at && found < table@.len()
                && text@ == value,
            None => r is None,
        },
{
    let chars = chars_of(token);
    let n: usize = chars.len();
    if n >= 2 && chars[1] == '-' {
        let mut sign: Vec<char> = Vec::new();
        sign.push('=');
        assert(sign@ =~= seq!['=']);
        let at = match find(&chars, &sign) {
            Some(at) => at,
            None => {
                return None;
            },
        };
        let name = slice_of(&chars, 0, at);
        assert(name@ =~= token@.take(at as int));
        match find_option(table, string_of(&name).as_str()) {
            Some(option) => {
                let value = slice_of(&chars, at + 1, n);
                assert(value@ =~= token@.skip(at + 1));
                Some((option, string_of(&value)))
            },
            None => None,
        }
    } else if n > 2 {
        let name = slice_of(&chars, 0, 2);
        assert(name@ =~= token@.take(2));
        match find_option(table, string_of(&name).as_str()) {
            Some(option) => {
                let from: usize = if chars[2] == '=' {
                    3
                } else {
                    2
                };
                let value = slice_of(&chars, from, n);
                assert(value@ =~= token@.skip(from as int));
                Some((option, string_of(&value)))
            },
            None => None,
        }
    } else {
        None
    }
}

/// Does the argument look like an option?
pub fn looks_like_option(token: &str) -> (b: bool)
    ensures
        b == is_option_like(token@),
{
    token.unicode_len() >= 2 && token.get_char(0) == '-'
}

/// Reads the arguments against the table.
pub(crate) fn scan_args(table: &Vec<CliOption>, tokens: &Vec<&str>, from: usize) -> (r: Result<
    Vec<Arg>,
    ScanStop,
>)
    requires
        from <= tokens@.len(),
    ensures
        match scan(table@, tokens_of(tokens@).skip(from as int)) {
            Ok(items) => r matches Ok(args) && items_of(args@) == items,
            Err(ScanError::Unexpected(token)) => r matches Err(ScanStop::Unexpected(at)) && at
                < tokens@.len() && tokens@[at as int]@ == token,
            Err(ScanError::MissingValue(option)) => r matches Err(ScanStop::MissingValue(o)) && o
                == option && o < table@.len(),
            Err(ScanError::Help) => r == Err::<Vec<Arg>, ScanStop>(ScanStop::Help),
        },
{
    let ghost all = tokens_of(tokens@);
    let mut args: Vec<Arg> = Vec::new();
    let mut i: usize = from;
    assert(items_of(args@) =~= Seq::<Item>::empty());
    assert(after_all(Seq::<Item>::empty(), scan(table@, all.skip(from as int))) == scan(
        table@,
        all.skip(from as int),
    )) by {
        let r = scan(table@, all.skip(from as int));
        if r is Ok {
            assert(Seq::<Item>::empty() + r->Ok_0 =~= r->Ok_0);
        }
    }
    while i < tokens.len()
        invariant
            from <= i <= tokens@.len(),
            all == tokens_of(tokens@),
            scan(table@, all.skip(from as int)) == after_all(
                items_of(args@),
                scan(table@, all.skip(i as int)),
            ),
        decreases tokens@.len() - i,
    {
        let ghost before = items_of(args@);
        let ghost rest = all.skip(i as int);
        assert(rest[0] == tokens@[i as int]@);
        assert(rest.skip(1) =~= all.skip(i + 1));
        let token: &str = tokens[i];
        if !looks_like_option(token) {
            args.push(Arg::Positional(String::from_str(token)));
            assert(items_of(args@) =~= before + seq![Item::Positional(rest[0])]);
            proof {
                lemma_after_all(before, Item::Positional(rest[0]), scan(table@, rest.skip(1)));
            }
            i += 1;
        } else if asks_help(token) {
            return Err(ScanStop::Help);
        } else {
            match find_option(table, token) {
                None => match find_inline(table, token) {
                    Some((at, value)) => {
                        if !table[at].takes_value {
                            return Err(ScanStop::Unexpected(i));
                        }
                        args.push(Arg::Value(at, value));
                        assert(items_of(args@) =~= before + seq![Item::Value(at as int, value@)]);
                        proof {
                            lemma_after_all(
                                before,
                                Item::Value(at as int, value@),
                                scan(table@, rest.skip(1)),
                            );
                        }
                        i += 1;
                    },
                    None => {
                        return Err(ScanStop::Unexpected(i));
                    },
                },
                Some(at) => {
                    if !table[at].takes_value {
                        args.push(Arg::Flag(at));
                        assert(items_of(args@) =~= before + seq![Item::Flag(at as int)]);
                        proof {
                            lemma_after_all(
                                before,
                                Item::Flag(at as int),
                                scan(table@, rest.skip(1)),
                            );
                        }
                        i += 1;
                    } else if tokens.len() - i < 2 {
                        return Err(ScanStop::MissingValue(at));
                    } else {
                        assert(rest[1] == tokens@[i + 1]@);
                        assert(rest.skip(2) =~= all.skip(i + 2));
                        args.push(Arg::Value(at, String::from_str(tokens[i + 1])));
                        assert(items_of(args@) =~= before + seq![
                            Item::Value(at as int, rest[1]),
                        ]);
                        proof {
                            lemma_after_all(
                                before,
                                Item::Value(at as int, rest[1]),
                                scan(table@, rest.skip(2)),
                            );
                        }
                        i += 2;
                    }
                },
            }
        }
    }
    assert(items_of(args@) + Seq::<Item>::empty() =~= items_of(args@));
    Ok(args)
}

proof fn lemma_after_all<E>(prefix: Seq<Item>, item: Item, items: Result<Seq<Item>, E>)
    ensures
        after_all(prefix, after(item, items)) == after_all(prefix + seq![item], items),
{
    if items is Ok {
        assert(prefix + (seq![item] + items->Ok_0) =~= (prefix + seq![item]) + items->Ok_0);
    }
}

/// The values given to the option at `at`, in order.
pub fn option_values(args: &Vec<Arg>, at: usize) -> (r: Vec<String>)
    ensures
        text_views(r@) == values(items_of(args@), at as int),
{
    let ghost items = items_of(args@);
    let mut r: Vec<String> = Vec::new();
    let mut i: usize = 0;
    assert(text_views(r@) =~= Seq::<Seq<char>>::empty());
    while i < args.len()
        invariant
            i <= args@.len(),
            items == items_of(args@),
            text_views(r@) == values(items.take(i as int), at as int),
        decreases args@.len() - i,
    {
        assert(items.take(i + 1).drop_last() =~= items.take(i as int));
        assert(items.take(i + 1).last() == item_of(args@[i as int]));
        let ghost before = text_views(r@);
        match &args[i] {
            Arg::Value(k, value) => {
                if *k == at {
                    r.push(value.clone());
                    assert(text_views(r@) =~= before.push(value@));
                }
            },
            _ => {},
        }
        i += 1;
    }
    assert(items.take(args@.len() as int) =~= items);
    r
}

/// How often the flag at `at` was given.
pub fn count_flag(args: &Vec<Arg>, at: usize) -> (n: usize)
    ensures
        n == flag_count(items_of(args@), at as int),
{
    let ghost items = items_of(args@);
    let mut n: usize = 0;
    let mut i: usize = 0;
    while i < args.len()
        invariant
            i <= args@.len(),
            n <= i,
            items == items_of(args@),
            n == flag_count(items.take(i as int), at as int),
        decreases args@.len() - i,
    {
        assert(items.take(i + 1).drop_last() =~= items.take(i as int));
        assert(items.take(i + 1).last() == item_of(args@[i as int]));
        match &args[i] {
            Arg::Flag(k) => {
                if *k == at {
                    n += 1;
                }
            },
            _ => {},
        }
        i += 1;
    }
    assert(items.take(args@.len() as int) =~= items);
    n
}

/// The positional arguments, in order.
pub fn positional_values(args: &Vec<Arg>) -> (r: Vec<String>)
    ensures
        text_views(r@) == positionals(items_of(args@)),
{
    let ghost items = items_of(args@);
    let mut r: Vec<String> = Vec::new();
    let mut i: usize = 0;
    assert(text_views(r@) =~= Seq::<Seq<char>>::empty());
    while i < args.len()
        invariant
            i <= args@.len(),
            items == items_of(args@),
            text_views(r@) == positionals(items.take(i as int)),
        decreases args@.len() - i,
    {
        assert(items.take(i + 1).drop_last() =~= items.take(i as int));
        assert(items.take(i + 1).last() == item_of(args@[i as int]));
        let ghost before = text_views(r@);
        match &args[i] {
            Arg::Positional(value) => {
                r.push(value.clone());
                assert(text_views(r@) =~= before.push(value@));
            },
            _ => {},
        }
        i += 1;
    }
    assert(items.take(args@.len() as int) =~= items);
    r
}

/// Is `c` a decimal digit?
pub open spec fn is_digit(c: char) -> bool {
    48 <= c as u32 <= 57
}

/// The number that a text of digits denotes.
pub open spec fn digits_value(s: Seq<char>) -> nat
    decreases s.len(),
{
    if s.len() == 0 {
        0
    } else {
        digits_value(s.drop_last()) * 10 + (s.last() as u32 - 48) as nat
    }
}

/// Is the text a number in plain digits, of at most eighteen of them?
pub open spec fn is_number(s: Seq<char>) -> bool {
    &&& 0 < s.len() <= 18
    &&& forall|i: int| 0 <= i < s.len() ==> is_digit(#[trigger] s[i])
}

/// How many points the text holds.
pub open spec fn points(s: Seq<char>) -> nat
    decreases s.len(),
{
    if s.len() == 0 {
        0
    } else {
        points(s.drop_last()) + (if s.last() == '.' {
            1nat
        } else {
            0nat
        })
    }
}

/// Is the text made of digits and points, with a digit among them and at
/// most one point?
pub open spec fn is_unsigned_decimal(s: Seq<char>) -> bool {
    &&& forall|i: int| 0 <= i < s.len() ==> is_digit(#[trigger] s[i]) || s[i] == '.'
    &&& exists|i: int| 0 <= i < s.len() && is_digit(#[trigger] s[i])
    &&& points(s) <= 1
}

/// Is the text a number in decimal notation: an optional minus sign, then
/// digits with at most one point among them?
pub open spec fn is_decimal(s: Seq<char>) -> bool {
    if s.len() > 0 && s[0] == '-' {
        is_unsigned_decimal(s.skip(1))
    } else {
        is_unsigned_decimal(s)
    }
}

/// Reads a number in plain digits.
pub fn parse_number(text: &str) -> (r: Option<u64>)
    ensures
        match r {
            Some(n) => is_number(text@) && n == digits_value(text@),
            None => !is_number(text@),
        },
{
    let chars = chars_of(text);
    let n: usize = chars.len();
    if n == 0 || n > 18 {
        return None;
    }
    let mut value: u64 = 0;
    let mut i: usize = 0;
    assert(chars@.take(0) =~= Seq::<char>::empty());
    while i < n
        invariant
            i <= n <= 18,
            n == chars@.len(),
            chars@ == text@,
            forall|j: int| 0 <= j < i ==> is_digit(#[trigger] chars@[j]),
            value == digits_value(chars@.take(i as int)),
            value < pow10(i as nat),
        decreases n - i,
    {
        let c: u32 = chars[i] as u32;
        if !(c >= 48 && c <= 57) {
            assert(!is_digit(chars@[i as int]));
            return None;
        }
        assert(chars@.take(i + 1).drop_last() =~= chars@.take(i as int));
        proof {
            lemma_pow10_bound(i as nat);
        }
        value = value * 10 + (c - 48) as u64;
        i += 1;
    }
    assert(chars@.take(n as int) =~= chars@);
    Some(value)
}

/// Ten to the power `n`.
pub open spec fn pow10(n: nat) -> nat
    decreases n,
{
    if n == 0 {
        1
    } else {
        10 * pow10((n - 1) as nat)
    }
}

proof fn lemma_pow10_bound(n: nat)
    requires
        n < 18,
    ensures
        pow10(n + 1) == 10 * pow10(n),
        pow10(n + 1) <= 1_000_000_000_000_000_000,
{
    reveal_with_fuel(pow10, 20);
}

/// Is the text a number in decimal notation?
pub fn check_decimal(text: &str) -> (b: bool)
    ensures
        b == is_decimal(text@),
{
    let chars = chars_of(text);
    let n: usize = chars.len();
    let body = if n > 0 && chars[0] == '-' {
        let body = slice_of(&chars, 1, n);
        assert(body@ =~= text@.skip(1));
        body
    } else {
        chars
    };
    let m: usize = body.len();
    let mut seen_digit: bool = false;
    let mut seen_points: usize = 0;
    let mut k: usize = 0;
    assert(body@.take(0) =~= Seq::<char>::empty());
    assert(is_decimal(text@) == is_unsigned_decimal(body@));
    while k < m
        invariant
            k <= m,
            m == body@.len(),
            is_decimal(text@) == is_unsigned_decimal(body@),
            seen_points <= k,
            seen_points == points(body@.take(k as int)),
            forall|j: int| 0 <= j < k ==> is_digit(#[trigger] body@[j]) || body@[j] == '.',
            seen_digit == exists|j: int| 0 <= j < k && is_digit(#[trigger] body@[j]),
        decreases m - k,
    {
        let c = body[k];
        let code: u32 = c as u32;
        assert(body@.take(k + 1).drop_last() =~= body@.take(k as int));
        if code >= 48 && code <= 57 {
            seen_digit = true;
        } else if c == '.' {
            seen_points += 1;
        } else {
            assert(!is_digit(body@[k as int]) && body@[k as int] != '.');
            return false;
        }
        k += 1;
    }
    assert(body@.take(m as int) =~= body@);
    seen_digit && seen_points <= 1
}

} // verus!

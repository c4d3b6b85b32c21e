//! The `list` command: the rows that it shows of aliases, of the catalog,
//! and of the model files in the hub cache.

use vstd::prelude::*;
use vstd::string::StringExecFns;
use crate::error::AppError;
use crate::objs::{
    is_repo_split, repo_of_dir, template_text, Alias, ChatTemplate, RemoteModel, Repo,
};
use crate::service::AppServiceFn;
use crate::text::{
    chars_of, decimal, digit, join, joined, push_all, push_decimal, same_text, slice_of,
    string_of, text_views,
};

verus! {

/// What to list.
#[derive(Debug, Clone, Copy, PartialEq, Eq, Structural)]
pub enum List {
    /// The aliases registered on this machine.
    Local,
    /// The models of the catalog.
    Remote,
    /// The model files of the hub cache.
    Models,
}

/// A count with its unit, or nothing for a count of zero; a unit that has
/// a plural takes an `s` behind a count above one.
pub open spec fn counted(count: nat, unit: Seq<char>, has_plural: bool) -> Seq<char> {
    if count == 0 {
        Seq::empty()
    } else if has_plural && count > 1 {
        decimal(count) + unit + "s"@
    } else {
        decimal(count) + unit
    }
}

/// `item` behind `so_far`, with a blank between them where both are there.
pub open spec fn then_item(so_far: Seq<char>, item: Seq<char>) -> Seq<char> {
    if item.len() == 0 {
        so_far
    } else if so_far.len() == 0 {
        item
    } else {
        so_far + " "@ + item
    }
}

/// What the duration formatter writes for a number of seconds: `0s` for
/// none; else the years of 365.25 days, the months of 30.44 days, the
/// days, hours, minutes and seconds that it holds, each with its unit,
/// those of zero left out, with blanks between them.
pub open spec fn humantime_text(seconds: u64) -> Seq<char> {
    if seconds == 0 {
        "0s"@
    } else {
        let years = (seconds / 31_557_600) as nat;
        let year_rest = (seconds % 31_557_600) as nat;
        let months = year_rest / 2_630_016;
        let month_rest = year_rest % 2_630_016;
        let days = month_rest / 86_400;
        let day_rest = month_rest % 86_400;
        let hours = day_rest / 3_600;
        let minutes = day_rest % 3_600 / 60;
        let rest = day_rest % 60;
        then_item(
            then_item(
                then_item(
                    then_item(
                        then_item(counted(years, "year"@, true), counted(months, "month"@, true)),
                        counted(days, "day"@, true),
                    ),
                    counted(hours, "h"@, false),
                ),
                counted(minutes, "m"@, false),
            ),
            counted(rest, "s"@, false),
        )
    }
}

/// What the regular-expression engine captures in `text` under the group
/// `group` of `pattern`, at the first match: `None` where the pattern is
/// malformed, does not match, or the group took no part.
pub uninterp spec fn regex_capture(pattern: Seq<char>, group: Seq<char>, text: Seq<char>) -> Option<
    Seq<char>,
>;

/// `humantime::format_duration` of a whole number of seconds, as text.
///
/// Trusted: the formatter writes the years, months, days, hours, minutes
/// and seconds of the duration as [`humantime_text`] states. This is how
/// version 2.4 of the formatter composes its text; its documentation
/// leaves the composition open to change.
#[verifier::external_body]
fn format_seconds(seconds: u64) -> (text: String)
    ensures
        text@ == humantime_text(seconds),
{
    humantime::format_duration(std::time::Duration::from_secs(seconds)).to_string()
}

/// `regex::Regex::new`, then `Regex::captures` and `Captures::name`: the
/// text of a named group at the first match.
///
/// Trusted: the outcome is the engine's, a function of the three texts
/// alone.
#[verifier::external_body]
fn capture(pattern: &str, group: &str, text: &str) -> (r: Option<String>)
    ensures
        r.deep_view() == regex_capture(pattern@, group@, text@),
{
    regex::Regex::new(pattern).ok()?.captures(text)?.name(group).map(|m| m.as_str().to_string())
}

/// The pattern that finds the variant in the name of a model file: what
/// stands between the last two dots before `gguf`.
pub open spec fn variant_pattern() -> Seq<char> {
    ".*\\.(?P<variant>[^\\.]*)\\.gguf"@
}

/// The variant of a model file, given what the pattern captured: the
/// capture, or the whole name where there is none.
pub open spec fn variant_of(file: Seq<char>, captured: Option<Seq<char>>) -> Seq<char> {
    match captured {
        Some(variant) => variant,
        None => file,
    }
}

/// The variant of a model file from what the pattern captured in its name.
pub fn variant_from(file: &str, captured: Option<String>) -> (r: String)
    ensures
        r@ == variant_of(file@, captured.deep_view()),
{
    match captured {
        Some(variant) => variant,
        None => String::from_str(file),
    }
}

/// The variant of a model file: `Q8_0` of `Meta-Llama-3-8B.Q8_0.gguf`.
pub fn variant(file: &str) -> (r: String)
    ensures
        r@ == variant_of(file@, regex_capture(variant_pattern(), "variant"@, file@)),
{
    variant_from(file, capture(".*\\.(?P<variant>[^\\.]*)\\.gguf", "variant", file))
}

/// The variants laid out in lines: a variant goes on the last line, after
/// a comma and a blank where the line holds one already, and a new line
/// is begun once the last has grown beyond twenty-four characters.
pub open spec fn wrapped(items: Seq<Seq<char>>) -> Seq<Seq<char>>
    decreases items.len(),
{
    if items.len() == 0 {
        seq![Seq::empty()]
    } else {
        let before = wrapped(items.drop_last());
        let lines = if before.last().len() > 24 {
            before.push(Seq::empty())
        } else {
            before
        };
        let line = if lines.last().len() > 0 {
            lines.last() + ", "@ + items.last()
        } else {
            items.last()
        };
        lines.drop_last().push(line)
    }
}

/// The cell that shows the variants of a model: their lines, each but the
/// last closed by a comma.
pub fn variants_cell(items: &Vec<String>) -> (cell: String)
    ensures
        cell@ == joined(wrapped(text_views(items@)), ",\n"@),
{
    let ghost all = text_views(items@);
    let mut lines: Vec<String> = Vec::new();
    lines.push(String::new());
    let mut i: usize = 0;
    assert(all.take(0) =~= Seq::<Seq<char>>::empty());
    assert(text_views(lines@) =~= wrapped(all.take(0)));
    while i < items.len()
        invariant
            i <= items@.len(),
            all == text_views(items@),
            lines@.len() >= 1,
            text_views(lines@) == wrapped(all.take(i as int)),
        decreases items@.len() - i,
    {
        assert(all.take(i + 1).drop_last() =~= all.take(i as int));
        assert(all.take(i + 1).last() == items@[i as int]@);
        let ghost before = text_views(lines@);
        assert(before.last() == lines@[lines@.len() - 1]@);
        if lines[lines.len() - 1].as_str().unicode_len() > 24 {
            lines.push(String::new());
            assert(text_views(lines@) =~= before.push(Seq::empty()));
        }
        let ghost open = text_views(lines@);
        assert(open.last() == lines@[lines@.len() - 1]@);
        let mut line = match lines.pop() {
            Some(line) => line,
            None => String::new(),
        };
        assert(text_views(lines@) =~= open.drop_last());
        if line.as_str().unicode_len() > 0 {
            line.append(", ");
        }
        line.append(items[i].as_str());
        let ghost closed = text_views(lines@);
        lines.push(line);
        assert(text_views(lines@) =~= closed.push(line@));
        i += 1;
    }
    assert(all.take(items@.len() as int) =~= all);
    join(&lines, ",\n")
}

/// The first place at which `c` stands in `s`, if it stands in `s`.
pub open spec fn first_index_of(s: Seq<char>, c: char) -> Option<int>
    decreases s.len(),
{
    if s.len() == 0 {
        None
    } else if s[0] == c {
        Some(0)
    } else {
        match first_index_of(s.skip(1), c) {
            Some(at) => Some(at + 1),
            None => None,
        }
    }
}

/// The first two words of a text whose words are separated by single
/// blanks: the text up to its second blank.
pub open spec fn two_words(text: Seq<char>) -> Seq<char> {
    match first_index_of(text, ' ') {
        None => text,
        Some(first) => match first_index_of(text.skip(first + 1), ' ') {
            None => text,
            Some(second) => text.take(first + 1 + second),
        },
    }
}

/// Finds the first place at or after `from` at which `c` stands in `s`.
pub fn find_from(s: &Vec<char>, c: char, from: usize) -> (r: Option<usize>)
    requires
        from <= s@.len(),
    ensures
        match r {
            Some(at) => from <= at < s@.len() && first_index_of(s@.skip(from as int), c) == Some(
                at - from,
            ),
            None => first_index_of(s@.skip(from as int), c) is None,
        },
{
    let n: usize = s.len();
    let mut i: usize = from;
    while i < n
        invariant
            from <= i <= n,
            n == s@.len(),
            first_index_of(s@.skip(from as int), c) == (match first_index_of(s@.skip(i as int), c) {
                Some(at) => Some(at + i - from),
                None => None,
            }),
        decreases n - i,
    {
        assert(s@.skip(i as int).skip(1) =~= s@.skip(i + 1));
        if s[i] == c {
            return Some(i);
        }
        i += 1;
    }
    None
}

/// How long ago a file was modified, in at most two units: `3days 1h`;
/// `Unknown` where the age is not known.
pub open spec fn modified_of(age: Option<u64>) -> Seq<char> {
    match age {
        Some(seconds) => two_words(humantime_text(seconds)),
        None => "Unknown"@,
    }
}

/// The first two words of a text.
pub fn first_two_words(text: &str) -> (r: String)
    ensures
        r@ == two_words(text@),
{
    let chars = chars_of(text);
    let first = match find_from(&chars, ' ', 0) {
        Some(first) => first,
        None => {
            assert(chars@.skip(0) =~= chars@);
            return String::from_str(text);
        },
    };
    assert(chars@.skip(0) =~= chars@);
    match find_from(&chars, ' ', first + 1) {
        Some(second) => {
            let head = slice_of(&chars, 0, second);
            assert(head@ =~= chars@.take(second as int));
            string_of(&head)
        },
        None => String::from_str(text),
    }
}

/// How long ago a file was modified, given its age in seconds.
pub fn modified(age: Option<u64>) -> (r: String)
    ensures
        r@ == modified_of(age),
{
    match age {
        Some(seconds) => {
            let text = format_seconds(seconds);
            first_two_words(text.as_str())
        },
        None => String::from_str("Unknown"),
    }
}

/// The size of a file in hundredths of a gibibyte, rounded to the nearest,
/// and an exact half to the even neighbour.
pub open spec fn size_hundredths(size: u64) -> nat {
    let whole = (size as nat * 100) / 0x4000_0000;
    let rest = (size as nat * 100) % 0x4000_0000;
    if rest > 0x2000_0000 || (rest == 0x2000_0000 && whole % 2 == 1) {
        whole + 1
    } else {
        whole
    }
}

/// The size of a file as it is shown: in GB with two decimals, or
/// `Unknown`.
pub open spec fn human_size_of(size: Option<u64>) -> Seq<char> {
    match size {
        Some(size) => {
            let h = size_hundredths(size);
            decimal(h / 100) + seq!['.', digit((h / 10) % 10), digit(h % 10)] + " GB"@
        },
        None => "Unknown"@,
    }
}

/// The size of a file as it is shown.
pub fn human_size(size: Option<u64>) -> (r: String)
    ensures
        r@ == human_size_of(size),
{
    match size {
        Some(size) => {
            let wide: u128 = (size as u128) * 100;
            let whole: u64 = (wide / 0x4000_0000) as u64;
            let rest: u64 = (wide % 0x4000_0000) as u64;
            let h: u64 = if rest > 0x2000_0000 || (rest == 0x2000_0000 && whole % 2 == 1) {
                whole + 1
            } else {
                whole
            };
            assert(h == size_hundredths(size));
            let mut out: Vec<char> = Vec::new();
            push_decimal(&mut out, h / 100);
            out.push('.');
            out.push((48u8 + ((h / 10) % 10) as u8) as char);
            out.push((48u8 + (h % 10) as u8) as char);
            let unit = chars_of(" GB");
            push_all(&mut out, &unit);
            assert(out@ =~= human_size_of(Some(size)));
            string_of(&out)
        },
        None => String::from_str("Unknown"),
    }
}

/// `s` as it is, or shortened to its two ends around `...` where it is
/// longer than `max_len`.
pub open spec fn truncated(s: Seq<char>, max_len: int) -> Seq<char> {
    if s.len() <= max_len {
        s
    } else {
        let half = max_len / 2 - 2;
        s.take(half) + "..."@ + s.skip(s.len() - half)
    }
}

/// Shortens a text to its two ends where it is longer than `max_len`.
pub fn truncate(s: &str, max_len: usize) -> (r: String)
    requires
        max_len >= 4,
    ensures
        r@ == truncated(s@, max_len as int),
{
    let chars = chars_of(s);
    let n: usize = chars.len();
    if n <= max_len {
        return String::from_str(s);
    }
    let half: usize = max_len / 2 - 2;
    let mut out = slice_of(&chars, 0, half);
    let dots = chars_of("...");
    push_all(&mut out, &dots);
    let tail = slice_of(&chars, n - half, n);
    push_all(&mut out, &tail);
    assert(out@ =~= truncated(s@, max_len as int));
    string_of(&out)
}

/// The cells of a catalog model: alias, family, repository, file,
/// features and chat template.
pub open spec fn remote_row_of(model: RemoteModel) -> Seq<Seq<char>> {
    seq![
        model.alias@,
        model.family@,
        model.repo@,
        model.filename@,
        joined(text_views(model.features@), ","@),
        template_text(model.chat_template),
    ]
}

/// The cells of an alias: alias, family, repository, file, features and
/// chat template.
pub open spec fn alias_row_of(alias: Alias) -> Seq<Seq<char>> {
    seq![
        alias.alias@,
        match alias.family {
            Some(family) => family@,
            None => Seq::empty(),
        },
        alias.repo@,
        alias.filename@,
        joined(text_views(alias.features@), ","@),
        template_text(alias.chat_template),
    ]
}

fn template_cell(template: &ChatTemplate) -> (r: String)
    ensures
        r@ == template_text(*template),
{
    match template {
        ChatTemplate::Id(id) => String::from_str(id.as_str()),
        ChatTemplate::Repo(repo) => repo.to_string(),
    }
}

/// The cells of a catalog model.
pub fn remote_row(model: &RemoteModel) -> (row: Vec<String>)
    ensures
        text_views(row@) == remote_row_of(*model),
{
    let mut row: Vec<String> = Vec::new();
    row.push(model.alias.clone());
    row.push(model.family.clone());
    row.push(model.repo.to_string());
    row.push(model.filename.clone());
    row.push(join(&model.features, ","));
    row.push(template_cell(&model.chat_template));
    assert(text_views(row@) =~= remote_row_of(*model));
    row
}

/// The cells of an alias.
pub fn alias_row(alias: &Alias) -> (row: Vec<String>)
    ensures
        text_views(row@) == alias_row_of(*alias),
{
    let mut row: Vec<String> = Vec::new();
    row.push(alias.alias.clone());
    row.push(
        match &alias.family {
            Some(family) => family.clone(),
            None => String::new(),
        },
    );
    row.push(alias.repo.to_string());
    row.push(alias.filename.clone());
    row.push(join(&alias.features, ","));
    row.push(template_cell(&alias.chat_template));
    assert(text_views(row@) =~= alias_row_of(*alias));
    row
}

/// A model file of the hub cache with what is shown of it; `age` is the
/// time since it was last modified, in seconds, where that is known.
#[derive(Debug, Clone, PartialEq)]
pub struct LocalModel {
    pub name: String,
    pub repo: String,
    pub path: String,
    pub sha: String,
    pub size: Option<u64>,
    pub age: Option<u64>,
}

/// The model that a directory of the hub cache holds: named by the
/// repository's name, under the repository's owner, with the directory
/// as its path.
pub fn local_model(dir: &str, sha: String, size: Option<u64>, age: Option<u64>) -> (r: Option<
    LocalModel,
>)
    ensures
        match repo_of_dir(dir@) {
            Some(repo) => r matches Some(model) && model.path@ == dir@ && model.sha == sha
                && model.size == size && model.age == age && exists|slash: int|
                is_repo_split(repo, slash) && model.repo@ == repo.take(slash) && model.name@
                    == repo.skip(slash + 1),
            None => r is None,
        },
{
    match Repo::from_cache_dir(dir) {
        Some(repo) => {
            let (owner, name) = repo.parts();
            Some(
                LocalModel { name, repo: owner, path: String::from_str(dir), sha, size, age },
            )
        },
        None => None,
    }
}

/// The first eight characters of a text, or all of it where it is shorter.
pub open spec fn short_sha(sha: Seq<char>) -> Seq<char> {
    if sha.len() <= 8 {
        sha
    } else {
        sha.take(8)
    }
}

/// The cells of a model file: name, repository, the head of its hash, its
/// size, and how long ago it was modified.
pub open spec fn local_row_of(model: LocalModel) -> Seq<Seq<char>> {
    seq![
        model.name@,
        model.repo@,
        short_sha(model.sha@),
        human_size_of(model.size),
        modified_of(model.age),
    ]
}

fn shorten(sha: &String) -> (r: String)
    ensures
        r@ == short_sha(sha@),
{
    let chars = chars_of(sha.as_str());
    if chars.len() <= 8 {
        sha.clone()
    } else {
        let head = slice_of(&chars, 0, 8);
        assert(head@ =~= sha@.take(8));
        string_of(&head)
    }
}

/// The cells of a model file.
pub fn local_model_row(model: &LocalModel) -> (row: Vec<String>)
    ensures
        text_views(row@) == local_row_of(*model),
{
    let mut row: Vec<String> = Vec::new();
    row.push(model.name.clone());
    row.push(model.repo.clone());
    row.push(shorten(&model.sha));
    row.push(human_size(model.size));
    row.push(modified(model.age));
    assert(text_views(row@) =~= local_row_of(*model));
    row
}

/// The place of the first model that goes by the alias `id`.
pub open spec fn remote_index(models: Seq<RemoteModel>, id: Seq<char>) -> Option<int>
    decreases models.len(),
{
    if models.len() == 0 {
        None
    } else if models[0].alias@ == id {
        Some(0)
    } else {
        match remote_index(models.skip(1), id) {
            Some(at) => Some(at + 1),
            None => None,
        }
    }
}

/// The first of the models that goes by the alias `id`.
pub fn _find_remote_model(models: Vec<RemoteModel>, id: &str) -> (r: Option<RemoteModel>)
    ensures
        match remote_index(models@, id@) {
            Some(at) => r == Some(models@[at]),
            None => r is None,
        },
{
    let mut candidates = models;
    let mut at: usize = 0;
    assert(models@.skip(0) =~= models@);
    while at < candidates.len()
        invariant
            at <= models@.len(),
            candidates@ == models@,
            remote_index(models@, id@) == (match remote_index(models@.skip(at as int), id@) {
                Some(k) => Some(k + at),
                None => None,
            }),
        decreases models@.len() - at,
    {
        assert(models@.skip(at as int).skip(1) =~= models@.skip(at + 1));
        assert(models@.skip(at as int)[0] == models@[at as int]);
        if same_text(candidates[at].alias.as_str(), id) {
            return Some(candidates.swap_remove(at));
        }
        at += 1;
    }
    None
}

/// The headings of a listing.
pub open spec fn header_of(list: List) -> Seq<Seq<char>> {
    match list {
        List::Local => seq![
            "ALIAS"@,
            "FAMILY"@,
            "REPO"@,
            "FILENAME"@,
            "FEATURES"@,
            "CHAT TEMPLATE"@,
        ],
        List::Remote => seq![
            "ALIAS"@,
            "FAMILY"@,
            "REPO"@,
            "FILENAME"@,
            "FEATURES"@,
            "CHAT TEMPLATE"@,
        ],
        List::Models => seq!["NAME"@, "REPO ID"@, "SHA"@, "SIZE"@, "MODIFIED"@],
    }
}

fn header(list: List) -> (row: Vec<String>)
    ensures
        text_views(row@) == header_of(list),
{
    let mut row: Vec<String> = Vec::new();
    match list {
        List::Models => {
            row.push(String::from_str("NAME"));
            row.push(String::from_str("REPO ID"));
            row.push(String::from_str("SHA"));
            row.push(String::from_str("SIZE"));
            row.push(String::from_str("MODIFIED"));
        },
        _ => {
            row.push(String::from_str("ALIAS"));
            row.push(String::from_str("FAMILY"));
            row.push(String::from_str("REPO"));
            row.push(String::from_str("FILENAME"));
            row.push(String::from_str("FEATURES"));
            row.push(String::from_str("CHAT TEMPLATE"));
        },
    }
    assert(text_views(row@) =~= header_of(list));
    row
}

/// The cells of each row of a table.
pub open spec fn table_views(table: Seq<Vec<String>>) -> Seq<Seq<Seq<char>>> {
    Seq::new(table.len(), |i: int| text_views(table[i]@))
}

/// The table of the local aliases: the headings, then a row for each
/// alias, in order.
pub open spec fn alias_table_of(aliases: Seq<Alias>) -> Seq<Seq<Seq<char>>> {
    seq![header_of(List::Local)] + Seq::new(aliases.len(), |i: int| alias_row_of(aliases[i]))
}

/// The table of the catalog: the headings, then a row for each model, in
/// order.
pub open spec fn remote_table_of(models: Seq<RemoteModel>) -> Seq<Seq<Seq<char>>> {
    seq![header_of(List::Remote)] + Seq::new(models.len(), |i: int| remote_row_of(models[i]))
}

/// The table of the models in the hub cache: the headings, then a row
/// for each model, in order.
pub open spec fn model_table_of(files: Seq<LocalModel>) -> Seq<Seq<Seq<char>>> {
    seq![header_of(List::Models)] + Seq::new(files.len(), |i: int| local_row_of(files[i]))
}

/// The table under `head` with one row for each item, in order, where
/// `row` makes of each item the cells that `row_of` states.
fn table_of<T, F: Fn(&T) -> Vec<String>>(
    head: Vec<String>,
    items: &Vec<T>,
    row: F,
    Ghost(row_of): Ghost<spec_fn(T) -> Seq<Seq<char>>>,
) -> (table: Vec<Vec<String>>)
    requires
        forall|item: &T| #[trigger] call_requires(row, (item,)),
        forall|item: &T, cells: Vec<String>| #[trigger]
            call_ensures(row, (item,), cells) ==> text_views(cells@) == row_of(*item),
    ensures
        table_views(table@) == seq![text_views(head@)] + Seq::new(
            items@.len(),
            |i: int| row_of(items@[i]),
        ),
{
    let ghost heading = text_views(head@);
    let mut table: Vec<Vec<String>> = Vec::new();
    table.push(head);
    let mut i: usize = 0;
    while i < items.len()
        invariant
            i <= items@.len(),
            table@.len() == i + 1,
            text_views(table@[0]@) == heading,
            forall|item: &T| #[trigger] call_requires(row, (item,)),
            forall|item: &T, cells: Vec<String>| #[trigger]
                call_ensures(row, (item,), cells) ==> text_views(cells@) == row_of(*item),
            forall|k: int| 0 <= k < i ==> text_views((#[trigger] table@[k + 1])@) == row_of(
                items@[k],
            ),
        decreases items@.len() - i,
    {
        table.push(row(&items[i]));
        i += 1;
    }
    let ghost expected = seq![heading] + Seq::new(items@.len(), |i: int| row_of(items@[i]));
    assert(table_views(table@) =~= expected) by {
        assert forall|j: int| 0 <= j < table@.len() implies table_views(table@)[j] == expected[j] by {
            if j > 0 {
                assert(text_views(table@[(j - 1) + 1]@) == row_of(items@[j - 1]));
            }
        }
    }
    table
}

/// The table of the local aliases.
pub fn alias_table(aliases: &Vec<Alias>) -> (table: Vec<Vec<String>>)
    ensures
        table_views(table@) == alias_table_of(aliases@),
{
    let table = table_of(
        header(List::Local),
        aliases,
        alias_row,
        Ghost(|alias: Alias| alias_row_of(alias)),
    );
    assert(table_views(table@) =~= alias_table_of(aliases@));
    table
}

/// The table of the catalog.
pub fn remote_table(models: &Vec<RemoteModel>) -> (table: Vec<Vec<String>>)
    ensures
        table_views(table@) == remote_table_of(models@),
{
    let table = table_of(
        header(List::Remote),
        models,
        remote_row,
        Ghost(|model: RemoteModel| remote_row_of(model)),
    );
    assert(table_views(table@) =~= remote_table_of(models@));
    table
}

/// The table of the models in the hub cache.
pub fn model_table(files: &Vec<LocalModel>) -> (table: Vec<Vec<String>>)
    ensures
        table_views(table@) == model_table_of(files@),
{
    let table = table_of(
        header(List::Models),
        files,
        local_model_row,
        Ghost(|model: LocalModel| local_row_of(model)),
    );
    assert(table_views(table@) =~= model_table_of(files@));
    table
}

impl List {
    /// What to list: the catalog for `remote`, the model files for
    /// `models`, the local aliases for neither. The two exclude each other.
    pub fn new(remote: bool, models: bool) -> (list: Self)
        requires
            !(remote && models),
        ensures
            list == (if remote {
                List::Remote
            } else if models {
                List::Models
            } else {
                List::Local
            }),
    {
        if remote {
            List::Remote
        } else if models {
            List::Models
        } else {
            List::Local
        }
    }

    /// The table of the listing, of what `service` lists: as
    /// [`alias_table`], [`remote_table`] or [`model_table`] states it. An
    /// error of `service` ends the command with that error; the model
    /// files are always listed.
    pub fn execute<S: AppServiceFn>(self, service: &S) -> (r: Result<Vec<Vec<String>>, AppError>)
        ensures
            r matches Ok(table) ==> match self {
                List::Local => exists|aliases: Seq<Alias>|
                    table_views(table@) == alias_table_of(aliases),
                List::Remote => exists|models: Seq<RemoteModel>|
                    table_views(table@) == remote_table_of(models),
                List::Models => exists|files: Seq<LocalModel>|
                    table_views(table@) == model_table_of(files),
            },
            self == List::Models ==> r is Ok,
    {
        match self {
            List::Local => match service.list_aliases() {
                Ok(aliases) => Ok(alias_table(&aliases)),
                Err(e) => Err(e),
            },
            List::Remote => match service.list_remote_models() {
                Ok(models) => Ok(remote_table(&models)),
                Err(e) => Err(e),
            },
            List::Models => Ok(model_table(&service.list_local_models())),
        }
    }
}

} // verus!

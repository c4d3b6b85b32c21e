//! The request that the engine takes for a prepared completion, as JSON
//! text.

use vstd::prelude::*;
use vstd::string::StringExecFns;
use crate::args::{check_decimal, is_decimal};
use crate::chat::PreparedCompletion;
use crate::cli::{int_text, int_to_text};
use crate::error::{json_quoted, json_string};
use crate::objs::ResponseFormat;
use crate::text::{
    chars_of, find, first_occurrence, join, joined, push_all, slice_of, string_of, text_views,
};

verus! {

/// The digits without the zeros that lead them, and `0` for none.
pub open spec fn without_leading_zeros(digits: Seq<char>) -> Seq<char>
    decreases digits.len(),
{
    if digits.len() == 0 {
        seq!['0']
    } else if digits.len() > 1 && digits[0] == '0' {
        without_leading_zeros(digits.skip(1))
    } else {
        digits
    }
}

/// A number in decimal notation as JSON writes it: its sign, the digits
/// before the point without leading zeros, and the point with the digits
/// behind it, where there are any. A text that is no number is `null`.
pub open spec fn json_number(text: Seq<char>) -> Seq<char> {
    if !is_decimal(text) {
        "null"@
    } else {
        let negative = text.len() > 0 && text[0] == '-';
        let body = if negative {
            text.skip(1)
        } else {
            text
        };
        let (whole, fraction) = match first_occurrence(body, seq!['.']) {
            Some(at) => (body.take(at), body.skip(at + 1)),
            None => (body, Seq::empty()),
        };
        (if negative {
            seq!['-']
        } else {
            Seq::empty()
        }) + without_leading_zeros(whole) + (if fraction.len() > 0 {
            seq!['.'] + fraction
        } else {
            Seq::empty()
        })
    }
}

fn strip_zeros(digits: &Vec<char>) -> (r: Vec<char>)
    ensures
        r@ == without_leading_zeros(digits@),
{
    let n: usize = digits.len();
    if n == 0 {
        let mut zero: Vec<char> = Vec::new();
        zero.push('0');
        assert(zero@ =~= seq!['0']);
        return zero;
    }
    let mut i: usize = 0;
    assert(digits@.skip(0) =~= digits@);
    while i + 1 < n && digits[i] == '0'
        invariant
            i < n,
            n == digits@.len(),
            without_leading_zeros(digits@) == without_leading_zeros(digits@.skip(i as int)),
        decreases n - i,
    {
        assert(digits@.skip(i as int).skip(1) =~= digits@.skip(i + 1));
        i += 1;
    }
    let r = slice_of(digits, i, n);
    assert(r@ =~= digits@.skip(i as int));
    r
}

/// A number in decimal notation as JSON writes it.
pub fn number_text(text: &str) -> (r: String)
    ensures
        r@ == json_number(text@),
{
    if !check_decimal(text) {
        return String::from_str("null");
    }
    let chars = chars_of(text);
    let n: usize = chars.len();
    let negative = n > 0 && chars[0] == '-';
    let body = if negative {
        let body = slice_of(&chars, 1, n);
        assert(body@ =~= text@.skip(1));
        body
    } else {
        chars
    };
    let m: usize = body.len();
    let mut point: Vec<char> = Vec::new();
    point.push('.');
    assert(point@ =~= seq!['.']);
    let mut out: Vec<char> = Vec::new();
    if negative {
        out.push('-');
    }
    match find(&body, &point) {
        Some(at) => {
            let whole = slice_of(&body, 0, at);
            let fraction = slice_of(&body, at + 1, m);
            assert(whole@ =~= body@.take(at as int));
            assert(fraction@ =~= body@.skip(at + 1));
            let digits = strip_zeros(&whole);
            push_all(&mut out, &digits);
            if fraction.len() > 0 {
                out.push('.');
                push_all(&mut out, &fraction);
            }
        },
        None => {
            let digits = strip_zeros(&body);
            push_all(&mut out, &digits);
        },
    }
    assert(out@ =~= json_number(text@));
    string_of(&out)
}

/// The text, or `null` where there is none.
pub open spec fn or_null(text: Option<Seq<char>>) -> Seq<char> {
    match text {
        Some(text) => text,
        None => "null"@,
    }
}

/// A number in decimal notation, where there is one, as JSON writes it.
pub open spec fn json_decimal(text: Option<Seq<char>>) -> Seq<char> {
    match text {
        Some(text) => json_number(text),
        None => "null"@,
    }
}

/// A whole number, where there is one, as JSON writes it.
pub open spec fn json_whole(n: Option<int>) -> Seq<char> {
    match n {
        Some(n) => int_text(n),
        None => "null"@,
    }
}

/// A text, where there is one, as JSON writes it.
pub open spec fn json_text(text: Option<Seq<char>>) -> Seq<char> {
    match text {
        Some(text) => json_quoted(text),
        None => "null"@,
    }
}

/// A response format, where there is one, as JSON writes it.
pub open spec fn json_format(format: Option<ResponseFormat>) -> Seq<char> {
    match format {
        Some(ResponseFormat::Text) => "{\"type\":\"text\"}"@,
        Some(ResponseFormat::JsonObject) => "{\"type\":\"json_object\"}"@,
        None => "null"@,
    }
}

/// The texts as the elements of a JSON list.
pub open spec fn json_elements(texts: Seq<String>) -> Seq<char> {
    joined(Seq::new(texts.len(), |i: int| json_quoted(texts[i]@)), ","@)
}

/// The request that the engine takes for a prepared completion: a JSON
/// object with the model, the prompt, the stream flag and the parameters
/// of the request, each under its name, `null` for a parameter that is
/// not set.
pub open spec fn engine_request_of(model: Seq<char>, prepared: PreparedCompletion) -> Seq<char> {
    "{\"model\":"@ + json_quoted(model) + ",\"prompt\":"@ + json_quoted(prepared.prompt@)
        + ",\"stream\":"@ + (if prepared.stream {
        "true"@
    } else {
        "false"@
    }) + ",\"frequency_penalty\":"@ + json_decimal(prepared.params.frequency_penalty.deep_view())
        + ",\"max_tokens\":"@ + json_whole(
        match prepared.params.max_tokens {
            Some(n) => Some(n as int),
            None => None,
        },
    ) + ",\"presence_penalty\":"@ + json_decimal(prepared.params.presence_penalty.deep_view())
        + ",\"response_format\":"@ + json_format(prepared.params.response_format) + ",\"seed\":"@
        + json_whole(
        match prepared.params.seed {
            Some(n) => Some(n as int),
            None => None,
        },
    ) + ",\"stop\":["@ + json_elements(prepared.params.stop@) + "],\"temperature\":"@
        + json_decimal(prepared.params.temperature.deep_view()) + ",\"top_p\":"@ + json_decimal(
        prepared.params.top_p.deep_view(),
    ) + ",\"user\":"@ + json_text(prepared.params.user.deep_view()) + "}"@
}

fn decimal_field(text: &Option<String>) -> (r: String)
    ensures
        r@ == json_decimal(text.deep_view()),
{
    match text {
        Some(text) => number_text(text.as_str()),
        None => String::from_str("null"),
    }
}

fn whole_field(n: Option<i64>) -> (r: String)
    ensures
        r@ == json_whole(
            match n {
                Some(n) => Some(n as int),
                None => None,
            },
        ),
{
    match n {
        Some(n) => int_to_text(n),
        None => String::from_str("null"),
    }
}

fn text_field(text: &Option<String>) -> (r: String)
    ensures
        r@ == json_text(text.deep_view()),
{
    match text {
        Some(text) => json_string(text.as_str()),
        None => String::from_str("null"),
    }
}

fn elements(texts: &Vec<String>) -> (r: String)
    ensures
        r@ == json_elements(texts@),
{
    let mut quoted: Vec<String> = Vec::new();
    let mut i: usize = 0;
    while i < texts.len()
        invariant
            i <= texts@.len(),
            quoted@.len() == i,
            forall|k: int| 0 <= k < i ==> (#[trigger] quoted@[k])@ == json_quoted(texts@[k]@),
        decreases texts@.len() - i,
    {
        quoted.push(json_string(texts[i].as_str()));
        i += 1;
    }
    assert(text_views(quoted@) =~= Seq::new(texts@.len(), |i: int| json_quoted(texts@[i]@)));
    join(&quoted, ",")
}

/// The request that the engine takes for a prepared completion.
pub fn engine_request(model: &str, prepared: &PreparedCompletion) -> (r: String)
    ensures
        r@ == engine_request_of(model@, *prepared),
{
    let mut r = String::from_str("{\"model\":");
    r.append(json_string(model).as_str());
    r.append(",\"prompt\":");
    r.append(json_string(prepared.prompt.as_str()).as_str());
    r.append(",\"stream\":");
    if prepared.stream {
        r.append("true");
    } else {
        r.append("false");
    }
    r.append(",\"frequency_penalty\":");
    r.append(decimal_field(&prepared.params.frequency_penalty).as_str());
    r.append(",\"max_tokens\":");
    let max_tokens = match prepared.params.max_tokens {
        Some(n) => Some(n as i64),
        None => None,
    };
    r.append(whole_field(max_tokens).as_str());
    r.append(",\"presence_penalty\":");
    r.append(decimal_field(&prepared.params.presence_penalty).as_str());
    r.append(",\"response_format\":");
    match prepared.params.response_format {
        Some(ResponseFormat::Text) => {
            r.append("{\"type\":\"text\"}");
        },
        Some(ResponseFormat::JsonObject) => {
            r.append("{\"type\":\"json_object\"}");
        },
        None => {
            r.append("null");
        },
    }
    r.append(",\"seed\":");
    r.append(whole_field(prepared.params.seed).as_str());
    r.append(",\"stop\":[");
    r.append(elements(&prepared.params.stop).as_str());
    r.append("],\"temperature\":");
    r.append(decimal_field(&prepared.params.temperature).as_str());
    r.append(",\"top_p\":");
    r.append(decimal_field(&prepared.params.top_p).as_str());
    r.append(",\"user\":");
    r.append(text_field(&prepared.params.user).as_str());
    r.append("}");
    r
}

} // verus!

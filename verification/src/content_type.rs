//! Audio formats of the form `audio/l16;rate=16000`, and the query strings
//! that describe them to the recognition service.

use crate::error::HttpError;
use crate::text::{
    lemma_few_pieces, lemma_two_pieces, pieces, same_text, split, views,
};
use vstd::prelude::*;

verus! {

/// The query string for linear audio of the given sample rate.
pub open spec fn query_for(rate: Seq<char>) -> Seq<char> {
    "?encoding=linear16&sample_rate="@ + rate + "&channels=1"@
}

/// The sample rate of a content type: what stands behind the equals sign in
/// its second half, if its first half names the encoding `l16`.
pub open spec fn sample_rate(content_type: Seq<char>) -> Option<Seq<char>> {
    let halves = pieces(content_type, ';');
    let format = pieces(halves[0], '/');
    let parameter = pieces(halves[1], '=');
    if halves.len() == 2 && format.len() == 2 && parameter.len() == 2 && format[1] == "l16"@ {
        Some(parameter[1])
    } else {
        None
    }
}

/// The query string of a content type. An empty one stands for an uploaded
/// file, which needs none.
pub open spec fn query_string(content_type: Seq<char>) -> Result<Seq<char>, HttpError> {
    if content_type.len() == 0 {
        Ok(Seq::empty())
    } else {
        match sample_rate(content_type) {
            Some(rate) => Ok(query_for(rate)),
            None => Err(HttpError::ContentType),
        }
    }
}

/// Parses an audio format of the form `audio/l16;rate=16000`.
///
/// Only the encoding `l16` is supported, with any sample rate. The result is
/// the query string to append to the address of the recognition service.
pub fn parse_content_type(content_type: String) -> (result: Result<String, HttpError>)
    ensures
        match result {
            Ok(query) => query_string(content_type@) == Ok::<Seq<char>, HttpError>(query@),
            Err(e) => query_string(content_type@) == Err::<Seq<char>, HttpError>(e),
        },
{
    // an empty content type needs no query string: a file is being uploaded
    if content_type.as_str().is_empty() {
        return Ok(String::new());
    }
    let halves = split(content_type.as_str(), ';');
    if halves.len() != 2 {
        return Err(HttpError::ContentType);
    }
    let format = split(halves[0], '/');
    let parameter = split(halves[1], '=');
    assert(views(halves@)[0] == halves[0]@ && views(halves@)[1] == halves[1]@);
    if format.len() != 2 {
        return Err(HttpError::ContentType);
    }
    if parameter.len() != 2 {
        return Err(HttpError::ContentType);
    }
    assert(views(format@)[1] == format[1]@ && views(parameter@)[1] == parameter[1]@);
    if !same_text(format[1], "l16") {
        return Err(HttpError::ContentType);
    }
    let mut query: String = "?encoding=linear16&sample_rate=".to_owned();
    query.append(parameter[1]);
    query.append("&channels=1");
    Ok(query)
}

/// Whether `content_type` is written as `kind/l16;name=rate`, with no second
/// semicolon, no second slash before it and no second equals sign behind it.
pub open spec fn is_l16(
    content_type: Seq<char>,
    kind: Seq<char>,
    name: Seq<char>,
    rate: Seq<char>,
) -> bool {
    &&& content_type == kind + "/l16;"@ + name + "="@ + rate
    &&& !kind.contains('/') && !kind.contains(';')
    &&& !name.contains('=') && !name.contains(';')
    &&& !rate.contains('=') && !rate.contains(';')
}

proof fn lemma_contains_parts(a: Seq<char>, b: Seq<char>, c: char)
    ensures
        (a + b).contains(c) <==> a.contains(c) || b.contains(c),
{
    let s = a + b;
    if s.contains(c) {
        let i = choose|i: int| 0 <= i < s.len() && s[i] == c;
        if i < a.len() {
            assert(a[i] == c);
        } else {
            assert(b[i - a.len()] == c);
        }
    }
    if a.contains(c) {
        let i = choose|i: int| 0 <= i < a.len() && a[i] == c;
        assert(s[i] == c);
    }
    if b.contains(c) {
        let i = choose|i: int| 0 <= i < b.len() && b[i] == c;
        assert(s[i + a.len()] == c);
    }
}

proof fn lemma_push_is_add(a: Seq<char>, c: char)
    ensures
        a.push(c) == a + seq![c],
{
    assert(a.push(c) =~= a + seq![c]);
}

/// Every content type of the form `kind/l16;name=rate` is accepted, whatever
/// the kind, the name and the rate are, and its query string carries the rate
/// unchanged.
pub proof fn l16_is_accepted(
    content_type: Seq<char>,
    kind: Seq<char>,
    name: Seq<char>,
    rate: Seq<char>,
)
    requires
        is_l16(content_type, kind, name, rate),
    ensures
        query_string(content_type) == Ok::<Seq<char>, HttpError>(query_for(rate)),
{
    reveal_strlit("/l16;");
    reveal_strlit("l16");
    reveal_strlit("=");
    let first = kind.push('/') + "l16"@;
    let second = name.push('=') + rate;
    assert(content_type =~= first.push(';') + second);
    lemma_push_is_add(kind, '/');
    lemma_push_is_add(name, '=');
    lemma_contains_parts(kind, seq!['/'], ';');
    lemma_contains_parts(kind.push('/'), "l16"@, ';');
    lemma_contains_parts(name, seq!['='], ';');
    lemma_contains_parts(name.push('='), rate, ';');
    assert(!seq!['/'].contains(';') && !seq!['='].contains(';'));
    assert(!"l16"@.contains(';') && !"l16"@.contains('/'));
    lemma_two_pieces(first, second, ';');
    lemma_two_pieces(kind, "l16"@, '/');
    lemma_two_pieces(name, rate, '=');
}

/// Only the empty content type and those of the form `kind/l16;name=rate` are
/// accepted.
pub proof fn only_l16_is_accepted(content_type: Seq<char>) -> (parts: (
    Seq<char>,
    Seq<char>,
    Seq<char>,
))
    requires
        query_string(content_type) is Ok,
        content_type.len() > 0,
    ensures
        is_l16(content_type, parts.0, parts.1, parts.2),
{
    reveal_strlit("/l16;");
    reveal_strlit("l16");
    reveal_strlit("=");
    let halves = pieces(content_type, ';');
    let format = pieces(halves[0], '/');
    let parameter = pieces(halves[1], '=');
    lemma_few_pieces(content_type, ';');
    lemma_few_pieces(halves[0], '/');
    lemma_few_pieces(halves[1], '=');
    let (kind, name, rate) = (format[0], parameter[0], parameter[1]);
    assert(content_type =~= kind + "/l16;"@ + name + "="@ + rate);
    lemma_push_is_add(kind, '/');
    lemma_push_is_add(name, '=');
    lemma_contains_parts(kind.push('/'), "l16"@, ';');
    lemma_contains_parts(kind, seq!['/'], ';');
    lemma_contains_parts(name.push('='), rate, ';');
    lemma_contains_parts(name, seq!['='], ';');
    (kind, name, rate)
}

/// An empty content type has an empty query string.
pub proof fn a_file_needs_no_query()
    ensures
        query_string(Seq::empty()) == Ok::<Seq<char>, HttpError>(Seq::empty()),
{
}

/// The query string of `kind/l16;name=rate` is the encoding and the word
/// `sample_rate`, then the rate character by character, then the one channel.
pub proof fn the_query_carries_the_rate(kind: Seq<char>, name: Seq<char>, rate: Seq<char>)
    requires
        !kind.contains('/') && !kind.contains(';'),
        !name.contains('=') && !name.contains(';'),
        !rate.contains('=') && !rate.contains(';'),
    ensures
        query_string(kind + "/l16;"@ + name + "="@ + rate) == Ok::<Seq<char>, HttpError>(
            "?encoding=linear16&sample_rate="@ + rate + "&channels=1"@,
        ),
{
    l16_is_accepted(kind + "/l16;"@ + name + "="@ + rate, kind, name, rate);
}

/// Two content types have the same query string exactly if they have the same
/// rate, whatever else they say.
pub proof fn rates_are_told_apart_by_their_queries(
    kind: Seq<char>,
    name: Seq<char>,
    rate: Seq<char>,
    other_kind: Seq<char>,
    other_name: Seq<char>,
    other_rate: Seq<char>,
)
    requires
        !kind.contains('/') && !kind.contains(';'),
        !name.contains('=') && !name.contains(';'),
        !rate.contains('=') && !rate.contains(';'),
        !other_kind.contains('/') && !other_kind.contains(';'),
        !other_name.contains('=') && !other_name.contains(';'),
        !other_rate.contains('=') && !other_rate.contains(';'),
    ensures
        query_string(kind + "/l16;"@ + name + "="@ + rate) == query_string(
            other_kind + "/l16;"@ + other_name + "="@ + other_rate,
        ) <==> rate == other_rate,
{
    the_query_carries_the_rate(kind, name, rate);
    the_query_carries_the_rate(other_kind, other_name, other_rate);
    let (before, after) = ("?encoding=linear16&sample_rate="@, "&channels=1"@);
    let (one, two) = (before + rate + after, before + other_rate + after);
    if one == two {
        assert(one.len() == before.len() + rate.len() + after.len());
        assert(two.len() == before.len() + other_rate.len() + after.len());
        assert(one.skip(before.len() as int).take(rate.len() as int) =~= rate);
        assert(two.skip(before.len() as int).take(other_rate.len() as int) =~= other_rate);
    }
}

/// A content type is accepted exactly if it is empty or of the form
/// `kind/l16;name=rate`; any other is a bad request.
pub proof fn all_other_content_types_are_refused(content_type: Seq<char>)
    ensures
        query_string(content_type) is Ok <==> content_type.len() == 0 || exists|
            kind: Seq<char>,
            name: Seq<char>,
            rate: Seq<char>,
        |
            content_type == #[trigger] (kind + "/l16;"@ + name + "="@ + rate) && !kind.contains('/')
                && !kind.contains(';') && !name.contains('=') && !name.contains(';')
                && !rate.contains('=') && !rate.contains(';'),
        query_string(content_type) is Err ==> query_string(content_type) == Err::<
            Seq<char>,
            HttpError,
        >(HttpError::ContentType),
{
    if query_string(content_type) is Ok && content_type.len() > 0 {
        let (kind, name, rate) = only_l16_is_accepted(content_type);
        assert(content_type == kind + "/l16;"@ + name + "="@ + rate);
    }
    if content_type.len() > 0 && exists|kind: Seq<char>, name: Seq<char>, rate: Seq<char>|
        content_type == #[trigger] (kind + "/l16;"@ + name + "="@ + rate) && !kind.contains('/')
            && !kind.contains(';') && !name.contains('=') && !name.contains(';')
            && !rate.contains('=') && !rate.contains(';') {
        let (kind, name, rate) = choose|kind: Seq<char>, name: Seq<char>, rate: Seq<char>|
            content_type == #[trigger] (kind + "/l16;"@ + name + "="@ + rate)
                && !kind.contains('/') && !kind.contains(';') && !name.contains('=')
                && !name.contains(';') && !rate.contains('=') && !rate.contains(';');
        the_query_carries_the_rate(kind, name, rate);
    }
}

} // verus!

//! What a subscription service decides about a request, apart from reading
//! files and answering: which lines of a link file are links, whether a
//! client wants a configuration document, and what a client gets that does
//! not.

use crate::codec::{base64_encoded, wrap_text};
use crate::text::{
    begins_with, chars_of, lowercase, same_text, split_chars, split_on, string_of, trim,
    trim_chars, views,
};
use vstd::prelude::*;
use vstd::utf8::encode_utf8;

verus! {

/// Whether a trimmed line of a link file is a link: it is not empty and
/// begins neither with `#` nor with `//`.
pub open spec fn is_link_line(line: Seq<char>) -> bool {
    line.len() > 0 && line[0] != '#' && !"//"@.is_prefix_of(line)
}

/// The links among the lines, each without the white space round it, in the
/// order of the lines.
pub open spec fn links_among(lines: Seq<Seq<char>>) -> Seq<Seq<char>>
    decreases lines.len(),
{
    if lines.len() == 0 {
        Seq::empty()
    } else if is_link_line(trim(lines.last())) {
        links_among(lines.drop_last()).push(trim(lines.last()))
    } else {
        links_among(lines.drop_last())
    }
}

/// The links of a link file.
pub open spec fn links_of(content: Seq<char>) -> Seq<Seq<char>> {
    links_among(split_on(content, '\n'))
}

/// Whether `part` stands somewhere in `text`.
pub open spec fn contains_text(text: Seq<char>, part: Seq<char>) -> bool {
    exists|i: int|
        0 <= i <= text.len() - part.len() && #[trigger] text.subrange(i, i + part.len()) == part
}

/// Whether a user agent, written in lower case, names one of the clients
/// that read configuration documents.
pub open spec fn names_a_reader(agent: Seq<char>) -> bool {
    contains_text(agent, "clash"@) || contains_text(agent, "mihomo"@) || contains_text(
        agent,
        "stash"@,
    )
}

/// Whether a client wants a configuration document: its user agent names,
/// in whatever case, one of the clients that read such documents, or the
/// request carries the flag `clash`.
pub open spec fn client_wants_document(user_agent: Seq<char>, flag: Option<Seq<char>>) -> bool {
    names_a_reader(lowercase(user_agent)) || flag == Some("clash"@)
}

/// The lines with a line feed between each two.
pub open spec fn joined(lines: Seq<Seq<char>>) -> Seq<char>
    decreases lines.len(),
{
    if lines.len() == 0 {
        Seq::empty()
    } else if lines.len() == 1 {
        lines[0]
    } else {
        joined(lines.drop_last()) + seq!['\n'] + lines.last()
    }
}

/// The links of a link file.
pub fn link_lines(content: &str) -> (r: Vec<String>)
    ensures
        r.deep_view() == links_of(content@),
{
    let chars = chars_of(content);
    let lines = split_chars(chars.as_slice(), '\n');
    let slashes = chars_of("//");
    let mut links: Vec<String> = Vec::new();
    let mut i: usize = 0;
    assert(views(lines@).take(0) =~= Seq::<Seq<char>>::empty());
    assert(links.deep_view() =~= Seq::<Seq<char>>::empty());
    while i < lines.len()
        invariant
            i <= lines.len(),
            slashes@ == "//"@,
            links.deep_view() == links_among(views(lines@).take(i as int)),
        decreases lines.len() - i,
    {
        let ghost before = links.deep_view();
        assert(views(lines@).take(i + 1).drop_last() =~= views(lines@).take(i as int));
        let line = trim_chars(lines[i].as_slice());
        if line.len() > 0 && line[0] != '#' && !begins_with(line.as_slice(), slashes.as_slice()) {
            let link = string_of(line.as_slice());
            links.push(link);
            assert(links.deep_view() =~= before.push(link@));
        }
        i += 1;
    }
    assert(views(lines@).take(lines.len() as int) =~= views(lines@));
    links
}

/// Whether `part` stands somewhere in `text`.
pub fn has_text(text: &[char], part: &[char]) -> (r: bool)
    ensures
        r == contains_text(text@, part@),
{
    if part.len() > text.len() {
        return false;
    }
    let last: usize = text.len() - part.len();
    let mut i: usize = 0;
    while i <= last
        invariant
            i <= last + 1,
            last == text.len() - part.len(),
            forall|j: int| 0 <= j < i ==> #[trigger] text@.subrange(j, j + part@.len()) != part@,
        decreases last + 1 - i,
    {
        let mut k: usize = 0;
        while k < part.len() && text[i + k] == part[k]
            invariant
                i <= last,
                last == text.len() - part.len(),
                k <= part.len(),
                forall|m: int| 0 <= m < k ==> text@[i + m] == part@[m],
            decreases part.len() - k,
        {
            k += 1;
        }
        if k == part.len() {
            assert(text@.subrange(i as int, i + part@.len()) =~= part@);
            return true;
        }
        assert(text@.subrange(i as int, i + part@.len())[k as int] != part@[k as int]);
        i += 1;
    }
    false
}

/// Whether a client wants a configuration document.
pub fn wants_document(user_agent: &str, flag: Option<&str>) -> (r: bool)
    ensures
        r == client_wants_document(
            user_agent@,
            match flag {
                Some(f) => Some(f@),
                None => None,
            },
        ),
{
    if reads_documents(user_agent.to_lowercase().as_str()) {
        return true;
    }
    match flag {
        Some(f) => same_text(f, "clash"),
        None => false,
    }
}

/// Whether a user agent, written in lower case, names one of the clients
/// that read configuration documents.
pub fn reads_documents(agent: &str) -> (r: bool)
    ensures
        r == names_a_reader(agent@),
{
    let chars = chars_of(agent);
    let a = chars.as_slice();
    has_text(a, chars_of("clash").as_slice()) || has_text(a, chars_of("mihomo").as_slice())
        || has_text(a, chars_of("stash").as_slice())
}

/// Whether a request carries the token that the service expects.
pub fn token_matches(given: Option<&str>, expected: &str) -> (r: bool)
    ensures
        r == (given matches Some(g) && g@ == expected@),
{
    match given {
        Some(g) => same_text(g, expected),
        None => false,
    }
}

/// The lines with a line feed between each two.
pub fn join_lines(lines: &Vec<String>) -> (r: String)
    ensures
        r@ == joined(lines.deep_view()),
{
    let mut out: Vec<char> = Vec::new();
    let mut i: usize = 0;
    assert(lines.deep_view().take(0) =~= Seq::<Seq<char>>::empty());
    while i < lines.len()
        invariant
            i <= lines.len(),
            out@ == joined(lines.deep_view().take(i as int)),
        decreases lines.len() - i,
    {
        let ghost grown = lines.deep_view().take(i + 1);
        assert(grown.drop_last() =~= lines.deep_view().take(i as int));
        assert(grown.last() == lines@[i as int]@);
        if i > 0 {
            out.push('\n');
        }
        let line = chars_of(lines[i].as_str());
        let ghost before = out@;
        let mut k: usize = 0;
        while k < line.len()
            invariant
                k <= line.len(),
                out@ == before + line@.take(k as int),
            decreases line.len() - k,
        {
            out.push(line[k]);
            assert(line@.take(k + 1) =~= line@.take(k as int).push(line@[k as int]));
            k += 1;
        }
        assert(line@.take(line.len() as int) =~= line@);
        assert(out@ =~= joined(grown));
        i += 1;
    }
    assert(lines.deep_view().take(lines.len() as int) =~= lines.deep_view());
    string_of(out.as_slice())
}

/// What a client gets that wants no document: the links, one to a line,
/// wrapped in base64.
pub fn plain_subscription(links: &Vec<String>) -> (r: String)
    ensures
        r@ == base64_encoded(encode_utf8(joined(links.deep_view()))),
{
    wrap_text(join_lines(links).as_str())
}

} // verus!

//! The two notations in which include paths and defines arrive: the flag
//! line that `php-config` prints, and the comma-separated lists of a
//! snapshot.

use crate::text::{
    find_delimiter, first_delimiter, free_of, join, lemma_first_delimiter_at, lemma_split_of_join,
    split, split_text, Delimiter,
};
use vstd::prelude::*;

verus! {

/// A token of the flag line without its leading `-I`. A token that does not
/// begin with `-I` is the path as it stands.
pub open spec fn strip_include_flag(token: Seq<char>) -> Seq<char> {
    if token.len() >= 2 && token[0] == '-' && token[1] == 'I' {
        token.skip(2)
    } else {
        token
    }
}

/// The include paths of a flag line: its whitespace-separated tokens, in
/// order, each without its `-I`. The empty line gives the one path `""`.
pub open spec fn include_paths_of_flags(line: Seq<char>) -> Seq<Seq<char>> {
    split(line, Delimiter::Whitespace).map_values(|token: Seq<char>| strip_include_flag(token))
}

/// The include paths of a snapshot's list: its comma-separated segments, in
/// order and verbatim.
pub open spec fn include_paths_of_list(list: Seq<char>) -> Seq<Seq<char>> {
    split(list, Delimiter::Char(','))
}

/// The define that a segment stands for: `name=value` is cut at its first
/// `=`, and a segment without `=` is a name with the value `1`.
pub open spec fn define_of_segment(segment: Seq<char>) -> (Seq<char>, Seq<char>) {
    let at = first_delimiter(segment, Delimiter::Char('=')) as int;
    if at < segment.len() {
        (segment.take(at), segment.skip(at + 1))
    } else {
        (segment, "1"@)
    }
}

/// The defines of a snapshot's list: one for each comma-separated segment,
/// in order.
pub open spec fn defines_of_list(list: Seq<char>) -> Seq<(Seq<char>, Seq<char>)> {
    split(list, Delimiter::Char(',')).map_values(|segment: Seq<char>| define_of_segment(segment))
}

/// Turns one token of the flag line into its path.
pub fn include_path(token: &str) -> (path: String)
    ensures
        path@ == strip_include_flag(token@),
{
    let length = token.unicode_len();
    if length >= 2 && token.get_char(0) == '-' && token.get_char(1) == 'I' {
        token.substring_char(2, length).to_owned()
    } else {
        token.to_owned()
    }
}

/// Reads the include paths off the flag line that `php-config` printed.
pub fn parse_include_flags(line: &str) -> (paths: Vec<String>)
    ensures
        paths.deep_view() == include_paths_of_flags(line@),
{
    let tokens = split_text(line, Delimiter::Whitespace);
    let mut paths: Vec<String> = Vec::new();
    let mut i: usize = 0;
    while i < tokens.len()
        invariant
            i <= tokens.len(),
            tokens.deep_view() == split(line@, Delimiter::Whitespace),
            paths.deep_view() == include_paths_of_flags(line@).take(i as int),
        decreases tokens.len() - i,
    {
        let path = include_path(tokens[i].as_str());
        let ghost before = paths.deep_view();
        paths.push(path);
        proof {
            assert(tokens.deep_view()[i as int] == tokens[i as int]@);
            assert(paths.deep_view() == before.push(path@));
        }
        i = i + 1;
    }
    paths
}

/// Reads the include paths off a snapshot's comma-separated list.
pub fn parse_include_list(list: &str) -> (paths: Vec<String>)
    ensures
        paths.deep_view() == include_paths_of_list(list@),
{
    split_text(list, Delimiter::Char(','))
}

/// Reads one define off a segment of a snapshot's list.
pub fn parse_define(segment: &str) -> (pair: (String, String))
    ensures
        pair.deep_view() == define_of_segment(segment@),
{
    match find_delimiter(segment, Delimiter::Char('=')) {
        Some(at) => {
            let length = segment.unicode_len();
            let name = segment.substring_char(0, at).to_owned();
            let value = segment.substring_char(at + 1, length).to_owned();
            (name, value)
        },
        None => (segment.to_owned(), String::from_str("1")),
    }
}

/// Reads the defines off a snapshot's comma-separated list.
pub fn parse_defines(list: &str) -> (pairs: Vec<(String, String)>)
    ensures
        pairs.deep_view() == defines_of_list(list@),
{
    let segments = split_text(list, Delimiter::Char(','));
    let mut pairs: Vec<(String, String)> = Vec::new();
    let mut i: usize = 0;
    while i < segments.len()
        invariant
            i <= segments.len(),
            segments.deep_view() == split(list@, Delimiter::Char(',')),
            pairs.deep_view() == defines_of_list(list@).take(i as int),
        decreases segments.len() - i,
    {
        let pair = parse_define(segments[i].as_str());
        let ghost before = pairs.deep_view();
        pairs.push(pair);
        proof {
            assert(segments.deep_view()[i as int] == segments[i as int]@);
            assert(pairs.deep_view() == before.push(pair.deep_view()));
        }
        i = i + 1;
    }
    pairs
}

/// The flag line that lists `paths`: each path behind `-I`, and one space
/// between neighbours.
pub open spec fn flag_line_of(paths: Seq<Seq<char>>) -> Seq<char> {
    join(paths.map_values(|path: Seq<char>| seq!['-', 'I'] + path), ' ')
}

/// The segment that stands for a define: its name, `=`, and its value.
pub open spec fn segment_of_define(pair: (Seq<char>, Seq<char>)) -> Seq<char> {
    pair.0 + seq!['='] + pair.1
}

/// The comma-separated list that holds `pairs`.
pub open spec fn list_of_defines(pairs: Seq<(Seq<char>, Seq<char>)>) -> Seq<char> {
    join(pairs.map_values(|pair: (Seq<char>, Seq<char>)| segment_of_define(pair)), ',')
}

/// A segment without `=` gives its own text as the name, and the value `1`.
pub proof fn lemma_define_without_value(segment: Seq<char>)
    requires
        free_of(segment, Delimiter::Char('=')),
    ensures
        define_of_segment(segment) == (segment, "1"@),
{
    lemma_first_delimiter_at(segment, Delimiter::Char('='), segment.len() as int);
}

/// A name, `=` and a value give back that name and exactly that value,
/// whatever the value holds: it may be empty, and it may hold `=` itself.
pub proof fn lemma_define_with_value(name: Seq<char>, value: Seq<char>)
    requires
        free_of(name, Delimiter::Char('=')),
    ensures
        define_of_segment(name + seq!['='] + value) == (name, value),
{
    let segment = name + seq!['='] + value;
    lemma_first_delimiter_at(segment, Delimiter::Char('='), name.len() as int);
    assert(segment.take(name.len() as int) == name);
    assert(segment.skip(name.len() as int + 1) == value);
}

/// The empty flag line gives one path, and that path is empty.
pub proof fn lemma_empty_flag_line()
    ensures
        include_paths_of_flags(Seq::empty()) == seq![Seq::<char>::empty()],
{
    assert(split(Seq::empty(), Delimiter::Whitespace) == seq![Seq::<char>::empty()]);
}

/// Reading a flag line gives back the paths that it lists, in order, where no
/// path holds whitespace.
pub proof fn lemma_flag_line_round_trip(paths: Seq<Seq<char>>)
    requires
        paths.len() >= 1,
        forall|k: int| 0 <= k < paths.len() ==> free_of(#[trigger] paths[k], Delimiter::Whitespace),
    ensures
        include_paths_of_flags(flag_line_of(paths)) == paths,
{
    let tokens = paths.map_values(|path: Seq<char>| seq!['-', 'I'] + path);
    assert forall|k: int| 0 <= k < tokens.len() implies free_of(
        #[trigger] tokens[k],
        Delimiter::Whitespace,
    ) by {
        let token = tokens[k];
        assert(token == seq!['-', 'I'] + paths[k]);
        assert forall|j: int| 0 <= j < token.len() implies !Delimiter::Whitespace.matches(
            #[trigger] token[j],
        ) by {
            if j >= 2 {
                assert(token[j] == paths[k][j - 2]);
            }
        }
    }
    lemma_split_of_join(tokens, ' ', Delimiter::Whitespace);
    assert forall|k: int| 0 <= k < paths.len() implies strip_include_flag(tokens[k])
        == #[trigger] paths[k] by {
        assert(tokens[k] == seq!['-', 'I'] + paths[k]);
        assert(tokens[k].skip(2) == paths[k]);
    }
    assert(include_paths_of_flags(flag_line_of(paths)) == paths);
}

/// Reading a snapshot's list gives back the paths that were joined by
/// commas, where no path holds a comma.
pub proof fn lemma_include_list_round_trip(paths: Seq<Seq<char>>)
    requires
        paths.len() >= 1,
        forall|k: int| 0 <= k < paths.len() ==> free_of(#[trigger] paths[k], Delimiter::Char(',')),
    ensures
        include_paths_of_list(join(paths, ',')) == paths,
{
    lemma_split_of_join(paths, ',', Delimiter::Char(','));
}

/// Reading a list of defines gives back the pairs that it holds, in order,
/// where no name holds `=` and neither names nor values hold a comma.
pub proof fn lemma_define_list_round_trip(pairs: Seq<(Seq<char>, Seq<char>)>)
    requires
        pairs.len() >= 1,
        forall|k: int|
            0 <= k < pairs.len() ==> {
                &&& free_of((#[trigger] pairs[k]).0, Delimiter::Char('='))
                &&& free_of(pairs[k].0, Delimiter::Char(','))
                &&& free_of(pairs[k].1, Delimiter::Char(','))
            },
    ensures
        defines_of_list(list_of_defines(pairs)) == pairs,
{
    let comma = Delimiter::Char(',');
    let segments = pairs.map_values(|pair: (Seq<char>, Seq<char>)| segment_of_define(pair));
    assert forall|k: int| 0 <= k < segments.len() implies free_of(#[trigger] segments[k], comma) by {
        let (name, value) = pairs[k];
        let segment = segments[k];
        assert(segment == name + seq!['='] + value);
        assert forall|j: int| 0 <= j < segment.len() implies !comma.matches(
            #[trigger] segment[j],
        ) by {
            if j < name.len() {
                assert(segment[j] == name[j]);
            } else if j > name.len() {
                assert(segment[j] == value[j - name.len() - 1]);
            }
        }
    }
    lemma_split_of_join(segments, ',', comma);
    assert forall|k: int| 0 <= k < pairs.len() implies define_of_segment(segments[k])
        == #[trigger] pairs[k] by {
        lemma_define_with_value(pairs[k].0, pairs[k].1);
    }
    assert(defines_of_list(list_of_defines(pairs)) == pairs);
}

} // verus!

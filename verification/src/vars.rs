//! Environment variables (`key=value` lines) and their substitution into
//! request text as `{{key}}` placeholders.
use vstd::prelude::*;

use crate::text::{
    append_chars, chars_of, find_char, find_char_spec, lines_of, lines_spec, replace,
    replace_spec, string_from_chars, trim, trim_spec, char_vec_views,
};

verus! {

/// A parsed variable: its key and its value.
pub type VarPair = (Vec<char>, Vec<char>);

/// The characters of each key and value.
pub open spec fn pair_views(v: Seq<VarPair>) -> Seq<(Seq<char>, Seq<char>)> {
    v.map_values(|p: VarPair| (p.0@, p.1@))
}

/// The variable that one line of an environment defines: the trimmed line
/// is cut at its first `=`; key and value are trimmed. A line without `=`
/// (an empty line among them) defines none.
pub open spec fn var_of_line(line: Seq<char>) -> Option<(Seq<char>, Seq<char>)> {
    let l = trim_spec(line);
    match find_char_spec(l, '=') {
        Some(p) => Some((trim_spec(l.take(p)), trim_spec(l.skip(p + 1)))),
        None => None,
    }
}

/// The variables that an environment's text defines, in the order of its
/// lines.
pub open spec fn env_vars_spec(variables: Seq<char>) -> Seq<(Seq<char>, Seq<char>)> {
    lines_spec(variables).filter_map(|l: Seq<char>| var_of_line(l))
}

/// The placeholder `{{key}}` that stands for a variable in request text.
pub open spec fn placeholder_spec(key: Seq<char>) -> Seq<char> {
    seq!['{', '{'] + key + seq!['}', '}']
}

/// `text` after replacing the placeholder of each variable by its value,
/// one variable after the other, in order.
pub open spec fn substitute_spec(text: Seq<char>, vars: Seq<(Seq<char>, Seq<char>)>) -> Seq<
    char,
>
    decreases vars.len(),
{
    if vars.len() == 0 {
        text
    } else {
        replace_spec(
            substitute_spec(text, vars.drop_last()),
            placeholder_spec(vars.last().0),
            vars.last().1,
        )
    }
}

/// The characters `v[from..to]`.
pub fn sub_chars(v: &[char], from: usize, to: usize) -> (r: Vec<char>)
    requires
        from <= to <= v.len(),
    ensures
        r@ == v@.subrange(from as int, to as int),
{
    let mut r: Vec<char> = Vec::new();
    let mut k: usize = from;
    while k < to
        invariant
            from <= k <= to <= v.len(),
            r@ =~= v@.subrange(from as int, k as int),
        decreases to - k,
    {
        r.push(v[k]);
        k += 1;
    }
    r
}

/// Cuts a trimmed line at its first occurrence of `sep`; both sides are
/// trimmed. `None` where `sep` does not occur.
pub fn split_trimmed_at(line: &[char], sep: char) -> (r: Option<VarPair>)
    ensures
        match find_char_spec(line@, sep) {
            Some(p) => r matches Some(kv) && kv.0@ == trim_spec(line@.take(p)) && kv.1@
                == trim_spec(line@.skip(p + 1)),
            None => r is None,
        },
{
    match find_char(line, sep) {
        Some(p) => {
            assert(p < line.len());
            let k = sub_chars(line, 0, p);
            let v = sub_chars(line, p + 1, line.len());
            assert(k@ =~= line@.take(p as int));
            assert(v@ =~= line@.skip(p + 1));
            Some((trim(k.as_slice()), trim(v.as_slice())))
        },
        None => None,
    }
}

/// The variable one environment line defines, if any.
pub fn parse_var_line(line: &[char]) -> (r: Option<VarPair>)
    ensures
        match var_of_line(line@) {
            Some(kv) => r matches Some(p) && p.0@ == kv.0 && p.1@ == kv.1,
            None => r is None,
        },
{
    let l = trim(line);
    split_trimmed_at(l.as_slice(), '=')
}

/// Parses the variables of an environment's text.
pub fn parse_env_vars(variables: &str) -> (r: Vec<VarPair>)
    ensures
        pair_views(r@) == env_vars_spec(variables@),
{
    let text = chars_of(variables);
    let lines = lines_of(text.as_slice());
    let ghost ls = char_vec_views(lines@);
    let mut r: Vec<VarPair> = Vec::new();
    let mut i: usize = 0;
    while i < lines.len()
        invariant
            i <= lines.len(),
            ls == char_vec_views(lines@),
            ls == lines_spec(variables@),
            pair_views(r@) == ls.take(i as int).filter_map(|l: Seq<char>| var_of_line(l)),
        decreases lines.len() - i,
    {
        assert(ls.take(i + 1).drop_last() =~= ls.take(i as int));
        assert(ls.take(i + 1).last() == lines@[i as int]@);
        match parse_var_line(lines[i].as_slice()) {
            Some(kv) => {
                r.push(kv);
                assert(pair_views(r@) =~= ls.take(i + 1).filter_map(
                    |l: Seq<char>| var_of_line(l),
                ));
            },
            None => {},
        }
        i += 1;
    }
    assert(ls.take(lines.len() as int) =~= ls);
    r
}

/// The placeholder `{{key}}`.
pub fn placeholder(key: &[char]) -> (r: Vec<char>)
    ensures
        r@ == placeholder_spec(key@),
{
    let mut r: Vec<char> = Vec::new();
    r.push('{');
    r.push('{');
    append_chars(&mut r, key);
    r.push('}');
    r.push('}');
    assert(r@ =~= placeholder_spec(key@));
    r
}

/// Replaces the placeholder of each variable in `text` by its value, in
/// the order of `vars`.
pub fn substitute(text: &str, vars: &Vec<VarPair>) -> (r: String)
    ensures
        r@ == substitute_spec(text@, pair_views(vars@)),
{
    let mut cur = chars_of(text);
    let ghost pv = pair_views(vars@);
    let mut i: usize = 0;
    while i < vars.len()
        invariant
            i <= vars.len(),
            pv == pair_views(vars@),
            cur@ == substitute_spec(text@, pv.take(i as int)),
        decreases vars.len() - i,
    {
        assert(pv.take(i + 1).drop_last() =~= pv.take(i as int));
        let pat = placeholder(vars[i].0.as_slice());
        cur = replace(cur.as_slice(), pat.as_slice(), vars[i].1.as_slice());
        i += 1;
    }
    assert(pv.take(vars.len() as int) =~= pv);
    string_from_chars(cur.as_slice())
}

} // verus!

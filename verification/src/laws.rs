//! Properties of the client that span several operations, proved over the
//! spec functions that the operations' contracts use.
use vstd::prelude::*;

use crate::app::{
    default_environments_spec, default_requests_spec, RequestView,
    flat_index, http_method_spec, method_index_spec, next_focus, request_views, selection_at,
    environment_views,
    editor_text_spec, App, Focus, SidebarSelection, HTTP_METHOD_COUNT,
};
use crate::editor::editor_lines;
use crate::events::{position_above, position_below};
use crate::text::{
    is_first_index, lemma_first_index_unique,
    join_spec, lines_spec, lemma_split_newlines_nonempty, replace_spec, split_newlines,
    strip_carriage_return, trim_spec, occurs_at_spec, trim_start_spec, trim_end_spec, unicode_white_space,
};
use crate::vars::{env_vars_spec, placeholder_spec, substitute_spec, var_of_line};

verus! {

// ---------------------------------------------------------------------
// Lines and joining
// ---------------------------------------------------------------------

/// Joining `ls` after its last piece grew by `c` gives the old join
/// followed by `c`.
proof fn lemma_join_grow_last(ls: Seq<Seq<char>>, sep: Seq<char>, c: char)
    requires
        ls.len() >= 1,
    ensures
        join_spec(ls.update(ls.len() - 1, ls.last().push(c)), sep) == join_spec(ls, sep).push(c),
{
    let q = ls.update(ls.len() - 1, ls.last().push(c));
    if ls.len() >= 2 {
        assert(q.drop_last() =~= ls.drop_last());
        assert(join_spec(q, sep) == join_spec(q.drop_last(), sep) + sep + q.last());
        assert(join_spec(q, sep) =~= join_spec(ls, sep).push(c));
    }
}

/// The pieces between newlines, joined again by newlines, give the text.
proof fn lemma_join_split_newlines(s: Seq<char>)
    ensures
        join_spec(split_newlines(s), seq!['\n']) == s,
    decreases s.len(),
{
    if s.len() > 0 {
        let p = split_newlines(s.drop_last());
        lemma_split_newlines_nonempty(s.drop_last());
        lemma_join_split_newlines(s.drop_last());
        if s.last() == '\n' {
            let q = p.push(Seq::<char>::empty());
            assert(q.drop_last() =~= p);
            assert(join_spec(q, seq!['\n']) == join_spec(p, seq!['\n']) + seq!['\n'] + q.last());
            assert(join_spec(q, seq!['\n']) =~= s);
        } else {
            lemma_join_grow_last(p, seq!['\n'], s.last());
            assert(s.drop_last().push(s.last()) =~= s);
        }
    }
}

/// Where `x` is a newline, or `s` does not hold `x`, no piece between
/// newlines holds `x`.
proof fn lemma_pieces_avoid(s: Seq<char>, x: char)
    requires
        x == '\n' || (forall|i: int| 0 <= i < s.len() ==> s[i] != x),
    ensures
        forall|k: int, j: int|
            0 <= k < split_newlines(s).len() && 0 <= j < split_newlines(s)[k].len()
                ==> split_newlines(s)[k][j] != x,
    decreases s.len(),
{
    if s.len() > 0 {
        assert(forall|i: int| 0 <= i < s.drop_last().len() ==> s.drop_last()[i] == s[i]);
        lemma_pieces_avoid(s.drop_last(), x);
        lemma_split_newlines_nonempty(s.drop_last());
    }
}

/// No line of a text holds a newline.
pub proof fn law_lines_hold_no_newline(s: Seq<char>)
    ensures
        forall|k: int, j: int|
            0 <= k < lines_spec(s).len() && 0 <= j < lines_spec(s)[k].len() ==> lines_spec(s)[k][j]
                != '\n',
{
    lemma_pieces_avoid(s, '\n');
    lemma_split_newlines_nonempty(s);
    let parts = split_newlines(s);
    assert forall|k: int, j: int|
        0 <= k < lines_spec(s).len() && 0 <= j < lines_spec(s)[k].len() implies lines_spec(
        s,
    )[k][j] != '\n' by {
        if k < parts.len() - 1 {
            let l = parts[k];
            assert(lines_spec(s)[k] == strip_carriage_return(l));
            if l.len() > 0 && l.last() == '\r' {
                assert(strip_carriage_return(l)[j] == l[j]);
            }
        } else {
            assert(lines_spec(s)[k] == parts.last());
        }
    }
}

/// A text without carriage returns that does not end with a newline.
pub open spec fn canonical_text(s: Seq<char>) -> bool {
    &&& forall|i: int| 0 <= i < s.len() ==> s[i] != '\r'
    &&& s.len() == 0 || s.last() != '\n'
}

/// Loading a text into an editor and joining the editor's lines by
/// newlines gives the text back, for a text without carriage returns that
/// does not end with a newline.
pub proof fn law_editor_round_trip(s: Seq<char>)
    requires
        canonical_text(s),
    ensures
        join_spec(editor_text_spec(s), seq!['\n']) == s,
{
    let parts = split_newlines(s);
    lemma_split_newlines_nonempty(s);
    lemma_pieces_avoid(s, '\r');
    lemma_join_split_newlines(s);
    let ended = parts.drop_last().map_values(|l: Seq<char>| strip_carriage_return(l));
    assert forall|k: int| 0 <= k < parts.drop_last().len() implies ended[k] == parts.drop_last()[k] by {
        let l = parts[k];
        if l.len() > 0 {
            assert(l[l.len() - 1] != '\r');
        }
    }
    assert(ended =~= parts.drop_last());
    if s.len() == 0 {
        assert(lines_spec(s) =~= Seq::<Seq<char>>::empty());
        assert(editor_text_spec(s) == seq![Seq::<char>::empty()]);
        assert(join_spec(editor_text_spec(s), seq!['\n']) == editor_text_spec(s)[0]);
        assert(join_spec(editor_text_spec(s), seq!['\n']) =~= s);
    } else {
        let p = split_newlines(s.drop_last());
        lemma_split_newlines_nonempty(s.drop_last());
        assert(parts.last() == p.last().push(s.last()));
        assert(parts.last().len() > 0);
        assert(lines_spec(s) =~= parts);
        assert(editor_text_spec(s) == parts);
    }
}

// ---------------------------------------------------------------------
// Trimming
// ---------------------------------------------------------------------

proof fn lemma_trim_start_no_leading(s: Seq<char>)
    ensures
        trim_start_spec(s).len() > 0 ==> !unicode_white_space(trim_start_spec(s)[0]),
        trim_start_spec(trim_start_spec(s)) == trim_start_spec(s),
    decreases s.len(),
{
    if s.len() > 0 && unicode_white_space(s[0]) {
        lemma_trim_start_no_leading(s.drop_first());
    }
}

proof fn lemma_trim_end_no_trailing(s: Seq<char>)
    ensures
        trim_end_spec(s).len() > 0 ==> !unicode_white_space(trim_end_spec(s).last()),
        trim_end_spec(trim_end_spec(s)) == trim_end_spec(s),
        trim_end_spec(s).len() <= s.len(),
        trim_end_spec(s) == s.take(trim_end_spec(s).len() as int),
    decreases s.len(),
{
    if s.len() > 0 && unicode_white_space(s.last()) {
        lemma_trim_end_no_trailing(s.drop_last());
        assert(s.drop_last().take(trim_end_spec(s).len() as int) =~= s.take(
            trim_end_spec(s).len() as int,
        ));
    } else {
        assert(s.take(s.len() as int) =~= s);
    }
}

/// Trimming a trimmed text changes nothing.
pub proof fn law_trim_idempotent(s: Seq<char>)
    ensures
        trim_spec(trim_spec(s)) == trim_spec(s),
{
    let a = trim_start_spec(s);
    let t = trim_end_spec(a);
    lemma_trim_start_no_leading(s);
    lemma_trim_end_no_trailing(a);
    lemma_trim_end_no_trailing(t);
    if t.len() > 0 {
        assert(t[0] == a[0]);
        assert(trim_start_spec(t) == t);
    } else {
        assert(trim_start_spec(t) == t);
    }
}

// ---------------------------------------------------------------------
// Saving what was loaded
// ---------------------------------------------------------------------

/// A request that survives being loaded into the editors and saved back:
/// its URL is trimmed, its method is one of the five, and its headers,
/// parameters and body have no carriage return and do not end with a
/// newline.
pub open spec fn editable_request<'a>(app: &App<'a>, i: int) -> bool {
    let req = app.collections@[i]@;
    &&& trim_spec(req.url) == req.url
    &&& exists|m: int| 0 <= m < HTTP_METHOD_COUNT && http_method_spec(m) == req.method
    &&& canonical_text(req.headers)
    &&& canonical_text(req.params)
    &&& canonical_text(req.body)
}

/// Saving the editors right after a request was loaded into them leaves
/// every request as it was, where the loaded request is one that the
/// editors hold without change (see `editable_request`).
pub proof fn law_save_after_load_keeps_requests<'a>(before: &App<'a>, after: &App<'a>, index: int)
    requires
        after.loaded_entry(before, index),
        after.selection() is Request,
        editable_request(after, after.selection()->Request_0 as int),
    ensures
        after.saved_collections(after.method_index as int) == request_views(after.collections@),
{
    let i = after.selection()->Request_0 as int;
    let req = after.collections@[i]@;
    law_editor_round_trip(req.headers);
    law_editor_round_trip(req.params);
    law_editor_round_trip(req.body);
    let m = choose|m: int| 0 <= m < HTTP_METHOD_COUNT && http_method_spec(m) == req.method;
    assert(http_method_spec(method_index_spec(req.method) as int) == req.method);
    assert(editor_lines(after.url_textarea)[0] == req.url);
    assert(after.edited_request(i, after.method_index as int) == req);
    assert(after.saved_collections(after.method_index as int) =~= request_views(after.collections@));
}

/// Saving the editors right after an environment was loaded into them
/// leaves every environment as it was, where the loaded variables have no
/// carriage return and do not end with a newline.
pub proof fn law_save_after_load_keeps_environments<'a>(
    before: &App<'a>,
    after: &App<'a>,
    index: int,
)
    requires
        after.loaded_entry(before, index),
        after.selection() is Environment,
        canonical_text(after.environments@[after.selection()->Environment_0 as int].variables@),
    ensures
        after.saved_environments() == environment_views(after.environments@),
{
    let i = after.selection()->Environment_0 as int;
    law_editor_round_trip(after.environments@[i].variables@);
    assert(after.saved_environments() =~= environment_views(after.environments@));
}

// ---------------------------------------------------------------------
// Substitution
// ---------------------------------------------------------------------

/// Replacing a pattern that does not occur changes nothing.
pub proof fn law_replace_absent(s: Seq<char>, pat: Seq<char>, rep: Seq<char>)
    requires
        forall|i: int| !occurs_at_spec(s, pat, i),
    ensures
        replace_spec(s, pat, rep) == s,
    decreases s.len(),
{
    if pat.len() == 0 || s.len() < pat.len() {
    } else {
        assert(!occurs_at_spec(s, pat, 0));
        assert(s.subrange(0, pat.len() as int) =~= s.take(pat.len() as int));
        let t = s.drop_first();
        assert forall|i: int| !occurs_at_spec(t, pat, i) by {
            if occurs_at_spec(t, pat, i) {
                assert(s.subrange(i + 1, i + 1 + pat.len()) =~= t.subrange(i, i + pat.len()));
                assert(occurs_at_spec(s, pat, i + 1));
            }
        }
        law_replace_absent(t, pat, rep);
        assert(seq![s[0]] + t =~= s);
    }
}

/// Text in which no variable's placeholder occurs is left as it is by
/// substitution.
pub proof fn law_substitute_without_placeholders(
    text: Seq<char>,
    vars: Seq<(Seq<char>, Seq<char>)>,
)
    requires
        forall|k: int, i: int|
            0 <= k < vars.len() ==> !#[trigger] occurs_at_spec(text, placeholder_spec(vars[k].0), i),
    ensures
        substitute_spec(text, vars) == text,
    decreases vars.len(),
{
    if vars.len() > 0 {
        let front = vars.drop_last();
        assert forall|k: int, i: int| 0 <= k < front.len() implies !#[trigger] occurs_at_spec(
            text,
            placeholder_spec(front[k].0),
            i,
        ) by {
            assert(front[k] == vars[k]);
            assert(!occurs_at_spec(text, placeholder_spec(vars[k].0), i));
        }
        law_substitute_without_placeholders(text, front);
        let pat = placeholder_spec(vars.last().0);
        assert forall|i: int| !occurs_at_spec(text, pat, i) by {
            assert(!occurs_at_spec(text, placeholder_spec(vars[vars.len() - 1].0), i));
        }
        law_replace_absent(text, pat, vars.last().1);
    }
}

/// Trimming takes no character in.
proof fn lemma_trim_keeps_absence(s: Seq<char>, c: char)
    requires
        !s.contains(c),
    ensures
        !trim_spec(s).contains(c),
{
    lemma_trim_start_keeps_absence(s, c);
    lemma_trim_keeps_absence_end(trim_start_spec(s), c);
}

proof fn lemma_trim_start_keeps_absence(s: Seq<char>, c: char)
    requires
        !s.contains(c),
    ensures
        !trim_start_spec(s).contains(c),
    decreases s.len(),
{
    if s.len() > 0 && unicode_white_space(s[0]) {
        assert(!s.drop_first().contains(c)) by {
            if s.drop_first().contains(c) {
                let j = choose|j: int| 0 <= j < s.drop_first().len() && s.drop_first()[j] == c;
                assert(s[j + 1] == c);
            }
        }
        lemma_trim_start_keeps_absence(s.drop_first(), c);
    }
}

proof fn lemma_trim_keeps_absence_end(s: Seq<char>, c: char)
    requires
        !s.contains(c),
    ensures
        !trim_end_spec(s).contains(c),
    decreases s.len(),
{
    if s.len() > 0 && unicode_white_space(s.last()) {
        assert(!s.drop_last().contains(c)) by {
            if s.drop_last().contains(c) {
                let j = choose|j: int| 0 <= j < s.drop_last().len() && s.drop_last()[j] == c;
                assert(s[j] == c);
            }
        }
        lemma_trim_keeps_absence_end(s.drop_last(), c);
    }
}

/// No variable comes from lines without `=`.
proof fn lemma_no_vars_from_lines(ls: Seq<Seq<char>>)
    requires
        forall|k: int| 0 <= k < ls.len() ==> !(#[trigger] ls[k]).contains('='),
    ensures
        ls.filter_map(|l: Seq<char>| var_of_line(l)) == Seq::<(Seq<char>, Seq<char>)>::empty(),
    decreases ls.len(),
{
    if ls.len() > 0 {
        assert(forall|k: int| 0 <= k < ls.drop_last().len() ==> ls.drop_last()[k] == ls[k]);
        lemma_no_vars_from_lines(ls.drop_last());
        let l = ls.last();
        assert(!ls[ls.len() - 1].contains('='));
        lemma_trim_keeps_absence(l, '=');
        let t = trim_spec(l);
        if exists|i: int| is_first_index(t, '=', i) {
            let i = choose|i: int| is_first_index(t, '=', i);
            assert(t.contains('='));
        }
        assert(var_of_line(l) is None);
    }
}

/// An environment text without `=` defines no variables.
pub proof fn law_no_equals_no_variables(text: Seq<char>)
    requires
        !text.contains('='),
    ensures
        env_vars_spec(text) == Seq::<(Seq<char>, Seq<char>)>::empty(),
{
    lemma_pieces_avoid(text, '=');
    lemma_split_newlines_nonempty(text);
    let parts = split_newlines(text);
    let ls = lines_spec(text);
    assert forall|k: int| 0 <= k < ls.len() implies !(#[trigger] ls[k]).contains('=') by {
        let l = if k < parts.len() - 1 {
            parts[k]
        } else {
            parts.last()
        };
        assert(!l.contains('=')) by {
            if l.contains('=') {
                let j = choose|j: int| 0 <= j < l.len() && l[j] == '=';
                if k < parts.len() - 1 {
                    assert(parts[k][j] == '=');
                } else {
                    assert(parts[parts.len() - 1][j] == '=');
                }
            }
        }
        if k < parts.len() - 1 {
            assert(ls[k] == strip_carriage_return(l));
            if ls[k].contains('=') {
                let j = choose|j: int| 0 <= j < ls[k].len() && ls[k][j] == '=';
                assert(l[j] == '=');
            }
        } else {
            assert(ls[k] == l);
        }
    }
    lemma_no_vars_from_lines(ls);
}

/// Where the active environment defines no variables (no environment is
/// active, the active one does not exist, or its text holds no `=`), the
/// request sent is the selected request as it is written.
pub proof fn law_no_variables_no_change<'a>(app: &App<'a>)
    requires
        app.selection() is Request,
        app.sidebar_index < app.collections@.len(),
        match app.active_env_index {
            Some(e) => e >= app.environments@.len() || !app.environments@[e as int].variables@.contains('='),
            None => true,
        },
    ensures
        app.active_vars() == Seq::<(Seq<char>, Seq<char>)>::empty(),
        app.interpolated_request() == app.collections@[app.sidebar_index as int]@,
{
    match app.active_env_index {
        Some(e) => {
            if e < app.environments@.len() {
                law_no_equals_no_variables(app.environments@[e as int].variables@);
            }
        },
        None => {},
    }
    let req = app.collections@[app.sidebar_index as int]@;
    assert(app.interpolated_request() =~= req);
}

// ---------------------------------------------------------------------
// The sidebar
// ---------------------------------------------------------------------

/// The flat position of the entry at a flat position is that position.
pub proof fn law_flat_index_of_selection(index: int, n_requests: int)
    requires
        0 <= index <= usize::MAX,
        0 <= n_requests,
    ensures
        flat_index(selection_at(index, n_requests), n_requests) == index,
{
}

/// The entry at the flat position of an entry is that entry.
pub proof fn law_selection_of_flat_index(sel: SidebarSelection, n_requests: int)
    requires
        0 <= n_requests,
        sel matches SidebarSelection::Request(i) ==> i < n_requests,
    ensures
        selection_at(flat_index(sel, n_requests), n_requests) == sel,
{
}

/// Moving the cursor down or up keeps it on an entry, and moving down then
/// up (or up then down) brings it back.
pub proof fn law_cursor_moves(index: int, total: int)
    requires
        0 <= index < total,
    ensures
        0 <= position_below(index, total) < total,
        0 <= position_above(index, total) < total,
        position_above(position_below(index, total), total) == index,
        position_below(position_above(index, total), total) == index,
{
    if index + 1 < total {
        assert((index + 1) % total == index + 1) by (nonlinear_arith)
            requires
                0 <= index + 1 < total,
        ;
    } else {
        assert((index + 1) % total == 0) by (nonlinear_arith)
            requires
                index + 1 == total,
                total > 0,
        ;
    }
    if index > 0 {
        assert(index % total == index) by (nonlinear_arith)
            requires
                0 <= index < total,
        ;
    } else {
        assert((total - 1 + 1) % total == 0) by (nonlinear_arith)
            requires
                total > 0,
        ;
    }
}

// ---------------------------------------------------------------------
// The focus
// ---------------------------------------------------------------------

/// Shift-Tab undoes Tab and Tab undoes Shift-Tab, except on the URL pane
/// while an environment is selected (an environment has no URL pane).
pub proof fn law_focus_back_and_forth(focus: Focus, sel: SidebarSelection)
    requires
        !(focus == Focus::RequestUrl && sel is Environment),
    ensures
        next_focus(next_focus(focus, true, sel), false, sel) == focus,
        next_focus(next_focus(focus, false, sel), true, sel) == focus,
{
}

/// Tab visits the four panes of a request and comes back after four
/// presses; for an environment it visits the three panes other than the
/// URL and comes back after three.
pub proof fn law_focus_cycle(focus: Focus, sel: SidebarSelection)
    ensures
        sel is Request ==> next_focus(
            next_focus(next_focus(next_focus(focus, true, sel), true, sel), true, sel),
            true,
            sel,
        ) == focus,
        (sel is Environment && focus != Focus::RequestUrl) ==> next_focus(
            next_focus(next_focus(focus, true, sel), true, sel),
            true,
            sel,
        ) == focus,
{
}

/// Five presses of the method key bring back the method one started with.
pub proof fn law_method_cycle(m: int)
    requires
        0 <= m < HTTP_METHOD_COUNT,
    ensures
        ({
            let n = HTTP_METHOD_COUNT as int;
            (((((m + 1) % n + 1) % n + 1) % n + 1) % n + 1) % n == m
        }),
{
}

// ---------------------------------------------------------------------
// The built-in requests and environments
// ---------------------------------------------------------------------

/// No two neighbouring characters of `s` are both `{`: no placeholder
/// (which starts with `{{`) is left in `s`.
pub open spec fn no_double_brace(s: Seq<char>) -> bool {
    forall|i: int| 0 <= i < s.len() - 1 ==> !(#[trigger] s[i] == '{' && s[i + 1] == '{')
}

/// A pattern starting with `{{` does not occur in text without `{{`, so
/// replacing it changes nothing.
pub(crate) proof fn lemma_replace_without_double_brace(s: Seq<char>, pat: Seq<char>, rep: Seq<char>)
    requires
        no_double_brace(s),
        pat.len() >= 2,
        pat[0] == '{',
        pat[1] == '{',
    ensures
        replace_spec(s, pat, rep) == s,
{
    assert forall|i: int| !occurs_at_spec(s, pat, i) by {
        if occurs_at_spec(s, pat, i) {
            assert(s.subrange(i, i + pat.len())[0] == s[i]);
            assert(s.subrange(i, i + pat.len())[1] == s[i + 1]);
        }
    }
    law_replace_absent(s, pat, rep);
}

/// Text without `{` has no `{{`.
pub(crate) proof fn lemma_no_brace(s: Seq<char>)
    requires
        !s.contains('{'),
    ensures
        no_double_brace(s),
{
    assert forall|i: int| 0 <= i < s.len() - 1 implies !(#[trigger] s[i] == '{' && s[i + 1]
        == '{') by {
        if s[i] == '{' {
            assert(s.contains('{'));
        }
    }
}

/// Where the text before an occurrence of a pattern starting with `{`
/// holds no `{`, that occurrence is the first one replaced.
pub(crate) proof fn lemma_replace_first(a: Seq<char>, pat: Seq<char>, b: Seq<char>, rep: Seq<char>)
    requires
        !a.contains('{'),
        pat.len() > 0,
        pat[0] == '{',
    ensures
        replace_spec(a + pat + b, pat, rep) == a + rep + replace_spec(b, pat, rep),
    decreases a.len(),
{
    let s = a + pat + b;
    if a.len() == 0 {
        assert(s.take(pat.len() as int) =~= pat);
        assert(s.skip(pat.len() as int) =~= b);
        assert(a + rep + replace_spec(b, pat, rep) =~= rep + replace_spec(b, pat, rep));
    } else {
        assert(s[0] == a[0]);
        assert(a.contains(a[0]));
        assert(s.take(pat.len() as int)[0] != pat[0]);
        assert(!a.drop_first().contains('{')) by {
            if a.drop_first().contains('{') {
                let j = choose|j: int| 0 <= j < a.drop_first().len() && a.drop_first()[j] == '{';
                assert(a[j + 1] == '{');
            }
        }
        assert(s.drop_first() =~= a.drop_first() + pat + b);
        lemma_replace_first(a.drop_first(), pat, b, rep);
        assert(seq![s[0]] + (a.drop_first() + rep + replace_spec(b, pat, rep)) =~= a + rep
            + replace_spec(b, pat, rep));
    }
}

/// A pattern starting with `{` does not occur in `a + t` where `a` holds no
/// `{` and `t` is shorter than the pattern.
proof fn lemma_replace_short_tail(a: Seq<char>, t: Seq<char>, pat: Seq<char>, rep: Seq<char>)
    requires
        !a.contains('{'),
        t.len() < pat.len(),
        pat[0] == '{',
    ensures
        replace_spec(a + t, pat, rep) == a + t,
{
    let s = a + t;
    assert forall|i: int| !occurs_at_spec(s, pat, i) by {
        if occurs_at_spec(s, pat, i) {
            assert(s.subrange(i, i + pat.len())[0] == s[i]);
            assert(s[i] == a[i]);
            assert(a.contains(a[i]));
        }
    }
    law_replace_absent(s, pat, rep);
}

/// The pieces between newlines of `x + y`, where `y` has no newline: those
/// of `x`, the last one followed by `y`.
proof fn lemma_split_append(x: Seq<char>, y: Seq<char>)
    requires
        !y.contains('\n'),
    ensures
        split_newlines(x + y) == split_newlines(x).update(
            split_newlines(x).len() - 1,
            split_newlines(x).last() + y,
        ),
    decreases y.len(),
{
    lemma_split_newlines_nonempty(x);
    let p = split_newlines(x);
    if y.len() == 0 {
        assert(x + y =~= x);
        assert(p.last() + y =~= p.last());
        assert(p.update(p.len() - 1, p.last()) =~= p);
    } else {
        assert(!y.drop_last().contains('\n')) by {
            if y.drop_last().contains('\n') {
                let j = choose|j: int| 0 <= j < y.drop_last().len() && y.drop_last()[j] == '\n';
                assert(y[j] == '\n');
            }
        }
        lemma_split_append(x, y.drop_last());
        assert((x + y).drop_last() =~= x + y.drop_last());
        assert((x + y).last() == y.last());
        assert(y.contains(y.last()));
        let q = p.update(p.len() - 1, p.last() + y.drop_last());
        assert(q.last().push(y.last()) =~= p.last() + y);
        assert(q.update(q.len() - 1, q.last().push(y.last())) =~= p.update(
            p.len() - 1,
            p.last() + y,
        ));
    }
}

/// The lines of `a + "\n" + b`, for non-empty `a` and `b` without newlines
/// and `a` not ending in a carriage return, are `a` and `b`.
proof fn lemma_two_lines(a: Seq<char>, b: Seq<char>)
    requires
        !a.contains('\n'),
        !b.contains('\n'),
        a.len() > 0,
        b.len() > 0,
        a.last() != '\r',
    ensures
        lines_spec(a + seq!['\n'] + b) == seq![a, b],
{
    lemma_split_append(Seq::empty(), a);
    assert(Seq::<char>::empty() + a =~= a);
    assert(split_newlines(Seq::<char>::empty()) == seq![Seq::<char>::empty()]);
    assert(split_newlines(a) =~= seq![a]);
    let x = a + seq!['\n'];
    assert(x.drop_last() =~= a);
    assert(split_newlines(x) =~= seq![a, Seq::<char>::empty()]);
    lemma_split_append(x, b);
    assert(x + b =~= a + seq!['\n'] + b);
    assert(Seq::<char>::empty() + b =~= b);
    let parts = split_newlines(a + seq!['\n'] + b);
    assert(parts =~= seq![a, b]);
    assert(lines_spec(a + seq!['\n'] + b) =~= seq![a, b]);
}

/// A text that neither starts nor ends with whitespace is its own trim.
proof fn lemma_trim_unchanged(s: Seq<char>)
    requires
        s.len() > 0,
        !unicode_white_space(s[0]),
        !unicode_white_space(s.last()),
    ensures
        trim_spec(s) == s,
{
}

/// The variable a line `k=v` defines is `(k, v)`, where `k` holds no `=`
/// and neither `k` nor `v` begins or ends with whitespace.
proof fn lemma_var_line(k: Seq<char>, v: Seq<char>)
    requires
        k.len() > 0,
        v.len() > 0,
        !k.contains('='),
        !unicode_white_space(k[0]),
        !unicode_white_space(k.last()),
        !unicode_white_space(v[0]),
        !unicode_white_space(v.last()),
    ensures
        var_of_line(k + seq!['='] + v) == Some((k, v)),
{
    let l = k + seq!['='] + v;
    lemma_trim_unchanged(l);
    lemma_trim_unchanged(k);
    lemma_trim_unchanged(v);
    assert(is_first_index(l, '=', k.len() as int)) by {
        assert forall|j: int| 0 <= j < k.len() implies l[j] != '=' by {
            assert(l[j] == k[j]);
            if k[j] == '=' {
                assert(k.contains('='));
            }
        }
    }
    let p = choose|p: int| is_first_index(l, '=', p);
    lemma_first_index_unique(l, '=', k.len() as int, p);
    assert(l.take(k.len() as int) =~= k);
    assert(l.skip(k.len() as int + 1) =~= v);
}

/// The variables of a two-line environment `k1=v1` / `k2=v2`.
proof fn lemma_two_vars(k1: Seq<char>, v1: Seq<char>, k2: Seq<char>, v2: Seq<char>)
    requires
        k1.len() > 0 && v1.len() > 0 && k2.len() > 0 && v2.len() > 0,
        !k1.contains('=') && !k2.contains('='),
        !(k1 + seq!['='] + v1).contains('\n') && !(k2 + seq!['='] + v2).contains('\n'),
        !unicode_white_space(k1[0]) && !unicode_white_space(k1.last()),
        !unicode_white_space(v1[0]) && !unicode_white_space(v1.last()),
        !unicode_white_space(k2[0]) && !unicode_white_space(k2.last()),
        !unicode_white_space(v2[0]) && !unicode_white_space(v2.last()),
        v1.last() != '\r',
    ensures
        env_vars_spec(k1 + seq!['='] + v1 + seq!['\n'] + k2 + seq!['='] + v2) == seq![
            (k1, v1),
            (k2, v2),
        ],
{
    let a = k1 + seq!['='] + v1;
    let b = k2 + seq!['='] + v2;
    assert((a + seq!['\n'] + b).len() > 0);
    assert(a.last() == v1.last());
    lemma_two_lines(a, b);
    assert(k1 + seq!['='] + v1 + seq!['\n'] + k2 + seq!['='] + v2 =~= a + seq!['\n'] + b);
    lemma_var_line(k1, v1);
    lemma_var_line(k2, v2);
    let f = |l: Seq<char>| var_of_line(l);
    let ls = seq![a, b];
    assert(ls.drop_last() =~= seq![a]);
    assert(seq![a].drop_last() =~= Seq::<Seq<char>>::empty());
    assert(seq![a].last() == a);
    assert(ls.last() == b);
    assert(f(a) == Some((k1, v1)));
    assert(f(b) == Some((k2, v2)));
    assert(Seq::<Seq<char>>::empty().filter_map(f) =~= Seq::<(Seq<char>, Seq<char>)>::empty());
    assert(seq![a].filter_map(f) =~= seq![(k1, v1)]);
    assert(ls.filter_map(f) =~= seq![(k1, v1), (k2, v2)]);
}

/// The variables of a built-in environment: `baseUrl`, then `apiKey`.
pub open spec fn builtin_vars(key: Seq<char>) -> Seq<(Seq<char>, Seq<char>)> {
    seq![("baseUrl"@, "https://httpbin.org"@), ("apiKey"@, key)]
}

/// Substituting the built-in variables into text without `{{` changes
/// nothing.
proof fn lemma_builtin_plain(t: Seq<char>, key: Seq<char>)
    requires
        no_double_brace(t),
    ensures
        substitute_spec(t, builtin_vars(key)) == t,
        no_double_brace(substitute_spec(t, builtin_vars(key))),
{
    reveal_with_fuel(substitute_spec, 3);
    reveal_strlit("baseUrl");
    reveal_strlit("apiKey");
    let vars = builtin_vars(key);
    assert(vars.drop_last() =~= seq![vars[0]]);
    assert(seq![vars[0]].drop_last() =~= Seq::<(Seq<char>, Seq<char>)>::empty());
    lemma_replace_without_double_brace(t, placeholder_spec(vars[0].0), vars[0].1);
    lemma_replace_without_double_brace(t, placeholder_spec(vars[1].0), vars[1].1);
}

/// Substituting the built-in variables into `{{baseUrl}}` followed by a
/// path without `{` gives the base URL followed by the path.
proof fn lemma_builtin_url(path: Seq<char>, key: Seq<char>)
    requires
        !path.contains('{'),
        !key.contains('{'),
    ensures
        substitute_spec(placeholder_spec("baseUrl"@) + path, builtin_vars(key))
            == "https://httpbin.org"@ + path,
        no_double_brace(substitute_spec(placeholder_spec("baseUrl"@) + path, builtin_vars(key))),
{
    reveal_with_fuel(substitute_spec, 3);
    reveal_strlit("baseUrl");
    reveal_strlit("apiKey");
    reveal_strlit("https://httpbin.org");
    let vars = builtin_vars(key);
    let u = "https://httpbin.org"@;
    assert(vars.drop_last() =~= seq![vars[0]]);
    assert(seq![vars[0]].drop_last() =~= Seq::<(Seq<char>, Seq<char>)>::empty());
    let p0 = placeholder_spec(vars[0].0);
    lemma_replace_first(Seq::empty(), p0, path, u);
    assert(Seq::<char>::empty() + p0 + path =~= p0 + path);
    lemma_no_brace(path);
    lemma_replace_without_double_brace(path, p0, u);
    assert(Seq::<char>::empty() + u + path =~= u + path);
    assert(!(u + path).contains('{')) by {
        if (u + path).contains('{') {
            let j = choose|j: int| 0 <= j < (u + path).len() && (u + path)[j] == '{';
            if j >= u.len() {
                assert(path[j - u.len()] == '{');
                assert(path.contains('{'));
            }
        }
    }
    lemma_no_brace(u + path);
    lemma_replace_without_double_brace(u + path, placeholder_spec(vars[1].0), vars[1].1);
}

/// Substituting the built-in variables into text without `{` followed by
/// `{{apiKey}}` gives the text followed by the key.
proof fn lemma_builtin_key_tail(a: Seq<char>, key: Seq<char>)
    requires
        !a.contains('{'),
        !key.contains('{'),
    ensures
        substitute_spec(a + placeholder_spec("apiKey"@), builtin_vars(key)) == a + key,
        no_double_brace(substitute_spec(a + placeholder_spec("apiKey"@), builtin_vars(key))),
{
    reveal_with_fuel(substitute_spec, 3);
    reveal_strlit("baseUrl");
    reveal_strlit("apiKey");
    let vars = builtin_vars(key);
    assert(vars.drop_last() =~= seq![vars[0]]);
    assert(seq![vars[0]].drop_last() =~= Seq::<(Seq<char>, Seq<char>)>::empty());
    let p1 = placeholder_spec("apiKey"@);
    lemma_replace_short_tail(a, p1, placeholder_spec(vars[0].0), vars[0].1);
    lemma_replace_first(a, p1, Seq::empty(), key);
    assert(a + p1 + Seq::<char>::empty() =~= a + p1);
    assert(replace_spec(Seq::<char>::empty(), p1, key) == Seq::<char>::empty());
    assert(a + key + Seq::<char>::empty() =~= a + key);
    assert(!(a + key).contains('{')) by {
        if (a + key).contains('{') {
            let j = choose|j: int| 0 <= j < (a + key).len() && (a + key)[j] == '{';
            if j < a.len() {
                assert(a[j] == '{');
                assert(a.contains('{'));
            } else {
                assert(key[j - a.len()] == '{');
                assert(key.contains('{'));
            }
        }
    }
    lemma_no_brace(a + key);
}

/// The key of built-in environment `e`.
pub open spec fn builtin_key(e: int) -> Seq<char> {
    if e == 0 {
        "dev_key_xyz"@
    } else {
        "prod_key_abc"@
    }
}

/// Substituting `vars` into each text of `req` leaves no `{{`.
pub open spec fn fully_substituted(req: RequestView, vars: Seq<(Seq<char>, Seq<char>)>) -> bool {
    &&& no_double_brace(substitute_spec(req.url, vars))
    &&& no_double_brace(substitute_spec(req.headers, vars))
    &&& no_double_brace(substitute_spec(req.params, vars))
    &&& no_double_brace(substitute_spec(req.body, vars))
}

pub(crate) proof fn lemma_builtin_env(e: int)
    requires
        0 <= e < 2,
    ensures
        env_vars_spec(default_environments_spec()[e].variables) == builtin_vars(builtin_key(e)),
{
    reveal_strlit("baseUrl");
    reveal_strlit("apiKey");
    reveal_strlit("https://httpbin.org");
    reveal_strlit("dev_key_xyz");
    reveal_strlit("prod_key_abc");
    reveal_strlit("baseUrl=https://httpbin.org\napiKey=dev_key_xyz");
    reveal_strlit("baseUrl=https://httpbin.org\napiKey=prod_key_abc");
    let k1 = "baseUrl"@;
    let v1 = "https://httpbin.org"@;
    let k2 = "apiKey"@;
    let v2 = builtin_key(e);
    assert(!k1.contains('='));
    assert(!k2.contains('='));
    assert(!(k1 + seq!['='] + v1).contains('\n'));
    assert(!(k2 + seq!['='] + v2).contains('\n'));
    lemma_two_vars(k1, v1, k2, v2);
    assert(default_environments_spec()[e].variables =~= k1 + seq!['='] + v1 + seq!['\n'] + k2
        + seq!['='] + v2);
}

pub(crate) proof fn lemma_builtin_key_plain(e: int)
    requires
        0 <= e < 2,
    ensures
        !builtin_key(e).contains('{'),
{
    reveal_strlit("dev_key_xyz");
    reveal_strlit("prod_key_abc");
}

proof fn lemma_builtin_request_0(key: Seq<char>)
    requires
        !key.contains('{'),
    ensures
        fully_substituted(default_requests_spec()[0], builtin_vars(key)),
{
    reveal_strlit("{{baseUrl}}/json");
    reveal_strlit("/json");
    reveal_strlit("baseUrl");
    reveal_strlit("apiKey");
    reveal_strlit(
        "Accept: application/json\nUser-Agent: RestDeck-TUI\nAuthorization: Bearer {{apiKey}}",
    );
    reveal_strlit("Accept: application/json\nUser-Agent: RestDeck-TUI\nAuthorization: Bearer ");
    reveal_strlit("limit=10\npage=1");
    reveal_strlit("");
    let req = default_requests_spec()[0];
    assert(req.url =~= placeholder_spec("baseUrl"@) + "/json"@);
    assert(!"/json"@.contains('{'));
    lemma_builtin_url("/json"@, key);
    let a = "Accept: application/json\nUser-Agent: RestDeck-TUI\nAuthorization: Bearer "@;
    assert(req.headers =~= a + placeholder_spec("apiKey"@));
    assert(!a.contains('{'));
    lemma_builtin_key_tail(a, key);
    assert(!req.params.contains('{'));
    lemma_no_brace(req.params);
    lemma_builtin_plain(req.params, key);
    lemma_no_brace(req.body);
    lemma_builtin_plain(req.body, key);
}

proof fn lemma_builtin_request_1(key: Seq<char>)
    requires
        !key.contains('{'),
    ensures
        fully_substituted(default_requests_spec()[1], builtin_vars(key)),
{
    reveal_strlit("{{baseUrl}}/post");
    reveal_strlit("/post");
    reveal_strlit("baseUrl");
    reveal_strlit("Content-Type: application/json");
    reveal_strlit("");
    reveal_strlit("{\n  \"name\": \"Eleanor Vance\",\n  \"role\": \"admin\"\n}");
    let req = default_requests_spec()[1];
    assert(req.url =~= placeholder_spec("baseUrl"@) + "/post"@);
    assert(!"/post"@.contains('{'));
    lemma_builtin_url("/post"@, key);
    assert(!req.headers.contains('{'));
    lemma_no_brace(req.headers);
    lemma_builtin_plain(req.headers, key);
    lemma_no_brace(req.params);
    lemma_builtin_plain(req.params, key);
    assert(no_double_brace(req.body));
    lemma_builtin_plain(req.body, key);
}

proof fn lemma_builtin_request_2(key: Seq<char>)
    requires
        !key.contains('{'),
    ensures
        fully_substituted(default_requests_spec()[2], builtin_vars(key)),
{
    reveal_strlit("{{baseUrl}}/put");
    reveal_strlit("/put");
    reveal_strlit("baseUrl");
    reveal_strlit("Content-Type: application/json");
    reveal_strlit("");
    reveal_strlit("{\n  \"role\": \"super-admin\"\n}");
    let req = default_requests_spec()[2];
    assert(req.url =~= placeholder_spec("baseUrl"@) + "/put"@);
    assert(!"/put"@.contains('{'));
    lemma_builtin_url("/put"@, key);
    assert(!req.headers.contains('{'));
    lemma_no_brace(req.headers);
    lemma_builtin_plain(req.headers, key);
    lemma_no_brace(req.params);
    lemma_builtin_plain(req.params, key);
    assert(no_double_brace(req.body));
    lemma_builtin_plain(req.body, key);
}

proof fn lemma_builtin_request_3(key: Seq<char>)
    requires
        !key.contains('{'),
    ensures
        fully_substituted(default_requests_spec()[3], builtin_vars(key)),
{
    reveal_strlit("{{baseUrl}}/delete");
    reveal_strlit("/delete");
    reveal_strlit("baseUrl");
    reveal_strlit("");
    let req = default_requests_spec()[3];
    assert(req.url =~= placeholder_spec("baseUrl"@) + "/delete"@);
    assert(!"/delete"@.contains('{'));
    lemma_builtin_url("/delete"@, key);
    lemma_no_brace(req.headers);
    lemma_builtin_plain(req.headers, key);
    lemma_builtin_plain(req.params, key);
    lemma_builtin_plain(req.body, key);
}

proof fn lemma_builtin_request_4(key: Seq<char>)
    requires
        !key.contains('{'),
    ensures
        fully_substituted(default_requests_spec()[4], builtin_vars(key)),
{
    reveal_strlit("{{baseUrl}}/delay/3");
    reveal_strlit("/delay/3");
    reveal_strlit("baseUrl");
    reveal_strlit("");
    let req = default_requests_spec()[4];
    assert(req.url =~= placeholder_spec("baseUrl"@) + "/delay/3"@);
    assert(!"/delay/3"@.contains('{'));
    lemma_builtin_url("/delay/3"@, key);
    lemma_no_brace(req.headers);
    lemma_builtin_plain(req.headers, key);
    lemma_builtin_plain(req.params, key);
    lemma_builtin_plain(req.body, key);
}

/// Each built-in environment defines `baseUrl` (the same for both) and
/// `apiKey` (its own key), and these are all the placeholders the built-in
/// requests use: substituting a built-in environment into any built-in
/// request leaves no `{{` in its URL, headers, parameters or body.
pub proof fn law_builtin_placeholders_defined(r: int, e: int)
    requires
        0 <= r < 5,
        0 <= e < 2,
    ensures
        env_vars_spec(default_environments_spec()[e].variables) == builtin_vars(builtin_key(e)),
        fully_substituted(
            default_requests_spec()[r],
            env_vars_spec(default_environments_spec()[e].variables),
        ),
{
    lemma_builtin_env(e);
    lemma_builtin_key_plain(e);
    let key = builtin_key(e);
    if r == 0 {
        lemma_builtin_request_0(key);
    } else if r == 1 {
        lemma_builtin_request_1(key);
    } else if r == 2 {
        lemma_builtin_request_2(key);
    } else if r == 3 {
        lemma_builtin_request_3(key);
    } else {
        lemma_builtin_request_4(key);
    }
}

} // verus!

//! What the main operations give, stated directly over their inputs and
//! results: the placeholders that interpolation fills, the body and URL of
//! an outgoing request, the editor a typed key goes to, and the colour of
//! a JSON value.
use vstd::prelude::*;

use crate::app::{default_environments_spec, App, Focus, RequestTab, SidebarMode, SidebarSelection};
use crate::events::{EditTarget, KeyCode, KeyCommand, KeyPress};
use crate::http::{
    body_spec, final_url_spec, header_name_accepted, header_of_line, header_value_accepted,
    query_pair_of_line,
};
use crate::screen::{styled_as, value_hue_spec, Hue, LineStyle};
use crate::screen::unicode_numeric;
use crate::laws::{
    builtin_key, lemma_builtin_env, lemma_builtin_key_plain, lemma_no_brace, lemma_replace_first,
    lemma_replace_without_double_brace,
};
use crate::text::{
    occurs_at_spec, replace_spec, trim_end_spec, trim_spec, trim_start_spec, unicode_white_space,
};
use crate::vars::{placeholder_spec, substitute_spec};

verus! {

// ---------------------------------------------------------------------
// Filling placeholders
// ---------------------------------------------------------------------

/// `{{key}}`, written out.
pub open spec fn braced(key: Seq<char>) -> Seq<char> {
    seq!['{', '{'] + key + seq!['}', '}']
}

/// A key that can stand in a placeholder: no braces in it.
pub open spec fn plain_key(k: Seq<char>) -> bool {
    !k.contains('{') && !k.contains('}')
}

/// Where no occurrence of `pat` starts inside `x`, replacing in `x + y`
/// keeps `x` and replaces in `y`.
proof fn lemma_replace_after_prefix(x: Seq<char>, y: Seq<char>, pat: Seq<char>, rep: Seq<char>)
    requires
        forall|i: int| 0 <= i < x.len() ==> !occurs_at_spec(x + y, pat, i),
    ensures
        replace_spec(x + y, pat, rep) == x + replace_spec(y, pat, rep),
    decreases x.len(),
{
    let s = x + y;
    if x.len() == 0 {
        assert(s =~= y);
        assert(x + replace_spec(y, pat, rep) =~= replace_spec(y, pat, rep));
    } else if pat.len() == 0 || s.len() < pat.len() {
        if pat.len() > 0 {
            assert(replace_spec(y, pat, rep) == y);
        }
    } else {
        assert(!occurs_at_spec(s, pat, 0));
        assert(s.subrange(0, pat.len() as int) =~= s.take(pat.len() as int));
        let x2 = x.drop_first();
        assert(s.drop_first() =~= x2 + y);
        assert forall|i: int| 0 <= i < x2.len() implies !occurs_at_spec(x2 + y, pat, i) by {
            if occurs_at_spec(x2 + y, pat, i) {
                assert(s.subrange(i + 1, i + 1 + pat.len()) =~= (x2 + y).subrange(i, i + pat.len()));
                assert(occurs_at_spec(s, pat, i + 1));
            }
        }
        lemma_replace_after_prefix(x2, y, pat, rep);
        assert(seq![s[0]] + (x2 + replace_spec(y, pat, rep)) =~= x + replace_spec(y, pat, rep));
    }
}

/// No placeholder of another key starts inside `a{{k}}`, where `a` and
/// both keys hold no `{` (and the keys no `}`).
proof fn lemma_other_placeholder_not_in_prefix(a: Seq<char>, k: Seq<char>, b: Seq<char>, k2: Seq<char>)
    requires
        !a.contains('{'),
        plain_key(k),
        plain_key(k2),
        k != k2,
    ensures
        forall|i: int| 0 <= i < (a + braced(k)).len() ==> !occurs_at_spec(a + braced(k) + b, braced(k2), i),
{
    let t = a + braced(k) + b;
    let pat = braced(k2);
    let p = a.len() as int;
    let n = k.len() as int;
    assert forall|i: int| 0 <= i < (a + braced(k)).len() implies !occurs_at_spec(t, pat, i) by {
        if occurs_at_spec(t, pat, i) {
            let sub = t.subrange(i, i + pat.len());
            assert(sub[0] == t[i] && sub[0] == '{');
            assert(sub[1] == t[i + 1] && sub[1] == '{');
            if i < p {
                assert(t[i] == a[i]);
                assert(a.contains(a[i]));
            } else if i == p {
                if k2.len() < n {
                    let m = k2.len() as int;
                    assert(sub[2 + m] == pat[2 + m]);
                    assert(pat[2 + m] == '}');
                    assert(t[p + 2 + m] == k[m]);
                    assert(k.contains(k[m]));
                } else if k2.len() > n {
                    assert(sub[2 + n] == pat[2 + n]);
                    assert(pat[2 + n] == k2[n]);
                    assert(t[p + 2 + n] == '}');
                    assert(k2.contains(k2[n]));
                } else {
                    assert forall|m: int| 0 <= m < n implies k2[m] == k[m] by {
                        assert(sub[2 + m] == pat[2 + m]);
                        assert(t[p + 2 + m] == k[m]);
                    }
                    assert(k2 =~= k);
                }
            } else if i == p + 1 {
                if n > 0 {
                    assert(t[p + 2] == k[0]);
                    assert(k.contains(k[0]));
                } else {
                    assert(t[p + 2] == '}');
                }
            } else if i < p + 2 + n {
                assert(t[i] == k[i - p - 2]);
                assert(k.contains(k[i - p - 2]));
            } else {
                assert(t[i] == '}');
            }
        }
    }
}

/// Variables whose keys all differ from `k` leave `a{{k}}` in front of
/// `b` and substitute into `b`.
proof fn lemma_substitute_other_keys(
    a: Seq<char>,
    k: Seq<char>,
    b: Seq<char>,
    vars: Seq<(Seq<char>, Seq<char>)>,
)
    requires
        !a.contains('{'),
        plain_key(k),
        forall|i: int| 0 <= i < vars.len() ==> plain_key(#[trigger] vars[i].0) && vars[i].0 != k,
    ensures
        substitute_spec(a + braced(k) + b, vars) == a + braced(k) + substitute_spec(b, vars),
    decreases vars.len(),
{
    if vars.len() == 0 {
    } else {
        let prev = vars.drop_last();
        assert forall|i: int| 0 <= i < prev.len() implies plain_key(#[trigger] prev[i].0)
            && prev[i].0 != k by {
            assert(prev[i] == vars[i]);
        }
        lemma_substitute_other_keys(a, k, b, prev);
        let last = vars[vars.len() - 1];
        let c = substitute_spec(b, prev);
        assert(placeholder_spec(last.0) =~= braced(last.0));
        lemma_other_placeholder_not_in_prefix(a, k, c, last.0);
        assert(a + braced(k) + c =~= (a + braced(k)) + c);
        lemma_replace_after_prefix(a + braced(k), c, braced(last.0), last.1);
    }
}

/// A pattern that starts with `{` does not start inside text without `{`.
proof fn lemma_brace_pattern_not_in_prefix(x: Seq<char>, y: Seq<char>, pat: Seq<char>)
    requires
        !x.contains('{'),
        pat.len() > 0,
        pat[0] == '{',
    ensures
        forall|i: int| 0 <= i < x.len() ==> !occurs_at_spec(x + y, pat, i),
{
    assert forall|i: int| 0 <= i < x.len() implies !occurs_at_spec(x + y, pat, i) by {
        if occurs_at_spec(x + y, pat, i) {
            assert((x + y).subrange(i, i + pat.len())[0] == x[i]);
            assert(x.contains(x[i]));
        }
    }
}

/// Text without `{` keeps no `{` after `v` (also without `{`) is put in.
proof fn lemma_no_brace_join(a: Seq<char>, v: Seq<char>)
    requires
        !a.contains('{'),
        !v.contains('{'),
    ensures
        !(a + v).contains('{'),
{
    let t = a + v;
    if t.contains('{') {
        let i = choose|i: int| 0 <= i < t.len() && t[i] == '{';
        if i < a.len() {
            assert(a[i] == '{');
        } else {
            assert(v[i - a.len()] == '{');
        }
    }
}

/// Substitution puts a variable's value in place of its placeholder: in
/// `a{{k}}b`, where `k` is the key of variable `j` and of no earlier
/// variable, `a` and the value hold no `{`, and the keys up to `j` no
/// brace, the placeholder is replaced by the value, `a` stays, and `b` is
/// substituted in turn (so every `{{k}}` in the text is filled).
pub proof fn law_substitute_fills_placeholder(
    a: Seq<char>,
    b: Seq<char>,
    vars: Seq<(Seq<char>, Seq<char>)>,
    j: int,
)
    requires
        !a.contains('{'),
        0 <= j < vars.len(),
        !vars[j].1.contains('{'),
        forall|i: int| 0 <= i <= j ==> plain_key(#[trigger] vars[i].0),
        forall|i: int| 0 <= i < j ==> #[trigger] vars[i].0 != vars[j].0,
    ensures
        substitute_spec(a + braced(vars[j].0) + b, vars) == a + vars[j].1 + substitute_spec(b, vars),
    decreases vars.len(),
{
    let k = vars[j].0;
    let v = vars[j].1;
    let prev = vars.drop_last();
    let last = vars[vars.len() - 1];
    assert(placeholder_spec(last.0) =~= braced(last.0));
    assert(plain_key(vars[j].0));
    if j == vars.len() - 1 {
        assert forall|i: int| 0 <= i < prev.len() implies plain_key(#[trigger] prev[i].0)
            && prev[i].0 != k by {
            assert(prev[i] == vars[i]);
        }
        lemma_substitute_other_keys(a, k, b, prev);
        let c = substitute_spec(b, prev);
        assert(braced(k).len() > 0 && braced(k)[0] == '{');
        lemma_replace_first(a, braced(k), c, v);
    } else {
        assert forall|i: int| 0 <= i <= j implies plain_key(#[trigger] prev[i].0) by {
            assert(prev[i] == vars[i]);
        }
        assert forall|i: int| 0 <= i < j implies #[trigger] prev[i].0 != prev[j].0 by {
            assert(prev[i] == vars[i]);
            assert(prev[j] == vars[j]);
        }
        assert(prev[j] == vars[j]);
        law_substitute_fills_placeholder(a, b, prev, j);
        let c = substitute_spec(b, prev);
        lemma_no_brace_join(a, v);
        let pl = braced(last.0);
        assert(pl[0] == '{');
        lemma_brace_pattern_not_in_prefix(a + v, c, pl);
        assert(a + v + c =~= (a + v) + c);
        lemma_replace_after_prefix(a + v, c, pl, last.1);
        assert((a + v) + replace_spec(c, pl, last.1) =~= a + v + substitute_spec(b, vars));
    }
}

/// Text without `{` holds no placeholder and is left as it is by
/// substitution.
pub proof fn law_substitute_keeps_plain_text(t: Seq<char>, vars: Seq<(Seq<char>, Seq<char>)>)
    requires
        !t.contains('{'),
    ensures
        substitute_spec(t, vars) == t,
    decreases vars.len(),
{
    if vars.len() > 0 {
        law_substitute_keeps_plain_text(t, vars.drop_last());
        let pl = placeholder_spec(vars.last().0);
        lemma_no_brace(t);
        lemma_replace_without_double_brace(t, pl, vars.last().1);
    }
}

/// The request sent has every placeholder filled: where the selected
/// request's URL, headers, parameters or body is `a{{k}}b` (`a` and `b`
/// without `{`) and the active environment defines `k` first as variable
/// `j` with a value without `{` (the keys up to it holding no brace), that
/// text goes out as `a` + value + `b`.
/// The name and the method go out as written.
pub proof fn law_interpolation_fills_placeholders<'a>(app: &App<'a>, a: Seq<char>, b: Seq<char>, j: int)
    requires
        app.sidebar_index < app.collections@.len(),
        !a.contains('{'),
        !b.contains('{'),
        0 <= j < app.active_vars().len(),
        !app.active_vars()[j].1.contains('{'),
        forall|i: int| 0 <= i <= j ==> plain_key(#[trigger] app.active_vars()[i].0),
        forall|i: int| 0 <= i < j ==> #[trigger] app.active_vars()[i].0 != app.active_vars()[j].0,
    ensures
        ({
            let req = app.collections@[app.sidebar_index as int]@;
            let sent = app.interpolated_request();
            let text = a + braced(app.active_vars()[j].0) + b;
            let filled = a + app.active_vars()[j].1 + b;
            &&& sent.name == req.name
            &&& sent.method == req.method
            &&& req.url == text ==> sent.url == filled
            &&& req.headers == text ==> sent.headers == filled
            &&& req.params == text ==> sent.params == filled
            &&& req.body == text ==> sent.body == filled
        }),
{
    law_substitute_fills_placeholder(a, b, app.active_vars(), j);
    law_substitute_keeps_plain_text(b, app.active_vars());
}

/// With a built-in environment active (`d` = 0 for Dev, 1 for Prod), a
/// request text `a{{apiKey}}b` goes out with the environment's key in
/// place of the placeholder, and `a{{baseUrl}}b` with
/// `https://httpbin.org` (for `a` and `b` without `{`).
pub proof fn law_builtin_environment_fills<'a>(app: &App<'a>, d: int, a: Seq<char>, b: Seq<char>)
    requires
        app.sidebar_index < app.collections@.len(),
        0 <= d < 2,
        app.active_env_index matches Some(e) && e < app.environments@.len()
            && app.environments@[e as int]@ == default_environments_spec()[d],
        !a.contains('{'),
        !b.contains('{'),
    ensures
        ({
            let req = app.collections@[app.sidebar_index as int]@;
            let sent = app.interpolated_request();
            &&& req.body == a + "{{apiKey}}"@ + b ==> sent.body == a + builtin_key(d) + b
            &&& req.headers == a + "{{apiKey}}"@ + b ==> sent.headers == a + builtin_key(d) + b
            &&& req.url == a + "{{baseUrl}}"@ + b ==> sent.url == a + "https://httpbin.org"@ + b
        }),
{
    reveal_strlit("{{apiKey}}");
    reveal_strlit("{{baseUrl}}");
    reveal_strlit("apiKey");
    reveal_strlit("baseUrl");
    reveal_strlit("https://httpbin.org");
    lemma_builtin_env(d);
    lemma_builtin_key_plain(d);
    let vars = app.active_vars();
    assert(vars == crate::laws::builtin_vars(builtin_key(d)));
    assert(vars[0].0 == "baseUrl"@ && vars[1].0 == "apiKey"@);
    assert(vars[0].0 != vars[1].0) by {
        assert(vars[0].0[0] != vars[1].0[0]);
    }
    assert(plain_key(vars[0].0));
    assert(plain_key(vars[1].0));
    assert(!vars[0].1.contains('{'));
    assert("{{apiKey}}"@ =~= braced(vars[1].0));
    assert("{{baseUrl}}"@ =~= braced(vars[0].0));
    law_interpolation_fills_placeholders(app, a, b, 1);
    law_interpolation_fills_placeholders(app, a, b, 0);
}

// ---------------------------------------------------------------------
// Trimming
// ---------------------------------------------------------------------

proof fn lemma_trim_start_cut(s: Seq<char>) -> (i: int)
    ensures
        0 <= i <= s.len(),
        trim_start_spec(s) == s.skip(i),
        forall|k: int| 0 <= k < i ==> unicode_white_space(#[trigger] s[k]),
        i < s.len() ==> !unicode_white_space(s[i]),
    decreases s.len(),
{
    if s.len() > 0 && unicode_white_space(s[0]) {
        let i0 = lemma_trim_start_cut(s.drop_first());
        assert(s.drop_first().skip(i0) =~= s.skip(i0 + 1));
        assert forall|k: int| 0 <= k < i0 + 1 implies unicode_white_space(#[trigger] s[k]) by {
            if k > 0 {
                assert(s[k] == s.drop_first()[k - 1]);
            }
        }
        assert(i0 + 1 < s.len() ==> s[i0 + 1] == s.drop_first()[i0]);
        i0 + 1
    } else {
        assert(s.skip(0) =~= s);
        0
    }
}

proof fn lemma_trim_end_cut(s: Seq<char>) -> (j: int)
    ensures
        0 <= j <= s.len(),
        trim_end_spec(s) == s.take(j),
        forall|k: int| j <= k < s.len() ==> unicode_white_space(#[trigger] s[k]),
        j > 0 ==> !unicode_white_space(s[j - 1]),
    decreases s.len(),
{
    if s.len() > 0 && unicode_white_space(s.last()) {
        let j0 = lemma_trim_end_cut(s.drop_last());
        assert(s.drop_last().take(j0) =~= s.take(j0));
        assert forall|k: int| j0 <= k < s.len() implies unicode_white_space(#[trigger] s[k]) by {
            if k < s.len() - 1 {
                assert(s[k] == s.drop_last()[k]);
            }
        }
        j0
    } else {
        assert(s.take(s.len() as int) =~= s);
        s.len() as int
    }
}

/// Trimming removes whitespace at both ends and nothing else: the result
/// is the part of the text from `r.0` to `r.1`, everything before and after
/// it is whitespace, and a non-empty result starts and ends with a
/// character that is not whitespace.
pub proof fn law_trim_cuts_outer_whitespace(s: Seq<char>) -> (r: (int, int))
    ensures
        0 <= r.0 <= r.1 <= s.len(),
        trim_spec(s) == s.subrange(r.0, r.1),
        forall|k: int| 0 <= k < r.0 ==> unicode_white_space(#[trigger] s[k]),
        forall|k: int| r.1 <= k < s.len() ==> unicode_white_space(#[trigger] s[k]),
        trim_spec(s).len() > 0 ==> !unicode_white_space(trim_spec(s)[0]) && !unicode_white_space(
            trim_spec(s).last(),
        ),
{
    let i = lemma_trim_start_cut(s);
    let t = s.skip(i);
    let j = lemma_trim_end_cut(t);
    assert(t.take(j) =~= s.subrange(i, i + j));
    assert forall|k: int| i + j <= k < s.len() implies unicode_white_space(#[trigger] s[k]) by {
        assert(s[k] == t[k - i]);
    }
    if j > 0 {
        assert(trim_spec(s)[0] == s[i]);
        assert(trim_spec(s).last() == t[j - 1]);
    }
    (i, i + j)
}

// ---------------------------------------------------------------------
// The outgoing request
// ---------------------------------------------------------------------

/// The body goes out exactly when the method is not `GET` and the body is
/// not empty, and then it goes out as written; whatever the method (`POST`,
/// `PUT`, `DELETE`, `PATCH` or any other text).
pub proof fn law_body_goes_out_unless_get_or_empty(method: Seq<char>, body: Seq<char>)
    ensures
        method != "GET"@ && body.len() > 0 ==> body_spec(method, body) == Some(body),
        method == "GET"@ || body.len() == 0 ==> body_spec(method, body) is None,
{
}

/// The URL sent always has a scheme: `http://` or `https://`. The URL text
/// is trimmed; where it starts with neither scheme, `https://` is put
/// before it, and otherwise it goes out as trimmed.
pub proof fn law_url_gets_a_scheme(url: Seq<char>)
    ensures
        "http://"@.is_prefix_of(final_url_spec(url)) || "https://"@.is_prefix_of(final_url_spec(url)),
        !"http://"@.is_prefix_of(trim_spec(url)) && !"https://"@.is_prefix_of(trim_spec(url))
            ==> final_url_spec(url) == "https://"@ + trim_spec(url),
        "http://"@.is_prefix_of(trim_spec(url)) || "https://"@.is_prefix_of(trim_spec(url))
            ==> final_url_spec(url) == trim_spec(url),
{
    reveal_strlit("https://");
    assert(("https://"@ + trim_spec(url)).subrange(0, 8) =~= "https://"@);
}

/// In `a + sep + b` where `a` holds no `sep`, the first `sep` is right after
/// `a`.
proof fn lemma_first_separator(a: Seq<char>, sep: char, b: Seq<char>)
    requires
        !a.contains(sep),
    ensures
        crate::text::find_char_spec(a + seq![sep] + b, sep) == Some(a.len() as int),
        (a + seq![sep] + b).take(a.len() as int) == a,
        (a + seq![sep] + b).skip(a.len() as int + 1) == b,
{
    let l = a + seq![sep] + b;
    assert forall|j: int| 0 <= j < a.len() implies l[j] != sep by {
        assert(l[j] == a[j]);
        if a[j] == sep {
            assert(a.contains(sep));
        }
    }
    assert(crate::text::is_first_index(l, sep, a.len() as int));
    let p = choose|i: int| crate::text::is_first_index(l, sep, i);
    crate::text::lemma_first_index_unique(l, sep, a.len() as int, p);
    assert(l.take(a.len() as int) =~= a);
    assert(l.skip(a.len() as int + 1) =~= b);
}

/// A parameter line `key=value` (with nothing to trim around it, and no
/// `=` in the key) gives the pair of the trimmed key and the trimmed value,
/// cut at the first `=`; a non-blank line without `=` gives the key with an
/// empty value; a blank line gives none.
pub proof fn law_query_line_cut_at_first_equals(line: Seq<char>, a: Seq<char>, b: Seq<char>)
    requires
        trim_spec(line) == line,
    ensures
        line == a + seq!['='] + b && !a.contains('=') ==> query_pair_of_line(line) == Some(
            (trim_spec(a), trim_spec(b)),
        ),
        line.len() > 0 && !line.contains('=') ==> query_pair_of_line(line) == Some(
            (line, Seq::<char>::empty()),
        ),
        line.len() == 0 ==> query_pair_of_line(line) is None,
{
    if line == a + seq!['='] + b && !a.contains('=') {
        lemma_first_separator(a, '=', b);
    }
    if !line.contains('=') {
        if exists|i: int| crate::text::is_first_index(line, '=', i) {
            let i = choose|i: int| crate::text::is_first_index(line, '=', i);
            assert(line.contains(line[i]));
        }
    }
}

/// A header line `Name: value` (with nothing to trim around it, and no `:`
/// in the name) gives the trimmed name and value, cut at the first `:`,
/// where reqwest accepts both, and none otherwise; a line without `:`
/// gives none.
pub proof fn law_header_line_cut_at_first_colon(line: Seq<char>, a: Seq<char>, b: Seq<char>)
    requires
        trim_spec(line) == line,
    ensures
        line == a + seq![':'] + b && !a.contains(':') ==> header_of_line(line) == if header_name_accepted(
            trim_spec(a),
        ) && header_value_accepted(trim_spec(b)) {
            Some((trim_spec(a), trim_spec(b)))
        } else {
            None
        },
        !line.contains(':') ==> header_of_line(line) is None,
{
    if line == a + seq![':'] + b && !a.contains(':') {
        lemma_first_separator(a, ':', b);
    }
    if !line.contains(':') {
        if exists|i: int| crate::text::is_first_index(line, ':', i) {
            let i = choose|i: int| crate::text::is_first_index(line, ':', i);
            assert(line.contains(line[i]));
        }
    }
}

// ---------------------------------------------------------------------
// Keys typed into the tab pane
// ---------------------------------------------------------------------

/// In the collections mode, a plain key (no Control, not Tab or Shift-Tab)
/// typed with the focus on the tab pane goes to the editor shown there:
/// the headers, parameters or body editor of a request, by its tab, or the
/// variables editor of an environment.
pub proof fn law_typed_key_goes_to_shown_editor<'a>(app: &App<'a>, key: KeyPress)
    requires
        app.sidebar_mode == SidebarMode::Collections,
        app.focus == Focus::RequestTabContent,
        !key.ctrl,
        key.code != KeyCode::Tab,
        key.code != KeyCode::BackTab,
    ensures
        app.selection() is Request && app.request_tab == RequestTab::Headers ==> app.key_command(key)
            == KeyCommand::Edit(EditTarget::Headers),
        app.selection() is Request && app.request_tab == RequestTab::Params ==> app.key_command(key)
            == KeyCommand::Edit(EditTarget::Params),
        app.selection() is Request && app.request_tab == RequestTab::Body ==> app.key_command(key)
            == KeyCommand::Edit(EditTarget::Body),
        app.selection() is Environment ==> app.key_command(key) == KeyCommand::Edit(
            EditTarget::Variables,
        ),
{
}

/// What each key does, by the state it is pressed in: Ctrl-C quits, and so
/// does Esc in the sidebar; Ctrl-Y switches the sidebar mode; Tab and
/// Shift-Tab move the focus; Ctrl-E sends; on a request in the collections
/// mode Ctrl-H, Ctrl-P and Ctrl-B show the headers, parameters and body
/// tab and Ctrl-M cycles the method; in the sidebar of the collections
/// mode Down (`j`) and Up (`k`) move the cursor one entry, wrapping at the
/// ends, and Enter opens a request or activates an environment; in the
/// history mode the sidebar keys do nothing and the tab pane only saves;
/// a plain key in the URL pane goes to the URL editor; Down (`j`) and Up
/// (`k`) scroll the response.
pub proof fn law_key_bindings<'a>(app: &App<'a>, key: KeyPress)
    requires
        app.sidebar_index < app.total_items(),
    ensures
        key.ctrl && key.code == KeyCode::Char('c') ==> app.key_command(key) == KeyCommand::Quit,
        app.focus == Focus::Sidebar && key.code == KeyCode::Esc ==> app.key_command(key)
            == KeyCommand::Quit,
        key.ctrl && key.code == KeyCode::Char('y') ==> app.key_command(key)
            == KeyCommand::ToggleMode,
        key.code == KeyCode::Tab ==> app.key_command(key) == KeyCommand::CycleFocus(true),
        key.code == KeyCode::BackTab ==> app.key_command(key) == KeyCommand::CycleFocus(false),
        key.ctrl && key.code == KeyCode::Char('e') ==> app.key_command(key) == KeyCommand::Send,
        ({
            let on_request = app.sidebar_mode == SidebarMode::Collections && app.selection() is Request
                && key.ctrl;
            &&& on_request && key.code == KeyCode::Char('h') ==> app.key_command(key)
                == KeyCommand::SelectTab(RequestTab::Headers)
            &&& on_request && key.code == KeyCode::Char('p') ==> app.key_command(key)
                == KeyCommand::SelectTab(RequestTab::Params)
            &&& on_request && key.code == KeyCode::Char('b') ==> app.key_command(key)
                == KeyCommand::SelectTab(RequestTab::Body)
            &&& on_request && key.code == KeyCode::Char('m') ==> app.key_command(key)
                == KeyCommand::CycleMethod
        }),
        ({
            let nav = !key.ctrl && app.focus == Focus::Sidebar && app.sidebar_mode
                == SidebarMode::Collections;
            let down = key.code == KeyCode::Down || key.code == KeyCode::Char('j');
            let up = key.code == KeyCode::Up || key.code == KeyCode::Char('k');
            &&& nav && down && app.sidebar_index + 1 < app.total_items() ==> app.key_command(key)
                == KeyCommand::MoveCursor((app.sidebar_index + 1) as usize)
            &&& nav && down && app.sidebar_index + 1 == app.total_items() ==> app.key_command(key)
                == KeyCommand::MoveCursor(0)
            &&& nav && up && app.sidebar_index > 0 ==> app.key_command(key)
                == KeyCommand::MoveCursor((app.sidebar_index - 1) as usize)
            &&& nav && up && app.sidebar_index == 0 ==> app.key_command(key)
                == KeyCommand::MoveCursor((app.total_items() - 1) as usize)
            &&& nav && key.code == KeyCode::Enter && app.selection() is Request
                ==> app.key_command(key) == KeyCommand::OpenRequest
            &&& nav && key.code == KeyCode::Enter && app.selection() is Environment
                ==> app.key_command(key) == KeyCommand::ActivateEnvironment(
                (app.sidebar_index - app.collections@.len()) as usize,
            )
        }),
        ({
            let plain = !key.ctrl && key.code != KeyCode::Tab && key.code != KeyCode::BackTab;
            &&& plain && app.focus == Focus::Sidebar && key.code != KeyCode::Esc && app.sidebar_mode
                == SidebarMode::History ==> app.key_command(key) == KeyCommand::Ignore
            &&& plain && app.focus == Focus::RequestTabContent && app.sidebar_mode
                == SidebarMode::History ==> app.key_command(key) == KeyCommand::SaveEditors
            &&& plain && app.focus == Focus::RequestUrl ==> app.key_command(key)
                == KeyCommand::Edit(EditTarget::Url)
            &&& plain && app.focus == Focus::Response && (key.code == KeyCode::Down || key.code
                == KeyCode::Char('j')) ==> app.key_command(key) == KeyCommand::Scroll(true)
            &&& plain && app.focus == Focus::Response && (key.code == KeyCode::Up || key.code
                == KeyCode::Char('k')) ==> app.key_command(key) == KeyCommand::Scroll(false)
        }),
{
    let idx = app.sidebar_index as int;
    let total = app.total_items();
    if idx + 1 < total {
        assert((idx + 1) % total == idx + 1) by (nonlinear_arith)
            requires
                0 <= idx + 1 < total,
        ;
    } else {
        assert((idx + 1) % total == 0) by (nonlinear_arith)
            requires
                idx + 1 == total,
                total > 0,
        ;
    }
}

// ---------------------------------------------------------------------
// Colours of JSON values
// ---------------------------------------------------------------------

/// `w` occurs in `s`.
pub open spec fn has_word(s: Seq<char>, w: Seq<char>) -> bool {
    exists|i: int| 0 <= i && i + w.len() <= s.len() && #[trigger] s.subrange(i, i + w.len()) == w
}

/// The value part of a JSON line is light green whenever it holds `true`
/// or `false`.
pub proof fn law_booleans_are_green(value: Seq<char>)
    requires
        has_word(value, "true"@) || has_word(value, "false"@),
    ensures
        value_hue_spec(value) == Hue::LightGreen,
{
    if has_word(value, "true"@) {
        let i = choose|i: int| 0 <= i && i + "true"@.len() <= value.len() && #[trigger] value.subrange(i, i + "true"@.len()) == "true"@;
        assert(occurs_at_spec(value, "true"@, i));
    } else {
        let i = choose|i: int| 0 <= i && i + "false"@.len() <= value.len() && #[trigger] value.subrange(i, i + "false"@.len()) == "false"@;
        assert(occurs_at_spec(value, "false"@, i));
    }
}

/// A highlighted response line whose value part (from its first `:` on)
/// holds `true` or `false` shows that part in light green.
pub proof fn law_highlighted_booleans_are_green(style: LineStyle, line: Seq<char>)
    requires
        styled_as(style, line),
    ensures
        match style {
            LineStyle::Field { value, value_hue, .. } => (has_word(value@, "true"@) || has_word(
                value@,
                "false"@,
            )) ==> value_hue == Hue::LightGreen,
            LineStyle::Whole { .. } => true,
        },
{
    match style {
        LineStyle::Field { value, value_hue, .. } => {
            if has_word(value@, "true"@) || has_word(value@, "false"@) {
                law_booleans_are_green(value@);
            }
        },
        LineStyle::Whole { .. } => {},
    }
}

/// `has_word` is occurrence as `str::contains` sees it.
proof fn lemma_has_word_is_contains(s: Seq<char>, w: Seq<char>)
    ensures
        has_word(s, w) == crate::text::contains_spec(s, w),
{
    if has_word(s, w) {
        let i = choose|i: int| 0 <= i && i + w.len() <= s.len() && #[trigger] s.subrange(i, i + w.len()) == w;
        assert(occurs_at_spec(s, w, i));
    }
    if crate::text::contains_spec(s, w) {
        let i = choose|i: int| occurs_at_spec(s, w, i);
        assert(s.subrange(i, i + w.len()) == w);
    }
}

/// The colour of the value part of a JSON line, in full: light green where
/// it holds `true` or `false`; otherwise yellow where it holds a numeric
/// character; otherwise light red where it holds `"`; otherwise white.
pub proof fn law_value_colours(value: Seq<char>)
    ensures
        has_word(value, "true"@) || has_word(value, "false"@) ==> value_hue_spec(value)
            == Hue::LightGreen,
        ({
            let no_bool = !has_word(value, "true"@) && !has_word(value, "false"@);
            let numeric = exists|i: int| 0 <= i < value.len() && unicode_numeric(#[trigger] value[i]);
            let quote = exists|i: int| 0 <= i < value.len() && #[trigger] value[i] == '"';
            &&& no_bool && numeric ==> value_hue_spec(value) == Hue::Yellow
            &&& no_bool && !numeric && quote ==> value_hue_spec(value) == Hue::LightRed
            &&& no_bool && !numeric && !quote ==> value_hue_spec(value) == Hue::White
        }),
{
    lemma_has_word_is_contains(value, "true"@);
    lemma_has_word_is_contains(value, "false"@);
    if exists|i: int| 0 <= i < value.len() && #[trigger] value[i] == '"' {
        let i = choose|i: int| 0 <= i < value.len() && #[trigger] value[i] == '"';
        assert(value.contains(value[i]));
    }
}

/// A highlighted response line is cut at its first `:`, if at all: a field
/// is the line split into a key without `:` and a value starting with the
/// `:`; a whole line is the line itself.
pub proof fn law_highlight_cuts_at_first_colon(style: LineStyle, line: Seq<char>)
    requires
        styled_as(style, line),
    ensures
        match style {
            LineStyle::Field { key, value, .. } => {
                &&& key@ + value@ == line
                &&& !key@.contains(':')
                &&& value@.len() > 0 && value@[0] == ':'
            },
            LineStyle::Whole { text, .. } => text@ == line,
        },
{
    match style {
        LineStyle::Field { key, value, .. } => {
            let p = choose|i: int| crate::text::is_first_index(line, ':', i);
            assert(crate::text::is_first_index(line, ':', p));
            assert(key@ + value@ =~= line);
            if key@.contains(':') {
                let j = choose|j: int| 0 <= j < key@.len() && key@[j] == ':';
                assert(line[j] == ':');
            }
            assert(value@[0] == line[p]);
        },
        LineStyle::Whole { .. } => {},
    }
}

} // verus!

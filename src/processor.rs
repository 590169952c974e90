//! Rewriting configuration files: each mapped key takes the value of a template variable.
use vstd::prelude::*;
use crate::text::{
    append_chars, char_index, chars_of, copy_range, find_char, join_lines, join_with_newlines, key_bounds, key_of,
    range_equals, skip_spaces, split_lines, string_of, text_lines, trim, trim_bounds, trim_start, views,
};
use crate::vars::{lookup, VarMap};

verus! {

/// The text without any leading `{{`.
pub open spec fn strip_open(s: Seq<char>) -> Seq<char>
    decreases s.len(),
{
    if s.len() >= 2 && s[0] == '{' && s[1] == '{' {
        strip_open(s.subrange(2, s.len() as int))
    } else {
        s
    }
}

/// The text without any trailing `}}`.
pub open spec fn strip_close(s: Seq<char>) -> Seq<char>
    decreases s.len(),
{
    if s.len() >= 2 && s[s.len() - 2] == '}' && s[s.len() - 1] == '}' {
        strip_close(s.subrange(0, s.len() - 2))
    } else {
        s
    }
}

/// The variable name inside a `{{NAME}}` placeholder.
pub open spec fn var_name(t: Seq<char>) -> Seq<char> {
    strip_close(strip_open(t))
}

fn var_name_of(t: &String) -> (r: Vec<char>)
    ensures
        r@ == var_name(t@),
{
    let v = chars_of(t.as_str());
    let n = v.len();
    let mut a: usize = 0;
    assert(v@.subrange(0, n as int) =~= v@);
    while n - a >= 2 && v[a] == '{' && v[a + 1] == '{'
        invariant
            a <= n == v.len(),
            strip_open(v@) == strip_open(v@.subrange(a as int, n as int)),
        decreases n - a,
    {
        assert(v@.subrange(a as int, n as int).subrange(2, n - a) =~= v@.subrange(a + 2, n as int));
        a = a + 2;
    }
    assert(strip_open(v@) == v@.subrange(a as int, n as int));
    let mut b: usize = n;
    while b - a >= 2 && v[b - 2] == '}' && v[b - 1] == '}'
        invariant
            a <= b <= n == v.len(),
            strip_close(v@.subrange(a as int, n as int)) == strip_close(v@.subrange(a as int, b as int)),
        decreases b,
    {
        assert(v@.subrange(a as int, b as int).subrange(0, b - a - 2) =~= v@.subrange(a as int, b - 2));
        b = b - 2;
    }
    copy_range(&v, a, b)
}

/// The text `k` + `sep` + `v`.
pub open spec fn entry(k: Seq<char>, sep: Seq<char>, v: Seq<char>) -> Seq<char> {
    k + sep + v
}

fn entry_of(k: &Vec<char>, sep: &str, v: &String) -> (r: Vec<char>)
    ensures
        r@ == entry(k@, sep@, v@),
{
    let mut r: Vec<char> = Vec::new();
    append_chars(&mut r, k);
    append_chars(&mut r, &chars_of(sep));
    append_chars(&mut r, &chars_of(v.as_str()));
    r
}

// ---------------------------------------------------------------- properties

/// The key of a `key=value` line; comments and blank lines have none.
pub open spec fn prop_key(l: Seq<char>) -> Option<Seq<char>> {
    let t = trim(l);
    if t.len() == 0 || t[0] == '#' {
        None
    } else {
        key_of(t, '=')
    }
}

/// The first line from `i` whose key is `k`; the number of lines if none.
pub open spec fn prop_index(ls: Seq<Seq<char>>, k: Seq<char>, i: nat) -> nat
    decreases ls.len() - i,
{
    if i >= ls.len() {
        ls.len()
    } else if prop_key(ls[i as int]) == Some(k) {
        i
    } else {
        prop_index(ls, k, i + 1)
    }
}

/// The lines after setting key `k` to `v`: the first line with that key becomes `k=v`.
pub open spec fn prop_set(ls: Seq<Seq<char>>, k: Seq<char>, v: Seq<char>) -> Seq<Seq<char>> {
    let j = prop_index(ls, k, 0);
    if j < ls.len() {
        ls.update(j as int, entry(k, "="@, v))
    } else {
        ls
    }
}

/// The lines after applying the first `n` mappings whose variable has a value.
pub open spec fn props_upto(ls: Seq<Seq<char>>, maps: Seq<(Seq<char>, Seq<char>)>, vars: Seq<(Seq<char>, Seq<char>)>, n: int) -> Seq<Seq<char>>
    decreases n,
{
    if n <= 0 {
        ls
    } else {
        let prev = props_upto(ls, maps, vars, n - 1);
        match lookup(vars, var_name(maps[n - 1].1)) {
            Some(v) => prop_set(prev, maps[n - 1].0, v),
            None => prev,
        }
    }
}

/// A properties file after substitution.
pub open spec fn properties_applied(content: Seq<char>, maps: Seq<(Seq<char>, Seq<char>)>, vars: Seq<(Seq<char>, Seq<char>)>) -> Seq<char> {
    join_lines(props_upto(text_lines(content), maps, vars, maps.len() as int))
}

fn prop_line_has_key(line: &Vec<char>, k: &Vec<char>) -> (r: bool)
    ensures
        r == (prop_key(line@) == Some(k@)),
{
    let (a, b) = trim_bounds(line, 0, line.len());
    assert(line@.subrange(0, line.len() as int) =~= line@);
    if a == b || line[a] == '#' {
        return false;
    }
    match key_bounds(line, a, b, '=') {
        Some((x, y)) => range_equals(line, x, y, k),
        None => false,
    }
}

fn prop_find(lines: &Vec<Vec<char>>, k: &Vec<char>) -> (r: usize)
    ensures
        r == prop_index(views(lines@), k@, 0),
{
    let mut j: usize = 0;
    while j < lines.len()
        invariant
            j <= lines.len(),
            prop_index(views(lines@), k@, 0) == prop_index(views(lines@), k@, j as nat),
        decreases lines.len() - j,
    {
        if prop_line_has_key(&lines[j], k) {
            return j;
        }
        j = j + 1;
    }
    j
}

/// Sets each mapped key of a `key=value` file (no sections) to the value of its variable.
pub fn apply_properties_variables(content: &str, mappings: &VarMap, variables: &VarMap) -> (r: Result<String, String>)
    ensures
        r is Ok,
        r->Ok_0@ == properties_applied(content@, mappings.pairs(), variables.pairs()),
{
    let mut lines = split_lines(&chars_of(content));
    let mut i: usize = 0;
    while i < mappings.entries.len()
        invariant
            i <= mappings.entries.len(),
            views(lines@) == props_upto(text_lines(content@), mappings.pairs(), variables.pairs(), i as int),
        decreases mappings.entries.len() - i,
    {
        let name = string_of(&var_name_of(&mappings.entries[i].1));
        match variables.get(&name) {
            Some(value) => {
                let k = chars_of(mappings.entries[i].0.as_str());
                let j = prop_find(&lines, &k);
                if j < lines.len() {
                    let ghost before = views(lines@);
                    lines.set(j, entry_of(&k, "=", &value));
                    assert(views(lines@) =~= before.update(j as int, entry(k@, "="@, value@)));
                }
            },
            None => {},
        }
        i = i + 1;
    }
    Ok(string_of(&join_with_newlines(&lines)))
}

// ---------------------------------------------------------------- ini

/// Whether a trimmed line is a `[section]` header.
pub open spec fn is_header(t: Seq<char>) -> bool {
    t.len() > 0 && t[0] == '[' && t.last() == ']'
}

/// The name of a `[section]` header.
pub open spec fn header_name(t: Seq<char>) -> Seq<char> {
    t.subrange(1, t.len() - 1)
}

/// The section in force at line `j`: that of the last header before it.
pub open spec fn section_at(ls: Seq<Seq<char>>, j: nat) -> Option<Seq<char>>
    decreases j,
{
    if j == 0 || j > ls.len() {
        None
    } else if is_header(trim(ls[j - 1])) {
        Some(header_name(trim(ls[j - 1])))
    } else {
        section_at(ls, (j - 1) as nat)
    }
}

/// The key of a `key=value` line of an INI file; headers, comments and blank lines have none.
pub open spec fn ini_key(l: Seq<char>) -> Option<Seq<char>> {
    let t = trim(l);
    if is_header(t) || t.len() == 0 || t[0] == '#' || t[0] == ';' {
        None
    } else {
        key_of(t, '=')
    }
}

/// Whether line `j` sets `key`, within `section` when one is given.
pub open spec fn ini_hit(ls: Seq<Seq<char>>, j: nat, section: Option<Seq<char>>, key: Seq<char>) -> bool {
    ini_key(ls[j as int]) == Some(key) && (section is None || section_at(ls, j) == section)
}

/// The first line from `i` that `ini_hit` picks; the number of lines if none.
pub open spec fn ini_index(ls: Seq<Seq<char>>, section: Option<Seq<char>>, key: Seq<char>, i: nat) -> nat
    decreases ls.len() - i,
{
    if i >= ls.len() {
        ls.len()
    } else if ini_hit(ls, i, section, key) {
        i
    } else {
        ini_index(ls, section, key, i + 1)
    }
}

/// A mapped key split at its first `/` into section and key; without one, any section.
pub open spec fn ini_target(k: Seq<char>) -> (Option<Seq<char>>, Seq<char>) {
    let s = char_index(k, '/', 0);
    if s < k.len() {
        (Some(k.subrange(0, s as int)), k.subrange(s as int + 1, k.len() as int))
    } else {
        (None, k)
    }
}

/// The lines after setting mapped key `k` to `v`.
pub open spec fn ini_set(ls: Seq<Seq<char>>, k: Seq<char>, v: Seq<char>) -> Seq<Seq<char>> {
    let (section, key) = ini_target(k);
    let j = ini_index(ls, section, key, 0);
    if j < ls.len() {
        ls.update(j as int, entry(key, "="@, v))
    } else {
        ls
    }
}

/// The lines after applying the first `n` mappings whose variable has a value.
pub open spec fn ini_upto(ls: Seq<Seq<char>>, maps: Seq<(Seq<char>, Seq<char>)>, vars: Seq<(Seq<char>, Seq<char>)>, n: int) -> Seq<Seq<char>>
    decreases n,
{
    if n <= 0 {
        ls
    } else {
        let prev = ini_upto(ls, maps, vars, n - 1);
        match lookup(vars, var_name(maps[n - 1].1)) {
            Some(v) => ini_set(prev, maps[n - 1].0, v),
            None => prev,
        }
    }
}

/// An INI file after substitution.
pub open spec fn ini_applied(content: Seq<char>, maps: Seq<(Seq<char>, Seq<char>)>, vars: Seq<(Seq<char>, Seq<char>)>) -> Seq<char> {
    join_lines(ini_upto(text_lines(content), maps, vars, maps.len() as int))
}

/// The contents of an optional character vector.
pub open spec fn opt_chars(o: Option<Vec<char>>) -> Option<Seq<char>> {
    match o {
        Some(v) => Some(v@),
        None => None,
    }
}

fn ini_find(lines: &Vec<Vec<char>>, section: &Option<Vec<char>>, key: &Vec<char>) -> (r: usize)
    ensures
        r == ini_index(views(lines@), opt_chars(*section), key@, 0),
{
    let ghost ls = views(lines@);
    let ghost ts = opt_chars(*section);
    let mut current: Option<Vec<char>> = None;
    let mut j: usize = 0;
    while j < lines.len()
        invariant
            j <= lines.len(),
            ls == views(lines@),
            ts == opt_chars(*section),
            ini_index(ls, ts, key@, 0) == ini_index(ls, ts, key@, j as nat),
            opt_chars(current) == section_at(ls, j as nat),
        decreases lines.len() - j,
    {
        let line = &lines[j];
        let (a, b) = trim_bounds(line, 0, line.len());
        assert(line@.subrange(0, line.len() as int) =~= line@);
        let ghost t = line@.subrange(a as int, b as int);
        assert(t == trim(ls[j as int]));
        if b > a && line[a] == '[' && line[b - 1] == ']' {
            assert(is_header(t));
            current = Some(copy_range(line, a + 1, b - 1));
            assert(header_name(t) =~= line@.subrange(a + 1, b - 1));
        } else if a == b || line[a] == '#' || line[a] == ';' {
        } else {
            let hit = match key_bounds(line, a, b, '=') {
                Some((x, y)) => {
                    if range_equals(line, x, y, key) {
                        match section {
                            None => true,
                            Some(want) => match &current {
                                Some(cur) => range_equals(cur, 0, cur.len(), want),
                                None => false,
                            },
                        }
                    } else {
                        false
                    }
                },
                None => false,
            };
            proof {
                if current is Some {
                    assert(current->0@.subrange(0, current->0@.len() as int) =~= current->0@);
                }
            }
            if hit {
                return j;
            }
        }
        j = j + 1;
    }
    j
}

fn ini_target_of(k: &String) -> (r: (Option<Vec<char>>, Vec<char>))
    ensures
        (opt_chars(r.0), r.1@) == ini_target(k@),
{
    let v = chars_of(k.as_str());
    assert(v@.subrange(0, v.len() as int) =~= v@);
    let s = find_char(&v, 0, v.len(), '/');
    if s < v.len() {
        (Some(copy_range(&v, 0, s)), copy_range(&v, s + 1, v.len()))
    } else {
        (None, v)
    }
}

/// Sets each mapped key of an INI file to the value of its variable; a mapped key
/// `section/key` names the section the key must stand in.
pub fn apply_ini_variables(content: &str, mappings: &VarMap, variables: &VarMap) -> (r: Result<String, String>)
    ensures
        r is Ok,
        r->Ok_0@ == ini_applied(content@, mappings.pairs(), variables.pairs()),
{
    let mut lines = split_lines(&chars_of(content));
    let mut i: usize = 0;
    while i < mappings.entries.len()
        invariant
            i <= mappings.entries.len(),
            views(lines@) == ini_upto(text_lines(content@), mappings.pairs(), variables.pairs(), i as int),
        decreases mappings.entries.len() - i,
    {
        let name = string_of(&var_name_of(&mappings.entries[i].1));
        match variables.get(&name) {
            Some(value) => {
                let (section, key) = ini_target_of(&mappings.entries[i].0);
                let j = ini_find(&lines, &section, &key);
                if j < lines.len() {
                    let ghost before = views(lines@);
                    lines.set(j, entry_of(&key, "=", &value));
                    assert(views(lines@) =~= before.update(j as int, entry(key@, "="@, value@)));
                }
            },
            None => {},
        }
        i = i + 1;
    }
    Ok(string_of(&join_with_newlines(&lines)))
}

// ---------------------------------------------------------------- yaml

/// The key of a `key: value` line; comments and blank lines have none.
pub open spec fn yaml_key(l: Seq<char>) -> Option<Seq<char>> {
    let t = trim(l);
    if t.len() == 0 || t[0] == '#' {
        None
    } else {
        key_of(t, ':')
    }
}

/// The first line from `i` whose key is `k`; the number of lines if none.
pub open spec fn yaml_index(ls: Seq<Seq<char>>, k: Seq<char>, i: nat) -> nat
    decreases ls.len() - i,
{
    if i >= ls.len() {
        ls.len()
    } else if yaml_key(ls[i as int]) == Some(k) {
        i
    } else {
        yaml_index(ls, k, i + 1)
    }
}

/// The leading white space of a line.
pub open spec fn indent(l: Seq<char>) -> Seq<char> {
    l.subrange(0, l.len() - trim_start(l).len())
}

/// The lines after setting key `k` to `v`, keeping the line's indentation.
pub open spec fn yaml_set(ls: Seq<Seq<char>>, k: Seq<char>, v: Seq<char>) -> Seq<Seq<char>> {
    let j = yaml_index(ls, k, 0);
    if j < ls.len() {
        ls.update(j as int, indent(ls[j as int]) + entry(k, ": "@, v))
    } else {
        ls
    }
}

/// The lines after applying the first `n` mappings whose variable has a value.
pub open spec fn yaml_upto(ls: Seq<Seq<char>>, maps: Seq<(Seq<char>, Seq<char>)>, vars: Seq<(Seq<char>, Seq<char>)>, n: int) -> Seq<Seq<char>>
    decreases n,
{
    if n <= 0 {
        ls
    } else {
        let prev = yaml_upto(ls, maps, vars, n - 1);
        match lookup(vars, var_name(maps[n - 1].1)) {
            Some(v) => yaml_set(prev, maps[n - 1].0, v),
            None => prev,
        }
    }
}

/// A YAML file after substitution.
pub open spec fn yaml_applied(content: Seq<char>, maps: Seq<(Seq<char>, Seq<char>)>, vars: Seq<(Seq<char>, Seq<char>)>) -> Seq<char> {
    join_lines(yaml_upto(text_lines(content), maps, vars, maps.len() as int))
}

fn yaml_line_has_key(line: &Vec<char>, k: &Vec<char>) -> (r: bool)
    ensures
        r == (yaml_key(line@) == Some(k@)),
{
    let (a, b) = trim_bounds(line, 0, line.len());
    assert(line@.subrange(0, line.len() as int) =~= line@);
    if a == b || line[a] == '#' {
        return false;
    }
    match key_bounds(line, a, b, ':') {
        Some((x, y)) => range_equals(line, x, y, k),
        None => false,
    }
}

fn yaml_find(lines: &Vec<Vec<char>>, k: &Vec<char>) -> (r: usize)
    ensures
        r == yaml_index(views(lines@), k@, 0),
{
    let mut j: usize = 0;
    while j < lines.len()
        invariant
            j <= lines.len(),
            yaml_index(views(lines@), k@, 0) == yaml_index(views(lines@), k@, j as nat),
        decreases lines.len() - j,
    {
        if yaml_line_has_key(&lines[j], k) {
            return j;
        }
        j = j + 1;
    }
    j
}

/// Sets each mapped key of a YAML file to the value of its variable, line by line, keeping
/// each line's indentation.
pub fn apply_yaml_variables(content: &str, mappings: &VarMap, variables: &VarMap) -> (r: Result<String, String>)
    ensures
        r is Ok,
        r->Ok_0@ == yaml_applied(content@, mappings.pairs(), variables.pairs()),
{
    let mut lines = split_lines(&chars_of(content));
    let mut i: usize = 0;
    while i < mappings.entries.len()
        invariant
            i <= mappings.entries.len(),
            views(lines@) == yaml_upto(text_lines(content@), mappings.pairs(), variables.pairs(), i as int),
        decreases mappings.entries.len() - i,
    {
        let name = string_of(&var_name_of(&mappings.entries[i].1));
        match variables.get(&name) {
            Some(value) => {
                let k = chars_of(mappings.entries[i].0.as_str());
                let j = yaml_find(&lines, &k);
                if j < lines.len() {
                    let ghost before = views(lines@);
                    let line = &lines[j];
                    let a = skip_spaces(line, 0, line.len());
                    assert(line@.subrange(0, line.len() as int) =~= line@);
                    let mut new_line = copy_range(line, 0, a);
                    append_chars(&mut new_line, &entry_of(&k, ": ", &value));
                    assert(new_line@ =~= indent(before[j as int]) + entry(k@, ": "@, value@));
                    lines.set(j, new_line);
                    assert(views(lines@) =~= before.update(
                        j as int,
                        indent(before[j as int]) + entry(k@, ": "@, value@),
                    ));
                }
            },
            None => {},
        }
        i = i + 1;
    }
    Ok(string_of(&join_with_newlines(&lines)))
}

} // verus!

//! Helpers of the WIT contract code generator: identifier case conversion
//! and the package and dependency declarations of WIT source files.
use vstd::prelude::*;
use crate::elicit::string_texts;
use crate::strings::{find_char, index_of, lemma_index_of, rfind_char, rindex_of, sub_chars, trim, trim_chars};
use crate::text::{ascii_upper, chars_of, str_eq, string_from_chars};

verus! {

/// Name for the characters `char::to_uppercase` yields for `c`.
pub uninterp spec fn uppercase_of(c: char) -> Seq<char>;

/// `char::to_uppercase`, collected: the upper-case mapping of `c` (one or
/// more characters). As its documentation gives it, an ASCII lower-case
/// letter maps to its ASCII capital and a character without an upper-case
/// mapping (every other ASCII character) maps to itself.
#[verifier::external_body]
fn char_uppercase(c: char) -> (s: Vec<char>)
    ensures
        s@ == uppercase_of(c),
        'a' <= c <= 'z' ==> s@ == seq![ascii_upper(c)],
        (c as u32) < 128 && !('a' <= c <= 'z') ==> s@ == seq![c],
{
    c.to_uppercase().collect()
}

/// One `-`-separated part in PascalCase: its first character upper-cased.
pub open spec fn pascal_part(p: Seq<char>) -> Seq<char> {
    if p.len() == 0 {
        Seq::empty()
    } else {
        uppercase_of(p[0]) + p.drop_first()
    }
}

/// `s` converted from kebab-case to PascalCase: split at each `-`, each
/// part's first character upper-cased, the parts joined.
pub open spec fn pascal(s: Seq<char>) -> Seq<char>
    decreases s.len(),
{
    let i = index_of(s, '-');
    if i < 0 || i >= s.len() {
        pascal_part(s)
    } else {
        pascal_part(s.take(i)) + pascal(s.skip(i + 1))
    }
}

/// Position of the first `c` at or after `from` in `v`, or `v.len()`.
fn find_from(v: &Vec<char>, c: char, from: usize) -> (k: usize)
    requires
        from <= v.len(),
    ensures
        from <= k <= v.len(),
        forall|j: int| from <= j < k ==> v@[j] != c,
        k < v.len() ==> v@[k as int] == c,
        index_of(v@.skip(from as int), c) == (if k < v.len() { k - from } else { -1 }),
{
    let mut k: usize = from;
    while k < v.len() && v[k] != c
        invariant
            from <= k <= v.len(),
            forall|j: int| from <= j < k ==> v@[j] != c,
        decreases v.len() - k,
    {
        k = k + 1;
    }
    proof {
        let rest = v@.skip(from as int);
        assert forall|j: int| 0 <= j < k - from implies rest[j] != c by {
            assert(rest[j] == v@[from + j]);
        }
        if k < v.len() {
            assert(rest[k - from] == v@[k as int]);
        }
        lemma_index_of(rest, c, k - from);
    }
    k
}

/// Convert `kebab-case` to `PascalCase`.
pub fn kebab_to_pascal(s: &str) -> (r: String)
    ensures
        r@ == pascal(s@),
{
    let chars = chars_of(s);
    let mut out: Vec<char> = Vec::new();
    let mut start: usize = 0;
    assert(chars@.skip(0) =~= chars@);
    loop
        invariant_except_break
            start <= chars.len(),
            out@ + pascal(chars@.skip(start as int)) == pascal(chars@),
        ensures
            out@ == pascal(chars@),
        decreases chars.len() - start,
    {
        let k = find_from(&chars, '-', start);
        let ghost rest = chars@.skip(start as int);
        let ghost part = chars@.subrange(start as int, k as int);
        let ghost before = out@;
        if start < k {
            let mut up = char_uppercase(chars[start]);
            out.append(&mut up);
            let mut tail = sub_chars(&chars, start + 1, k);
            out.append(&mut tail);
            assert(out@ =~= before + pascal_part(part));
        } else {
            assert(out@ =~= before + pascal_part(part));
        }
        if k == chars.len() {
            assert(part =~= rest);
            break;
        }
        proof {
            assert(rest.take(k - start) =~= part);
            assert(rest.skip(k - start + 1) =~= chars@.skip(k + 1));
            assert(out@ + pascal(chars@.skip(k + 1)) =~= before + pascal(rest));
        }
        start = k + 1;
    }
    string_from_chars(out.as_slice())
}

/// `s` with each `-` replaced by `_`.
pub open spec fn snake(s: Seq<char>) -> Seq<char> {
    s.map_values(|c: char| if c == '-' { '_' } else { c })
}

/// Convert `kebab-case` to `snake_case`.
pub fn kebab_to_snake(s: &str) -> (r: String)
    ensures
        r@ == snake(s@),
{
    let chars = chars_of(s);
    let mut out: Vec<char> = Vec::new();
    let mut i: usize = 0;
    while i < chars.len()
        invariant
            i <= chars.len(),
            out@ =~= snake(chars@).take(i as int),
        decreases chars.len() - i,
    {
        let c = chars[i];
        out.push(if c == '-' { '_' } else { c });
        i = i + 1;
        assert(out@ =~= snake(chars@).take(i as int));
    }
    assert(snake(chars@).take(chars@.len() as int) =~= snake(chars@));
    string_from_chars(out.as_slice())
}

/// `s` up to its first `c`, or all of `s` when it holds no `c`.
pub open spec fn before_char(s: Seq<char>, c: char) -> Seq<char> {
    let i = index_of(s, c);
    if 0 <= i < s.len() {
        s.take(i)
    } else {
        s
    }
}

fn before_char_chars(v: &Vec<char>, c: char) -> (r: Vec<char>)
    ensures
        r@ == before_char(v@, c),
{
    match find_char(v, c) {
        Some(i) => {
            let r = sub_chars(v, 0, i);
            assert(r@ =~= v@.take(i as int));
            r
        },
        None => {
            let r = sub_chars(v, 0, v.len());
            assert(r@ =~= v@);
            r
        },
    }
}

fn has_prefix(v: &Vec<char>, p: &str) -> (b: bool)
    ensures
        b == p@.is_prefix_of(v@),
{
    let pc = chars_of(p);
    if pc.len() > v.len() {
        return false;
    }
    let mut i: usize = 0;
    while i < pc.len()
        invariant
            pc@ == p@,
            i <= pc.len() <= v.len(),
            forall|j: int| 0 <= j < i ==> pc@[j] == v@[j],
        decreases pc.len() - i,
    {
        if pc[i] != v[i] {
            assert(v@.take(pc@.len() as int)[i as int] != pc@[i as int]);
            return false;
        }
        i = i + 1;
    }
    assert(v@.take(pc@.len() as int) =~= pc@);
    true
}

/// The package a WIT `use` line depends on: for a line whose trimmed text
/// starts with `use `, the rest up to the first `/`, without any `@version`.
pub open spec fn use_dependency(line: Seq<char>) -> Option<Seq<char>> {
    let t = trim(line);
    if "use "@.is_prefix_of(t) {
        Some(before_char(before_char(t.skip(4), '/'), '@'))
    } else {
        None
    }
}

/// The packages the `use` lines of `s` depend on, in line order (lines are
/// split at line feeds).
pub open spec fn dependencies_of(s: Seq<char>) -> Seq<Seq<char>>
    decreases s.len(),
{
    let i = index_of(s, '\n');
    let line = if 0 <= i < s.len() { s.take(i) } else { s };
    let rest = if 0 <= i < s.len() { dependencies_of(s.skip(i + 1)) } else { Seq::empty() };
    match use_dependency(line) {
        Some(d) => seq![d] + rest,
        None => rest,
    }
}

fn line_use_dependency(line: &Vec<char>) -> (r: Option<Vec<char>>)
    ensures
        match use_dependency(line@) {
            Some(d) => r matches Some(v) && v@ == d,
            None => r is None,
        },
{
    let t = trim_chars(line);
    proof {
        reveal_strlit("use ");
    }
    if !has_prefix(&t, "use ") {
        return None;
    }
    let rest = sub_chars(&t, 4, t.len());
    assert(rest@ =~= t@.skip(4));
    let pkg = before_char_chars(&rest, '/');
    Some(before_char_chars(&pkg, '@'))
}

/// The packages the `use` lines of `contents` depend on, in line order.
pub fn file_dependencies(contents: &str) -> (r: Vec<String>)
    ensures
        string_texts(r@) == dependencies_of(contents@),
{
    let chars = chars_of(contents);
    let mut out: Vec<String> = Vec::new();
    let mut start: usize = 0;
    assert(chars@.skip(0) =~= chars@);
    assert(string_texts(out@) =~= Seq::<Seq<char>>::empty());
    loop
        invariant_except_break
            start <= chars.len(),
            string_texts(out@) + dependencies_of(chars@.skip(start as int)) == dependencies_of(chars@),
        ensures
            string_texts(out@) == dependencies_of(chars@),
        decreases chars.len() - start,
    {
        let k = find_from(&chars, '\n', start);
        let ghost rest = chars@.skip(start as int);
        let line = sub_chars(&chars, start, k);
        let ghost before = string_texts(out@);
        let dep = line_use_dependency(&line);
        match dep {
            Some(d) => {
                let ghost old_out = out@;
                out.push(string_from_chars(d.as_slice()));
                assert(string_texts(out@) =~= before + seq![d@]) by {
                    assert(out@ == old_out.push(out@.last()));
                }
            },
            None => {},
        }
        if k == chars.len() {
            assert(line@ =~= rest);
            assert(string_texts(out@) =~= dependencies_of(chars@)) by {
                assert(before + dependencies_of(rest) == dependencies_of(chars@));
            }
            break;
        }
        proof {
            assert(rest.take(k - start) =~= line@);
            assert(rest.skip(k - start + 1) =~= chars@.skip(k + 1));
            assert(string_texts(out@) + dependencies_of(chars@.skip(k + 1)) =~= before + dependencies_of(rest));
        }
        start = k + 1;
    }
    out
}

/// For each WIT file, given as its file name and contents, the packages it
/// depends on through `use` statements; one entry per file, in input order.
pub fn detect_dependencies(files: &[(String, String)]) -> (r: Vec<(String, Vec<String>)>)
    ensures
        r@.len() == files@.len(),
        forall|i: int| 0 <= i < r@.len() ==> (#[trigger] r@[i]).0@ == files@[i].0@ && string_texts(
            r@[i].1@,
        ) == dependencies_of(files@[i].1@),
{
    let mut out: Vec<(String, Vec<String>)> = Vec::new();
    let mut i: usize = 0;
    while i < files.len()
        invariant
            i <= files@.len(),
            out@.len() == i,
            forall|j: int| 0 <= j < i ==> (#[trigger] out@[j]).0@ == files@[j].0@ && string_texts(
                out@[j].1@,
            ) == dependencies_of(files@[j].1@),
        decreases files.len() - i,
    {
        let name = files[i].0.clone();
        let deps = file_dependencies(files[i].1.as_str());
        out.push((name, deps));
        i = i + 1;
    }
    out
}

/// `s` without its trailing `;` characters.
pub open spec fn strip_semicolons(s: Seq<char>) -> Seq<char>
    decreases s.len(),
{
    if s.len() > 0 && s.last() == ';' {
        strip_semicolons(s.drop_last())
    } else {
        s
    }
}

/// The package named by a `package` declaration line: for a line whose
/// trimmed text starts with `package `, the rest without trailing `;` and
/// surrounding white space, and without any `@version`.
pub open spec fn package_decl(line: Seq<char>) -> Option<Seq<char>> {
    let t = trim(line);
    if "package "@.is_prefix_of(t) {
        Some(before_char(trim(strip_semicolons(t.skip(8))), '@'))
    } else {
        None
    }
}

/// The package declared by the first `package` line of `s`.
pub open spec fn package_name_of(s: Seq<char>) -> Option<Seq<char>>
    decreases s.len(),
{
    let i = index_of(s, '\n');
    let line = if 0 <= i < s.len() { s.take(i) } else { s };
    match package_decl(line) {
        Some(n) => Some(n),
        None => if 0 <= i < s.len() {
            package_name_of(s.skip(i + 1))
        } else {
            None
        },
    }
}

fn strip_semicolons_chars(v: &Vec<char>) -> (r: Vec<char>)
    ensures
        r@ == strip_semicolons(v@),
{
    let mut b: usize = v.len();
    assert(v@.take(b as int) =~= v@);
    while b > 0 && v[b - 1] == ';'
        invariant
            b <= v.len(),
            strip_semicolons(v@) == strip_semicolons(v@.take(b as int)),
        decreases b,
    {
        proof {
            assert(v@.take(b as int).drop_last() =~= v@.take(b - 1));
        }
        b = b - 1;
    }
    let r = sub_chars(v, 0, b);
    assert(r@ =~= v@.take(b as int));
    proof {
        assert(v@.take(v@.len() as int) =~= v@);
    }
    r
}

fn line_package_decl(line: &Vec<char>) -> (r: Option<Vec<char>>)
    ensures
        match package_decl(line@) {
            Some(n) => r matches Some(v) && v@ == n,
            None => r is None,
        },
{
    let t = trim_chars(line);
    proof {
        reveal_strlit("package ");
    }
    if !has_prefix(&t, "package ") {
        return None;
    }
    let rest = sub_chars(&t, 8, t.len());
    assert(rest@ =~= t@.skip(8));
    let stripped = strip_semicolons_chars(&rest);
    let full = trim_chars(&stripped);
    Some(before_char_chars(&full, '@'))
}

/// The package declared by the first `package` line of a WIT file's
/// `contents`, without its version; `None` when no line declares one.
pub fn package_name(contents: &str) -> (r: Option<String>)
    ensures
        match package_name_of(contents@) {
            Some(n) => r matches Some(s) && s@ == n,
            None => r is None,
        },
{
    let chars = chars_of(contents);
    let mut start: usize = 0;
    assert(chars@.skip(0) =~= chars@);
    loop
        invariant
            chars@ == contents@,
            start <= chars.len(),
            package_name_of(chars@.skip(start as int)) == package_name_of(chars@),
        decreases chars.len() - start,
    {
        let k = find_from(&chars, '\n', start);
        let ghost rest = chars@.skip(start as int);
        let line = sub_chars(&chars, start, k);
        proof {
            if k < chars.len() {
                assert(rest.take(k - start) =~= line@);
                assert(rest.skip(k - start + 1) =~= chars@.skip(k + 1));
            } else {
                assert(line@ =~= rest);
            }
        }
        match line_package_decl(&line) {
            Some(n) => {
                return Some(string_from_chars(n.as_slice()));
            },
            None => {},
        }
        if k == chars.len() {
            return None;
        }
        start = k + 1;
    }
}

/// `s` with each `:` replaced by `-`.
pub open spec fn colons_to_dashes(s: Seq<char>) -> Seq<char> {
    s.map_values(|c: char| if c == ':' { '-' } else { c })
}

/// The directory a dependency package is laid out in for the resolver:
/// its name with `:` replaced by `-` (`astrid:types` → `astrid-types`).
pub fn dep_dir_name(package: &str) -> (r: String)
    ensures
        r@ == colons_to_dashes(package@),
{
    let chars = chars_of(package);
    let mut out: Vec<char> = Vec::new();
    let mut i: usize = 0;
    while i < chars.len()
        invariant
            i <= chars.len(),
            out@ =~= colons_to_dashes(chars@).take(i as int),
        decreases chars.len() - i,
    {
        let c = chars[i];
        out.push(if c == ':' { '-' } else { c });
        i = i + 1;
        assert(out@ =~= colons_to_dashes(chars@).take(i as int));
    }
    assert(colons_to_dashes(chars@).take(chars@.len() as int) =~= colons_to_dashes(chars@));
    string_from_chars(out.as_slice())
}

/// Whether file `a` is loaded before file `b`, given each file's number of
/// dependencies: fewer dependencies first, ties in input order (a stable
/// sort by dependency count).
pub open spec fn loads_before(counts: Seq<usize>, a: usize, b: usize) -> bool {
    counts[a as int] < counts[b as int] || (counts[a as int] == counts[b as int] && a < b)
}

/// Whether `order` lists the files `0..n` in load order.
pub open spec fn load_order_ok(counts: Seq<usize>, n: int, order: Seq<usize>) -> bool {
    &&& forall|k: int| 0 <= k < order.len() ==> (#[trigger] order[k]) < n
    &&& forall|a: int, b: int| 0 <= a < b < order.len() ==> loads_before(counts, #[trigger] order[a], #[trigger] order[b])
    &&& forall|j: int| 0 <= j < n ==> #[trigger] order.contains(j as usize)
}

/// The order in which WIT files are loaded, given each file's number of
/// dependencies: files with fewer dependencies first, files with equally
/// many in their input order.
pub fn load_order(counts: &Vec<usize>) -> (r: Vec<usize>)
    ensures
        load_order_ok(counts@, counts@.len() as int, r@),
{
    let mut order: Vec<usize> = Vec::new();
    let mut i: usize = 0;
    while i < counts.len()
        invariant
            i <= counts@.len(),
            load_order_ok(counts@, i as int, order@),
        decreases counts.len() - i,
    {
        let ghost o0 = order@;
        let mut p: usize = 0;
        while p < order.len() && counts[order[p]] <= counts[i]
            invariant
                p <= order@.len(),
                order@ == o0,
                i < counts@.len(),
                load_order_ok(counts@, i as int, o0),
                forall|q: int| 0 <= q < p ==> counts@[#[trigger] o0[q] as int] <= counts@[i as int],
            decreases order.len() - p,
        {
            p = p + 1;
        }
        order.insert(p, i);
        proof {
            assert(order@ =~= o0.insert(p as int, i));
            assert forall|a: int, b: int| 0 <= a < b < order@.len() implies loads_before(counts@, #[trigger] order@[a], #[trigger] order@[b]) by {
                if b < p {
                    assert(order@[a] == o0[a] && order@[b] == o0[b]);
                } else if b == p {
                    assert(order@[a] == o0[a]);
                    assert(o0[a] < i);
                } else if a < p {
                    assert(order@[a] == o0[a] && order@[b] == o0[b - 1]);
                    assert(counts@[o0[a] as int] <= counts@[i as int]);
                    assert(counts@[o0[p as int] as int] > counts@[i as int]);
                    if b - 1 > p {
                        assert(loads_before(counts@, o0[p as int], o0[b - 1]));
                    }
                } else if a == p {
                    assert(order@[b] == o0[b - 1]);
                    assert(counts@[o0[p as int] as int] > counts@[i as int]);
                    if b - 1 > p {
                        assert(loads_before(counts@, o0[p as int], o0[b - 1]));
                    }
                } else {
                    assert(order@[a] == o0[a - 1] && order@[b] == o0[b - 1]);
                }
            }
            assert forall|j: int| 0 <= j < i + 1 implies #[trigger] order@.contains(j as usize) by {
                if j < i {
                    assert(o0.contains(j as usize));
                    let w = choose|w: int| 0 <= w < o0.len() && o0[w] == j as usize;
                    if w < p {
                        assert(order@[w] == j as usize);
                    } else {
                        assert(order@[w + 1] == j as usize);
                    }
                } else {
                    assert(order@[p as int] == i);
                }
            }
        }
        i = i + 1;
    }
    order
}

/// The first file, among `(file name, package name)` pairs, that declares
/// package `name`.
pub fn file_of_package(packages: &[(String, String)], name: &str) -> (r: Option<usize>)
    ensures
        match r {
            Some(k) => k < packages@.len() && packages@[k as int].1@ == name@ && forall|q: int|
                0 <= q < k ==> packages@[q].1@ != name@,
            None => forall|q: int| 0 <= q < packages@.len() ==> packages@[q].1@ != name@,
        },
{
    let mut k: usize = 0;
    while k < packages.len()
        invariant
            k <= packages@.len(),
            forall|q: int| 0 <= q < k ==> packages@[q].1@ != name@,
        decreases packages.len() - k,
    {
        if str_eq(packages[k].1.as_str(), name) {
            return Some(k);
        }
        k = k + 1;
    }
    None
}

/// Whether a file name has the extension `wit`: the text after its last
/// `.`, where that `.` is not the name's first character (the rule of
/// `Path::extension`).
pub open spec fn has_wit_extension(name: Seq<char>) -> bool {
    let k = rindex_of(name, '.');
    k > 0 && name.skip(k + 1) == "wit"@
}

/// Whether the file named `file_name` is a WIT source file.
pub fn is_wit_file(file_name: &str) -> (b: bool)
    ensures
        b == has_wit_extension(file_name@),
{
    let chars = chars_of(file_name);
    match rfind_char(&chars, '.') {
        Some(k) => {
            if k == 0 {
                return false;
            }
            let ext = sub_chars(&chars, k + 1, chars.len());
            assert(ext@ =~= chars@.skip(k + 1));
            let ext_text = string_from_chars(ext.as_slice());
            str_eq(ext_text.as_str(), "wit")
        },
        None => false,
    }
}

} // verus!

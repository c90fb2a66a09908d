//! What filling variables into a template gives.

use crate::env;
use crate::rows;
use crate::text;
use vstd::prelude::*;
use vstd::string::*;

verus! {

/// A part of a template.
pub ghost enum Part {
    /// Text that stays.
    Plain(Seq<char>),
    /// The placeholder of a variable.
    Slot(Seq<char>),
}

/// The text of a part.
pub open spec fn part_source(part: Part) -> Seq<char> {
    match part {
        Part::Plain(s) => s,
        Part::Slot(name) => env::placeholder(name),
    }
}

/// The text of a template.
pub open spec fn source(parts: Seq<Part>) -> Seq<char>
    decreases parts.len(),
{
    if parts.len() == 0 {
        Seq::empty()
    } else {
        part_source(parts[0]) + source(parts.skip(1))
    }
}

/// Whether a text holds no braces.
pub open spec fn bare(s: Seq<char>) -> bool {
    forall|i: int| 0 <= i < s.len() ==> #[trigger] s[i] != '{' && s[i] != '}'
}

/// Whether a text starts no placeholder, whatever stands behind it: it has no two opening braces
/// in a row, and does not end with one.
pub open spec fn calm(s: Seq<char>) -> bool {
    &&& forall|i: int| 0 <= i < s.len() - 1 ==> !(#[trigger] s[i] == '{' && s[i + 1] == '{')
    &&& s.len() > 0 ==> s.last() != '{'
}

/// Whether a part is calm text or the placeholder of a name without braces.
pub open spec fn regular_part(part: Part) -> bool {
    match part {
        Part::Plain(s) => calm(s),
        Part::Slot(name) => bare(name),
    }
}

/// Whether two opening braces in a row only start the placeholders of a template.
pub open spec fn regular(parts: Seq<Part>) -> bool {
    forall|i: int| 0 <= i < parts.len() ==> regular_part(#[trigger] parts[i])
}

/// Whether variables have names without braces, each once, and calm values. A text without braces
/// is calm.
pub open spec fn regular_vars(vars: Seq<rows::Entry>) -> bool {
    &&& rows::distinct_keys(vars)
    &&& forall|i: int| 0 <= i < vars.len() ==> bare((#[trigger] vars[i]).0) && calm(vars[i].1)
}

/// A part with its variable filled in; the placeholder of a variable that is not known stays.
pub open spec fn part_filled(part: Part, vars: Seq<rows::Entry>) -> Seq<char> {
    match part {
        Part::Plain(s) => s,
        Part::Slot(name) => match rows::value_of(vars, name) {
            Some(v) => v,
            None => env::placeholder(name),
        },
    }
}

/// A template with all its variables filled in at once.
pub open spec fn filled(parts: Seq<Part>, vars: Seq<rows::Entry>) -> Seq<char>
    decreases parts.len(),
{
    if parts.len() == 0 {
        Seq::empty()
    } else {
        part_filled(parts[0], vars) + filled(parts.skip(1), vars)
    }
}

/// A part with one variable filled in.
spec fn set_one(part: Part, key: Seq<char>, value: Seq<char>) -> Part {
    match part {
        Part::Plain(_) => part,
        Part::Slot(name) => if name == key {
            Part::Plain(value)
        } else {
            part
        },
    }
}

/// A template with one variable filled in.
spec fn set_all(parts: Seq<Part>, key: Seq<char>, value: Seq<char>) -> Seq<Part> {
    parts.map_values(|p: Part| set_one(p, key, value))
}

/// A part with the variables filled in one after the other.
spec fn part_after(part: Part, vars: Seq<rows::Entry>) -> Part
    decreases vars.len(),
{
    if vars.len() == 0 {
        part
    } else {
        set_one(part_after(part, vars.drop_last()), vars.last().0, vars.last().1)
    }
}

/// A template with the variables filled in one after the other.
spec fn parts_after(parts: Seq<Part>, vars: Seq<rows::Entry>) -> Seq<Part> {
    parts.map_values(|p: Part| part_after(p, vars))
}

/// Calm text in front of a text stays.
proof fn lemma_calm_stays(s: Seq<char>, t: Seq<char>, key: Seq<char>, value: Seq<char>)
    requires
        calm(s),
    ensures
        text::replaced(s + t, env::placeholder(key), value) == s + text::replaced(
            t,
            env::placeholder(key),
            value,
        ),
    decreases s.len(),
{
    reveal_strlit("{{");
    let p = env::placeholder(key);
    let x = s + t;
    if s.len() == 0 {
        assert(x =~= t);
        assert(s + text::replaced(t, p, value) =~= text::replaced(t, p, value));
    } else {
        assert(p[0] == '{' && p[1] == '{');
        if text::stands_at(x, p, 0) {
            assert(x.subrange(0, p.len() as int)[0] == x[0]);
            assert(x.subrange(0, p.len() as int)[1] == x[1]);
            assert(x[0] == s[0]);
            if s.len() > 1 {
                assert(x[1] == s[1]);
            }
            assert(false);
        }
        let rest = s.skip(1);
        assert forall|i: int| 0 <= i < rest.len() - 1 implies !(#[trigger] rest[i] == '{'
            && rest[i + 1] == '{') by {
            assert(s[i + 1] == rest[i]);
            assert(s[i + 2] == rest[i + 1]);
        }
        assert(rest.len() > 0 ==> rest.last() == s.last());
        lemma_calm_stays(rest, t, key, value);
        assert(x.skip(1) =~= rest + t);
        if x.len() >= p.len() {
            assert(seq![x[0]] + (rest + text::replaced(t, p, value)) =~= s + text::replaced(
                t,
                p,
                value,
            ));
        }
    }
}

/// The placeholder of another variable stays.
proof fn lemma_other_stays(name: Seq<char>, t: Seq<char>, key: Seq<char>, value: Seq<char>)
    requires
        bare(name),
        bare(key),
        name != key,
    ensures
        text::replaced(env::placeholder(name) + t, env::placeholder(key), value)
            == env::placeholder(name) + text::replaced(t, env::placeholder(key), value),
{
    reveal_strlit("{{");
    reveal_strlit("}}");
    let p = env::placeholder(key);
    let own = env::placeholder(name);
    let x = own + t;
    if text::stands_at(x, p, 0) {
        let part = x.subrange(0, p.len() as int);
        let (n, k) = (name.len() as int, key.len() as int);
        if k < n {
            assert(part[2 + k] == x[2 + k]);
            assert(p[2 + k] == '}');
            assert(x[2 + k] == name[k]);
        } else if n < k {
            assert(part[2 + n] == x[2 + n]);
            assert(p[2 + n] == key[n]);
            assert(x[2 + n] == '}');
        } else {
            assert forall|i: int| 0 <= i < n implies name[i] == key[i] by {
                assert(part[2 + i] == x[2 + i]);
                assert(p[2 + i] == key[i]);
                assert(x[2 + i] == name[i]);
            }
            assert(name =~= key);
        }
        assert(false);
    }
    let rest = own.skip(1);
    assert forall|i: int| 0 <= i < rest.len() - 1 implies !(#[trigger] rest[i] == '{' && rest[i + 1]
        == '{') by {
        assert(rest[i + 1] == own[i + 2]);
        if i < name.len() {
            assert(own[i + 2] == name[i]);
        }
    }
    assert(rest.last() == '}');
    lemma_calm_stays(rest, t, key, value);
    assert(x.skip(1) =~= rest + t);
    if x.len() >= p.len() {
        assert(seq![x[0]] + (rest + text::replaced(t, p, value)) =~= own + text::replaced(
            t,
            p,
            value,
        ));
    }
}

/// Replacing one placeholder in the text of a template fills this variable in.
proof fn lemma_set_all(parts: Seq<Part>, key: Seq<char>, value: Seq<char>)
    requires
        regular(parts),
        bare(key),
    ensures
        text::replaced(source(parts), env::placeholder(key), value) == source(
            set_all(parts, key, value),
        ),
    decreases parts.len(),
{
    reveal_strlit("{{");
    let p = env::placeholder(key);
    assert(p.len() >= 2);
    if parts.len() > 0 {
        let rest = parts.skip(1);
        assert forall|i: int| 0 <= i < rest.len() implies regular_part(#[trigger] rest[i]) by {
            assert(rest[i] == parts[i + 1]);
        }
        lemma_set_all(rest, key, value);
        assert(set_all(parts, key, value).skip(1) =~= set_all(rest, key, value));
        let t = source(rest);
        assert(regular_part(parts[0]));
        match parts[0] {
            Part::Plain(s) => {
                lemma_calm_stays(s, t, key, value);
            },
            Part::Slot(name) => {
                if name == key {
                    let none = Seq::<char>::empty();
                    text::law_replaced_in_place(none, p, t, value);
                    assert(none + p + t =~= p + t);
                    assert(none + value + text::replaced(t, p, value) =~= value + text::replaced(
                        t,
                        p,
                        value,
                    ));
                } else {
                    lemma_other_stays(name, t, key, value);
                }
            },
        }
    }
}

/// Filling in variables one after the other keeps a template regular, and is what
/// [`env::interpolated`] does to its text.
proof fn lemma_parts_after(parts: Seq<Part>, vars: Seq<rows::Entry>)
    requires
        regular(parts),
        regular_vars(vars),
    ensures
        regular(parts_after(parts, vars)),
        env::interpolated(source(parts), vars) == source(parts_after(parts, vars)),
    decreases vars.len(),
{
    let after = parts_after(parts, vars);
    if vars.len() == 0 {
        assert(after =~= parts);
    } else {
        let rest = vars.drop_last();
        let (key, value) = vars.last();
        assert forall|i: int| 0 <= i < rest.len() implies bare((#[trigger] rest[i]).0) && calm(
            rest[i].1,
        ) by {
            assert(rest[i] == vars[i]);
        }
        lemma_parts_after(parts, rest);
        let before = parts_after(parts, rest);
        assert(bare(vars[vars.len() - 1].0) && calm(vars[vars.len() - 1].1));
        lemma_set_all(before, key, value);
        assert(after =~= set_all(before, key, value));
        assert forall|i: int| 0 <= i < after.len() implies regular_part(#[trigger] after[i]) by {
            assert(regular_part(before[i]));
        }
    }
}

/// The placeholder of a variable becomes its value; any other part stays.
proof fn lemma_part_after(part: Part, vars: Seq<rows::Entry>)
    requires
        rows::distinct_keys(vars),
    ensures
        part_after(part, vars) == match part {
            Part::Plain(_) => part,
            Part::Slot(name) => match rows::value_of(vars, name) {
                Some(v) => Part::Plain(v),
                None => part,
            },
        },
    decreases vars.len(),
{
    if vars.len() > 0 {
        let rest = vars.drop_last();
        lemma_part_after(part, rest);
        if let Part::Slot(name) = part {
            if name == vars.last().0 {
                assert forall|i: int| 0 <= i < rest.len() implies (#[trigger] rest[i]).0 != name by {
                    assert(vars[i].0 != vars[vars.len() - 1].0);
                }
                rows::lemma_value_of_absent(rest, name);
            }
        }
    }
}

proof fn lemma_filled(parts: Seq<Part>, vars: Seq<rows::Entry>)
    requires
        rows::distinct_keys(vars),
    ensures
        source(parts_after(parts, vars)) == filled(parts, vars),
    decreases parts.len(),
{
    if parts.len() > 0 {
        lemma_filled(parts.skip(1), vars);
        assert(parts_after(parts, vars).skip(1) =~= parts_after(parts.skip(1), vars));
        lemma_part_after(parts[0], vars);
    }
}

/// Every placeholder of a known variable becomes its value, as if all were filled in at once, and
/// everything else stays: no value is taken for a placeholder, nor part of one. This holds where
/// two opening braces in a row only start placeholders, in the template and in the values.
pub proof fn law_filled_at_once(parts: Seq<Part>, vars: Seq<rows::Entry>)
    requires
        regular(parts),
        regular_vars(vars),
    ensures
        env::interpolated(source(parts), vars) == filled(parts, vars),
{
    lemma_parts_after(parts, vars);
    lemma_filled(parts, vars);
}

proof fn lemma_same_filling(parts: Seq<Part>, a: Seq<rows::Entry>, b: Seq<rows::Entry>)
    requires
        forall|key: Seq<char>| #[trigger] rows::value_of(a, key) == rows::value_of(b, key),
    ensures
        filled(parts, a) == filled(parts, b),
    decreases parts.len(),
{
    if parts.len() > 0 {
        lemma_same_filling(parts.skip(1), a, b);
    }
}

/// The order in which the variables of such a template are filled in does not matter.
pub proof fn law_order_does_not_matter(
    parts: Seq<Part>,
    a: Seq<rows::Entry>,
    b: Seq<rows::Entry>,
)
    requires
        regular(parts),
        regular_vars(a),
        regular_vars(b),
        forall|key: Seq<char>| #[trigger] rows::value_of(a, key) == rows::value_of(b, key),
    ensures
        env::interpolated(source(parts), a) == env::interpolated(source(parts), b),
{
    law_filled_at_once(parts, a);
    law_filled_at_once(parts, b);
    lemma_same_filling(parts, a, b);
}

/// A text without braces is calm.
pub proof fn law_bare_is_calm(s: Seq<char>)
    requires
        bare(s),
    ensures
        calm(s),
{
    if s.len() > 0 {
        assert(s[s.len() - 1] != '{');
    }
}

} // verus!

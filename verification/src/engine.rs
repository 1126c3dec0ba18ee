use vstd::prelude::*;

verus! {

/// The text that `minijinja` renders from a template in which each name of
/// the list stands for the text beside it; `None` where the template cannot
/// be parsed or rendered.
pub uninterp spec fn rendered_template(
    template: Seq<char>,
    bindings: Seq<(Seq<char>, Seq<char>)>,
) -> Option<Seq<char>>;

/// Whether the character is one of the letters `a` to `z`.
pub open spec fn is_small_letter(c: char) -> bool {
    'a' <= c <= 'z'
}

/// Whether the text is a word: one or more of the letters `a` to `z`.
pub open spec fn is_word(name: Seq<char>) -> bool {
    name.len() > 0 && forall|i: int| 0 <= i < name.len() ==> is_small_letter(#[trigger] name[i])
}

/// The place of a name in a template: the name between `{{ ` and ` }}`.
pub open spec fn placeholder(name: Seq<char>) -> Seq<char> {
    seq!['{', '{', ' '] + name + seq![' ', '}', '}']
}

/// Whether the placeholder of `name` stands in `text` at `at`.
pub open spec fn stands_at(text: Seq<char>, at: int, name: Seq<char>) -> bool {
    at + name.len() + 6 <= text.len() && text.subrange(at, at + name.len() + 6) == placeholder(
        name,
    )
}

/// The first of the names from `from` on whose placeholder stands in `text`
/// at `at`, by its place in the list; the length of the list if there is none.
pub open spec fn standing(text: Seq<char>, at: int, names: Seq<Seq<char>>, from: int) -> int
    decreases names.len() - from,
{
    if from < 0 || from >= names.len() {
        names.len() as int
    } else if stands_at(text, at, names[from]) {
        from
    } else {
        standing(text, at, names, from + 1)
    }
}

/// Whether every `{` of the text from `at` on opens the placeholder of one
/// of the names.
pub open spec fn plain_from(text: Seq<char>, names: Seq<Seq<char>>, at: int) -> bool
    decreases text.len() - at,
{
    if at < 0 || at >= text.len() {
        true
    } else if text[at] != '{' {
        plain_from(text, names, at + 1)
    } else {
        let first = standing(text, at, names, 0);
        if 0 <= first < names.len() && stands_at(text, at, names[first]) {
            plain_from(text, names, at + names[first].len() + 6)
        } else {
            false
        }
    }
}

/// The names of a list of names with their texts.
pub open spec fn names_of(bindings: Seq<(Seq<char>, Seq<char>)>) -> Seq<Seq<char>> {
    Seq::new(bindings.len(), |i: int| bindings[i].0)
}

/// Whether a template is plain for a list of names: the names are words, and
/// every `{` of the template opens the placeholder of one of them. Such a
/// template holds nothing for the engine to work out but the names to put
/// their texts for.
pub open spec fn plain(template: Seq<char>, names: Seq<Seq<char>>) -> bool {
    &&& forall|i: int| 0 <= i < names.len() ==> is_word(#[trigger] names[i])
    &&& plain_from(template, names, 0)
}

/// The values of a list of names with their texts.
pub open spec fn bindings_view(bindings: Seq<(String, String)>) -> Seq<(Seq<char>, Seq<char>)> {
    Seq::new(bindings.len(), |i: int| (bindings[i].0@, bindings[i].1@))
}

/// `minijinja::Environment::render_str` on a new environment, with each name
/// of the list bound to the text beside it. The rendered text is a function
/// of the template and the list alone, and the call fails exactly where there
/// is none; it then hands back the message of the engine's error, of which
/// nothing is claimed. Only plain templates are handed to the engine: in
/// them it finds no filter, no slice and no block, only names to look up.
#[verifier::external_body]
pub(crate) fn render_with_minijinja(
    template: &str,
    bindings: &Vec<(String, String)>,
) -> (result: Result<String, String>)
    requires
        plain(template@, names_of(bindings_view(bindings@))),
    ensures
        match rendered_template(template@, bindings_view(bindings@)) {
            Some(text) => result matches Ok(rendered) && rendered@ == text,
            None => result is Err,
        },
{
    let context: std::collections::BTreeMap<&str, &str> =
        bindings.iter().map(|binding| (binding.0.as_str(), binding.1.as_str())).collect();
    match minijinja::Environment::new().render_str(template, context) {
        Ok(rendered) => Ok(rendered),
        Err(error) => Err(error.to_string()),
    }
}

/// Whether the text is a word.
pub fn is_word_text(name: &str) -> (ok: bool)
    ensures
        ok == is_word(name@),
{
    let n = name.unicode_len();
    if n == 0 {
        return false;
    }
    let mut i: usize = 0;
    while i < n
        invariant
            i <= n,
            n == name@.len(),
            forall|j: int| 0 <= j < i ==> is_small_letter(#[trigger] name@[j]),
        decreases n - i,
    {
        let c = name.get_char(i);
        if !('a' <= c && c <= 'z') {
            assert(!is_small_letter(name@[i as int]));
            return false;
        }
        i += 1;
    }
    true
}

/// Whether the placeholder of `name` stands in `text` at `at`.
fn stands(text: &str, at: usize, name: &str) -> (ok: bool)
    requires
        at <= text@.len(),
    ensures
        ok == stands_at(text@, at as int, name@),
{
    let n = text.unicode_len();
    let m = name.unicode_len();
    if n - at < 6 || n - at - 6 < m {
        return false;
    }
    let ghost there = text@.subrange(at as int, at + m + 6);
    let ghost wanted = placeholder(name@);
    if text.get_char(at) != '{' || text.get_char(at + 1) != '{' || text.get_char(at + 2) != ' ' {
        assert(there[0] == text@[at as int] && there[1] == text@[at + 1] && there[2] == text@[at
            + 2]);
        assert(wanted[0] == '{' && wanted[1] == '{' && wanted[2] == ' ');
        return false;
    }
    let mut k: usize = 0;
    while k < m
        invariant
            k <= m,
            m == name@.len(),
            n == text@.len(),
            at + m + 6 <= n,
            there == text@.subrange(at as int, at + m + 6),
            wanted == placeholder(name@),
            forall|j: int| 0 <= j < k ==> text@[at + 3 + j] == name@[j],
        decreases m - k,
    {
        if text.get_char(at + 3 + k) != name.get_char(k) {
            assert(there[3 + k] == text@[at + 3 + k]);
            assert(wanted[3 + k] == name@[k as int]);
            return false;
        }
        k += 1;
    }
    if text.get_char(at + 3 + m) != ' ' || text.get_char(at + 4 + m) != '}' || text.get_char(
        at + 5 + m,
    ) != '}' {
        assert(there[3 + m] == text@[at + 3 + m] && there[4 + m] == text@[at + 4 + m] && there[5
            + m] == text@[at + 5 + m]);
        assert(wanted[3 + m] == ' ' && wanted[4 + m] == '}' && wanted[5 + m] == '}');
        return false;
    }
    assert(there =~= wanted);
    true
}

/// Whether a template is plain for the names of a list.
pub fn is_plain(template: &str, bindings: &Vec<(String, String)>) -> (ok: bool)
    ensures
        ok == plain(template@, names_of(bindings_view(bindings@))),
{
    let ghost names = names_of(bindings_view(bindings@));
    let mut i: usize = 0;
    while i < bindings.len()
        invariant
            i <= bindings.len(),
            names == names_of(bindings_view(bindings@)),
            forall|j: int| 0 <= j < i ==> is_word(#[trigger] names[j]),
        decreases bindings.len() - i,
    {
        assert(names[i as int] == bindings[i as int].0@);
        if !is_word_text(bindings[i].0.as_str()) {
            return false;
        }
        i += 1;
    }
    let n = template.unicode_len();
    let mut at: usize = 0;
    while at < n
        invariant
            at <= n,
            n == template@.len(),
            names == names_of(bindings_view(bindings@)),
            plain_from(template@, names, 0) == plain_from(template@, names, at as int),
        decreases n - at,
    {
        if template.get_char(at) != '{' {
            at += 1;
        } else {
            let mut j: usize = 0;
            while j < bindings.len() && !stands(template, at, bindings[j].0.as_str())
                invariant
                    j <= bindings.len(),
                    at < n,
                    n == template@.len(),
                    names == names_of(bindings_view(bindings@)),
                    standing(template@, at as int, names, 0) == standing(
                        template@,
                        at as int,
                        names,
                        j as int,
                    ),
                decreases bindings.len() - j,
            {
                assert(names[j as int] == bindings[j as int].0@);
                j += 1;
            }
            if j == bindings.len() {
                return false;
            }
            assert(names[j as int] == bindings[j as int].0@);
            let m = bindings[j].0.as_str().unicode_len();
            at = at + m + 6;
        }
    }
    true
}

} // verus!

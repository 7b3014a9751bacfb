//! JSON texts: objects and arrays, put together from the texts of their members.

use vstd::prelude::*;

use crate::text;

verus! {

/// The JSON string that `serde_json` writes for a text.
pub uninterp spec fn json_string(s: Seq<char>) -> Seq<char>;

/// Whether a JSON string holds `c` as it is: `c` is no control character, quote or backslash.
pub open spec fn is_plain(c: char) -> bool {
    c >= ' ' && c != '"' && c != '\\'
}

/// `serde_json::to_string`, on a text: writes the text as a JSON string, and does not fail.
///
/// A text of plain characters alone is put between quotes as it is. How the other characters are
/// escaped is left to `serde_json`.
#[verifier::external_body]
pub(crate) fn string(s: &str) -> (r: String)
    ensures
        r@ == json_string(s@),
        (forall|i: int| 0 <= i < s@.len() ==> is_plain(#[trigger] s@[i])) ==> r@ == seq!['"'] + s@
            + seq!['"'],
{
    serde_json::to_string(s).expect("a text is always written")
}

/// The members of an array or an object, with commas between them.
pub open spec fn comma_separated(items: Seq<Seq<char>>) -> Seq<char>
    decreases items.len(),
{
    if items.len() == 0 {
        Seq::empty()
    } else if items.len() == 1 {
        items[0]
    } else {
        comma_separated(items.drop_last()) + ","@ + items.last()
    }
}

/// Writes the members of an array or an object, with commas between them.
fn separate(items: &Vec<String>) -> (r: String)
    ensures
        r@ == comma_separated(text::texts(items@)),
{
    let mut r = String::new();
    for i in 0..items.len()
        invariant
            r@ == comma_separated(text::texts(items@).take(i as int)),
    {
        let ghost before = text::texts(items@).take(i as int);
        let ghost after = text::texts(items@).take(i + 1);
        assert(after.drop_last() =~= before);
        assert(after.last() == items@[i as int]@);
        if i > 0 {
            r.append(",");
        }
        r.append(items[i].as_str());
        assert(i == 0 ==> r@ =~= items@[0]@);
    }
    assert(text::texts(items@).take(items@.len() as int) =~= text::texts(items@));
    r
}

/// A JSON array.
pub open spec fn json_array(items: Seq<Seq<char>>) -> Seq<char> {
    "["@ + comma_separated(items) + "]"@
}

/// Writes a JSON array whose items have the texts `items`.
pub fn array(items: &Vec<String>) -> (r: String)
    ensures
        r@ == json_array(text::texts(items@)),
{
    let mut r = "[".to_owned();
    r.append(separate(items).as_str());
    r.append("]");
    r
}

/// The JSON strings of some texts.
pub open spec fn json_strings(items: Seq<Seq<char>>) -> Seq<Seq<char>> {
    items.map_values(|s: Seq<char>| json_string(s))
}

/// Writes a JSON array of strings.
pub fn string_array(items: &Vec<String>) -> (r: String)
    ensures
        r@ == json_array(json_strings(text::texts(items@))),
{
    let mut quoted: Vec<String> = Vec::new();
    for i in 0..items.len()
        invariant
            quoted@.len() == i,
            forall|j: int| 0 <= j < i ==> #[trigger] quoted@[j]@ == json_string(items@[j]@),
    {
        quoted.push(string(items[i].as_str()));
    }
    assert(text::texts(quoted@) =~= json_strings(text::texts(items@)));
    array(&quoted)
}

/// The members of an object: each name, a colon, and the text of the value.
pub open spec fn json_members(fields: Seq<(Seq<char>, Seq<char>)>) -> Seq<Seq<char>> {
    fields.map_values(|f: (Seq<char>, Seq<char>)| json_string(f.0) + ":"@ + f.1)
}

/// A JSON object whose members have the names and the value texts of `fields`, in this order.
pub open spec fn json_object(fields: Seq<(Seq<char>, Seq<char>)>) -> Seq<char> {
    "{"@ + comma_separated(json_members(fields)) + "}"@
}

/// The names and the value texts of `fields`.
pub open spec fn members(fields: Seq<(&str, String)>) -> Seq<(Seq<char>, Seq<char>)> {
    fields.map_values(|f: (&str, String)| (f.0@, f.1@))
}

/// Writes a JSON object whose members have the names and the value texts of `fields`.
pub fn object(fields: &Vec<(&str, String)>) -> (r: String)
    ensures
        r@ == json_object(members(fields@)),
{
    let mut written: Vec<String> = Vec::new();
    for i in 0..fields.len()
        invariant
            written@.len() == i,
            forall|j: int|
                0 <= j < i ==> #[trigger] written@[j]@ == json_string(fields@[j].0@) + ":"@
                    + fields@[j].1@,
    {
        let mut member = string(fields[i].0);
        member.append(":");
        member.append(fields[i].1.as_str());
        written.push(member);
    }
    assert(text::texts(written@) =~= json_members(members(fields@)));
    let mut r = "{".to_owned();
    r.append(separate(&written).as_str());
    r.append("}");
    r
}

/// The JSON text of a truth value.
pub open spec fn json_bool(value: bool) -> Seq<char> {
    if value {
        "true"@
    } else {
        "false"@
    }
}

/// Writes a truth value.
pub fn boolean(value: bool) -> (r: String)
    ensures
        r@ == json_bool(value),
{
    if value {
        "true".to_owned()
    } else {
        "false".to_owned()
    }
}

/// Items stand one behind the other with one comma between two of them, whatever they are: nothing stands
/// before the first one or behind the last one, and no item is left out.
pub proof fn items_are_separated_by_commas(a: Seq<Seq<char>>, b: Seq<Seq<char>>)
    requires
        a.len() > 0,
        b.len() > 0,
    ensures
        comma_separated(a + b) == comma_separated(a) + seq![','] + comma_separated(b),
        a.len() == 1 ==> comma_separated(a) == a[0],
        comma_separated(Seq::<Seq<char>>::empty()).len() == 0,
    decreases b.len(),
{
    reveal_strlit(",");
    assert(","@ =~= seq![',']);
    let all = a + b;
    assert(all.last() == b.last());
    if b.len() == 1 {
        assert(all.drop_last() =~= a);
    } else {
        items_are_separated_by_commas(a, b.drop_last());
        assert(all.drop_last() =~= a + b.drop_last());
    }
}

/// One more item makes an array longer by a comma and that item, before the closing bracket.
pub proof fn an_array_grows_by_its_items(items: Seq<Seq<char>>, item: Seq<char>)
    ensures
        json_array(Seq::<Seq<char>>::empty()) == seq!['[', ']'],
        json_array(seq![item]) == seq!['['] + item + seq![']'],
        items.len() > 0 ==> json_array(items.push(item)) == json_array(items).drop_last() + seq![
            ',',
        ] + item + seq![']'],
{
    reveal_strlit("[");
    reveal_strlit("]");
    assert("["@ =~= seq!['[']);
    assert("]"@ =~= seq![']']);
    let one = seq![item];
    assert(comma_separated(one) == one[0]);
    if items.len() > 0 {
        items_are_separated_by_commas(items, one);
        assert(items + one =~= items.push(item));
    }
}

/// One more member makes an object longer by a comma, its name as a string, a colon and its value, before
/// the closing brace.
pub proof fn an_object_grows_by_its_members(
    fields: Seq<(Seq<char>, Seq<char>)>,
    name: Seq<char>,
    value: Seq<char>,
)
    ensures
        json_object(Seq::<(Seq<char>, Seq<char>)>::empty()) == seq!['{', '}'],
        json_object(seq![(name, value)]) == seq!['{'] + json_string(name) + seq![':'] + value + seq![
            '}',
        ],
        fields.len() > 0 ==> json_object(fields.push((name, value))) == json_object(
            fields,
        ).drop_last() + seq![','] + json_string(name) + seq![':'] + value + seq!['}'],
{
    reveal_strlit("{");
    reveal_strlit("}");
    reveal_strlit(":");
    assert("{"@ =~= seq!['{']);
    assert("}"@ =~= seq!['}']);
    assert(":"@ =~= seq![':']);
    let member = json_string(name) + seq![':'] + value;
    let one = seq![member];
    assert(comma_separated(one) == one[0]);
    assert(json_members(seq![(name, value)]) =~= one);
    assert(json_members(Seq::<(Seq<char>, Seq<char>)>::empty()) =~= Seq::<Seq<char>>::empty());
    assert(json_object(seq![(name, value)]) =~= seq!['{'] + json_string(name) + seq![':'] + value
        + seq!['}']);
    if fields.len() > 0 {
        items_are_separated_by_commas(json_members(fields), one);
        assert(json_members(fields.push((name, value))) =~= json_members(fields) + one);
        assert(json_object(fields.push((name, value))) =~= json_object(fields).drop_last() + seq![
            ',',
        ] + json_string(name) + seq![':'] + value + seq!['}']);
    }
}

/// Each text becomes a string, at its place.
pub proof fn each_text_becomes_a_string(items: Seq<Seq<char>>)
    ensures
        json_strings(items).len() == items.len(),
        forall|i: int|
            0 <= i < items.len() ==> #[trigger] json_strings(items)[i] == json_string(items[i]),
{
}

/// A truth value is written as the word for it, without quotes.
pub proof fn a_truth_value_is_a_word(value: bool)
    ensures
        json_bool(value) == if value {
            seq!['t', 'r', 'u', 'e']
        } else {
            seq!['f', 'a', 'l', 's', 'e']
        },
{
    reveal_strlit("true");
    reveal_strlit("false");
    assert(json_bool(value) =~= if value {
        seq!['t', 'r', 'u', 'e']
    } else {
        seq!['f', 'a', 'l', 's', 'e']
    });
}

/// The text of an object with two members.
pub proof fn lemma_object_of_two(n0: Seq<char>, v0: Seq<char>, n1: Seq<char>, v1: Seq<char>)
    ensures
        json_object(seq![(n0, v0), (n1, v1)]) == seq!['{'] + json_string(n0) + seq![':'] + v0 + seq![',']
            + json_string(n1) + seq![':'] + v1 + seq!['}'],
{
    an_object_grows_by_its_members(seq![], n0, v0);
    let one = seq![(n0, v0)];
    an_object_grows_by_its_members(one, n1, v1);
    assert(one.push((n1, v1)) =~= seq![(n0, v0), (n1, v1)]);
    assert(json_object(one).drop_last() =~= seq!['{'] + json_string(n0) + seq![':'] + v0);
}

/// The text of an object with three members.
pub proof fn lemma_object_of_three(
    n0: Seq<char>,
    v0: Seq<char>,
    n1: Seq<char>,
    v1: Seq<char>,
    n2: Seq<char>,
    v2: Seq<char>,
)
    ensures
        json_object(seq![(n0, v0), (n1, v1), (n2, v2)]) == seq!['{'] + json_string(n0) + seq![':'] + v0
            + seq![','] + json_string(n1) + seq![':'] + v1 + seq![','] + json_string(n2) + seq![':'] + v2
            + seq!['}'],
{
    lemma_object_of_two(n0, v0, n1, v1);
    let two = seq![(n0, v0), (n1, v1)];
    an_object_grows_by_its_members(two, n2, v2);
    assert(two.push((n2, v2)) =~= seq![(n0, v0), (n1, v1), (n2, v2)]);
    assert(json_object(two).drop_last() =~= seq!['{'] + json_string(n0) + seq![':'] + v0 + seq![',']
        + json_string(n1) + seq![':'] + v1);
}

/// The text of an object with four members.
pub proof fn lemma_object_of_four(
    n0: Seq<char>,
    v0: Seq<char>,
    n1: Seq<char>,
    v1: Seq<char>,
    n2: Seq<char>,
    v2: Seq<char>,
    n3: Seq<char>,
    v3: Seq<char>,
)
    ensures
        json_object(seq![(n0, v0), (n1, v1), (n2, v2), (n3, v3)]) == seq!['{'] + json_string(n0) + seq![
            ':',
        ] + v0 + seq![','] + json_string(n1) + seq![':'] + v1 + seq![','] + json_string(n2) + seq![':'] + v2
            + seq![','] + json_string(n3) + seq![':'] + v3 + seq!['}'],
{
    lemma_object_of_three(n0, v0, n1, v1, n2, v2);
    let three = seq![(n0, v0), (n1, v1), (n2, v2)];
    an_object_grows_by_its_members(three, n3, v3);
    assert(three.push((n3, v3)) =~= seq![(n0, v0), (n1, v1), (n2, v2), (n3, v3)]);
    assert(json_object(three).drop_last() =~= seq!['{'] + json_string(n0) + seq![':'] + v0 + seq![',']
        + json_string(n1) + seq![':'] + v1 + seq![','] + json_string(n2) + seq![':'] + v2);
}

} // verus!

//! Forms and queries: lists of names and values.

use vstd::prelude::*;
use vstd::utf8::*;

use crate::api::parameters::Parameters;
use crate::text::same;
use crate::textmap::{pairs_map, TextMap};

verus! {

/// A name and its value.
pub open spec fn pair_view(pair: (String, String)) -> (Seq<char>, Seq<char>) {
    (pair.0@, pair.1@)
}

pub open spec fn pairs_view(pairs: Seq<(String, String)>) -> Seq<(Seq<char>, Seq<char>)> {
    pairs.map_values(|pair: (String, String)| pair_view(pair))
}

/// The names and values that `form_urlencoded::parse` reads.
pub uninterp spec fn form_decoded(bytes: Seq<u8>) -> Seq<(Seq<char>, Seq<char>)>;

/// The text that `form_urlencoded::Serializer` writes for names and values.
pub uninterp spec fn form_encoded(pairs: Seq<(Seq<char>, Seq<char>)>) -> Seq<char>;

/// `url::form_urlencoded::parse`: the names and values in order, a function of the bytes.
#[verifier::external_body]
pub(crate) fn parse_form(bytes: &[u8]) -> (result: Vec<(String, String)>)
    ensures
        pairs_view(result@) == form_decoded(bytes@),
{
    url::form_urlencoded::parse(bytes).into_owned().collect()
}

/// `url::form_urlencoded::Serializer`: a text that depends on the names and values alone, and that
/// is read back as them.
#[verifier::external_body]
pub(crate) fn write_form(pairs: &[(String, String)]) -> (result: String)
    ensures
        result@ == form_encoded(pairs_view(pairs@)),
        form_decoded(encode_utf8(result@)) == pairs_view(pairs@),
{
    url::form_urlencoded::Serializer::new(String::new()).extend_pairs(pairs).finish()
}

/// The parameters that names and values give: of a name that occurs twice the last value counts.
pub open spec fn last_values(pairs: Seq<(Seq<char>, Seq<char>)>) -> Map<Seq<char>, Seq<char>>
    decreases pairs.len(),
{
    if pairs.len() == 0 {
        Map::empty()
    } else {
        last_values(pairs.drop_last()).insert(pairs.last().0, pairs.last().1)
    }
}

/// The texts of parameters.
pub open spec fn texts_of(parameters: Map<Seq<char>, String>) -> Map<Seq<char>, Seq<char>> {
    parameters.map_values(|text: String| text@)
}

pub fn collect_parameters(pairs: Vec<(String, String)>) -> (result: Parameters)
    ensures
        result.wf(),
        texts_of(result@) == last_values(pairs_view(pairs@)),
{
    let mut result: Parameters = TextMap::new();
    let ghost list = pairs_view(pairs@);
    let mut i: usize = 0;
    assert(texts_of(result@) =~= last_values(list.take(0)));
    while i < pairs.len()
        invariant
            i <= pairs@.len(),
            result.wf(),
            list == pairs_view(pairs@),
            texts_of(result@) == last_values(list.take(i as int)),
        decreases pairs@.len() - i,
    {
        let ghost before = result@;
        result.insert(pairs[i].0.clone(), pairs[i].1.clone());
        proof {
            assert(list.take(i + 1).drop_last() =~= list.take(i as int));
            assert(list.take(i + 1).last() == pair_view(pairs@[i as int]));
            assert(texts_of(result@) =~= texts_of(before).insert(
                pairs@[i as int].0@,
                pairs@[i as int].1@,
            ));
        }
        i += 1;
    }
    assert(list.take(i as int) =~= list);
    result
}

/// The fields of a submitted form.
pub fn form_fields(body: &[u8]) -> (result: Parameters)
    ensures
        result.wf(),
        texts_of(result@) == last_values(form_decoded(body@)),
{
    let pairs = parse_form(body);
    collect_parameters(pairs)
}

proof fn listed_values(pairs: Seq<(String, String)>)
    ensures
        last_values(pairs_view(pairs)) == texts_of(pairs_map(pairs)),
    decreases pairs.len(),
{
    let list = pairs_view(pairs);
    if pairs.len() > 0 {
        listed_values(pairs.drop_last());
        assert(list.drop_last() =~= pairs_view(pairs.drop_last()));
        assert(list.last() == pair_view(pairs.last()));
        assert(texts_of(pairs_map(pairs)) =~= texts_of(pairs_map(pairs.drop_last())).insert(
            pairs.last().0@,
            pairs.last().1@,
        ));
    } else {
        assert(texts_of(pairs_map(pairs)) =~= Map::<Seq<char>, Seq<char>>::empty());
    }
}

/// The text is a query that is read back as the parameters.
pub open spec fn queries(text: Seq<char>, parameters: Map<Seq<char>, String>) -> bool {
    last_values(form_decoded(encode_utf8(text))) == texts_of(parameters)
}

/// Writes parameters as a query, in some order.
pub fn query_text(parameters: &Parameters) -> (result: String)
    requires
        parameters.wf(),
    ensures
        queries(result@, parameters@),
{
    let pairs = parameters.to_pairs();
    proof {
        listed_values(pairs@);
    }
    write_form(&pairs)
}

/// How a field of a form enters the body of a request.
#[derive(Clone, Copy, Debug, PartialEq, Eq, Structural)]
pub enum FieldValue {
    /// The field is for the form itself.
    Skip,
    Null,
    /// The text is read as JSON.
    Json,
    Text,
}

pub open spec fn field_of(name: Seq<char>, text: Seq<char>) -> FieldValue {
    if name == "csrf"@ || name == "return"@ || name == "payload"@ {
        FieldValue::Skip
    } else if name == "volume"@ || name == "position_ms"@ {
        FieldValue::Json
    } else if name == "library"@ && text.len() == 0 {
        FieldValue::Null
    } else {
        FieldValue::Text
    }
}

pub fn body_field(name: &str, text: &str) -> (result: FieldValue)
    ensures
        result == field_of(name@, text@),
{
    if same(name, "csrf") || same(name, "return") || same(name, "payload") {
        FieldValue::Skip
    } else if same(name, "volume") || same(name, "position_ms") {
        FieldValue::Json
    } else if same(name, "library") && text.is_empty() {
        FieldValue::Null
    } else {
        FieldValue::Text
    }
}

} // verus!

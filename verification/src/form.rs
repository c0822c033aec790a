//! Form bodies (`application/x-www-form-urlencoded`) of token requests.

use vstd::prelude::*;
use vstd::string::*;
use vstd::utf8::*;

use crate::percent;

verus! {

/// One field of a form: its name and its value before encoding.
#[verifier::ext_equal]
pub struct FormField {
    pub name: Seq<char>,
    pub value: Seq<char>,
}

/// How a field is written: the name, `=`, and the percent-encoded value.
pub open spec fn field_text(field: FormField) -> Seq<char> {
    field.name + "="@ + percent::percent_encoded(encode_utf8(field.value))
}

/// How a form is written: its fields in order, with `&` between them.
pub open spec fn form_encoded(fields: Seq<FormField>) -> Seq<char>
    decreases fields.len(),
{
    if fields.len() == 0 {
        seq![]
    } else if fields.len() == 1 {
        field_text(fields[0])
    } else {
        form_encoded(fields.drop_last()) + "&"@ + field_text(fields.last())
    }
}

/// Appends a field to a form body.
pub(crate) fn push_field(body: &mut String, name: &str, value: &str)
    ensures
        ({
            let field = FormField { name: name@, value: value@ };
            final(body)@ == if old(body)@.len() == 0 {
                field_text(field)
            } else {
                old(body)@ + "&"@ + field_text(field)
            }
        }),
{
    let ghost before = body@;
    if !body.as_str().is_empty() {
        body.append("&");
    }
    body.append(name);
    body.append("=");
    let encoded = percent::percent_encode(value);
    body.append(encoded.as_str());
    proof {
        let text = field_text(FormField { name: name@, value: value@ });
        if before.len() == 0 {
            assert(body@ =~= text);
        } else {
            assert(body@ =~= before + "&"@ + text);
        }
    }
}

/// Appending a field to the text of a form is writing the form with that field
/// at its end.
pub(crate) proof fn lemma_form_push(fields: Seq<FormField>, field: FormField)
    ensures
        form_encoded(fields.push(field)) == if form_encoded(fields).len() == 0 {
            field_text(field)
        } else {
            form_encoded(fields) + "&"@ + field_text(field)
        },
{
    reveal_strlit("=");
    assert(fields.push(field).drop_last() =~= fields);
    if fields.len() > 0 {
        assert(field_text(fields.last()).len() > 0);
    }
}

/// The text of a form begins with the text of its first fields.
pub(crate) proof fn lemma_form_prefix(fields: Seq<FormField>, more: Seq<FormField>)
    ensures
        form_encoded(fields).is_prefix_of(form_encoded(fields + more)),
    decreases more.len(),
{
    if more.len() == 0 {
        assert(fields + more =~= fields);
        assert(form_encoded(fields) =~= form_encoded(fields).subrange(
            0,
            form_encoded(fields).len() as int,
        ));
    } else {
        let most = form_encoded(fields + more.drop_last());
        let whole = form_encoded(fields + more);
        lemma_form_prefix(fields, more.drop_last());
        lemma_form_push(fields + more.drop_last(), more.last());
        assert((fields + more.drop_last()).push(more.last()) =~= fields + more);
        let n = form_encoded(fields).len() as int;
        assert(form_encoded(fields) =~= most.subrange(0, n));
        assert(most.subrange(0, n) =~= whole.subrange(0, n));
    }
}

/// The part of a text before the first `sep`, and the part after it.
pub open spec fn split_once(text: Seq<char>, sep: char) -> Option<(Seq<char>, Seq<char>)>
    decreases text.len(),
{
    if text.len() == 0 {
        None
    } else if text[0] == sep {
        Some((seq![], text.drop_first()))
    } else {
        match split_once(text.drop_first(), sep) {
            Some((before, after)) => Some((seq![text[0]] + before, after)),
            None => None,
        }
    }
}

/// What a reader of form data makes of a name or a value: the text whose UTF-8
/// bytes were percent-encoded.
pub open spec fn decoded_text(text: Seq<char>) -> Option<Seq<char>> {
    match percent::percent_decoded(text) {
        Some(bytes) => if valid_utf8(bytes) {
            Some(decode_utf8(bytes))
        } else {
            None
        },
        None => None,
    }
}

/// What a reader of form data makes of the text of one field.
pub open spec fn decoded_field(text: Seq<char>) -> Option<FormField> {
    match split_once(text, '=') {
        Some((name, value)) => match (decoded_text(name), decoded_text(value)) {
            (Some(name), Some(value)) => Some(FormField { name, value }),
            _ => None,
        },
        None => None,
    }
}

/// What a reader of form data makes of a form: the fields between the `&`s.
pub open spec fn form_decoded(text: Seq<char>) -> Option<Seq<FormField>>
    decreases text.len(),
{
    proof {
        lemma_split_once_shortens(text, '&');
    }
    match split_once(text, '&') {
        Some((first, rest)) => match (decoded_field(first), form_decoded(rest)) {
            (Some(field), Some(fields)) => Some(seq![field] + fields),
            _ => None,
        },
        None => match decoded_field(text) {
            Some(field) => Some(seq![field]),
            None => None,
        },
    }
}

/// What follows the separator is shorter than the whole.
pub proof fn lemma_split_once_shortens(text: Seq<char>, sep: char)
    ensures
        split_once(text, sep) matches Some((before, after)) ==> after.len() < text.len(),
    decreases text.len(),
{
    if text.len() > 0 {
        lemma_split_once_shortens(text.drop_first(), sep);
    }
}

proof fn lemma_split_once_found(before: Seq<char>, sep: char, after: Seq<char>)
    requires
        !before.contains(sep),
    ensures
        split_once(before + seq![sep] + after, sep) == Some((before, after)),
    decreases before.len(),
{
    let text = before + seq![sep] + after;
    if before.len() == 0 {
        assert(text.drop_first() =~= after);
        assert(before =~= seq![]);
    } else {
        assert(before.contains(before[0]));
        assert(text.drop_first() =~= before.drop_first() + seq![sep] + after);
        assert forall|i: int| 0 <= i < before.drop_first().len() implies before.drop_first()[i]
            != sep by {
            assert(before.contains(before[i + 1]));
        }
        lemma_split_once_found(before.drop_first(), sep, after);
        assert(seq![text[0]] + before.drop_first() =~= before);
    }
}

proof fn lemma_split_once_absent(text: Seq<char>, sep: char)
    requires
        !text.contains(sep),
    ensures
        split_once(text, sep) is None,
    decreases text.len(),
{
    if text.len() > 0 {
        assert(text.contains(text[0]));
        assert forall|i: int| 0 <= i < text.drop_first().len() implies text.drop_first()[i]
            != sep by {
            assert(text.contains(text[i + 1]));
        }
        lemma_split_once_absent(text.drop_first(), sep);
    }
}

proof fn lemma_decoded_text(value: Seq<char>)
    ensures
        decoded_text(percent::percent_encoded(encode_utf8(value))) == Some(value),
{
    percent::law_percent_decoding_inverts_encoding(encode_utf8(value));
    encode_utf8_valid_utf8(value);
    encode_utf8_decode_utf8(value);
}

proof fn lemma_decoded_field(field: FormField)
    requires
        percent::all_unreserved(field.name),
    ensures
        decoded_field(field_text(field)) == Some(field),
        !field_text(field).contains('&'),
{
    reveal_strlit("=");
    let encoded = percent::percent_encoded(encode_utf8(field.value));
    let text = field_text(field);
    percent::law_percent_encoding_is_form_safe(encode_utf8(field.value));
    percent::law_percent_encoding_keeps_unreserved(field.name);
    lemma_decoded_text(field.name);
    lemma_decoded_text(field.value);
    assert(text =~= field.name + seq!['='] + encoded);
    lemma_split_once_found(field.name, '=', encoded);
    assert forall|i: int| 0 <= i < text.len() implies text[i] != '&' by {
        let n = field.name.len();
        if i < n {
            assert(text[i] == field.name[i]);
        } else if i > n {
            assert(text[i] == encoded[i - n - 1]);
        }
    }
}

proof fn lemma_form_first(fields: Seq<FormField>)
    requires
        fields.len() >= 2,
    ensures
        form_encoded(fields) == field_text(fields[0]) + "&"@ + form_encoded(fields.drop_first()),
    decreases fields.len(),
{
    let rest = fields.drop_first();
    if fields.len() == 2 {
        assert(form_encoded(fields.drop_last()) == field_text(fields[0]));
        assert(form_encoded(rest) == field_text(fields[1]));
    } else {
        lemma_form_first(fields.drop_last());
        assert(fields.drop_last().drop_first() =~= rest.drop_last());
        assert(form_encoded(fields) =~= field_text(fields[0]) + "&"@ + form_encoded(rest));
    }
}

/// A form with at least one field, whose names are plain words, is read back
/// as it was written, whatever the values are: no value can end its field, add
/// another or change its neighbour.
pub proof fn law_form_decoding_inverts_encoding(fields: Seq<FormField>)
    requires
        fields.len() > 0,
        forall|i: int| 0 <= i < fields.len() ==> percent::all_unreserved(#[trigger] fields[i].name),
    ensures
        form_decoded(form_encoded(fields)) == Some(fields),
    decreases fields.len(),
{
    reveal_strlit("&");
    let text = form_encoded(fields);
    let first = field_text(fields[0]);
    lemma_decoded_field(fields[0]);
    if fields.len() == 1 {
        lemma_split_once_absent(text, '&');
        assert(seq![fields[0]] =~= fields);
    } else {
        let rest = fields.drop_first();
        lemma_form_first(fields);
        assert forall|i: int| 0 <= i < rest.len() implies percent::all_unreserved(#[trigger] rest[i].name) by {
            assert(rest[i] == fields[i + 1]);
        }
        law_form_decoding_inverts_encoding(rest);
        assert(text =~= first + seq!['&'] + form_encoded(rest));
        lemma_split_once_found(first, '&', form_encoded(rest));
        assert(seq![fields[0]] + rest =~= fields);
    }
}

/// The text of a form with one field is the field's name, `=`, and the encoded
/// value.
pub proof fn law_form_of_one_field(field: FormField)
    ensures
        form_encoded(seq![field]) == field.name + seq!['='] + percent::percent_encoded(
            encode_utf8(field.value),
        ),
{
    reveal_strlit("=");
    assert("="@ =~= seq!['=']);
}

/// The text of two forms put together is their texts with `&` between, and the
/// empty form has no text.
pub proof fn law_form_of_concatenation(a: Seq<FormField>, b: Seq<FormField>)
    requires
        a.len() > 0,
        b.len() > 0,
    ensures
        form_encoded(a + b) == form_encoded(a) + seq!['&'] + form_encoded(b),
        form_encoded(Seq::<FormField>::empty()).len() == 0,
    decreases b.len(),
{
    reveal_strlit("&");
    assert("&"@ =~= seq!['&']);
    assert((a + b).drop_last() =~= a + b.drop_last());
    if b.len() == 1 {
        assert(a + b.drop_last() =~= a);
        assert(form_encoded(b) == field_text(b[0]));
    } else {
        law_form_of_concatenation(a, b.drop_last());
        assert(form_encoded(a + b) =~= form_encoded(a) + seq!['&'] + form_encoded(b));
    }
}

} // verus!

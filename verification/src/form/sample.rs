//! Every definition that passes `validate_schema` can be answered: this builds, for any such
//! definition, a payload that `validate_submission` accepts.
//!
//! Which addresses count as valid is decided by the `validator` crate, so the caller supplies an
//! address that fits the form's email fields; every other answer is made here.

use vstd::prelude::*;
use crate::form::validation::{
    FieldDefinition, FieldType, FormSchema, accepted_entries, counted,
    entries_problems, entry_check, field_index, field_problems, field_rule_problems,
    fields_problems, first_field, html_email, is_absent, is_option, is_reserved,
    length_problems, missing_required, parses_as_iso_date, range_problems, repeats_key,
    schema_problems, submission_problems, value_check,
};
use crate::json::{JsonNumber, JsonValue, lemma_map_first_unique, map_first, map_get};
use crate::text::{is_blank, owned, push_char, views};

verus! {

/// Whether an address can answer an email field: it is valid and its length fits the field.
pub open spec fn address_fits(field: FieldDefinition, address: Seq<char>) -> bool {
    &&& html_email(address)
    &&& !is_blank(address)
    &&& length_problems(field, address).len() == 0
}

/// Whether an address can answer every required email field of a definition.
pub open spec fn address_fits_form(schema: FormSchema, address: Seq<char>) -> bool {
    forall|i: int|
        0 <= i < schema.fields@.len() && (#[trigger] schema.fields@[i]).required
            && schema.fields@[i].field_type == FieldType::Email ==> address_fits(
            schema.fields@[i],
            address,
        )
}

/// A text of `n` letters `a`.
pub open spec fn letters(n: nat) -> Seq<char> {
    Seq::new(n, |i: int| 'a')
}

proof fn lemma_fields_problems_empty(fields: Seq<FieldDefinition>, n: int, i: int)
    requires
        0 <= i < n,
        fields_problems(fields, n).len() == 0,
    ensures
        field_problems(fields, i).len() == 0,
    decreases n,
{
    if i < n - 1 {
        lemma_fields_problems_empty(fields, n - 1, i);
    }
}

/// What a definition without problems guarantees of its field `i`.
proof fn lemma_sound_field(schema: FormSchema, i: int)
    requires
        schema_problems(schema).len() == 0,
        0 <= i < schema.fields@.len(),
    ensures
        !repeats_key(schema.fields@, i),
        !is_reserved(schema.fields@[i].key@),
        field_rule_problems(schema.fields@[i]).len() == 0,
{
    lemma_fields_problems_empty(schema.fields@, schema.fields@.len() as int, i);
}

fn letters_text(n: u32) -> (s: String)
    ensures
        s@ == letters(n as nat),
{
    let mut s = owned("");
    proof {
        reveal_strlit("");
    }
    let mut k: u32 = 0;
    while k < n
        invariant
            k <= n,
            s@ == letters(k as nat),
        decreases n - k,
    {
        push_char(&mut s, 'a');
        k = k + 1;
        assert(s@ =~= letters(k as nat));
    }
    s
}

/// An answer the field accepts without a problem.
fn sample_answer(field: &FieldDefinition, address: &str) -> (v: JsonValue)
    requires
        field_rule_problems(*field).len() == 0,
        field.field_type == FieldType::Email ==> address_fits(*field, address@),
    ensures
        value_check(*field, v).0,
        value_check(*field, v).1.len() == 0,
        !is_absent(Some(v)),
{
    match field.field_type {
        FieldType::Email => {
            let text = owned(address);
            assert(text@ == address@);
            let v = JsonValue::String(text);
            assert(!is_absent(Some(v)));
            v
        },
        FieldType::Text | FieldType::Textarea | FieldType::File => {
            let least = match field.min_length {
                Some(m) => m,
                None => 0,
            };
            let n = if least < 1 {
                1
            } else {
                least
            };
            let text = letters_text(n);
            proof {
                assert(!crate::text::is_white_space(text@[0]));
                assert(counted(text@) == n) by {
                    assert(text@.len() == n);
                }
                if field.field_type != FieldType::File {
                    assert(field.max_length != Some(0u32));
                    assert(length_problems(*field, text@).len() == 0);
                }
            }
            let v = JsonValue::String(text);
            assert(!is_absent(Some(v)));
            v
        },
        FieldType::Number => {
            let order = match &field.min {
                Some(min) => min.order,
                None => match &field.max {
                    Some(max) => max.order,
                    None => 0,
                },
            };
            let number = JsonNumber { order, text: owned("0") };
            proof {
                assert(range_problems(*field, number).len() == 0);
            }
            let v = JsonValue::Number(number);
            assert(!is_absent(Some(v)));
            v
        },
        FieldType::Date => {
            let text = owned("2015-09-05");
            let read = parses_as_iso_date(text.as_str());
            assert(read);
            proof {
                reveal_strlit("2015-09-05");
                assert(!crate::text::is_white_space(text@[0]));
            }
            let v = JsonValue::String(text);
            assert(!is_absent(Some(v)));
            v
        },
        FieldType::Select => {
            let options = field.options.as_ref().unwrap();
            let text = options[0].clone();
            proof {
                assert(views(options@)[0] == text@);
                assert(!is_blank(options@[0]@));
                assert(is_option(field.options, text@));
            }
            let v = JsonValue::String(text);
            assert(!is_absent(Some(v)));
            v
        },
        FieldType::Checkbox => JsonValue::Bool(true),
    }
}

proof fn lemma_no_entry_problems(schema: FormSchema, payload: Seq<(String, JsonValue)>)
    requires
        forall|k: int| 0 <= k < payload.len() ==> (#[trigger] entry_check(schema, payload[k])).1.len() == 0,
    ensures
        entries_problems(schema, payload).len() == 0,
    decreases payload.len(),
{
    if payload.len() > 0 {
        let last = payload.len() - 1;
        assert(entry_check(schema, payload[last]).1.len() == 0);
        assert forall|k: int| 0 <= k < payload.drop_last().len() implies (#[trigger] entry_check(
            schema,
            payload.drop_last()[k],
        )).1.len() == 0 by {
            assert(payload.drop_last()[k] == payload[k]);
        }
        lemma_no_entry_problems(schema, payload.drop_last());
    }
}

proof fn lemma_none_missing(
    fields: Seq<FieldDefinition>,
    payload: Seq<(String, JsonValue)>,
    n: int,
)
    requires
        0 <= n <= fields.len(),
        forall|j: int|
            0 <= j < n && (#[trigger] fields[j]).required ==> !is_absent(
                map_get(payload, fields[j].key@),
            ),
    ensures
        missing_required(fields, payload, n).len() == 0,
    decreases n,
{
    if n > 0 {
        lemma_none_missing(fields, payload, n - 1);
        assert(fields[n - 1].required ==> !is_absent(map_get(payload, fields[n - 1].key@)));
    }
}

/// Builds a payload that answers every required field of a valid definition, in field order,
/// using `address` for the email fields. That such a payload exists for every definition that
/// `validate_schema` accepts is what makes a published form always submittable.
pub fn sample_submission(schema: &FormSchema, address: &str) -> (payload: Vec<(String, JsonValue)>)
    requires
        schema_problems(*schema).len() == 0,
        address_fits_form(*schema, address@),
    ensures
        submission_problems(*schema, payload@).len() == 0,
        accepted_entries(*schema, payload@) == payload@,
{
    let ghost fields = schema.fields@;
    let mut payload: Vec<(String, JsonValue)> = Vec::new();
    let ghost mut at: Seq<int> = seq![];
    let mut i: usize = 0;
    while i < schema.fields.len()
        invariant
            fields == schema.fields@,
            schema_problems(*schema).len() == 0,
            address_fits_form(*schema, address@),
            i <= fields.len(),
            at.len() == payload@.len(),
            forall|k: int| 0 <= k < at.len() ==> 0 <= #[trigger] at[k] < i,
            forall|k: int, l: int| 0 <= k < l < at.len() ==> at[k] < at[l],
            forall|k: int|
                0 <= k < at.len() ==> (#[trigger] payload@[k]).0@ == fields[at[k]].key@,
            forall|k: int|
                0 <= k < at.len() ==> (#[trigger] value_check(fields[at[k]], payload@[k].1)).0
                    && value_check(fields[at[k]], payload@[k].1).1.len() == 0
                    && !is_absent(Some(payload@[k].1)),
            forall|j: int|
                0 <= j < i && (#[trigger] fields[j]).required ==> exists|k: int|
                    0 <= k < at.len() && at[k] == j,
        decreases fields.len() - i,
    {
        let field = &schema.fields[i];
        proof {
            lemma_sound_field(*schema, i as int);
        }
        let ghost before = at;
        if field.required {
            let value = sample_answer(field, address);
            payload.push((field.key.clone(), value));
            proof {
                at = at.push(i as int);
                assert(at[at.len() - 1] == i);
            }
        }
        proof {
            assert forall|j: int| 0 <= j < i + 1 && (#[trigger] fields[j]).required implies exists|
                k: int,
            | 0 <= k < at.len() && at[k] == j by {
                if j < i {
                    let k = choose|k: int| 0 <= k < before.len() && before[k] == j;
                    assert(at[k] == j);
                } else {
                    assert(at[at.len() - 1] == j);
                }
            }
        }
        i = i + 1;
    }
    proof {
        // Distinct fields have distinct keys.
        assert forall|a: int, b: int| 0 <= a < b < fields.len() implies #[trigger] fields[a].key@
            != #[trigger] fields[b].key@ by {
            lemma_sound_field(*schema, b);
            if fields[a].key@ == fields[b].key@ {
                assert(repeats_key(fields, b));
            }
        }
        let p = payload@;
        assert forall|k: int| 0 <= k < p.len() implies (#[trigger] entry_check(*schema, p[k])).1.len()
            == 0 && entry_check(*schema, p[k]).0 by {
            let f = at[k];
            lemma_sound_field(*schema, f);
            assert(first_field(fields, p[k].0@, f)) by {
                assert forall|j: int| 0 <= j < f implies (#[trigger] fields[j]).key@ != p[k].0@ by {
                    assert(fields[j].key@ != fields[f].key@);
                }
            }
            crate::form::validation::lemma_first_field_unique(fields, p[k].0@, f);
            assert(field_index(fields, p[k].0@) == Some(f));
        }
        lemma_no_entry_problems(*schema, p);
        assert forall|j: int| 0 <= j < fields.len() && (#[trigger] fields[j]).required implies !is_absent(
            map_get(p, fields[j].key@),
        ) by {
            let k = choose|k: int| 0 <= k < at.len() && at[k] == j;
            assert(map_first(p, fields[j].key@, k)) by {
                assert forall|l: int| 0 <= l < k implies (#[trigger] p[l]).0@ != fields[j].key@ by {
                    assert(at[l] < at[k]);
                    assert(fields[at[l]].key@ != fields[j].key@);
                }
            }
            lemma_map_first_unique(p, fields[j].key@, k);
            assert(value_check(fields[at[k]], p[k].1).0);
        }
        lemma_none_missing(fields, p, fields.len() as int);
        lemma_all_accepted(*schema, p);
    }
    payload
}

proof fn lemma_all_accepted(schema: FormSchema, payload: Seq<(String, JsonValue)>)
    requires
        forall|k: int| 0 <= k < payload.len() ==> (#[trigger] entry_check(schema, payload[k])).0,
    ensures
        accepted_entries(schema, payload) == payload,
    decreases payload.len(),
{
    if payload.len() > 0 {
        let last = payload.len() - 1;
        assert(entry_check(schema, payload[last]).0);
        assert forall|k: int| 0 <= k < payload.drop_last().len() implies (#[trigger] entry_check(
            schema,
            payload.drop_last()[k],
        )).0 by {
            assert(payload.drop_last()[k] == payload[k]);
        }
        lemma_all_accepted(schema, payload.drop_last());
        assert(payload.drop_last().push(payload.last()) =~= payload);
    }
}

} // verus!

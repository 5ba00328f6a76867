//! The form definition contract and the payload validation built on it.
//!
//! Both validators report *every* problem they find rather than the first, so an author fixing
//! a definition and a client fixing a payload each get one pass instead of many.

use vstd::prelude::*;
use crate::json::{JsonNumber, JsonValue, map_get, map_find};
use crate::text::{blank, chars_of, concat, debug_quoted, debug_string, decimal, decimal_string, is_blank, is_digit, is_lower, owned, push_str, str_eq, views};

verus! {

/// Keys beginning with this are reserved for client-side helpers, and are never stored as
/// answers.
pub const RESERVED_PREFIX: char = '_';

/// The field the honeypot uses. A bot that fills everything fills this too.
pub const HONEYPOT_FIELD: &'static str = "_gotcha";

pub const MAX_FIELDS: usize = 50;

pub const MAX_KEY_LENGTH: usize = 64;

pub const MAX_OPTIONS: usize = 100;

pub const MAX_LABEL_LENGTH: usize = 200;

pub const MAX_TEXT_LENGTH: u32 = 10_000;

/// The kind of answer a field takes.
#[derive(Debug, Clone, Copy, PartialEq, Eq, Structural)]
pub enum FieldType {
    Text,
    Textarea,
    Email,
    Number,
    Date,
    Select,
    Checkbox,
    File,
}

/// The name a field type is written with.
pub open spec fn field_type_name(t: FieldType) -> Seq<char> {
    match t {
        FieldType::Text => "text"@,
        FieldType::Textarea => "textarea"@,
        FieldType::Email => "email"@,
        FieldType::Number => "number"@,
        FieldType::Date => "date"@,
        FieldType::Select => "select"@,
        FieldType::Checkbox => "checkbox"@,
        FieldType::File => "file"@,
    }
}

impl FieldType {
    /// The name this type is written with.
    pub fn as_str(self) -> (s: &'static str)
        ensures
            s@ == field_type_name(self),
    {
        match self {
            FieldType::Text => "text",
            FieldType::Textarea => "textarea",
            FieldType::Email => "email",
            FieldType::Number => "number",
            FieldType::Date => "date",
            FieldType::Select => "select",
            FieldType::Checkbox => "checkbox",
            FieldType::File => "file",
        }
    }
}

/// A numeric bound of a number field: the order key of its value (see [`JsonNumber`]) and the
/// way the value is displayed in a message.
#[derive(Debug)]
pub struct NumberBound {
    pub order: u64,
    pub display: String,
}

/// One question on a form. The type-specific fields are optional and only meaningful for the
/// types they belong to; the validator rejects the combinations that make no sense.
#[derive(Debug)]
pub struct FieldDefinition {
    pub key: String,
    pub field_type: FieldType,
    pub label: String,
    pub required: bool,
    pub help: Option<String>,
    pub placeholder: Option<String>,
    pub min_length: Option<u32>,
    pub max_length: Option<u32>,
    pub min: Option<NumberBound>,
    pub max: Option<NumberBound>,
    /// Required for `select`.
    pub options: Option<Vec<String>>,
    /// `file` only: the largest object the upload endpoint will store.
    pub max_bytes: Option<u64>,
    /// `file` only: permitted content types.
    pub accept: Option<Vec<String>>,
}

/// A form definition.
#[derive(Debug)]
pub struct FormSchema {
    pub title: String,
    pub description: Option<String>,
    pub submit_label: Option<String>,
    pub fields: Vec<FieldDefinition>,
}

/// Whether some field has this key.
pub open spec fn has_field(fields: Seq<FieldDefinition>, key: Seq<char>) -> bool {
    exists|i: int| 0 <= i < fields.len() && (#[trigger] fields[i]).key@ == key
}

/// Whether `i` is the first field with this key.
pub open spec fn first_field(fields: Seq<FieldDefinition>, key: Seq<char>, i: int) -> bool {
    &&& 0 <= i < fields.len()
    &&& fields[i].key@ == key
    &&& forall|j: int| 0 <= j < i ==> (#[trigger] fields[j]).key@ != key
}

/// The index of the field an answer key belongs to: the first with that key.
pub open spec fn field_index(fields: Seq<FieldDefinition>, key: Seq<char>) -> Option<int> {
    if has_field(fields, key) {
        Some(choose|i: int| first_field(fields, key, i))
    } else {
        None
    }
}

pub proof fn lemma_first_field_unique(fields: Seq<FieldDefinition>, key: Seq<char>, i: int)
    requires
        first_field(fields, key, i),
    ensures
        field_index(fields, key) == Some(i),
{
    assert(fields[i].key@ == key);
    let k = choose|k: int| first_field(fields, key, k);
    assert(first_field(fields, key, k));
    if k < i {
        assert(fields[k].key@ != key);
    } else if k > i {
        assert(fields[i].key@ != key);
    }
}

/// Whether a schema has a `file` field.
pub open spec fn has_file_field(fields: Seq<FieldDefinition>) -> bool {
    exists|i: int| 0 <= i < fields.len() && (#[trigger] fields[i]).field_type == FieldType::File
}

impl FormSchema {
    /// The field an answer key belongs to: the first with that key.
    pub fn field(&self, key: &str) -> (r: Option<usize>)
        ensures
            r matches Some(i) ==> field_index(self.fields@, key@) == Some(i as int) && i
                < self.fields@.len(),
            r is None ==> field_index(self.fields@, key@) is None,
    {
        let mut i: usize = 0;
        while i < self.fields.len()
            invariant
                i <= self.fields@.len(),
                forall|j: int| 0 <= j < i ==> (#[trigger] self.fields@[j]).key@ != key@,
            decreases self.fields@.len() - i,
        {
            if str_eq(self.fields[i].key.as_str(), key) {
                proof {
                    lemma_first_field_unique(self.fields@, key@, i as int);
                }
                return Some(i);
            }
            i = i + 1;
        }
        None
    }

    /// Whether the form asks for a file anywhere.
    pub fn has_file_field(&self) -> (b: bool)
        ensures
            b == has_file_field(self.fields@),
    {
        let mut i: usize = 0;
        while i < self.fields.len()
            invariant
                i <= self.fields@.len(),
                forall|j: int| 0 <= j < i ==> (#[trigger] self.fields@[j]).field_type != FieldType::File,
            decreases self.fields@.len() - i,
        {
            if self.fields[i].field_type == FieldType::File {
                return true;
            }
            i = i + 1;
        }
        false
    }
}

// ------------------------------------------------------------------------------------------
// Keys
// ------------------------------------------------------------------------------------------

/// A valid key: a lowercase letter, then lowercase letters, digits, and underscores, at most
/// [`MAX_KEY_LENGTH`] characters in all.
pub open spec fn valid_key(key: Seq<char>) -> bool {
    &&& 0 < key.len() <= MAX_KEY_LENGTH
    &&& is_lower(key[0])
    &&& forall|i: int|
        1 <= i < key.len() ==> is_lower(#[trigger] key[i]) || is_digit(key[i]) || key[i] == '_'
}

/// Whether a key may name a field.
pub fn is_valid_key(key: &str) -> (b: bool)
    ensures
        b == valid_key(key@),
{
    let v = chars_of(key);
    if v.len() == 0 || v.len() > MAX_KEY_LENGTH {
        return false;
    }
    if !('a' <= v[0] && v[0] <= 'z') {
        return false;
    }
    let mut i: usize = 1;
    while i < v.len()
        invariant
            v@ == key@,
            1 <= i <= v@.len(),
            forall|k: int|
                1 <= k < i ==> is_lower(#[trigger] v@[k]) || is_digit(v@[k]) || v@[k] == '_',
        decreases v@.len() - i,
    {
        let c = v[i];
        if !(('a' <= c && c <= 'z') || ('0' <= c && c <= '9') || c == '_') {
            return false;
        }
        i = i + 1;
    }
    true
}

// ------------------------------------------------------------------------------------------
// Definitions
// ------------------------------------------------------------------------------------------

/// One thing wrong with a definition. Field problems carry the field's key.
#[derive(Debug)]
pub enum SchemaProblem {
    EmptyTitle,
    NoFields,
    TooManyFields,
    BadKey(String),
    DuplicateKey(String),
    ReservedKey(String),
    BadLabel(String),
    MinLengthAboveMaxLength(String),
    ZeroMaxLength(String),
    MinLengthAboveTextLimit(String),
    MinAboveMax(String),
    SelectWithNoOption(String),
    TooManyOptions(String),
    BlankOption(String),
    SelectWithoutOptions(String),
    ZeroMaxBytes(String),
    OptionsOnNonSelect(String),
    RangeOnNonNumber(String),
}

/// Whether a key starts with the reserved prefix.
pub open spec fn is_reserved(key: Seq<char>) -> bool {
    key.len() > 0 && key[0] == RESERVED_PREFIX
}

/// Whether some option is blank: a blank answer counts as no answer, so such an option could
/// never answer a required field.
pub open spec fn has_blank(options: Seq<String>) -> bool {
    exists|j: int| 0 <= j < options.len() && is_blank((#[trigger] options[j])@)
}

/// Whether some string of the list is blank.
fn any_blank(options: &Vec<String>) -> (b: bool)
    ensures
        b == has_blank(options@),
{
    let mut j: usize = 0;
    while j < options.len()
        invariant
            j <= options@.len(),
            forall|k: int| 0 <= k < j ==> !is_blank((#[trigger] options@[k])@),
        decreases options@.len() - j,
    {
        if blank(options[j].as_str()) {
            return true;
        }
        j = j + 1;
    }
    false
}

/// Whether answers to a field of this type are texts held to the length bounds.
pub open spec fn takes_text(t: FieldType) -> bool {
    t == FieldType::Text || t == FieldType::Textarea || t == FieldType::Email
}

/// The problems of one field's type-specific rules. Besides the combinations that make no
/// sense, a text field whose length bounds leave no answer possible is refused, so that every
/// definition that passes can be answered.
pub open spec fn field_rule_problems(field: FieldDefinition) -> Seq<SchemaProblem> {
    let key = field.key;
    let lengths = if field.min_length is Some && field.max_length is Some && field.min_length->0
        > field.max_length->0 {
        seq![SchemaProblem::MinLengthAboveMaxLength(key)]
    } else {
        seq![]
    };
    let texts = if takes_text(field.field_type) {
        (if field.max_length == Some(0u32) {
            seq![SchemaProblem::ZeroMaxLength(key)]
        } else {
            seq![]
        }) + (if field.max_length is None && field.min_length is Some && field.min_length->0
            > MAX_TEXT_LENGTH {
            seq![SchemaProblem::MinLengthAboveTextLimit(key)]
        } else {
            seq![]
        })
    } else {
        seq![]
    };
    let range = if field.min is Some && field.max is Some && field.min->0.order
        > field.max->0.order {
        seq![SchemaProblem::MinAboveMax(key)]
    } else {
        seq![]
    };
    let by_type = match field.field_type {
        FieldType::Select => match field.options {
            None => seq![SchemaProblem::SelectWithoutOptions(key)],
            Some(options) => if options@.len() == 0 {
                seq![SchemaProblem::SelectWithNoOption(key)]
            } else if options@.len() > MAX_OPTIONS {
                seq![SchemaProblem::TooManyOptions(key)]
            } else if has_blank(options@) {
                seq![SchemaProblem::BlankOption(key)]
            } else {
                seq![]
            },
        },
        FieldType::File => if field.max_bytes == Some(0u64) {
            seq![SchemaProblem::ZeroMaxBytes(key)]
        } else {
            seq![]
        },
        _ => if field.options is Some {
            seq![SchemaProblem::OptionsOnNonSelect(key)]
        } else {
            seq![]
        },
    };
    let numeric = if field.field_type != FieldType::Number && (field.min is Some
        || field.max is Some) {
        seq![SchemaProblem::RangeOnNonNumber(key)]
    } else {
        seq![]
    };
    lengths + texts + range + by_type + numeric
}

/// Whether an earlier field than `i` has the same key.
pub open spec fn repeats_key(fields: Seq<FieldDefinition>, i: int) -> bool {
    exists|j: int| 0 <= j < i && (#[trigger] fields[j]).key@ == fields[i].key@
}

/// The problems of field `i`, in the order they are reported.
pub open spec fn field_problems(fields: Seq<FieldDefinition>, i: int) -> Seq<SchemaProblem> {
    let field = fields[i];
    let key = field.key;
    (if !valid_key(key@) {
        seq![SchemaProblem::BadKey(key)]
    } else {
        seq![]
    }) + (if repeats_key(fields, i) {
        seq![SchemaProblem::DuplicateKey(key)]
    } else {
        seq![]
    }) + (if is_reserved(key@) {
        seq![SchemaProblem::ReservedKey(key)]
    } else {
        seq![]
    }) + (if is_blank(field.label@) || field.label@.len() > MAX_LABEL_LENGTH {
        seq![SchemaProblem::BadLabel(key)]
    } else {
        seq![]
    }) + field_rule_problems(field)
}

/// The problems of the first `n` fields.
pub open spec fn fields_problems(fields: Seq<FieldDefinition>, n: int) -> Seq<SchemaProblem>
    decreases n,
{
    if n <= 0 {
        seq![]
    } else {
        fields_problems(fields, n - 1) + field_problems(fields, n - 1)
    }
}

/// Every problem of a definition, in the order they are reported.
pub open spec fn schema_problems(schema: FormSchema) -> Seq<SchemaProblem> {
    (if is_blank(schema.title@) {
        seq![SchemaProblem::EmptyTitle]
    } else {
        seq![]
    }) + (if schema.fields@.len() == 0 {
        seq![SchemaProblem::NoFields]
    } else {
        seq![]
    }) + (if schema.fields@.len() > MAX_FIELDS {
        seq![SchemaProblem::TooManyFields]
    } else {
        seq![]
    }) + fields_problems(schema.fields@, schema.fields@.len() as int)
}

/// Whether a problem is about one field rather than the definition as a whole.
pub open spec fn is_field_problem(p: SchemaProblem) -> bool {
    !(p is EmptyTitle || p is NoFields || p is TooManyFields)
}

#[verifier::rlimit(60)]
#[verifier::spinoff_prover]
proof fn lemma_fields_problems_are_field_problems(fields: Seq<FieldDefinition>, n: int)
    ensures
        forall|j: int|
            0 <= j < fields_problems(fields, n).len() ==> is_field_problem(
                #[trigger] fields_problems(fields, n)[j],
            ),
    decreases n,
{
    if n > 0 {
        lemma_fields_problems_are_field_problems(fields, n - 1);
        let earlier = fields_problems(fields, n - 1);
        let mine = field_problems(fields, n - 1);
        let rules = field_rule_problems(fields[n - 1]);
        assert forall|j: int| 0 <= j < rules.len() implies is_field_problem(#[trigger] rules[j]) by {}
        assert forall|j: int| 0 <= j < mine.len() implies is_field_problem(#[trigger] mine[j]) by {}
        assert forall|j: int| 0 <= j < (earlier + mine).len() implies is_field_problem(
            #[trigger] (earlier + mine)[j],
        ) by {
            if j >= earlier.len() {
                assert((earlier + mine)[j] == mine[j - earlier.len()]);
            }
        }
    }
}

proof fn lemma_field_problem_reported(fields: Seq<FieldDefinition>, n: int, i: int, p: SchemaProblem)
    requires
        0 <= i < n,
        field_problems(fields, i).contains(p),
    ensures
        fields_problems(fields, n).contains(p),
    decreases n,
{
    let earlier = fields_problems(fields, n - 1);
    let mine = field_problems(fields, n - 1);
    if i < n - 1 {
        lemma_field_problem_reported(fields, n - 1, i, p);
        let j = choose|j: int| 0 <= j < earlier.len() && earlier[j] == p;
        assert((earlier + mine)[j] == p);
    } else {
        let j = choose|j: int| 0 <= j < mine.len() && mine[j] == p;
        assert((earlier + mine)[earlier.len() + j] == p);
    }
}

/// What a definition as a whole is refused for: `EmptyTitle` exactly when its title is blank
/// (empty or only whitespace), `NoFields` exactly when it has no field, and `TooManyFields`
/// exactly when it has more than [`MAX_FIELDS`].
#[verifier::rlimit(60)]
#[verifier::spinoff_prover]
pub proof fn law_what_a_definition_is_refused_for(schema: FormSchema)
    ensures
        schema_problems(schema).contains(SchemaProblem::EmptyTitle) <==> is_blank(schema.title@),
        schema_problems(schema).contains(SchemaProblem::NoFields) <==> schema.fields@.len() == 0,
        schema_problems(schema).contains(SchemaProblem::TooManyFields) <==> schema.fields@.len()
            > MAX_FIELDS,
{
    let fields = schema.fields@;
    let n = fields.len() as int;
    let t = if is_blank(schema.title@) { seq![SchemaProblem::EmptyTitle] } else { seq![] };
    let z = if fields.len() == 0 { seq![SchemaProblem::NoFields] } else { seq![] };
    let m = if fields.len() > MAX_FIELDS { seq![SchemaProblem::TooManyFields] } else { seq![] };
    let rest = fields_problems(fields, n);
    let all = schema_problems(schema);
    let head = t + z + m;
    assert(all == head + rest);
    lemma_fields_problems_are_field_problems(fields, n);
    assert forall|p: SchemaProblem| !is_field_problem(p) implies (#[trigger] all.contains(p)
        <==> head.contains(p)) by {
        if all.contains(p) {
            let j = choose|j: int| 0 <= j < all.len() && all[j] == p;
            if j >= head.len() {
                assert(all[j] == rest[j - head.len()]);
            } else {
                assert(head[j] == p);
            }
        }
        if head.contains(p) {
            let j = choose|j: int| 0 <= j < head.len() && head[j] == p;
            assert(all[j] == p);
        }
    }
    assert(all.contains(SchemaProblem::EmptyTitle) <==> head.contains(SchemaProblem::EmptyTitle));
    assert(all.contains(SchemaProblem::NoFields) <==> head.contains(SchemaProblem::NoFields));
    assert(all.contains(SchemaProblem::TooManyFields) <==> head.contains(SchemaProblem::TooManyFields));
    if is_blank(schema.title@) {
        assert(head[0] == SchemaProblem::EmptyTitle);
    }
    if fields.len() == 0 {
        assert(head[t.len() as int] == SchemaProblem::NoFields);
    }
    if fields.len() > MAX_FIELDS {
        assert(head[(t.len() + z.len()) as int] == SchemaProblem::TooManyFields);
    }
}

proof fn lemma_field_problems_are_reported(schema: FormSchema, i: int, p: SchemaProblem)
    requires
        0 <= i < schema.fields@.len(),
        field_problems(schema.fields@, i).contains(p),
    ensures
        schema_problems(schema).contains(p),
{
    let fields = schema.fields@;
    let n = fields.len() as int;
    let t = if is_blank(schema.title@) { seq![SchemaProblem::EmptyTitle] } else { seq![] };
    let z = if fields.len() == 0 { seq![SchemaProblem::NoFields] } else { seq![] };
    let m = if fields.len() > MAX_FIELDS { seq![SchemaProblem::TooManyFields] } else { seq![] };
    let rest = fields_problems(fields, n);
    let head = t + z + m;
    let all = schema_problems(schema);
    assert(all == head + rest);
    lemma_field_problem_reported(fields, n, i, p);
    let j = choose|j: int| 0 <= j < rest.len() && rest[j] == p;
    assert(all[head.len() + j] == p);
}

/// What a field is refused for: a key that is not a valid key, repeats an earlier key, or is
/// reserved, and a label that is blank or too long, are each refused with the matching problem
/// under the field's key.
#[verifier::rlimit(60)]
#[verifier::spinoff_prover]
pub proof fn law_what_a_field_is_refused_for(schema: FormSchema, i: int)
    requires
        0 <= i < schema.fields@.len(),
    ensures
        ({
            let f = schema.fields@[i];
            let all = schema_problems(schema);
            &&& !valid_key(f.key@) ==> all.contains(SchemaProblem::BadKey(f.key))
            &&& repeats_key(schema.fields@, i) ==> all.contains(SchemaProblem::DuplicateKey(f.key))
            &&& is_reserved(f.key@) ==> all.contains(SchemaProblem::ReservedKey(f.key))
            &&& (is_blank(f.label@) || f.label@.len() > MAX_LABEL_LENGTH) ==> all.contains(
                SchemaProblem::BadLabel(f.key),
            )
        }),
{
    let fields = schema.fields@;
    let f = fields[i];
    let mine = field_problems(fields, i);
    let a = if !valid_key(f.key@) { seq![SchemaProblem::BadKey(f.key)] } else { seq![] };
    let b = if repeats_key(fields, i) { seq![SchemaProblem::DuplicateKey(f.key)] } else { seq![] };
    let c = if is_reserved(f.key@) { seq![SchemaProblem::ReservedKey(f.key)] } else { seq![] };
    let d = if is_blank(f.label@) || f.label@.len() > MAX_LABEL_LENGTH {
        seq![SchemaProblem::BadLabel(f.key)]
    } else {
        seq![]
    };
    assert(mine == a + b + c + d + field_rule_problems(f));
    if !valid_key(f.key@) {
        assert(mine[0] == SchemaProblem::BadKey(f.key));
        lemma_field_problems_are_reported(schema, i, SchemaProblem::BadKey(f.key));
    }
    if repeats_key(fields, i) {
        assert(mine[a.len() as int] == SchemaProblem::DuplicateKey(f.key));
        lemma_field_problems_are_reported(schema, i, SchemaProblem::DuplicateKey(f.key));
    }
    if is_reserved(f.key@) {
        assert(mine[(a.len() + b.len()) as int] == SchemaProblem::ReservedKey(f.key));
        lemma_field_problems_are_reported(schema, i, SchemaProblem::ReservedKey(f.key));
    }
    if is_blank(f.label@) || f.label@.len() > MAX_LABEL_LENGTH {
        assert(mine[(a.len() + b.len() + c.len()) as int] == SchemaProblem::BadLabel(f.key));
        lemma_field_problems_are_reported(schema, i, SchemaProblem::BadLabel(f.key));
    }
}

/// What a field's bounds are refused for: length bounds with the minimum above the maximum, and
/// numeric bounds with the minimum above the maximum, are each refused under the field's key.
#[verifier::rlimit(60)]
#[verifier::spinoff_prover]
pub proof fn law_inverted_bounds_are_refused(schema: FormSchema, i: int)
    requires
        0 <= i < schema.fields@.len(),
    ensures
        ({
            let f = schema.fields@[i];
            let all = schema_problems(schema);
            &&& (f.min_length is Some && f.max_length is Some && f.min_length->0
                > f.max_length->0) ==> all.contains(SchemaProblem::MinLengthAboveMaxLength(f.key))
            &&& (f.min is Some && f.max is Some && f.min->0.order > f.max->0.order) ==> all.contains(
                SchemaProblem::MinAboveMax(f.key),
            )
        }),
{
    let fields = schema.fields@;
    let f = fields[i];
    let mine = field_problems(fields, i);
    let r = field_rule_problems(f);
    let off = mine.len() - r.len();
    assert(mine.subrange(off, mine.len() as int) =~= r);
    let lengths = if f.min_length is Some && f.max_length is Some && f.min_length->0
        > f.max_length->0 { 1int } else { 0int };
    if lengths == 1 {
        assert(r[0] == SchemaProblem::MinLengthAboveMaxLength(f.key));
        assert(mine[off] == r[0]);
        lemma_field_problems_are_reported(schema, i, SchemaProblem::MinLengthAboveMaxLength(f.key));
    }
    if f.min is Some && f.max is Some && f.min->0.order > f.max->0.order {
        let texts = if takes_text(f.field_type) {
            (if f.max_length == Some(0u32) { 1int } else { 0int }) + (if f.max_length is None
                && f.min_length is Some && f.min_length->0 > MAX_TEXT_LENGTH { 1int } else { 0int })
        } else {
            0int
        };
        assert(r[lengths + texts] == SchemaProblem::MinAboveMax(f.key));
        assert(mine[off + lengths + texts] == r[lengths + texts]);
        lemma_field_problems_are_reported(schema, i, SchemaProblem::MinAboveMax(f.key));
    }
}

fn push_problem(problems: &mut Vec<SchemaProblem>, problem: SchemaProblem)
    ensures
        final(problems)@ == old(problems)@.push(problem),
{
    problems.push(problem);
}

fn validate_field_rules(field: &FieldDefinition, problems: &mut Vec<SchemaProblem>)
    ensures
        final(problems)@ == old(problems)@ + field_rule_problems(*field),
{
    let ghost start = problems@;
    if let (Some(min), Some(max)) = (field.min_length, field.max_length) {
        if min > max {
            push_problem(problems, SchemaProblem::MinLengthAboveMaxLength(field.key.clone()));
        }
    }
    let ghost after_lengths = problems@;
    if field.field_type == FieldType::Text || field.field_type == FieldType::Textarea
        || field.field_type == FieldType::Email {
        if field.max_length == Some(0u32) {
            push_problem(problems, SchemaProblem::ZeroMaxLength(field.key.clone()));
        }
        if let (None, Some(min)) = (field.max_length, field.min_length) {
            if min > MAX_TEXT_LENGTH {
                push_problem(problems, SchemaProblem::MinLengthAboveTextLimit(field.key.clone()));
            }
        }
    }
    let ghost after_texts = problems@;
    match (&field.min, &field.max) {
        (Some(min), Some(max)) => {
            if min.order > max.order {
                push_problem(problems, SchemaProblem::MinAboveMax(field.key.clone()));
            }
        },
        _ => {},
    }
    let ghost after_range = problems@;
    match field.field_type {
        FieldType::Select => match &field.options {
            None => push_problem(problems, SchemaProblem::SelectWithoutOptions(field.key.clone())),
            Some(options) => {
                if options.len() == 0 {
                    push_problem(problems, SchemaProblem::SelectWithNoOption(field.key.clone()));
                } else if options.len() > MAX_OPTIONS {
                    push_problem(problems, SchemaProblem::TooManyOptions(field.key.clone()));
                } else if any_blank(options) {
                    push_problem(problems, SchemaProblem::BlankOption(field.key.clone()));
                }
            },
        },
        FieldType::File => {
            if field.max_bytes == Some(0u64) {
                push_problem(problems, SchemaProblem::ZeroMaxBytes(field.key.clone()));
            }
        },
        _ => {
            if field.options.is_some() {
                push_problem(problems, SchemaProblem::OptionsOnNonSelect(field.key.clone()));
            }
        },
    }
    let ghost after_type = problems@;
    if field.field_type != FieldType::Number && (field.min.is_some() || field.max.is_some()) {
        push_problem(problems, SchemaProblem::RangeOnNonNumber(field.key.clone()));
    }
    proof {
        let p = field_rule_problems(*field);
        assert(problems@ =~= start + p);
    }
}

/// Whether some field before `i` has the key of field `i`.
fn key_repeated(fields: &Vec<FieldDefinition>, i: usize) -> (b: bool)
    requires
        i < fields@.len(),
    ensures
        b == repeats_key(fields@, i as int),
{
    let mut j: usize = 0;
    while j < i
        invariant
            i < fields@.len(),
            j <= i,
            forall|k: int| 0 <= k < j ==> (#[trigger] fields@[k]).key@ != fields@[i as int].key@,
        decreases i - j,
    {
        if str_eq(fields[j].key.as_str(), fields[i].key.as_str()) {
            return true;
        }
        j = j + 1;
    }
    false
}

/// Checks field `i` of a definition, appending its problems.
fn check_field(fields: &Vec<FieldDefinition>, i: usize, problems: &mut Vec<SchemaProblem>)
    requires
        i < fields@.len(),
    ensures
        final(problems)@ == old(problems)@ + field_problems(fields@, i as int),
{
    let field = &fields[i];
    let ghost before = problems@;
    if !is_valid_key(field.key.as_str()) {
        push_problem(problems, SchemaProblem::BadKey(field.key.clone()));
    }
    if key_repeated(fields, i) {
        push_problem(problems, SchemaProblem::DuplicateKey(field.key.clone()));
    }
    let key_chars = chars_of(field.key.as_str());
    if key_chars.len() > 0 && key_chars[0] == RESERVED_PREFIX {
        push_problem(problems, SchemaProblem::ReservedKey(field.key.clone()));
    }
    let label_chars = chars_of(field.label.as_str());
    if blank(field.label.as_str()) || label_chars.len() > MAX_LABEL_LENGTH {
        push_problem(problems, SchemaProblem::BadLabel(field.key.clone()));
    }
    validate_field_rules(field, problems);
    proof {
        assert(problems@ =~= before + field_problems(fields@, i as int));
    }
}

/// Checks a definition, returning every problem found. A form that passes this is always
/// renderable and always submittable: [`crate::form::sample::sample_submission`] builds, for any
/// such form, a payload that [`validate_submission`] accepts.
pub fn validate_schema(schema: &FormSchema) -> (r: Result<(), Vec<SchemaProblem>>)
    ensures
        r is Ok <==> schema_problems(*schema).len() == 0,
        r matches Err(problems) ==> problems@ == schema_problems(*schema),
{
    let mut problems: Vec<SchemaProblem> = Vec::new();
    if blank(schema.title.as_str()) {
        push_problem(&mut problems, SchemaProblem::EmptyTitle);
    }
    if schema.fields.len() == 0 {
        push_problem(&mut problems, SchemaProblem::NoFields);
    }
    if schema.fields.len() > MAX_FIELDS {
        push_problem(&mut problems, SchemaProblem::TooManyFields);
    }
    let ghost head = problems@;
    let mut i: usize = 0;
    while i < schema.fields.len()
        invariant
            i <= schema.fields@.len(),
            problems@ == head + fields_problems(schema.fields@, i as int),
        decreases schema.fields@.len() - i,
    {
        check_field(&schema.fields, i, &mut problems);
        proof {
            assert(head + fields_problems(schema.fields@, i + 1) =~= problems@);
        }
        i = i + 1;
    }
    if problems.len() == 0 {
        Ok(())
    } else {
        Err(problems)
    }
}

/// What `format!("field {:?}", key)` names a field with in a message.
pub open spec fn field_name(key: Seq<char>) -> Seq<char> {
    "field "@ + debug_quoted(key)
}

/// The message each definition problem is reported with.
pub open spec fn schema_problem_message(p: SchemaProblem) -> Seq<char> {
    match p {
        SchemaProblem::EmptyTitle => "title must not be empty"@,
        SchemaProblem::NoFields => "a form needs at least one field"@,
        SchemaProblem::TooManyFields => "a form may have at most 50 fields"@,
        SchemaProblem::BadKey(k) => field_name(k@)
            + ": key must start with a lowercase letter and contain only lowercase letters, digits, and underscores, up to 64 characters"@,
        SchemaProblem::DuplicateKey(k) => field_name(k@) + ": key is used more than once"@,
        SchemaProblem::ReservedKey(k) => field_name(k@) + ": keys starting with _ are reserved"@,
        SchemaProblem::BadLabel(k) => field_name(k@)
            + ": label must be between 1 and 200 characters"@,
        SchemaProblem::MinLengthAboveMaxLength(k) => field_name(k@)
            + ": min_length is greater than max_length"@,
        SchemaProblem::ZeroMaxLength(k) => field_name(k@)
            + ": max_length must be greater than zero"@,
        SchemaProblem::MinLengthAboveTextLimit(k) => field_name(k@)
            + ": min_length is greater than the 10000 character limit"@,
        SchemaProblem::MinAboveMax(k) => field_name(k@) + ": min is greater than max"@,
        SchemaProblem::SelectWithNoOption(k) => field_name(k@)
            + ": a select needs at least one option"@,
        SchemaProblem::TooManyOptions(k) => field_name(k@)
            + ": a select may have at most 100 options"@,
        SchemaProblem::BlankOption(k) => field_name(k@) + ": select options must not be blank"@,
        SchemaProblem::SelectWithoutOptions(k) => field_name(k@) + ": a select needs options"@,
        SchemaProblem::ZeroMaxBytes(k) => field_name(k@)
            + ": max_bytes must be greater than zero"@,
        SchemaProblem::OptionsOnNonSelect(k) => field_name(k@)
            + ": options only apply to a select field"@,
        SchemaProblem::RangeOnNonNumber(k) => field_name(k@)
            + ": min and max only apply to a number field"@,
    }
}

fn named(key: &String, tail: &str) -> (s: String)
    ensures
        s@ == field_name(key@) + tail@,
{
    let mut s = owned("field ");
    let quoted = debug_string(key.as_str());
    push_str(&mut s, quoted.as_str());
    push_str(&mut s, tail);
    s
}

impl SchemaProblem {
    /// The message this problem is reported with.
    pub fn message(&self) -> (s: String)
        ensures
            s@ == schema_problem_message(*self),
    {
        match self {
            SchemaProblem::EmptyTitle => owned("title must not be empty"),
            SchemaProblem::NoFields => owned("a form needs at least one field"),
            SchemaProblem::TooManyFields => owned("a form may have at most 50 fields"),
            SchemaProblem::BadKey(k) => named(
                k,
                ": key must start with a lowercase letter and contain only lowercase letters, digits, and underscores, up to 64 characters",
            ),
            SchemaProblem::DuplicateKey(k) => named(k, ": key is used more than once"),
            SchemaProblem::ReservedKey(k) => named(k, ": keys starting with _ are reserved"),
            SchemaProblem::BadLabel(k) => named(k, ": label must be between 1 and 200 characters"),
            SchemaProblem::MinLengthAboveMaxLength(k) => named(
                k,
                ": min_length is greater than max_length",
            ),
            SchemaProblem::ZeroMaxLength(k) => named(k, ": max_length must be greater than zero"),
            SchemaProblem::MinLengthAboveTextLimit(k) => named(
                k,
                ": min_length is greater than the 10000 character limit",
            ),
            SchemaProblem::MinAboveMax(k) => named(k, ": min is greater than max"),
            SchemaProblem::SelectWithNoOption(k) => named(k, ": a select needs at least one option"),
            SchemaProblem::TooManyOptions(k) => named(k, ": a select may have at most 100 options"),
            SchemaProblem::BlankOption(k) => named(k, ": select options must not be blank"),
            SchemaProblem::SelectWithoutOptions(k) => named(k, ": a select needs options"),
            SchemaProblem::ZeroMaxBytes(k) => named(k, ": max_bytes must be greater than zero"),
            SchemaProblem::OptionsOnNonSelect(k) => named(
                k,
                ": options only apply to a select field",
            ),
            SchemaProblem::RangeOnNonNumber(k) => named(
                k,
                ": min and max only apply to a number field",
            ),
        }
    }
}

// ------------------------------------------------------------------------------------------
// Submissions
// ------------------------------------------------------------------------------------------

/// One thing wrong with a submitted payload. Each carries the key it is about.
#[derive(Debug)]
pub enum SubmissionProblem {
    Required(String),
    NotAString(String),
    TooShort(String, u32),
    TooLong(String, u32),
    NotAnEmail(String),
    NotANumber(String),
    BelowMin(String, String),
    AboveMax(String, String),
    NotADate(String),
    NotAnOption(String),
    NotABoolean(String),
    NotAFileReference(String),
    EmptyFileReference(String),
    UnknownField(String),
}

/// Whether an address is valid by the HTML5 rules `validator` applies.
pub uninterp spec fn html_email(s: Seq<char>) -> bool;

/// `validator::ValidateEmail::validate_email`. Its source refuses the empty string and any text
/// without an `@` before applying the HTML5 rules, which is all this states of them.
#[verifier::external_body]
pub(crate) fn validate_email(s: &str) -> (b: bool)
    ensures
        b == html_email(s@),
        b ==> s@.len() > 0 && s@.contains('@'),
{
    validator::ValidateEmail::validate_email(&s)
}

/// Whether a text is a calendar date in `YYYY-MM-DD` form, as chrono's parser reads it.
pub uninterp spec fn iso_date(s: Seq<char>) -> bool;

/// `chrono::NaiveDate::parse_from_str(s, "%Y-%m-%d").is_ok()`. Besides naming the result, this
/// states the example its documentation gives: `"2015-09-05"` is read as a date.
#[verifier::external_body]
pub(crate) fn parses_as_iso_date(s: &str) -> (b: bool)
    ensures
        b == iso_date(s@),
        s@ == "2015-09-05"@ ==> b,
{
    chrono::NaiveDate::parse_from_str(s, "%Y-%m-%d").is_ok()
}

/// Whether an answer counts as missing: absent, null, or a blank string.
pub open spec fn is_absent(value: Option<JsonValue>) -> bool {
    match value {
        None => true,
        Some(JsonValue::Null) => true,
        Some(JsonValue::String(text)) => is_blank(text@),
        Some(_) => false,
    }
}

/// The character count of a text as the validator reads it: truncated to 32 bits.
pub open spec fn counted(text: Seq<char>) -> u32 {
    text.len() as u32
}

/// The length problems of a text answer.
pub open spec fn length_problems(field: FieldDefinition, text: Seq<char>) -> Seq<SubmissionProblem> {
    let short = if field.min_length is Some && counted(text) < field.min_length->0 {
        seq![SubmissionProblem::TooShort(field.key, field.min_length->0)]
    } else {
        seq![]
    };
    let max = match field.max_length {
        Some(m) => m,
        None => MAX_TEXT_LENGTH,
    };
    let long = if counted(text) > max {
        seq![SubmissionProblem::TooLong(field.key, max)]
    } else {
        seq![]
    };
    short + long
}

/// The range problems of a number answer.
pub open spec fn range_problems(field: FieldDefinition, number: JsonNumber) -> Seq<SubmissionProblem> {
    (if field.min is Some && number.order < field.min->0.order {
        seq![SubmissionProblem::BelowMin(field.key, field.min->0.display)]
    } else {
        seq![]
    }) + (if field.max is Some && number.order > field.max->0.order {
        seq![SubmissionProblem::AboveMax(field.key, field.max->0.display)]
    } else {
        seq![]
    })
}

/// Whether a text is one of a select's options.
pub open spec fn is_option(options: Option<Vec<String>>, text: Seq<char>) -> bool {
    match options {
        Some(list) => views(list@).contains(text),
        None => false,
    }
}

/// Checks one answer against its field: whether it is stored, and the problems it has.
pub open spec fn value_check(field: FieldDefinition, value: JsonValue) -> (bool, Seq<SubmissionProblem>) {
    let key = field.key;
    if value is Null {
        (false, if field.required {
            seq![SubmissionProblem::Required(key)]
        } else {
            seq![]
        })
    } else {
        match field.field_type {
            FieldType::Text | FieldType::Textarea | FieldType::Email => match value {
                JsonValue::String(text) => if field.required && is_blank(text@) {
                    (false, seq![SubmissionProblem::Required(key)])
                } else {
                    (true, length_problems(field, text@) + (if field.field_type == FieldType::Email
                        && !html_email(text@) {
                        seq![SubmissionProblem::NotAnEmail(key)]
                    } else {
                        seq![]
                    }))
                },
                _ => (false, seq![SubmissionProblem::NotAString(key)]),
            },
            FieldType::Number => match value {
                JsonValue::Number(number) => (true, range_problems(field, number)),
                _ => (false, seq![SubmissionProblem::NotANumber(key)]),
            },
            FieldType::Date => match value {
                JsonValue::String(text) => if iso_date(text@) {
                    (true, seq![])
                } else {
                    (false, seq![SubmissionProblem::NotADate(key)])
                },
                _ => (false, seq![SubmissionProblem::NotADate(key)]),
            },
            FieldType::Select => match value {
                JsonValue::String(text) => (true, if is_option(field.options, text@) {
                    seq![]
                } else {
                    seq![SubmissionProblem::NotAnOption(key)]
                }),
                _ => (false, seq![SubmissionProblem::NotAnOption(key)]),
            },
            FieldType::Checkbox => match value {
                JsonValue::Bool(_) => (true, seq![]),
                _ => (false, seq![SubmissionProblem::NotABoolean(key)]),
            },
            FieldType::File => match value {
                JsonValue::String(text) => if is_blank(text@) {
                    (false, seq![SubmissionProblem::EmptyFileReference(key)])
                } else {
                    (true, seq![])
                },
                _ => (false, seq![SubmissionProblem::NotAFileReference(key)]),
            },
        }
    }
}

/// How one payload entry fares: whether it is stored, and its problems. Reserved keys are
/// dropped silently; an undeclared key is a problem.
pub open spec fn entry_check(schema: FormSchema, entry: (String, JsonValue)) -> (bool, Seq<SubmissionProblem>) {
    if is_reserved(entry.0@) {
        (false, seq![])
    } else {
        match field_index(schema.fields@, entry.0@) {
            Some(i) => value_check(schema.fields@[i], entry.1),
            None => (false, seq![SubmissionProblem::UnknownField(entry.0)]),
        }
    }
}

/// The problems of the payload's entries, in payload order.
pub open spec fn entries_problems(schema: FormSchema, payload: Seq<(String, JsonValue)>) -> Seq<SubmissionProblem>
    decreases payload.len(),
{
    if payload.len() == 0 {
        seq![]
    } else {
        entries_problems(schema, payload.drop_last()) + entry_check(schema, payload.last()).1
    }
}

/// The entries that are stored as answers, in payload order.
pub open spec fn accepted_entries(schema: FormSchema, payload: Seq<(String, JsonValue)>) -> Seq<(String, JsonValue)>
    decreases payload.len(),
{
    if payload.len() == 0 {
        seq![]
    } else {
        let earlier = accepted_entries(schema, payload.drop_last());
        if entry_check(schema, payload.last()).0 {
            earlier.push(payload.last())
        } else {
            earlier
        }
    }
}

/// The required fields of the first `n` that the payload leaves absent.
pub open spec fn missing_required(
    fields: Seq<FieldDefinition>,
    payload: Seq<(String, JsonValue)>,
    n: int,
) -> Seq<SubmissionProblem>
    decreases n,
{
    if n <= 0 {
        seq![]
    } else {
        missing_required(fields, payload, n - 1) + (if fields[n - 1].required && is_absent(
            map_get(payload, fields[n - 1].key@),
        ) {
            seq![SubmissionProblem::Required(fields[n - 1].key)]
        } else {
            seq![]
        })
    }
}

/// Every problem of a payload: the entries' problems, then the missing required answers.
pub open spec fn submission_problems(schema: FormSchema, payload: Seq<(String, JsonValue)>) -> Seq<SubmissionProblem> {
    entries_problems(schema, payload) + missing_required(
        schema.fields@,
        payload,
        schema.fields@.len() as int,
    )
}

proof fn lemma_accepted_entries_are_declared(schema: FormSchema, payload: Seq<(String, JsonValue)>, k: int)
    requires
        0 <= k < accepted_entries(schema, payload).len(),
    ensures
        !is_reserved(accepted_entries(schema, payload)[k].0@),
        field_index(schema.fields@, accepted_entries(schema, payload)[k].0@) is Some,
    decreases payload.len(),
{
    let earlier = accepted_entries(schema, payload.drop_last());
    if k < earlier.len() {
        lemma_accepted_entries_are_declared(schema, payload.drop_last(), k);
    } else {
        assert(entry_check(schema, payload.last()).0);
    }
}

/// Only declared answers are ever stored: every accepted answer belongs to a field of the form,
/// and no reserved key is kept.
pub proof fn law_only_declared_answers_are_stored(
    schema: FormSchema,
    payload: Seq<(String, JsonValue)>,
    k: int,
)
    requires
        0 <= k < accepted_entries(schema, payload).len(),
    ensures
        !is_reserved(accepted_entries(schema, payload)[k].0@),
        field_index(schema.fields@, accepted_entries(schema, payload)[k].0@) is Some,
{
    lemma_accepted_entries_are_declared(schema, payload, k);
}

proof fn lemma_nothing_missing(fields: Seq<FieldDefinition>, payload: Seq<(String, JsonValue)>, n: int, f: int)
    requires
        0 <= f < n <= fields.len(),
        missing_required(fields, payload, n).len() == 0,
        fields[f].required,
    ensures
        !is_absent(map_get(payload, fields[f].key@)),
    decreases n,
{
    if f < n - 1 {
        lemma_nothing_missing(fields, payload, n - 1, f);
    }
}

/// A payload without problems answers every required field.
pub proof fn law_an_accepted_payload_answers_every_required_field(
    schema: FormSchema,
    payload: Seq<(String, JsonValue)>,
    f: int,
)
    requires
        submission_problems(schema, payload).len() == 0,
        0 <= f < schema.fields@.len(),
        schema.fields@[f].required,
    ensures
        !is_absent(map_get(payload, schema.fields@[f].key@)),
{
    lemma_nothing_missing(schema.fields@, payload, schema.fields@.len() as int, f);
}

/// The entries of a payload that are neither reserved nor null, in payload order.
pub open spec fn unreserved_answers(payload: Seq<(String, JsonValue)>) -> Seq<(String, JsonValue)>
    decreases payload.len(),
{
    if payload.len() == 0 {
        seq![]
    } else {
        let earlier = unreserved_answers(payload.drop_last());
        if !is_reserved(payload.last().0@) && !(payload.last().1 is Null) {
            earlier.push(payload.last())
        } else {
            earlier
        }
    }
}

proof fn lemma_clean_entries_are_kept(schema: FormSchema, payload: Seq<(String, JsonValue)>)
    requires
        entries_problems(schema, payload).len() == 0,
    ensures
        accepted_entries(schema, payload) == unreserved_answers(payload),
    decreases payload.len(),
{
    if payload.len() > 0 {
        lemma_clean_entries_are_kept(schema, payload.drop_last());
        let last = payload.last();
        if !is_reserved(last.0@) {
            match field_index(schema.fields@, last.0@) {
                Some(i) => {
                    assert(value_check(schema.fields@[i], last.1).1.len() == 0);
                },
                None => {},
            }
        }
    }
}

/// What a successful submission stores: exactly the payload's entries whose key is not
/// reserved and whose value is not null, in payload order and unchanged.
pub proof fn law_stored_answers_are_the_unreserved_non_null_entries(
    schema: FormSchema,
    payload: Seq<(String, JsonValue)>,
)
    requires
        submission_problems(schema, payload).len() == 0,
    ensures
        accepted_entries(schema, payload) == unreserved_answers(payload),
{
    lemma_clean_entries_are_kept(schema, payload);
}

/// An answer that is refused and is not null is never dropped silently: it always has a problem.
pub proof fn law_a_refused_answer_is_reported(field: FieldDefinition, value: JsonValue)
    requires
        !(value is Null),
        !value_check(field, value).0,
    ensures
        value_check(field, value).1.len() > 0,
{
}

/// How a text answer is judged, for a text, textarea or email field: null is only a problem
/// when the field is required; a blank answer to a required field is reported as missing and not
/// stored; any other string is stored, is too short exactly when it has fewer characters than
/// `min_length`, and is too long exactly when it has more than `max_length` (or than
/// [`MAX_TEXT_LENGTH`] when none is set).
pub proof fn law_how_a_text_answer_is_judged(field: FieldDefinition, value: JsonValue, bound: u32)
    requires
        field.field_type == FieldType::Text || field.field_type == FieldType::Textarea
            || field.field_type == FieldType::Email,
    ensures
        value is Null ==> !value_check(field, value).0 && (value_check(field, value).1.len() > 0
            <==> field.required),
        value is String && field.required && is_blank(value->String_0@) ==> (!value_check(
            field,
            value,
        ).0 && value_check(field, value).1 == seq![SubmissionProblem::Required(field.key)]),
        value is String && !(field.required && is_blank(value->String_0@)) && value->String_0@.len()
            <= u32::MAX ==> {
            &&& value_check(field, value).0
            &&& (value_check(field, value).1.contains(SubmissionProblem::TooShort(field.key, bound))
                <==> (field.min_length == Some(bound) && value->String_0@.len() < bound))
            &&& (value_check(field, value).1.contains(SubmissionProblem::TooLong(field.key, bound))
                <==> (bound == (match field.max_length {
                Some(m) => m,
                None => MAX_TEXT_LENGTH,
            }) && value->String_0@.len() > bound))
        },
{
    match value {
        JsonValue::String(text) => {
            if !(field.required && is_blank(text@)) && text@.len() <= u32::MAX {
                assert(counted(text@) == text@.len());
                let ps = value_check(field, value).1;
                let lp = length_problems(field, text@);
                assert(ps =~= lp + (if field.field_type == FieldType::Email && !html_email(text@) {
                    seq![SubmissionProblem::NotAnEmail(field.key)]
                } else {
                    seq![]
                }));
                if ps.contains(SubmissionProblem::TooShort(field.key, bound)) {
                    let j = choose|j: int| 0 <= j < ps.len() && ps[j] == SubmissionProblem::TooShort(field.key, bound);
                    assert(ps[j] == SubmissionProblem::TooShort(field.key, bound));
                }
                if field.min_length == Some(bound) && text@.len() < bound {
                    assert(ps[0] == SubmissionProblem::TooShort(field.key, bound));
                }
                if ps.contains(SubmissionProblem::TooLong(field.key, bound)) {
                    let j = choose|j: int| 0 <= j < ps.len() && ps[j] == SubmissionProblem::TooLong(field.key, bound);
                    assert(ps[j] == SubmissionProblem::TooLong(field.key, bound));
                }
                let max = match field.max_length {
                    Some(m) => m,
                    None => MAX_TEXT_LENGTH,
                };
                if bound == max && text@.len() > bound {
                    let short = if field.min_length is Some && counted(text@) < field.min_length->0 { 1int } else { 0int };
                    assert(ps[short] == SubmissionProblem::TooLong(field.key, bound));
                }
            }
        },
        _ => {},
    }
}

/// How the other answers are judged. A number is stored, and is below the minimum or above the
/// maximum exactly when its value is; a date is stored exactly when it is a calendar date; a
/// select answer is stored and has a problem exactly when it is none of the options; a checkbox
/// takes a boolean; a file answer takes a reference that is not blank. Any other kind of value
/// is refused with the one problem that names what was expected.
#[verifier::rlimit(40)]
pub proof fn law_how_other_answers_are_judged(field: FieldDefinition, value: JsonValue)
    requires
        !(value is Null),
    ensures
        field.field_type == FieldType::Number ==> (if value is Number {
            &&& value_check(field, value).0
            &&& (value_check(field, value).1.contains(
                SubmissionProblem::BelowMin(field.key, field.min->0.display),
            ) <== (field.min is Some && value->Number_0.order < field.min->0.order))
            &&& (value_check(field, value).1.contains(
                SubmissionProblem::AboveMax(field.key, field.max->0.display),
            ) <== (field.max is Some && value->Number_0.order > field.max->0.order))
            &&& (value_check(field, value).1.len() == 0 <==> !(field.min is Some
                && value->Number_0.order < field.min->0.order) && !(field.max is Some
                && value->Number_0.order > field.max->0.order))
        } else {
            value_check(field, value) == (false, seq![SubmissionProblem::NotANumber(field.key)])
        }),
        field.field_type == FieldType::Date ==> (if value is String && iso_date(value->String_0@) {
            value_check(field, value) == (true, Seq::<SubmissionProblem>::empty())
        } else {
            value_check(field, value) == (false, seq![SubmissionProblem::NotADate(field.key)])
        }),
        field.field_type == FieldType::Select ==> (if value is String {
            &&& value_check(field, value).0
            &&& (value_check(field, value).1.len() == 0 <==> (field.options matches Some(list)
                && exists|j: int| 0 <= j < list@.len() && (#[trigger] list@[j])@ == value->String_0@))
            &&& value_check(field, value).1.len() != 0 ==> value_check(field, value).1 == seq![
                SubmissionProblem::NotAnOption(field.key),
            ]
        } else {
            value_check(field, value) == (false, seq![SubmissionProblem::NotAnOption(field.key)])
        }),
        field.field_type == FieldType::Checkbox ==> (if value is Bool {
            value_check(field, value) == (true, Seq::<SubmissionProblem>::empty())
        } else {
            value_check(field, value) == (false, seq![SubmissionProblem::NotABoolean(field.key)])
        }),
        field.field_type == FieldType::File ==> (if value is String {
            if is_blank(value->String_0@) {
                value_check(field, value) == (false, seq![
                    SubmissionProblem::EmptyFileReference(field.key),
                ])
            } else {
                value_check(field, value) == (true, Seq::<SubmissionProblem>::empty())
            }
        } else {
            value_check(field, value) == (false, seq![SubmissionProblem::NotAFileReference(field.key)])
        }),
        (field.field_type == FieldType::Text || field.field_type == FieldType::Textarea
            || field.field_type == FieldType::Email) && !(value is String) ==> value_check(field, value)
            == (false, seq![SubmissionProblem::NotAString(field.key)]),
{
    if field.field_type == FieldType::Number && value is Number {
        let ps = value_check(field, value).1;
        let n = value->Number_0;
        let lo = if field.min is Some && n.order < field.min->0.order {
            seq![SubmissionProblem::BelowMin(field.key, field.min->0.display)]
        } else {
            seq![]
        };
        assert(ps == range_problems(field, n));
        if field.min is Some && n.order < field.min->0.order {
            assert(ps[0] == SubmissionProblem::BelowMin(field.key, field.min->0.display));
        }
        if field.max is Some && n.order > field.max->0.order {
            assert(ps[lo.len() as int] == SubmissionProblem::AboveMax(field.key, field.max->0.display));
        }
    }
    if field.field_type == FieldType::Select && value is String {
        let t = value->String_0@;
        match field.options {
            Some(list) => {
                if views(list@).contains(t) {
                    let j = choose|j: int| 0 <= j < views(list@).len() && views(list@)[j] == t;
                    assert(list@[j]@ == t);
                }
                if exists|j: int| 0 <= j < list@.len() && (#[trigger] list@[j])@ == t {
                    let j = choose|j: int| 0 <= j < list@.len() && (#[trigger] list@[j])@ == t;
                    assert(views(list@)[j] == t);
                }
            },
            None => {},
        }
    }
}

/// A required answer that is left out, null, or blank is refused with `Required` under the
/// field's key, and an answer under a key the form does not declare (and that is not reserved)
/// is refused with `UnknownField`.
pub proof fn law_missing_and_unknown_answers_are_refused(
    schema: FormSchema,
    payload: Seq<(String, JsonValue)>,
    i: int,
    k: int,
)
    ensures
        0 <= i < schema.fields@.len() && schema.fields@[i].required && is_absent(
            map_get(payload, schema.fields@[i].key@),
        ) ==> submission_problems(schema, payload).contains(
            SubmissionProblem::Required(schema.fields@[i].key),
        ),
        0 <= k < payload.len() && !is_reserved(payload[k].0@) && !has_field(
            schema.fields@,
            payload[k].0@,
        ) ==> submission_problems(schema, payload).contains(
            SubmissionProblem::UnknownField(payload[k].0),
        ),
{
    let fields = schema.fields@;
    let entries = entries_problems(schema, payload);
    let missing = missing_required(fields, payload, fields.len() as int);
    let all = submission_problems(schema, payload);
    assert(all == entries + missing);
    if 0 <= i < fields.len() && fields[i].required && is_absent(map_get(payload, fields[i].key@)) {
        lemma_missing_is_reported(fields, payload, fields.len() as int, i);
        let j = choose|j: int| 0 <= j < missing.len() && missing[j] == SubmissionProblem::Required(fields[i].key);
        assert(all[entries.len() + j] == SubmissionProblem::Required(fields[i].key));
    }
    if 0 <= k < payload.len() && !is_reserved(payload[k].0@) && !has_field(fields, payload[k].0@) {
        let p = SubmissionProblem::UnknownField(payload[k].0);
        assert(entry_check(schema, payload[k]).1[0] == p);
        lemma_entry_problems_are_reported(schema, payload, k, p);
        let j = choose|j: int| 0 <= j < entries.len() && entries[j] == p;
        assert(all[j] == p);
    }
}

proof fn lemma_missing_is_reported(
    fields: Seq<FieldDefinition>,
    payload: Seq<(String, JsonValue)>,
    n: int,
    i: int,
)
    requires
        0 <= i < n <= fields.len(),
        fields[i].required,
        is_absent(map_get(payload, fields[i].key@)),
    ensures
        missing_required(fields, payload, n).contains(SubmissionProblem::Required(fields[i].key)),
    decreases n,
{
    let earlier = missing_required(fields, payload, n - 1);
    let all = missing_required(fields, payload, n);
    if i < n - 1 {
        lemma_missing_is_reported(fields, payload, n - 1, i);
        let j = choose|j: int| 0 <= j < earlier.len() && earlier[j] == SubmissionProblem::Required(fields[i].key);
        assert(all[j] == earlier[j]);
    } else {
        assert(all[earlier.len() as int] == SubmissionProblem::Required(fields[i].key));
    }
}

proof fn lemma_entry_problems_are_reported(
    schema: FormSchema,
    payload: Seq<(String, JsonValue)>,
    k: int,
    p: SubmissionProblem,
)
    requires
        0 <= k < payload.len(),
        entry_check(schema, payload[k]).1.contains(p),
    ensures
        entries_problems(schema, payload).contains(p),
    decreases payload.len(),
{
    let earlier = entries_problems(schema, payload.drop_last());
    let last = entry_check(schema, payload.last()).1;
    assert(entries_problems(schema, payload) == earlier + last);
    if k < payload.len() - 1 {
        assert(payload.drop_last()[k] == payload[k]);
        lemma_entry_problems_are_reported(schema, payload.drop_last(), k, p);
        let j = choose|j: int| 0 <= j < earlier.len() && earlier[j] == p;
        assert((earlier + last)[j] == p);
    } else {
        let j = choose|j: int| 0 <= j < last.len() && last[j] == p;
        assert((earlier + last)[earlier.len() + j] == p);
    }
}

/// An answer shorter than its field's `min_length` is refused: for a text, textarea or email
/// field with `min_length` `m`, a string answer (not a blank one to a required field) with
/// fewer than `m` characters makes the submission fail with `TooShort(key, m)` among its
/// problems; one longer than the field's maximum fails with `TooLong(key, max)`.
pub proof fn law_answers_outside_their_length_bounds_are_refused(
    schema: FormSchema,
    payload: Seq<(String, JsonValue)>,
    k: int,
    i: int,
)
    requires
        0 <= k < payload.len(),
        first_field(schema.fields@, payload[k].0@, i),
        !is_reserved(payload[k].0@),
        schema.fields@[i].field_type == FieldType::Text || schema.fields@[i].field_type
            == FieldType::Textarea || schema.fields@[i].field_type == FieldType::Email,
        payload[k].1 is String,
        !(schema.fields@[i].required && is_blank(payload[k].1->String_0@)),
        payload[k].1->String_0@.len() <= u32::MAX,
    ensures
        schema.fields@[i].min_length is Some && payload[k].1->String_0@.len()
            < schema.fields@[i].min_length->0 ==> submission_problems(schema, payload).contains(
            SubmissionProblem::TooShort(schema.fields@[i].key, schema.fields@[i].min_length->0),
        ),
        ({
            let max = match schema.fields@[i].max_length {
                Some(m) => m,
                None => MAX_TEXT_LENGTH,
            };
            payload[k].1->String_0@.len() > max ==> submission_problems(schema, payload).contains(
                SubmissionProblem::TooLong(schema.fields@[i].key, max),
            )
        }),
{
    let f = schema.fields@[i];
    lemma_first_field_unique(schema.fields@, payload[k].0@, i);
    assert(entry_check(schema, payload[k]) == value_check(f, payload[k].1));
    let all = submission_problems(schema, payload);
    let entries = entries_problems(schema, payload);
    assert(all == entries + missing_required(schema.fields@, payload, schema.fields@.len() as int));
    match f.min_length {
        Some(m) => {
            if payload[k].1->String_0@.len() < m {
                law_how_a_text_answer_is_judged(f, payload[k].1, m);
                lemma_entry_problems_are_reported(schema, payload, k, SubmissionProblem::TooShort(f.key, m));
                let j = choose|j: int| 0 <= j < entries.len() && entries[j] == SubmissionProblem::TooShort(f.key, m);
                assert(all[j] == SubmissionProblem::TooShort(f.key, m));
            }
        },
        None => {},
    }
    let max = match f.max_length {
        Some(m) => m,
        None => MAX_TEXT_LENGTH,
    };
    if payload[k].1->String_0@.len() > max {
        law_how_a_text_answer_is_judged(f, payload[k].1, max);
        lemma_entry_problems_are_reported(schema, payload, k, SubmissionProblem::TooLong(f.key, max));
        let j = choose|j: int| 0 <= j < entries.len() && entries[j] == SubmissionProblem::TooLong(f.key, max);
        assert(all[j] == SubmissionProblem::TooLong(f.key, max));
    }
}

fn push_submission_problem(problems: &mut Vec<SubmissionProblem>, problem: SubmissionProblem)
    ensures
        final(problems)@ == old(problems)@.push(problem),
{
    problems.push(problem);
}

/// Whether `text` is one of the options.
fn offered(options: &Option<Vec<String>>, text: &String) -> (b: bool)
    ensures
        b == is_option(*options, text@),
{
    match options {
        None => false,
        Some(list) => {
            let mut i: usize = 0;
            while i < list.len()
                invariant
                    *options == Some(*list),
                    i <= list@.len(),
                    forall|j: int| 0 <= j < i ==> (#[trigger] views(list@)[j]) != text@,
                decreases list@.len() - i,
            {
                if list[i].eq(text) {
                    assert(views(list@)[i as int] == text@);
                    return true;
                }
                i = i + 1;
            }
            false
        },
    }
}

/// Checks one answer, appending its problems; returns whether it is stored. Problems are only
/// ever appended, and an answer that is refused without being null always adds one (see
/// [`law_a_refused_answer_is_reported`]).
pub fn check_value(
    field: &FieldDefinition,
    value: &JsonValue,
    problems: &mut Vec<SubmissionProblem>,
) -> (accepted: bool)
    ensures
        accepted == value_check(*field, *value).0,
        final(problems)@ == old(problems)@ + value_check(*field, *value).1,
{
    let ghost start = problems@;
    let ghost expected = value_check(*field, *value);
    match value {
        JsonValue::Null => {
            if field.required {
                push_submission_problem(problems, SubmissionProblem::Required(field.key.clone()));
            }
            proof {
                assert(problems@ =~= start + expected.1);
            }
            return false;
        },
        _ => {},
    }
    match field.field_type {
        FieldType::Text | FieldType::Textarea | FieldType::Email => {
            match value {
                JsonValue::String(text) => {
                    if field.required && blank(text.as_str()) {
                        push_submission_problem(
                            problems,
                            SubmissionProblem::Required(field.key.clone()),
                        );
                        proof {
                            assert(problems@ =~= start + expected.1);
                        }
                        return false;
                    }
                    let count = chars_of(text.as_str()).len();
                    #[verifier::truncate]
                    let count32 = count as u32;
                    if let Some(min) = field.min_length {
                        if count32 < min {
                            push_submission_problem(
                                problems,
                                SubmissionProblem::TooShort(field.key.clone(), min),
                            );
                        }
                    }
                    let max = match field.max_length {
                        Some(m) => m,
                        None => MAX_TEXT_LENGTH,
                    };
                    if count32 > max {
                        push_submission_problem(
                            problems,
                            SubmissionProblem::TooLong(field.key.clone(), max),
                        );
                    }
                    if field.field_type == FieldType::Email && !validate_email(text.as_str()) {
                        push_submission_problem(
                            problems,
                            SubmissionProblem::NotAnEmail(field.key.clone()),
                        );
                    }
                    proof {
                        assert(count32 == counted(text@));
                        assert(problems@ =~= start + expected.1);
                    }
                    true
                },
                _ => {
                    push_submission_problem(
                        problems,
                        SubmissionProblem::NotAString(field.key.clone()),
                    );
                    proof {
                        assert(problems@ =~= start + expected.1);
                    }
                    false
                },
            }
        },
        FieldType::Number => {
            match value {
                JsonValue::Number(number) => {
                    if let Some(min) = &field.min {
                        if number.order < min.order {
                            push_submission_problem(
                                problems,
                                SubmissionProblem::BelowMin(field.key.clone(), min.display.clone()),
                            );
                        }
                    }
                    if let Some(max) = &field.max {
                        if number.order > max.order {
                            push_submission_problem(
                                problems,
                                SubmissionProblem::AboveMax(field.key.clone(), max.display.clone()),
                            );
                        }
                    }
                    proof {
                        assert(problems@ =~= start + expected.1);
                    }
                    true
                },
                _ => {
                    push_submission_problem(
                        problems,
                        SubmissionProblem::NotANumber(field.key.clone()),
                    );
                    proof {
                        assert(problems@ =~= start + expected.1);
                    }
                    false
                },
            }
        },
        FieldType::Date => {
            let ok = match value {
                JsonValue::String(text) => parses_as_iso_date(text.as_str()),
                _ => false,
            };
            if !ok {
                push_submission_problem(problems, SubmissionProblem::NotADate(field.key.clone()));
            }
            proof {
                assert(problems@ =~= start + expected.1);
            }
            ok
        },
        FieldType::Select => {
            match value {
                JsonValue::String(text) => {
                    if !offered(&field.options, text) {
                        push_submission_problem(
                            problems,
                            SubmissionProblem::NotAnOption(field.key.clone()),
                        );
                    }
                    proof {
                        assert(problems@ =~= start + expected.1);
                    }
                    true
                },
                _ => {
                    push_submission_problem(
                        problems,
                        SubmissionProblem::NotAnOption(field.key.clone()),
                    );
                    proof {
                        assert(problems@ =~= start + expected.1);
                    }
                    false
                },
            }
        },
        FieldType::Checkbox => {
            match value {
                JsonValue::Bool(_) => {
                    proof {
                        assert(problems@ =~= start + expected.1);
                    }
                    true
                },
                _ => {
                    push_submission_problem(
                        problems,
                        SubmissionProblem::NotABoolean(field.key.clone()),
                    );
                    proof {
                        assert(problems@ =~= start + expected.1);
                    }
                    false
                },
            }
        },
        FieldType::File => {
            match value {
                JsonValue::String(text) => {
                    if blank(text.as_str()) {
                        push_submission_problem(
                            problems,
                            SubmissionProblem::EmptyFileReference(field.key.clone()),
                        );
                        proof {
                            assert(problems@ =~= start + expected.1);
                        }
                        false
                    } else {
                        proof {
                            assert(problems@ =~= start + expected.1);
                        }
                        true
                    }
                },
                _ => {
                    push_submission_problem(
                        problems,
                        SubmissionProblem::NotAFileReference(field.key.clone()),
                    );
                    proof {
                        assert(problems@ =~= start + expected.1);
                    }
                    false
                },
            }
        },
    }
}

/// Whether an answer counts as missing.
pub fn absent(value: Option<&JsonValue>) -> (b: bool)
    ensures
        b == is_absent(
            match value {
                Some(v) => Some(*v),
                None => None,
            },
        ),
{
    match value {
        None => true,
        Some(JsonValue::Null) => true,
        Some(JsonValue::String(text)) => blank(text.as_str()),
        Some(_) => false,
    }
}

/// The required answers the payload leaves out, in field order.
fn required_problems(schema: &FormSchema, payload: &Vec<(String, JsonValue)>) -> (p: Vec<
    SubmissionProblem,
>)
    ensures
        p@ == missing_required(schema.fields@, payload@, schema.fields@.len() as int),
{
    let mut problems: Vec<SubmissionProblem> = Vec::new();
    let mut i: usize = 0;
    while i < schema.fields.len()
        invariant
            i <= schema.fields@.len(),
            problems@ == missing_required(schema.fields@, payload@, i as int),
        decreases schema.fields@.len() - i,
    {
        let field = &schema.fields[i];
        if field.required {
            let found = map_find(payload, field.key.as_str());
            let missing = match found {
                Some(j) => absent(Some(&payload[j].1)),
                None => absent(None),
            };
            if missing {
                push_submission_problem(&mut problems, SubmissionProblem::Required(field.key.clone()));
            }
        }
        i = i + 1;
        proof {
            assert(problems@ =~= missing_required(schema.fields@, payload@, i as int));
        }
    }
    problems
}

/// Validates a payload against the definition and returns the answers to store.
///
/// Keys beginning with [`RESERVED_PREFIX`] are dropped rather than stored, and every other key
/// must be declared: silently accepting undeclared answers would let a client put anything into
/// an organization's data. Every problem is reported, the entries' first and then the missing
/// required answers.
pub fn validate_submission(schema: &FormSchema, payload: Vec<(String, JsonValue)>) -> (r: Result<
    Vec<(String, JsonValue)>,
    Vec<SubmissionProblem>,
>)
    ensures
        r is Ok <==> submission_problems(*schema, payload@).len() == 0,
        r matches Ok(answers) ==> answers@ == accepted_entries(*schema, payload@),
        r matches Err(problems) ==> problems@ == submission_problems(*schema, payload@),
{
    let missing = required_problems(schema, &payload);
    let ghost entries = payload@;
    let mut problems: Vec<SubmissionProblem> = Vec::new();
    let mut answers: Vec<(String, JsonValue)> = Vec::new();
    for entry in it: payload
        invariant
            it.seq() == entries,
            problems@ == entries_problems(*schema, entries.take(it.index() as int)),
            answers@ == accepted_entries(*schema, entries.take(it.index() as int)),
    {
        let ghost n = it.index() as int;
        let ghost prefix = entries.take(n);
        proof {
            assert(entries.take(n + 1).drop_last() =~= prefix);
            assert(entries.take(n + 1).last() == entries[n]);
        }
        let ghost outcome = entry_check(*schema, entries[n]);
        let key_chars = chars_of(entry.0.as_str());
        if key_chars.len() > 0 && key_chars[0] == RESERVED_PREFIX {
            proof {
                assert(problems@ =~= entries_problems(*schema, entries.take(n + 1)));
            }
        } else {
            match schema.field(entry.0.as_str()) {
                Some(i) => {
                    let ghost before = problems@;
                    let accepted = check_value(&schema.fields[i], &entry.1, &mut problems);
                    if accepted {
                        answers.push(entry);
                    }
                    proof {
                        assert(problems@ =~= before + outcome.1);
                    }
                },
                None => {
                    push_submission_problem(&mut problems, SubmissionProblem::UnknownField(entry.0));
                },
            }
        }
    }
    proof {
        assert(entries.take(entries.len() as int) =~= entries);
    }
    let mut all = problems;
    let mut tail = missing;
    all.append(&mut tail);
    if all.len() == 0 {
        Ok(answers)
    } else {
        Err(all)
    }
}

/// The message each payload problem is reported with.
pub open spec fn submission_problem_message(p: SubmissionProblem) -> Seq<char> {
    match p {
        SubmissionProblem::Required(k) => k@ + " is required"@,
        SubmissionProblem::NotAString(k) => k@ + " must be a string"@,
        SubmissionProblem::TooShort(k, min) => k@ + " must be at least "@ + decimal(min as nat)
            + " characters"@,
        SubmissionProblem::TooLong(k, max) => k@ + " must be at most "@ + decimal(max as nat)
            + " characters"@,
        SubmissionProblem::NotAnEmail(k) => k@ + " must be a valid email address"@,
        SubmissionProblem::NotANumber(k) => k@ + " must be a number"@,
        SubmissionProblem::BelowMin(k, min) => k@ + " must be at least "@ + min@,
        SubmissionProblem::AboveMax(k, max) => k@ + " must be at most "@ + max@,
        SubmissionProblem::NotADate(k) => k@ + " must be a date in YYYY-MM-DD form"@,
        SubmissionProblem::NotAnOption(k) => k@ + " must be one of the listed options"@,
        SubmissionProblem::NotABoolean(k) => k@ + " must be true or false"@,
        SubmissionProblem::NotAFileReference(k) => k@ + " must be an uploaded file reference"@,
        SubmissionProblem::EmptyFileReference(k) => k@ + " must not be empty"@,
        SubmissionProblem::UnknownField(k) => debug_quoted(k@) + " is not a field on this form"@,
    }
}

impl SubmissionProblem {
    /// The message this problem is reported with.
    pub fn message(&self) -> (s: String)
        ensures
            s@ == submission_problem_message(*self),
    {
        match self {
            SubmissionProblem::Required(k) => concat(k.as_str(), " is required"),
            SubmissionProblem::NotAString(k) => concat(k.as_str(), " must be a string"),
            SubmissionProblem::TooShort(k, min) => {
                let mut s = concat(k.as_str(), " must be at least ");
                let n = decimal_string(*min as u64);
                push_str(&mut s, n.as_str());
                push_str(&mut s, " characters");
                s
            },
            SubmissionProblem::TooLong(k, max) => {
                let mut s = concat(k.as_str(), " must be at most ");
                let n = decimal_string(*max as u64);
                push_str(&mut s, n.as_str());
                push_str(&mut s, " characters");
                s
            },
            SubmissionProblem::NotAnEmail(k) => concat(k.as_str(), " must be a valid email address"),
            SubmissionProblem::NotANumber(k) => concat(k.as_str(), " must be a number"),
            SubmissionProblem::BelowMin(k, min) => {
                let mut s = concat(k.as_str(), " must be at least ");
                push_str(&mut s, min.as_str());
                s
            },
            SubmissionProblem::AboveMax(k, max) => {
                let mut s = concat(k.as_str(), " must be at most ");
                push_str(&mut s, max.as_str());
                s
            },
            SubmissionProblem::NotADate(k) => concat(
                k.as_str(),
                " must be a date in YYYY-MM-DD form",
            ),
            SubmissionProblem::NotAnOption(k) => concat(
                k.as_str(),
                " must be one of the listed options",
            ),
            SubmissionProblem::NotABoolean(k) => concat(k.as_str(), " must be true or false"),
            SubmissionProblem::NotAFileReference(k) => concat(
                k.as_str(),
                " must be an uploaded file reference",
            ),
            SubmissionProblem::EmptyFileReference(k) => concat(k.as_str(), " must not be empty"),
            SubmissionProblem::UnknownField(k) => {
                let mut s = debug_string(k.as_str());
                push_str(&mut s, " is not a field on this form");
                s
            },
        }
    }
}

} // verus!

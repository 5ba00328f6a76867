//! Turning a stored submission into the notification email a form's recipients receive.
//!
//! The answers are listed in the order the form declares them, labelled as the form labels
//! them, so the email reads like the form. A key that is no longer on the form is appended
//! rather than dropped: it was still submitted.

use vstd::prelude::*;
use crate::form::model::SubmissionStatus;
use crate::form::validation::{FieldDefinition, FormSchema, field_index};
use crate::json::{
    JsonValue, instant_text, json_quoted, json_text, lemma_map_first_unique, map_find, map_first,
    map_has, push_member, quote_json, rfc3339_instant, write_json,
};
use crate::auth::uuid_text::{uuid_hyphenated, uuid_text};
use crate::form::model::submission_status_name;
use crate::queue::EmailJob;
use crate::text::{
    char_width, chars_of, concat, join, owned, push_str, string_of, utf8_len,
    utf8_width, views,
};

verus! {

/// The event every webhook delivery of a new submission carries.
pub const SUBMISSION_RECEIVED_EVENT: &'static str = "submission.received";

/// The most bytes a notification body may have before it is cut.
pub const MAX_BODY_BYTES: usize = 65536;

/// What a cut body ends with.
pub const TRUNCATION_MARK: &'static str = "\n\n[truncated]\n";

/// Everything a notification needs, read when the event is dispatched. Instants are
/// microseconds since the Unix epoch; identifiers are the 128 bits of a UUID.
#[derive(Debug)]
pub struct NotificationSource {
    pub organization_id: u128,
    pub form_id: u128,
    pub form_name: String,
    pub schema: FormSchema,
    pub notify_emails: Vec<String>,
    pub submission_id: u128,
    pub data: JsonValue,
    pub status: SubmissionStatus,
    pub created_at: i64,
}

// ------------------------------------------------------------------------------------------
// Cutting
// ------------------------------------------------------------------------------------------

/// The longest prefix of `s` whose UTF-8 encoding fits in `limit` bytes.
pub open spec fn fitting_prefix(s: Seq<char>, limit: nat) -> Seq<char>
    decreases s.len(),
{
    if utf8_len(s) <= limit {
        s
    } else {
        fitting_prefix(s.drop_last(), limit)
    }
}

/// A text cut to `limit` bytes on a character boundary, with a mark saying so; a text that fits
/// is left alone.
pub open spec fn cut(s: Seq<char>, limit: nat) -> Seq<char> {
    if utf8_len(s) <= limit {
        s
    } else {
        fitting_prefix(s, limit) + TRUNCATION_MARK@
    }
}

proof fn lemma_utf8_len_take(s: Seq<char>, i: int)
    requires
        0 <= i < s.len(),
    ensures
        utf8_len(s.take(i + 1)) == utf8_len(s.take(i)) + utf8_width(s[i]),
{
    assert(s.take(i + 1).drop_last() =~= s.take(i));
}

proof fn lemma_utf8_len_monotone(s: Seq<char>, i: int, j: int)
    requires
        0 <= i <= j <= s.len(),
    ensures
        utf8_len(s.take(i)) <= utf8_len(s.take(j)),
    decreases j - i,
{
    if i < j {
        lemma_utf8_len_monotone(s, i, j - 1);
        lemma_utf8_len_take(s, j - 1);
    }
}

/// The fitting prefix is the longest prefix that fits: a prefix of `k` characters that fits
/// while `k + 1` would not.
proof fn lemma_fitting_prefix(s: Seq<char>, limit: nat, k: int)
    requires
        0 <= k <= s.len(),
        utf8_len(s.take(k)) <= limit,
        k == s.len() || utf8_len(s.take(k + 1)) > limit,
    ensures
        fitting_prefix(s, limit) == s.take(k),
    decreases s.len(),
{
    if utf8_len(s) <= limit {
        if k < s.len() {
            lemma_utf8_len_monotone(s, k + 1, s.len() as int);
            assert(s.take(s.len() as int) =~= s);
        }
        assert(s.take(k) =~= s);
    } else {
        assert(k < s.len()) by {
            if k == s.len() {
                assert(s.take(k) =~= s);
            }
        }
        let t = s.drop_last();
        assert(t.take(k) =~= s.take(k));
        if k + 1 <= t.len() {
            assert(t.take(k + 1) =~= s.take(k + 1));
        }
        lemma_fitting_prefix(t, limit, k);
    }
}

/// Cuts a text to `limit` bytes on a character boundary, so a message stops rather than
/// panics, and marks the cut.
pub fn truncate(text: &mut String, limit: usize)
    ensures
        final(text)@ == cut(old(text)@, limit as nat),
{
    let v = chars_of(text.as_str());
    let mut used: usize = 0;
    let mut k: usize = 0;
    while k < v.len()
        invariant
            v@ == old(text)@,
            text@ == old(text)@,
            k <= v@.len(),
            used == utf8_len(v@.take(k as int)),
            used <= limit,
        ensures
            k <= v@.len(),
            used == utf8_len(v@.take(k as int)),
            used <= limit,
            k == v@.len() || used + utf8_width(v@[k as int]) > limit,
        decreases v@.len() - k,
    {
        let w = char_width(v[k]);
        if w > limit - used {
            break;
        }
        proof {
            lemma_utf8_len_take(v@, k as int);
        }
        used = used + w;
        k = k + 1;
    }
    proof {
        if k < v@.len() {
            lemma_utf8_len_take(v@, k as int);
        }
        lemma_fitting_prefix(v@, limit as nat, k as int);
    }
    if k == v.len() {
        assert(v@.take(k as int) =~= v@);
        return;
    }
    proof {
        lemma_utf8_len_monotone(v@, k + 1, v@.len() as int);
        assert(v@.take(v@.len() as int) =~= v@);
    }
    let mut kept: Vec<char> = Vec::new();
    let mut i: usize = 0;
    while i < k
        invariant
            k < v@.len(),
            i <= k,
            kept@ == v@.take(i as int),
        decreases k - i,
    {
        kept.push(v[i]);
        i = i + 1;
        assert(kept@ =~= v@.take(i as int));
    }
    let mut cut_text = string_of(kept.as_slice());
    push_str(&mut cut_text, TRUNCATION_MARK);
    *text = cut_text;
}

proof fn lemma_utf8_len_concat(a: Seq<char>, b: Seq<char>)
    ensures
        utf8_len(a + b) == utf8_len(a) + utf8_len(b),
    decreases b.len(),
{
    if b.len() == 0 {
        assert(a + b =~= a);
    } else {
        lemma_utf8_len_concat(a, b.drop_last());
        assert((a + b).drop_last() =~= a + b.drop_last());
    }
}

proof fn lemma_fitting_prefix_fits(s: Seq<char>, limit: nat)
    ensures
        utf8_len(fitting_prefix(s, limit)) <= limit,
    decreases s.len(),
{
    if utf8_len(s) > limit {
        lemma_fitting_prefix_fits(s.drop_last(), limit);
    }
}

proof fn lemma_fitting_prefix_is_prefix(s: Seq<char>, limit: nat)
    ensures
        fitting_prefix(s, limit).len() <= s.len(),
        fitting_prefix(s, limit) == s.take(fitting_prefix(s, limit).len() as int),
    decreases s.len(),
{
    if utf8_len(s) <= limit {
        assert(s.take(s.len() as int) =~= s);
    } else {
        let t = s.drop_last();
        lemma_fitting_prefix_is_prefix(t, limit);
        assert(t.take(fitting_prefix(t, limit).len() as int) =~= s.take(
            fitting_prefix(t, limit).len() as int,
        ));
    }
}

/// A cut text never runs more than the mark past its limit, and a text is cut exactly when it
/// does not fit, in which case it is a whole-character prefix of the text followed by the mark.
pub proof fn law_a_cut_text_stays_within_its_limit(s: Seq<char>, limit: nat)
    ensures
        utf8_len(cut(s, limit)) <= limit + utf8_len(TRUNCATION_MARK@),
        utf8_len(s) <= limit ==> cut(s, limit) == s,
        utf8_len(s) > limit ==> cut(s, limit).skip(
            cut(s, limit).len() - TRUNCATION_MARK@.len(),
        ) == TRUNCATION_MARK@,
        utf8_len(s) > limit ==> exists|k: int|
            0 <= k <= s.len() && #[trigger] s.take(k) + TRUNCATION_MARK@ == cut(s, limit),
{
    if utf8_len(s) > limit {
        lemma_fitting_prefix_is_prefix(s, limit);
        let k = fitting_prefix(s, limit).len() as int;
        assert(s.take(k) + TRUNCATION_MARK@ == cut(s, limit));
        lemma_fitting_prefix_fits(s, limit);
        lemma_utf8_len_concat(fitting_prefix(s, limit), TRUNCATION_MARK@);
        let c = cut(s, limit);
        assert(c.skip(c.len() - TRUNCATION_MARK@.len()) =~= TRUNCATION_MARK@);
    }
}

// ------------------------------------------------------------------------------------------
// Answers
// ------------------------------------------------------------------------------------------

/// How an answer reads in an email. A list arrives as JSON, and flattening it is what a reader
/// expects; an object is left as JSON because there is no better rendering.
pub open spec fn rendered(value: JsonValue) -> Seq<char>
    decreases value, 0int,
{
    match value {
        JsonValue::Null => seq![],
        JsonValue::String(text) => text@,
        JsonValue::Bool(flag) => if flag {
            "true"@
        } else {
            "false"@
        },
        JsonValue::Number(number) => number.text@,
        JsonValue::Array(items, _) => join(rendered_items(items@, items@.len() as int), ", "@),
        JsonValue::Object(_, text) => text@,
    }
}

/// The renderings of the first `n` items of a list.
pub open spec fn rendered_items(items: Seq<JsonValue>, n: int) -> Seq<Seq<char>>
    decreases items, n,
{
    if n <= 0 || n > items.len() {
        seq![]
    } else {
        rendered_items(items, n - 1).push(rendered(items[n - 1]))
    }
}

/// Renders an answer for an email.
pub fn render_value(value: &JsonValue) -> (r: String)
    ensures
        r@ == rendered(*value),
    decreases value,
{
    match value {
        JsonValue::Null => String::new(),
        JsonValue::String(text) => text.clone(),
        JsonValue::Bool(flag) => if *flag {
            owned("true")
        } else {
            owned("false")
        },
        JsonValue::Number(number) => number.text.clone(),
        JsonValue::Array(items, _) => {
            let mut pieces: Vec<String> = Vec::new();
            let mut i: usize = 0;
            while i < items.len()
                invariant
                    *value == JsonValue::Array(*items, value->Array_1),
                    i <= items@.len(),
                    views(pieces@) == rendered_items(items@, i as int),
                decreases items@.len() - i,
            {
                proof {
                    assert(decreases_to!(*value => value->Array_0));
                    assert(decreases_to!(value->Array_0 => items@));
                    assert(decreases_to!(items@ => items@[i as int]));
                }
                let piece = render_value(&items[i]);
                let ghost before = pieces@;
                pieces.push(piece);
                assert(views(pieces@) =~= views(before).push(piece@));
                i = i + 1;
            }
            crate::text::join_strings(&pieces, ", ")
        },
        JsonValue::Object(_, text) => text.clone(),
    }
}

/// Whether `i` is the entry an object yields for `key`: the first with it.
pub open spec fn entry_of(entries: Seq<(String, JsonValue)>, key: Seq<char>) -> Option<int> {
    if map_has(entries, key) {
        Some(choose|i: int| map_first(entries, key, i))
    } else {
        None
    }
}

/// The declared answers among the first `n` fields: the label of each field that was answered,
/// with the entry that answers it.
pub open spec fn declared_answers(
    fields: Seq<FieldDefinition>,
    entries: Seq<(String, JsonValue)>,
    n: int,
) -> Seq<(Seq<char>, int)>
    decreases n,
{
    if n <= 0 {
        seq![]
    } else {
        let earlier = declared_answers(fields, entries, n - 1);
        match entry_of(entries, fields[n - 1].key@) {
            Some(i) => earlier.push((fields[n - 1].label@, i)),
            None => earlier,
        }
    }
}

/// Whether an entry answers no field of the form.
pub open spec fn undeclared(fields: Seq<FieldDefinition>, entries: Seq<(String, JsonValue)>, i: int) -> bool {
    0 <= i < entries.len() && field_index(fields, entries[i].0@) is None
}

/// Whether `a` sorts no later than `b`: character by character, a prefix first. This is the
/// order of `String`, whose bytes compare as the characters they encode do.
pub open spec fn text_le(a: Seq<char>, b: Seq<char>) -> bool
    decreases a.len(),
{
    if a.len() == 0 {
        true
    } else if b.len() == 0 {
        false
    } else if a[0] != b[0] {
        a[0] < b[0]
    } else {
        text_le(a.drop_first(), b.drop_first())
    }
}

proof fn lemma_text_le_total(a: Seq<char>, b: Seq<char>)
    ensures
        text_le(a, b) || text_le(b, a),
    decreases a.len(),
{
    if a.len() > 0 && b.len() > 0 {
        if a[0] == b[0] {
            lemma_text_le_total(a.drop_first(), b.drop_first());
        }
    }
}

proof fn lemma_text_le_transitive(a: Seq<char>, b: Seq<char>, c: Seq<char>)
    requires
        text_le(a, b),
        text_le(b, c),
    ensures
        text_le(a, c),
    decreases a.len(),
{
    if a.len() > 0 && b.len() > 0 && c.len() > 0 && a[0] == b[0] && b[0] == c[0] {
        lemma_text_le_transitive(a.drop_first(), b.drop_first(), c.drop_first());
    }
}

fn text_le_exec(a: &String, b: &String) -> (r: bool)
    ensures
        r == text_le(a@, b@),
{
    let x = chars_of(a.as_str());
    let y = chars_of(b.as_str());
    let mut i: usize = 0;
    proof {
        assert(x@.skip(0) =~= x@);
        assert(y@.skip(0) =~= y@);
    }
    while i < x.len() && i < y.len() && x[i] == y[i]
        invariant
            x@ == a@,
            y@ == b@,
            i <= x@.len(),
            i <= y@.len(),
            text_le(x@.skip(i as int), y@.skip(i as int)) == text_le(a@, b@),
        decreases x@.len() - i,
    {
        proof {
            assert(x@.skip(i as int).drop_first() =~= x@.skip(i + 1));
            assert(y@.skip(i as int).drop_first() =~= y@.skip(i + 1));
        }
        i = i + 1;
    }
    if i == x.len() {
        true
    } else if i == y.len() {
        false
    } else {
        x[i] < y[i]
    }
}

/// Whether a list of entry indices is in key order.
pub open spec fn sorted_by_key(entries: Seq<(String, JsonValue)>, order: Seq<usize>) -> bool {
    forall|a: int, b: int|
        0 <= a < b < order.len() ==> text_le(
            entries[order[a] as int].0@,
            entries[order[b] as int].0@,
        )
}

/// Whether entry `i` is in a list of entry indices.
pub open spec fn lists_entry(order: Seq<usize>, i: int) -> bool {
    exists|a: int| 0 <= a < order.len() && order[a] as int == i
}

/// The entries that answer no field, in key order: each such entry once, and nothing else.
pub open spec fn undeclared_in_order(
    fields: Seq<FieldDefinition>,
    entries: Seq<(String, JsonValue)>,
    order: Seq<usize>,
) -> bool {
    &&& sorted_by_key(entries, order)
    &&& order.no_duplicates()
    &&& forall|i: int|
        0 <= i < entries.len() ==> (undeclared(fields, entries, i) <==> lists_entry(order, i))
    &&& forall|a: int| 0 <= a < order.len() ==> (order[a] as int) < entries.len()
}

/// Inserts entry `x` into a key-ordered list, after every entry whose key sorts no later.
fn insert_sorted(entries: &Vec<(String, JsonValue)>, order: &mut Vec<usize>, x: usize)
    requires
        x < entries@.len(),
        sorted_by_key(entries@, old(order)@),
        forall|a: int| 0 <= a < old(order)@.len() ==> (old(order)@[a] as int) < entries@.len(),
    ensures
        sorted_by_key(entries@, final(order)@),
        final(order)@.to_set() == old(order)@.to_set().insert(x),
        final(order)@.len() == old(order)@.len() + 1,
        forall|a: int| 0 <= a < final(order)@.len() ==> (final(order)@[a] as int) < entries@.len(),
        exists|p: int| 0 <= p <= old(order)@.len() && final(order)@ == old(order)@.insert(p, x),
{
    let ghost before = order@;
    let mut p: usize = 0;
    while p < order.len() && text_le_exec(&entries[order[p]].0, &entries[x].0)
        invariant
            order@ == before,
            x < entries@.len(),
            p <= order@.len(),
            forall|a: int| 0 <= a < order@.len() ==> (order@[a] as int) < entries@.len(),
            forall|a: int| 0 <= a < p ==> text_le(entries@[order@[a] as int].0@, entries@[x as int].0@),
        decreases order@.len() - p,
    {
        p = p + 1;
    }
    proof {
        if p < before.len() {
            lemma_text_le_total(entries@[before[p as int] as int].0@, entries@[x as int].0@);
        }
    }
    order.insert(p, x);
    proof {
        let after = order@;
        assert(after == before.insert(p as int, x));
        assert forall|a: int, b: int| 0 <= a < b < after.len() implies text_le(
            entries@[after[a] as int].0@,
            entries@[after[b] as int].0@,
        ) by {
            if b < p {
                assert(after[a] == before[a] && after[b] == before[b]);
            } else if b == p {
                assert(after[a] == before[a]);
            } else if a < p {
                assert(after[a] == before[a] && after[b] == before[b - 1]);
                if p < before.len() {
                    lemma_text_le_transitive(
                        entries@[before[a] as int].0@,
                        entries@[x as int].0@,
                        entries@[before[p as int] as int].0@,
                    );
                    if b - 1 > p {
                        lemma_text_le_transitive(
                            entries@[before[a] as int].0@,
                            entries@[before[p as int] as int].0@,
                            entries@[before[b - 1] as int].0@,
                        );
                    }
                }
            } else if a == p {
                assert(after[b] == before[b - 1]);
                if b - 1 > p {
                    lemma_text_le_transitive(
                        entries@[x as int].0@,
                        entries@[before[p as int] as int].0@,
                        entries@[before[b - 1] as int].0@,
                    );
                }
            } else {
                assert(after[a] == before[a - 1] && after[b] == before[b - 1]);
            }
        }
        assert(after.to_set() =~= before.to_set().insert(x)) by {
            assert forall|y: usize| after.to_set().contains(y) <==> before.to_set().insert(x).contains(y) by {
                if after.to_set().contains(y) {
                    let a = choose|a: int| 0 <= a < after.len() && after[a] == y;
                    if a < p {
                        assert(before[a] == y);
                    } else if a > p {
                        assert(before[a - 1] == y);
                    }
                }
                if before.to_set().contains(y) {
                    let a = choose|a: int| 0 <= a < before.len() && before[a] == y;
                    if a < p {
                        assert(after[a] == y);
                    } else {
                        assert(after[a + 1] == y);
                    }
                }
                if y == x {
                    assert(after[p as int] == y);
                }
            }
        }
    }
}

/// The entries that answer no field of the form, in key order.
fn undeclared_entries(schema: &FormSchema, entries: &Vec<(String, JsonValue)>) -> (order: Vec<usize>)
    ensures
        undeclared_in_order(schema.fields@, entries@, order@),
{
    let mut order: Vec<usize> = Vec::new();
    let mut i: usize = 0;
    while i < entries.len()
        invariant
            i <= entries@.len(),
            sorted_by_key(entries@, order@),
            order@.no_duplicates(),
            forall|a: int| 0 <= a < order@.len() ==> (order@[a] as int) < i,
            forall|k: int| 0 <= k < i ==> (undeclared(schema.fields@, entries@, k) <==> order@.contains(k as usize)),
        decreases entries@.len() - i,
    {
        if schema.field(entries[i].0.as_str()).is_none() {
            let ghost before = order@;
            insert_sorted(entries, &mut order, i);
            proof {
                assert(before.to_set().contains(i) == false) by {
                    if before.to_set().contains(i) {
                        let a = choose|a: int| 0 <= a < before.len() && before[a] == i;
                    }
                }
                let p = choose|p: int| 0 <= p <= before.len() && order@ == before.insert(p, i);
                assert forall|a: int, b: int| 0 <= a < b < order@.len() implies order@[a] != order@[b] by {
                    if a < p && b < p {
                    } else if a < p && b == p {
                    } else if a < p {
                        assert(order@[b] == before[b - 1]);
                    } else if a == p {
                        assert(order@[b] == before[b - 1]);
                    } else {
                        assert(order@[a] == before[a - 1] && order@[b] == before[b - 1]);
                    }
                }
                assert forall|a: int| 0 <= a < order@.len() implies (order@[a] as int) < i + 1 by {
                    if a < p {
                        assert(order@[a] == before[a]);
                    } else if a > p {
                        assert(order@[a] == before[a - 1]);
                    }
                }
                assert forall|k: int| 0 <= k < i + 1 implies (undeclared(schema.fields@, entries@, k) <==> order@.contains(k as usize)) by {
                    assert(order@.contains(k as usize) <==> order@.to_set().contains(k as usize));
                    assert(before.contains(k as usize) <==> before.to_set().contains(k as usize));
                }
            }
        } else {
            proof {
                assert(!order@.contains(i)) by {
                    if order@.contains(i) {
                        let a = choose|a: int| 0 <= a < order@.len() && order@[a] == i;
                    }
                }
            }
        }
        i = i + 1;
    }
    assert forall|k: int| 0 <= k < entries@.len() implies (undeclared(schema.fields@, entries@, k) <==> lists_entry(order@, k)) by {
        if order@.contains(k as usize) {
            let a = choose|a: int| 0 <= a < order@.len() && order@[a] == k as usize;
            assert(order@[a] as int == k);
        }
        if lists_entry(order@, k) {
            let a = choose|a: int| 0 <= a < order@.len() && order@[a] as int == k;
            assert(order@[a] == k as usize);
        }
    }
    order
}

/// Whether `r` lists the answers of `data` as (caption, entry index) pairs: first the declared
/// ones, labelled and in the form's order, then the undeclared ones under their keys, in key
/// order. Data that is not an object has none.
pub open spec fn answers_listed(schema: FormSchema, data: JsonValue, r: Seq<(String, usize)>) -> bool {
    match data {
        JsonValue::Object(entries, _) => {
            let declared = declared_answers(schema.fields@, entries@, schema.fields@.len() as int);
            &&& r.len() >= declared.len()
            &&& forall|a: int|
                0 <= a < declared.len() ==> (#[trigger] r[a]).0@ == declared[a].0 && r[a].1 as int
                    == declared[a].1
            &&& undeclared_in_order(
                schema.fields@,
                entries@,
                r.skip(declared.len() as int).map_values(|p: (String, usize)| p.1),
            )
            &&& forall|a: int|
                declared.len() <= a < r.len() ==> (#[trigger] r[a]).0@ == entries@[r[a].1 as int].0@
        },
        _ => r.len() == 0,
    }
}

/// The answers of a submission as (caption, entry index) pairs: the declared ones labelled and in
/// the form's order, then the undeclared ones under their keys, in key order. Data that is not an
/// object has none.
pub fn answers(schema: &FormSchema, data: &JsonValue) -> (r: Vec<(String, usize)>)
    ensures
        answers_listed(*schema, *data, r@),
        match *data {
            JsonValue::Object(entries, _) => forall|a: int|
                0 <= a < r@.len() ==> (r@[a].1 as int) < entries@.len(),
            _ => true,
        },
{
    let entries = match data {
        JsonValue::Object(entries, _) => entries,
        _ => {
            return Vec::new();
        },
    };
    let mut r: Vec<(String, usize)> = Vec::new();
    let mut f: usize = 0;
    while f < schema.fields.len()
        invariant
            *data == JsonValue::Object(*entries, data->Object_1),
            f <= schema.fields@.len(),
            r@.len() == declared_answers(schema.fields@, entries@, f as int).len(),
            forall|a: int| 0 <= a < r@.len() ==> (r@[a].1 as int) < entries@.len(),
            forall|a: int| 0 <= a < r@.len() ==> (#[trigger] r@[a]).0@ == declared_answers(schema.fields@, entries@, f as int)[a].0
                && r@[a].1 as int == declared_answers(schema.fields@, entries@, f as int)[a].1,
        decreases schema.fields@.len() - f,
    {
        let field = &schema.fields[f];
        match map_find(entries, field.key.as_str()) {
            Some(i) => {
                proof {
                    lemma_map_first_unique(entries@, field.key@, i as int);
                }
                r.push((field.label.clone(), i));
            },
            None => {},
        }
        f = f + 1;
    }
    let ghost declared_len = r@.len();
    let order = undeclared_entries(schema, entries);
    let mut k: usize = 0;
    while k < order.len()
        invariant
            *data == JsonValue::Object(*entries, data->Object_1),
            undeclared_in_order(schema.fields@, entries@, order@),
            r@.len() == declared_len + k,
            declared_len == declared_answers(schema.fields@, entries@, schema.fields@.len() as int).len(),
            k <= order@.len(),
            forall|a: int| 0 <= a < declared_len ==> (#[trigger] r@[a]).0@ == declared_answers(schema.fields@, entries@, schema.fields@.len() as int)[a].0
                && r@[a].1 as int == declared_answers(schema.fields@, entries@, schema.fields@.len() as int)[a].1,
            forall|a: int| 0 <= a < k ==> r@[declared_len + a].1 == order@[a],
            forall|a: int| 0 <= a < r@.len() ==> (r@[a].1 as int) < entries@.len(),
            forall|a: int| declared_len <= a < r@.len() ==> (#[trigger] r@[a]).0@ == entries@[r@[a].1 as int].0@,
        decreases order@.len() - k,
    {
        let index = order[k];
        r.push((entries[index].0.clone(), index));
        k = k + 1;
    }
    assert(r@.skip(declared_len as int).map_values(|p: (String, usize)| p.1) =~= order@);
    r
}

/// No answer is dropped from a notification: every entry that answers no field of the form is
/// listed after the declared ones, under its own key.
pub proof fn law_no_answer_is_dropped(
    schema: FormSchema,
    data: JsonValue,
    listed: Seq<(String, usize)>,
    i: int,
)
    requires
        answers_listed(schema, data, listed),
        data matches JsonValue::Object(entries, _) && undeclared(schema.fields@, entries@, i),
    ensures
        exists|a: int|
            0 <= a < listed.len() && listed[a].1 as int == i && listed[a].0@ == data->Object_0@[i].0@,
{
    let entries = data->Object_0;
    let declared = declared_answers(schema.fields@, entries@, schema.fields@.len() as int);
    let tail = listed.skip(declared.len() as int).map_values(|p: (String, usize)| p.1);
    assert(lists_entry(tail, i));
    let b = choose|b: int| 0 <= b < tail.len() && tail[b] as int == i;
    let a = declared.len() + b;
    assert(listed[a].1 == tail[b]);
    assert(listed[a].0@ == entries@[listed[a].1 as int].0@);
    assert(0 <= a < listed.len() && listed[a].1 as int == i && listed[a].0@ == data->Object_0@[i].0@);
}

// ------------------------------------------------------------------------------------------
// The email
// ------------------------------------------------------------------------------------------

/// What `chrono` prints for an instant with `%Y-%m-%d %H:%M UTC`; nothing for an instant it
/// cannot represent.
pub uninterp spec fn utc_minute_stamp(micros: i64) -> Seq<char>;

/// `DateTime::<Utc>::from_timestamp_micros` followed by `format("%Y-%m-%d %H:%M UTC")`.
#[verifier::external_body]
fn received_stamp(micros: i64) -> (r: String)
    ensures
        r@ == utc_minute_stamp(micros),
{
    match chrono::DateTime::from_timestamp_micros(micros) {
        Some(instant) => instant.format("%Y-%m-%d %H:%M UTC").to_string(),
        None => String::new(),
    }
}

/// The line an answer takes: two spaces, its caption, a colon, and the rendered value.
pub open spec fn answer_line(caption: Seq<char>, value: JsonValue) -> Seq<char> {
    "  "@ + caption + ": "@ + rendered(value) + "\n"@
}

/// The lines of the first `n` answers.
pub open spec fn answer_lines(
    answers: Seq<(String, usize)>,
    entries: Seq<(String, JsonValue)>,
    n: int,
) -> Seq<char>
    decreases n,
{
    if n <= 0 {
        seq![]
    } else {
        answer_lines(answers, entries, n - 1) + answer_line(
            answers[n - 1].0@,
            entries[answers[n - 1].1 as int].1,
        )
    }
}

/// The body before it is cut: who received it, one line per answer, and when.
pub open spec fn full_body(
    form_name: Seq<char>,
    lines: Seq<char>,
    stamp: Seq<char>,
) -> Seq<char> {
    form_name + " received a new submission.\n\n"@ + lines + "\nReceived "@ + stamp + ".\n"@
}

/// Whether `body` is the notification body of a source: who received it, one line per answer
/// in the order [`answers_listed`] describes, and when; cut to [`MAX_BODY_BYTES`].
pub open spec fn notification_body(source: NotificationSource, body: Seq<char>) -> bool {
    exists|listed: Seq<(String, usize)>|
        #[trigger] answers_listed(source.schema, source.data, listed) && body == cut(
            full_body(
                source.form_name@,
                match source.data {
                    JsonValue::Object(entries, _) => answer_lines(listed, entries@, listed.len() as int),
                    _ => seq![],
                },
                utc_minute_stamp(source.created_at),
            ),
            MAX_BODY_BYTES as nat,
        )
}

/// The body of a notification: who received it, one line per answer in the order of
/// [`answers`], and when; cut to [`MAX_BODY_BYTES`].
pub fn email_body(source: &NotificationSource) -> (body: String)
    ensures
        notification_body(*source, body@),
{
    let mut body = concat(source.form_name.as_str(), " received a new submission.\n\n");
    let ghost start = body@;
    let listed = answers(&source.schema, &source.data);
    match &source.data {
        JsonValue::Object(entries, _) => {
            let mut k: usize = 0;
            while k < listed.len()
                invariant
                    source.data == JsonValue::Object(*entries, source.data->Object_1),
                    k <= listed@.len(),
                    forall|a: int| 0 <= a < listed@.len() ==> (listed@[a].1 as int) < entries@.len(),
                    body@ == start + answer_lines(listed@, entries@, k as int),
                decreases listed@.len() - k,
            {
                let (caption, index) = (&listed[k].0, listed[k].1);
                push_str(&mut body, "  ");
                push_str(&mut body, caption.as_str());
                push_str(&mut body, ": ");
                let value = render_value(&entries[index].1);
                push_str(&mut body, value.as_str());
                push_str(&mut body, "\n");
                k = k + 1;
            }
        },
        _ => {},
    }
    let stamp = received_stamp(source.created_at);
    push_str(&mut body, "\nReceived ");
    push_str(&mut body, stamp.as_str());
    push_str(&mut body, ".\n");
    truncate(&mut body, MAX_BODY_BYTES);
    body
}

/// One email per recipient. A separate message each is what lets a bounce be attributed, and
/// keeps an address from being visible to the others.
pub fn notification_email(source: &NotificationSource, recipient: &str) -> (job: EmailJob)
    ensures
        job.to@ == recipient@,
        job.subject@ == "New submission for \""@ + source.form_name@ + "\""@,
        notification_body(*source, job.text_body@),
{
    let mut subject = concat("New submission for \"", source.form_name.as_str());
    push_str(&mut subject, "\"");
    EmailJob { to: owned(recipient), subject, text_body: email_body(source) }
}

// ------------------------------------------------------------------------------------------
// The webhook body
// ------------------------------------------------------------------------------------------

/// The webhook body of a submission: the event, the form, and the submission, each object's
/// members in the order `serde_json` keeps them (by name).
pub open spec fn webhook_text(source: NotificationSource) -> Seq<char> {
    "{\"event\":"@ + json_quoted(SUBMISSION_RECEIVED_EVENT@) + ",\"form\":{\"id\":"@ + json_quoted(
        uuid_hyphenated(source.form_id),
    ) + ",\"name\":"@ + json_quoted(source.form_name@) + "},\"submission\":{\"created_at\":"@
        + json_quoted(rfc3339_instant(source.created_at)) + ",\"data\":"@ + json_text(source.data)
        + ",\"id\":"@ + json_quoted(uuid_hyphenated(source.submission_id)) + ",\"status\":"@
        + json_quoted(submission_status_name(source.status)) + "}}"@
}

/// The body every matching endpoint receives, byte for byte. The signature covers exactly these
/// bytes, so this is rendered once per submission rather than once per endpoint.
pub fn webhook_payload(source: &NotificationSource) -> (r: String)
    ensures
        r@ == webhook_text(*source),
{
    let mut out = String::new();
    let event = quote_json(SUBMISSION_RECEIVED_EVENT);
    push_member(&mut out, "{\"event\":", event.as_str());
    let form_id = quote_json(uuid_text(source.form_id).as_str());
    push_member(&mut out, ",\"form\":{\"id\":", form_id.as_str());
    let form_name = quote_json(source.form_name.as_str());
    push_member(&mut out, ",\"name\":", form_name.as_str());
    let instant = quote_json(instant_text(source.created_at).as_str());
    push_member(&mut out, "},\"submission\":{\"created_at\":", instant.as_str());
    let answers = write_json(&source.data);
    push_member(&mut out, ",\"data\":", answers.as_str());
    let id = quote_json(uuid_text(source.submission_id).as_str());
    push_member(&mut out, ",\"id\":", id.as_str());
    let status = quote_json(source.status.as_str());
    push_member(&mut out, ",\"status\":", status.as_str());
    push_str(&mut out, "}}");
    proof {
        assert(out@ =~= webhook_text(*source));
    }
    out
}

} // verus!
